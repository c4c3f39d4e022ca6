use polar_clock::{anim_delta, AnimPhase, TimeArc, TimeArcMsg, PROGRESS_ONE};

#[test]
fn per_tick_decrement() {
    // A 20 ms tick of a two-second animation is a hundredth of a turn.
    assert_eq!(anim_delta(20, 2_000), 10_000);
    // A zero duration snaps in one tick.
    assert_eq!(anim_delta(20, 0), PROGRESS_ONE);
    // The decrement never falls to zero, so every animation ends.
    assert_eq!(anim_delta(1, u32::MAX), 1);
    // And a tick longer than the duration is one whole turn at most.
    assert_eq!(anim_delta(5_000, 2), PROGRESS_ONE);
}

#[test]
fn non_decreasing_targets_snap() {
    // While targets never decrease, each one is displayed the moment it
    // arrives and no animation starts.
    let targets = [100_000, 100_000, 250_000, 250_001, 900_000, PROGRESS_ONE];
    let mut arc = TimeArc::create(targets[0]);
    for &t in &targets {
        arc.change(t);
        assert_eq!(arc.shown, t);
        assert!(matches!(arc.phase, AnimPhase::Idle));
    }
}

#[test]
fn rollover_shrinks_tick_by_tick() {
    // A minute rollover: targets 0.9, 0.9, 0.05 of a turn. The ring keeps
    // showing 0.9 until its delay has elapsed, then shrinks strictly,
    // never below the target, and reaches it in exactly the gap divided
    // by the decrement, rounded up.
    let mut arc = TimeArc::create(900_000);
    assert!(!arc.change(900_000));
    assert_eq!(arc.shown, 900_000);

    assert!(arc.change(50_000));
    assert!(matches!(arc.phase, AnimPhase::Delaying));
    assert_eq!(arc.shown, 900_000);

    arc.update(TimeArcMsg::StartAnimation);
    assert!(matches!(arc.phase, AnimPhase::Animating));

    let delta = anim_delta(20, 2_000);
    let mut ticks = 0;
    let mut last = arc.shown;
    while matches!(arc.phase, AnimPhase::Animating) {
        arc.update(TimeArcMsg::TickAnimation(delta));
        ticks += 1;
        assert!(arc.shown < last, "the displayed value must strictly decrease");
        assert!(arc.shown >= 50_000, "the displayed value must not pass the target");
        last = arc.shown;
        assert!(ticks <= 85, "the animation must end within the bound");
    }
    assert_eq!(ticks, 85, "ceil(850000 / 10000) ticks");
    assert_eq!(arc.shown, 50_000);
    assert!(matches!(arc.phase, AnimPhase::Idle));
}

#[test]
fn late_target_wins() {
    // A second rollover while the animation runs only retargets it.
    let mut arc = TimeArc::create(900_000);
    arc.change(50_000);
    arc.update(TimeArcMsg::StartAnimation);
    arc.update(TimeArcMsg::TickAnimation(10_000));
    assert_eq!(arc.shown, 890_000);
    arc.change(20_000);
    assert!(matches!(arc.phase, AnimPhase::Animating));
    assert_eq!(arc.shown, 890_000);
    while matches!(arc.phase, AnimPhase::Animating) {
        arc.update(TimeArcMsg::TickAnimation(10_000));
    }
    assert_eq!(arc.shown, 20_000);
}

#[test]
fn rollover_during_delay_only_retargets() {
    let mut arc = TimeArc::create(900_000);
    arc.change(50_000);
    assert!(matches!(arc.phase, AnimPhase::Delaying));
    arc.change(40_000);
    assert!(matches!(arc.phase, AnimPhase::Delaying));
    assert_eq!(arc.target, 40_000);
    assert_eq!(arc.shown, 900_000);
}

#[test]
fn advance_during_animation_snaps_forward() {
    // If the target catches up with the displayed value, it is shown at
    // once and the animation is over.
    let mut arc = TimeArc::create(900_000);
    arc.change(50_000);
    arc.update(TimeArcMsg::StartAnimation);
    arc.update(TimeArcMsg::TickAnimation(10_000));
    arc.change(950_000);
    assert!(matches!(arc.phase, AnimPhase::Idle));
    assert_eq!(arc.shown, 950_000);
}

#[test]
fn snap_tick_with_zero_duration_delta() {
    let mut arc = TimeArc::create(700_000);
    arc.change(100_000);
    arc.update(TimeArcMsg::StartAnimation);
    arc.update(TimeArcMsg::TickAnimation(anim_delta(20, 0)));
    assert!(matches!(arc.phase, AnimPhase::Idle));
    assert_eq!(arc.shown, 100_000);
}

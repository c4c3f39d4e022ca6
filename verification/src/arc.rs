//! One ring of the clock: its shrink-animation state machine and the
//! annular-sector path it draws.
//!
//! Progress values are parts-per-million of a full turn. A new target that
//! is at least the displayed value is shown at once; a smaller one means the
//! period rolled over, and the displayed value first waits out the ring's
//! start delay and then shrinks by a fixed decrement per tick until it
//! reaches the target.

use vstd::prelude::*;

use crate::svg::{ArcDef, PathData, PathSegment};
use crate::vector::Vec2;

verus! {

/// One whole turn, in parts per million.
pub const PROGRESS_ONE: u32 = 1_000_000;

/// Half a turn, in parts per million.
pub const PROGRESS_HALF: u32 = 500_000;

/// The interval between two animation ticks, in milliseconds.
pub const ANIM_TICK_MS: u32 = 20;

/// Where a ring's animation stands: showing its target, waiting out the
/// start delay, or shrinking toward the target.
#[derive(Debug, Copy, Clone, PartialEq, Eq, Structural)]
pub enum AnimPhase {
    Idle,
    Delaying,
    Animating,
}

/// The timer events a ring receives while a reset animation is pending:
/// the start delay has elapsed, or one animation tick has passed with the
/// given per-tick decrement.
#[derive(Debug, Copy, Clone, PartialEq, Eq, Structural)]
pub enum TimeArcMsg {
    StartAnimation,
    TickAnimation(u32),
}

/// The animation state of one ring: the latest target progress, the
/// progress actually displayed, and the phase of the pending animation.
#[derive(Debug, Copy, Clone, PartialEq, Eq, Structural)]
pub struct TimeArc {
    pub target: u32,
    pub shown: u32,
    pub phase: AnimPhase,
}

/// The transition taken when a new target progress arrives. A target at or
/// above the displayed value is shown at once; a smaller one starts the
/// delay phase if no animation is pending, and otherwise only replaces the
/// target, so that the running animation finishes at the latest value.
pub open spec fn spec_change(s: TimeArc, p_new: u32) -> TimeArc {
    if p_new >= s.shown {
        TimeArc { target: p_new, shown: p_new, phase: AnimPhase::Idle }
    } else if s.phase is Idle {
        TimeArc { target: p_new, shown: s.shown, phase: AnimPhase::Delaying }
    } else {
        TimeArc { target: p_new, shown: s.shown, phase: s.phase }
    }
}

/// The transition taken when the start delay has elapsed.
pub open spec fn spec_start_animation(s: TimeArc) -> TimeArc {
    TimeArc { target: s.target, shown: s.shown, phase: AnimPhase::Animating }
}

/// The transition taken by one animation tick: the displayed value drops by
/// `delta`, clamped to the target; reaching the target ends the animation.
pub open spec fn spec_tick_animation(s: TimeArc, delta: u32) -> TimeArc {
    if s.shown - delta <= s.target {
        TimeArc { target: s.target, shown: s.target, phase: AnimPhase::Idle }
    } else {
        TimeArc { target: s.target, shown: (s.shown - delta) as u32, phase: s.phase }
    }
}

impl TimeArc {
    /// The state invariant: values are fractions of a turn; while no
    /// animation is pending the target is displayed, and while one is
    /// pending the displayed value still exceeds the target.
    pub open spec fn wf(self) -> bool {
        &&& self.shown <= PROGRESS_ONE
        &&& self.target <= PROGRESS_ONE
        &&& (self.phase is Idle ==> self.shown == self.target)
        &&& (!(self.phase is Idle) ==> self.target < self.shown)
    }

    /// A ring showing its initial target, with no animation pending.
    pub fn create(progress: u32) -> (r: Self)
        requires
            progress <= PROGRESS_ONE,
        ensures
            r.wf(),
            r == (TimeArc { target: progress, shown: progress, phase: AnimPhase::Idle }),
    {
        Self { target: progress, shown: progress, phase: AnimPhase::Idle }
    }

    /// Receive a new target progress. Returns whether anything changed,
    /// so the host knows whether to redraw.
    pub fn change(&mut self, p_new: u32) -> (changed: bool)
        requires
            old(self).wf(),
            p_new <= PROGRESS_ONE,
        ensures
            final(self).wf(),
            *final(self) == spec_change(*old(self), p_new),
            changed == (p_new != old(self).target),
    {
        if p_new == self.target {
            false
        } else {
            if self.shown <= p_new {
                // The progress advanced, show it at once.
                self.shown = p_new;
                self.target = p_new;
                self.phase = AnimPhase::Idle;
            } else {
                // The progress was reset; animate, or retarget the
                // animation already pending.
                if matches!(self.phase, AnimPhase::Idle) {
                    self.phase = AnimPhase::Delaying;
                }
                self.target = p_new;
            }
            true
        }
    }

    /// Receive a timer event: the start delay elapsed, or one animation
    /// tick passed. Returns whether the displayed value changed.
    pub fn update(&mut self, msg: TimeArcMsg) -> (changed: bool)
        requires
            old(self).wf(),
            msg is StartAnimation ==> old(self).phase is Delaying,
        ensures
            final(self).wf(),
            msg is StartAnimation ==> *final(self) == spec_start_animation(*old(self)),
            msg matches TimeArcMsg::TickAnimation(delta) ==> *final(self) == spec_tick_animation(
                *old(self),
                delta,
            ),
            changed == (msg is TickAnimation),
    {
        match msg {
            TimeArcMsg::StartAnimation => {
                self.phase = AnimPhase::Animating;
                false
            },
            TimeArcMsg::TickAnimation(delta) => {
                if self.shown <= delta || self.shown - delta <= self.target {
                    self.shown = self.target;
                    self.phase = AnimPhase::Idle;
                } else {
                    self.shown = self.shown - delta;
                }
                true
            },
        }
    }
}

/// The state after a sequence of new targets has arrived, oldest first.
pub open spec fn spec_run_targets(s: TimeArc, targets: Seq<u32>) -> TimeArc
    decreases targets.len(),
{
    if targets.len() == 0 {
        s
    } else {
        spec_change(spec_run_targets(s, targets.drop_last()), targets.last())
    }
}

/// The state after `n` animation ticks of decrement `delta`.
pub open spec fn spec_run_ticks(s: TimeArc, delta: u32, n: nat) -> TimeArc
    decreases n,
{
    if n == 0 {
        s
    } else {
        spec_tick_animation(spec_run_ticks(s, delta, (n - 1) as nat), delta)
    }
}

/// While the targets never decrease, every one of them is displayed the
/// moment it arrives, and no animation ever starts: after each prefix of
/// such a sequence the ring is idle and shows the last target received.
pub proof fn lemma_monotone_targets_snap(s: TimeArc, targets: Seq<u32>)
    requires
        s.wf(),
        s.phase is Idle,
        targets.len() > 0,
        s.shown <= targets[0],
        forall|i: int| 0 <= i < targets.len() - 1 ==> #[trigger] targets[i] <= targets[i + 1],
    ensures
        forall|i: int|
            0 <= i < targets.len() ==> {
                let r = #[trigger] spec_run_targets(s, targets.take(i + 1));
                &&& r.phase is Idle
                &&& r.shown == targets[i]
                &&& r.target == targets[i]
            },
    decreases targets.len(),
{
    let n = targets.len() as int;
    if n == 1 {
        assert(targets.take(1).drop_last() =~= Seq::<u32>::empty());
        assert(targets.take(1).last() == targets[0]);
        assert(spec_run_targets(s, Seq::<u32>::empty()) == s);
        assert(spec_run_targets(s, targets.take(1)) == spec_change(s, targets[0]));
    } else {
        let prefix = targets.drop_last();
        lemma_monotone_targets_snap(s, prefix);
        assert forall|i: int| 0 <= i < n implies {
            let r = #[trigger] spec_run_targets(s, targets.take(i + 1));
            &&& r.phase is Idle
            &&& r.shown == targets[i]
            &&& r.target == targets[i]
        } by {
            if i < n - 1 {
                assert(targets.take(i + 1) =~= prefix.take(i + 1));
                assert(spec_run_targets(s, prefix.take(i + 1)).phase is Idle);
            } else {
                assert(targets.take(n) =~= targets);
                assert(prefix.take(n - 1) =~= prefix);
                assert(spec_run_targets(s, prefix.take(n - 1)).phase is Idle);
                let before = spec_run_targets(s, prefix);
                assert(before.phase is Idle && before.shown == prefix[n - 2]);
                assert(targets[n - 2] <= targets[n - 1]);
                assert(spec_run_targets(s, targets) == spec_change(before, targets[n - 1]));
            }
        }
    }
}

/// After a rollover, once the animation is running with decrement `delta`,
/// the displayed value falls by exactly `delta` per tick — strictly
/// decreasing, never passing below the target — and after exactly
/// `(shown - target + delta - 1) / delta` ticks (the gap divided by the
/// decrement, rounded up) the ring is idle and displays the target.
pub proof fn lemma_rollover_animation(s: TimeArc, delta: u32)
    requires
        s.wf(),
        s.phase is Animating,
        delta >= 1,
    ensures
        ({
            let n = (s.shown - s.target + delta - 1) / (delta as int);
            &&& forall|i: int|
                0 <= i < n ==> (#[trigger] spec_run_ticks(s, delta, i as nat)).shown == s.shown - i
                    * delta > s.target
            &&& forall|i: int|
                0 <= i < n ==> (#[trigger] spec_run_ticks(s, delta, i as nat)).phase is Animating
            &&& forall|i: int|
                0 <= i < n ==> spec_run_ticks(s, delta, (i + 1) as nat).shown < (
                #[trigger] spec_run_ticks(s, delta, i as nat)).shown
            &&& forall|i: int|
                0 <= i <= n ==> (#[trigger] spec_run_ticks(s, delta, i as nat)).shown >= s.target
            &&& spec_run_ticks(s, delta, n as nat).shown == s.target
            &&& spec_run_ticks(s, delta, n as nat).phase is Idle
            &&& forall|i: int|
                0 <= i <= n ==> (#[trigger] spec_run_ticks(s, delta, i as nat)).target == s.target
        }),
{
    let gap = s.shown - s.target;
    let d = delta as int;
    let n = (gap + d - 1) / d;
    assert(gap >= 1);
    vstd::arithmetic::div_mod::lemma_fundamental_div_mod(gap + d - 1, d);
    let rem = (gap + d - 1) % d;
    assert(0 <= rem < d) by {
        vstd::arithmetic::div_mod::lemma_mod_bound(gap + d - 1, d);
    }
    assert(gap + d - 1 == d * n + rem);
    assert(n * d >= gap && (n - 1) * d < gap) by (nonlinear_arith)
        requires
            gap + d - 1 == d * n + rem,
            0 <= rem < d,
            1 <= d,
            1 <= gap,
    ;
    assert forall|i: int| 0 <= i <= n implies {
        let r = #[trigger] spec_run_ticks(s, delta, i as nat);
        &&& (i < n ==> r.shown == s.shown - i * delta > s.target && r.phase is Animating)
        &&& (i == n ==> r.shown == s.target && r.phase is Idle)
        &&& r.shown >= s.target
        &&& r.target == s.target
    } by {
        lemma_ticks_step(s, delta, i, n);
    }
    assert forall|i: int| 0 <= i < n implies spec_run_ticks(s, delta, (i + 1) as nat).shown < (
    #[trigger] spec_run_ticks(s, delta, i as nat)).shown by {
        lemma_ticks_step(s, delta, i, n);
        lemma_ticks_step(s, delta, i + 1, n);
        assert((i + 1) * delta == i * delta + delta) by (nonlinear_arith);
    }
}

/// One step of the rollover induction: after `i` of the `n` ticks of the
/// animation the displayed value has fallen by `i` decrements, and after
/// the last one it equals the target.
proof fn lemma_ticks_step(s: TimeArc, delta: u32, i: int, n: int)
    requires
        s.wf(),
        s.phase is Animating,
        delta >= 1,
        0 <= i <= n,
        n == (s.shown - s.target + delta - 1) / (delta as int),
    ensures
        i < n ==> spec_run_ticks(s, delta, i as nat).shown == s.shown - i * delta > s.target
            && spec_run_ticks(s, delta, i as nat).phase is Animating,
        i == n ==> spec_run_ticks(s, delta, i as nat).shown == s.target && spec_run_ticks(
            s,
            delta,
            i as nat,
        ).phase is Idle,
        spec_run_ticks(s, delta, i as nat).shown >= s.target,
        spec_run_ticks(s, delta, i as nat).target == s.target,
    decreases i,
{
    let gap = s.shown - s.target;
    let d = delta as int;
    vstd::arithmetic::div_mod::lemma_fundamental_div_mod(gap + d - 1, d);
    let rem = (gap + d - 1) % d;
    assert(0 <= rem < d) by {
        vstd::arithmetic::div_mod::lemma_mod_bound(gap + d - 1, d);
    }
    assert(n * d >= gap && (n - 1) * d < gap) by (nonlinear_arith)
        requires
            gap + d - 1 == d * n + rem,
            0 <= rem < d,
            1 <= d,
            1 <= gap,
    ;
    if i == 0 {
        assert(spec_run_ticks(s, delta, 0) == s);
    } else {
        lemma_ticks_step(s, delta, i - 1, n);
        let prev = spec_run_ticks(s, delta, (i - 1) as nat);
        assert(spec_run_ticks(s, delta, i as nat) == spec_tick_animation(prev, delta));
        assert(i * delta == (i - 1) * delta + delta) by (nonlinear_arith);
        if i < n {
            // Not yet there: i * d < (n - 1) * d + d == n * d, and
            // i <= n - 1 gives i * d <= (n - 1) * d < gap.
            assert(i * d <= (n - 1) * d) by (nonlinear_arith)
                requires
                    i <= n - 1,
                    d >= 1,
            ;
            assert(prev.shown - delta == s.shown - i * delta > s.target);
        } else {
            // The last tick clamps: (i - 1) * d < gap <= i * d.
            assert(prev.shown - delta <= s.target);
        }
    }
}

/// The per-tick decrement for a tick interval and an animation duration,
/// in parts per million of a turn: the tick's share of the duration, kept
/// within `1 ..= PROGRESS_ONE`. A zero duration gives a whole turn per
/// tick, so the animation snaps on its first tick.
pub open spec fn spec_anim_delta(tick_ms: int, duration_ms: int) -> int {
    if duration_ms <= 0 {
        PROGRESS_ONE as int
    } else {
        let d = tick_ms * (PROGRESS_ONE as int) / duration_ms;
        if d < 1 {
            1
        } else if d > PROGRESS_ONE {
            PROGRESS_ONE as int
        } else {
            d
        }
    }
}

/// The per-tick decrement for a tick interval and an animation duration.
pub fn anim_delta(tick_ms: u32, duration_ms: u32) -> (r: u32)
    ensures
        r == spec_anim_delta(tick_ms as int, duration_ms as int),
        1 <= r <= PROGRESS_ONE,
{
    if duration_ms == 0 {
        PROGRESS_ONE
    } else {
        assert((tick_ms as u64) * (PROGRESS_ONE as u64) <= 0xFFFF_FFFFu64 * 1_000_000u64)
            by (nonlinear_arith)
            requires
                tick_ms <= 0xFFFF_FFFFu64,
        ;
        let d: u64 = (tick_ms as u64) * (PROGRESS_ONE as u64) / (duration_ms as u64);
        if d < 1 {
            1
        } else if d > PROGRESS_ONE as u64 {
            PROGRESS_ONE
        } else {
            d as u32
        }
    }
}

/// The five commands of an annular sector drawn from the top of the ring:
/// move to the top of the outer circle, sweep the outer arc clockwise to
/// its end, a radial line inward, sweep the inner arc back
/// counter-clockwise, and close.
pub open spec fn sector_segments(
    center: Vec2,
    inner_radius: i64,
    outer_radius: i64,
    large_arc: bool,
    outer_end: Vec2,
    inner_end: Vec2,
) -> Seq<PathSegment> {
    seq![
        PathSegment::MoveTo(Vec2 { x: center.x, y: (center.y - outer_radius) as i64 }),
        PathSegment::Arc(
            Vec2 { x: (center.x + outer_end.x) as i64, y: (center.y + outer_end.y) as i64 },
            ArcDef {
                radius: Vec2 { x: outer_radius, y: outer_radius },
                x_axis_rotation: 0,
                large_arc_flag: large_arc,
                sweep_flag: true,
            },
        ),
        PathSegment::LineTo(
            Vec2 { x: (center.x + inner_end.x) as i64, y: (center.y + inner_end.y) as i64 },
        ),
        PathSegment::Arc(
            Vec2 { x: center.x, y: (center.y - inner_radius) as i64 },
            ArcDef {
                radius: Vec2 { x: inner_radius, y: inner_radius },
                x_axis_rotation: 0,
                large_arc_flag: large_arc,
                sweep_flag: false,
            },
        ),
        PathSegment::Close,
    ]
}

/// The geometry of a ring is sane and small enough to serialize: the ring
/// has positive width, its inner radius is not negative, and every length
/// stays within a tenth of the serializable coordinate range.
pub open spec fn ring_geometry_ok(center: Vec2, radius: i64, width: i64) -> bool {
    &&& 0 < width
    &&& width / 2 <= radius
    &&& radius + width <= 100_000_000
    &&& -100_000_000 <= center.x <= 100_000_000
    &&& -100_000_000 <= center.y <= 100_000_000
}

/// An endpoint handed in by the host stays within the serializable range.
pub open spec fn endpoint_ok(p: Vec2) -> bool {
    &&& -100_000_000 <= p.x <= 100_000_000
    &&& -100_000_000 <= p.y <= 100_000_000
}

/// The path of one ring's sector. `radius` is the ring's middle radius and
/// `width` its thickness, so the sector runs from `radius - width / 2` to
/// `radius + width / 2`. `outer_end` and `inner_end` are the arc endpoints,
/// relative to the center: the top of each circle rotated by the sweep
/// angle, which the host computes since it alone does trigonometry. The
/// large-arc flags are set exactly when the sweep exceeds half a turn.
pub fn sector_path(
    center: Vec2,
    radius: i64,
    width: i64,
    progress: u32,
    outer_end: Vec2,
    inner_end: Vec2,
) -> (r: PathData)
    requires
        ring_geometry_ok(center, radius, width),
        endpoint_ok(outer_end),
        endpoint_ok(inner_end),
        progress <= PROGRESS_ONE,
    ensures
        r@ == sector_segments(
            center,
            (radius - width / 2) as i64,
            (radius - width / 2 + width) as i64,
            progress > PROGRESS_HALF,
            outer_end,
            inner_end,
        ),
        forall|i: int| 0 <= i < r@.len() ==> crate::svg::segment_bounded(#[trigger] r@[i]),
{
    let inner_radius = radius - width / 2;
    let outer_radius = inner_radius + width;
    let large_arc_flag = progress > PROGRESS_HALF;

    let inner_start = Vec2 { x: 0, y: -inner_radius };
    let outer_start = Vec2 { x: 0, y: -outer_radius };

    let mut path = PathData::with_capacity(5);
    path.move_to(center.add(outer_start));
    path.arc_to(
        center.add(outer_end),
        ArcDef {
            radius: Vec2 { x: outer_radius, y: outer_radius },
            x_axis_rotation: 0,
            large_arc_flag,
            sweep_flag: true,
        },
    );
    path.line_to(center.add(inner_end));
    path.arc_to(
        center.add(inner_start),
        ArcDef {
            radius: Vec2 { x: inner_radius, y: inner_radius },
            x_axis_rotation: 0,
            large_arc_flag,
            sweep_flag: false,
        },
    );
    path.close();
    proof {
        assert(path@ =~= sector_segments(
            center,
            inner_radius,
            outer_radius,
            large_arc_flag,
            outer_end,
            inner_end,
        ));
    }
    path
}

/// The anchor of a ring's label: past the halfway point the label sits at
/// the trailing edge and is anchored at its end, before it at its start.
pub fn label_anchor(progress: u32) -> (r: &'static str)
    ensures
        progress >= PROGRESS_HALF ==> r@ == "end"@,
        progress < PROGRESS_HALF ==> r@ == "start"@,
{
    if progress >= PROGRESS_HALF {
        "end"
    } else {
        "start"
    }
}

/// The fill of a ring's label: white over the filled sector once the sweep
/// has passed the halfway point, the ring's own color over the background
/// before that, so the label always contrasts with what lies under it.
pub fn label_color(progress: u32, ring_color: &'static str) -> (r: &'static str)
    ensures
        progress >= PROGRESS_HALF ==> r@ == "white"@,
        progress < PROGRESS_HALF ==> r@ == ring_color@,
{
    if progress >= PROGRESS_HALF {
        "white"
    } else {
        ring_color
    }
}

/// About a degree of a turn, in parts per million.
pub const PROGRESS_DEGREE: u32 = 2_778;

/// Where around the ring the label sits: about a degree behind the sweep's
/// trailing edge once past the halfway point, about a degree ahead of it
/// before that.
pub fn label_progress(progress: u32) -> (r: u32)
    requires
        progress <= PROGRESS_ONE,
    ensures
        progress >= PROGRESS_HALF ==> r == progress - PROGRESS_DEGREE,
        progress < PROGRESS_HALF ==> r == progress + PROGRESS_DEGREE,
{
    if progress >= PROGRESS_HALF {
        progress - PROGRESS_DEGREE
    } else {
        progress + PROGRESS_DEGREE
    }
}

/// The distance of a ring's label from the center: a fifth of the ring's
/// width beyond its inner radius.
pub fn label_radius(radius: i64, width: i64) -> (r: i64)
    requires
        0 < width,
        width / 2 <= radius,
        radius + width <= 100_000_000,
    ensures
        r == radius - width / 2 + width / 5,
{
    (radius - width / 2) + width / 5
}

/// The font size of a ring's label: six tenths of the ring's width.
pub fn font_size(width: i64) -> (r: i64)
    requires
        0 < width <= 100_000_000,
    ensures
        r == width * 6 / 10,
{
    width * 6 / 10
}

} // verus!

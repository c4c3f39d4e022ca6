use polar_clock::{
    center, font_size, label_anchor, label_color, label_progress, label_radius, month_name,
    ordinal_suffix, view_box, DateTime, PolarClock, ARC_WIDTH_MILLI, INNER_RADIUS_MILLI,
    PROGRESS_ONE,
};

fn clock_at(year: i32, month: u32, day: u32, hour: u32, minute: u32, second: u32, ms: u32) -> PolarClock {
    PolarClock { now: DateTime::new(year, month, day, hour, minute, second, ms).unwrap() }
}

#[test]
fn year_start_shows_zero_everywhere() {
    // At 00:00:00.000 on the first of January every gauge is empty.
    let clock = clock_at(2023, 1, 1, 0, 0, 0, 0);
    assert_eq!(clock.minute_progress(), 0);
    assert_eq!(clock.hour_progress(), 0);
    assert_eq!(clock.day_progress(), 0);
    assert_eq!(clock.month_progress(), 0);
    assert_eq!(clock.year_progress(), 0);
}

#[test]
fn all_progress_values_stay_below_one() {
    // The last instant the clock can represent keeps every gauge under a
    // full turn.
    let clock = clock_at(2023, 12, 31, 23, 59, 59, 999);
    assert!(clock.minute_progress() < PROGRESS_ONE);
    assert!(clock.hour_progress() < PROGRESS_ONE);
    assert!(clock.day_progress() < PROGRESS_ONE);
    assert!(clock.month_progress() < PROGRESS_ONE);
    assert!(clock.year_progress() < PROGRESS_ONE);
    let leap = clock_at(2024, 12, 31, 23, 59, 59, 999);
    assert!(leap.month_progress() < PROGRESS_ONE);
    assert!(leap.year_progress() < PROGRESS_ONE);
}

#[test]
fn progress_formulas_on_known_times() {
    let clock = clock_at(2023, 6, 15, 12, 30, 30, 500);
    // 30.5 s of the minute, 30.5 min of the hour, 750 min of the day.
    assert_eq!(clock.minute_progress(), (30_500u64 * 1_000_000 / 60_000) as u32);
    assert_eq!(clock.minute_progress(), 508_333);
    assert_eq!(clock.hour_progress(), 508_333);
    assert_eq!(clock.day_progress(), 520_833);
    // 14 days and 12 hours of June's 720 hours.
    assert_eq!(clock.month_progress(), (14 * 24 + 12) * 1_000_000 / 720);
    assert_eq!(clock.month_progress(), 483_333);
    // Day 165 of 365, at hour 12: hour 3972 of the year's 8760.
    assert_eq!(clock.year_progress(), ((165u64 * 24 + 12) * 1_000_000 / 8_760) as u32);
    assert_eq!(clock.year_progress(), 453_424);
}

#[test]
fn leap_day_month_progress() {
    // Late on the leap day: hour 695 of February 2024's 696.
    let leap = clock_at(2024, 2, 29, 23, 0, 0, 0);
    assert_eq!(leap.month_progress(), 695_000_000 / 696);
    assert_eq!(leap.month_progress(), 998_563);
    // The same date does not exist in 2023.
    assert!(DateTime::new(2023, 2, 29, 23, 0, 0, 0).is_none());
}

#[test]
fn leap_year_changes_month_and_year_progress() {
    // The same wall time late in February fills the gauges differently in
    // a leap year: February has an extra day, the year an extra hour count.
    let leap = clock_at(2024, 2, 28, 23, 0, 0, 0);
    let common = clock_at(2023, 2, 28, 23, 0, 0, 0);
    assert_eq!(leap.month_progress(), 671_000_000 / 696);
    assert_eq!(common.month_progress(), 671_000_000 / 672);
    assert_ne!(leap.month_progress(), common.month_progress());
    assert_ne!(leap.year_progress(), common.year_progress());
    // And the granular gauges do not depend on the year at all.
    assert_eq!(leap.minute_progress(), common.minute_progress());
    assert_eq!(leap.hour_progress(), common.hour_progress());
    assert_eq!(leap.day_progress(), common.day_progress());
}

#[test]
fn month_names() {
    let names = [
        "jan", "feb", "mar", "apr", "mai", "jun", "jul", "aug", "sep", "oct", "nov", "dec",
    ];
    for (i, want) in names.iter().enumerate() {
        let d = DateTime::new(2023, i as u32 + 1, 1, 0, 0, 0, 0).unwrap();
        assert_eq!(month_name(&d), *want);
    }
}

#[test]
fn ordinal_suffixes() {
    assert_eq!(ordinal_suffix(1), "st");
    assert_eq!(ordinal_suffix(2), "nd");
    assert_eq!(ordinal_suffix(3), "rd");
    assert_eq!(ordinal_suffix(4), "th");
    assert_eq!(ordinal_suffix(11), "th");
    assert_eq!(ordinal_suffix(21), "th");
    assert_eq!(ordinal_suffix(31), "th");
}

#[test]
fn canvas_parameters() {
    assert_eq!(view_box(), "0 0 100 100");
    let c = center();
    assert_eq!(c.x, 50_000);
    assert_eq!(c.y, 50_000);
}

#[test]
fn five_rings_outermost_first() {
    let clock = clock_at(2024, 2, 29, 23, 45, 30, 0);
    let rings = clock.ring_specs();
    assert_eq!(rings.len(), 5);
    let colors = ["darkred", "darkorange", "gold", "darkgreen", "darkblue"];
    for (k, ring) in rings.iter().enumerate() {
        assert_eq!(ring.width, ARC_WIDTH_MILLI);
        assert_eq!(ring.radius, INNER_RADIUS_MILLI + (4 - k as i64) * ARC_WIDTH_MILLI);
        assert_eq!(ring.color, colors[k]);
        assert_eq!(ring.anim_delay_ms, k as u32 * 100);
        assert_eq!(ring.anim_duration_ms, 2_000);
        assert!(ring.progress < PROGRESS_ONE);
    }
    assert_eq!(rings[0].text, "30s");
    assert_eq!(rings[1].text, "45m");
    assert_eq!(rings[2].text, "23h");
    assert_eq!(rings[3].text, "29th");
    assert_eq!(rings[4].text, "feb");
    assert_eq!(rings[0].progress, clock.minute_progress());
    assert_eq!(rings[4].progress, clock.year_progress());
}

#[test]
fn ring_label_texts_use_ordinal_suffixes() {
    let first = clock_at(2023, 5, 1, 0, 0, 0, 0);
    assert_eq!(first.ring_specs()[3].text, "1st");
    let second = clock_at(2023, 5, 2, 0, 0, 0, 0);
    assert_eq!(second.ring_specs()[3].text, "2nd");
    let third = clock_at(2023, 5, 3, 0, 0, 0, 0);
    assert_eq!(third.ring_specs()[3].text, "3rd");
    assert_eq!(third.ring_specs()[4].text, "mai");
}

#[test]
fn labels_flip_past_the_halfway_point() {
    assert_eq!(label_anchor(499_999), "start");
    assert_eq!(label_anchor(500_000), "end");
    assert_eq!(label_color(250_000, "darkred"), "darkred");
    assert_eq!(label_color(750_000, "darkred"), "white");
    assert_eq!(label_progress(250_000), 252_778);
    assert_eq!(label_progress(750_000), 747_222);
    assert_eq!(label_radius(25_000, 10_000), 22_000);
    assert_eq!(font_size(5_000), 3_000);
}

#[test]
fn the_clock_reads_a_real_local_time() {
    // Whatever the host clock says, the reading is a valid timestamp, and
    // refreshing keeps it valid.
    let mut clock = PolarClock::create();
    for _ in 0..3 {
        let now = clock.now;
        assert!((1..=12).contains(&now.month));
        assert!((1..=31).contains(&now.day));
        assert!(now.hour < 24 && now.minute < 60 && now.second < 60 && now.millisecond < 1000);
        assert!(clock.minute_progress() < PROGRESS_ONE);
        assert!(clock.year_progress() < PROGRESS_ONE);
        clock.update();
    }
}

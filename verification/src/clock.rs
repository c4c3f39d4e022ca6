//! The clock itself: the current local time, the five progress fractions
//! derived from it, and the visual parameters of the five rings.

use vstd::prelude::*;

use chrono::{Datelike, Timelike};

use crate::text::{dec_text, u32_to_string};
use crate::time::DateTime;
use crate::vector::Vec2;
use crate::arc::PROGRESS_ONE;

verus! {

/// The side of the square canvas, in thousandths of an SVG user unit.
pub const SIZE_MILLI: i64 = 100_000;

/// The padding inside the innermost ring.
pub const INNER_PADDING_MILLI: i64 = 20_000;

/// The padding outside the outermost ring.
pub const OUTER_PADDING_MILLI: i64 = 5_000;

/// Both coordinates of the canvas center: half the canvas side.
pub const CENTER_MILLI: i64 = 50_000;

/// The width of each ring: the five rings share the space between the
/// paddings, a fifth each of the center radius less both paddings.
pub const ARC_WIDTH_MILLI: i64 = 5_000;

/// The middle radius of the innermost ring: the inner padding plus half a
/// ring width.
pub const INNER_RADIUS_MILLI: i64 = 22_500;

/// How long a reset animation takes.
pub const ANIM_DURATION_MS: u32 = 2_000;

/// The base start delay of a reset animation; ring `k` from the outside
/// waits `k` times this.
pub const ANIM_DELAY_MS: u32 = 100;

/// A fraction in parts per million: `num / denom` of a whole, rounded down.
pub open spec fn spec_ppm(num: int, denom: int) -> int {
    num * 1_000_000 / denom
}

/// `num / denom` in parts per million, rounded down. A proper fraction
/// comes out below one million.
fn ppm_of(num: u32, denom: u32) -> (r: u32)
    requires
        0 < denom,
        num < denom,
    ensures
        r == spec_ppm(num as int, denom as int),
        r < PROGRESS_ONE,
{
    proof {
        assert((num as int) * 1_000_000 <= 0xFFFF_FFFF * 1_000_000int && (num as int) * 1_000_000
            < (denom as int) * 1_000_000) by (nonlinear_arith)
            requires
                num < denom <= 0xFFFF_FFFF,
        ;
        vstd::arithmetic::div_mod::lemma_multiply_divide_lt(
            (num as int) * 1_000_000,
            denom as int,
            1_000_000,
        );
    }
    let wide: u64 = (num as u64) * 1_000_000;
    (wide / (denom as u64)) as u32
}

/// The polar clock: the local time it currently shows.
pub struct PolarClock {
    pub now: DateTime,
}

/// Relies on `chrono::Local::now` and chrono's `Datelike` / `Timelike`
/// accessors for the fields of the current local time. chrono documents
/// the ranges: month 1 to 12, day of month 1 to 31, hour below 24, minute
/// and second below 60, and nanoseconds below two billion (the second
/// billion only during a leap second). Nothing more can be promised of a
/// clock reading.
#[verifier::external_body]
fn local_now_fields() -> (r: (i32, u32, u32, u32, u32, u32, u32))
    ensures
        1 <= r.1 <= 12,
        1 <= r.2 <= 31,
        r.3 < 24,
        r.4 < 60,
        r.5 < 60,
        r.6 < 2_000_000_000,
{
    let now = chrono::Local::now();
    (now.year(), now.month(), now.day(), now.hour(), now.minute(), now.second(), now.nanosecond())
}

/// The current local time. Milliseconds during a leap second are folded
/// into the last ordinary millisecond, and a field out of its documented
/// range is clamped rather than trusted.
pub fn current_local_time() -> (r: DateTime)
    ensures
        r.valid(),
{
    let (year, month, day, hour, minute, second, nanosecond) = local_now_fields();
    let millisecond = nanosecond / 1_000_000;
    let millisecond = if millisecond > 999 {
        999
    } else {
        millisecond
    };
    DateTime::clamped(year, month, day, hour, minute, second, millisecond)
}

impl PolarClock {
    /// A clock showing the current local time.
    pub fn create() -> (r: Self)
        ensures
            r.now.valid(),
    {
        Self { now: current_local_time() }
    }

    /// Refresh the clock to the current local time.
    pub fn update(&mut self)
        ensures
            final(self).now.valid(),
    {
        self.now = current_local_time();
    }

    /// How far the current minute has run, from its milliseconds.
    pub fn minute_progress(&self) -> (r: u32)
        requires
            self.now.valid(),
        ensures
            r == spec_ppm(self.now.second * 1000 + self.now.millisecond, 60_000),
            r < PROGRESS_ONE,
    {
        ppm_of(self.now.millisecond_of_minute(), 60_000)
    }

    /// How far the current hour has run, from its seconds.
    pub fn hour_progress(&self) -> (r: u32)
        requires
            self.now.valid(),
        ensures
            r == spec_ppm(self.now.minute * 60 + self.now.second, 3_600),
            r < PROGRESS_ONE,
    {
        ppm_of(self.now.second_of_hour(), 3_600)
    }

    /// How far the current day has run, from its minutes.
    pub fn day_progress(&self) -> (r: u32)
        requires
            self.now.valid(),
        ensures
            r == spec_ppm(self.now.hour * 60 + self.now.minute, 1_440),
            r < PROGRESS_ONE,
    {
        ppm_of(self.now.minute_of_day(), 1_440)
    }

    /// How far the current month has run, from its whole hours.
    pub fn month_progress(&self) -> (r: u32)
        requires
            self.now.valid(),
        ensures
            r == spec_ppm((self.now.day - 1) * 24 + self.now.hour, self.now.max_hour_of_month_spec()),
            r < PROGRESS_ONE,
    {
        ppm_of(self.now.hour_of_month(), self.now.max_hour_of_month())
    }

    /// How far the current year has run, from its whole hours.
    pub fn year_progress(&self) -> (r: u32)
        requires
            self.now.valid(),
        ensures
            r == spec_ppm(
                crate::time::spec_day_of_year(self.now) * 24 + self.now.hour,
                self.now.max_hour_of_year_spec(),
            ),
            r < PROGRESS_ONE,
    {
        ppm_of(self.now.hour_of_year(), self.now.max_hour_of_year())
    }
}

/// The short lowercase name of the month of `time`.
pub fn month_name(time: &DateTime) -> (r: &'static str)
    requires
        1 <= time.month <= 12,
    ensures
        time.month == 1 ==> r@ == "jan"@,
        time.month == 2 ==> r@ == "feb"@,
        time.month == 3 ==> r@ == "mar"@,
        time.month == 4 ==> r@ == "apr"@,
        time.month == 5 ==> r@ == "mai"@,
        time.month == 6 ==> r@ == "jun"@,
        time.month == 7 ==> r@ == "jul"@,
        time.month == 8 ==> r@ == "aug"@,
        time.month == 9 ==> r@ == "sep"@,
        time.month == 10 ==> r@ == "oct"@,
        time.month == 11 ==> r@ == "nov"@,
        time.month == 12 ==> r@ == "dec"@,
{
    match time.month {
        1 => "jan",
        2 => "feb",
        3 => "mar",
        4 => "apr",
        5 => "mai",
        6 => "jun",
        7 => "jul",
        8 => "aug",
        9 => "sep",
        10 => "oct",
        11 => "nov",
        _ => "dec",
    }
}

/// The ordinal suffix of a day of the month, as the clock labels it: only
/// the days one, two and three get `st`, `nd` and `rd`.
pub fn ordinal_suffix(day: u32) -> (r: &'static str)
    ensures
        day == 1 ==> r@ == "st"@,
        day == 2 ==> r@ == "nd"@,
        day == 3 ==> r@ == "rd"@,
        !(1 <= day <= 3) ==> r@ == "th"@,
{
    match day {
        1 => "st",
        2 => "nd",
        3 => "rd",
        _ => "th",
    }
}

/// The `viewBox` attribute of the canvas.
pub fn view_box() -> (r: String)
    ensures
        r@ == "0 0 100 100"@,
{
    String::from_str("0 0 100 100")
}

/// The canvas center.
pub fn center() -> (r: Vec2)
    ensures
        r.x == CENTER_MILLI,
        r.y == CENTER_MILLI,
{
    Vec2::repeat(CENTER_MILLI)
}

/// Everything one ring needs to be drawn: its geometry, color, target
/// progress, label text and animation timing.
pub struct RingSpec {
    pub radius: i64,
    pub width: i64,
    pub color: &'static str,
    pub progress: u32,
    pub text: String,
    pub anim_delay_ms: u32,
    pub anim_duration_ms: u32,
}

impl PolarClock {
    /// The five rings for the time now shown, outermost first: the minute
    /// ring (seconds label), the hour ring (minutes label), the day ring
    /// (hours label), the month ring (day-of-month label) and the year
    /// ring (month label). Ring `k` sits `k` widths inside the outermost
    /// radius and waits out `k` base delays before a reset animation.
    pub fn ring_specs(&self) -> (r: Vec<RingSpec>)
        requires
            self.now.valid(),
        ensures
            r@.len() == 5,
            forall|k: int|
                0 <= k < 5 ==> {
                    let ring = #[trigger] r@[k];
                    &&& ring.radius == INNER_RADIUS_MILLI + (4 - k) * ARC_WIDTH_MILLI
                    &&& ring.width == ARC_WIDTH_MILLI
                    &&& ring.anim_delay_ms == k * ANIM_DELAY_MS
                    &&& ring.anim_duration_ms == ANIM_DURATION_MS
                    &&& ring.progress < PROGRESS_ONE
                },
            r@[0].color@ == "darkred"@,
            r@[0].progress == spec_ppm(self.now.second * 1000 + self.now.millisecond, 60_000),
            r@[0].text@ == dec_text(self.now.second as nat) + "s"@,
            r@[1].color@ == "darkorange"@,
            r@[1].progress == spec_ppm(self.now.minute * 60 + self.now.second, 3_600),
            r@[1].text@ == dec_text(self.now.minute as nat) + "m"@,
            r@[2].color@ == "gold"@,
            r@[2].progress == spec_ppm(self.now.hour * 60 + self.now.minute, 1_440),
            r@[2].text@ == dec_text(self.now.hour as nat) + "h"@,
            r@[3].color@ == "darkgreen"@,
            r@[3].progress == spec_ppm(
                (self.now.day - 1) * 24 + self.now.hour,
                self.now.max_hour_of_month_spec(),
            ),
            r@[3].text@ == dec_text(self.now.day as nat) + (if self.now.day == 1 {
                "st"@
            } else if self.now.day == 2 {
                "nd"@
            } else if self.now.day == 3 {
                "rd"@
            } else {
                "th"@
            }),
            r@[4].color@ == "darkblue"@,
            r@[4].progress == spec_ppm(
                crate::time::spec_day_of_year(self.now) * 24 + self.now.hour,
                self.now.max_hour_of_year_spec(),
            ),
            r@[4].text@ == (if self.now.month == 1 {
                "jan"@
            } else if self.now.month == 2 {
                "feb"@
            } else if self.now.month == 3 {
                "mar"@
            } else if self.now.month == 4 {
                "apr"@
            } else if self.now.month == 5 {
                "mai"@
            } else if self.now.month == 6 {
                "jun"@
            } else if self.now.month == 7 {
                "jul"@
            } else if self.now.month == 8 {
                "aug"@
            } else if self.now.month == 9 {
                "sep"@
            } else if self.now.month == 10 {
                "oct"@
            } else if self.now.month == 11 {
                "nov"@
            } else {
                "dec"@
            }),
    {
        proof {
            reveal_strlit("s");
            reveal_strlit("m");
            reveal_strlit("h");
        }
        let mut rings: Vec<RingSpec> = Vec::with_capacity(5);

        let mut seconds_text = u32_to_string(self.now.second);
        seconds_text.append("s");
        rings.push(
            RingSpec {
                radius: INNER_RADIUS_MILLI + 4 * ARC_WIDTH_MILLI,
                width: ARC_WIDTH_MILLI,
                color: "darkred",
                progress: self.minute_progress(),
                text: seconds_text,
                anim_delay_ms: 0,
                anim_duration_ms: ANIM_DURATION_MS,
            },
        );

        let mut minutes_text = u32_to_string(self.now.minute);
        minutes_text.append("m");
        rings.push(
            RingSpec {
                radius: INNER_RADIUS_MILLI + 3 * ARC_WIDTH_MILLI,
                width: ARC_WIDTH_MILLI,
                color: "darkorange",
                progress: self.hour_progress(),
                text: minutes_text,
                anim_delay_ms: ANIM_DELAY_MS,
                anim_duration_ms: ANIM_DURATION_MS,
            },
        );

        let mut hours_text = u32_to_string(self.now.hour);
        hours_text.append("h");
        rings.push(
            RingSpec {
                radius: INNER_RADIUS_MILLI + 2 * ARC_WIDTH_MILLI,
                width: ARC_WIDTH_MILLI,
                color: "gold",
                progress: self.day_progress(),
                text: hours_text,
                anim_delay_ms: 2 * ANIM_DELAY_MS,
                anim_duration_ms: ANIM_DURATION_MS,
            },
        );

        let mut day_text = u32_to_string(self.now.day);
        day_text.append(ordinal_suffix(self.now.day));
        rings.push(
            RingSpec {
                radius: INNER_RADIUS_MILLI + ARC_WIDTH_MILLI,
                width: ARC_WIDTH_MILLI,
                color: "darkgreen",
                progress: self.month_progress(),
                text: day_text,
                anim_delay_ms: 3 * ANIM_DELAY_MS,
                anim_duration_ms: ANIM_DURATION_MS,
            },
        );

        let month_text = String::from_str(month_name(&self.now));
        rings.push(
            RingSpec {
                radius: INNER_RADIUS_MILLI,
                width: ARC_WIDTH_MILLI,
                color: "darkblue",
                progress: self.year_progress(),
                text: month_text,
                anim_delay_ms: 4 * ANIM_DELAY_MS,
                anim_duration_ms: ANIM_DURATION_MS,
            },
        );

        rings
    }
}

} // verus!

//! The calendar model: a plain local timestamp and the Gregorian rules
//! (leap years, month lengths, ordinal days) that the progress gauges need.

use vstd::prelude::*;

verus! {

/// A local timestamp with millisecond resolution, held as plain calendar
/// fields. `month` counts from 1, `day` counts from 1 within the month.
#[derive(Debug, Copy, Clone, PartialEq, Eq, Structural)]
pub struct DateTime {
    pub year: i32,
    pub month: u32,
    pub day: u32,
    pub hour: u32,
    pub minute: u32,
    pub second: u32,
    pub millisecond: u32,
}

/// Divisible by 4 and, unless divisible by 400, not by 100.
pub open spec fn spec_is_leap_year(year: int) -> bool {
    year % 4 == 0 && (year % 100 != 0 || year % 400 == 0)
}

/// Whether `year` is a Gregorian leap year.
pub fn is_leap_year(year: i32) -> (r: bool)
    ensures
        r == spec_is_leap_year(year as int),
{
    (year % 4 == 0) && (year % 100 != 0 || year % 400 == 0)
}

/// The number of days in the given month of the given year.
pub open spec fn spec_days_in_month(year: int, month: int) -> int
    recommends
        1 <= month <= 12,
{
    if month == 2 {
        if spec_is_leap_year(year) {
            29
        } else {
            28
        }
    } else if month == 4 || month == 6 || month == 9 || month == 11 {
        30
    } else {
        31
    }
}

/// The number of days in the given month of the given year.
pub fn days_in_month(year: i32, month: u32) -> (r: u32)
    requires
        1 <= month <= 12,
    ensures
        r == spec_days_in_month(year as int, month as int),
        28 <= r <= 31,
{
    if month == 2 {
        if is_leap_year(year) {
            29
        } else {
            28
        }
    } else if month == 4 || month == 6 || month == 9 || month == 11 {
        30
    } else {
        31
    }
}

/// The days of a common year that lie before the given month: the cumulative
/// month-length table `0, 31, 59, 90, 120, 151, 181, 212, 243, 273, 304, 334`.
pub open spec fn spec_days_before_month(month: int) -> int
    recommends
        1 <= month <= 12,
{
    if month == 1 {
        0
    } else if month == 2 {
        31
    } else if month == 3 {
        59
    } else if month == 4 {
        90
    } else if month == 5 {
        120
    } else if month == 6 {
        151
    } else if month == 7 {
        181
    } else if month == 8 {
        212
    } else if month == 9 {
        243
    } else if month == 10 {
        273
    } else if month == 11 {
        304
    } else {
        334
    }
}

/// The zero-based ordinal day of `d` within its year: the days of the
/// preceding months (one more from March onward in a leap year) plus the
/// zero-based day of the month.
pub open spec fn spec_day_of_year(d: DateTime) -> int
    recommends
        d.valid(),
{
    spec_days_before_month(d.month as int) + (if d.month > 2 && spec_is_leap_year(
        d.year as int,
    ) {
        1int
    } else {
        0int
    }) + (d.day - 1)
}

impl DateTime {
    /// All fields within their calendar ranges; the day exists in its month.
    pub open spec fn valid(self) -> bool {
        &&& 1 <= self.month <= 12
        &&& 1 <= self.day <= spec_days_in_month(self.year as int, self.month as int)
        &&& self.hour < 24
        &&& self.minute < 60
        &&& self.second < 60
        &&& self.millisecond < 1000
    }

    /// The timestamp with the given fields, or `None` when they do not form
    /// a real calendar date and time.
    pub fn new(
        year: i32,
        month: u32,
        day: u32,
        hour: u32,
        minute: u32,
        second: u32,
        millisecond: u32,
    ) -> (r: Option<DateTime>)
        ensures
            ({
                let d = DateTime { year, month, day, hour, minute, second, millisecond };
                &&& r is Some <==> d.valid()
                &&& r is Some ==> r == Some(d)
            }),
    {
        let d = DateTime { year, month, day, hour, minute, second, millisecond };
        if 1 <= month && month <= 12 && 1 <= day && day <= days_in_month(year, month) && hour < 24
            && minute < 60 && second < 60 && millisecond < 1000 {
            Some(d)
        } else {
            None
        }
    }

    /// The timestamp with the given fields, each forced into its calendar
    /// range. Fields that are already in range are kept as they are; a field
    /// beyond its range is pulled back to the nearest end.
    pub fn clamped(
        year: i32,
        month: u32,
        day: u32,
        hour: u32,
        minute: u32,
        second: u32,
        millisecond: u32,
    ) -> (r: DateTime)
        ensures
            r.valid(),
            (DateTime { year, month, day, hour, minute, second, millisecond }).valid()
                ==> r == (DateTime { year, month, day, hour, minute, second, millisecond }),
            r.year == year,
    {
        let month = if month < 1 {
            1
        } else if month > 12 {
            12
        } else {
            month
        };
        let max_day = days_in_month(year, month);
        let day = if day < 1 {
            1
        } else if day > max_day {
            max_day
        } else {
            day
        };
        let hour = if hour > 23 {
            23
        } else {
            hour
        };
        let minute = if minute > 59 {
            59
        } else {
            minute
        };
        let second = if second > 59 {
            59
        } else {
            second
        };
        let millisecond = if millisecond > 999 {
            999
        } else {
            millisecond
        };
        DateTime { year, month, day, hour, minute, second, millisecond }
    }

    /// Milliseconds into the current minute.
    pub fn millisecond_of_minute(&self) -> (r: u32)
        requires
            self.valid(),
        ensures
            r == self.second * 1000 + self.millisecond,
            r < 60_000,
    {
        (self.second * 1_000) + self.millisecond
    }

    /// Seconds into the current hour.
    pub fn second_of_hour(&self) -> (r: u32)
        requires
            self.valid(),
        ensures
            r == self.minute * 60 + self.second,
            r < 3_600,
    {
        (self.minute * 60) + self.second
    }

    /// Minutes into the current day.
    pub fn minute_of_day(&self) -> (r: u32)
        requires
            self.valid(),
        ensures
            r == self.hour * 60 + self.minute,
            r < 1_440,
    {
        (self.hour * 60) + self.minute
    }

    /// Whole hours into the current month.
    pub fn hour_of_month(&self) -> (r: u32)
        requires
            self.valid(),
        ensures
            r == (self.day - 1) * 24 + self.hour,
            r < self.max_hour_of_month_spec(),
    {
        ((self.day - 1) * 24) + self.hour
    }

    /// Whole hours into the current year.
    pub fn hour_of_year(&self) -> (r: u32)
        requires
            self.valid(),
        ensures
            r == spec_day_of_year(*self) * 24 + self.hour,
            r < self.max_hour_of_year_spec(),
    {
        (day_of_year(self) * 24) + self.hour
    }

    /// The hours of the current month.
    pub open spec fn max_hour_of_month_spec(self) -> int {
        spec_days_in_month(self.year as int, self.month as int) * 24
    }

    /// The hours of the current month.
    pub fn max_hour_of_month(&self) -> (r: u32)
        requires
            self.valid(),
        ensures
            r == self.max_hour_of_month_spec(),
            0 < r <= 744,
    {
        days_in_month(self.year, self.month) * 24
    }

    /// The hours of the current year.
    pub open spec fn max_hour_of_year_spec(self) -> int {
        (if spec_is_leap_year(self.year as int) {
            366int
        } else {
            365int
        }) * 24
    }

    /// The hours of the current year.
    pub fn max_hour_of_year(&self) -> (r: u32)
        requires
            self.valid(),
        ensures
            r == self.max_hour_of_year_spec(),
            0 < r <= 8784,
    {
        max_day_of_year(self) * 24
    }
}

/// The zero-based ordinal day of `time` within its year.
pub fn day_of_year(time: &DateTime) -> (r: u32)
    requires
        time.valid(),
    ensures
        r == spec_day_of_year(*time),
        r < max_day_of_year_spec(*time),
{
    let mut day_in_past_months: u32 = days_before_month(time.month);
    if time.month > 2 && is_leap_year(time.year) {
        day_in_past_months += 1;
    }
    day_in_past_months + (time.day - 1)
}

/// The days of a common year that lie before `month`.
fn days_before_month(month: u32) -> (r: u32)
    requires
        1 <= month <= 12,
    ensures
        r == spec_days_before_month(month as int),
        r <= 334,
{
    if month == 1 {
        0
    } else if month == 2 {
        31
    } else if month == 3 {
        59
    } else if month == 4 {
        90
    } else if month == 5 {
        120
    } else if month == 6 {
        151
    } else if month == 7 {
        181
    } else if month == 8 {
        212
    } else if month == 9 {
        243
    } else if month == 10 {
        273
    } else if month == 11 {
        304
    } else {
        334
    }
}

/// The number of days in the year of `time`.
pub open spec fn max_day_of_year_spec(time: DateTime) -> int {
    if spec_is_leap_year(time.year as int) {
        366
    } else {
        365
    }
}

/// The number of days in the year of `time`.
pub fn max_day_of_year(time: &DateTime) -> (r: u32)
    ensures
        r == max_day_of_year_spec(*time),
{
    if is_leap_year(time.year) {
        366
    } else {
        365
    }
}

} // verus!

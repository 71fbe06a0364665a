//! Calendar dates and date-times as plain values.
use chrono::{Datelike, Timelike};
use vstd::prelude::*;

verus! {

/// Earliest year that a calendar date can carry.
pub const MIN_YEAR: i32 = -262143;

/// Latest year that a calendar date can carry.
pub const MAX_YEAR: i32 = 262142;

/// Gregorian leap year rule.
pub open spec fn is_leap_year(year: int) -> bool {
    (year % 4 == 0 && year % 100 != 0) || year % 400 == 0
}

/// Number of days of `month` (1 to 12) in `year`.
pub open spec fn days_in_month(year: int, month: int) -> int {
    if month == 2 {
        if is_leap_year(year) { 29 } else { 28 }
    } else if month == 4 || month == 6 || month == 9 || month == 11 {
        30
    } else {
        31
    }
}

/// Whether year, month and day name a day of the proleptic Gregorian calendar
/// within the supported range of years.
pub open spec fn valid_ymd(year: int, month: int, day: int) -> bool {
    &&& MIN_YEAR <= year <= MAX_YEAR
    &&& 1 <= month <= 12
    &&& 1 <= day <= days_in_month(year, month)
}

/// Relies on chrono::NaiveDate::from_ymd_opt: it returns `None` exactly for
/// an out-of-range year, an invalid month or a day that the month lacks.
#[verifier::external_body]
fn calendar_date_exists(year: i32, month: u32, day: u32) -> (r: bool)
    ensures
        r == valid_ymd(year as int, month as int, day as int),
{
    chrono::NaiveDate::from_ymd_opt(year, month, day).is_some()
}

/// The UTC day and time of day that lie `seconds` non-leap seconds after
/// 1970-01-01 00:00:00, where that instant is within the supported years.
pub uninterp spec fn utc_datetime_of(seconds: i64) -> Option<DateTime>;

/// Relies on chrono::DateTime::from_timestamp(seconds, 0), read back through
/// naive_utc: the UTC calendar instant of a Unix timestamp, always a real day
/// and, with no nanoseconds, never a leap second; `None` out of range.
#[verifier::external_body]
pub(crate) fn utc_from_timestamp(seconds: i64) -> (r: Option<DateTime>)
    ensures
        r == utc_datetime_of(seconds),
        r is Some ==> r->0.wf(),
{
    match chrono::DateTime::from_timestamp(seconds, 0) {
        Some(t) => {
            let n = t.naive_utc();
            let date = Date { year: n.year(), month: n.month(), day: n.day() };
            Some(DateTime { date, hour: n.hour(), minute: n.minute(), second: n.second() })
        },
        None => None,
    }
}

/// A calendar day, with no time zone.
#[derive(Clone, Copy, Debug, PartialEq, Eq, Structural)]
pub struct Date {
    pub year: i32,
    pub month: u32,
    pub day: u32,
}

/// A calendar day and a time of day to the second, with no time zone.
#[derive(Clone, Copy, Debug, PartialEq, Eq, Structural)]
pub struct DateTime {
    pub date: Date,
    pub hour: u32,
    pub minute: u32,
    pub second: u32,
}

/// `a` is a strictly earlier day than `b`.
pub open spec fn date_before(a: Date, b: Date) -> bool {
    ||| a.year < b.year
    ||| (a.year == b.year && a.month < b.month)
    ||| (a.year == b.year && a.month == b.month && a.day < b.day)
}

/// `a` is the same day as `b` or an earlier one.
pub open spec fn date_le(a: Date, b: Date) -> bool {
    date_before(a, b) || a == b
}

/// Seconds elapsed since midnight.
pub open spec fn seconds_of_day(t: DateTime) -> int {
    t.hour * 3600 + t.minute * 60 + t.second
}

/// `a` is the same instant as `b` or an earlier one.
pub open spec fn datetime_le(a: DateTime, b: DateTime) -> bool {
    ||| date_before(a.date, b.date)
    ||| (a.date == b.date && seconds_of_day(a) <= seconds_of_day(b))
}

impl Date {
    /// The date is a real calendar day within the supported years.
    pub open spec fn wf(&self) -> bool {
        valid_ymd(self.year as int, self.month as int, self.day as int)
    }

    /// The day given by year, month and day, or `None` where no such day exists.
    pub fn from_ymd_opt(year: i32, month: u32, day: u32) -> (r: Option<Date>)
        ensures
            r is Some <==> valid_ymd(year as int, month as int, day as int),
            r is Some ==> (r->0 == Date { year, month, day }),
    {
        if calendar_date_exists(year, month, day) {
            Some(Date { year, month, day })
        } else {
            None
        }
    }

    /// This day at the given time, or `None` where the time is not one of
    /// the day's seconds.
    pub fn and_hms_opt(&self, hour: u32, minute: u32, second: u32) -> (r: Option<DateTime>)
        ensures
            r is Some <==> (hour < 24 && minute < 60 && second < 60),
            r is Some ==> (r->0 == DateTime { date: *self, hour, minute, second }),
    {
        if hour < 24 && minute < 60 && second < 60 {
            Some(DateTime { date: *self, hour, minute, second })
        } else {
            None
        }
    }

    /// The first second of this day.
    pub fn start_of_day(&self) -> (r: DateTime)
        ensures
            r == (DateTime { date: *self, hour: 0, minute: 0, second: 0 }),
    {
        DateTime { date: *self, hour: 0, minute: 0, second: 0 }
    }

    /// The last second of this day.
    pub fn end_of_day(&self) -> (r: DateTime)
        ensures
            r == (DateTime { date: *self, hour: 23, minute: 59, second: 59 }),
    {
        DateTime { date: *self, hour: 23, minute: 59, second: 59 }
    }

    /// Whether this day is `other` or an earlier one.
    pub fn is_on_or_before(&self, other: &Date) -> (r: bool)
        ensures
            r == date_le(*self, *other),
    {
        if self.year != other.year {
            self.year < other.year
        } else if self.month != other.month {
            self.month < other.month
        } else {
            self.day <= other.day
        }
    }
}

impl DateTime {
    /// The time is one of the day's seconds, on a valid day.
    pub open spec fn wf(&self) -> bool {
        &&& self.date.wf()
        &&& self.hour < 24
        &&& self.minute < 60
        &&& self.second < 60
    }

    /// Whether this instant is `other` or an earlier one.
    pub fn is_at_or_before(&self, other: &DateTime) -> (r: bool)
        requires
            self.wf(),
            other.wf(),
        ensures
            r == datetime_le(*self, *other),
    {
        if self.date == other.date {
            let a: u32 = self.hour * 3600 + self.minute * 60 + self.second;
            let b: u32 = other.hour * 3600 + other.minute * 60 + other.second;
            a <= b
        } else {
            self.date.is_on_or_before(&other.date)
        }
    }
}

} // verus!

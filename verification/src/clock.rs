//! Calendar dates, times of day, and their combination, as decoded from
//! sentence fields.
//!
//! The values are plain integers with an invariant; whether a combination of
//! components forms a real calendar day or time is decided by chrono, behind
//! the two trusted wrappers below.

use vstd::prelude::*;

verus! {

/// A leap year of the proleptic Gregorian calendar (the calendar chrono
/// implements); `%` here is Euclidean, matching `i32::rem_euclid`.
pub open spec fn is_leap_year(y: int) -> bool {
    (y % 4 == 0 && y % 100 != 0) || y % 400 == 0
}

/// The number of days of month `m` of year `y`.
pub open spec fn days_in_month(y: int, m: int) -> int
    recommends
        1 <= m <= 12,
{
    if m == 2 {
        if is_leap_year(y) {
            29
        } else {
            28
        }
    } else if m == 4 || m == 6 || m == 9 || m == 11 {
        30
    } else {
        31
    }
}

/// The calendar days chrono's `NaiveDate` can hold: a real proleptic-Gregorian
/// day within the representable year range.
pub open spec fn valid_ymd(y: int, m: int, d: int) -> bool {
    &&& -262143 <= y <= 262142
    &&& 1 <= m <= 12
    &&& 1 <= d <= days_in_month(y, m)
}

/// The times chrono's `NaiveTime` can hold; a millisecond part of 1000..2000
/// stands for a leap second and is accepted only at second 59.
pub open spec fn valid_hms_milli(h: int, m: int, s: int, ms: int) -> bool {
    &&& 0 <= h < 24
    &&& 0 <= m < 60
    &&& 0 <= s < 60
    &&& 0 <= ms < 1000 || (s == 59 && 1000 <= ms < 2000)
}

/// Relies on chrono::NaiveDate::from_ymd_opt: it returns `Some` exactly for a
/// month 1..=12, a day between 1 and that month's length in the proleptic
/// Gregorian calendar, and a year the four-level date representation admits
/// (-262143..=262142).
#[verifier::external_body]
fn chrono_ymd_valid(year: i32, month: u32, day: u32) -> (r: bool)
    ensures
        r == valid_ymd(year as int, month as int, day as int),
{
    chrono::NaiveDate::from_ymd_opt(year, month, day).is_some()
}

/// Relies on chrono::NaiveTime::from_hms_milli_opt: it returns `Some` exactly
/// for hour < 24, minute < 60, second < 60 and millisecond < 1000, or a leap
/// second (millisecond 1000..2000) at second 59.
#[verifier::external_body]
fn chrono_hms_milli_valid(hour: u32, minute: u32, second: u32, millisecond: u32) -> (r: bool)
    ensures
        r == valid_hms_milli(hour as int, minute as int, second as int, millisecond as int),
{
    chrono::NaiveTime::from_hms_milli_opt(hour, minute, second, millisecond).is_some()
}

/// A calendar date.
#[derive(Clone, Copy, PartialEq, Eq, Structural, Debug)]
pub struct Date {
    pub year: i32,
    pub month: u32,
    pub day: u32,
}

impl Date {
    pub open spec fn wf(self) -> bool {
        valid_ymd(self.year as int, self.month as int, self.day as int)
    }
}

/// A time of day, to millisecond precision.
#[derive(Clone, Copy, PartialEq, Eq, Structural, Debug)]
pub struct TimeOfDay {
    pub hour: u32,
    pub minute: u32,
    pub second: u32,
    pub millisecond: u32,
}

impl TimeOfDay {
    pub open spec fn wf(self) -> bool {
        valid_hms_milli(
            self.hour as int,
            self.minute as int,
            self.second as int,
            self.millisecond as int,
        )
    }
}

/// A date with a time of day, in universal time.
#[derive(Clone, Copy, PartialEq, Eq, Structural, Debug)]
pub struct Timestamp {
    pub date: Date,
    pub time: TimeOfDay,
}

impl Timestamp {
    pub open spec fn wf(self) -> bool {
        self.date.wf() && self.time.wf()
    }
}

/// A date from its components, exactly when they form a calendar day.
pub fn make_date(year: i32, month: u32, day: u32) -> (r: Option<Date>)
    ensures
        valid_ymd(year as int, month as int, day as int) ==> r == Some(Date { year, month, day }),
        !valid_ymd(year as int, month as int, day as int) ==> r is None,
        r matches Some(d) ==> d.wf(),
{
    if chrono_ymd_valid(year, month, day) {
        Some(Date { year, month, day })
    } else {
        None
    }
}

/// A time of day from its components, exactly when chrono admits them.
pub fn make_time(hour: u32, minute: u32, second: u32, millisecond: u32) -> (r: Option<TimeOfDay>)
    ensures
        valid_hms_milli(hour as int, minute as int, second as int, millisecond as int) ==> r
            == Some(TimeOfDay { hour, minute, second, millisecond }),
        !valid_hms_milli(hour as int, minute as int, second as int, millisecond as int) ==> r
            is None,
        r matches Some(t) ==> t.wf(),
{
    if chrono_hms_milli_valid(hour, minute, second, millisecond) {
        Some(TimeOfDay { hour, minute, second, millisecond })
    } else {
        None
    }
}

} // verus!

use chrono::{Datelike, NaiveDateTime, Timelike};
use vstd::prelude::*;

verus! {

/// Seconds in one day.
pub const SECONDS_PER_DAY: i64 = 86400;

/// The Julian Date of the J2000.0 epoch, 2 451 545.0 days, in seconds.
pub const J2000_SECONDS: i64 = 2451545 * SECONDS_PER_DAY;

#[verifier::external_type_specification]
#[verifier::external_body]
pub struct ExNaiveDateTime(NaiveDateTime);

/// Relies on chrono's `Datelike::year` for `NaiveDateTime`: the calendar year.
#[verifier::external_body]
fn year_of(time: &NaiveDateTime) -> (r: i32) {
    time.year()
}

/// Relies on chrono's `Datelike::month`: the month number, from 1 to 12.
#[verifier::external_body]
fn month_of(time: &NaiveDateTime) -> (r: u32)
    ensures
        1 <= r <= 12,
{
    time.month()
}

/// Relies on chrono's `Datelike::day`: the day of month, from 1 to 31.
#[verifier::external_body]
fn day_of(time: &NaiveDateTime) -> (r: u32)
    ensures
        1 <= r <= 31,
{
    time.day()
}

/// Relies on chrono's `Timelike::hour`: the hour, from 0 to 23.
#[verifier::external_body]
fn hour_of(time: &NaiveDateTime) -> (r: u32)
    ensures
        r <= 23,
{
    time.hour()
}

/// Relies on chrono's `Timelike::minute`: the minute, from 0 to 59.
#[verifier::external_body]
fn minute_of(time: &NaiveDateTime) -> (r: u32)
    ensures
        r <= 59,
{
    time.minute()
}

/// Relies on chrono's `Timelike::second`: the second, from 0 to 59 (a leap
/// second shows in the nanoseconds, which the formula does not read).
#[verifier::external_body]
fn second_of(time: &NaiveDateTime) -> (r: u32)
    ensures
        r <= 59,
{
    time.second()
}

/// A UTC calendar instant, as the numeric fields that the Julian Date
/// formula reads.
#[derive(Clone, Copy, Debug, PartialEq, Eq)]
pub struct Timestamp {
    pub year: i32,
    pub month: u32,
    pub day: u32,
    pub hour: u32,
    pub minute: u32,
    pub second: u32,
}

impl Timestamp {
    /// The fields lie in the ranges of a calendar instant: month 1 to 12,
    /// day of month 1 to 31, hour 0 to 23, minute and second 0 to 59.
    pub open spec fn wf(self) -> bool {
        &&& 1 <= self.month <= 12
        &&& 1 <= self.day <= 31
        &&& self.hour <= 23
        &&& self.minute <= 59
        &&& self.second <= 59
    }

    /// The fields of a chrono date and time, read as UTC (for a
    /// `DateTime<Utc>`, pass its `naive_utc()`).
    pub fn from_naive_utc(time: &NaiveDateTime) -> (r: Timestamp)
        ensures
            r.wf(),
    {
        Timestamp {
            year: year_of(time),
            month: month_of(time),
            day: day_of(time),
            hour: hour_of(time),
            minute: minute_of(time),
            second: second_of(time),
        }
    }
}

/// The whole-day part of the Julian Date formula, with the half day that it
/// subtracts left out:
/// `floor(365.25 (Y + 4716)) + floor(30.6001 (M + 1)) + D
///  + (2 - floor(Y / 100) + floor(Y / 400)) - 1524`.
/// The two products are written as exact fractions of integers.
pub open spec fn julian_day_part(year: int, month: int, day: int) -> int {
    (1461 * (year + 4716)) / 4 + (306001 * (month + 1)) / 10000 + day + (2 - year / 100 + year
        / 400) - 1524
}

/// The Julian Date of `t` times 86 400: the formula's value in seconds, with
/// the time of day `hour / 24 + minute / 1440 + second / 86400` and the
/// half day (43 200 s) subtracted at the end.
pub open spec fn julian_date_seconds(t: Timestamp) -> int {
    86400 * julian_day_part(t.year as int, t.month as int, t.day as int) - 43200 + 3600 * t.hour
        + 60 * t.minute + t.second
}

/// `floor(a / b)` for a positive divisor.
fn floor_div(a: i64, b: i64) -> (r: i64)
    requires
        b > 0,
    ensures
        r == a as int / b as int,
{
    proof {
        assert(i64::MIN <= a as int / b as int <= i64::MAX) by (nonlinear_arith)
            requires
                b > 0,
        ;
    }
    a.checked_div_euclid(b).unwrap()
}

/// The Julian Date of `time`, counted in seconds (the Julian Date times
/// 86 400), so that the value is exact: 2 299 160.5 days is
/// 198 647 467 200 seconds.
pub fn get_julian_date(time: &Timestamp) -> (r: i64)
    ensures
        r == julian_date_seconds(*time),
{
    let y = time.year as i64;
    let m = time.month as i64;
    let term1 = floor_div(1461 * (y + 4716), 4);
    let term2 = floor_div(306001 * (m + 1), 10000);
    let term4 = 2 - floor_div(y, 100) + floor_div(y, 400);
    let days = term1 + term2 + time.day as i64 + term4 - 1524;
    days * SECONDS_PER_DAY - 43200 + 3600 * time.hour as i64 + 60 * time.minute as i64
        + time.second as i64
}

/// Seconds elapsed from the J2000.0 epoch to `time` on the Julian Date axis;
/// divided by 36 525 days it gives the Julian centuries `t` of the sidereal
/// time formula.
pub fn seconds_since_j2000(time: &Timestamp) -> (r: i64)
    ensures
        r == julian_date_seconds(*time) - 2451545 * 86400,
{
    get_julian_date(time) - J2000_SECONDS
}

} // verus!

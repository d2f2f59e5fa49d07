//! Calendar dates and the clock capability behind the session-pinned
//! "current date" memo.

use vstd::prelude::*;

use chrono::Datelike;

verus! {

/// A calendar date.
#[derive(Clone, Copy, Debug, PartialEq, Eq, Structural)]
pub struct Date {
    pub year: i32,
    pub month: u8,
    pub day: u8,
}

/// Whether a year is a leap year of the proleptic Gregorian calendar.
pub open spec fn is_leap_year(year: int) -> bool {
    (year % 4 == 0 && year % 100 != 0) || year % 400 == 0
}

/// The number of days in a month of the proleptic Gregorian calendar.
pub open spec fn days_in_month(year: int, month: int) -> int
    recommends
        1 <= month <= 12,
{
    if month == 2 {
        if is_leap_year(year) {
            29
        } else {
            28
        }
    } else if month == 4 || month == 6 || month == 9 || month == 11 {
        30
    } else {
        31
    }
}

/// Whether the triple denotes a real calendar date.
pub open spec fn valid_date(d: Date) -> bool {
    &&& 1 <= d.month <= 12
    &&& 1 <= d.day <= days_in_month(d.year as int, d.month as int)
}

/// Whether a year is a leap year.
fn leap_year(year: i32) -> (r: bool)
    ensures
        r == is_leap_year(year as int),
{
    (year % 4 == 0 && year % 100 != 0) || year % 400 == 0
}

impl Date {
    /// Validates a (year, month, day) triple; yields a date exactly when
    /// the triple denotes a real calendar date.
    pub fn from_ymd(year: i32, month: u8, day: u8) -> (r: Option<Date>)
        ensures
            r matches Some(d) ==> d == (Date { year, month, day }),
            r is Some <==> valid_date(Date { year, month, day }),
    {
        if month < 1 || month > 12 {
            return None;
        }
        let limit: u8 = if month == 2 {
            if leap_year(year) {
                29
            } else {
                28
            }
        } else if month == 4 || month == 6 || month == 9 || month == 11 {
            30
        } else {
            31
        };
        if day < 1 || day > limit {
            return None;
        }
        Some(Date { year, month, day })
    }
}

/// Relies on chrono's `Local::now`, `Utc::now`, `TimeDelta::try_hours`,
/// `DateTime::checked_add_signed` and the `Datelike` accessors: yields
/// today's (year, month, day) under the requested hour offset from UTC
/// (local time when `None`), with the month in `1..=12` and the day in
/// `1..=31` as chrono documents; `None` when the offset cannot be
/// represented or shifts the time out of chrono's range. Only the checked
/// additions are used, so no offset makes the call abort. The result
/// depends on the clock, so nothing more is promised of it.
#[verifier::external_body]
pub fn current_ymd(offset_hours: Option<i64>) -> (r: Option<(i32, u32, u32)>)
    ensures
        r matches Some((y, m, d)) ==> 1 <= m <= 12 && 1 <= d <= 31,
{
    let naive = match offset_hours {
        None => chrono::Local::now().naive_local(),
        Some(o) => match chrono::TimeDelta::try_hours(o) {
            Some(delta) => match chrono::Utc::now().checked_add_signed(delta) {
                Some(t) => t.naive_utc(),
                None => return None,
            },
            None => return None,
        },
    };
    Some((naive.year(), naive.month(), naive.day()))
}

} // verus!

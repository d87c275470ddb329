//! The calendar behind the date codecs: which dates exist, on which day of
//! the week a date falls, and what is asked of chrono (the UTC time of a
//! local time with an offset).

use vstd::prelude::*;
use chrono::{Datelike, FixedOffset, NaiveDate, Timelike};

verus! {

/// Whether `year` has a 29th of February in the proleptic Gregorian
/// calendar.
pub open spec fn is_leap_year(year: int) -> bool {
    year % 4 == 0 && (year % 100 != 0 || year % 400 == 0)
}

/// The number of days of `month` in `year`.
pub open spec fn days_in_month(year: int, month: int) -> int {
    if month == 2 {
        if is_leap_year(year) {
            29
        } else {
            28
        }
    } else if month == 4 || month == 6 || month == 9 || month == 11 {
        30
    } else {
        31
    }
}

/// Whether the calendar has the day `day` of `month` in `year`.
pub open spec fn date_exists(year: int, month: int, day: int) -> bool {
    1 <= month <= 12 && 1 <= day <= days_in_month(year, month)
}

/// Whether the calendar has the given day.
pub fn check_date(year: u32, month: u32, day: u32) -> (r: bool)
    ensures
        r == date_exists(year as int, month as int, day as int),
{
    if month < 1 || month > 12 || day < 1 {
        return false;
    }
    let leap: bool = year % 4 == 0 && (year % 100 != 0 || year % 400 == 0);
    let length: u32 = if month == 2 {
        if leap {
            29
        } else {
            28
        }
    } else if month == 4 || month == 6 || month == 9 || month == 11 {
        30
    } else {
        31
    };
    day <= length
}

/// The day of the week of a date, in days since Monday, by Zeller's
/// congruence. January and February count as the months 13 and 14 of the
/// year before, and 400 years are added first, which changes no day of the
/// week and keeps every term positive.
pub open spec fn day_of_week(year: int, month: int, day: int) -> int {
    let m = if month <= 2 {
        month + 12
    } else {
        month
    };
    let y = if month <= 2 {
        year + 399
    } else {
        year + 400
    };
    let k = y % 100;
    let j = y / 100;
    (day + (13 * (m + 1)) / 5 + k + k / 4 + j / 4 + 5 * j + 5) % 7
}

/// The day of the week of a date, in days since Monday.
pub fn weekday(year: u32, month: u32, day: u32) -> (r: u32)
    ensures
        r == day_of_week(year as int, month as int, day as int),
        r < 7,
{
    let m: u64 = if month <= 2 {
        month as u64 + 12
    } else {
        month as u64
    };
    let y: u64 = if month <= 2 {
        year as u64 + 399
    } else {
        year as u64 + 400
    };
    let k: u64 = y % 100;
    let j: u64 = y / 100;
    ((day as u64 + (13 * (m + 1)) / 5 + k + k / 4 + j / 4 + 5 * j + 5) % 7) as u32
}

/// The UTC date and time (year, month, day, hour, minute, second) of a
/// local date and time whose clock is `offset` seconds ahead of UTC, as
/// chrono computes it, or `None` where chrono refuses an argument or the
/// result.
pub uninterp spec fn utc_of_local(
    year: int,
    month: int,
    day: int,
    hour: int,
    minute: int,
    second: int,
    offset: int,
) -> Option<(i32, u32, u32, u32, u32, u32)>;

/// Calls `chrono::NaiveDateTime::checked_sub_offset` on the local date and
/// time and the offset. The arguments are handed to chrono through
/// `NaiveDate::from_ymd_opt`, `NaiveDate::and_hms_opt` and
/// `FixedOffset::east_opt`, and the fields of the result are read with the
/// getters of `Datelike` and `Timelike`.
///
/// Believed, not proved: the result depends on the seven arguments alone.
#[verifier::external_body]
pub(crate) fn local_to_utc(
    year: i32,
    month: u32,
    day: u32,
    hour: u32,
    minute: u32,
    second: u32,
    offset: i32,
) -> (r: Option<(i32, u32, u32, u32, u32, u32)>)
    ensures
        r == utc_of_local(
            year as int,
            month as int,
            day as int,
            hour as int,
            minute as int,
            second as int,
            offset as int,
        ),
{
    let local = NaiveDate::from_ymd_opt(year, month, day)?.and_hms_opt(hour, minute, second)?;
    let utc = local.checked_sub_offset(FixedOffset::east_opt(offset)?)?;
    Some((utc.year(), utc.month(), utc.day(), utc.hour(), utc.minute(), utc.second()))
}

} // verus!

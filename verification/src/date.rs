//! Dates of the validity window as text: ISO 8601 in UTC, the same on every
//! machine and in every locale.

use crate::native::CalendarTime;
use vstd::prelude::*;

verus! {

/// Whether a year of the proleptic Gregorian calendar has a 29th of February.
pub open spec fn is_leap_year(year: int) -> bool {
    year % 4 == 0 && (year % 100 != 0 || year % 400 == 0)
}

/// The number of days of a month, for months 1 to 12.
pub open spec fn days_in_month(year: int, month: int) -> int {
    if month == 2 {
        if is_leap_year(year) {
            29
        } else {
            28
        }
    } else if month == 4 || month == 6 || month == 9 || month == 11 {
        30
    } else {
        31
    }
}

/// Whether the fields name a day of the calendar and a second of that day.
pub open spec fn exists_in_calendar(time: CalendarTime) -> bool {
    &&& 1 <= time.month <= 12
    &&& 1 <= time.day <= days_in_month(time.year as int, time.month as int)
    &&& time.hour < 24
    &&& time.minute < 60
    &&& time.second < 60
}

/// The decimal digit for a number below ten.
pub open spec fn digit(n: int) -> char {
    ('0' as int + n) as char
}

/// A number below one hundred as two decimal digits.
pub open spec fn two_digits(n: int) -> Seq<char> {
    seq![digit(n / 10), digit(n % 10)]
}

/// A year as ISO 8601 writes it: four digits up to 9999, and beyond that a
/// plus sign before the five digits.
pub open spec fn year_digits(year: int) -> Seq<char> {
    if year < 10000 {
        two_digits(year / 100) + two_digits(year % 100)
    } else {
        seq!['+', digit(year / 10000)] + two_digits(year / 100 % 100) + two_digits(year % 100)
    }
}

/// The instant as `YYYY-MM-DDTHH:MM:SSZ`.
pub open spec fn utc_text(time: CalendarTime) -> Seq<char> {
    year_digits(time.year as int) + seq!['-'] + two_digits(time.month as int) + seq!['-']
        + two_digits(time.day as int) + seq!['T'] + two_digits(time.hour as int) + seq![':']
        + two_digits(time.minute as int) + seq![':'] + two_digits(time.second as int) + seq!['Z']
}

/// Checks the fields against the calendar and writes them as text.
///
/// Trusted: the calendar is chrono's. `NaiveDate::from_ymd_opt` gives a date
/// exactly where the day exists in the proleptic Gregorian calendar (every
/// year that fits the field is within its range), `NaiveTime::from_hms_opt` a
/// time exactly where hour, minute and second are below 24, 60 and 60, and
/// formatting the two as UTC with `%Y-%m-%dT%H:%M:%SZ` writes each field in
/// decimal, padded with zeros to two digits, the year to four, with a plus
/// sign before a year of five digits.
#[verifier::external_body]
pub(crate) fn format_utc(time: CalendarTime) -> (text: Option<String>)
    ensures
        text.is_some() == exists_in_calendar(time),
        text.is_some() ==> text.unwrap()@ == utc_text(time),
{
    let date = chrono::NaiveDate::from_ymd_opt(time.year.into(), time.month.into(), time.day.into())?;
    let clock = chrono::NaiveTime::from_hms_opt(
        time.hour.into(),
        time.minute.into(),
        time.second.into(),
    )?;
    Some(chrono::NaiveDateTime::new(date, clock).and_utc().format("%Y-%m-%dT%H:%M:%SZ").to_string())
}

} // verus!

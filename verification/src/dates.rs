use chrono::{Datelike, Timelike};
use vstd::prelude::*;

use crate::text::decimal_text;

verus! {

/// The earliest year that chrono's `NaiveDate` holds.
pub const MIN_YEAR: i32 = -262143;

/// The latest year that chrono's `NaiveDate` holds.
pub const MAX_YEAR: i32 = 262142;

/// A day of the proleptic Gregorian calendar.
#[derive(Debug, Clone, Copy, PartialEq, Eq, Structural)]
pub struct CalendarDate {
    pub year: i32,
    pub month: u32,
    pub day: u32,
}

/// A time of day, to the second.
#[derive(Debug, Clone, Copy, PartialEq, Eq, Structural)]
pub struct ClockTime {
    pub hour: u32,
    pub minute: u32,
    pub second: u32,
}

/// A date and a time of day, without a time zone.
#[derive(Debug, Clone, Copy, PartialEq, Eq, Structural)]
pub struct LocalDateTime {
    pub date: CalendarDate,
    pub time: ClockTime,
}

pub open spec fn is_leap_year(y: int) -> bool {
    (y % 4 == 0 && y % 100 != 0) || y % 400 == 0
}

pub open spec fn days_in_month(y: int, m: int) -> int {
    if m == 2 {
        if is_leap_year(y) {
            29
        } else {
            28
        }
    } else if m == 4 || m == 6 || m == 9 || m == 11 {
        30
    } else {
        31
    }
}

/// The day exists and lies in the range of years that chrono holds.
pub open spec fn is_valid_date(y: int, m: int, d: int) -> bool {
    &&& MIN_YEAR <= y <= MAX_YEAR
    &&& 1 <= m <= 12
    &&& 1 <= d <= days_in_month(y, m)
}

impl CalendarDate {
    pub open spec fn valid(self) -> bool {
        is_valid_date(self.year as int, self.month as int, self.day as int)
    }

    /// Whether the day exists and lies in the range of years that chrono holds.
    pub fn is_valid(&self) -> (r: bool)
        ensures
            r == self.valid(),
    {
        if self.year < MIN_YEAR || self.year > MAX_YEAR || self.month < 1 || self.month > 12
            || self.day < 1 {
            return false;
        }
        // The calendar repeats every 400 years, so a year moved up by a
        // multiple of 400 is a leap year exactly when the year itself is.
        let shifted: u32 = (self.year + 400_000) as u32;
        proof {
            let y = self.year as int;
            vstd::arithmetic::div_mod::lemma_mod_multiples_vanish(100_000, y, 4);
            vstd::arithmetic::div_mod::lemma_mod_multiples_vanish(4_000, y, 100);
            vstd::arithmetic::div_mod::lemma_mod_multiples_vanish(1_000, y, 400);
        }
        let leap = (shifted % 4 == 0 && shifted % 100 != 0) || shifted % 400 == 0;
        assert(leap == is_leap_year(self.year as int));
        let last: u32 = if self.month == 2 {
            if leap {
                29
            } else {
                28
            }
        } else if self.month == 4 || self.month == 6 || self.month == 9 || self.month == 11 {
            30
        } else {
            31
        };
        self.day <= last
    }
}

impl ClockTime {
    pub open spec fn valid(self) -> bool {
        self.hour < 24 && self.minute < 60 && self.second < 60
    }
}

impl LocalDateTime {
    pub open spec fn valid(self) -> bool {
        self.date.valid() && self.time.valid()
    }
}

/// The decimal digits of `n`, with zeros in front up to `width` digits.
pub open spec fn zero_padded(n: nat, width: nat) -> Seq<char> {
    let t = decimal_text(n);
    if t.len() >= width {
        t
    } else {
        Seq::new((width - t.len()) as nat, |_i: int| '0') + t
    }
}

/// chrono's `%Y`: four digits at least; outside 0 to 9999 with a sign in front.
pub open spec fn year_text(y: int) -> Seq<char> {
    if 0 <= y <= 9999 {
        zero_padded(y as nat, 4)
    } else if y < 0 {
        seq!['-'] + zero_padded((-y) as nat, 4)
    } else {
        seq!['+'] + zero_padded(y as nat, 4)
    }
}

/// What chrono writes for a date with the format `%Y-%m-%d`.
pub open spec fn iso_date_text(y: int, m: nat, d: nat) -> Seq<char> {
    year_text(y) + seq!['-'] + zero_padded(m, 2) + seq!['-'] + zero_padded(d, 2)
}

/// What chrono's `NaiveDate::parse_from_str(s, fmt)` gives: year, month and day.
pub uninterp spec fn chrono_parse_date(s: Seq<char>, fmt: Seq<char>) -> Option<(i32, u32, u32)>;

/// What chrono's `NaiveTime::parse_from_str(s, fmt)` gives: hour, minute and second.
pub uninterp spec fn chrono_parse_time(s: Seq<char>, fmt: Seq<char>) -> Option<(u32, u32, u32)>;

/// What chrono gives for the date `days` days after the given one
/// (`NaiveDate::checked_add_signed` with `TimeDelta::try_days`).
pub uninterp spec fn chrono_add_days(y: i32, m: u32, d: u32, days: i64) -> Option<(i32, u32, u32)>;

pub open spec fn date_of(t: (i32, u32, u32)) -> CalendarDate {
    CalendarDate { year: t.0, month: t.1, day: t.2 }
}

/// Calls `NaiveDate::parse_from_str(s, fmt)` and takes year, month and day of
/// the result. The result is named `chrono_parse_date`; a `NaiveDate` is
/// always a valid day in chrono's range, which is stated. Which texts parse is
/// not stated.
#[verifier::external_body]
pub(crate) fn parse_date(s: &str, fmt: &str) -> (r: Option<CalendarDate>)
    ensures
        match chrono_parse_date(s@, fmt@) {
            Some(t) => r == Some(date_of(t)),
            None => r is None,
        },
        r matches Some(d) ==> d.valid(),
{
    chrono::NaiveDate::parse_from_str(s, fmt).ok().map(
        |d| CalendarDate { year: d.year(), month: d.month(), day: d.day() },
    )
}

/// Calls `NaiveTime::parse_from_str(s, fmt)` and takes hour, minute and second
/// of the result. The result is named `chrono_parse_time`; hours are below 24
/// and minutes and seconds below 60, which is stated. Which texts parse is not
/// stated.
#[verifier::external_body]
pub(crate) fn parse_time(s: &str, fmt: &str) -> (r: Option<ClockTime>)
    ensures
        match chrono_parse_time(s@, fmt@) {
            Some(t) => r == Some(ClockTime { hour: t.0, minute: t.1, second: t.2 }),
            None => r is None,
        },
        r matches Some(t) ==> t.valid(),
{
    chrono::NaiveTime::parse_from_str(s, fmt).ok().map(
        |t| ClockTime { hour: t.hour(), minute: t.minute(), second: t.second() },
    )
}

/// Calls `NaiveDate::with_year` on the given valid date: the same month and
/// day in `year`, when that day exists there and the year lies in chrono's
/// range, as chrono's documentation and source give it.
#[verifier::external_body]
pub(crate) fn date_with_year(date: CalendarDate, year: i32) -> (r: Option<CalendarDate>)
    requires
        date.valid(),
    ensures
        r == (if is_valid_date(year as int, date.month as int, date.day as int) {
            Some(CalendarDate { year, month: date.month, day: date.day })
        } else {
            None
        }),
{
    chrono::NaiveDate::from_ymd_opt(date.year, date.month, date.day).and_then(
        |d| d.with_year(year),
    ).map(|d| CalendarDate { year: d.year(), month: d.month(), day: d.day() })
}

/// Calls `NaiveDate::checked_add_signed` with `TimeDelta::try_days(days)` on
/// the given valid date. The result is named `chrono_add_days`; it is always a
/// valid date, which is stated.
#[verifier::external_body]
pub(crate) fn add_days(date: CalendarDate, days: i64) -> (r: Option<CalendarDate>)
    requires
        date.valid(),
    ensures
        match chrono_add_days(date.year, date.month, date.day, days) {
            Some(t) => r == Some(date_of(t)),
            None => r is None,
        },
        r matches Some(d) ==> d.valid(),
{
    let d = chrono::NaiveDate::from_ymd_opt(date.year, date.month, date.day).unwrap();
    chrono::TimeDelta::try_days(days).and_then(|delta| d.checked_add_signed(delta)).map(
        |d| CalendarDate { year: d.year(), month: d.month(), day: d.day() },
    )
}

/// Calls `NaiveDate::format(fmt).to_string()` with the format `%Y-%m-%d` on the
/// given valid date: the year as chrono's `%Y` writes it, the month and the day
/// in two digits each, joined by dashes.
#[verifier::external_body]
pub(crate) fn format_date(date: CalendarDate, fmt: &str) -> (r: String)
    requires
        date.valid(),
        fmt@ == "%Y-%m-%d"@,
    ensures
        r@ == iso_date_text(date.year as int, date.month as nat, date.day as nat),
{
    chrono::NaiveDate::from_ymd_opt(date.year, date.month, date.day).unwrap().format(
        fmt,
    ).to_string()
}

} // verus!

//! Calendar dates and times of day, formatted through chrono.
use crate::text::{decimal_chars, four_digits, two_digits};
use chrono::{DateTime, Datelike, Local, NaiveDate, NaiveTime, Timelike};
use vstd::prelude::*;

verus! {

/// The earliest kickoff instant the library accepts: 0001-01-01T00:00:00Z.
pub const EARLIEST_KICKOFF: i64 = -62135596800;

/// The latest kickoff instant the library accepts: 9999-12-31T23:59:59Z.
pub const LATEST_KICKOFF: i64 = 253402300799;

pub open spec fn is_leap_year(y: int) -> bool {
    (y % 4 == 0 && y % 100 != 0) || y % 400 == 0
}

pub open spec fn days_in_month(y: int, m: int) -> int {
    if m == 2 {
        if is_leap_year(y) { 29 } else { 28 }
    } else if m == 4 || m == 6 || m == 9 || m == 11 {
        30
    } else {
        31
    }
}

/// Whether month `m` and day `d` name a day of the proleptic Gregorian year `y`.
pub open spec fn is_calendar_date(y: int, m: int, d: int) -> bool {
    1 <= m <= 12 && 1 <= d <= days_in_month(y, m)
}

/// `YYYY-MM-DD`.
pub open spec fn ymd_chars(y: int, m: int, d: int) -> Seq<char> {
    four_digits(y) + seq!['-'] + two_digits(m) + seq!['-'] + two_digits(d)
}

/// The hour on a twelve-hour clock, 1 to 12.
pub open spec fn hour12(h: int) -> int {
    if h % 12 == 0 { 12 } else { h % 12 }
}

/// `H:MM AM` or `H:MM PM`, the hour without a leading zero.
pub open spec fn clock_chars(h: int, m: int) -> Seq<char> {
    decimal_chars(hour12(h) as nat) + seq![':'] + two_digits(m) + seq![' '] + (if h < 12 {
        seq!['A', 'M']
    } else {
        seq!['P', 'M']
    })
}

/// Relies on chrono's `NaiveDate::from_ymd_opt`, which gives `None` exactly
/// for an invalid month or day (the year range lies far outside 0..=9999),
/// and on `format("%Y-%m-%d")`, which writes such a year with four digits
/// and month and day with two, zero-padded.
#[verifier::external_body]
fn chrono_ymd(year: i32, month: u32, day: u32) -> (r: Option<String>)
    requires
        0 <= year <= 9999,
    ensures
        r.is_some() == is_calendar_date(year as int, month as int, day as int),
        r matches Some(s) ==> s@ == ymd_chars(year as int, month as int, day as int),
{
    match NaiveDate::from_ymd_opt(year, month, day) {
        Some(d) => Some(d.format("%Y-%m-%d").to_string()),
        None => None,
    }
}

/// Relies on chrono's `Local::now().date_naive()`: today's date in the
/// machine's time zone, always a valid calendar date. chrono panics only
/// where the system clock is set before 1970 or the machine's time-zone data
/// gives no offset for the instant.
#[verifier::external_body]
fn chrono_today() -> (r: (i32, u32, u32))
    ensures
        is_calendar_date(r.0 as int, r.1 as int, r.2 as int),
{
    let d = Local::now().date_naive();
    (d.year(), d.month(), d.day())
}

/// Relies on chrono's `NaiveTime::from_hms_opt`, which gives `None` exactly
/// when the hour is not below 24 or the minute not below 60, and on
/// `format("%-I:%M %p")`: the twelve-hour hour unpadded, the minute with two
/// digits, then `AM` or `PM`.
#[verifier::external_body]
fn chrono_clock(hour: u32, minute: u32) -> (r: Option<String>)
    ensures
        r.is_some() == (hour < 24 && minute < 60),
        r matches Some(s) ==> s@ == clock_chars(hour as int, minute as int),
{
    match NaiveTime::from_hms_opt(hour, minute, 0) {
        Some(t) => Some(t.format("%-I:%M %p").to_string()),
        None => None,
    }
}

/// Relies on chrono's `DateTime::from_timestamp`, which accepts every instant
/// of the years 1 to 9999, and on `with_timezone(&Local)`: the hour and minute
/// of that instant on the machine's clock. chrono panics only where the
/// machine's time-zone data gives no offset for the instant.
#[verifier::external_body]
fn chrono_local_clock(timestamp: i64) -> (r: Option<(u32, u32)>)
    ensures
        EARLIEST_KICKOFF <= timestamp <= LATEST_KICKOFF ==> r.is_some(),
        r matches Some(t) ==> t.0 < 24 && t.1 < 60,
{
    match DateTime::from_timestamp(timestamp, 0) {
        Some(t) => {
            let local = t.with_timezone(&Local).time();
            Some((local.hour(), local.minute()))
        },
        None => None,
    }
}

/// A day of the calendar, with a four-digit year.
#[derive(Clone, Copy, Debug, PartialEq, Eq, Structural)]
pub struct Date {
    pub year: i32,
    pub month: u32,
    pub day: u32,
}

impl Date {
    pub open spec fn wf(&self) -> bool {
        0 <= self.year <= 9999 && is_calendar_date(self.year as int, self.month as int, self.day as int)
    }

    /// `YYYY-MM-DD` of this date.
    pub open spec fn ymd_view(&self) -> Seq<char> {
        ymd_chars(self.year as int, self.month as int, self.day as int)
    }

    /// The date with these parts, or `None` where they name no day of the
    /// years 0 to 9999.
    pub fn new(year: i32, month: u32, day: u32) -> (r: Option<Date>)
        ensures
            r == (if 0 <= year <= 9999 && is_calendar_date(year as int, month as int, day as int) {
                Some(Date { year, month, day })
            } else {
                None
            }),
    {
        if year < 0 || year > 9999 {
            return None;
        }
        match chrono_ymd(year, month, day) {
            Some(_) => Some(Date { year, month, day }),
            None => None,
        }
    }

    /// The date written `YYYY-MM-DD`.
    pub fn ymd(&self) -> (r: String)
        requires
            self.wf(),
        ensures
            r@ == self.ymd_view(),
    {
        match chrono_ymd(self.year, self.month, self.day) {
            Some(s) => s,
            None => String::new(),
        }
    }
}

/// Today's date on the machine's clock, or `None` where its year has more
/// than four digits.
pub fn today() -> (r: Option<Date>)
    ensures
        r matches Some(d) ==> d.wf(),
{
    let (y, m, d) = chrono_today();
    Date::new(y, m, d)
}

/// The date asked for, or today's date where none was given.
pub fn resolve_date(given: Option<Date>) -> (r: Option<Date>)
    ensures
        given is Some ==> r == given,
        given is None ==> (r matches Some(d) ==> d.wf()),
{
    match given {
        Some(d) => Some(d),
        None => today(),
    }
}

/// An hour and a minute of a day.
#[derive(Clone, Copy, Debug, PartialEq, Eq, Structural)]
pub struct ClockTime {
    pub hour: u32,
    pub minute: u32,
}

impl ClockTime {
    pub open spec fn wf(&self) -> bool {
        self.hour < 24 && self.minute < 60
    }

    pub open spec fn text_view(&self) -> Seq<char> {
        clock_chars(self.hour as int, self.minute as int)
    }

    /// The time written `H:MM AM` or `H:MM PM`.
    pub fn text(&self) -> (r: String)
        requires
            self.wf(),
        ensures
            r@ == self.text_view(),
    {
        match chrono_clock(self.hour, self.minute) {
            Some(s) => s,
            None => String::new(),
        }
    }
}

/// Whether a kickoff instant, in seconds since 1970-01-01T00:00:00Z, lies in
/// the years 1 to 9999.
pub open spec fn kickoff_in_range(t: i64) -> bool {
    EARLIEST_KICKOFF <= t <= LATEST_KICKOFF
}

/// The hour and minute of an instant on the machine's clock.
pub fn local_clock(timestamp: i64) -> (r: ClockTime)
    requires
        kickoff_in_range(timestamp),
    ensures
        r.wf(),
{
    match chrono_local_clock(timestamp) {
        Some((hour, minute)) => ClockTime { hour, minute },
        None => ClockTime { hour: 0, minute: 0 },
    }
}

} // verus!

//! Wall-clock moments to the second, and their `YYYY-MM-DD HH:MM:SS` text.

use crate::decimal::{decimal, four_digits, two_digits};
use chrono::{Datelike, Local, NaiveDate, Timelike};
use vstd::prelude::*;

verus! {

/// The earliest year a moment can lie in.
pub const MIN_YEAR: i32 = -262143;

/// The latest year a moment can lie in.
pub const MAX_YEAR: i32 = 262142;

/// Whether a year of the proleptic Gregorian calendar has a 29 February.
pub open spec fn is_leap_year(year: int) -> bool {
    year % 4 == 0 && (year % 100 != 0 || year % 400 == 0)
}

/// The number of days of a month.
pub open spec fn days_in_month(year: int, month: int) -> int {
    if month == 2 {
        if is_leap_year(year) {
            29
        } else {
            28
        }
    } else if month == 4 || month == 6 || month == 9 || month == 11 {
        30
    } else {
        31
    }
}

/// A year in a date: four digits from 0 to 9999; beyond those a sign, then
/// the digits, filled with zeros to four.
pub open spec fn year_text(year: int) -> Seq<char> {
    if 0 <= year <= 9999 {
        four_digits(year)
    } else if year > 9999 {
        seq!['+'] + decimal(year)
    } else if year > -10000 {
        seq!['-'] + four_digits(-year)
    } else {
        seq!['-'] + decimal(-year)
    }
}

/// A date and a time of day, as numbers.
pub struct Moment {
    pub year: int,
    pub month: int,
    pub day: int,
    pub hour: int,
    pub minute: int,
    pub second: int,
}

impl Moment {
    /// Whether the numbers name a day of the calendar and a second of it.
    pub open spec fn valid(self) -> bool {
        &&& MIN_YEAR <= self.year <= MAX_YEAR
        &&& 1 <= self.month <= 12
        &&& 1 <= self.day <= days_in_month(self.year, self.month)
        &&& 0 <= self.hour <= 23
        &&& 0 <= self.minute <= 59
        &&& 0 <= self.second <= 59
    }

    /// The moment as `YYYY-MM-DD HH:MM:SS`.
    pub open spec fn text(self) -> Seq<char> {
        year_text(self.year) + seq!['-'] + two_digits(self.month) + seq!['-'] + two_digits(
            self.day,
        ) + seq![' '] + two_digits(self.hour) + seq![':'] + two_digits(self.minute) + seq![':']
            + two_digits(self.second)
    }
}

/// The moment that six machine numbers stand for.
pub open spec fn moment(
    year: i32,
    month: u32,
    day: u32,
    hour: u32,
    minute: u32,
    second: u32,
) -> Moment {
    Moment {
        year: year as int,
        month: month as int,
        day: day as int,
        hour: hour as int,
        minute: minute as int,
        second: second as int,
    }
}

/// `Local::now`, taken apart by `naive_local` and the `Datelike` and
/// `Timelike` getters: year, month, day, hour, minute, second. Whatever the
/// clock says, they name a real moment. (The call gives up on a clock that
/// is set before 1970.)
#[verifier::external_body]
fn read_local_clock() -> (now: (i32, u32, u32, u32, u32, u32))
    ensures
        moment(now.0, now.1, now.2, now.3, now.4, now.5).valid(),
{
    let now = Local::now().naive_local();
    (now.year(), now.month(), now.day(), now.hour(), now.minute(), now.second())
}

/// `NaiveDate::from_ymd_opt` and `and_hms_opt`, which take every valid
/// moment, then `format` with `%Y-%m-%d %H:%M:%S`: the year as `year_text`
/// has it, and month, day, hour, minute and second with two digits each.
#[verifier::external_body]
fn format_moment(year: i32, month: u32, day: u32, hour: u32, minute: u32, second: u32) -> (text:
    String)
    requires
        moment(year, month, day, hour, minute, second).valid(),
    ensures
        text@ == moment(year, month, day, hour, minute, second).text(),
{
    let date = NaiveDate::from_ymd_opt(year, month, day).unwrap();
    let date_time = date.and_hms_opt(hour, minute, second).unwrap();
    date_time.format("%Y-%m-%d %H:%M:%S").to_string()
}

/// A moment of local wall-clock time, to the second.
#[derive(Debug, Clone, Copy, PartialEq, Eq)]
pub struct Timestamp {
    year: i32,
    month: u32,
    day: u32,
    hour: u32,
    minute: u32,
    second: u32,
}

impl View for Timestamp {
    type V = Moment;

    closed spec fn view(&self) -> Moment {
        moment(self.year, self.month, self.day, self.hour, self.minute, self.second)
    }
}

/// Whether a year has a 29 February.
fn leap_year(year: i32) -> (leap: bool)
    requires
        MIN_YEAR <= year <= MAX_YEAR,
    ensures
        leap == is_leap_year(year as int),
{
    // 262400 is a multiple of 400 that lifts every year above zero.
    let lifted: i32 = year + 262400;
    lifted % 4 == 0 && (lifted % 100 != 0 || lifted % 400 == 0)
}

/// The number of days of a month.
fn month_length(year: i32, month: u32) -> (days: u32)
    requires
        MIN_YEAR <= year <= MAX_YEAR,
        1 <= month <= 12,
    ensures
        days == days_in_month(year as int, month as int),
{
    if month == 2 {
        if leap_year(year) {
            29
        } else {
            28
        }
    } else if month == 4 || month == 6 || month == 9 || month == 11 {
        30
    } else {
        31
    }
}

impl Timestamp {
    #[verifier::type_invariant]
    spec fn is_valid(self) -> bool {
        moment(self.year, self.month, self.day, self.hour, self.minute, self.second).valid()
    }

    /// The moment with the given date and time of day, if there is one.
    pub fn new(year: i32, month: u32, day: u32, hour: u32, minute: u32, second: u32) -> (made:
        Option<Timestamp>)
        ensures
            made is Some <==> moment(year, month, day, hour, minute, second).valid(),
            made matches Some(timestamp) ==> timestamp@ == moment(
                year,
                month,
                day,
                hour,
                minute,
                second,
            ),
    {
        if year < MIN_YEAR || year > MAX_YEAR || month < 1 || month > 12 || day < 1 {
            return None;
        }
        if day > month_length(year, month) || hour > 23 || minute > 59 || second > 59 {
            return None;
        }
        Some(Timestamp { year, month, day, hour, minute, second })
    }

    /// The local wall-clock time at the moment of the call.
    pub fn now() -> (timestamp: Timestamp)
        ensures
            timestamp@.valid(),
    {
        let (year, month, day, hour, minute, second) = read_local_clock();
        Timestamp { year, month, day, hour, minute, second }
    }

    /// The year, the year before 1 being 0.
    pub fn year(&self) -> (year: i32)
        ensures
            year == self@.year,
    {
        self.year
    }

    /// The month, from 1 to 12.
    pub fn month(&self) -> (month: u32)
        ensures
            month == self@.month,
    {
        self.month
    }

    /// The day of the month, from 1.
    pub fn day(&self) -> (day: u32)
        ensures
            day == self@.day,
    {
        self.day
    }

    /// The hour, from 0 to 23.
    pub fn hour(&self) -> (hour: u32)
        ensures
            hour == self@.hour,
    {
        self.hour
    }

    /// The minute, from 0 to 59.
    pub fn minute(&self) -> (minute: u32)
        ensures
            minute == self@.minute,
    {
        self.minute
    }

    /// The second, from 0 to 59.
    pub fn second(&self) -> (second: u32)
        ensures
            second == self@.second,
    {
        self.second
    }

    /// The moment as `YYYY-MM-DD HH:MM:SS`.
    pub fn text(&self) -> (text: String)
        ensures
            self@.valid(),
            text@ == self@.text(),
    {
        proof {
            use_type_invariant(self);
        }
        format_moment(self.year, self.month, self.day, self.hour, self.minute, self.second)
    }
}

} // verus!

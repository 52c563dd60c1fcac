//! Calendar dates, weekdays and times of day, as plain values, and the
//! calls into `chrono` that read and compute them.

use vstd::prelude::*;
use vstd::string::*;
use chrono::{Datelike, Timelike};
use crate::text::digit_of;

verus! {

/// The first year of the calendar.
pub const MIN_YEAR: i32 = -262143;

/// The last year of the calendar.
pub const MAX_YEAR: i32 = 262142;

/// A day of the week.
#[derive(Clone, Copy, Debug, PartialEq, Eq, Structural)]
pub enum Weekday {
    Mon,
    Tue,
    Wed,
    Thu,
    Fri,
    Sat,
    Sun,
}

impl Weekday {
    /// The number of days from Monday to this weekday: 0 for Monday, 6 for
    /// Sunday.
    pub open spec fn index(self) -> int {
        match self {
            Weekday::Mon => 0,
            Weekday::Tue => 1,
            Weekday::Wed => 2,
            Weekday::Thu => 3,
            Weekday::Fri => 4,
            Weekday::Sat => 5,
            Weekday::Sun => 6,
        }
    }
}

/// Whether `text` spells `word`, a word in lower-case ASCII letters, with
/// each letter in either case.
pub open spec fn spells(text: Seq<char>, word: Seq<char>) -> bool {
    text.len() == word.len() && forall|i: int|
        0 <= i < text.len() ==> (#[trigger] text[i] == word[i] || text[i] as int + 32
            == word[i] as int)
}

/// The weekday that `text` names: the English name of a weekday or its
/// first three letters, in any mix of upper and lower case.
pub open spec fn weekday_named(text: Seq<char>) -> Option<Weekday> {
    if spells(text, "mon"@) || spells(text, "monday"@) {
        Some(Weekday::Mon)
    } else if spells(text, "tue"@) || spells(text, "tuesday"@) {
        Some(Weekday::Tue)
    } else if spells(text, "wed"@) || spells(text, "wednesday"@) {
        Some(Weekday::Wed)
    } else if spells(text, "thu"@) || spells(text, "thursday"@) {
        Some(Weekday::Thu)
    } else if spells(text, "fri"@) || spells(text, "friday"@) {
        Some(Weekday::Fri)
    } else if spells(text, "sat"@) || spells(text, "saturday"@) {
        Some(Weekday::Sat)
    } else if spells(text, "sun"@) || spells(text, "sunday"@) {
        Some(Weekday::Sun)
    } else {
        None
    }
}

/// Reads a weekday with `chrono`'s `FromStr` for `chrono::Weekday`.
///
/// Trusted: `chrono` accepts the three-letter abbreviation of a weekday and
/// its full English name, compares ASCII letters without regard to case,
/// and rejects every other text, also one with anything before or behind
/// the name.
#[verifier::external_body]
pub(crate) fn parse_weekday(text: &str) -> (result: Option<Weekday>)
    ensures
        result == weekday_named(text@),
{
    match text.parse::<chrono::Weekday>() {
        Ok(chrono::Weekday::Mon) => Some(Weekday::Mon),
        Ok(chrono::Weekday::Tue) => Some(Weekday::Tue),
        Ok(chrono::Weekday::Wed) => Some(Weekday::Wed),
        Ok(chrono::Weekday::Thu) => Some(Weekday::Thu),
        Ok(chrono::Weekday::Fri) => Some(Weekday::Fri),
        Ok(chrono::Weekday::Sat) => Some(Weekday::Sat),
        Ok(chrono::Weekday::Sun) => Some(Weekday::Sun),
        Err(_) => None,
    }
}

/// A time of day, to the second.
#[derive(Clone, Copy, Debug, PartialEq, Eq, Structural)]
pub struct TimeOfDay {
    pub hour: u32,
    pub minute: u32,
    pub second: u32,
}

impl TimeOfDay {
    /// Whether the fields name a time of day: an hour below 24, a minute
    /// and a second below 60.
    pub open spec fn is_valid(self) -> bool {
        self.hour < 24 && self.minute < 60 && self.second < 60
    }

    /// The time of day with the given fields, where they name one.
    pub fn new(hour: u32, minute: u32, second: u32) -> (result: Option<TimeOfDay>)
        ensures
            result == if hour < 24 && minute < 60 && second < 60 {
                Some(TimeOfDay { hour, minute, second })
            } else {
                None
            },
    {
        if hour < 24 && minute < 60 && second < 60 {
            Some(TimeOfDay { hour, minute, second })
        } else {
            None
        }
    }
}

/// The time that `chrono` reads from a text in the form hour, colon,
/// minute, and `AM` or `PM`, on the twelve-hour clock; `None` where it
/// reads none.
pub uninterp spec fn clock_reading(text: Seq<char>) -> Option<TimeOfDay>;

/// Reads a time on the twelve-hour clock with `chrono`'s
/// `NaiveTime::parse_from_str` and the format `%I:%M %p`.
///
/// Trusted: what is read depends on the text alone, and is a time of day
/// with an hour below 24 and a minute and second below 60.
#[verifier::external_body]
pub(crate) fn parse_clock(text: &str) -> (result: Option<TimeOfDay>)
    ensures
        result == clock_reading(text@),
        result matches Some(t) ==> t.is_valid(),
{
    match chrono::NaiveTime::parse_from_str(text, "%I:%M %p") {
        Ok(t) => Some(TimeOfDay { hour: t.hour(), minute: t.minute(), second: t.second() }),
        Err(_) => None,
    }
}

/// A number below 100 in two decimal digits.
pub open spec fn two_digits(n: int) -> Seq<char> {
    seq![digit_of(n / 10), digit_of(n % 10)]
}

/// The hour of the twelve-hour clock that stands for `hour`: 12 for
/// midnight and noon.
pub open spec fn hour_on_dial(hour: int) -> int {
    if hour % 12 == 0 {
        12
    } else {
        hour % 12
    }
}

/// A time of day on the twelve-hour clock: hour and minute in two digits
/// each, and `AM` before noon, `PM` from noon on.
pub open spec fn clock_text(time: TimeOfDay) -> Seq<char> {
    two_digits(hour_on_dial(time.hour as int)) + seq![':'] + two_digits(time.minute as int)
        + seq![' '] + (if time.hour >= 12 {
        seq!['P', 'M']
    } else {
        seq!['A', 'M']
    })
}

/// Writes a time on the twelve-hour clock with `chrono`'s
/// `NaiveTime::format` and the format `%I:%M %p`.
///
/// Trusted: `%I` is the hour from 01 to 12 and `%M` the minute, each
/// padded with a zero to two digits, and `%p` is `AM` or `PM`.
#[verifier::external_body]
pub(crate) fn format_clock(time: &TimeOfDay) -> (text: String)
    requires
        time.is_valid(),
    ensures
        text@ == clock_text(*time),
{
    let t = chrono::NaiveTime::from_hms_opt(time.hour, time.minute, time.second).unwrap();
    t.format("%I:%M %p").to_string()
}

/// Whether `year` is a leap year of the proleptic Gregorian calendar.
pub open spec fn is_leap_year(year: int) -> bool {
    year % 4 == 0 && (year % 100 != 0 || year % 400 == 0)
}

/// The number of days of a month; 0 where `month` is no month.
pub open spec fn days_in_month(year: int, month: int) -> int {
    if month == 2 {
        if is_leap_year(year) {
            29
        } else {
            28
        }
    } else if month == 4 || month == 6 || month == 9 || month == 11 {
        30
    } else if 1 <= month <= 12 {
        31
    } else {
        0
    }
}

/// Computes the number of days of a month.
pub fn month_length(year: i32, month: u32) -> (days: u32)
    ensures
        days == days_in_month(year as int, month as int),
{
    if month == 2 {
        if year % 4 == 0 && (year % 100 != 0 || year % 400 == 0) {
            29
        } else {
            28
        }
    } else if month == 4 || month == 6 || month == 9 || month == 11 {
        30
    } else if 1 <= month && month <= 12 {
        31
    } else {
        0
    }
}

/// A date of the proleptic Gregorian calendar.
#[derive(Clone, Copy, Debug, PartialEq, Eq, Structural)]
pub struct Date {
    pub year: i32,
    pub month: u32,
    pub day: u32,
}

impl Date {
    /// Whether the fields name a day of the calendar.
    pub open spec fn is_valid(self) -> bool {
        &&& MIN_YEAR <= self.year <= MAX_YEAR
        &&& 1 <= self.month <= 12
        &&& 1 <= self.day <= days_in_month(self.year as int, self.month as int)
    }

    /// Whether this is the last day of the calendar.
    pub open spec fn is_last(self) -> bool {
        self.year == MAX_YEAR && self.month == 12 && self.day == 31
    }

    /// Whether at least six days of the calendar follow this one, so that
    /// each day of the week occurs at or after it.
    pub open spec fn has_week_ahead(self) -> bool {
        self.year < MAX_YEAR || self.month < 12 || self.day <= 25
    }

    /// The day after this one.
    pub open spec fn next(self) -> Date {
        if self.day < days_in_month(self.year as int, self.month as int) {
            Date { year: self.year, month: self.month, day: (self.day + 1) as u32 }
        } else if self.month < 12 {
            Date { year: self.year, month: (self.month + 1) as u32, day: 1 }
        } else {
            Date { year: (self.year + 1) as i32, month: 1, day: 1 }
        }
    }

    /// The day that lies `n` days after this one.
    pub open spec fn days_later(self, n: int) -> Date
        decreases n,
    {
        if n <= 0 {
            self
        } else {
            self.days_later(n - 1).next()
        }
    }

    /// The date with the given fields, where they name a day of the
    /// calendar.
    pub fn new(year: i32, month: u32, day: u32) -> (result: Option<Date>)
        ensures
            result == if (Date { year, month, day }).is_valid() {
                Some(Date { year, month, day })
            } else {
                None
            },
    {
        if MIN_YEAR <= year && year <= MAX_YEAR && 1 <= month && month <= 12 && 1 <= day && day
            <= month_length(year, month) {
            Some(Date { year, month, day })
        } else {
            None
        }
    }

    /// Whether the date is a day of the calendar that at least six days
    /// follow.
    pub fn can_resolve(&self) -> (ok: bool)
        ensures
            ok == (self.is_valid() && self.has_week_ahead()),
    {
        Date::new(self.year, self.month, self.day).is_some() && (self.year < MAX_YEAR
            || self.month < 12 || self.day <= 25)
    }
}

/// The number of days of the calendar from its year 1 up to, and without,
/// the year `year`; negative for a year before 1.
pub open spec fn days_before_year(year: int) -> int {
    let y = year - 1;
    365 * y + y / 4 - y / 100 + y / 400
}

/// The number of days of `year` before its month `month`.
pub open spec fn days_before_month(year: int, month: int) -> int {
    let leap: int = if is_leap_year(year) && month > 2 {
        1
    } else {
        0
    };
    leap + if month <= 1 {
        0int
    } else if month == 2 {
        31
    } else if month == 3 {
        59
    } else if month == 4 {
        90
    } else if month == 5 {
        120
    } else if month == 6 {
        151
    } else if month == 7 {
        181
    } else if month == 8 {
        212
    } else if month == 9 {
        243
    } else if month == 10 {
        273
    } else if month == 11 {
        304
    } else {
        334
    }
}

/// The number of a day in the count of days that gives 1 to the first of
/// January of the year 1.
#[verifier::opaque]
pub open spec fn day_number(date: Date) -> int {
    days_before_year(date.year as int) + days_before_month(date.year as int, date.month as int)
        + date.day
}

/// The day of the week of a date of the proleptic Gregorian calendar, as
/// the number of days from Monday: 0 for a Monday, 6 for a Sunday.  The
/// first of January of the year 1 is a Monday.
pub open spec fn day_of_week(date: Date) -> int {
    (day_number(date) - 1) % 7
}

/// The day after a day has the next number.
pub proof fn lemma_next_day_number(date: Date)
    requires
        date.is_valid(),
        !date.is_last(),
    ensures
        day_number(date.next()) == day_number(date) + 1,
{
    reveal(day_number);
}

/// The days of a year, counted from the first of January of the year 1,
/// lie before those of every later year.
pub proof fn lemma_years_in_order(date: Date, later: Date)
    requires
        date.is_valid(),
        later.is_valid(),
        date.year < later.year,
    ensures
        day_number(date) < day_number(later),
{
    reveal(day_number);
    let y = date.year as int;
    let z = later.year as int;
    assert(days_before_year(y + 1) <= days_before_year(z));
    assert(days_before_month(y, date.month as int) + date.day <= days_before_year(y + 1)
        - days_before_year(y));
}

/// No two days of the calendar have the same number.
pub proof fn lemma_day_number_tells_days_apart(a: Date, b: Date)
    requires
        a.is_valid(),
        b.is_valid(),
        day_number(a) == day_number(b),
    ensures
        a == b,
{
    if a.year < b.year {
        lemma_years_in_order(a, b);
    } else if b.year < a.year {
        lemma_years_in_order(b, a);
    } else {
        reveal(day_number);
    }
}

/// The day after a day falls on the next day of the week.
pub proof fn lemma_next_day_of_week(date: Date)
    requires
        date.is_valid(),
        !date.is_last(),
    ensures
        day_of_week(date.next()) == (day_of_week(date) + 1) % 7,
{
    lemma_next_day_number(date);
}

/// The day after a day of the calendar is a day of the calendar, unless
/// there is none.
pub proof fn lemma_next_is_valid(date: Date)
    requires
        date.is_valid(),
        !date.is_last(),
    ensures
        date.next().is_valid(),
{
}

/// Finds the day of the week of a date with `chrono`'s
/// `Datelike::weekday` on a `NaiveDate`.
///
/// Trusted: `chrono` gives the day of the week of the date in the
/// proleptic Gregorian calendar, in which the first of January of the year
/// 1 is a Monday.
#[verifier::external_body]
pub(crate) fn weekday_of(date: &Date) -> (day: Weekday)
    requires
        date.is_valid(),
    ensures
        day.index() == day_of_week(*date),
{
    match chrono::NaiveDate::from_ymd_opt(date.year, date.month, date.day).unwrap().weekday() {
        chrono::Weekday::Mon => Weekday::Mon,
        chrono::Weekday::Tue => Weekday::Tue,
        chrono::Weekday::Wed => Weekday::Wed,
        chrono::Weekday::Thu => Weekday::Thu,
        chrono::Weekday::Fri => Weekday::Fri,
        chrono::Weekday::Sat => Weekday::Sat,
        chrono::Weekday::Sun => Weekday::Sun,
    }
}

/// Steps to the next day with `chrono`'s `NaiveDate::succ_opt`.
///
/// Trusted: `chrono` returns the next day of the calendar: the next day
/// of the month, or the first day of the next month, or of the next year.
#[verifier::external_body]
pub(crate) fn day_after(date: &Date) -> (next: Date)
    requires
        date.is_valid(),
        !date.is_last(),
    ensures
        next == date.next(),
{
    let day = chrono::NaiveDate::from_ymd_opt(date.year, date.month, date.day).unwrap();
    let next = day.succ_opt().unwrap();
    Date { year: next.year(), month: next.month(), day: next.day() }
}

/// A date and a time of day.
#[derive(Clone, Copy, Debug, PartialEq, Eq, Structural)]
pub struct DateTime {
    pub date: Date,
    pub time: TimeOfDay,
}

} // verus!

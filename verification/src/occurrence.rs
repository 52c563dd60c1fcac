//! The next occurrence of a weekday and time, counted from a given day.

use vstd::prelude::*;
use vstd::string::*;
use crate::calendar::{
    clock_reading, day_after, day_number, day_of_week, lemma_day_number_tells_days_apart,
    lemma_next_day_number, lemma_next_is_valid, parse_clock, parse_weekday, weekday_named,
    weekday_of, Date, DateTime, TimeOfDay, Weekday, MAX_YEAR,
};
use crate::error::{Rejection, ReservationError};

verus! {

/// The number of days from a day of the week to the next day of the week
/// with the index `to`: 0 where the two are the same, at most 6.
pub open spec fn days_until(from: int, to: int) -> int {
    (to - from) % 7
}

/// The first day at or after `today` that falls on `day`.
pub open spec fn first_on_or_after(today: Date, day: Weekday) -> Date {
    today.days_later(days_until(day_of_week(today), day.index()))
}

/// Up to six days after a day that has a week ahead are days of the
/// calendar, and each has the number of the day before it and one more.
pub proof fn lemma_days_later(today: Date, n: int)
    requires
        today.is_valid(),
        today.has_week_ahead(),
        0 <= n <= 6,
    ensures
        today.days_later(n).is_valid(),
        day_number(today.days_later(n)) == day_number(today) + n,
        day_of_week(today.days_later(n)) == (day_of_week(today) + n) % 7,
        today.days_later(n).year == MAX_YEAR && today.days_later(n).month == 12
            ==> today.days_later(n).day <= 25 + n,
    decreases n,
{
    if n > 0 {
        lemma_days_later(today, n - 1);
        let before = today.days_later(n - 1);
        lemma_next_is_valid(before);
        lemma_next_day_number(before);
    }
}

/// The first day at or after `today` that falls on `day` is a day of the
/// calendar at most six days after `today`; it falls on `day`, and no day
/// from `today` up to it does.
pub proof fn lemma_first_on_or_after_is_earliest(today: Date, day: Weekday)
    requires
        today.is_valid(),
        today.has_week_ahead(),
    ensures
        first_on_or_after(today, day).is_valid(),
        day_of_week(first_on_or_after(today, day)) == day.index(),
        0 <= days_until(day_of_week(today), day.index()) <= 6,
        day_number(first_on_or_after(today, day)) == day_number(today) + days_until(
            day_of_week(today),
            day.index(),
        ),
        forall|k: int|
            0 <= k < days_until(day_of_week(today), day.index()) ==> day_of_week(
                #[trigger] today.days_later(k),
            ) != day.index(),
{
    let gap = days_until(day_of_week(today), day.index());
    lemma_days_later(today, gap);
    assert forall|k: int| 0 <= k < gap implies day_of_week(#[trigger] today.days_later(k))
        != day.index() by {
        lemma_days_later(today, k);
    }
}

/// Where `today` falls on the day of the week that is asked for, the first
/// day at or after `today` that falls on it is `today`, not the day a week
/// later.
pub proof fn lemma_same_weekday_is_today(today: Date, day: Weekday)
    requires
        day_of_week(today) == day.index(),
    ensures
        first_on_or_after(today, day) == today,
{
}

/// The first day at or after `today` that falls on `day` is the day after
/// `today` exactly where `day` is the day of the week after that of
/// `today`.
pub proof fn lemma_next_day_is_next_weekday(today: Date, day: Weekday)
    requires
        today.is_valid(),
        today.has_week_ahead(),
    ensures
        first_on_or_after(today, day) == today.next() <==> day.index() == (day_of_week(today)
            + 1) % 7,
{
    let gap = days_until(day_of_week(today), day.index());
    lemma_days_later(today, gap);
    lemma_days_later(today, 1);
    reveal_with_fuel(Date::days_later, 2);
    assert(today.days_later(1) == today.next());
}

/// Finds the first day at or after `today` that falls on `day`, and joins
/// it with `time`.  Where `today` falls on `day` the result is `today`.
pub fn resolve(today: &Date, day: Weekday, time: TimeOfDay) -> (found: DateTime)
    requires
        today.is_valid(),
        today.has_week_ahead(),
    ensures
        found.time == time,
        found.date == first_on_or_after(*today, day),
        found.date.is_valid(),
        day_of_week(found.date) == day.index(),
        day_of_week(*today) == day.index() ==> found.date == *today,
        forall|k: int|
            0 <= k < days_until(day_of_week(*today), day.index()) ==> day_of_week(
                #[trigger] today.days_later(k),
            ) != day.index(),
{
    let mut date = *today;
    let mut on = weekday_of(&date);
    let ghost gap = days_until(day_of_week(*today), day.index());
    let ghost mut n: int = 0;
    while on != day
        invariant
            today.is_valid(),
            today.has_week_ahead(),
            gap == days_until(day_of_week(*today), day.index()),
            0 <= n <= gap <= 6,
            date == today.days_later(n),
            on.index() == day_of_week(date),
        decreases gap - n,
    {
        proof {
            lemma_days_later(*today, n);
            lemma_days_later(*today, n + 1);
        }
        date = day_after(&date);
        on = weekday_of(&date);
        proof {
            n = n + 1;
        }
    }
    proof {
        lemma_days_later(*today, n);
        lemma_first_on_or_after_is_earliest(*today, day);
    }
    DateTime { date, time }
}

/// Finds the next occurrence of a weekday and a time on the twelve-hour
/// clock, counted from `today` and including it.
///
/// `day` is the English name of a weekday or its first three letters, in
/// any mix of cases.  `time` is read as hour, colon, minute and `AM` or
/// `PM`.  The weekday is read first.
pub fn get_next_occurrence(today: &Date, day: &str, time: &str) -> (result: Result<
    DateTime,
    ReservationError,
>)
    requires
        today.is_valid(),
        today.has_week_ahead(),
    ensures
        match result {
            Ok(found) => {
                &&& weekday_named(day@) matches Some(weekday)
                &&& clock_reading(time@) == Some(found.time)
                &&& found.date == first_on_or_after(*today, weekday)
                &&& found.date.is_valid()
                &&& found.time.is_valid()
                &&& day_of_week(found.date) == weekday.index()
                &&& day_of_week(*today) == weekday.index() ==> found.date == *today
                &&& forall|k: int|
                    0 <= k < days_until(day_of_week(*today), weekday.index()) ==> day_of_week(
                        #[trigger] today.days_later(k),
                    ) != weekday.index()
            },
            Err(e) => if weekday_named(day@).is_none() {
                e@ == Rejection::InvalidDay(day@)
            } else {
                clock_reading(time@).is_none() && e@ == Rejection::InvalidTime(time@)
            },
        },
{
    let weekday = match parse_weekday(day) {
        Some(weekday) => weekday,
        None => {
            return Err(ReservationError::InvalidDay(day.to_owned()));
        },
    };
    let clock = match parse_clock(time) {
        Some(clock) => clock,
        None => {
            return Err(ReservationError::InvalidTime(time.to_owned()));
        },
    };
    Ok(resolve(today, weekday, clock))
}

/// Whether `moment` falls on the day after `today`.
pub fn is_tomorrow(today: &Date, moment: &DateTime) -> (result: bool)
    requires
        today.is_valid(),
        !today.is_last(),
    ensures
        result == (moment.date == today.next()),
{
    let tomorrow = day_after(today);
    moment.date == tomorrow
}

/// A day is the day after `today` exactly where its number in the count of
/// days is that of `today` and one more: a day that lies any other number
/// of days from `today`, `today` itself too, is not.
pub proof fn lemma_tomorrow_is_one_day_later(today: Date, date: Date)
    requires
        today.is_valid(),
        !today.is_last(),
        date.is_valid(),
    ensures
        date == today.next() <==> day_number(date) == day_number(today) + 1,
{
    lemma_next_is_valid(today);
    lemma_next_day_number(today);
    if day_number(date) == day_number(today) + 1 {
        lemma_day_number_tells_days_apart(date, today.next());
    }
}

/// A day is never the day after itself, so the day of a request is never
/// its own tomorrow.
pub proof fn lemma_today_is_not_tomorrow(today: Date)
    requires
        today.is_valid(),
    ensures
        today.next() != today,
        today.days_later(0) == today,
        today.days_later(1) == today.next(),
{
    reveal_with_fuel(Date::days_later, 2);
}

} // verus!

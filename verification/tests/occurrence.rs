use reservation::calendar::{month_length, Date, DateTime, TimeOfDay, Weekday};
use reservation::error::ReservationError;
use reservation::occurrence::{get_next_occurrence, is_tomorrow, resolve};

fn date(year: i32, month: u32, day: u32) -> Date {
    Date::new(year, month, day).unwrap()
}

fn time(hour: u32, minute: u32, second: u32) -> TimeOfDay {
    TimeOfDay::new(hour, minute, second).unwrap()
}

#[test]
fn test_get_next_occurrence() {
    let today = date(2021, 10, 12);
    let next_occurrence = get_next_occurrence(&today, "wednesday", "7:30pm").unwrap();
    assert_eq!(next_occurrence.date, date(2021, 10, 13));
    assert_eq!(next_occurrence.time, time(19, 30, 0));

    let next_occurrence = get_next_occurrence(&today, "saturday", "4:20 AM").unwrap();
    assert_eq!(next_occurrence.date, date(2021, 10, 16));
    assert_eq!(next_occurrence.time, time(4, 20, 0));

    let next_occurrence = get_next_occurrence(&today, "sunday", "12:00am").unwrap();
    assert_eq!(next_occurrence.date, date(2021, 10, 17));
    assert_eq!(next_occurrence.time, time(0, 0, 0));
}

#[test]
fn test_is_tomorrow() {
    let today = date(2021, 10, 12);
    let tomorrow = DateTime { date: date(2021, 10, 13), time: time(0, 0, 0) };
    let next_week = DateTime { date: date(2021, 10, 19), time: time(0, 0, 0) };
    assert_eq!(is_tomorrow(&today, &tomorrow), true);
    assert_eq!(is_tomorrow(&today, &next_week), false);
}

#[test]
fn today_is_not_tomorrow() {
    let today = date(2021, 10, 12);
    assert!(!is_tomorrow(&today, &DateTime { date: today, time: time(23, 59, 59) }));
    assert!(!is_tomorrow(&today, &DateTime { date: date(2021, 10, 11), time: time(0, 0, 0) }));
    assert!(!is_tomorrow(&today, &DateTime { date: date(2021, 10, 14), time: time(0, 0, 0) }));
}

#[test]
fn tomorrow_crosses_months_and_years() {
    let noon = time(12, 0, 0);
    assert!(is_tomorrow(&date(2021, 12, 31), &DateTime { date: date(2022, 1, 1), time: noon }));
    assert!(is_tomorrow(&date(2024, 2, 28), &DateTime { date: date(2024, 2, 29), time: noon }));
    assert!(is_tomorrow(&date(2023, 2, 28), &DateTime { date: date(2023, 3, 1), time: noon }));
    assert!(is_tomorrow(&date(2021, 4, 30), &DateTime { date: date(2021, 5, 1), time: noon }));
    assert!(!is_tomorrow(&date(2024, 2, 28), &DateTime { date: date(2024, 3, 1), time: noon }));
}

#[test]
fn same_weekday_resolves_to_today() {
    let today = date(2021, 10, 12);
    let found = get_next_occurrence(&today, "tuesday", "7:00 PM").unwrap();
    assert_eq!(found.date, today);
    assert_eq!(found.time, time(19, 0, 0));
    let found = resolve(&today, Weekday::Tue, time(8, 15, 0));
    assert_eq!(found, DateTime { date: today, time: time(8, 15, 0) });
}

#[test]
fn resolve_finds_each_weekday_within_the_week() {
    let today = date(2021, 10, 12);
    let at = time(18, 0, 0);
    assert_eq!(resolve(&today, Weekday::Tue, at).date, date(2021, 10, 12));
    assert_eq!(resolve(&today, Weekday::Wed, at).date, date(2021, 10, 13));
    assert_eq!(resolve(&today, Weekday::Thu, at).date, date(2021, 10, 14));
    assert_eq!(resolve(&today, Weekday::Fri, at).date, date(2021, 10, 15));
    assert_eq!(resolve(&today, Weekday::Sat, at).date, date(2021, 10, 16));
    assert_eq!(resolve(&today, Weekday::Sun, at).date, date(2021, 10, 17));
    assert_eq!(resolve(&today, Weekday::Mon, at).date, date(2021, 10, 18));
}

#[test]
fn resolve_crosses_months_and_years() {
    let at = time(9, 0, 0);
    assert_eq!(resolve(&date(2021, 12, 31), Weekday::Sat, at).date, date(2022, 1, 1));
    assert_eq!(resolve(&date(2021, 12, 31), Weekday::Thu, at).date, date(2022, 1, 6));
    assert_eq!(resolve(&date(2024, 2, 28), Weekday::Fri, at).date, date(2024, 3, 1));
    assert_eq!(resolve(&date(2024, 2, 28), Weekday::Thu, at).date, date(2024, 2, 29));
    assert_eq!(resolve(&date(2023, 2, 28), Weekday::Wed, at).date, date(2023, 3, 1));
}

#[test]
fn resolve_works_near_the_end_of_the_calendar() {
    let today = date(262142, 12, 25);
    assert!(today.can_resolve());
    let days = [
        Weekday::Mon,
        Weekday::Tue,
        Weekday::Wed,
        Weekday::Thu,
        Weekday::Fri,
        Weekday::Sat,
        Weekday::Sun,
    ];
    let mut seen = Vec::new();
    for day in days {
        let found = resolve(&today, day, time(0, 0, 0)).date;
        assert_eq!(found.year, 262142);
        assert_eq!(found.month, 12);
        assert!(25 <= found.day && found.day <= 31);
        assert!(!seen.contains(&found.day));
        seen.push(found.day);
    }
    assert!(!date(262142, 12, 26).can_resolve());
}

#[test]
fn weekday_names_in_any_case() {
    let today = date(2021, 10, 12);
    for name in ["wed", "WED", "Wed", "wednesday", "Wednesday", "WEDNESDAY", "wEdNeSdAy"] {
        assert_eq!(get_next_occurrence(&today, name, "1:00 PM").unwrap().date, date(2021, 10, 13));
    }
    assert_eq!(get_next_occurrence(&today, "Mon", "1:00 PM").unwrap().date, date(2021, 10, 18));
    assert_eq!(get_next_occurrence(&today, "thu", "1:00 PM").unwrap().date, date(2021, 10, 14));
    assert_eq!(get_next_occurrence(&today, "FRIDAY", "1:00 PM").unwrap().date, date(2021, 10, 15));
}

#[test]
fn unknown_weekday_is_rejected() {
    let today = date(2021, 10, 12);
    for name in ["", "we", "wednes", "thurs", "tues", "wednesdays", " wed", "wed ", "someday"] {
        assert_eq!(
            get_next_occurrence(&today, name, "7:30pm"),
            Err(ReservationError::InvalidDay(name.to_string()))
        );
    }
}

#[test]
fn unreadable_time_is_rejected() {
    let today = date(2021, 10, 12);
    for text in ["", "19:30", "7:30", "13:00 PM", "7:60 PM", "noon", "7pm"] {
        assert_eq!(
            get_next_occurrence(&today, "wed", text),
            Err(ReservationError::InvalidTime(text.to_string()))
        );
    }
}

#[test]
fn weekday_is_read_before_the_time() {
    let today = date(2021, 10, 12);
    assert_eq!(
        get_next_occurrence(&today, "noday", "notime"),
        Err(ReservationError::InvalidDay("noday".to_string()))
    );
}

#[test]
fn clock_is_read_on_twelve_hours() {
    let today = date(2021, 10, 12);
    assert_eq!(get_next_occurrence(&today, "tue", "12:00 PM").unwrap().time, time(12, 0, 0));
    assert_eq!(get_next_occurrence(&today, "tue", "12:59 am").unwrap().time, time(0, 59, 0));
    assert_eq!(get_next_occurrence(&today, "tue", "11:59 PM").unwrap().time, time(23, 59, 0));
    assert_eq!(get_next_occurrence(&today, "tue", "01:05 Am").unwrap().time, time(1, 5, 0));
}

#[test]
fn dates_of_the_calendar() {
    assert!(Date::new(2024, 2, 29).is_some());
    assert!(Date::new(2000, 2, 29).is_some());
    assert!(Date::new(2021, 2, 29).is_none());
    assert!(Date::new(1900, 2, 29).is_none());
    assert!(Date::new(2021, 4, 31).is_none());
    assert!(Date::new(2021, 0, 1).is_none());
    assert!(Date::new(2021, 13, 1).is_none());
    assert!(Date::new(2021, 1, 0).is_none());
    assert!(Date::new(262143, 1, 1).is_none());
    assert!(Date::new(-262144, 1, 1).is_none());
    assert!(Date::new(-262143, 1, 1).is_some());
    assert!(Date::new(-4, 2, 29).is_some());
    assert_eq!(Date::new(2021, 10, 12), Some(Date { year: 2021, month: 10, day: 12 }));
    assert_eq!(month_length(2021, 2), 28);
    assert_eq!(month_length(2024, 2), 29);
    assert_eq!(month_length(2021, 9), 30);
    assert_eq!(month_length(2021, 12), 31);
    assert_eq!(month_length(2021, 13), 0);
}

#[test]
fn times_of_day() {
    assert_eq!(TimeOfDay::new(23, 59, 59), Some(TimeOfDay { hour: 23, minute: 59, second: 59 }));
    assert_eq!(TimeOfDay::new(24, 0, 0), None);
    assert_eq!(TimeOfDay::new(0, 60, 0), None);
    assert_eq!(TimeOfDay::new(0, 0, 60), None);
}

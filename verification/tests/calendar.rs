use chrono::{Datelike, NaiveDate};
use fitness_tracker::calendar::{week_of, week_start, weekday_iso, Date, TimeOfDay, Weekday};

fn day(year: i32, month: u32, day: u32) -> Date {
    Date::from_ymd(year, month, day).unwrap()
}

#[test]
fn from_ymd_gives_the_day_number_of_known_dates() {
    assert_eq!(Date::from_ymd(1, 1, 1), Some(Date { days: 1 }));
    assert_eq!(Date::from_ymd(2, 1, 1), Some(Date { days: 366 }));
    assert_eq!(Date::from_ymd(0, 1, 1), Some(Date { days: -365 }));
    assert_eq!(Date::from_ymd(1970, 1, 1), Some(Date { days: 719_163 }));
    assert_eq!(Date::from_ymd(2025, 10, 29), Some(Date { days: 739_553 }));
}

#[test]
fn from_ymd_agrees_with_chrono_on_a_run_of_days() {
    let mut date = NaiveDate::from_ymd_opt(2023, 12, 25).unwrap();
    for _ in 0..800 {
        let ours = Date::from_ymd(date.year(), date.month(), date.day()).unwrap();
        assert_eq!(ours.days, date.num_days_from_ce());
        date = date.succ_opt().unwrap();
    }
}

#[test]
fn from_ymd_refuses_days_that_do_not_exist() {
    assert_eq!(Date::from_ymd(2015, 2, 29), None);
    assert_eq!(Date::from_ymd(2015, 0, 14), None);
    assert_eq!(Date::from_ymd(2023, 4, 31), None);
    assert_eq!(Date::from_ymd(2015, 13, 1), None);
    assert_eq!(Date::from_ymd(400_000, 1, 1), None);
    assert_eq!(Date::from_ymd(-400_000, 1, 1), None);
    assert!(Date::from_ymd(-4, 2, 29).is_some());
}

#[test]
fn from_days_and_from_day_number_keep_the_number() {
    assert_eq!(Date::from_days(739_553).days, 739_553);
    assert_eq!(Date::from_days(-7).days, -7);
    assert_eq!(Date::from_day_number(Some(12)), Some(Date { days: 12 }));
    assert_eq!(Date::from_day_number(None), None);
}

#[test]
fn weekday_of_known_dates() {
    assert_eq!(day(1, 1, 1).weekday(), Some(Weekday::Monday));
    assert_eq!(day(1970, 1, 1).weekday(), Some(Weekday::Thursday));
    assert_eq!(day(2025, 10, 27).weekday(), Some(Weekday::Monday));
    assert_eq!(day(2025, 10, 28).weekday(), Some(Weekday::Tuesday));
    assert_eq!(day(2025, 10, 29).weekday(), Some(Weekday::Wednesday));
    assert_eq!(day(2025, 10, 30).weekday(), Some(Weekday::Thursday));
    assert_eq!(day(2025, 10, 31).weekday(), Some(Weekday::Friday));
    assert_eq!(day(2025, 11, 1).weekday(), Some(Weekday::Saturday));
    assert_eq!(day(2025, 11, 2).weekday(), Some(Weekday::Sunday));
}

#[test]
fn weekday_is_missing_outside_the_years_chrono_covers() {
    assert_eq!(Date::from_days(i32::MAX).weekday(), None);
    assert_eq!(Date::from_days(i32::MIN).weekday(), None);
    assert_eq!(Date::from_days(100_000_000).weekday(), None);
}

#[test]
fn weekday_index_runs_from_monday() {
    let all = [
        Weekday::Monday,
        Weekday::Tuesday,
        Weekday::Wednesday,
        Weekday::Thursday,
        Weekday::Friday,
        Weekday::Saturday,
        Weekday::Sunday,
    ];
    for (i, weekday) in all.iter().enumerate() {
        assert_eq!(weekday.days_from_monday() as usize, i);
        assert_eq!(Weekday::from_monday(i as u8), *weekday);
    }
    assert_eq!(Weekday::from_monday(7), Weekday::Sunday);
    assert_eq!(Weekday::from_monday(255), Weekday::Sunday);
}

#[test]
fn weekday_iso_counts_from_one_on_monday() {
    assert_eq!(weekday_iso(Weekday::Monday), 1);
    assert_eq!(weekday_iso(Weekday::Tuesday), 2);
    assert_eq!(weekday_iso(Weekday::Wednesday), 3);
    assert_eq!(weekday_iso(Weekday::Thursday), 4);
    assert_eq!(weekday_iso(Weekday::Friday), 5);
    assert_eq!(weekday_iso(Weekday::Saturday), 6);
    assert_eq!(weekday_iso(Weekday::Sunday), 7);
}

#[test]
fn week_of_a_wednesday_runs_from_its_monday_to_its_sunday() {
    let week = week_of(day(2025, 10, 29), Weekday::Wednesday, 0).unwrap();
    let october = (27..=31).map(|d| day(2025, 10, d));
    let november = (1..=2).map(|d| day(2025, 11, d));
    let expected: Vec<Date> = october.chain(november).collect();
    assert_eq!(week, expected);
}

#[test]
fn week_of_moves_by_the_days_skipped() {
    let today = day(2025, 10, 29);
    let next = week_of(today, Weekday::Wednesday, 7).unwrap();
    assert_eq!(next[0], day(2025, 11, 3));
    assert_eq!(next[6], day(2025, 11, 9));
    let previous = week_of(today, Weekday::Wednesday, -7).unwrap();
    assert_eq!(previous[0], day(2025, 10, 20));
    assert_eq!(previous[6], day(2025, 10, 26));
    let odd = week_of(today, Weekday::Wednesday, 3).unwrap();
    assert_eq!(odd[0], day(2025, 10, 30));
    assert_eq!(odd.len(), 7);
}

#[test]
fn week_of_a_monday_and_of_a_sunday() {
    let monday = week_of(Date { days: 100 }, Weekday::Monday, 0).unwrap();
    assert_eq!(monday[0].days, 100);
    assert_eq!(monday[6].days, 106);
    let sunday = week_of(Date { days: 100 }, Weekday::Sunday, 0).unwrap();
    assert_eq!(sunday[0].days, 94);
    assert_eq!(sunday[6].days, 100);
}

#[test]
fn week_of_is_missing_where_a_day_does_not_fit() {
    assert_eq!(week_of(Date { days: i32::MAX }, Weekday::Monday, 0), None);
    assert_eq!(week_of(Date { days: i32::MAX - 5 }, Weekday::Monday, 0), None);
    assert!(week_of(Date { days: i32::MAX - 6 }, Weekday::Monday, 0).is_some());
    assert!(week_of(Date { days: i32::MAX }, Weekday::Sunday, 0).is_some());
    assert_eq!(week_of(Date { days: i32::MAX }, Weekday::Sunday, 1), None);
    assert_eq!(week_of(Date { days: i32::MIN }, Weekday::Tuesday, 0), None);
    assert!(week_of(Date { days: i32::MIN }, Weekday::Monday, 0).is_some());
    assert_eq!(week_of(Date { days: i32::MIN }, Weekday::Monday, -1), None);
}

#[test]
fn week_of_a_date_uses_its_own_weekday() {
    let week = day(2025, 10, 31).week(0).unwrap();
    assert_eq!(week[0], day(2025, 10, 27));
    assert_eq!(week[4], day(2025, 10, 31));
    assert_eq!(week[6], day(2025, 11, 2));
    let back = day(2025, 10, 31).week(-7).unwrap();
    assert_eq!(back[0], day(2025, 10, 20));
    assert_eq!(Date::from_days(i32::MAX).week(0), None);
}

#[test]
fn week_of_a_date_agrees_with_chrono() {
    let mut date = NaiveDate::from_ymd_opt(2024, 2, 20).unwrap();
    for _ in 0..30 {
        let ours = Date::from_days(date.num_days_from_ce()).week(0).unwrap();
        let monday = date.week(chrono::Weekday::Mon).first_day();
        assert_eq!(ours[0].days, monday.num_days_from_ce());
        assert_eq!(ours[6].days, monday.num_days_from_ce() + 6);
        date = date.succ_opt().unwrap();
    }
}

#[test]
fn plus_days_adds_and_refuses_what_does_not_fit() {
    assert_eq!(Date { days: 10 }.plus_days(5), Some(Date { days: 15 }));
    assert_eq!(Date { days: 10 }.plus_days(-15), Some(Date { days: -5 }));
    assert_eq!(Date { days: 10 }.plus_days(0), Some(Date { days: 10 }));
    assert_eq!(Date { days: i32::MAX }.plus_days(1), None);
    assert_eq!(Date { days: i32::MIN }.plus_days(-1), None);
    assert_eq!(Date { days: i32::MAX - 1 }.plus_days(1), Some(Date { days: i32::MAX }));
}

#[test]
fn in_week_holds_for_seven_days_from_monday() {
    let monday = Date { days: 739_551 };
    assert!(!Date { days: 739_550 }.is_in_week_of(monday));
    assert!(Date { days: 739_551 }.is_in_week_of(monday));
    assert!(Date { days: 739_554 }.is_in_week_of(monday));
    assert!(Date { days: 739_557 }.is_in_week_of(monday));
    assert!(!Date { days: 739_558 }.is_in_week_of(monday));
    let last = Date { days: i32::MAX - 2 };
    assert!(Date { days: i32::MAX }.is_in_week_of(last));
    assert!(!Date { days: i32::MAX - 3 }.is_in_week_of(last));
}

#[test]
fn midnight_is_the_start_of_the_day() {
    assert_eq!(TimeOfDay::midnight(), TimeOfDay { seconds: 0, nanos: 0 });
}

#[test]
fn week_start_is_the_monday_on_or_before_the_day() {
    let wednesday = day(2025, 10, 29);
    assert_eq!(week_start(wednesday, Weekday::Wednesday), Some(day(2025, 10, 27)));
    assert_eq!(week_start(day(2025, 10, 27), Weekday::Monday), Some(day(2025, 10, 27)));
    assert_eq!(week_start(day(2025, 11, 2), Weekday::Sunday), Some(day(2025, 10, 27)));
    assert_eq!(week_start(Date { days: i32::MIN }, Weekday::Monday), Some(Date { days: i32::MIN }));
    assert_eq!(week_start(Date { days: i32::MIN }, Weekday::Tuesday), None);
    assert_eq!(week_start(Date { days: i32::MIN + 5 }, Weekday::Sunday), None);
    assert_eq!(
        week_start(Date { days: i32::MIN + 6 }, Weekday::Sunday),
        Some(Date { days: i32::MIN })
    );
}

#[test]
fn monday_of_a_date_uses_its_own_weekday() {
    assert_eq!(day(2025, 10, 29).monday(), Some(day(2025, 10, 27)));
    assert_eq!(day(2025, 10, 27).monday(), Some(day(2025, 10, 27)));
    assert_eq!(day(2025, 11, 2).monday(), Some(day(2025, 10, 27)));
    assert_eq!(day(2025, 11, 3).monday(), Some(day(2025, 11, 3)));
    assert_eq!(Date { days: i32::MAX }.monday(), None);
    assert_eq!(Date { days: i32::MIN }.monday(), None);
}

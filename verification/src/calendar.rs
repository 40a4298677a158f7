//! Calendar days, times of day and weekdays.
//!
//! A [`Date`] is a day number in the proleptic Gregorian calendar, with
//! January 1 of year 1 as day 1. Day numbers come from chrono; the arithmetic
//! on them is done here. Nothing here reads the clock: the day and the time
//! of day of a call are handed in by the caller.

use vstd::prelude::*;

verus! {

/// A calendar day, held as its day number: January 1 of year 1 is day 1.
#[derive(Clone, Copy, Debug, PartialEq, Eq, Structural, Hash)]
pub struct Date {
    pub days: i32,
}

/// A time of day: whole seconds since midnight and the nanoseconds after them.
#[derive(Clone, Copy, Debug, PartialEq, Eq, Structural, Hash)]
pub struct TimeOfDay {
    pub seconds: u32,
    pub nanos: u32,
}

/// A day of the week.
#[derive(Clone, Copy, Debug, PartialEq, Eq, Structural, Hash)]
pub enum Weekday {
    Monday,
    Tuesday,
    Wednesday,
    Thursday,
    Friday,
    Saturday,
    Sunday,
}

/// The day number chrono gives to the calendar date `year`-`month`-`day`, or
/// `None` where chrono knows no such date.
pub uninterp spec fn ymd_day_number(year: i32, month: u32, day: u32) -> Option<i32>;

/// The weekday chrono gives to a day number, counted from Monday as 0, or
/// `None` where the day number is outside chrono's range of dates.
pub uninterp spec fn day_number_weekday(days: i32) -> Option<u8>;

/// `NaiveDate::from_ymd_opt` followed by `Datelike::num_days_from_ce`: the day
/// number of a calendar date. Trusted: the result is chrono's, under the name
/// [`ymd_day_number`].
#[verifier::external_body]
fn chrono_day_number(year: i32, month: u32, day: u32) -> (r: Option<i32>)
    ensures
        r == ymd_day_number(year, month, day),
{
    match chrono::NaiveDate::from_ymd_opt(year, month, day) {
        Some(date) => Some(chrono::Datelike::num_days_from_ce(&date)),
        None => None,
    }
}

/// `NaiveDate::from_num_days_from_ce_opt` followed by `Datelike::weekday` and
/// `Weekday::num_days_from_monday`. Trusted: the result is chrono's, under the
/// name [`day_number_weekday`], and a weekday's number is below 7.
#[verifier::external_body]
fn chrono_weekday(days: i32) -> (r: Option<u8>)
    ensures
        r == day_number_weekday(days),
        r matches Some(w) ==> w < 7,
{
    match chrono::NaiveDate::from_num_days_from_ce_opt(days) {
        Some(date) => Some(chrono::Datelike::weekday(&date).num_days_from_monday() as u8),
        None => None,
    }
}

/// Whether `number` is the day number of some `Date`.
pub open spec fn is_day_number(number: int) -> bool {
    i32::MIN <= number <= i32::MAX
}

/// The Monday of the week of `today`, where `today` falls on `weekday`;
/// `None` where that Monday lies before the first day that a `Date` can
/// hold.
pub open spec fn monday_of(today: Date, weekday: Weekday) -> Option<Date> {
    if is_day_number(today.days - weekday.index()) {
        Some(Date { days: (today.days - weekday.index()) as i32 })
    } else {
        None
    }
}

/// The Monday of the week of `today`, where `today` falls on `weekday`;
/// `None` where that Monday lies before the first day that a `Date` can
/// hold.
pub fn week_start(today: Date, weekday: Weekday) -> (r: Option<Date>)
    ensures
        r == monday_of(today, weekday),
{
    match today.days.checked_sub(weekday.days_from_monday() as i32) {
        Some(days) => Some(Date { days }),
        None => None,
    }
}

/// The day that lies `i` days after the Monday of the week of `today`, moved
/// by `skip_days`; `weekday` is the weekday of `today`.
pub open spec fn week_day_number(today: Date, weekday: Weekday, skip_days: int, i: int) -> int {
    today.days - weekday.index() + skip_days + i
}

/// The seven days, Monday first, of the week of `today` moved by `skip_days`.
pub open spec fn week_days(today: Date, weekday: Weekday, skip_days: int) -> Seq<Date> {
    Seq::new(7, |i: int| Date { days: week_day_number(today, weekday, skip_days, i) as i32 })
}

/// Whether the week of `today` moved by `skip_days` lies within the days
/// that a `Date` can hold.
pub open spec fn week_is_representable(today: Date, weekday: Weekday, skip_days: int) -> bool {
    is_day_number(week_day_number(today, weekday, skip_days, 0)) && is_day_number(
        week_day_number(today, weekday, skip_days, 6),
    )
}

/// The seven days of the week that holds `today`, Monday first, moved by
/// `skip_days` days; `weekday` is the weekday of `today`. `None` where one of
/// them lies outside the days that a `Date` can hold.
pub fn week_of(today: Date, weekday: Weekday, skip_days: i16) -> (r: Option<Vec<Date>>)
    ensures
        r is Some <==> week_is_representable(today, weekday, skip_days as int),
        r matches Some(week) ==> week@ == week_days(today, weekday, skip_days as int),
{
    let from_monday: u8 = weekday.days_from_monday();
    let first: i64 = today.days as i64 - from_monday as i64 + skip_days as i64;
    if first < i32::MIN as i64 || first + 6 > i32::MAX as i64 {
        return None;
    }
    let mut week: Vec<Date> = Vec::new();
    let mut i: i64 = 0;
    while i < 7
        invariant
            0 <= i <= 7,
            first == week_day_number(today, weekday, skip_days as int, 0),
            i32::MIN <= first,
            first + 6 <= i32::MAX,
            week@.len() == i,
            forall|j: int|
                0 <= j < i ==> (#[trigger] week@[j]).days == week_day_number(
                    today,
                    weekday,
                    skip_days as int,
                    j,
                ),
        decreases 7 - i,
    {
        week.push(Date { days: (first + i) as i32 });
        i = i + 1;
    }
    Some(week)
}

impl Date {
    /// The date with the given day number.
    pub fn from_days(days: i32) -> (r: Date)
        ensures
            r.days == days,
    {
        Date { days }
    }

    /// What [`Date::from_ymd`] returns: the date whose day number chrono gives
    /// to the calendar date.
    pub open spec fn from_ymd_spec(year: i32, month: u32, day: u32) -> Option<Date> {
        match ymd_day_number(year, month, day) {
            Some(days) => Some(Date { days }),
            None => None,
        }
    }

    /// The date of a calendar day, or `None` where the calendar has no such
    /// day or chrono cannot hold it.
    pub fn from_ymd(year: i32, month: u32, day: u32) -> (r: Option<Date>)
        ensures
            r == Date::from_ymd_spec(year, month, day),
    {
        Date::from_day_number(chrono_day_number(year, month, day))
    }

    /// The date of a day number that may be missing.
    pub fn from_day_number(number: Option<i32>) -> (r: Option<Date>)
        ensures
            r == (match number {
                Some(days) => Some(Date { days }),
                None => None::<Date>,
            }),
    {
        match number {
            Some(days) => Some(Date { days }),
            None => None,
        }
    }

    /// What [`Date::weekday`] returns.
    pub open spec fn weekday_spec(self) -> Option<Weekday> {
        match day_number_weekday(self.days) {
            Some(index) => Some(Weekday::at(index as int)),
            None => None,
        }
    }

    /// The day of the week, or `None` where the date lies outside the years
    /// that chrono covers.
    pub fn weekday(&self) -> (r: Option<Weekday>)
        ensures
            r == self.weekday_spec(),
    {
        match chrono_weekday(self.days) {
            Some(index) => Some(Weekday::from_monday(index)),
            None => None,
        }
    }

    /// What [`Date::monday`] returns.
    pub open spec fn monday_spec(self) -> Option<Date> {
        match self.weekday_spec() {
            Some(weekday) => monday_of(self, weekday),
            None => None,
        }
    }

    /// The Monday of the week that holds this date; `None` where chrono gives
    /// the date no weekday or that Monday lies before the first day that a
    /// `Date` can hold.
    pub fn monday(&self) -> (r: Option<Date>)
        ensures
            r == self.monday_spec(),
    {
        match self.weekday() {
            Some(weekday) => week_start(*self, weekday),
            None => None,
        }
    }

    /// The date `count` days later (earlier where `count` is negative), or
    /// `None` where its day number does not fit.
    pub fn plus_days(&self, count: i32) -> (r: Option<Date>)
        ensures
            r is Some <==> is_day_number(self.days + count),
            r matches Some(date) ==> date.days == self.days + count,
    {
        match self.days.checked_add(count) {
            Some(days) => Some(Date { days }),
            None => None,
        }
    }

    /// Whether this date is one of the seven days that start at `monday`.
    pub open spec fn in_week_of(self, monday: Date) -> bool {
        monday.days <= self.days <= monday.days + 6
    }

    /// Whether this date is one of the seven days that start at `monday`.
    pub fn is_in_week_of(&self, monday: Date) -> (r: bool)
        ensures
            r == self.in_week_of(monday),
    {
        monday.days <= self.days && self.days as i64 <= monday.days as i64 + 6
    }

    /// What [`Date::week`] returns as a sequence, where it returns one.
    pub open spec fn week_spec(self, skip_days: int) -> Option<Seq<Date>> {
        match self.weekday_spec() {
            Some(weekday) => if week_is_representable(self, weekday, skip_days) {
                Some(week_days(self, weekday, skip_days))
            } else {
                None
            },
            None => None,
        }
    }

    /// The seven days, Monday first, of the week that holds this date, moved
    /// by `skip_days` days. `None` where chrono gives the date no weekday or
    /// the week leaves the days that a `Date` can hold.
    pub fn week(&self, skip_days: i16) -> (r: Option<Vec<Date>>)
        ensures
            r is Some <==> self.week_spec(skip_days as int) is Some,
            r matches Some(week) ==> self.week_spec(skip_days as int) == Some(week@),
    {
        match self.weekday() {
            Some(weekday) => week_of(*self, weekday, skip_days),
            None => None,
        }
    }
}

impl TimeOfDay {
    /// Midnight.
    pub fn midnight() -> (r: TimeOfDay)
        ensures
            r == (TimeOfDay { seconds: 0, nanos: 0 }),
    {
        TimeOfDay { seconds: 0, nanos: 0 }
    }
}

impl Weekday {
    /// The weekday's place in the week, Monday being 0.
    pub open spec fn index(self) -> int {
        match self {
            Weekday::Monday => 0,
            Weekday::Tuesday => 1,
            Weekday::Wednesday => 2,
            Weekday::Thursday => 3,
            Weekday::Friday => 4,
            Weekday::Saturday => 5,
            Weekday::Sunday => 6,
        }
    }

    /// The weekday at place `index` of the week, Monday being 0; an index
    /// that is none of 0 to 5 stands for Sunday.
    pub open spec fn at(index: int) -> Weekday {
        if index == 0 {
            Weekday::Monday
        } else if index == 1 {
            Weekday::Tuesday
        } else if index == 2 {
            Weekday::Wednesday
        } else if index == 3 {
            Weekday::Thursday
        } else if index == 4 {
            Weekday::Friday
        } else if index == 5 {
            Weekday::Saturday
        } else {
            Weekday::Sunday
        }
    }

    /// The number of days from Monday to this weekday.
    pub fn days_from_monday(self) -> (r: u8)
        ensures
            r == self.index(),
            r < 7,
    {
        match self {
            Weekday::Monday => 0,
            Weekday::Tuesday => 1,
            Weekday::Wednesday => 2,
            Weekday::Thursday => 3,
            Weekday::Friday => 4,
            Weekday::Saturday => 5,
            Weekday::Sunday => 6,
        }
    }

    /// The weekday that lies `index` days after Monday; Sunday for an index
    /// past 6.
    pub fn from_monday(index: u8) -> (r: Weekday)
        ensures
            r == Weekday::at(index as int),
            index < 7 ==> r.index() == index,
    {
        match index {
            0 => Weekday::Monday,
            1 => Weekday::Tuesday,
            2 => Weekday::Wednesday,
            3 => Weekday::Thursday,
            4 => Weekday::Friday,
            5 => Weekday::Saturday,
            _ => Weekday::Sunday,
        }
    }
}

/// The ISO 8601 number of a weekday: Monday is 1 and Sunday is 7.
pub fn weekday_iso(weekday: Weekday) -> (r: u8)
    ensures
        r == weekday.index() + 1,
{
    match weekday {
        Weekday::Monday => 1,
        Weekday::Tuesday => 2,
        Weekday::Wednesday => 3,
        Weekday::Thursday => 4,
        Weekday::Friday => 5,
        Weekday::Saturday => 6,
        Weekday::Sunday => 7,
    }
}

} // verus!

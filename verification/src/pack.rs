//! Everything that is kept for one user, as one value: what is loaded at the
//! start and saved at the end.

use crate::calendar::{monday_of, week_start, Date, TimeOfDay, Weekday};
use crate::catalog::{coverage_of, coverage_percent, Exercises, Muscle};
use crate::error::TrackError;
use crate::hydration::{WaterData, WaterView};
use crate::ledger::{entries_on, removal_check, with_last, without};
use crate::nutrition::{MacroData, MacroView};
use crate::profile::{AccountData, UserInformation, UserInformationView};
use crate::template::TemplateView;
use crate::workout::{
    add_done, first_plan, week_touch, AllWorkoutData, AllWorkoutView, PlannedView,
    WorkoutPlannedData,
};
use vstd::prelude::*;

verus! {

/// The three ledgers, by what they keep.
#[derive(Clone, Copy, Debug, PartialEq, Eq, Structural, Hash)]
pub enum EntryKind {
    Meal,
    Drink,
    Workout,
}

/// All that is kept for one user.
#[derive(Clone, Debug, PartialEq, Eq)]
pub struct UserDataPack {
    pub user_information: UserInformation,
    pub account_data: AccountData,
    pub all_workout_data: AllWorkoutData,
    pub planned_workout_data: WorkoutPlannedData,
    pub macro_data: MacroData,
    pub water_data: WaterData,
}

/// What the data of one user are.
pub struct PackView {
    pub user_information: UserInformationView,
    pub account_data: AccountData,
    pub all_workout_data: AllWorkoutView,
    pub planned_workout_data: Map<Date, Seq<PlannedView>>,
    pub macro_data: MacroView,
    pub water_data: WaterView,
}

impl View for UserDataPack {
    type V = PackView;

    open spec fn view(&self) -> PackView {
        PackView {
            user_information: self.user_information@,
            account_data: self.account_data,
            all_workout_data: self.all_workout_data@,
            planned_workout_data: self.planned_workout_data@,
            macro_data: self.macro_data@,
            water_data: self.water_data@,
        }
    }
}

impl PackView {
    /// What a new user starts with, the first meals and drinks entered on
    /// `today` at `time`.
    pub open spec fn seeded(today: Date, time: TimeOfDay) -> PackView {
        PackView {
            user_information: UserInformationView::initial(),
            account_data: AccountData {
                level: 0,
                xp: 0,
                current_streak: 0,
                lifted_weight: 0,
                registrated_cals: 0,
                registrated_meals: 0,
            },
            all_workout_data: AllWorkoutView::initial(),
            planned_workout_data: first_plan(),
            macro_data: MacroView::seeded(today, time),
            water_data: WaterView::seeded(today, time),
        }
    }

    /// The templates kept, by name.
    pub open spec fn templates(self) -> Map<Seq<char>, Seq<Exercises>> {
        self.all_workout_data.workout_templates
    }

    /// The data with `templates` in place of the templates kept.
    pub open spec fn with_templates(self, templates: Map<Seq<char>, Seq<Exercises>>) -> PackView {
        PackView {
            all_workout_data: AllWorkoutView {
                workout_templates: templates,
                ..self.all_workout_data
            },
            ..self
        }
    }

    /// Whether the entry at `index` of `date` in the ledger of `kind` can be
    /// removed, and if not, why.
    pub open spec fn removal_check(self, kind: EntryKind, date: Date, index: int) -> Result<
        (),
        TrackError,
    > {
        match kind {
            EntryKind::Meal => removal_check(self.macro_data.meal_history, date, index),
            EntryKind::Drink => removal_check(self.water_data.water_history, date, index),
            EntryKind::Workout => removal_check(self.planned_workout_data, date, index),
        }
    }

    /// The data after the entry at `index` of `date` was removed from the
    /// ledger of `kind`; the data themselves where the removal is refused.
    pub open spec fn without_entry(self, kind: EntryKind, date: Date, index: int) -> PackView {
        match kind {
            EntryKind::Meal => PackView {
                macro_data: self.macro_data.without_meal(date, index),
                ..self
            },
            EntryKind::Drink => PackView {
                water_data: self.water_data.without_drink(date, index),
                ..self
            },
            EntryKind::Workout => PackView {
                planned_workout_data: without(self.planned_workout_data, date, index),
                ..self
            },
        }
    }

    /// The data after the totals of meals and of drinks were summed anew
    /// from the entries of `day`, each where its sums fit.
    pub open spec fn resummarized(self, day: Date) -> PackView {
        PackView {
            macro_data: if self.macro_data.summable(day) {
                self.macro_data.summarized(day)
            } else {
                self.macro_data
            },
            water_data: if self.water_data.summable(day) {
                self.water_data.summarized(day)
            } else {
                self.water_data
            },
            ..self
        }
    }

    /// The workouts planned onto `date`.
    pub open spec fn planned_on(self, date: Date) -> Seq<PlannedView> {
        entries_on(self.planned_workout_data, date)
    }

    /// The data after a copy of the template kept under `name` was planned
    /// behind the workouts of `date`.
    pub open spec fn with_plan(self, name: Seq<char>, date: Date) -> PackView {
        PackView {
            planned_workout_data: with_last(
                self.planned_workout_data,
                date,
                PlannedView {
                    template: TemplateView { name, exercises: self.templates()[name] },
                    date,
                },
            ),
            ..self
        }
    }

    /// The muscle groups that the workouts of the week from `monday` on
    /// work, planned ones and done ones together.
    pub open spec fn week_touch(self, monday: Date) -> Set<Muscle> {
        week_touch(self.planned_workout_data, self.all_workout_data.workouts, monday)
    }

    /// The share of the catalog's muscle groups that the week of `today`
    /// covers, where `today` falls on `weekday`; `None` where that week's
    /// Monday lies before the first day that a `Date` can hold.
    pub open spec fn coverage_in_week_of(self, today: Date, weekday: Weekday) -> Option<nat> {
        match monday_of(today, weekday) {
            Some(monday) => Some(coverage_of(self.week_touch(monday))),
            None => None,
        }
    }

    /// The share of the catalog's muscle groups that the week of `today`
    /// covers; `None` where `today` has no weekday or its week no Monday.
    pub open spec fn coverage_on(self, today: Date) -> Option<nat> {
        match today.monday_spec() {
            Some(monday) => Some(coverage_of(self.week_touch(monday))),
            None => None,
        }
    }
}

impl UserDataPack {
    /// What a new user starts with, the first meals and drinks entered on
    /// `today` at `time`.
    pub fn default(today: Date, time: TimeOfDay) -> (r: UserDataPack)
        ensures
            r@ == PackView::seeded(today, time),
    {
        UserDataPack {
            user_information: UserInformation::default(),
            account_data: AccountData::default(),
            all_workout_data: AllWorkoutData::default(),
            planned_workout_data: WorkoutPlannedData::default(),
            macro_data: MacroData::default(today, time),
            water_data: WaterData::default(today, time),
        }
    }

    /// Plans a copy of the template kept under `name` behind the workouts of
    /// `date`; `NotFound`, and nothing changed, where no template is kept
    /// under that name. The copy is the ledger's own: what is done to the
    /// template afterwards does not reach the workout planned here.
    pub fn plan_template(&mut self, name: &str, date: Date) -> (r: Result<(), TrackError>)
        ensures
            match r {
                Ok(()) => old(self)@.templates().contains_key(name@) && final(self)@ == old(
                    self,
                )@.with_plan(name@, date),
                Err(e) => e == TrackError::NotFound && !old(self)@.templates().contains_key(name@)
                    && final(self)@ == old(self)@,
            },
    {
        match self.all_workout_data.workout_templates.get(name) {
            Ok(template) => {
                self.planned_workout_data.plan(date, template);
                Ok(())
            },
            Err(e) => Err(e),
        }
    }

    /// Keeps `exercises` as a template under `workout_name`; a template that
    /// was kept under that name is replaced. Nothing that was planned changes.
    pub fn create_template(&mut self, workout_name: String, exercises: Vec<Exercises>)
        ensures
            final(self)@ == old(self)@.with_templates(
                old(self)@.templates().insert(workout_name@, exercises@),
            ),
    {
        self.all_workout_data.create_workout_template(workout_name, exercises);
    }

    /// Puts `exercise` at the end of the template kept under `name`;
    /// `NotFound`, and nothing changed, where there is none. Nothing that
    /// was planned changes.
    pub fn add_exercise_to(&mut self, name: &str, exercise: Exercises) -> (r: Result<
        (),
        TrackError,
    >)
        ensures
            match r {
                Ok(()) => old(self)@.templates().contains_key(name@) && final(self)@ == old(
                    self,
                )@.with_templates(
                    old(self)@.templates().insert(
                        name@,
                        old(self)@.templates()[name@].push(exercise),
                    ),
                ),
                Err(e) => e == TrackError::NotFound && !old(self)@.templates().contains_key(name@)
                    && final(self)@ == old(self)@,
            },
    {
        self.all_workout_data.workout_templates.add_exercise_to(name, exercise)
    }

    /// Removes the exercise at `index` from the template kept under `name`;
    /// `NotFound`, and nothing changed, where there is none. The index must be
    /// one of the template's list. Nothing that was planned changes.
    pub fn remove_exercise_at(&mut self, name: &str, index: usize) -> (r: Result<(), TrackError>)
        requires
            old(self)@.templates().contains_key(name@) ==> index < old(
                self,
            )@.templates()[name@].len(),
        ensures
            match r {
                Ok(()) => old(self)@.templates().contains_key(name@) && final(self)@ == old(
                    self,
                )@.with_templates(
                    old(self)@.templates().insert(
                        name@,
                        old(self)@.templates()[name@].remove(index as int),
                    ),
                ),
                Err(e) => e == TrackError::NotFound && !old(self)@.templates().contains_key(name@)
                    && final(self)@ == old(self)@,
            },
    {
        self.all_workout_data.workout_templates.remove_exercise_at(name, index)
    }

    /// Removes the entry at `index` of `date` from the ledger of `kind`;
    /// `NotFound` where the day has no list there, `IndexOutOfRange` where its
    /// list has no such index, and nothing changed in both cases.
    pub fn remove_entry(&mut self, kind: EntryKind, date: Date, index: usize) -> (r: Result<
        (),
        TrackError,
    >)
        ensures
            r == old(self)@.removal_check(kind, date, index as int),
            final(self)@ == old(self)@.without_entry(kind, date, index as int),
    {
        match kind {
            EntryKind::Meal => match self.macro_data.remove_meal(date, index) {
                Ok(_) => Ok(()),
                Err(e) => Err(e),
            },
            EntryKind::Drink => match self.water_data.remove_drink(date, index) {
                Ok(_) => Ok(()),
                Err(e) => Err(e),
            },
            EntryKind::Workout => self.planned_workout_data.remove_workout(date, index),
        }
    }

    /// Sums the totals of meals and of drinks anew from the entries of
    /// `day`. Totals whose sums do not fit stay as they were.
    pub fn summarize_day(&mut self, day: Date)
        ensures
            final(self)@ == old(self)@.resummarized(day),
    {
        self.macro_data.try_summarize(day);
        self.water_data.try_summarize(day);
    }

    /// The muscle groups that the workouts of the seven days from `monday` on
    /// work, planned ones and done ones together, each group once.
    pub fn muscles_touched_from(&self, monday: Date) -> (r: Vec<Muscle>)
        ensures
            r@.no_duplicates(),
            r@.to_set() == self@.week_touch(monday),
    {
        let mut touched: Vec<Muscle> = Vec::new();
        self.planned_workout_data.add_week(&mut touched, monday);
        add_done(&mut touched, &self.all_workout_data.workouts, monday);
        touched
    }

    /// The share of the catalog's muscle groups that the workouts of the
    /// seven days from `monday` on work, planned ones and done ones together,
    /// in whole percent, rounded down.
    pub fn muscle_coverage_from(&self, monday: Date) -> (r: u32)
        ensures
            r == coverage_of(self@.week_touch(monday)),
            r <= 100,
    {
        coverage_percent(&self.muscles_touched_from(monday))
    }

    /// The share of the catalog's muscle groups that the week of `today`
    /// covers, Monday to Sunday, where `today` falls on `weekday`; `None`
    /// where that week's Monday lies before the first day that a `Date` can
    /// hold.
    pub fn muscle_coverage_in_week_of(&self, today: Date, weekday: Weekday) -> (r: Option<u32>)
        ensures
            r is Some <==> self@.coverage_in_week_of(today, weekday) is Some,
            r matches Some(share) ==> self@.coverage_in_week_of(today, weekday) == Some(
                share as nat,
            ),
    {
        match week_start(today, weekday) {
            Some(monday) => Some(self.muscle_coverage_from(monday)),
            None => None,
        }
    }

    /// The muscle groups that the workouts of the week of `today` work,
    /// Monday to Sunday, planned ones and done ones together, each group
    /// once; `None` where `today` has no weekday or its week no Monday.
    pub fn muscles_touched_on(&self, today: Date) -> (r: Option<Vec<Muscle>>)
        ensures
            r is Some <==> self@.coverage_on(today) is Some,
            r matches Some(touched) ==> {
                &&& touched@.no_duplicates()
                &&& today.monday_spec() matches Some(monday)
                &&& touched@.to_set() == self@.week_touch(monday)
            },
    {
        match today.monday() {
            Some(monday) => Some(self.muscles_touched_from(monday)),
            None => None,
        }
    }

    /// The share of the catalog's muscle groups that the week of `today`
    /// covers, Monday to Sunday, in whole percent, rounded down; `None` where
    /// `today` has no weekday or its week no Monday. With the day of the call
    /// for `today` this is the coverage of the running week. It is computed
    /// anew at each call and kept nowhere.
    pub fn weekly_muscle_coverage(&self, today: Date) -> (r: Option<u32>)
        ensures
            r is Some <==> self@.coverage_on(today) is Some,
            r matches Some(share) ==> self@.coverage_on(today) == Some(share as nat),
    {
        match today.monday() {
            Some(monday) => Some(self.muscle_coverage_from(monday)),
            None => None,
        }
    }
}

/// A workout planned from a template keeps the exercises that the template
/// had when it was planned: whatever the store of templates holds
/// afterwards, under that name or another, the planned workouts of every day
/// are as they were.
pub proof fn lemma_template_copy_isolation(
    pack: PackView,
    name: Seq<char>,
    date: Date,
    later: Map<Seq<char>, Seq<Exercises>>,
)
    requires
        pack.templates().contains_key(name),
    ensures
        pack.with_plan(name, date).planned_on(date).last().template.exercises
            == pack.templates()[name],
        pack.with_plan(name, date).with_templates(later).planned_workout_data == pack.with_plan(
            name,
            date,
        ).planned_workout_data,
        pack.with_plan(name, date).with_templates(later).planned_on(date).last().template.exercises
            == pack.templates()[name],
{
}

/// Once the totals were summed anew from the entries of a day, what is
/// registered of meals and of drinks is what the ledgers hold on that day,
/// wherever the sums fit; the ledgers themselves are as they were, and
/// summing a second time changes nothing.
pub proof fn lemma_resummarized_shows(pack: PackView, day: Date)
    ensures
        pack.macro_data.summable(day) ==> pack.resummarized(day).macro_data.shows(day),
        pack.water_data.summable(day) ==> pack.resummarized(day).water_data.shows(day),
        pack.resummarized(day).macro_data.meal_history == pack.macro_data.meal_history,
        pack.resummarized(day).water_data.water_history == pack.water_data.water_history,
        pack.resummarized(day).planned_workout_data == pack.planned_workout_data,
        pack.resummarized(day).resummarized(day) == pack.resummarized(day),
{
}

} // verus!

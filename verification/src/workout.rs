//! Workouts: those planned onto days, those done, the templates they are
//! made from and the totals over all of them.

use crate::calendar::Date;
use crate::catalog::{add_touched, touched_muscles, Exercises, Muscle};
use crate::error::TrackError;
use crate::ledger::{entries_on, removal_check, views, with_last, with_only, without, Ledger};
use crate::template::{
    full_body_template, legs_template, rest_template, TemplateStore, TemplateView, WorkoutTemplate,
};
use vstd::prelude::*;
use vstd::string::StringExecFns;

verus! {

/// A workout that was done: the template as it was then, the day if it is
/// known, the volume moved, the time it took and the personal records set.
#[derive(Clone, Debug, PartialEq, Eq)]
pub struct WorkoutDone {
    pub template: WorkoutTemplate,
    pub date: Option<Date>,
    pub volume: u32,
    pub length: u32,
    pub prs: u32,
}

/// What a workout that was done is.
pub struct DoneView {
    pub template: TemplateView,
    pub date: Option<Date>,
    pub volume: u32,
    pub length: u32,
    pub prs: u32,
}

impl View for WorkoutDone {
    type V = DoneView;

    open spec fn view(&self) -> DoneView {
        DoneView {
            template: self.template@,
            date: self.date,
            volume: self.volume,
            length: self.length,
            prs: self.prs,
        }
    }
}

/// The workout that stands first in a new user's list: the full body
/// template, on no day, with nothing moved.
pub open spec fn first_done() -> DoneView {
    DoneView { template: full_body_template(), date: None, volume: 0, length: 0, prs: 0 }
}

impl WorkoutDone {
    /// The full body template, on no day, with nothing moved.
    pub fn default() -> (r: WorkoutDone)
        ensures
            r@ == first_done(),
    {
        WorkoutDone {
            template: WorkoutTemplate::default(),
            date: None,
            volume: 0,
            length: 0,
            prs: 0,
        }
    }
}

/// The figures of one workout, by name.
#[derive(Clone, Debug, PartialEq, Eq)]
pub struct WorkoutData {
    pub workout_name: String,
    pub workout_date: String,
    pub workout_volume: u32,
    pub workout_length: u32,
    pub workout_prs: u32,
}

impl WorkoutData {
    /// No name, no date, and zeros.
    pub fn default() -> (r: WorkoutData)
        ensures
            r.workout_name@ == Seq::<char>::empty(),
            r.workout_date@ == Seq::<char>::empty(),
            r.workout_volume == 0,
            r.workout_length == 0,
            r.workout_prs == 0,
    {
        WorkoutData {
            workout_name: String::new(),
            workout_date: String::new(),
            workout_volume: 0,
            workout_length: 0,
            workout_prs: 0,
        }
    }
}

/// A workout planned onto a day: its own copy of a template.
#[derive(Clone, Debug, PartialEq, Eq)]
pub struct WorkoutPlanned {
    pub template: WorkoutTemplate,
    pub date: Date,
}

/// What a planned workout is.
pub struct PlannedView {
    pub template: TemplateView,
    pub date: Date,
}

impl View for WorkoutPlanned {
    type V = PlannedView;

    open spec fn view(&self) -> PlannedView {
        PlannedView { template: self.template@, date: self.date }
    }
}

/// The entry that marks `date` as a day of rest.
pub open spec fn planned_rest(date: Date) -> PlannedView {
    PlannedView { template: rest_template(), date }
}

impl WorkoutPlanned {
    /// `template` planned onto `date`.
    pub fn new(template: WorkoutTemplate, date: Date) -> (r: WorkoutPlanned)
        ensures
            r@ == (PlannedView { template: template@, date }),
    {
        WorkoutPlanned { template, date }
    }

    /// A day of rest on `date`.
    pub fn rest(date: Date) -> (r: WorkoutPlanned)
        ensures
            r@ == planned_rest(date),
    {
        WorkoutPlanned { template: WorkoutTemplate::rest(), date }
    }

    /// The preset for the legs on `date`.
    pub fn leg_day(date: Date) -> (r: WorkoutPlanned)
        ensures
            r@ == (PlannedView { template: legs_template(), date }),
    {
        WorkoutPlanned { template: WorkoutTemplate::legs(), date }
    }
}

/// What a new user has planned: the full body template on October 29 of
/// 2025. (Nothing, were the calendar to lack that day.)
pub open spec fn first_plan() -> Map<Date, Seq<PlannedView>> {
    match Date::from_ymd_spec(2025, 10, 29) {
        Some(day) => Map::<Date, Seq<PlannedView>>::empty().insert(
            day,
            seq![PlannedView { template: full_body_template(), date: day }],
        ),
        None => Map::<Date, Seq<PlannedView>>::empty(),
    }
}

/// The workouts planned onto each day, in the order in which they were
/// planned.
#[derive(Clone, Debug, PartialEq, Eq)]
pub struct WorkoutPlannedData {
    pub workouts: Ledger<WorkoutPlanned>,
}

impl View for WorkoutPlannedData {
    type V = Map<Date, Seq<PlannedView>>;

    open spec fn view(&self) -> Map<Date, Seq<PlannedView>> {
        self.workouts@
    }
}

impl WorkoutPlannedData {
    /// What a new user has planned: the full body template on October 29 of
    /// 2025.
    pub fn default() -> (r: WorkoutPlannedData)
        ensures
            r@ == first_plan(),
    {
        let mut workouts: Ledger<WorkoutPlanned> = Ledger::new();
        match Date::from_ymd(2025, 10, 29) {
            Some(day) => {
                workouts.add_last(day, WorkoutPlanned::new(WorkoutTemplate::default(), day));
            },
            None => {},
        }
        WorkoutPlannedData { workouts }
    }

    /// Nothing planned on any day.
    pub fn new() -> (r: WorkoutPlannedData)
        ensures
            r@ == Map::<Date, Seq<PlannedView>>::empty(),
    {
        WorkoutPlannedData { workouts: Ledger::new() }
    }

    /// Puts `workout` behind the workouts planned onto `date`. This always
    /// succeeds.
    pub fn add_workout(&mut self, date: Date, workout: WorkoutPlanned) -> (r: Result<(), String>)
        ensures
            r is Ok,
            final(self)@ == with_last(old(self)@, date, workout@),
    {
        self.workouts.add_last(date, workout);
        Ok(())
    }

    /// Plans a copy of `template` behind the workouts of `date`. The copy is
    /// the ledger's own: what becomes of `template` later does not reach it.
    pub fn plan(&mut self, date: Date, template: &WorkoutTemplate)
        ensures
            final(self)@ == with_last(old(self)@, date, PlannedView { template: template@, date }),
    {
        self.workouts.add_last(date, WorkoutPlanned::new(template.clone(), date));
    }

    /// Makes `date` a day of rest: whatever was planned onto it goes, and
    /// one rest entry stands in its place.
    pub fn rest(&mut self, date: Date)
        ensures
            final(self)@ == with_only(old(self)@, date, planned_rest(date)),
    {
        self.workouts.set_only(date, WorkoutPlanned::rest(date));
    }

    /// Removes the workout at `index` of `date`; `NotFound` where nothing
    /// was ever planned onto the day, `IndexOutOfRange` where its list has no
    /// such index, and nothing changed in both cases.
    pub fn remove_workout(&mut self, date: Date, index: usize) -> (r: Result<(), TrackError>)
        ensures
            final(self)@ == without(old(self)@, date, index as int),
            r == removal_check(old(self)@, date, index as int),
    {
        match self.workouts.remove_at(date, index) {
            Ok(_) => Ok(()),
            Err(e) => Err(e),
        }
    }

    /// The workouts planned onto `date`, in the order in which they were
    /// planned: none where nothing was ever planned onto the day.
    pub fn get(&self, date: Date) -> (r: &[WorkoutPlanned])
        ensures
            views(r@) == entries_on(self@, date),
    {
        self.workouts.get(date)
    }

    /// Whether `date` has a list of workouts, be it empty.
    pub fn is_planned(&self, date: Date) -> (r: bool)
        ensures
            r == self@.contains_key(date),
    {
        self.workouts.contains(date)
    }
}

/// After a day was made a day of rest it holds exactly one entry, and that
/// entry carries the name "rest" and no exercise, whatever the day held
/// before.
pub proof fn lemma_rest_is_alone(planned: Map<Date, Seq<PlannedView>>, date: Date)
    ensures
        entries_on(with_only(planned, date, planned_rest(date)), date).len() == 1,
        entries_on(with_only(planned, date, planned_rest(date)), date)[0].template.name == "rest"@,
        entries_on(with_only(planned, date, planned_rest(date)), date)[0].template.exercises.len()
            == 0,
        with_only(with_only(planned, date, planned_rest(date)), date, planned_rest(date))
            == with_only(planned, date, planned_rest(date)),
{
}

/// The totals over all workouts done, those of the running week, the list of
/// the workouts done and the templates kept.
#[derive(Clone, Debug, PartialEq, Eq)]
pub struct AllWorkoutData {
    pub total_volume: u32,
    pub total_sets: u32,
    pub total_reps: u32,
    pub total_time: u32,
    pub worked_out: u32,
    pub prs: u32,
    pub week_volume: u32,
    pub week_sets: u32,
    pub week_reps: u32,
    pub week_time: u32,
    pub workouts: Vec<WorkoutDone>,
    pub workout_templates: TemplateStore,
}

/// What the workout totals, the list of workouts done and the template store
/// are.
pub struct AllWorkoutView {
    pub total_volume: u32,
    pub total_sets: u32,
    pub total_reps: u32,
    pub total_time: u32,
    pub worked_out: u32,
    pub prs: u32,
    pub week_volume: u32,
    pub week_sets: u32,
    pub week_reps: u32,
    pub week_time: u32,
    pub workouts: Seq<DoneView>,
    pub workout_templates: Map<Seq<char>, Seq<Exercises>>,
}

impl View for AllWorkoutData {
    type V = AllWorkoutView;

    open spec fn view(&self) -> AllWorkoutView {
        AllWorkoutView {
            total_volume: self.total_volume,
            total_sets: self.total_sets,
            total_reps: self.total_reps,
            total_time: self.total_time,
            worked_out: self.worked_out,
            prs: self.prs,
            week_volume: self.week_volume,
            week_sets: self.week_sets,
            week_reps: self.week_reps,
            week_time: self.week_time,
            workouts: views(self.workouts@),
            workout_templates: self.workout_templates@,
        }
    }
}

impl AllWorkoutView {
    /// What a new user starts with: no totals, one workout in the list, and
    /// the templates "leg day" and "pull day".
    pub open spec fn initial() -> AllWorkoutView {
        AllWorkoutView {
            total_volume: 0,
            total_sets: 0,
            total_reps: 0,
            total_time: 0,
            worked_out: 0,
            prs: 0,
            week_volume: 0,
            week_sets: 0,
            week_reps: 0,
            week_time: 0,
            workouts: seq![first_done()],
            workout_templates: Map::<Seq<char>, Seq<Exercises>>::empty().insert(
                "leg day"@,
                seq![Exercises::HackSquat, Exercises::LegExtension, Exercises::LegCurl],
            ).insert("pull day"@, seq![Exercises::BenchPress, Exercises::TricepDips]),
        }
    }

    /// Whether the figures of `workout` can be added to the totals.
    pub open spec fn can_record(self, workout: DoneView) -> bool {
        &&& self.total_volume + workout.volume <= u32::MAX
        &&& self.week_volume + workout.volume <= u32::MAX
        &&& self.total_time + workout.length <= u32::MAX
        &&& self.week_time + workout.length <= u32::MAX
        &&& self.prs + workout.prs <= u32::MAX
    }

    /// The data after `workout` was put at the end of the list and its
    /// volume, its time and its records were added to the totals, those of
    /// the week among them.
    pub open spec fn recorded(self, workout: DoneView) -> AllWorkoutView {
        AllWorkoutView {
            total_volume: (self.total_volume + workout.volume) as u32,
            week_volume: (self.week_volume + workout.volume) as u32,
            total_time: (self.total_time + workout.length) as u32,
            week_time: (self.week_time + workout.length) as u32,
            prs: (self.prs + workout.prs) as u32,
            workouts: self.workouts.push(workout),
            ..self
        }
    }

    /// The data with the totals of the week back at zero.
    pub open spec fn week_begun(self) -> AllWorkoutView {
        AllWorkoutView { week_volume: 0, week_sets: 0, week_reps: 0, week_time: 0, ..self }
    }
}

impl AllWorkoutData {
    /// What a new user starts with: no totals, one workout in the list, and
    /// the templates "leg day" and "pull day".
    pub fn default() -> (r: AllWorkoutData)
        ensures
            r@ == AllWorkoutView::initial(),
    {
        let mut workouts: Vec<WorkoutDone> = Vec::new();
        workouts.push(WorkoutDone::default());
        let mut workout_templates = TemplateStore::new();
        workout_templates.create(
            String::from_str("leg day"),
            vec![Exercises::HackSquat, Exercises::LegExtension, Exercises::LegCurl],
        );
        workout_templates.create(
            String::from_str("pull day"),
            vec![Exercises::BenchPress, Exercises::TricepDips],
        );
        let r = AllWorkoutData {
            total_volume: 0,
            total_sets: 0,
            total_reps: 0,
            total_time: 0,
            worked_out: 0,
            prs: 0,
            week_volume: 0,
            week_sets: 0,
            week_reps: 0,
            week_time: 0,
            workouts,
            workout_templates,
        };
        assert(r@.workouts =~= AllWorkoutView::initial().workouts);
        r
    }

    /// Keeps `exercises` as a template under `workout_name`. A template that
    /// was kept under that name is replaced.
    pub fn create_workout_template(&mut self, workout_name: String, exercises: Vec<Exercises>)
        ensures
            final(self)@ == (AllWorkoutView {
                workout_templates: old(self)@.workout_templates.insert(workout_name@, exercises@),
                ..old(self)@
            }),
    {
        self.workout_templates.create(workout_name, exercises);
    }

    /// Puts `workout` at the end of the list of workouts done and adds its
    /// volume, its time and its records to the totals. Where a total would
    /// not fit, nothing changes and the workout is handed back.
    pub fn record_workout(&mut self, workout: WorkoutDone) -> (r: Result<(), WorkoutDone>)
        ensures
            r is Ok <==> old(self)@.can_record(workout@),
            r is Ok ==> final(self)@ == old(self)@.recorded(workout@),
            r matches Err(back) ==> back == workout && final(self)@ == old(self)@,
    {
        let fits = self.total_volume <= u32::MAX - workout.volume && self.week_volume <= u32::MAX
            - workout.volume && self.total_time <= u32::MAX - workout.length && self.week_time
            <= u32::MAX - workout.length && self.prs <= u32::MAX - workout.prs;
        if !fits {
            return Err(workout);
        }
        self.total_volume = self.total_volume + workout.volume;
        self.week_volume = self.week_volume + workout.volume;
        self.total_time = self.total_time + workout.length;
        self.week_time = self.week_time + workout.length;
        self.prs = self.prs + workout.prs;
        let ghost before = self.workouts@;
        self.workouts.push(workout);
        assert(views(before.push(workout)) =~= views(before).push(workout@));
        Ok(())
    }

    /// Sets the totals of the week back to zero.
    pub fn begin_week(&mut self)
        ensures
            final(self)@ == old(self)@.week_begun(),
    {
        self.week_volume = 0;
        self.week_sets = 0;
        self.week_reps = 0;
        self.week_time = 0;
    }
}

/// The muscle groups that the planned workouts of a list work.
pub open spec fn plans_touch(entries: Seq<PlannedView>) -> Set<Muscle> {
    Set::new(
        |m: Muscle|
            exists|i: int|
                0 <= i < entries.len() && touched_muscles(
                    (#[trigger] entries[i]).template.exercises,
                ).contains(m),
    )
}

/// Whether the workout at place `i` of `date` is planned onto one of the
/// first `count` days from `monday` on and works the muscle group `m`.
pub open spec fn plan_touches(
    planned: Map<Date, Seq<PlannedView>>,
    monday: Date,
    count: int,
    date: Date,
    i: int,
    m: Muscle,
) -> bool {
    &&& monday.days <= date.days < monday.days + count
    &&& planned.contains_key(date)
    &&& 0 <= i < planned[date].len()
    &&& touched_muscles(planned[date][i].template.exercises).contains(m)
}

/// The muscle groups that the workouts planned onto the first `count` days
/// from `monday` on work.
pub open spec fn planned_touch_within(
    planned: Map<Date, Seq<PlannedView>>,
    monday: Date,
    count: int,
) -> Set<Muscle> {
    Set::new(
        |m: Muscle|
            exists|date: Date, i: int| #[trigger] plan_touches(planned, monday, count, date, i, m),
    )
}

/// The muscle groups that the workouts planned onto the seven days from
/// `monday` on work.
pub open spec fn planned_touch(planned: Map<Date, Seq<PlannedView>>, monday: Date) -> Set<Muscle> {
    planned_touch_within(planned, monday, 7)
}

/// The muscle groups that the workouts done on one of the seven days from
/// `monday` on work. A workout whose day is not known counts for no week.
pub open spec fn done_touch(done: Seq<DoneView>, monday: Date) -> Set<Muscle> {
    Set::new(
        |m: Muscle|
            exists|j: int|
                0 <= j < done.len() && done_in_week(#[trigger] done[j], monday) && touched_muscles(
                    done[j].template.exercises,
                ).contains(m),
    )
}

/// Whether `workout` was done on one of the seven days from `monday` on.
pub open spec fn done_in_week(workout: DoneView, monday: Date) -> bool {
    workout.date matches Some(date) && date.in_week_of(monday)
}

/// The muscle groups that the workouts of the week from `monday` on work,
/// planned ones and done ones together.
pub open spec fn week_touch(
    planned: Map<Date, Seq<PlannedView>>,
    done: Seq<DoneView>,
    monday: Date,
) -> Set<Muscle> {
    planned_touch(planned, monday).union(done_touch(done, monday))
}

/// Adds to `touched` each muscle group that a planned workout of `entries`
/// works and that the list lacks.
pub fn add_planned(touched: &mut Vec<Muscle>, entries: &[WorkoutPlanned])
    ensures
        final(touched)@.to_set() == old(touched)@.to_set().union(plans_touch(views(entries@))),
        old(touched)@.no_duplicates() ==> final(touched)@.no_duplicates(),
{
    let ghost all = views(entries@);
    let mut i: usize = 0;
    while i < entries.len()
        invariant
            i <= entries.len(),
            all == views(entries@),
            old(touched)@.no_duplicates() ==> touched@.no_duplicates(),
            touched@.to_set() == old(touched)@.to_set().union(plans_touch(all.take(i as int))),
        decreases entries.len() - i,
    {
        add_touched(touched, &entries[i].template.exercises);
        proof {
            let shorter = all.take(i as int);
            let longer = all.take(i as int + 1);
            let more = touched_muscles(all[i as int].template.exercises);
            assert forall|m: Muscle|
                plans_touch(longer).contains(m) <==> plans_touch(shorter).union(more).contains(
                    m,
                ) by {
                if plans_touch(longer).contains(m) {
                    let j = choose|j: int|
                        0 <= j < longer.len() && touched_muscles(
                            (#[trigger] longer[j]).template.exercises,
                        ).contains(m);
                    if j < i {
                        assert(shorter[j] == longer[j]);
                    }
                }
                if plans_touch(shorter).contains(m) {
                    let j = choose|j: int|
                        0 <= j < shorter.len() && touched_muscles(
                            (#[trigger] shorter[j]).template.exercises,
                        ).contains(m);
                    assert(longer[j] == shorter[j]);
                }
                if more.contains(m) {
                    assert(longer[i as int] == all[i as int]);
                }
            }
        }
        i = i + 1;
    }
    assert(all.take(i as int) =~= all);
}

/// Adds to `touched` each muscle group that a workout of `workouts` done in
/// the week from `monday` on works and that the list lacks.
pub fn add_done(touched: &mut Vec<Muscle>, workouts: &Vec<WorkoutDone>, monday: Date)
    ensures
        final(touched)@.to_set() == old(touched)@.to_set().union(
            done_touch(views(workouts@), monday),
        ),
        old(touched)@.no_duplicates() ==> final(touched)@.no_duplicates(),
{
    let ghost all = views(workouts@);
    let mut i: usize = 0;
    while i < workouts.len()
        invariant
            i <= workouts.len(),
            all == views(workouts@),
            old(touched)@.no_duplicates() ==> touched@.no_duplicates(),
            touched@.to_set() == old(touched)@.to_set().union(
                done_touch(all.take(i as int), monday),
            ),
        decreases workouts.len() - i,
    {
        let counts = match workouts[i].date {
            Some(date) => date.is_in_week_of(monday),
            None => false,
        };
        if counts {
            add_touched(touched, &workouts[i].template.exercises);
        }
        proof {
            let shorter = all.take(i as int);
            let longer = all.take(i as int + 1);
            let more = if counts {
                touched_muscles(all[i as int].template.exercises)
            } else {
                Set::<Muscle>::empty()
            };
            assert forall|m: Muscle| done_touch(longer, monday).contains(m) <==> done_touch(
                shorter,
                monday,
            ).union(more).contains(m) by {
                if done_touch(longer, monday).contains(m) {
                    let j = choose|j: int|
                        0 <= j < longer.len() && done_in_week(#[trigger] longer[j], monday)
                            && touched_muscles(longer[j].template.exercises).contains(m);
                    if j < i {
                        assert(shorter[j] == longer[j]);
                    }
                }
                if done_touch(shorter, monday).contains(m) {
                    let j = choose|j: int|
                        0 <= j < shorter.len() && done_in_week(#[trigger] shorter[j], monday)
                            && touched_muscles(shorter[j].template.exercises).contains(m);
                    assert(longer[j] == shorter[j]);
                }
                if more.contains(m) {
                    assert(longer[i as int] == all[i as int]);
                }
            }
        }
        i = i + 1;
    }
    assert(all.take(i as int) =~= all);
}

/// What one more day adds to the muscle groups worked from `monday` on: the
/// groups of the workouts planned onto that day, if there is such a day.
pub proof fn lemma_planned_touch_step(
    planned: Map<Date, Seq<PlannedView>>,
    monday: Date,
    count: int,
)
    requires
        0 <= count,
    ensures
        planned_touch_within(planned, monday, 0) == Set::<Muscle>::empty(),
        monday.days + count <= i32::MAX ==> planned_touch_within(planned, monday, count + 1)
            == planned_touch_within(planned, monday, count).union(
            plans_touch(entries_on(planned, Date { days: (monday.days + count) as i32 })),
        ),
        monday.days + count > i32::MAX ==> planned_touch_within(planned, monday, count + 1)
            == planned_touch_within(planned, monday, count),
{
    assert(planned_touch_within(planned, monday, 0) =~= Set::<Muscle>::empty());
    let shorter = planned_touch_within(planned, monday, count);
    let longer = planned_touch_within(planned, monday, count + 1);
    if monday.days + count <= i32::MAX {
        let day = Date { days: (monday.days + count) as i32 };
        let list = entries_on(planned, day);
        assert forall|m: Muscle| longer.contains(m) <==> shorter.union(plans_touch(list)).contains(
            m,
        ) by {
            if longer.contains(m) {
                let (date, i) = choose|date: Date, i: int|
                    #[trigger] plan_touches(planned, monday, count + 1, date, i, m);
                if date.days == monday.days + count {
                    assert(date == day);
                    assert(touched_muscles(list[i].template.exercises).contains(m));
                } else {
                    assert(plan_touches(planned, monday, count, date, i, m));
                }
            }
            if shorter.contains(m) {
                let (date, i) = choose|date: Date, i: int|
                    #[trigger] plan_touches(planned, monday, count, date, i, m);
                assert(plan_touches(planned, monday, count + 1, date, i, m));
            }
            if plans_touch(list).contains(m) {
                let i = choose|i: int|
                    0 <= i < list.len() && touched_muscles(
                        (#[trigger] list[i]).template.exercises,
                    ).contains(m);
                assert(plan_touches(planned, monday, count + 1, day, i, m));
            }
        }
        assert(longer =~= shorter.union(plans_touch(list)));
    } else {
        assert forall|m: Muscle| longer.contains(m) <==> shorter.contains(m) by {
            if longer.contains(m) {
                let (date, i) = choose|date: Date, i: int|
                    #[trigger] plan_touches(planned, monday, count + 1, date, i, m);
                assert(plan_touches(planned, monday, count, date, i, m));
            }
            if shorter.contains(m) {
                let (date, i) = choose|date: Date, i: int|
                    #[trigger] plan_touches(planned, monday, count, date, i, m);
                assert(plan_touches(planned, monday, count + 1, date, i, m));
            }
        }
        assert(longer =~= shorter);
    }
}

impl WorkoutPlannedData {
    /// Adds to `touched` each muscle group that a workout planned onto one of
    /// the seven days from `monday` on works and that the list lacks.
    pub fn add_week(&self, touched: &mut Vec<Muscle>, monday: Date)
        ensures
            final(touched)@.to_set() == old(touched)@.to_set().union(planned_touch(self@, monday)),
            old(touched)@.no_duplicates() ==> final(touched)@.no_duplicates(),
    {
        let mut count: u8 = 0;
        proof {
            lemma_planned_touch_step(self@, monday, 0);
        }
        while count < 7
            invariant
                count <= 7,
                old(touched)@.no_duplicates() ==> touched@.no_duplicates(),
                touched@.to_set() == old(touched)@.to_set().union(
                    planned_touch_within(self@, monday, count as int),
                ),
            decreases 7 - count,
        {
            proof {
                lemma_planned_touch_step(self@, monday, count as int);
            }
            let number: i64 = monday.days as i64 + count as i64;
            if number <= i32::MAX as i64 {
                let day = Date { days: number as i32 };
                add_planned(touched, self.workouts.get(day));
            }
            count = count + 1;
        }
    }
}

} // verus!

use fitness_tracker::calendar::Date;
use fitness_tracker::catalog::{Exercises, Muscle};
use fitness_tracker::error::TrackError;
use fitness_tracker::template::WorkoutTemplate;
use fitness_tracker::workout::{
    add_done, add_planned, AllWorkoutData, WorkoutData, WorkoutDone, WorkoutPlanned,
    WorkoutPlannedData,
};

const D: Date = Date { days: 739_553 };
const E: Date = Date { days: 739_560 };

fn done(exercise: Exercises, date: Option<Date>) -> WorkoutDone {
    let template = WorkoutTemplate::new(String::from("done"), vec![exercise]);
    WorkoutDone { template, date, volume: 0, length: 0, prs: 0 }
}

fn planned(exercise: Exercises, date: Date) -> WorkoutPlanned {
    WorkoutPlanned::new(WorkoutTemplate::new(String::from("planned"), vec![exercise]), date)
}

fn names(data: &WorkoutPlannedData, date: Date) -> Vec<String> {
    data.get(date).iter().map(|w| w.template.workout_name.clone()).collect()
}

#[test]
fn planned_workouts_from_presets() {
    let custom = WorkoutPlanned::new(WorkoutTemplate::legs(), D);
    assert_eq!(custom.template, WorkoutTemplate::legs());
    assert_eq!(custom.date, D);
    let rest = WorkoutPlanned::rest(D);
    assert_eq!(rest.template, WorkoutTemplate::rest());
    assert_eq!(rest.date, D);
    let legs = WorkoutPlanned::leg_day(E);
    assert_eq!(legs.template, WorkoutTemplate::legs());
    assert_eq!(legs.date, E);
}

#[test]
fn a_new_user_has_the_full_body_planned_on_october_29_of_2025() {
    let data = WorkoutPlannedData::default();
    let day = Date::from_ymd(2025, 10, 29).unwrap();
    assert_eq!(data.workouts.dates(), vec![day]);
    assert_eq!(data.get(day), &[WorkoutPlanned::new(WorkoutTemplate::default(), day)][..]);
    assert_eq!(day.days, 739_553);
}

#[test]
fn add_workout_always_succeeds_and_appends() {
    let mut data = WorkoutPlannedData::new();
    assert!(!data.is_planned(D));
    assert_eq!(data.add_workout(D, WorkoutPlanned::leg_day(D)), Ok(()));
    assert_eq!(data.add_workout(D, WorkoutPlanned::new(WorkoutTemplate::default(), D)), Ok(()));
    assert_eq!(data.add_workout(D, WorkoutPlanned::leg_day(D)), Ok(()));
    assert_eq!(names(&data, D), vec!["legs", "full body", "legs"]);
    assert!(data.is_planned(D));
    assert!(data.get(E).is_empty());
}

#[test]
fn plan_copies_the_template() {
    let mut data = WorkoutPlannedData::new();
    let mut template = WorkoutTemplate::new(String::from("push"), vec![Exercises::BenchPress]);
    data.plan(D, &template);
    template.exercises.push(Exercises::TricepDips);
    template.workout_name = String::from("changed");
    data.plan(D, &template);
    let planned = data.get(D);
    assert_eq!(
        planned[0].template,
        WorkoutTemplate::new(String::from("push"), vec![Exercises::BenchPress])
    );
    assert_eq!(planned[0].date, D);
    assert_eq!(planned[1].template.exercises, vec![Exercises::BenchPress, Exercises::TricepDips]);
}

#[test]
fn rest_leaves_exactly_one_entry_called_rest() {
    let mut data = WorkoutPlannedData::new();
    data.add_workout(D, WorkoutPlanned::leg_day(D)).unwrap();
    data.add_workout(D, WorkoutPlanned::new(WorkoutTemplate::default(), D)).unwrap();
    data.add_workout(E, WorkoutPlanned::leg_day(E)).unwrap();
    data.rest(D);
    assert_eq!(data.get(D).len(), 1);
    assert_eq!(data.get(D)[0].template.workout_name, "rest");
    assert!(data.get(D)[0].template.exercises.is_empty());
    assert_eq!(data.get(D)[0].date, D);
    assert_eq!(names(&data, E), vec!["legs"]);
}

#[test]
fn rest_on_an_unseen_day_and_rest_twice() {
    let mut data = WorkoutPlannedData::new();
    data.rest(D);
    assert_eq!(data.get(D), &[WorkoutPlanned::rest(D)][..]);
    data.rest(D);
    data.rest(D);
    assert_eq!(data.get(D), &[WorkoutPlanned::rest(D)][..]);
}

#[test]
fn remove_workout_at_the_length_is_out_of_range_and_before_it_succeeds() {
    let mut data = WorkoutPlannedData::new();
    data.add_workout(D, WorkoutPlanned::leg_day(D)).unwrap();
    data.add_workout(D, WorkoutPlanned::rest(D)).unwrap();
    data.add_workout(D, WorkoutPlanned::new(WorkoutTemplate::default(), D)).unwrap();
    let len = data.get(D).len();
    assert_eq!(data.remove_workout(D, len), Err(TrackError::IndexOutOfRange));
    assert_eq!(data.get(D).len(), len);
    assert_eq!(data.remove_workout(D, len - 1), Ok(()));
    assert_eq!(data.get(D).len(), len - 1);
    assert_eq!(names(&data, D), vec!["legs", "rest"]);
}

#[test]
fn remove_workout_down_to_an_empty_day() {
    let mut data = WorkoutPlannedData::default();
    let day = Date { days: 739_553 };
    assert_eq!(data.remove_workout(day, 1), Err(TrackError::IndexOutOfRange));
    assert_eq!(data.remove_workout(day, 0), Ok(()));
    assert!(data.get(day).is_empty());
    assert!(data.is_planned(day));
    assert_eq!(data.remove_workout(day, 0), Err(TrackError::IndexOutOfRange));
}

#[test]
fn remove_workout_on_an_unseen_day_is_not_found() {
    let mut data = WorkoutPlannedData::default();
    assert_eq!(data.remove_workout(E, 0), Err(TrackError::NotFound));
    assert_eq!(data.remove_workout(E, 7), Err(TrackError::NotFound));
    assert!(!data.is_planned(E));
}

#[test]
fn the_first_workout_done_and_the_blank_figures() {
    let done = WorkoutDone::default();
    assert_eq!(done.template, WorkoutTemplate::default());
    assert_eq!(done.date, None);
    assert_eq!((done.volume, done.length, done.prs), (0, 0, 0));
    let data = WorkoutData::default();
    assert_eq!(data.workout_name, "");
    assert_eq!(data.workout_date, "");
    assert_eq!((data.workout_volume, data.workout_length, data.workout_prs), (0, 0, 0));
}

#[test]
fn a_new_user_has_no_totals_one_workout_and_two_templates() {
    let data = AllWorkoutData::default();
    assert_eq!(
        (data.total_volume, data.total_sets, data.total_reps, data.total_time),
        (0, 0, 0, 0)
    );
    assert_eq!((data.worked_out, data.prs), (0, 0));
    assert_eq!((data.week_volume, data.week_sets, data.week_reps, data.week_time), (0, 0, 0, 0));
    assert_eq!(data.workouts, vec![WorkoutDone::default()]);
    assert_eq!(data.workout_templates.len(), 2);
    assert_eq!(
        data.workout_templates.get("leg day").unwrap().exercises,
        vec![Exercises::HackSquat, Exercises::LegExtension, Exercises::LegCurl]
    );
    assert_eq!(
        data.workout_templates.get("pull day").unwrap().exercises,
        vec![Exercises::BenchPress, Exercises::TricepDips]
    );
}

#[test]
fn create_workout_template_inserts_or_replaces() {
    let mut data = AllWorkoutData::default();
    data.create_workout_template(String::from("arms"), vec![Exercises::TricepDips]);
    data.create_workout_template(String::from("leg day"), vec![Exercises::Squat]);
    assert_eq!(data.workout_templates.len(), 3);
    assert_eq!(data.workout_templates.get("arms").unwrap().exercises, vec![Exercises::TricepDips]);
    assert_eq!(data.workout_templates.get("leg day").unwrap().exercises, vec![Exercises::Squat]);
    assert_eq!(data.workout_templates.get("leg day").unwrap().workout_name, "leg day");
    assert_eq!(data.workouts.len(), 1);
}

#[test]
fn record_workout_appends_and_adds_to_the_totals() {
    let mut data = AllWorkoutData::default();
    let done = WorkoutDone {
        template: WorkoutTemplate::legs(),
        date: Some(D),
        volume: 1200,
        length: 45,
        prs: 2,
    };
    assert_eq!(data.record_workout(done.clone()), Ok(()));
    assert_eq!(data.record_workout(done.clone()), Ok(()));
    assert_eq!(data.workouts, vec![WorkoutDone::default(), done.clone(), done]);
    assert_eq!((data.total_volume, data.total_time, data.prs), (2400, 90, 4));
    assert_eq!((data.week_volume, data.week_time), (2400, 90));
    assert_eq!(
        (data.total_sets, data.total_reps, data.week_sets, data.week_reps, data.worked_out),
        (0, 0, 0, 0, 0)
    );
    data.begin_week();
    assert_eq!((data.week_volume, data.week_sets, data.week_reps, data.week_time), (0, 0, 0, 0));
    assert_eq!((data.total_volume, data.total_time, data.prs), (2400, 90, 4));
    assert_eq!(data.workouts.len(), 3);
}

#[test]
fn record_workout_hands_back_what_does_not_fit() {
    let mut data = AllWorkoutData::default();
    data.total_time = u32::MAX - 10;
    let done = WorkoutDone {
        template: WorkoutTemplate::legs(),
        date: Some(D),
        volume: 5,
        length: 11,
        prs: 0,
    };
    assert_eq!(data.record_workout(done.clone()), Err(done));
    assert_eq!(data.workouts.len(), 1);
    assert_eq!(
        (data.total_volume, data.total_time, data.week_volume, data.week_time),
        (0, u32::MAX - 10, 0, 0)
    );
    let fits = WorkoutDone {
        template: WorkoutTemplate::legs(),
        date: None,
        volume: 5,
        length: 10,
        prs: 0,
    };
    assert_eq!(data.record_workout(fits), Ok(()));
    assert_eq!(data.total_time, u32::MAX);
}

#[test]
fn add_planned_and_add_done_collect_the_muscles_worked() {
    let mut touched = vec![Muscle::Abs];
    add_planned(&mut touched, &[WorkoutPlanned::leg_day(D), WorkoutPlanned::rest(D)]);
    assert_eq!(touched, vec![Muscle::Abs, Muscle::Quads, Muscle::Glutes, Muscle::Hamstrings]);
    let monday = Date { days: 739_551 };
    let in_week = done(Exercises::LegCurl, Some(Date { days: 739_557 }));
    let too_late = done(Exercises::BenchPress, Some(Date { days: 739_558 }));
    let too_early = done(Exercises::Deadlift, Some(Date { days: 739_550 }));
    let undated = done(Exercises::TricepDips, None);
    add_done(&mut touched, &vec![too_late, in_week, too_early, undated], monday);
    assert_eq!(
        touched,
        vec![Muscle::Abs, Muscle::Quads, Muscle::Glutes, Muscle::Hamstrings, Muscle::Hips]
    );
}

#[test]
fn add_week_collects_the_seven_days_from_monday() {
    let monday = Date { days: 739_551 };
    let mut data = WorkoutPlannedData::new();
    let sunday_before = Date { days: 739_550 };
    let sunday = Date { days: 739_557 };
    let monday_after = Date { days: 739_558 };
    data.add_workout(sunday_before, planned(Exercises::BenchPress, sunday_before)).unwrap();
    data.add_workout(monday, planned(Exercises::LegCurl, monday)).unwrap();
    data.add_workout(sunday, planned(Exercises::TricepDips, sunday)).unwrap();
    data.add_workout(monday_after, planned(Exercises::Deadlift, monday_after)).unwrap();
    let mut touched = Vec::new();
    data.add_week(&mut touched, monday);
    assert_eq!(
        touched,
        vec![Muscle::Hamstrings, Muscle::Hips, Muscle::Triceps, Muscle::LowerChest]
    );
    let mut at_the_end = Vec::new();
    data.add_week(&mut at_the_end, Date { days: i32::MAX - 2 });
    assert!(at_the_end.is_empty());
}

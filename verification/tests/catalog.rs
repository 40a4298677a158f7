use fitness_tracker::catalog::{
    add_muscle, add_muscles, add_touched, coverage_percent, has_muscle, muscle_coverage,
    muscle_for_workout, muscles_for, Exercises, Muscle, MUSCLE_COUNT,
};
use std::collections::HashSet;

fn set(list: &[Muscle]) -> HashSet<Muscle> {
    list.iter().copied().collect()
}

#[test]
fn muscles_for_gives_the_table_entry_of_each_exercise() {
    assert_eq!(
        muscles_for(&Exercises::BenchPress),
        (vec![Muscle::LowerChest, Muscle::UpperChest], vec![Muscle::Triceps])
    );
    assert_eq!(
        muscles_for(&Exercises::TricepDips),
        (vec![Muscle::Triceps], vec![Muscle::LowerChest])
    );
    assert_eq!(
        muscles_for(&Exercises::Deadlift),
        (vec![Muscle::LowerBack, Muscle::Glutes], vec![Muscle::Hamstrings])
    );
    assert_eq!(
        muscles_for(&Exercises::Squat),
        (vec![Muscle::Quads], vec![Muscle::Glutes, Muscle::Hamstrings])
    );
    assert_eq!(
        muscles_for(&Exercises::HackSquat),
        (vec![Muscle::Quads, Muscle::Hips], vec![Muscle::Hamstrings])
    );
    assert_eq!(
        muscles_for(&Exercises::LegPress),
        (vec![Muscle::Quads, Muscle::Hamstrings], vec![Muscle::ExtHips])
    );
    assert_eq!(
        muscles_for(&Exercises::LegExtension),
        (vec![Muscle::Quads, Muscle::ExtHips], vec![Muscle::Hips])
    );
    assert_eq!(muscles_for(&Exercises::LegCurl), (vec![Muscle::Hamstrings], vec![Muscle::Hips]));
}

#[test]
fn muscle_for_workout_of_bench_press_and_deadlift() {
    let exercises = vec![Exercises::BenchPress, Exercises::Deadlift];
    let (primary, secondary) = muscle_for_workout(&exercises);
    assert_eq!(primary.len(), 4);
    assert_eq!(secondary.len(), 2);
    assert_eq!(
        set(&primary),
        set(&[Muscle::LowerChest, Muscle::UpperChest, Muscle::LowerBack, Muscle::Glutes])
    );
    assert_eq!(set(&secondary), set(&[Muscle::Triceps, Muscle::Hamstrings]));
}

#[test]
fn muscle_for_workout_does_not_depend_on_the_order() {
    let forward = muscle_for_workout(&vec![Exercises::BenchPress, Exercises::Deadlift]);
    let backward = muscle_for_workout(&vec![Exercises::Deadlift, Exercises::BenchPress]);
    assert_eq!(set(&forward.0), set(&backward.0));
    assert_eq!(set(&forward.1), set(&backward.1));
    assert_eq!(forward.0.len(), backward.0.len());
    assert_eq!(forward.1.len(), backward.1.len());
}

#[test]
fn muscle_for_workout_names_each_group_once() {
    let (primary, secondary) = muscle_for_workout(&vec![
        Exercises::Squat,
        Exercises::HackSquat,
        Exercises::LegPress,
        Exercises::Squat,
        Exercises::LegExtension,
    ]);
    assert_eq!(primary.len(), set(&primary).len());
    assert_eq!(secondary.len(), set(&secondary).len());
    assert_eq!(
        set(&primary),
        set(&[Muscle::Quads, Muscle::Hips, Muscle::Hamstrings, Muscle::ExtHips])
    );
    assert_eq!(
        set(&secondary),
        set(&[Muscle::Glutes, Muscle::Hamstrings, Muscle::ExtHips, Muscle::Hips])
    );
}

#[test]
fn muscle_for_workout_keeps_a_group_that_is_primary_and_secondary_in_both() {
    let exercises = vec![Exercises::BenchPress, Exercises::TricepDips];
    let (primary, secondary) = muscle_for_workout(&exercises);
    assert_eq!(set(&primary), set(&[Muscle::LowerChest, Muscle::UpperChest, Muscle::Triceps]));
    assert_eq!(set(&secondary), set(&[Muscle::Triceps, Muscle::LowerChest]));
}

#[test]
fn muscle_for_workout_of_no_exercise_is_empty() {
    let (primary, secondary) = muscle_for_workout(&vec![]);
    assert!(primary.is_empty());
    assert!(secondary.is_empty());
}

#[test]
fn exercise_names() {
    assert_eq!(Exercises::BenchPress.name(), "Bench Press");
    assert_eq!(Exercises::TricepDips.name(), "Tricep Dips");
    assert_eq!(Exercises::Deadlift.name(), "Deadlift");
    assert_eq!(Exercises::Squat.name(), "Squat");
    assert_eq!(Exercises::HackSquat.name(), "Hack Squat");
    assert_eq!(Exercises::LegPress.name(), "Leg Press");
    assert_eq!(Exercises::LegExtension.name(), "Leg Extension");
    assert_eq!(Exercises::LegCurl.name(), "Leg Curl");
}

#[test]
fn the_catalog_lists_every_exercise_once() {
    let all = Exercises::all();
    assert_eq!(
        all,
        vec![
            Exercises::BenchPress,
            Exercises::TricepDips,
            Exercises::Deadlift,
            Exercises::Squat,
            Exercises::HackSquat,
            Exercises::LegPress,
            Exercises::LegExtension,
            Exercises::LegCurl,
        ]
    );
}

#[test]
fn the_catalog_lists_every_muscle_group_once() {
    let all = Muscle::all();
    assert_eq!(all.len(), 21);
    assert_eq!(MUSCLE_COUNT, 21);
    assert_eq!(set(&all).len(), 21);
    assert_eq!(all[0], Muscle::Necks);
    assert_eq!(all[20], Muscle::Hamstrings);
}

#[test]
fn has_muscle_finds_what_is_in_the_list() {
    let list = vec![Muscle::Abs, Muscle::Lats];
    assert!(has_muscle(&list, Muscle::Abs));
    assert!(has_muscle(&list, Muscle::Lats));
    assert!(!has_muscle(&list, Muscle::Calfs));
    assert!(!has_muscle(&vec![], Muscle::Abs));
}

#[test]
fn add_muscle_adds_only_what_is_new() {
    let mut list = vec![Muscle::Abs];
    add_muscle(&mut list, Muscle::Lats);
    assert_eq!(list, vec![Muscle::Abs, Muscle::Lats]);
    add_muscle(&mut list, Muscle::Abs);
    assert_eq!(list, vec![Muscle::Abs, Muscle::Lats]);
    add_muscles(&mut list, &vec![Muscle::Lats, Muscle::Calfs, Muscle::Calfs, Muscle::Necks]);
    assert_eq!(list, vec![Muscle::Abs, Muscle::Lats, Muscle::Calfs, Muscle::Necks]);
}

#[test]
fn add_touched_adds_primary_and_secondary_groups() {
    let mut list = vec![Muscle::Abs];
    add_touched(&mut list, &vec![Exercises::BenchPress, Exercises::BenchPress]);
    assert_eq!(list, vec![Muscle::Abs, Muscle::LowerChest, Muscle::UpperChest, Muscle::Triceps]);
}

#[test]
fn coverage_is_the_share_of_the_catalog_rounded_down() {
    assert_eq!(coverage_percent(&vec![]), 0);
    assert_eq!(coverage_percent(&vec![Muscle::Abs]), 4);
    assert_eq!(coverage_percent(&vec![Muscle::Abs, Muscle::Lats, Muscle::Calfs]), 14);
    assert_eq!(coverage_percent(&Muscle::all()), 100);
}

#[test]
fn muscle_coverage_of_lists_of_exercises() {
    assert_eq!(muscle_coverage(&vec![]), 0);
    assert_eq!(muscle_coverage(&vec![Exercises::BenchPress]), 14);
    assert_eq!(muscle_coverage(&vec![Exercises::BenchPress, Exercises::BenchPress]), 14);
    assert_eq!(
        muscle_coverage(&vec![Exercises::BenchPress, Exercises::Deadlift, Exercises::Squat]),
        33
    );
    assert_eq!(muscle_coverage(&Exercises::all()), 42);
}

use fitness_tracker::catalog::Exercises;
use fitness_tracker::error::TrackError;
use fitness_tracker::template::{TemplateStore, WorkoutTemplate};

fn names(store: &TemplateStore) -> Vec<String> {
    (0..store.len()).map(|i| store.name_at(i).unwrap().clone()).collect()
}

#[test]
fn the_presets() {
    let full = WorkoutTemplate::default();
    assert_eq!(full.workout_name, "full body");
    assert_eq!(full.exercises, vec![Exercises::BenchPress, Exercises::Deadlift, Exercises::Squat]);
    let rest = WorkoutTemplate::rest();
    assert_eq!(rest.workout_name, "rest");
    assert!(rest.exercises.is_empty());
    let legs = WorkoutTemplate::legs();
    assert_eq!(legs.workout_name, "legs");
    assert_eq!(legs.exercises, vec![Exercises::Squat]);
}

#[test]
fn only_the_reserved_name_marks_rest() {
    assert!(WorkoutTemplate::rest().is_rest());
    assert!(!WorkoutTemplate::default().is_rest());
    assert!(!WorkoutTemplate::legs().is_rest());
    assert!(WorkoutTemplate::new(String::from("rest"), vec![Exercises::Squat]).is_rest());
    assert!(!WorkoutTemplate::new(String::from("Rest"), vec![]).is_rest());
    assert!(!WorkoutTemplate::new(String::new(), vec![]).is_rest());
}

#[test]
fn a_copy_of_a_template_is_its_own() {
    let original = WorkoutTemplate::default();
    let mut copy = original.clone();
    assert_eq!(copy, original);
    copy.exercises.push(Exercises::LegCurl);
    copy.workout_name.push('!');
    assert_eq!(original, WorkoutTemplate::default());
}

#[test]
fn a_new_store_keeps_nothing() {
    let store = TemplateStore::new();
    assert_eq!(store.len(), 0);
    assert!(!store.contains("legs"));
    assert_eq!(store.get("legs"), Err(TrackError::NotFound));
    assert_eq!(store.name_at(0), None);
}

#[test]
fn create_keeps_a_template_under_its_name() {
    let mut store = TemplateStore::new();
    store.create(String::from("push"), vec![Exercises::BenchPress, Exercises::TricepDips]);
    store.create(String::from("legs"), vec![Exercises::Squat]);
    assert_eq!(store.len(), 2);
    assert!(store.contains("push"));
    assert_eq!(
        store.get("push"),
        Ok(&WorkoutTemplate::new(
            String::from("push"),
            vec![Exercises::BenchPress, Exercises::TricepDips]
        ))
    );
    assert_eq!(store.get("legs").unwrap().exercises, vec![Exercises::Squat]);
    assert_eq!(store.get("pull"), Err(TrackError::NotFound));
    assert_eq!(names(&store), vec!["push", "legs"]);
}

#[test]
fn create_under_a_name_in_use_replaces_and_does_not_merge() {
    let mut store = TemplateStore::new();
    store.create(String::from("push"), vec![Exercises::BenchPress, Exercises::TricepDips]);
    store.create(String::from("legs"), vec![Exercises::Squat]);
    store.create(String::from("push"), vec![Exercises::Deadlift]);
    assert_eq!(store.len(), 2);
    assert_eq!(store.get("push").unwrap().exercises, vec![Exercises::Deadlift]);
    assert_eq!(store.get("legs").unwrap().exercises, vec![Exercises::Squat]);
    assert_eq!(names(&store), vec!["push", "legs"]);
    store.create(String::from("push"), vec![]);
    assert!(store.get("push").unwrap().exercises.is_empty());
    assert_eq!(store.len(), 2);
}

#[test]
fn names_are_told_apart_exactly() {
    let mut store = TemplateStore::new();
    store.create(String::from("push"), vec![Exercises::BenchPress]);
    store.create(String::from("Push"), vec![Exercises::Squat]);
    store.create(String::from("push "), vec![Exercises::LegCurl]);
    store.create(String::new(), vec![Exercises::Deadlift]);
    assert_eq!(store.len(), 4);
    assert_eq!(store.get("push").unwrap().exercises, vec![Exercises::BenchPress]);
    assert_eq!(store.get("Push").unwrap().exercises, vec![Exercises::Squat]);
    assert_eq!(store.get("push ").unwrap().exercises, vec![Exercises::LegCurl]);
    assert_eq!(store.get("").unwrap().exercises, vec![Exercises::Deadlift]);
}

#[test]
fn add_exercise_to_puts_the_exercise_last() {
    let mut store = TemplateStore::new();
    store.create(String::from("push"), vec![Exercises::BenchPress]);
    store.create(String::from("legs"), vec![Exercises::Squat]);
    assert_eq!(store.add_exercise_to("push", Exercises::TricepDips), Ok(()));
    assert_eq!(store.add_exercise_to("push", Exercises::BenchPress), Ok(()));
    assert_eq!(
        store.get("push").unwrap().exercises,
        vec![Exercises::BenchPress, Exercises::TricepDips, Exercises::BenchPress]
    );
    assert_eq!(store.get("legs").unwrap().exercises, vec![Exercises::Squat]);
    assert_eq!(store.add_exercise_to("pull", Exercises::Deadlift), Err(TrackError::NotFound));
    assert_eq!(store.len(), 2);
}

#[test]
fn remove_exercise_at_takes_the_exercise_out() {
    let mut store = TemplateStore::new();
    store.create(
        String::from("legs"),
        vec![Exercises::Squat, Exercises::LegPress, Exercises::LegCurl],
    );
    assert!(store.has_exercise_at("legs", 2));
    assert!(!store.has_exercise_at("legs", 3));
    assert!(!store.has_exercise_at("arms", 0));
    assert_eq!(store.remove_exercise_at("legs", 1), Ok(()));
    assert_eq!(store.get("legs").unwrap().exercises, vec![Exercises::Squat, Exercises::LegCurl]);
    assert_eq!(store.remove_exercise_at("legs", 1), Ok(()));
    assert_eq!(store.remove_exercise_at("legs", 0), Ok(()));
    assert!(store.get("legs").unwrap().exercises.is_empty());
    assert!(store.contains("legs"));
    assert_eq!(store.remove_exercise_at("arms", 0), Err(TrackError::NotFound));
}

#[test]
fn a_copy_of_a_store_is_its_own() {
    let mut store = TemplateStore::new();
    store.create(String::from("push"), vec![Exercises::BenchPress]);
    let copy = store.clone();
    assert_eq!(copy, store);
    store.add_exercise_to("push", Exercises::Squat).unwrap();
    store.create(String::from("legs"), vec![]);
    assert_eq!(copy.len(), 1);
    assert_eq!(copy.get("push").unwrap().exercises, vec![Exercises::BenchPress]);
}

use fitness_tracker::calendar::{Date, TimeOfDay};
use fitness_tracker::error::TrackError;
use fitness_tracker::ledger::Ledger;
use fitness_tracker::nutrition::{Eat, Meal};

fn entry(calory: u32) -> Eat {
    Eat::new(TimeOfDay { seconds: 3600, nanos: 0 }, Meal::new(calory, 0, 0, 0))
}

fn calories(ledger: &Ledger<Eat>, date: Date) -> Vec<u32> {
    ledger.get(date).iter().map(|e| e.meal.calory).collect()
}

const D: Date = Date { days: 739_553 };
const E: Date = Date { days: 739_554 };

#[test]
fn a_new_ledger_has_no_days_and_no_entries() {
    let ledger: Ledger<Eat> = Ledger::new();
    assert!(!ledger.contains(D));
    assert_eq!(ledger.count(D), 0);
    assert!(ledger.get(D).is_empty());
    assert!(ledger.dates().is_empty());
}

#[test]
fn add_first_puts_the_latest_entry_first() {
    let mut ledger = Ledger::new();
    ledger.add_first(D, entry(1));
    ledger.add_first(D, entry(2));
    ledger.add_first(D, entry(3));
    assert_eq!(calories(&ledger, D), vec![3, 2, 1]);
    assert_eq!(ledger.count(D), 3);
    assert!(ledger.contains(D));
}

#[test]
fn add_last_puts_the_latest_entry_last() {
    let mut ledger = Ledger::new();
    ledger.add_last(D, entry(1));
    ledger.add_last(D, entry(2));
    ledger.add_last(D, entry(3));
    assert_eq!(calories(&ledger, D), vec![1, 2, 3]);
}

#[test]
fn entries_of_one_day_do_not_show_on_another() {
    let mut ledger = Ledger::new();
    ledger.add_first(D, entry(1));
    ledger.add_first(E, entry(2));
    ledger.add_last(E, entry(3));
    assert_eq!(calories(&ledger, D), vec![1]);
    assert_eq!(calories(&ledger, E), vec![2, 3]);
    assert!(ledger.get(Date { days: 0 }).is_empty());
    let mut dates = ledger.dates();
    dates.sort_by_key(|d| d.days);
    assert_eq!(dates, vec![D, E]);
}

#[test]
fn remove_at_on_an_unseen_day_is_not_found() {
    let mut ledger: Ledger<Eat> = Ledger::new();
    assert_eq!(ledger.remove_at(D, 0), Err(TrackError::NotFound));
    ledger.add_first(E, entry(1));
    assert_eq!(ledger.remove_at(D, 0), Err(TrackError::NotFound));
    assert!(!ledger.contains(D));
    assert_eq!(calories(&ledger, E), vec![1]);
}

#[test]
fn remove_at_past_the_end_is_out_of_range() {
    let mut ledger = Ledger::new();
    ledger.add_last(D, entry(1));
    ledger.add_last(D, entry(2));
    assert_eq!(ledger.remove_at(D, 2), Err(TrackError::IndexOutOfRange));
    assert_eq!(ledger.remove_at(D, 3), Err(TrackError::IndexOutOfRange));
    assert_eq!(ledger.remove_at(D, usize::MAX), Err(TrackError::IndexOutOfRange));
    assert_eq!(calories(&ledger, D), vec![1, 2]);
}

#[test]
fn remove_at_hands_back_the_entry_and_keeps_the_others_in_order() {
    let mut ledger = Ledger::new();
    ledger.add_last(D, entry(1));
    ledger.add_last(D, entry(2));
    ledger.add_last(D, entry(3));
    assert_eq!(ledger.remove_at(D, 1), Ok(entry(2)));
    assert_eq!(calories(&ledger, D), vec![1, 3]);
    assert_eq!(ledger.remove_at(D, 1), Ok(entry(3)));
    assert_eq!(calories(&ledger, D), vec![1]);
    assert_eq!(ledger.remove_at(D, 0), Ok(entry(1)));
    assert_eq!(ledger.count(D), 0);
}

#[test]
fn a_day_whose_entries_were_all_removed_keeps_an_empty_list() {
    let mut ledger = Ledger::new();
    ledger.add_first(D, entry(1));
    assert_eq!(ledger.remove_at(D, 0), Ok(entry(1)));
    assert!(ledger.contains(D));
    assert!(ledger.get(D).is_empty());
    assert_eq!(ledger.remove_at(D, 0), Err(TrackError::IndexOutOfRange));
    assert_eq!(ledger.dates(), vec![D]);
}

#[test]
fn set_only_replaces_what_the_day_holds() {
    let mut ledger = Ledger::new();
    ledger.set_only(D, entry(9));
    assert_eq!(calories(&ledger, D), vec![9]);
    ledger.add_last(D, entry(1));
    ledger.add_last(E, entry(5));
    ledger.set_only(D, entry(7));
    assert_eq!(calories(&ledger, D), vec![7]);
    assert_eq!(calories(&ledger, E), vec![5]);
}

#[test]
fn open_day_makes_an_empty_list_once() {
    let mut ledger: Ledger<Eat> = Ledger::new();
    ledger.open_day(D);
    assert!(ledger.contains(D));
    assert_eq!(ledger.count(D), 0);
    ledger.add_first(D, entry(4));
    ledger.open_day(D);
    assert_eq!(calories(&ledger, D), vec![4]);
}

#[test]
fn get_or_create_hands_out_the_list_of_the_day() {
    let mut ledger: Ledger<Eat> = Ledger::new();
    assert!(ledger.get_or_create(D).is_empty());
    assert!(ledger.contains(D));
    ledger.get_or_create(D).push(entry(1));
    ledger.get_or_create(D).push(entry(2));
    assert_eq!(calories(&ledger, D), vec![1, 2]);
    ledger.get_or_create(D).clear();
    assert_eq!(ledger.count(D), 0);
}

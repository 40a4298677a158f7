use fitness_tracker::summary::{percentage, remaining};

#[test]
fn percentage_is_the_share_rounded_down() {
    assert_eq!(percentage(0, 1000), 0);
    assert_eq!(percentage(150, 1000), 15);
    assert_eq!(percentage(1, 3), 33);
    assert_eq!(percentage(2, 3), 66);
    assert_eq!(percentage(999, 1000), 99);
    assert_eq!(percentage(1000, 1000), 100);
    assert_eq!(percentage(2500, 1000), 250);
    assert_eq!(percentage(29, 100), 29);
}

#[test]
fn percentage_of_a_goal_of_zero_is_zero() {
    assert_eq!(percentage(0, 0), 0);
    assert_eq!(percentage(1, 0), 0);
    assert_eq!(percentage(u32::MAX, 0), 0);
}

#[test]
fn percentage_does_not_overflow() {
    assert_eq!(percentage(u32::MAX, 1), 429_496_729_500);
    assert_eq!(percentage(u32::MAX, u32::MAX), 100);
    assert_eq!(percentage(1, u32::MAX), 0);
}

#[test]
fn remaining_is_what_is_left_of_the_goal() {
    assert_eq!(remaining(200, 15), 185);
    assert_eq!(remaining(200, 200), 0);
    assert_eq!(remaining(200, 201), 0);
    assert_eq!(remaining(0, 0), 0);
    assert_eq!(remaining(u32::MAX, 0), u32::MAX);
    assert_eq!(remaining(0, u32::MAX), 0);
}

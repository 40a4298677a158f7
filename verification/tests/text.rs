use fitness_tracker::text::{amount, or_zero};

#[test]
fn amount_reads_a_number() {
    assert_eq!(amount("0"), 0);
    assert_eq!(amount("42"), 42);
    assert_eq!(amount("4294967295"), u32::MAX);
    assert_eq!(amount("+7"), 7);
    assert_eq!(amount("007"), 7);
}

#[test]
fn amount_ignores_white_space_at_the_ends() {
    assert_eq!(amount(" 42 "), 42);
    assert_eq!(amount("\t250\n"), 250);
    assert_eq!(amount("   9"), 9);
}

#[test]
fn amount_is_zero_where_no_number_is_typed() {
    assert_eq!(amount(""), 0);
    assert_eq!(amount("   "), 0);
    assert_eq!(amount("abc"), 0);
    assert_eq!(amount("12a"), 0);
    assert_eq!(amount("1 2"), 0);
    assert_eq!(amount("1.5"), 0);
    assert_eq!(amount("1_000"), 0);
    assert_eq!(amount("-5"), 0);
    assert_eq!(amount("-0"), 0);
    assert_eq!(amount("+"), 0);
}

#[test]
fn amount_is_zero_where_the_number_does_not_fit() {
    assert_eq!(amount("4294967296"), 0);
    assert_eq!(amount("99999999999999999999"), 0);
}

#[test]
fn or_zero_falls_back_to_zero() {
    assert_eq!(or_zero(Some(17)), 17);
    assert_eq!(or_zero(Some(0)), 0);
    assert_eq!(or_zero(None), 0);
}

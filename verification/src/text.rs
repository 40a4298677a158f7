//! Amounts typed into the quick-add forms.
//!
//! A field that does not hold a number counts as zero: what was typed is
//! never a reason to refuse an entry.

use vstd::prelude::*;

verus! {

/// What `str::trim` leaves of a text: the text without the white space at
/// its two ends.
pub uninterp spec fn trimmed(text: Seq<char>) -> Seq<char>;

/// Whether `c` is one of the ten digits `0` to `9`.
pub open spec fn is_digit(c: char) -> bool {
    '0' <= c <= '9'
}

/// The number that a run of digits writes in decimal.
pub open spec fn decimal_value(digits: Seq<char>) -> nat
    decreases digits.len(),
{
    if digits.len() == 0 {
        0
    } else {
        decimal_value(digits.drop_last()) * 10 + (digits.last() as nat - '0' as nat) as nat
    }
}

/// What a text is without a plus sign at its start.
pub open spec fn unsigned_part(text: Seq<char>) -> Seq<char> {
    if text.len() > 0 && text[0] == '+' {
        text.drop_first()
    } else {
        text
    }
}

/// The number a text writes in decimal: the text is a plus sign, or none, and
/// then one digit or more and nothing else, and the number fits. `None` for
/// every other text.
pub open spec fn parsed_u32(text: Seq<char>) -> Option<u32> {
    let digits = unsigned_part(text);
    if digits.len() > 0 && (forall|i: int| 0 <= i < digits.len() ==> is_digit(#[trigger] digits[i]))
        && decimal_value(digits) <= u32::MAX {
        Some(decimal_value(digits) as u32)
    } else {
        None
    }
}

/// `str::trim`. Trusted: the result is std's, under the name [`trimmed`].
#[verifier::external_body]
fn trim(text: &str) -> (r: &str)
    ensures
        r@ == trimmed(text@),
{
    text.trim()
}

/// `str::parse::<u32>`, its error dropped. Trusted: std reads a number from
/// a text of an optional plus sign followed by digits only, and from no
/// other; it fails on a text without a digit and on a number that does not fit
/// ([`parsed_u32`]).
#[verifier::external_body]
fn parse_u32(text: &str) -> (r: Option<u32>)
    ensures
        r == parsed_u32(text@),
{
    match text.parse::<u32>() {
        Ok(number) => Some(number),
        Err(_) => None,
    }
}

/// The amount a reading stands for: its number, or zero where there is none.
pub open spec fn amount_or_zero(reading: Option<u32>) -> u32 {
    match reading {
        Some(amount) => amount,
        None => 0,
    }
}

/// The amount a typed text stands for: the number it holds between white
/// space, or zero where it holds none.
pub open spec fn amount_of(text: Seq<char>) -> u32 {
    amount_or_zero(parsed_u32(trimmed(text)))
}

/// The amount a reading stands for: its number, or zero where there is none.
pub fn or_zero(reading: Option<u32>) -> (r: u32)
    ensures
        r == amount_or_zero(reading),
{
    match reading {
        Some(amount) => amount,
        None => 0,
    }
}

/// The amount a typed text stands for: the number it holds between white
/// space, or zero where it holds none.
pub fn amount(text: &str) -> (r: u32)
    ensures
        r == amount_of(text@),
{
    or_zero(parse_u32(trim(text)))
}

} // verus!

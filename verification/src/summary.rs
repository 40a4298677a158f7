//! Totals of a day and their share of a goal.
//!
//! A summary is computed when it is asked for and overwrites what was
//! registered before. Nothing recomputes it by itself: whoever changes the
//! entries of the day on show asks for the summary again, in the same step.

use crate::calendar::Date;
use vstd::prelude::*;

verus! {

/// The sum of a list of amounts.
pub open spec fn total(amounts: Seq<u32>) -> nat
    decreases amounts.len(),
{
    if amounts.len() == 0 {
        0
    } else {
        total(amounts.drop_last()) + amounts.last() as nat
    }
}

/// The sum over the first `count + 1` amounts is the sum over the first
/// `count` and the next one, and no part of a list sums to more than the
/// whole.
pub proof fn lemma_total_step(amounts: Seq<u32>, count: int)
    requires
        0 <= count < amounts.len(),
    ensures
        total(amounts.take(count + 1)) == total(amounts.take(count)) + amounts[count],
        total(amounts.take(count + 1)) <= total(amounts),
    decreases amounts.len() - count,
{
    assert(amounts.take(count + 1).drop_last() =~= amounts.take(count));
    if count + 1 < amounts.len() {
        lemma_total_step(amounts, count + 1);
    } else {
        assert(amounts.take(count + 1) =~= amounts);
    }
}

/// Putting an amount before a list adds it to the sum.
pub proof fn lemma_total_insert_first(amounts: Seq<u32>, amount: u32)
    ensures
        total(amounts.insert(0, amount)) == total(amounts) + amount,
    decreases amounts.len(),
{
    let longer = amounts.insert(0, amount);
    if amounts.len() == 0 {
        assert(longer.drop_last() =~= amounts);
    } else {
        assert(longer.drop_last() =~= amounts.drop_last().insert(0, amount));
        lemma_total_insert_first(amounts.drop_last(), amount);
    }
}

/// Removing an amount from a list takes it off the sum.
pub proof fn lemma_total_remove(amounts: Seq<u32>, index: int)
    requires
        0 <= index < amounts.len(),
    ensures
        total(amounts.remove(index)) == total(amounts) - amounts[index],
    decreases amounts.len(),
{
    let shorter = amounts.remove(index);
    if index == amounts.len() - 1 {
        assert(shorter =~= amounts.drop_last());
    } else {
        assert(shorter.drop_last() =~= amounts.drop_last().remove(index));
        lemma_total_remove(amounts.drop_last(), index);
    }
}

/// The share of `goal` that `registered` makes up, in whole percent, rounded
/// down. A goal of zero counts as not begun: the share is zero.
pub open spec fn share_of(registered: u32, goal: u32) -> nat {
    if goal == 0 {
        0
    } else {
        (registered as nat * 100) / (goal as nat)
    }
}

/// What is left of `goal` once `registered` is taken off: zero where the
/// goal is met or passed.
pub open spec fn left_of(goal: u32, registered: u32) -> nat {
    if registered >= goal {
        0
    } else {
        (goal - registered) as nat
    }
}

/// The share of `goal` that `registered` makes up, in whole percent, rounded
/// down; zero for a goal of zero.
pub fn percentage(registered: u32, goal: u32) -> (r: u64)
    ensures
        r == share_of(registered, goal),
{
    if goal == 0 {
        0
    } else {
        registered as u64 * 100 / goal as u64
    }
}

/// What is left of `goal` once `registered` is taken off; zero where the
/// goal is met or passed.
pub fn remaining(goal: u32, registered: u32) -> (r: u32)
    ensures
        r == left_of(goal, registered),
{
    if registered >= goal {
        0
    } else {
        goal - registered
    }
}

/// A tracker whose registered totals are summed from the entries of one day.
pub trait Summary: View {
    /// Whether the totals of `day` fit the fields that hold them.
    spec fn summable(model: Self::V, day: Date) -> bool;

    /// The tracker after its totals were summed from the entries of `day`.
    spec fn summarized(model: Self::V, day: Date) -> Self::V;

    /// Overwrites the registered totals by the sums over the entries of the
    /// day: zeros where the day has none. The day must be given, and its sums
    /// must fit.
    fn summarize(&mut self, selected_day: Option<Date>)
        requires
            selected_day is Some,
            Self::summable(old(self)@, selected_day->0),
        ensures
            final(self)@ == Self::summarized(old(self)@, selected_day->0),
    ;
}

} // verus!

//! The day-indexed ledger: for each calendar day an ordered list of entries.
//!
//! The same ledger keeps meals, drinks and planned workouts. A day that was
//! never written to has no list; a day whose entries were all removed keeps
//! an empty one. Reading never tells the two apart: both show no entries.
//!
//! A ledger is seen as a map from days to lists of what its entries are
//! (their views), and each operation is stated as a function on such maps.

use crate::calendar::Date;
use crate::error::TrackError;
use std::collections::HashMap;
use vstd::prelude::*;
use vstd::std_specs::hash::spec_keys_iter;
use vstd::std_specs::iter::IteratorSpec;

verus! {

/// For each day that was written to, the list of its entries.
#[derive(Clone, Debug, PartialEq, Eq)]
pub struct Ledger<T: View> {
    days: HashMap<i32, Vec<T>>,
}

/// What each entry of a list is.
pub open spec fn views<T: View>(entries: Seq<T>) -> Seq<T::V> {
    Seq::new(entries.len(), |i: int| entries[i]@)
}

/// The entries a ledger holds on `date`: none where the day was never
/// written to.
pub open spec fn entries_on<E>(ledger: Map<Date, Seq<E>>, date: Date) -> Seq<E> {
    if ledger.contains_key(date) {
        ledger[date]
    } else {
        Seq::empty()
    }
}

/// The ledger after `date` was given a list, if it had none.
pub open spec fn with_day<E>(ledger: Map<Date, Seq<E>>, date: Date) -> Map<Date, Seq<E>> {
    ledger.insert(date, entries_on(ledger, date))
}

/// The ledger after `entry` was put before the entries of `date`.
pub open spec fn with_first<E>(ledger: Map<Date, Seq<E>>, date: Date, entry: E) -> Map<
    Date,
    Seq<E>,
> {
    ledger.insert(date, entries_on(ledger, date).insert(0, entry))
}

/// The ledger after `entry` was put behind the entries of `date`.
pub open spec fn with_last<E>(ledger: Map<Date, Seq<E>>, date: Date, entry: E) -> Map<
    Date,
    Seq<E>,
> {
    ledger.insert(date, entries_on(ledger, date).push(entry))
}

/// The ledger after the entries of `date` were replaced by `entry` alone.
pub open spec fn with_only<E>(ledger: Map<Date, Seq<E>>, date: Date, entry: E) -> Map<
    Date,
    Seq<E>,
> {
    ledger.insert(date, seq![entry])
}

/// Whether the entry at `index` of `date` can be removed, and if not, why:
/// `NotFound` where the day has no list, `IndexOutOfRange` where its list has
/// no such index.
pub open spec fn removal_check<E>(ledger: Map<Date, Seq<E>>, date: Date, index: int) -> Result<
    (),
    TrackError,
> {
    if !ledger.contains_key(date) {
        Err(TrackError::NotFound)
    } else if index < 0 || index >= ledger[date].len() {
        Err(TrackError::IndexOutOfRange)
    } else {
        Ok(())
    }
}

/// The ledger after the entry at `index` of `date` was removed; the ledger
/// itself where [`removal_check`] refuses.
pub open spec fn without<E>(ledger: Map<Date, Seq<E>>, date: Date, index: int) -> Map<
    Date,
    Seq<E>,
> {
    if removal_check(ledger, date, index) is Ok {
        ledger.insert(date, ledger[date].remove(index))
    } else {
        ledger
    }
}

impl<T: View> View for Ledger<T> {
    type V = Map<Date, Seq<T::V>>;

    closed spec fn view(&self) -> Map<Date, Seq<T::V>> {
        Map::new(
            |date: Date| self.days@.contains_key(date.days),
            |date: Date| views(self.days@[date.days]@),
        )
    }
}

impl<T: View> Ledger<T> {
    /// A ledger without any day.
    pub fn new() -> (r: Ledger<T>)
        ensures
            r@ == Map::<Date, Seq<T::V>>::empty(),
    {
        Ledger { days: HashMap::new() }
    }

    /// Whether `date` has a list, be it empty.
    pub fn contains(&self, date: Date) -> (r: bool)
        ensures
            r == self@.contains_key(date),
    {
        self.days.contains_key(&date.days)
    }

    /// The number of entries on `date`: zero where the day was never written
    /// to.
    pub fn count(&self, date: Date) -> (r: usize)
        ensures
            r == entries_on(self@, date).len(),
    {
        match self.days.get(&date.days) {
            Some(list) => list.len(),
            None => 0,
        }
    }

    /// The entries of `date`: none where the day was never written to.
    pub fn get(&self, date: Date) -> (r: &[T])
        ensures
            views(r@) == entries_on(self@, date),
    {
        match self.days.get(&date.days) {
            Some(list) => list.as_slice(),
            None => {
                let none: &[T] = &[];
                assert(views(none@) =~= entries_on(self@, date));
                none
            },
        }
    }

    /// The list of `date` to write to: an empty one is made where the day
    /// was never written to. What the caller leaves in the list is what the
    /// ledger then holds on `date`.
    pub fn get_or_create(&mut self, date: Date) -> (list: &mut Vec<T>)
        ensures
            views(list@) == entries_on(old(self)@, date),
            final(self)@ == old(self)@.insert(date, views(final(list)@)),
    {
        self.days.entry(date.days).or_insert(Vec::new())
    }

    /// Makes sure that `date` has a list: an empty one is made where the day
    /// was never written to, and nothing changes where it has one.
    pub fn open_day(&mut self, date: Date)
        ensures
            final(self)@ == with_day(old(self)@, date),
    {
        if !self.days.contains_key(&date.days) {
            self.days.insert(date.days, Vec::new());
        }
        assert(views(Seq::<T>::empty()) =~= Seq::<T::V>::empty());
    }

    /// Puts `entry` before the entries of `date`. A day that was never
    /// written to gets its list by this.
    pub fn add_first(&mut self, date: Date, entry: T)
        ensures
            final(self)@ == with_first(old(self)@, date, entry@),
    {
        let list = self.get_or_create(date);
        let ghost before = list@;
        list.insert(0, entry);
        assert(views(before.insert(0, entry)) =~= views(before).insert(0, entry@));
    }

    /// Puts `entry` behind the entries of `date`. A day that was never
    /// written to gets its list by this.
    pub fn add_last(&mut self, date: Date, entry: T)
        ensures
            final(self)@ == with_last(old(self)@, date, entry@),
    {
        let list = self.get_or_create(date);
        let ghost before = list@;
        list.push(entry);
        assert(views(before.push(entry)) =~= views(before).push(entry@));
    }

    /// Replaces whatever `date` holds by `entry` alone.
    pub fn set_only(&mut self, date: Date, entry: T)
        ensures
            final(self)@ == with_only(old(self)@, date, entry@),
    {
        let list = self.get_or_create(date);
        list.clear();
        list.push(entry);
        assert(views(seq![entry]) =~= seq![entry@]);
    }

    /// Removes the entry at `index` of `date` and hands it back. Fails with
    /// `NotFound` where the day has no list, and with `IndexOutOfRange` where
    /// the list has no such index; the ledger is then unchanged. A list whose
    /// last entry leaves stays, empty.
    pub fn remove_at(&mut self, date: Date, index: usize) -> (r: Result<T, TrackError>)
        ensures
            final(self)@ == without(old(self)@, date, index as int),
            match r {
                Ok(entry) => removal_check(old(self)@, date, index as int) is Ok && entry@ == old(
                    self,
                )@[date][index as int],
                Err(e) => removal_check(old(self)@, date, index as int) == Err::<(), TrackError>(e),
            },
    {
        match self.days.get(&date.days) {
            None => {
                return Err(TrackError::NotFound);
            },
            Some(list) => {
                if index >= list.len() {
                    return Err(TrackError::IndexOutOfRange);
                }
            },
        }
        let list = self.get_or_create(date);
        let ghost before = list@;
        let entry = list.remove(index);
        assert(views(before.remove(index as int)) =~= views(before).remove(index as int));
        Ok(entry)
    }

    /// The days that have a list, each once, in no particular order.
    pub fn dates(&self) -> (r: Vec<Date>)
        ensures
            r@.no_duplicates(),
            r@.to_set() == self@.dom(),
    {
        let mut r: Vec<Date> = Vec::new();
        let ghost keys = spec_keys_iter(&self.days).remaining();
        for key in it: self.days.keys()
            invariant
                it.seq() == keys,
                r@.len() == it.index(),
                forall|j: int| 0 <= j < r@.len() ==> (#[trigger] r@[j]).days == *keys[j],
        {
            r.push(Date { days: *key });
        }
        proof {
            assert forall|i: int, j: int|
                0 <= i < r@.len() && 0 <= j < r@.len() && i != j implies r@[i] != r@[j] by {
                assert(keys[i] != keys[j]);
            }
            assert forall|date: Date|
                r@.to_set().contains(date) <==> self@.dom().contains(date) by {
                if r@.contains(date) {
                    let i = choose|i: int| 0 <= i < r@.len() && r@[i] == date;
                    assert(keys.unref()[i] == date.days);
                    assert(keys.unref().to_set().contains(date.days));
                }
                if self@.dom().contains(date) {
                    assert(keys.unref().to_set().contains(date.days));
                    let i = choose|i: int|
                        0 <= i < keys.unref().len() && keys.unref()[i] == date.days;
                    assert(r@[i] == date);
                }
            }
        }
        r
    }
}

/// Removing at the length of a day's list is refused as out of range, and
/// removing at the index before it succeeds and leaves the list one shorter,
/// its other entries in place.
pub proof fn lemma_removal_boundary<E>(ledger: Map<Date, Seq<E>>, date: Date)
    requires
        ledger.contains_key(date),
    ensures
        removal_check(ledger, date, ledger[date].len() as int) == Err::<(), TrackError>(
            TrackError::IndexOutOfRange,
        ),
        without(ledger, date, ledger[date].len() as int) == ledger,
        ledger[date].len() > 0 ==> {
            let last = ledger[date].len() - 1;
            &&& removal_check(ledger, date, last) is Ok
            &&& entries_on(without(ledger, date, last), date) == ledger[date].drop_last()
            &&& entries_on(without(ledger, date, last), date).len() == ledger[date].len() - 1
        },
{
    if ledger[date].len() > 0 {
        let last = ledger[date].len() - 1;
        assert(ledger[date].remove(last) =~= ledger[date].drop_last());
    }
}

/// A day that was never written to has no entries to remove: every removal
/// on it is refused as not found.
pub proof fn lemma_removal_on_unseen_day<E>(ledger: Map<Date, Seq<E>>, date: Date, index: int)
    requires
        !ledger.contains_key(date),
    ensures
        removal_check(ledger, date, index) == Err::<(), TrackError>(TrackError::NotFound),
        without(ledger, date, index) == ledger,
        entries_on(ledger, date).len() == 0,
{
}

/// What was put first is read first, what was put last is read last, and a
/// removal takes back an addition: the list of the day is as it was.
pub proof fn lemma_add_then_remove<E>(ledger: Map<Date, Seq<E>>, date: Date, entry: E)
    ensures
        entries_on(with_first(ledger, date, entry), date).first() == entry,
        entries_on(with_last(ledger, date, entry), date).last() == entry,
        entries_on(with_first(ledger, date, entry), date).len() == entries_on(ledger, date).len()
            + 1,
        entries_on(with_last(ledger, date, entry), date).len() == entries_on(ledger, date).len()
            + 1,
        without(with_first(ledger, date, entry), date, 0) == with_day(ledger, date),
        without(
            with_last(ledger, date, entry),
            date,
            entries_on(ledger, date).len() as int,
        ) == with_day(ledger, date),
{
    let list = entries_on(ledger, date);
    assert(list.insert(0, entry).remove(0) =~= list);
    assert(list.push(entry).remove(list.len() as int) =~= list);
}

/// An operation on one day leaves the entries of every other day as they
/// were.
pub proof fn lemma_other_days<E>(
    ledger: Map<Date, Seq<E>>,
    date: Date,
    other: Date,
    entry: E,
    index: int,
)
    requires
        other != date,
    ensures
        entries_on(with_day(ledger, date), other) == entries_on(ledger, other),
        entries_on(with_first(ledger, date, entry), other) == entries_on(ledger, other),
        entries_on(with_last(ledger, date, entry), other) == entries_on(ledger, other),
        entries_on(with_only(ledger, date, entry), other) == entries_on(ledger, other),
        entries_on(without(ledger, date, index), other) == entries_on(ledger, other),
{
}

} // verus!

//! Meals: what was eaten on each day, the goals for calories, protein,
//! carbohydrate and fat, and what is registered of each.

use crate::calendar::{Date, TimeOfDay};
use crate::error::TrackError;
use crate::ledger::{entries_on, removal_check, views, with_first, without, Ledger};
use crate::summary::{
    lemma_total_insert_first, lemma_total_remove, lemma_total_step, percentage, share_of, total,
    Summary,
};
use crate::text::{amount, amount_of};
use vstd::prelude::*;
use vstd::string::StringExecFns;

verus! {

/// What a meal holds: its calories and its grams of protein, carbohydrate and
/// fat.
#[derive(Clone, Debug, PartialEq, Eq)]
pub struct Meal {
    pub name: String,
    pub calory: u32,
    pub protein: u32,
    pub carb: u32,
    pub fat: u32,
}

/// What a meal is.
pub struct MealView {
    pub name: Seq<char>,
    pub calory: u32,
    pub protein: u32,
    pub carb: u32,
    pub fat: u32,
}

impl View for Meal {
    type V = MealView;

    open spec fn view(&self) -> MealView {
        MealView {
            name: self.name@,
            calory: self.calory,
            protein: self.protein,
            carb: self.carb,
            fat: self.fat,
        }
    }
}

/// The meal that [`Meal::new`] makes of four amounts: it is called "Meal".
pub open spec fn meal_of(calory: u32, protein: u32, carb: u32, fat: u32) -> MealView {
    MealView { name: "Meal"@, calory, protein, carb, fat }
}

impl Meal {
    /// A meal of the given amounts, under the name "Meal".
    pub fn new(calory: u32, protein: u32, carb: u32, fat: u32) -> (r: Meal)
        ensures
            r@ == meal_of(calory, protein, carb, fat),
    {
        Meal { name: String::from_str("Meal"), calory, protein, carb, fat }
    }
}

/// A meal and the time of day at which it was eaten.
#[derive(Clone, Debug, PartialEq, Eq)]
pub struct Eat {
    pub date: TimeOfDay,
    pub meal: Meal,
}

/// What an entry of the meal ledger is.
pub struct EatView {
    pub date: TimeOfDay,
    pub meal: MealView,
}

impl View for Eat {
    type V = EatView;

    open spec fn view(&self) -> EatView {
        EatView { date: self.date, meal: self.meal@ }
    }
}

impl Eat {
    /// The entry for `meal`, eaten at `date`.
    pub fn new(date: TimeOfDay, meal: Meal) -> (r: Eat)
        ensures
            r@ == (EatView { date, meal: meal@ }),
    {
        Eat { date, meal }
    }
}

/// The calories of each entry.
pub open spec fn calories(entries: Seq<EatView>) -> Seq<u32> {
    Seq::new(entries.len(), |i: int| entries[i].meal.calory)
}

/// The protein of each entry.
pub open spec fn proteins(entries: Seq<EatView>) -> Seq<u32> {
    Seq::new(entries.len(), |i: int| entries[i].meal.protein)
}

/// The carbohydrate of each entry.
pub open spec fn carbs(entries: Seq<EatView>) -> Seq<u32> {
    Seq::new(entries.len(), |i: int| entries[i].meal.carb)
}

/// The fat of each entry.
pub open spec fn fats(entries: Seq<EatView>) -> Seq<u32> {
    Seq::new(entries.len(), |i: int| entries[i].meal.fat)
}

/// A change to the meals of a day: a meal put before the others, or the meal
/// at an index taken out. A removal that is refused changes nothing.
pub enum MealChange {
    Add(EatView),
    RemoveAt(int),
}

/// The four sums over the meals of a day.
#[derive(Clone, Copy, Debug, PartialEq, Eq, Structural)]
pub struct MacroTotals {
    pub calory: u32,
    pub protein: u32,
    pub carb: u32,
    pub fat: u32,
}

/// Whether each of the four sums over the entries fits its field.
pub open spec fn totals_fit(entries: Seq<EatView>) -> bool {
    &&& total(calories(entries)) <= u32::MAX
    &&& total(proteins(entries)) <= u32::MAX
    &&& total(carbs(entries)) <= u32::MAX
    &&& total(fats(entries)) <= u32::MAX
}

/// The four sums over the entries.
pub open spec fn totals_of(entries: Seq<EatView>) -> MacroTotals {
    MacroTotals {
        calory: total(calories(entries)) as u32,
        protein: total(proteins(entries)) as u32,
        carb: total(carbs(entries)) as u32,
        fat: total(fats(entries)) as u32,
    }
}

/// The four sums over a list of entries, or `None` where one of them does
/// not fit.
pub fn sum_meals(entries: &[Eat]) -> (r: Option<MacroTotals>)
    ensures
        r is Some <==> totals_fit(views(entries@)),
        r matches Some(totals) ==> totals == totals_of(views(entries@)),
{
    let ghost all = views(entries@);
    let mut calory: u32 = 0;
    let mut protein: u32 = 0;
    let mut carb: u32 = 0;
    let mut fat: u32 = 0;
    let mut i: usize = 0;
    while i < entries.len()
        invariant
            i <= entries.len(),
            all == views(entries@),
            calory == total(calories(all).take(i as int)),
            protein == total(proteins(all).take(i as int)),
            carb == total(carbs(all).take(i as int)),
            fat == total(fats(all).take(i as int)),
        decreases entries.len() - i,
    {
        proof {
            lemma_total_step(calories(all), i as int);
            lemma_total_step(proteins(all), i as int);
            lemma_total_step(carbs(all), i as int);
            lemma_total_step(fats(all), i as int);
        }
        let meal = &entries[i].meal;
        let sums = (
            calory.checked_add(meal.calory),
            protein.checked_add(meal.protein),
            carb.checked_add(meal.carb),
            fat.checked_add(meal.fat),
        );
        match sums {
            (Some(c), Some(p), Some(b), Some(f)) => {
                calory = c;
                protein = p;
                carb = b;
                fat = f;
            },
            _ => {
                return None;
            },
        }
        i = i + 1;
    }
    proof {
        assert(calories(all).take(i as int) =~= calories(all));
        assert(proteins(all).take(i as int) =~= proteins(all));
        assert(carbs(all).take(i as int) =~= carbs(all));
        assert(fats(all).take(i as int) =~= fats(all));
    }
    Some(MacroTotals { calory, protein, carb, fat })
}

/// The meal ledger with its goals and with what is registered against them.
#[derive(Clone, Debug, PartialEq, Eq)]
pub struct MacroData {
    pub meal_history: Ledger<Eat>,
    pub calory_goal: u32,
    pub protein_goal: u32,
    pub carb_goal: u32,
    pub fat_goal: u32,
    pub calory_registered: u32,
    pub protein_registered: u32,
    pub carb_registered: u32,
    pub fat_registered: u32,
    pub meal_registered: u32,
}

/// What the meal tracker is.
pub struct MacroView {
    pub meal_history: Map<Date, Seq<EatView>>,
    pub calory_goal: u32,
    pub protein_goal: u32,
    pub carb_goal: u32,
    pub fat_goal: u32,
    pub calory_registered: u32,
    pub protein_registered: u32,
    pub carb_registered: u32,
    pub fat_registered: u32,
    pub meal_registered: u32,
}

impl View for MacroData {
    type V = MacroView;

    open spec fn view(&self) -> MacroView {
        MacroView {
            meal_history: self.meal_history@,
            calory_goal: self.calory_goal,
            protein_goal: self.protein_goal,
            carb_goal: self.carb_goal,
            fat_goal: self.fat_goal,
            calory_registered: self.calory_registered,
            protein_registered: self.protein_registered,
            carb_registered: self.carb_registered,
            fat_registered: self.fat_registered,
            meal_registered: self.meal_registered,
        }
    }
}

impl MacroView {
    /// The tracker a new user starts with: two meals on `today`, eaten at
    /// `time`, the default goals, and nothing registered.
    pub open spec fn seeded(today: Date, time: TimeOfDay) -> MacroView {
        MacroView {
            meal_history: Map::<Date, Seq<EatView>>::empty().insert(
                today,
                seq![
                    EatView { date: time, meal: meal_of(100, 100, 100, 100) },
                    EatView { date: time, meal: meal_of(10, 10, 10, 10) },
                ],
            ),
            calory_goal: 1000,
            protein_goal: 200,
            carb_goal: 90,
            fat_goal: 50,
            calory_registered: 0,
            protein_registered: 0,
            carb_registered: 0,
            fat_registered: 0,
            meal_registered: 0,
        }
    }

    /// The meals of `day`, the latest first.
    pub open spec fn meals_on(self, day: Date) -> Seq<EatView> {
        entries_on(self.meal_history, day)
    }

    /// The four totals that are registered.
    pub open spec fn registered(self) -> MacroTotals {
        MacroTotals {
            calory: self.calory_registered,
            protein: self.protein_registered,
            carb: self.carb_registered,
            fat: self.fat_registered,
        }
    }

    /// The tracker with `totals` registered in place of what was.
    pub open spec fn with_registered(self, totals: MacroTotals) -> MacroView {
        MacroView {
            calory_registered: totals.calory,
            protein_registered: totals.protein,
            carb_registered: totals.carb,
            fat_registered: totals.fat,
            ..self
        }
    }

    /// Whether the sums over the meals of `day` fit the registered fields.
    pub open spec fn summable(self, day: Date) -> bool {
        totals_fit(self.meals_on(day))
    }

    /// The tracker after the sums over the meals of `day` were registered.
    pub open spec fn summarized(self, day: Date) -> MacroView {
        self.with_registered(totals_of(self.meals_on(day)))
    }

    /// Whether what is registered is the sums over the meals of `day`.
    pub open spec fn shows(self, day: Date) -> bool {
        self.summable(day) && self.registered() == totals_of(self.meals_on(day))
    }

    /// The tracker after `entry` was put before the meals of `day`.
    pub open spec fn with_meal(self, day: Date, entry: EatView) -> MacroView {
        MacroView { meal_history: with_first(self.meal_history, day, entry), ..self }
    }

    /// The tracker after the meal at `index` of `day` was removed.
    pub open spec fn without_meal(self, day: Date, index: int) -> MacroView {
        MacroView { meal_history: without(self.meal_history, day, index), ..self }
    }

    /// The tracker after one change to the meals of `day`.
    pub open spec fn changed(self, day: Date, change: MealChange) -> MacroView {
        match change {
            MealChange::Add(entry) => self.with_meal(day, entry),
            MealChange::RemoveAt(index) => self.without_meal(day, index),
        }
    }

    /// The tracker after a run of changes to the meals of `day`, made in
    /// their order.
    pub open spec fn after(self, day: Date, changes: Seq<MealChange>) -> MacroView
        decreases changes.len(),
    {
        if changes.len() == 0 {
            self
        } else {
            self.after(day, changes.drop_last()).changed(day, changes.last())
        }
    }

    /// The tracker after the first meal of `day` was removed `count` times.
    pub open spec fn cleared(self, day: Date, count: nat) -> MacroView
        decreases count,
    {
        if count == 0 {
            self
        } else {
            self.without_meal(day, 0).cleared(day, (count - 1) as nat)
        }
    }

    /// Whether the four amounts can be added to what is registered.
    pub open spec fn can_register(self, calory: u32, protein: u32, carb: u32, fat: u32) -> bool {
        &&& self.calory_registered + calory <= u32::MAX
        &&& self.protein_registered + protein <= u32::MAX
        &&& self.carb_registered + carb <= u32::MAX
        &&& self.fat_registered + fat <= u32::MAX
    }

    /// The tracker after the four amounts were added to what is registered.
    pub open spec fn registered_more(
        self,
        calory: u32,
        protein: u32,
        carb: u32,
        fat: u32,
    ) -> MacroView {
        self.with_registered(
            MacroTotals {
                calory: (self.calory_registered + calory) as u32,
                protein: (self.protein_registered + protein) as u32,
                carb: (self.carb_registered + carb) as u32,
                fat: (self.fat_registered + fat) as u32,
            },
        )
    }
}

impl MacroData {
    /// The tracker a new user starts with, its two first meals entered on
    /// `today` at `time`.
    pub fn default(today: Date, time: TimeOfDay) -> (r: MacroData)
        ensures
            r@ == MacroView::seeded(today, time),
    {
        let mut meal_history: Ledger<Eat> = Ledger::new();
        meal_history.add_first(today, Eat::new(time, Meal::new(10, 10, 10, 10)));
        meal_history.add_first(today, Eat::new(time, Meal::new(100, 100, 100, 100)));
        assert(meal_history@ =~~= MacroView::seeded(today, time).meal_history);
        MacroData {
            meal_history,
            calory_goal: 1000,
            protein_goal: 200,
            carb_goal: 90,
            fat_goal: 50,
            calory_registered: 0,
            protein_registered: 0,
            carb_registered: 0,
            fat_registered: 0,
            meal_registered: 0,
        }
    }

    /// Adds the four amounts to what is registered; they must fit.
    pub fn register(&mut self, calory: u32, protein: u32, carb: u32, fat: u32)
        requires
            old(self)@.can_register(calory, protein, carb, fat),
        ensures
            final(self)@ == old(self)@.registered_more(calory, protein, carb, fat),
    {
        self.calory_registered = self.calory_registered + calory;
        self.protein_registered = self.protein_registered + protein;
        self.carb_registered = self.carb_registered + carb;
        self.fat_registered = self.fat_registered + fat;
    }

    /// Adds the four amounts to what is registered and says so; where one of
    /// the sums would not fit, nothing is added and the answer is `false`.
    pub fn register_checked(&mut self, calory: u32, protein: u32, carb: u32, fat: u32) -> (r: bool)
        ensures
            r == old(self)@.can_register(calory, protein, carb, fat),
            final(self)@ == if r {
                old(self)@.registered_more(calory, protein, carb, fat)
            } else {
                old(self)@
            },
    {
        let fits = self.calory_registered <= u32::MAX - calory
            && self.protein_registered <= u32::MAX - protein
            && self.carb_registered <= u32::MAX - carb
            && self.fat_registered <= u32::MAX - fat;
        if fits {
            self.register(calory, protein, carb, fat);
        }
        fits
    }

    /// Adds what the four typed texts stand for to what is registered and
    /// says so. A text that holds no number counts as zero. Where one of the
    /// sums would not fit, nothing is added and the answer is `false`.
    pub fn update(&mut self, calory: &str, protein: &str, carb: &str, fat: &str) -> (r: bool)
        ensures
            r == old(self)@.can_register(
                amount_of(calory@),
                amount_of(protein@),
                amount_of(carb@),
                amount_of(fat@),
            ),
            final(self)@ == if r {
                old(self)@.registered_more(
                    amount_of(calory@),
                    amount_of(protein@),
                    amount_of(carb@),
                    amount_of(fat@),
                )
            } else {
                old(self)@
            },
    {
        self.register_checked(amount(calory), amount(protein), amount(carb), amount(fat))
    }

    /// Puts `entry` before the meals of `selected_date`.
    pub fn log_meal(&mut self, selected_date: Date, entry: Eat)
        ensures
            final(self)@ == old(self)@.with_meal(selected_date, entry@),
    {
        self.meal_history.add_first(selected_date, entry);
    }

    /// Enters a meal of what the four typed texts stand for before the meals
    /// of `selected_date`, as eaten at `time`. A text that holds no number
    /// counts as zero.
    pub fn add_meal(
        &mut self,
        selected_date: Date,
        time: TimeOfDay,
        calory: &str,
        protein: &str,
        carb: &str,
        fat: &str,
    )
        ensures
            final(self)@ == old(self)@.with_meal(
                selected_date,
                typed_meal(time, calory@, protein@, carb@, fat@),
            ),
    {
        let meal = Meal::new(amount(calory), amount(protein), amount(carb), amount(fat));
        self.log_meal(selected_date, Eat::new(time, meal));
    }

    /// Removes the meal at `index` of `date` and hands it back; `NotFound`
    /// where the day has no list, `IndexOutOfRange` where its list has no such
    /// index, and nothing changed in both cases.
    pub fn remove_meal(&mut self, date: Date, index: usize) -> (r: Result<Eat, TrackError>)
        ensures
            final(self)@ == old(self)@.without_meal(date, index as int),
            match r {
                Ok(entry) => removal_check(old(self)@.meal_history, date, index as int) is Ok
                    && entry@ == old(self)@.meal_history[date][index as int],
                Err(e) => removal_check(old(self)@.meal_history, date, index as int) == Err::<
                    (),
                    TrackError,
                >(e),
            },
    {
        self.meal_history.remove_at(date, index)
    }

    /// The four sums over the meals of `day`, or `None` where one of them
    /// does not fit.
    pub fn totals_on(&self, day: Date) -> (r: Option<MacroTotals>)
        ensures
            r is Some <==> self@.summable(day),
            r matches Some(totals) ==> totals == totals_of(self@.meals_on(day)),
    {
        sum_meals(self.meal_history.get(day))
    }

    /// Whether the sums over the meals of `day` fit: what
    /// [`Summary::summarize`] asks of its caller.
    pub fn is_summable(&self, day: Date) -> (r: bool)
        ensures
            r == self@.summable(day),
    {
        self.totals_on(day).is_some()
    }

    /// Registers the sums over the meals of `day` and says so; where one of
    /// them does not fit, nothing changes and the answer is `false`.
    pub fn try_summarize(&mut self, day: Date) -> (r: bool)
        ensures
            r == old(self)@.summable(day),
            final(self)@ == if r {
                old(self)@.summarized(day)
            } else {
                old(self)@
            },
    {
        if self.is_summable(day) {
            self.summarize(Some(day));
            true
        } else {
            false
        }
    }

    /// The share of the calorie goal that is registered, in whole percent.
    pub fn calory_percent(&self) -> (r: u64)
        ensures
            r == share_of(self.calory_registered, self.calory_goal),
    {
        percentage(self.calory_registered, self.calory_goal)
    }

    /// The share of the protein goal that is registered, in whole percent.
    pub fn protein_percent(&self) -> (r: u64)
        ensures
            r == share_of(self.protein_registered, self.protein_goal),
    {
        percentage(self.protein_registered, self.protein_goal)
    }

    /// The share of the carbohydrate goal that is registered, in whole
    /// percent.
    pub fn carb_percent(&self) -> (r: u64)
        ensures
            r == share_of(self.carb_registered, self.carb_goal),
    {
        percentage(self.carb_registered, self.carb_goal)
    }

    /// The share of the fat goal that is registered, in whole percent.
    pub fn fat_percent(&self) -> (r: u64)
        ensures
            r == share_of(self.fat_registered, self.fat_goal),
    {
        percentage(self.fat_registered, self.fat_goal)
    }
}

/// The entry that [`MacroData::add_meal`] makes of four typed texts at
/// `time`.
pub open spec fn typed_meal(
    time: TimeOfDay,
    calory: Seq<char>,
    protein: Seq<char>,
    carb: Seq<char>,
    fat: Seq<char>,
) -> EatView {
    EatView {
        date: time,
        meal: meal_of(amount_of(calory), amount_of(protein), amount_of(carb), amount_of(fat)),
    }
}

impl Summary for MacroData {
    open spec fn summable(model: MacroView, day: Date) -> bool {
        model.summable(day)
    }

    open spec fn summarized(model: MacroView, day: Date) -> MacroView {
        model.summarized(day)
    }

    /// Overwrites the four registered totals by the sums over the meals of
    /// the day: zeros where the day has none.
    fn summarize(&mut self, selected_day: Option<Date>) {
        let day = selected_day.unwrap();
        match self.totals_on(day) {
            Some(totals) => {
                self.calory_registered = totals.calory;
                self.protein_registered = totals.protein;
                self.carb_registered = totals.carb;
                self.fat_registered = totals.fat;
            },
            None => {},
        }
    }
}

/// After a summary of a day, what is registered is the exact sums over the
/// meals that the ledger holds on that day; the meals themselves and the goals
/// are as they were, and a second summary changes nothing.
pub proof fn lemma_summary_is_exact(tracker: MacroView, day: Date)
    requires
        tracker.summable(day),
    ensures
        tracker.summarized(day).calory_registered == total(calories(tracker.meals_on(day))),
        tracker.summarized(day).protein_registered == total(proteins(tracker.meals_on(day))),
        tracker.summarized(day).carb_registered == total(carbs(tracker.meals_on(day))),
        tracker.summarized(day).fat_registered == total(fats(tracker.meals_on(day))),
        tracker.summarized(day).meal_history == tracker.meal_history,
        tracker.summarized(day).shows(day),
        tracker.summarized(day).summarized(day) == tracker.summarized(day),
{
}

/// Whatever run of additions and removals the meals of a day went through,
/// a summary of that day registers the exact sums over the meals that the
/// ledger holds on it then.
pub proof fn lemma_summary_after_changes(tracker: MacroView, day: Date, changes: Seq<MealChange>)
    requires
        tracker.after(day, changes).summable(day),
    ensures
        ({
            let changed = tracker.after(day, changes);
            let shown = changed.summarized(day);
            &&& shown.meals_on(day) == changed.meals_on(day)
            &&& shown.calory_registered == total(calories(shown.meals_on(day)))
            &&& shown.protein_registered == total(proteins(shown.meals_on(day)))
            &&& shown.carb_registered == total(carbs(shown.meals_on(day)))
            &&& shown.fat_registered == total(fats(shown.meals_on(day)))
        }),
{
    lemma_summary_is_exact(tracker.after(day, changes), day);
}

/// The sums over the meals of a day follow each change: a meal that is added
/// adds its four amounts, a meal that is removed takes them off, and a
/// removal that is refused leaves the sums as they were.
pub proof fn lemma_totals_follow_change(tracker: MacroView, day: Date, change: MealChange)
    ensures
        ({
            let before = tracker.meals_on(day);
            let after = tracker.changed(day, change).meals_on(day);
            match change {
                MealChange::Add(entry) => {
                    &&& total(calories(after)) == total(calories(before)) + entry.meal.calory
                    &&& total(proteins(after)) == total(proteins(before)) + entry.meal.protein
                    &&& total(carbs(after)) == total(carbs(before)) + entry.meal.carb
                    &&& total(fats(after)) == total(fats(before)) + entry.meal.fat
                },
                MealChange::RemoveAt(index) => {
                    let gone = before[index].meal;
                    if removal_check(tracker.meal_history, day, index) is Ok {
                        &&& total(calories(after)) == total(calories(before)) - gone.calory
                        &&& total(proteins(after)) == total(proteins(before)) - gone.protein
                        &&& total(carbs(after)) == total(carbs(before)) - gone.carb
                        &&& total(fats(after)) == total(fats(before)) - gone.fat
                    } else {
                        after == before
                    }
                },
            }
        }),
{
    let before = tracker.meals_on(day);
    let after = tracker.changed(day, change).meals_on(day);
    match change {
        MealChange::Add(entry) => {
            assert(after =~= before.insert(0, entry));
            assert(calories(after) =~= calories(before).insert(0, entry.meal.calory));
            assert(proteins(after) =~= proteins(before).insert(0, entry.meal.protein));
            assert(carbs(after) =~= carbs(before).insert(0, entry.meal.carb));
            assert(fats(after) =~= fats(before).insert(0, entry.meal.fat));
            lemma_total_insert_first(calories(before), entry.meal.calory);
            lemma_total_insert_first(proteins(before), entry.meal.protein);
            lemma_total_insert_first(carbs(before), entry.meal.carb);
            lemma_total_insert_first(fats(before), entry.meal.fat);
        },
        MealChange::RemoveAt(index) => {
            if removal_check(tracker.meal_history, day, index) is Ok {
                assert(after =~= before.remove(index));
                assert(calories(after) =~= calories(before).remove(index));
                assert(proteins(after) =~= proteins(before).remove(index));
                assert(carbs(after) =~= carbs(before).remove(index));
                assert(fats(after) =~= fats(before).remove(index));
                lemma_total_remove(calories(before), index);
                lemma_total_remove(proteins(before), index);
                lemma_total_remove(carbs(before), index);
                lemma_total_remove(fats(before), index);
            }
        },
    }
}

/// The summary of a day without meals registers zero four times: be it a day
/// that was never written to, or one whose meals were all removed.
pub proof fn lemma_summary_of_empty_day(tracker: MacroView, day: Date)
    requires
        tracker.meals_on(day).len() == 0,
    ensures
        tracker.summable(day),
        tracker.summarized(day).registered() == (MacroTotals {
            calory: 0,
            protein: 0,
            carb: 0,
            fat: 0,
        }),
{
    let none = tracker.meals_on(day);
    assert(calories(none) =~= Seq::<u32>::empty());
    assert(proteins(none) =~= Seq::<u32>::empty());
    assert(carbs(none) =~= Seq::<u32>::empty());
    assert(fats(none) =~= Seq::<u32>::empty());
}

/// Removing the first meal of a day as often as the day has meals leaves none.
pub proof fn lemma_cleared(tracker: MacroView, day: Date, count: nat)
    requires
        count <= tracker.meals_on(day).len(),
    ensures
        tracker.cleared(day, count).meals_on(day).len() == tracker.meals_on(day).len() - count,
    decreases count,
{
    if count > 0 {
        lemma_cleared(tracker.without_meal(day, 0), day, (count - 1) as nat);
    }
}

/// Once the meals of a day were all removed, however many there were and
/// whatever was registered, the summary of that day registers zero four
/// times.
pub proof fn lemma_summary_after_removing_all(tracker: MacroView, day: Date)
    ensures
        ({
            let emptied = tracker.cleared(day, tracker.meals_on(day).len());
            &&& emptied.meals_on(day).len() == 0
            &&& emptied.summable(day)
            &&& emptied.summarized(day).registered() == (MacroTotals {
                calory: 0,
                protein: 0,
                carb: 0,
                fat: 0,
            })
        }),
{
    lemma_cleared(tracker, day, tracker.meals_on(day).len());
    lemma_summary_of_empty_day(tracker.cleared(day, tracker.meals_on(day).len()), day);
}

} // verus!

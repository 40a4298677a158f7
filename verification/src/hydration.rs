//! Drinks: what was drunk on each day, how much of it counts as water, the
//! goal and what is registered against it.

use crate::calendar::{Date, TimeOfDay};
use crate::error::TrackError;
use crate::ledger::{entries_on, removal_check, views, with_first, without, Ledger};
use crate::summary::{lemma_total_step, percentage, share_of, total, Summary};
use crate::text::{amount, amount_of};
use vstd::prelude::*;
use vstd::string::StringExecFns;

verus! {

/// The kind of a beverage. Each kind but `Other` has a fixed share that
/// counts as water.
#[derive(Clone, Debug, PartialEq, Eq)]
pub enum BeverageCategory {
    Water,
    Coffee,
    Tea,
    Juice,
    Soda,
    EnergyDrink,
    Alcohol,
    Other(String),
}

/// What a kind of beverage is.
pub enum CategoryView {
    Water,
    Coffee,
    Tea,
    Juice,
    Soda,
    EnergyDrink,
    Alcohol,
    Other(Seq<char>),
}

impl View for BeverageCategory {
    type V = CategoryView;

    open spec fn view(&self) -> CategoryView {
        match self {
            BeverageCategory::Water => CategoryView::Water,
            BeverageCategory::Coffee => CategoryView::Coffee,
            BeverageCategory::Tea => CategoryView::Tea,
            BeverageCategory::Juice => CategoryView::Juice,
            BeverageCategory::Soda => CategoryView::Soda,
            BeverageCategory::EnergyDrink => CategoryView::EnergyDrink,
            BeverageCategory::Alcohol => CategoryView::Alcohol,
            BeverageCategory::Other(name) => CategoryView::Other(name@),
        }
    }
}

impl Default for BeverageCategory {
    /// Water.
    fn default() -> (r: BeverageCategory)
        ensures
            r@ == CategoryView::Water,
    {
        BeverageCategory::Water
    }
}

/// The most that can count as water: all of it.
pub const FULL_PERCENT: u32 = 100;

impl CategoryView {
    /// The name a beverage of this kind is shown under: the kind's own, or
    /// the one given for `Other`.
    pub open spec fn label(self) -> Seq<char> {
        match self {
            CategoryView::Water => "Water"@,
            CategoryView::Coffee => "Coffee"@,
            CategoryView::Tea => "Tea"@,
            CategoryView::Juice => "Juice"@,
            CategoryView::Soda => "Soda"@,
            CategoryView::EnergyDrink => "Energy Drink"@,
            CategoryView::Alcohol => "Alcohol"@,
            CategoryView::Other(name) => name,
        }
    }

    /// The share of a beverage of this kind that counts as water, in
    /// percent. For `Other` it is the share supplied, and no more than all:
    /// what is supplied above 100 counts as 100.
    pub open spec fn hydration_percent(self, supplied: Option<u32>) -> nat {
        match self {
            CategoryView::Water => 100,
            CategoryView::Coffee => 80,
            CategoryView::Tea => 90,
            CategoryView::Juice => 90,
            CategoryView::Soda => 60,
            CategoryView::EnergyDrink => 50,
            CategoryView::Alcohol => 20,
            CategoryView::Other(_) => clamped_percent(supplied),
        }
    }
}

/// A supplied share held to the range from 0 to 100; nothing supplied counts
/// as nothing.
pub open spec fn clamped_percent(supplied: Option<u32>) -> nat {
    match supplied {
        Some(percent) => if percent > FULL_PERCENT {
            FULL_PERCENT as nat
        } else {
            percent as nat
        },
        None => 0,
    }
}

/// The part of `amount` that counts as water at a share of `percent`: the
/// amount divided by 100 and multiplied by the percent, rounded down to a
/// whole unit.
pub open spec fn hydration_of(amount: u32, percent: nat) -> nat {
    amount as nat * percent / 100
}

/// A beverage: its kind, its name, how much of it there is and how much of
/// that counts as water.
#[derive(Clone, Debug, PartialEq, Eq)]
pub struct Beverage {
    pub category: BeverageCategory,
    pub name: String,
    pub amount: u32,
    pub hydration_amount: u32,
}

/// What a beverage is.
pub struct BeverageView {
    pub category: CategoryView,
    pub name: Seq<char>,
    pub amount: u32,
    pub hydration_amount: u32,
}

impl View for Beverage {
    type V = BeverageView;

    open spec fn view(&self) -> BeverageView {
        BeverageView {
            category: self.category@,
            name: self.name@,
            amount: self.amount,
            hydration_amount: self.hydration_amount,
        }
    }
}

/// The beverage that [`Beverage::new`] makes.
pub open spec fn beverage_of(
    category: CategoryView,
    amount: u32,
    supplied: Option<u32>,
) -> BeverageView {
    BeverageView {
        category,
        name: category.label(),
        amount,
        hydration_amount: hydration_of(amount, category.hydration_percent(supplied)) as u32,
    }
}

/// The part of an amount that counts as water is never more than the amount.
pub proof fn lemma_hydration_bounded(category: CategoryView, amount: u32, supplied: Option<u32>)
    ensures
        category.hydration_percent(supplied) <= 100,
        hydration_of(amount, category.hydration_percent(supplied)) <= amount,
        category.hydration_percent(supplied) == 100 ==> hydration_of(
            amount,
            category.hydration_percent(supplied),
        ) == amount,
{
    let percent = category.hydration_percent(supplied);
    assert(amount as nat * percent <= amount as nat * 100) by (nonlinear_arith)
        requires
            percent <= 100,
    ;
}

/// A supplied share held to the range from 0 to 100.
pub fn clamp_percent(supplied: u32) -> (r: u32)
    ensures
        r == clamped_percent(Some(supplied)),
        r <= FULL_PERCENT,
{
    if supplied > FULL_PERCENT {
        FULL_PERCENT
    } else {
        supplied
    }
}

impl Beverage {
    /// A beverage of a kind and an amount. Its name is the kind's; the part
    /// that counts as water is the amount at the kind's fixed share. For
    /// `Other` the name is the one it carries and the share is the one
    /// supplied, held to at most 100: it must be supplied.
    pub fn new(
        category: BeverageCategory,
        amount: u32,
        hydration_percent: Option<u32>,
    ) -> (r: Beverage)
        requires
            category is Other ==> hydration_percent is Some,
        ensures
            r@ == beverage_of(category@, amount, hydration_percent),
    {
        let (name, percent): (String, u32) = match &category {
            BeverageCategory::Water => (String::from_str("Water"), 100),
            BeverageCategory::Coffee => (String::from_str("Coffee"), 80),
            BeverageCategory::Tea => (String::from_str("Tea"), 90),
            BeverageCategory::Juice => (String::from_str("Juice"), 90),
            BeverageCategory::Soda => (String::from_str("Soda"), 60),
            BeverageCategory::EnergyDrink => (String::from_str("Energy Drink"), 50),
            BeverageCategory::Alcohol => (String::from_str("Alcohol"), 20),
            BeverageCategory::Other(name) => (
                name.clone(),
                clamp_percent(hydration_percent.unwrap()),
            ),
        };
        proof {
            lemma_hydration_bounded(category@, amount, hydration_percent);
        }
        let hydration_amount = (amount as u64 * percent as u64 / 100) as u32;
        Beverage { category, name, amount, hydration_amount }
    }
}

/// A beverage and the time of day at which it was drunk.
#[derive(Clone, Debug, PartialEq, Eq)]
pub struct Drink {
    pub date: TimeOfDay,
    pub beverage: Beverage,
}

/// What an entry of the drink ledger is.
pub struct DrinkView {
    pub date: TimeOfDay,
    pub beverage: BeverageView,
}

impl View for Drink {
    type V = DrinkView;

    open spec fn view(&self) -> DrinkView {
        DrinkView { date: self.date, beverage: self.beverage@ }
    }
}

impl Drink {
    /// The entry for `beverage`, drunk at `date`.
    pub fn new(date: TimeOfDay, beverage: Beverage) -> (r: Drink)
        ensures
            r@ == (DrinkView { date, beverage: beverage@ }),
    {
        Drink { date, beverage }
    }
}

/// The amount of each entry.
pub open spec fn amounts(entries: Seq<DrinkView>) -> Seq<u32> {
    Seq::new(entries.len(), |i: int| entries[i].beverage.amount)
}

/// The part of each entry that counts as water.
pub open spec fn hydrations(entries: Seq<DrinkView>) -> Seq<u32> {
    Seq::new(entries.len(), |i: int| entries[i].beverage.hydration_amount)
}

/// The two sums over the drinks of a day.
#[derive(Clone, Copy, Debug, PartialEq, Eq, Structural)]
pub struct WaterTotals {
    pub amount: u32,
    pub hydration: u32,
}

/// Whether each of the two sums over the entries fits its field.
pub open spec fn water_fits(entries: Seq<DrinkView>) -> bool {
    total(amounts(entries)) <= u32::MAX && total(hydrations(entries)) <= u32::MAX
}

/// The two sums over the entries.
pub open spec fn water_of(entries: Seq<DrinkView>) -> WaterTotals {
    WaterTotals {
        amount: total(amounts(entries)) as u32,
        hydration: total(hydrations(entries)) as u32,
    }
}

/// The two sums over a list of entries, or `None` where one of them does not
/// fit.
pub fn sum_drinks(entries: &[Drink]) -> (r: Option<WaterTotals>)
    ensures
        r is Some <==> water_fits(views(entries@)),
        r matches Some(totals) ==> totals == water_of(views(entries@)),
{
    let ghost all = views(entries@);
    let mut drunk: u32 = 0;
    let mut hydration: u32 = 0;
    let mut i: usize = 0;
    while i < entries.len()
        invariant
            i <= entries.len(),
            all == views(entries@),
            drunk == total(amounts(all).take(i as int)),
            hydration == total(hydrations(all).take(i as int)),
        decreases entries.len() - i,
    {
        proof {
            lemma_total_step(amounts(all), i as int);
            lemma_total_step(hydrations(all), i as int);
        }
        let beverage = &entries[i].beverage;
        let sums = (
            drunk.checked_add(beverage.amount),
            hydration.checked_add(beverage.hydration_amount),
        );
        match sums {
            (Some(a), Some(h)) => {
                drunk = a;
                hydration = h;
            },
            _ => {
                return None;
            },
        }
        i = i + 1;
    }
    proof {
        assert(amounts(all).take(i as int) =~= amounts(all));
        assert(hydrations(all).take(i as int) =~= hydrations(all));
    }
    Some(WaterTotals { amount: drunk, hydration })
}

/// The drink ledger with its goal and with what is registered against it.
#[derive(Clone, Debug, PartialEq, Eq)]
pub struct WaterData {
    pub water_history: Ledger<Drink>,
    pub water_goal: u32,
    pub water_registered: u32,
    pub hydrolized: u32,
}

/// What the drink tracker is.
pub struct WaterView {
    pub water_history: Map<Date, Seq<DrinkView>>,
    pub water_goal: u32,
    pub water_registered: u32,
    pub hydrolized: u32,
}

impl View for WaterData {
    type V = WaterView;

    open spec fn view(&self) -> WaterView {
        WaterView {
            water_history: self.water_history@,
            water_goal: self.water_goal,
            water_registered: self.water_registered,
            hydrolized: self.hydrolized,
        }
    }
}

/// The name under which a typed drink is entered.
pub open spec fn typed_drink_name() -> Seq<char> {
    "Drink"@
}

/// The entry that [`WaterData::add_drink`] makes of two typed texts at
/// `time`: a drink of its own kind, of the amount typed, at the share typed.
pub open spec fn typed_drink(
    time: TimeOfDay,
    water_amount: Seq<char>,
    hydration_percent: Seq<char>,
) -> DrinkView {
    DrinkView {
        date: time,
        beverage: beverage_of(
            CategoryView::Other(typed_drink_name()),
            amount_of(water_amount),
            Some(amount_of(hydration_percent)),
        ),
    }
}

impl WaterView {
    /// The tracker a new user starts with: a water and a coffee on `today`,
    /// drunk at `time`, the default goal, and nothing registered.
    pub open spec fn seeded(today: Date, time: TimeOfDay) -> WaterView {
        WaterView {
            water_history: Map::<Date, Seq<DrinkView>>::empty().insert(
                today,
                seq![
                    DrinkView {
                        date: time,
                        beverage: beverage_of(CategoryView::Water, 400, Some(100)),
                    },
                    DrinkView {
                        date: time,
                        beverage: beverage_of(CategoryView::Coffee, 250, Some(100)),
                    },
                ],
            ),
            water_goal: 1000,
            water_registered: 0,
            hydrolized: 0,
        }
    }

    /// The drinks of `day`, the latest first.
    pub open spec fn drinks_on(self, day: Date) -> Seq<DrinkView> {
        entries_on(self.water_history, day)
    }

    /// The two totals that are registered.
    pub open spec fn registered(self) -> WaterTotals {
        WaterTotals { amount: self.water_registered, hydration: self.hydrolized }
    }

    /// Whether the sums over the drinks of `day` fit the registered fields.
    pub open spec fn summable(self, day: Date) -> bool {
        water_fits(self.drinks_on(day))
    }

    /// The tracker after the sums over the drinks of `day` were registered.
    pub open spec fn summarized(self, day: Date) -> WaterView {
        WaterView {
            water_registered: water_of(self.drinks_on(day)).amount,
            hydrolized: water_of(self.drinks_on(day)).hydration,
            ..self
        }
    }

    /// Whether what is registered is the sums over the drinks of `day`.
    pub open spec fn shows(self, day: Date) -> bool {
        self.summable(day) && self.registered() == water_of(self.drinks_on(day))
    }

    /// The tracker after `entry` was put before the drinks of `day`.
    pub open spec fn with_drink(self, day: Date, entry: DrinkView) -> WaterView {
        WaterView { water_history: with_first(self.water_history, day, entry), ..self }
    }

    /// The tracker after the drink at `index` of `day` was removed.
    pub open spec fn without_drink(self, day: Date, index: int) -> WaterView {
        WaterView { water_history: without(self.water_history, day, index), ..self }
    }
}

impl WaterData {
    /// The tracker a new user starts with, its two first drinks entered on
    /// `today` at `time`.
    pub fn default(today: Date, time: TimeOfDay) -> (r: WaterData)
        ensures
            r@ == WaterView::seeded(today, time),
    {
        let mut water_history: Ledger<Drink> = Ledger::new();
        let coffee = Beverage::new(BeverageCategory::Coffee, 250, Some(100));
        let water = Beverage::new(BeverageCategory::Water, 400, Some(100));
        water_history.add_first(today, Drink::new(time, coffee));
        water_history.add_first(today, Drink::new(time, water));
        assert(water_history@ =~~= WaterView::seeded(today, time).water_history);
        WaterData { water_history, water_goal: 1000, water_registered: 0, hydrolized: 0 }
    }

    /// Puts `entry` before the drinks of `selected_date`.
    pub fn log_drink(&mut self, selected_date: Date, entry: Drink)
        ensures
            final(self)@ == old(self)@.with_drink(selected_date, entry@),
    {
        self.water_history.add_first(selected_date, entry);
    }

    /// Enters a drink of what the two typed texts stand for before the
    /// drinks of `selected_date`, as drunk at `time`: a drink called "Drink",
    /// of the amount typed, of which the share typed counts as water, and no
    /// more than all of it. A text that holds no number counts as zero.
    pub fn add_drink(
        &mut self,
        selected_date: Date,
        time: TimeOfDay,
        water_amount: &str,
        hydration_percent: &str,
    )
        ensures
            final(self)@ == old(self)@.with_drink(
                selected_date,
                typed_drink(time, water_amount@, hydration_percent@),
            ),
    {
        let beverage = Beverage::new(
            BeverageCategory::Other(String::from_str("Drink")),
            amount(water_amount),
            Some(amount(hydration_percent)),
        );
        self.log_drink(selected_date, Drink::new(time, beverage));
    }

    /// Removes the drink at `index` of `date` and hands it back; `NotFound`
    /// where the day has no list, `IndexOutOfRange` where its list has no such
    /// index, and nothing changed in both cases.
    pub fn remove_drink(&mut self, date: Date, index: usize) -> (r: Result<Drink, TrackError>)
        ensures
            final(self)@ == old(self)@.without_drink(date, index as int),
            match r {
                Ok(entry) => removal_check(old(self)@.water_history, date, index as int) is Ok
                    && entry@ == old(self)@.water_history[date][index as int],
                Err(e) => removal_check(old(self)@.water_history, date, index as int) == Err::<
                    (),
                    TrackError,
                >(e),
            },
    {
        self.water_history.remove_at(date, index)
    }

    /// The two sums over the drinks of `day`, or `None` where one of them
    /// does not fit.
    pub fn totals_on(&self, day: Date) -> (r: Option<WaterTotals>)
        ensures
            r is Some <==> self@.summable(day),
            r matches Some(totals) ==> totals == water_of(self@.drinks_on(day)),
    {
        sum_drinks(self.water_history.get(day))
    }

    /// Whether the sums over the drinks of `day` fit: what
    /// [`Summary::summarize`] asks of its caller.
    pub fn is_summable(&self, day: Date) -> (r: bool)
        ensures
            r == self@.summable(day),
    {
        self.totals_on(day).is_some()
    }

    /// Registers the sums over the drinks of `day` and says so; where one of
    /// them does not fit, nothing changes and the answer is `false`.
    pub fn try_summarize(&mut self, day: Date) -> (r: bool)
        ensures
            r == old(self)@.summable(day),
            final(self)@ == if r {
                old(self)@.summarized(day)
            } else {
                old(self)@
            },
    {
        if self.is_summable(day) {
            self.summarize(Some(day));
            true
        } else {
            false
        }
    }

    /// The share of the goal that is registered as drunk, in whole percent.
    pub fn water_percent(&self) -> (r: u64)
        ensures
            r == share_of(self.water_registered, self.water_goal),
    {
        percentage(self.water_registered, self.water_goal)
    }
}

impl Summary for WaterData {
    open spec fn summable(model: WaterView, day: Date) -> bool {
        model.summable(day)
    }

    open spec fn summarized(model: WaterView, day: Date) -> WaterView {
        model.summarized(day)
    }

    /// Overwrites the two registered totals by the sums over the drinks of
    /// the day, of their amounts and of what of them counts as water: zeros
    /// where the day has none.
    fn summarize(&mut self, selected_day: Option<Date>) {
        let day = selected_day.unwrap();
        match self.totals_on(day) {
            Some(totals) => {
                self.water_registered = totals.amount;
                self.hydrolized = totals.hydration;
            },
            None => {},
        }
    }
}

/// After a summary of a day, what is registered is the exact sums over the
/// drinks that the ledger holds on that day; the drinks themselves and the
/// goal are as they were, and a second summary changes nothing.
pub proof fn lemma_water_summary_is_exact(tracker: WaterView, day: Date)
    requires
        tracker.summable(day),
    ensures
        tracker.summarized(day).water_registered == total(amounts(tracker.drinks_on(day))),
        tracker.summarized(day).hydrolized == total(hydrations(tracker.drinks_on(day))),
        tracker.summarized(day).water_history == tracker.water_history,
        tracker.summarized(day).shows(day),
        tracker.summarized(day).summarized(day) == tracker.summarized(day),
{
}

/// The summary of a day without drinks registers zero twice.
pub proof fn lemma_water_summary_of_empty_day(tracker: WaterView, day: Date)
    requires
        tracker.drinks_on(day).len() == 0,
    ensures
        tracker.summable(day),
        tracker.summarized(day).registered() == (WaterTotals { amount: 0, hydration: 0 }),
{
    let none = tracker.drinks_on(day);
    assert(amounts(none) =~= Seq::<u32>::empty());
    assert(hydrations(none) =~= Seq::<u32>::empty());
}

} // verus!

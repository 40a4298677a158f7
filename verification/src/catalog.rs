//! The catalog of exercises and the muscle groups each of them works.

use vstd::prelude::*;
use vstd::string::StringExecFns;

verus! {

/// An exercise of the catalog.
#[derive(Clone, Copy, Debug, PartialEq, Eq, Structural, Hash)]
pub enum Exercises {
    BenchPress,
    TricepDips,
    Deadlift,
    Squat,
    HackSquat,
    LegPress,
    LegExtension,
    LegCurl,
}

/// A muscle group.
#[derive(Clone, Copy, Debug, PartialEq, Eq, Structural, Hash)]
pub enum Muscle {
    Necks,
    Traps,
    UpperChest,
    LowerChest,
    FrontDelt,
    SideDelt,
    RearDelt,
    Biceps,
    Triceps,
    Forearms,
    Abs,
    Hips,
    Adductors,
    Quads,
    ExtHips,
    Calfs,
    Infraspinatus,
    Lats,
    LowerBack,
    Glutes,
    Hamstrings,
}

/// The number of muscle groups in the catalog.
pub const MUSCLE_COUNT: u32 = 21;

/// The primary muscle groups of an exercise, as the table lists them.
pub open spec fn primary_of(exercise: Exercises) -> Seq<Muscle> {
    match exercise {
        Exercises::BenchPress => seq![Muscle::LowerChest, Muscle::UpperChest],
        Exercises::TricepDips => seq![Muscle::Triceps],
        Exercises::Deadlift => seq![Muscle::LowerBack, Muscle::Glutes],
        Exercises::Squat => seq![Muscle::Quads],
        Exercises::HackSquat => seq![Muscle::Quads, Muscle::Hips],
        Exercises::LegPress => seq![Muscle::Quads, Muscle::Hamstrings],
        Exercises::LegExtension => seq![Muscle::Quads, Muscle::ExtHips],
        Exercises::LegCurl => seq![Muscle::Hamstrings],
    }
}

/// The secondary muscle groups of an exercise, as the table lists them.
pub open spec fn secondary_of(exercise: Exercises) -> Seq<Muscle> {
    match exercise {
        Exercises::BenchPress => seq![Muscle::Triceps],
        Exercises::TricepDips => seq![Muscle::LowerChest],
        Exercises::Deadlift => seq![Muscle::Hamstrings],
        Exercises::Squat => seq![Muscle::Glutes, Muscle::Hamstrings],
        Exercises::HackSquat => seq![Muscle::Hamstrings],
        Exercises::LegPress => seq![Muscle::ExtHips],
        Exercises::LegExtension => seq![Muscle::Hips],
        Exercises::LegCurl => seq![Muscle::Hips],
    }
}

/// The primary and the secondary muscle groups of an exercise.
pub fn muscles_for(ex: &Exercises) -> (r: (Vec<Muscle>, Vec<Muscle>))
    ensures
        r.0@ == primary_of(*ex),
        r.1@ == secondary_of(*ex),
{
    match ex {
        Exercises::BenchPress => (
            vec![Muscle::LowerChest, Muscle::UpperChest],
            vec![Muscle::Triceps],
        ),
        Exercises::TricepDips => (vec![Muscle::Triceps], vec![Muscle::LowerChest]),
        Exercises::Deadlift => (vec![Muscle::LowerBack, Muscle::Glutes], vec![Muscle::Hamstrings]),
        Exercises::Squat => (vec![Muscle::Quads], vec![Muscle::Glutes, Muscle::Hamstrings]),
        Exercises::HackSquat => (vec![Muscle::Quads, Muscle::Hips], vec![Muscle::Hamstrings]),
        Exercises::LegPress => (vec![Muscle::Quads, Muscle::Hamstrings], vec![Muscle::ExtHips]),
        Exercises::LegExtension => (vec![Muscle::Quads, Muscle::ExtHips], vec![Muscle::Hips]),
        Exercises::LegCurl => (vec![Muscle::Hamstrings], vec![Muscle::Hips]),
    }
}

/// The table names no muscle group twice for one exercise: each exercise has
/// at least one primary and one secondary group, and none of its groups is
/// both.
pub proof fn lemma_table_entries(exercise: Exercises)
    ensures
        primary_of(exercise).len() > 0,
        secondary_of(exercise).len() > 0,
        primary_of(exercise).no_duplicates(),
        secondary_of(exercise).no_duplicates(),
        primary_of(exercise).to_set().disjoint(secondary_of(exercise).to_set()),
{
    let primary = primary_of(exercise);
    let secondary = secondary_of(exercise);
    assert forall|m: Muscle| !(primary.contains(m) && secondary.contains(m)) by {
        if primary.contains(m) && secondary.contains(m) {
            let i = choose|i: int| 0 <= i < primary.len() && primary[i] == m;
            let j = choose|j: int| 0 <= j < secondary.len() && secondary[j] == m;
            assert(primary[i] == secondary[j]);
        }
    }
}

/// The muscle groups that some exercise of the list has as a primary one.
pub open spec fn primary_muscles(exercises: Seq<Exercises>) -> Set<Muscle> {
    Set::new(
        |m: Muscle|
            exists|i: int|
                0 <= i < exercises.len() && primary_of(#[trigger] exercises[i]).contains(m),
    )
}

/// The muscle groups that some exercise of the list has as a secondary one.
pub open spec fn secondary_muscles(exercises: Seq<Exercises>) -> Set<Muscle> {
    Set::new(
        |m: Muscle|
            exists|i: int|
                0 <= i < exercises.len() && secondary_of(#[trigger] exercises[i]).contains(m),
    )
}

/// The muscle groups that some exercise of the list works at all.
pub open spec fn touched_muscles(exercises: Seq<Exercises>) -> Set<Muscle> {
    primary_muscles(exercises).union(secondary_muscles(exercises))
}

/// `list` with `muscle` at its end, unless it is in the list already.
pub open spec fn with_muscle(list: Seq<Muscle>, muscle: Muscle) -> Seq<Muscle> {
    if list.contains(muscle) {
        list
    } else {
        list.push(muscle)
    }
}

/// `list` with each muscle of `more` added in turn by [`with_muscle`].
pub open spec fn with_muscles(list: Seq<Muscle>, more: Seq<Muscle>) -> Seq<Muscle>
    decreases more.len(),
{
    if more.len() == 0 {
        list
    } else {
        with_muscle(with_muscles(list, more.drop_last()), more.last())
    }
}

/// Adding a muscle adds it to the set of the list's members, and keeps a
/// list free of repeats free of them.
pub proof fn lemma_with_muscle(list: Seq<Muscle>, muscle: Muscle)
    ensures
        with_muscle(list, muscle).to_set() == list.to_set().insert(muscle),
        list.no_duplicates() ==> with_muscle(list, muscle).no_duplicates(),
{
    let next = with_muscle(list, muscle);
    if list.contains(muscle) {
        assert(next.to_set() =~= list.to_set().insert(muscle));
    } else {
        if list.no_duplicates() {
            assert forall|i: int, j: int|
                0 <= i < next.len() && 0 <= j < next.len() && i != j implies next[i] != next[j] by {
                if i < list.len() && j < list.len() {
                    assert(list[i] != list[j]);
                } else if i < list.len() {
                    assert(list.contains(list[i]));
                } else {
                    assert(list.contains(list[j]));
                }
            }
        }
        assert forall|m: Muscle|
            next.to_set().contains(m) <==> list.to_set().insert(muscle).contains(m) by {
            if next.contains(m) {
                let i = choose|i: int| 0 <= i < next.len() && next[i] == m;
                if i < list.len() {
                    assert(list.contains(list[i]));
                }
            }
            if list.contains(m) {
                let i = choose|i: int| 0 <= i < list.len() && list[i] == m;
                assert(next[i] == m);
            }
            if m == muscle {
                assert(next[list.len() as int] == m);
            }
        }
        assert(next.to_set() =~= list.to_set().insert(muscle));
    }
}

/// Adding several muscles adds them all to the set of the list's members,
/// and keeps a list free of repeats free of them.
pub proof fn lemma_with_muscles(list: Seq<Muscle>, more: Seq<Muscle>)
    ensures
        with_muscles(list, more).to_set() == list.to_set().union(more.to_set()),
        list.no_duplicates() ==> with_muscles(list, more).no_duplicates(),
    decreases more.len(),
{
    if more.len() == 0 {
        assert(more.to_set() =~= Set::<Muscle>::empty());
        assert(list.to_set().union(more.to_set()) =~= list.to_set());
    } else {
        let front = more.drop_last();
        lemma_with_muscles(list, front);
        lemma_with_muscle(with_muscles(list, front), more.last());
        assert forall|m: Muscle| more.to_set().contains(m) <==> front.to_set().insert(
            more.last(),
        ).contains(m) by {
            if more.contains(m) {
                let i = choose|i: int| 0 <= i < more.len() && more[i] == m;
                if i < front.len() {
                    assert(front[i] == m);
                }
            }
            if front.contains(m) {
                let i = choose|i: int| 0 <= i < front.len() && front[i] == m;
                assert(more[i] == m);
            }
            if m == more.last() {
                assert(more[more.len() - 1] == m);
            }
        }
        assert(more.to_set() =~= front.to_set().insert(more.last()));
        assert(with_muscles(list, more).to_set() =~= list.to_set().union(more.to_set()));
    }
}

/// Whether `muscle` is in `list`.
pub fn has_muscle(list: &Vec<Muscle>, muscle: Muscle) -> (r: bool)
    ensures
        r == list@.contains(muscle),
{
    let mut i: usize = 0;
    while i < list.len()
        invariant
            i <= list.len(),
            forall|j: int| 0 <= j < i ==> list@[j] != muscle,
        decreases list.len() - i,
    {
        if list[i] == muscle {
            return true;
        }
        i = i + 1;
    }
    false
}

/// Puts `muscle` at the end of `list` unless it is there already.
pub fn add_muscle(list: &mut Vec<Muscle>, muscle: Muscle)
    ensures
        final(list)@ == with_muscle(old(list)@, muscle),
{
    if !has_muscle(list, muscle) {
        list.push(muscle);
    }
}

/// Puts each muscle of `more` that `list` lacks at its end, in their order.
pub fn add_muscles(list: &mut Vec<Muscle>, more: &Vec<Muscle>)
    ensures
        final(list)@ == with_muscles(old(list)@, more@),
{
    let mut i: usize = 0;
    while i < more.len()
        invariant
            i <= more.len(),
            list@ == with_muscles(old(list)@, more@.take(i as int)),
        decreases more.len() - i,
    {
        assert(more@.take(i as int + 1).drop_last() =~= more@.take(i as int));
        add_muscle(list, more[i]);
        i = i + 1;
    }
    assert(more@.take(i as int) =~= more@);
}

/// The primary and the secondary muscle groups of a list of exercises: each
/// group once, whatever the number of exercises that work it. A group may
/// stand in both lists.
pub fn muscle_for_workout(exercises: &Vec<Exercises>) -> (r: (Vec<Muscle>, Vec<Muscle>))
    ensures
        r.0@.no_duplicates(),
        r.1@.no_duplicates(),
        r.0@.to_set() == primary_muscles(exercises@),
        r.1@.to_set() == secondary_muscles(exercises@),
{
    let mut primary: Vec<Muscle> = Vec::new();
    let mut secondary: Vec<Muscle> = Vec::new();
    let mut i: usize = 0;
    while i < exercises.len()
        invariant
            i <= exercises.len(),
            primary@.no_duplicates(),
            secondary@.no_duplicates(),
            primary@.to_set() == primary_muscles(exercises@.take(i as int)),
            secondary@.to_set() == secondary_muscles(exercises@.take(i as int)),
        decreases exercises.len() - i,
    {
        let m = muscles_for(&exercises[i]);
        proof {
            lemma_with_muscles(primary@, m.0@);
            lemma_with_muscles(secondary@, m.1@);
            lemma_muscles_of_longer_list(exercises@.take(i as int + 1));
        }
        add_muscles(&mut primary, &m.0);
        add_muscles(&mut secondary, &m.1);
        i = i + 1;
    }
    assert(exercises@.take(i as int) =~= exercises@);
    (primary, secondary)
}

/// The muscle groups of a list are those of the list without its last
/// exercise together with those of the last exercise.
pub proof fn lemma_muscles_of_longer_list(exercises: Seq<Exercises>)
    requires
        exercises.len() > 0,
    ensures
        primary_muscles(exercises) == primary_muscles(exercises.drop_last()).union(
            primary_of(exercises.last()).to_set(),
        ),
        secondary_muscles(exercises) == secondary_muscles(exercises.drop_last()).union(
            secondary_of(exercises.last()).to_set(),
        ),
{
    let front = exercises.drop_last();
    let last = exercises.last();
    assert forall|m: Muscle|
        primary_muscles(exercises).contains(m) <==> primary_muscles(front).union(
            primary_of(last).to_set(),
        ).contains(m) by {
        if primary_muscles(exercises).contains(m) {
            let i = choose|i: int|
                0 <= i < exercises.len() && primary_of(#[trigger] exercises[i]).contains(m);
            if i < front.len() {
                assert(primary_of(front[i]).contains(m));
            }
        }
        if primary_muscles(front).contains(m) {
            let i = choose|i: int|
                0 <= i < front.len() && primary_of(#[trigger] front[i]).contains(m);
            assert(primary_of(exercises[i]).contains(m));
        }
        if primary_of(last).contains(m) {
            assert(primary_of(exercises[exercises.len() - 1]).contains(m));
        }
    }
    assert forall|m: Muscle| secondary_muscles(exercises).contains(m) <==> secondary_muscles(
        front,
    ).union(secondary_of(last).to_set()).contains(m) by {
        if secondary_muscles(exercises).contains(m) {
            let i = choose|i: int|
                0 <= i < exercises.len() && secondary_of(#[trigger] exercises[i]).contains(m);
            if i < front.len() {
                assert(secondary_of(front[i]).contains(m));
            }
        }
        if secondary_muscles(front).contains(m) {
            let i = choose|i: int|
                0 <= i < front.len() && secondary_of(#[trigger] front[i]).contains(m);
            assert(secondary_of(exercises[i]).contains(m));
        }
        if secondary_of(last).contains(m) {
            assert(secondary_of(exercises[exercises.len() - 1]).contains(m));
        }
    }
}

/// Every exercise of the catalog, in the catalog's order.
pub open spec fn exercise_catalog() -> Seq<Exercises> {
    seq![
        Exercises::BenchPress,
        Exercises::TricepDips,
        Exercises::Deadlift,
        Exercises::Squat,
        Exercises::HackSquat,
        Exercises::LegPress,
        Exercises::LegExtension,
        Exercises::LegCurl,
    ]
}

/// Every muscle group of the catalog, in the catalog's order.
pub open spec fn muscle_catalog() -> Seq<Muscle> {
    seq![
        Muscle::Necks,
        Muscle::Traps,
        Muscle::UpperChest,
        Muscle::LowerChest,
        Muscle::FrontDelt,
        Muscle::SideDelt,
        Muscle::RearDelt,
        Muscle::Biceps,
        Muscle::Triceps,
        Muscle::Forearms,
        Muscle::Abs,
        Muscle::Hips,
        Muscle::Adductors,
        Muscle::Quads,
        Muscle::ExtHips,
        Muscle::Calfs,
        Muscle::Infraspinatus,
        Muscle::Lats,
        Muscle::LowerBack,
        Muscle::Glutes,
        Muscle::Hamstrings,
    ]
}

impl Exercises {
    /// The name an exercise is shown under.
    pub open spec fn name_spec(self) -> Seq<char> {
        match self {
            Exercises::BenchPress => "Bench Press"@,
            Exercises::TricepDips => "Tricep Dips"@,
            Exercises::Deadlift => "Deadlift"@,
            Exercises::Squat => "Squat"@,
            Exercises::HackSquat => "Hack Squat"@,
            Exercises::LegPress => "Leg Press"@,
            Exercises::LegExtension => "Leg Extension"@,
            Exercises::LegCurl => "Leg Curl"@,
        }
    }

    /// The name an exercise is shown under.
    pub fn name(&self) -> (r: String)
        ensures
            r@ == self.name_spec(),
    {
        match self {
            Exercises::BenchPress => String::from_str("Bench Press"),
            Exercises::TricepDips => String::from_str("Tricep Dips"),
            Exercises::Deadlift => String::from_str("Deadlift"),
            Exercises::Squat => String::from_str("Squat"),
            Exercises::HackSquat => String::from_str("Hack Squat"),
            Exercises::LegPress => String::from_str("Leg Press"),
            Exercises::LegExtension => String::from_str("Leg Extension"),
            Exercises::LegCurl => String::from_str("Leg Curl"),
        }
    }

    /// Every exercise of the catalog, each once.
    pub fn all() -> (r: Vec<Exercises>)
        ensures
            r@ == exercise_catalog(),
            r@.no_duplicates(),
            forall|e: Exercises| r@.contains(e),
    {
        let r = vec![
            Exercises::BenchPress,
            Exercises::TricepDips,
            Exercises::Deadlift,
            Exercises::Squat,
            Exercises::HackSquat,
            Exercises::LegPress,
            Exercises::LegExtension,
            Exercises::LegCurl,
        ];
        assert forall|e: Exercises| r@.contains(e) by {
            let i: int = match e {
                Exercises::BenchPress => 0,
                Exercises::TricepDips => 1,
                Exercises::Deadlift => 2,
                Exercises::Squat => 3,
                Exercises::HackSquat => 4,
                Exercises::LegPress => 5,
                Exercises::LegExtension => 6,
                Exercises::LegCurl => 7,
            };
            assert(r@[i] == e);
        }
        r
    }
}

impl Muscle {
    /// The place of a muscle group in the catalog.
    pub open spec fn index(self) -> int {
        match self {
            Muscle::Necks => 0,
            Muscle::Traps => 1,
            Muscle::UpperChest => 2,
            Muscle::LowerChest => 3,
            Muscle::FrontDelt => 4,
            Muscle::SideDelt => 5,
            Muscle::RearDelt => 6,
            Muscle::Biceps => 7,
            Muscle::Triceps => 8,
            Muscle::Forearms => 9,
            Muscle::Abs => 10,
            Muscle::Hips => 11,
            Muscle::Adductors => 12,
            Muscle::Quads => 13,
            Muscle::ExtHips => 14,
            Muscle::Calfs => 15,
            Muscle::Infraspinatus => 16,
            Muscle::Lats => 17,
            Muscle::LowerBack => 18,
            Muscle::Glutes => 19,
            Muscle::Hamstrings => 20,
        }
    }

    /// Every muscle group of the catalog, each once.
    pub fn all() -> (r: Vec<Muscle>)
        ensures
            r@ == muscle_catalog(),
            r@.len() == MUSCLE_COUNT,
            r@.no_duplicates(),
            forall|m: Muscle| r@.contains(m),
    {
        let r = vec![
            Muscle::Necks,
            Muscle::Traps,
            Muscle::UpperChest,
            Muscle::LowerChest,
            Muscle::FrontDelt,
            Muscle::SideDelt,
            Muscle::RearDelt,
            Muscle::Biceps,
            Muscle::Triceps,
            Muscle::Forearms,
            Muscle::Abs,
            Muscle::Hips,
            Muscle::Adductors,
            Muscle::Quads,
            Muscle::ExtHips,
            Muscle::Calfs,
            Muscle::Infraspinatus,
            Muscle::Lats,
            Muscle::LowerBack,
            Muscle::Glutes,
            Muscle::Hamstrings,
        ];
        proof {
            lemma_muscle_catalog();
        }
        r
    }
}

/// The catalog names each muscle group once, at the place of its index, so
/// there are [`MUSCLE_COUNT`] muscle groups and no set of them is larger.
pub proof fn lemma_muscle_catalog()
    ensures
        muscle_catalog().len() == MUSCLE_COUNT,
        muscle_catalog().no_duplicates(),
        forall|m: Muscle| #[trigger] muscle_catalog().contains(m),
        forall|m: Muscle|
            0 <= #[trigger] m.index() < MUSCLE_COUNT && muscle_catalog()[m.index()] == m,
        forall|s: Set<Muscle>| #[trigger] s.finite() && s.len() <= MUSCLE_COUNT,
{
    let all = muscle_catalog();
    assert forall|m: Muscle| 0 <= #[trigger] m.index() < 21 && all[m.index()] == m by {}
    assert forall|i: int| 0 <= i < 21 implies (#[trigger] all[i]).index() == i by {}
    assert forall|i: int, j: int| 0 <= i < all.len() && 0 <= j < all.len() && i != j implies all[i]
        != all[j] by {
        assert(all[i].index() == i);
        assert(all[j].index() == j);
    }
    assert forall|m: Muscle| #[trigger] all.contains(m) by {
        assert(all[m.index()] == m);
    }
    all.unique_seq_to_set();
    assert forall|s: Set<Muscle>| #[trigger] s.finite() && s.len() <= MUSCLE_COUNT by {
        assert(s.subset_of(all.to_set()));
        vstd::set_lib::lemma_len_subset(s, all.to_set());
    }
}

/// A list that holds every exercise of another works every muscle group the
/// other works.
pub proof fn lemma_muscles_of_more_exercises(a: Seq<Exercises>, b: Seq<Exercises>)
    requires
        a.to_set().subset_of(b.to_set()),
    ensures
        primary_muscles(a).subset_of(primary_muscles(b)),
        secondary_muscles(a).subset_of(secondary_muscles(b)),
{
    assert forall|m: Muscle| primary_muscles(a).contains(m) implies primary_muscles(b).contains(
        m,
    ) by {
        let i = choose|i: int| 0 <= i < a.len() && primary_of(#[trigger] a[i]).contains(m);
        assert(a.to_set().contains(a[i]));
        assert(b.contains(a[i]));
        let j = choose|j: int| 0 <= j < b.len() && b[j] == a[i];
        assert(primary_of(b[j]).contains(m));
    }
    assert forall|m: Muscle| secondary_muscles(a).contains(m) implies secondary_muscles(b).contains(
        m,
    ) by {
        let i = choose|i: int| 0 <= i < a.len() && secondary_of(#[trigger] a[i]).contains(m);
        assert(a.to_set().contains(a[i]));
        assert(b.contains(a[i]));
        let j = choose|j: int| 0 <= j < b.len() && b[j] == a[i];
        assert(secondary_of(b[j]).contains(m));
    }
}

/// The muscle groups of a list of exercises depend on which exercises are in
/// the list only: not on their order, nor on how often one occurs.
pub proof fn lemma_muscles_of_same_exercises(a: Seq<Exercises>, b: Seq<Exercises>)
    requires
        a.to_set() == b.to_set(),
    ensures
        primary_muscles(a) == primary_muscles(b),
        secondary_muscles(a) == secondary_muscles(b),
        touched_muscles(a) == touched_muscles(b),
{
    lemma_muscles_of_more_exercises(a, b);
    lemma_muscles_of_more_exercises(b, a);
}

/// The muscle groups of a list of exercises do not depend on the order of
/// the list: two lists that hold the same exercises equally often, in any
/// order, have the same primary and the same secondary muscle groups.
pub proof fn lemma_muscles_ignore_order(a: Seq<Exercises>, b: Seq<Exercises>)
    requires
        a.to_multiset() == b.to_multiset(),
    ensures
        primary_muscles(a) == primary_muscles(b),
        secondary_muscles(a) == secondary_muscles(b),
{
    broadcast use vstd::seq_lib::group_to_multiset_ensures;

    assert forall|e: Exercises| a.to_set().contains(e) <==> b.to_set().contains(e) by {
        assert(a.contains(e) <==> a.to_multiset().count(e) > 0);
        assert(b.contains(e) <==> b.to_multiset().count(e) > 0);
    }
    assert(a.to_set() =~= b.to_set());
    lemma_muscles_of_same_exercises(a, b);
}

/// The share of the catalog's muscle groups that `touched` holds, in whole
/// percent, rounded down.
pub open spec fn coverage_of(touched: Set<Muscle>) -> nat {
    touched.len() * 100 / (MUSCLE_COUNT as nat)
}

/// Adds to `list` each muscle group that an exercise of `exercises` works,
/// as a primary or as a secondary one, and that the list lacks. A list
/// without repeats stays without them.
pub fn add_touched(list: &mut Vec<Muscle>, exercises: &Vec<Exercises>)
    ensures
        final(list)@.to_set() == old(list)@.to_set().union(touched_muscles(exercises@)),
        old(list)@.no_duplicates() ==> final(list)@.no_duplicates(),
{
    let mut i: usize = 0;
    while i < exercises.len()
        invariant
            i <= exercises.len(),
            old(list)@.no_duplicates() ==> list@.no_duplicates(),
            list@.to_set() == old(list)@.to_set().union(touched_muscles(exercises@.take(i as int))),
        decreases exercises.len() - i,
    {
        let m = muscles_for(&exercises[i]);
        let ghost before = list@;
        proof {
            lemma_with_muscles(before, m.0@);
            lemma_with_muscles(with_muscles(before, m.0@), m.1@);
            lemma_muscles_of_longer_list(exercises@.take(i as int + 1));
        }
        add_muscles(list, &m.0);
        add_muscles(list, &m.1);
        i = i + 1;
    }
    assert(exercises@.take(i as int) =~= exercises@);
}

/// The share of the catalog that the muscle groups of a list cover, in whole
/// percent, rounded down. A group that the list names twice counts once.
pub fn coverage_percent(touched: &Vec<Muscle>) -> (r: u32)
    ensures
        r == coverage_of(touched@.to_set()),
        r <= 100,
{
    let mut distinct: Vec<Muscle> = Vec::new();
    add_muscles(&mut distinct, touched);
    proof {
        lemma_with_muscles(Seq::<Muscle>::empty(), touched@);
        assert(distinct@.to_set() =~= touched@.to_set());
        lemma_muscle_catalog();
        distinct@.unique_seq_to_set();
        assert(distinct@.to_set().finite() && distinct@.to_set().len() <= MUSCLE_COUNT);
    }
    let count: u32 = distinct.len() as u32;
    count * 100 / MUSCLE_COUNT
}

/// The share of the catalog's muscle groups that a list of exercises works,
/// in whole percent, rounded down.
pub fn muscle_coverage(exercises: &Vec<Exercises>) -> (r: u32)
    ensures
        r == coverage_of(touched_muscles(exercises@)),
        r <= 100,
{
    let mut touched: Vec<Muscle> = Vec::new();
    add_touched(&mut touched, exercises);
    assert(touched@.to_set() =~= touched_muscles(exercises@));
    coverage_percent(&touched)
}

} // verus!

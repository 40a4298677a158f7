//! Workout templates and the store that keeps them by name.

use crate::catalog::Exercises;
use crate::error::TrackError;
use vstd::prelude::*;
use vstd::string::StringExecFns;

verus! {

/// A named list of exercises that can be planned onto a day.
#[derive(Debug, PartialEq, Eq)]
pub struct WorkoutTemplate {
    pub workout_name: String,
    pub exercises: Vec<Exercises>,
}

/// What a template is: its name and its exercises in order.
pub struct TemplateView {
    pub name: Seq<char>,
    pub exercises: Seq<Exercises>,
}

impl View for WorkoutTemplate {
    type V = TemplateView;

    open spec fn view(&self) -> TemplateView {
        TemplateView { name: self.workout_name@, exercises: self.exercises@ }
    }
}

/// The name that marks a day of rest.
pub open spec fn rest_name() -> Seq<char> {
    "rest"@
}

/// The template of a day of rest: the reserved name and no exercise.
pub open spec fn rest_template() -> TemplateView {
    TemplateView { name: rest_name(), exercises: Seq::empty() }
}

/// The template that is planned where none was chosen.
pub open spec fn full_body_template() -> TemplateView {
    TemplateView {
        name: "full body"@,
        exercises: seq![Exercises::BenchPress, Exercises::Deadlift, Exercises::Squat],
    }
}

/// The preset for the legs.
pub open spec fn legs_template() -> TemplateView {
    TemplateView { name: "legs"@, exercises: seq![Exercises::Squat] }
}

impl Clone for WorkoutTemplate {
    /// A copy that shares nothing with the template it was made from.
    fn clone(&self) -> (r: WorkoutTemplate)
        ensures
            r@ == self@,
    {
        let mut exercises: Vec<Exercises> = Vec::new();
        let mut i: usize = 0;
        while i < self.exercises.len()
            invariant
                i <= self.exercises.len(),
                exercises@ == self.exercises@.take(i as int),
            decreases self.exercises.len() - i,
        {
            exercises.push(self.exercises[i]);
            i = i + 1;
        }
        assert(self.exercises@.take(i as int) =~= self.exercises@);
        WorkoutTemplate { workout_name: self.workout_name.clone(), exercises }
    }
}

impl WorkoutTemplate {
    /// A template of the given name and exercises.
    pub fn new(workout_name: String, exercises: Vec<Exercises>) -> (r: WorkoutTemplate)
        ensures
            r@ == (TemplateView { name: workout_name@, exercises: exercises@ }),
    {
        WorkoutTemplate { workout_name, exercises }
    }

    /// The template that is planned where none was chosen: "full body", with
    /// bench press, deadlift and squat.
    pub fn default() -> (r: WorkoutTemplate)
        ensures
            r@ == full_body_template(),
    {
        let exercises = vec![Exercises::BenchPress, Exercises::Deadlift, Exercises::Squat];
        WorkoutTemplate { workout_name: String::from_str("full body"), exercises }
    }

    /// The template of a day of rest: the reserved name "rest" and no
    /// exercise.
    pub fn rest() -> (r: WorkoutTemplate)
        ensures
            r@ == rest_template(),
    {
        WorkoutTemplate { workout_name: String::from_str("rest"), exercises: Vec::new() }
    }

    /// The preset for the legs: "legs", with the squat.
    pub fn legs() -> (r: WorkoutTemplate)
        ensures
            r@ == legs_template(),
    {
        let exercises = vec![Exercises::Squat];
        assert(exercises@ =~= legs_template().exercises);
        WorkoutTemplate { workout_name: String::from_str("legs"), exercises }
    }

    /// Whether the template carries the name reserved for a day of rest.
    pub fn is_rest(&self) -> (r: bool)
        ensures
            r == (self@.name == rest_name()),
    {
        let rest = String::from_str("rest");
        self.workout_name == rest
    }
}

/// The templates a user has made, each under its own name.
#[derive(Debug, PartialEq, Eq)]
pub struct TemplateStore {
    templates: Vec<WorkoutTemplate>,
}

/// Whether some template of the list carries `name`.
spec fn has_name(templates: Seq<WorkoutTemplate>, name: Seq<char>) -> bool {
    exists|i: int| 0 <= i < templates.len() && (#[trigger] templates[i]).workout_name@ == name
}

/// A place in the list at which a template carries `name`.
spec fn place_of(templates: Seq<WorkoutTemplate>, name: Seq<char>) -> int {
    choose|i: int| 0 <= i < templates.len() && (#[trigger] templates[i]).workout_name@ == name
}

/// Whether no two templates of the list carry the same name.
spec fn names_differ(templates: Seq<WorkoutTemplate>) -> bool {
    forall|i: int, j: int|
        0 <= i < templates.len() && 0 <= j < templates.len() && i != j ==> (
        #[trigger] templates[i]).workout_name@ != (#[trigger] templates[j]).workout_name@
}

/// The exercises kept under each name.
spec fn by_name(templates: Seq<WorkoutTemplate>) -> Map<Seq<char>, Seq<Exercises>> {
    Map::new(
        |name: Seq<char>| has_name(templates, name),
        |name: Seq<char>| templates[place_of(templates, name)].exercises@,
    )
}

/// The names of the list, in its order.
spec fn names_of(templates: Seq<WorkoutTemplate>) -> Seq<Seq<char>> {
    Seq::new(templates.len(), |i: int| templates[i].workout_name@)
}

/// In a list whose names differ, the template at a place is the one kept
/// under its name.
proof fn lemma_place(templates: Seq<WorkoutTemplate>, i: int)
    requires
        names_differ(templates),
        0 <= i < templates.len(),
    ensures
        has_name(templates, templates[i].workout_name@),
        place_of(templates, templates[i].workout_name@) == i,
        by_name(templates)[templates[i].workout_name@] == templates[i].exercises@,
{
    let name = templates[i].workout_name@;
    assert(has_name(templates, name));
    assert(templates[place_of(templates, name)].workout_name@ == name);
}

impl View for TemplateStore {
    type V = Map<Seq<char>, Seq<Exercises>>;

    closed spec fn view(&self) -> Map<Seq<char>, Seq<Exercises>> {
        by_name(self.templates@)
    }
}

impl Clone for TemplateStore {
    /// A store that keeps copies of the same templates under the same names,
    /// in the same order.
    fn clone(&self) -> (r: TemplateStore)
        ensures
            r@ == self@,
            r.names() == self.names(),
    {
        proof {
            use_type_invariant(self);
        }
        let mut templates: Vec<WorkoutTemplate> = Vec::new();
        let mut i: usize = 0;
        while i < self.templates.len()
            invariant
                i <= self.templates.len(),
                templates@.len() == i,
                forall|j: int| 0 <= j < i ==> (#[trigger] templates@[j])@ == self.templates@[j]@,
            decreases self.templates.len() - i,
        {
            templates.push(self.templates[i].clone());
            i = i + 1;
        }
        proof {
            lemma_same_templates(self.templates@, templates@);
        }
        TemplateStore { templates }
    }
}

impl TemplateStore {
    /// No two templates of the store carry the same name.
    #[verifier::type_invariant]
    pub closed spec fn well_formed(&self) -> bool {
        names_differ(self.templates@)
    }

    /// The names under which a template is kept, in the order in which they
    /// were first used.
    pub closed spec fn names(&self) -> Seq<Seq<char>> {
        names_of(self.templates@)
    }

    /// The names listed are those under which a template is kept, each once.
    pub proof fn lemma_names(&self)
        requires
            self.well_formed(),
        ensures
            self.names().no_duplicates(),
            self.names().to_set() == self@.dom(),
            self@.dom().finite(),
    {
        let names = self.names();
        assert forall|name: Seq<char>| names.to_set().contains(name) <==> self@.dom().contains(
            name,
        ) by {
            if names.contains(name) {
                let i = choose|i: int| 0 <= i < names.len() && names[i] == name;
                assert(self.templates@[i].workout_name@ == name);
            }
            if has_name(self.templates@, name) {
                let i = place_of(self.templates@, name);
                assert(names[i] == name);
            }
        }
    }

    /// A store without any template.
    pub fn new() -> (r: TemplateStore)
        ensures
            r@ == Map::<Seq<char>, Seq<Exercises>>::empty(),
            r.names() == Seq::<Seq<char>>::empty(),
    {
        TemplateStore { templates: Vec::new() }
    }

    /// The place of the template called `name`, if there is one.
    fn find(&self, name: &String) -> (r: Option<usize>)
        ensures
            r is Some <==> has_name(self.templates@, name@),
            r matches Some(i) ==> {
                &&& i < self.templates@.len()
                &&& self.templates@[i as int].workout_name@ == name@
                &&& place_of(self.templates@, name@) == i
            },
    {
        proof {
            use_type_invariant(self);
        }
        let mut i: usize = 0;
        while i < self.templates.len()
            invariant
                i <= self.templates.len(),
                names_differ(self.templates@),
                forall|j: int|
                    0 <= j < i ==> (#[trigger] self.templates@[j]).workout_name@ != name@,
            decreases self.templates.len() - i,
        {
            if self.templates[i].workout_name == *name {
                proof {
                    lemma_place(self.templates@, i as int);
                }
                return Some(i);
            }
            i = i + 1;
        }
        None
    }

    /// The number of templates kept.
    pub fn len(&self) -> (r: usize)
        ensures
            r == self.names().len(),
            r == self@.dom().len(),
    {
        proof {
            use_type_invariant(self);
            self.lemma_names();
            self.names().unique_seq_to_set();
        }
        self.templates.len()
    }

    /// Whether a template is kept under `name`.
    pub fn contains(&self, name: &str) -> (r: bool)
        ensures
            r == self@.contains_key(name@),
    {
        let key = String::from_str(name);
        self.find(&key).is_some()
    }

    /// The template kept under `name`; `NotFound` where there is none.
    pub fn get(&self, name: &str) -> (r: Result<&WorkoutTemplate, TrackError>)
        ensures
            r is Ok <==> self@.contains_key(name@),
            r matches Ok(template) ==> template@ == (TemplateView {
                name: name@,
                exercises: self@[name@],
            }),
            r matches Err(e) ==> e == TrackError::NotFound,
    {
        let key = String::from_str(name);
        match self.find(&key) {
            Some(i) => Ok(&self.templates[i]),
            None => Err(TrackError::NotFound),
        }
    }

    /// The name of the template at place `index` of [`TemplateStore::names`].
    pub fn name_at(&self, index: usize) -> (r: Option<&String>)
        ensures
            r is Some <==> index < self.names().len(),
            r matches Some(name) ==> name@ == self.names()[index as int],
    {
        if index < self.templates.len() {
            Some(&self.templates[index].workout_name)
        } else {
            None
        }
    }

    /// Keeps `exercises` under `workout_name`. A template that was kept under
    /// that name is replaced: the last one written stays.
    pub fn create(&mut self, workout_name: String, exercises: Vec<Exercises>)
        ensures
            final(self)@ == old(self)@.insert(workout_name@, exercises@),
            final(self).names() == if old(self)@.contains_key(workout_name@) {
                old(self).names()
            } else {
                old(self).names().push(workout_name@)
            },
    {
        proof {
            use_type_invariant(&*self);
        }
        let ghost before = self.templates@;
        match self.find(&workout_name) {
            Some(i) => {
                let mut templates = self.take_all();
                templates.set(i, WorkoutTemplate { workout_name, exercises });
                proof {
                    lemma_replaced(before, templates@, i as int);
                }
                self.templates = templates;
            },
            None => {
                let mut templates = self.take_all();
                templates.push(WorkoutTemplate { workout_name, exercises });
                proof {
                    lemma_pushed(before, templates@);
                }
                self.templates = templates;
            },
        }
    }

    /// Puts `exercise` at the end of the template kept under `name`;
    /// `NotFound`, and nothing changed, where there is none.
    pub fn add_exercise_to(&mut self, name: &str, exercise: Exercises) -> (r: Result<
        (),
        TrackError,
    >)
        ensures
            final(self).names() == old(self).names(),
            match r {
                Ok(()) => old(self)@.contains_key(name@) && final(self)@ == old(self)@.insert(
                    name@,
                    old(self)@[name@].push(exercise),
                ),
                Err(e) => {
                    &&& e == TrackError::NotFound
                    &&& !old(self)@.contains_key(name@)
                    &&& final(self)@ == old(self)@
                },
            },
    {
        proof {
            use_type_invariant(&*self);
        }
        let ghost before = self.templates@;
        let key = String::from_str(name);
        match self.find(&key) {
            Some(i) => {
                let mut templates = self.take_all();
                templates[i].exercises.push(exercise);
                proof {
                    lemma_replaced(before, templates@, i as int);
                }
                self.templates = templates;
                Ok(())
            },
            None => Err(TrackError::NotFound),
        }
    }

    /// Removes the exercise at `index` from the template kept under `name`;
    /// `NotFound`, and nothing changed, where there is none. The index must be
    /// one of the template's list: a caller removes what it has just shown.
    pub fn remove_exercise_at(&mut self, name: &str, index: usize) -> (r: Result<(), TrackError>)
        requires
            old(self)@.contains_key(name@) ==> index < old(self)@[name@].len(),
        ensures
            final(self).names() == old(self).names(),
            match r {
                Ok(()) => old(self)@.contains_key(name@) && final(self)@ == old(self)@.insert(
                    name@,
                    old(self)@[name@].remove(index as int),
                ),
                Err(e) => {
                    &&& e == TrackError::NotFound
                    &&& !old(self)@.contains_key(name@)
                    &&& final(self)@ == old(self)@
                },
            },
    {
        proof {
            use_type_invariant(&*self);
        }
        let ghost before = self.templates@;
        let key = String::from_str(name);
        match self.find(&key) {
            Some(i) => {
                let mut templates = self.take_all();
                templates[i].exercises.remove(index);
                proof {
                    lemma_replaced(before, templates@, i as int);
                }
                self.templates = templates;
                Ok(())
            },
            None => Err(TrackError::NotFound),
        }
    }

    /// Whether `index` is one of the list kept under `name`: what
    /// [`TemplateStore::remove_exercise_at`] asks of its caller.
    pub fn has_exercise_at(&self, name: &str, index: usize) -> (r: bool)
        ensures
            r == (self@.contains_key(name@) && index < self@[name@].len()),
    {
        let key = String::from_str(name);
        match self.find(&key) {
            Some(i) => index < self.templates[i].exercises.len(),
            None => false,
        }
    }

    /// Hands out the list of templates and leaves the store empty.
    fn take_all(&mut self) -> (r: Vec<WorkoutTemplate>)
        ensures
            r == old(self).templates,
            final(self).templates@.len() == 0,
    {
        let mut templates: Vec<WorkoutTemplate> = Vec::new();
        std::mem::swap(&mut self.templates, &mut templates);
        templates
    }
}

/// Two lists of templates that are the same place by place keep the same
/// exercises under the same names.
proof fn lemma_same_templates(a: Seq<WorkoutTemplate>, b: Seq<WorkoutTemplate>)
    requires
        names_differ(a),
        a.len() == b.len(),
        forall|j: int| 0 <= j < a.len() ==> (#[trigger] b[j])@ == a[j]@,
    ensures
        names_differ(b),
        by_name(b) == by_name(a),
        names_of(b) == names_of(a),
{
    assert forall|i: int, j: int| 0 <= i < b.len() && 0 <= j < b.len() && i != j implies (
    #[trigger] b[i]).workout_name@ != (#[trigger] b[j]).workout_name@ by {
        assert(b[i]@ == a[i]@ && b[j]@ == a[j]@);
        assert(a[i].workout_name@ != a[j].workout_name@);
    }
    assert forall|name: Seq<char>| by_name(b).contains_key(name) <==> by_name(a).contains_key(
        name,
    ) by {
        if has_name(b, name) {
            let j = place_of(b, name);
            assert(b[j]@ == a[j]@);
            assert(a[j].workout_name@ == name);
        }
        if has_name(a, name) {
            let j = place_of(a, name);
            assert(b[j]@ == a[j]@);
            assert(b[j].workout_name@ == name);
        }
    }
    assert forall|name: Seq<char>| by_name(b).contains_key(name) implies by_name(b)[name]
        == by_name(a)[name] by {
        let j = place_of(b, name);
        assert(b[j]@ == a[j]@);
        lemma_place(b, j);
        lemma_place(a, j);
    }
    assert forall|j: int| 0 <= j < b.len() implies names_of(b)[j] == names_of(a)[j] by {
        assert(b[j]@ == a[j]@);
    }
}

/// Replacing the template at one place by one of the same name keeps the
/// names apart and changes what is kept under that name only.
proof fn lemma_replaced(before: Seq<WorkoutTemplate>, after: Seq<WorkoutTemplate>, i: int)
    requires
        names_differ(before),
        0 <= i < before.len(),
        after.len() == before.len(),
        after[i].workout_name@ == before[i].workout_name@,
        forall|j: int| 0 <= j < before.len() && j != i ==> after[j] == before[j],
    ensures
        names_differ(after),
        by_name(after) == by_name(before).insert(after[i].workout_name@, after[i].exercises@),
{
    assert forall|j: int| 0 <= j < after.len() implies (#[trigger] after[j]).workout_name@
        == before[j].workout_name@ by {}
    assert forall|a: int, b: int| 0 <= a < after.len() && 0 <= b < after.len() && a != b implies (
    #[trigger] after[a]).workout_name@ != (#[trigger] after[b]).workout_name@ by {
        assert(before[a].workout_name@ != before[b].workout_name@);
    }
    let target = by_name(before).insert(after[i].workout_name@, after[i].exercises@);
    assert forall|name: Seq<char>| by_name(after).contains_key(name) <==> target.contains_key(
        name,
    ) by {
        if has_name(after, name) {
            let j = place_of(after, name);
            assert(before[j].workout_name@ == name);
        }
        if has_name(before, name) {
            let j = place_of(before, name);
            assert(after[j].workout_name@ == name);
        }
        if name == after[i].workout_name@ {
            assert(after[i].workout_name@ == name);
        }
    }
    assert forall|name: Seq<char>| by_name(after).contains_key(name) implies by_name(after)[name]
        == target[name] by {
        let j = place_of(after, name);
        lemma_place(after, j);
        lemma_place(before, j);
    }
}

/// Putting a template of a new name at the end keeps the names apart and
/// adds what it holds under its name.
proof fn lemma_pushed(before: Seq<WorkoutTemplate>, after: Seq<WorkoutTemplate>)
    requires
        names_differ(before),
        after.len() == before.len() + 1,
        forall|j: int| 0 <= j < before.len() ==> after[j] == before[j],
        !has_name(before, after.last().workout_name@),
    ensures
        names_differ(after),
        by_name(after) == by_name(before).insert(
            after.last().workout_name@,
            after.last().exercises@,
        ),
{
    let n = before.len() as int;
    assert forall|a: int, b: int| 0 <= a < after.len() && 0 <= b < after.len() && a != b implies (
    #[trigger] after[a]).workout_name@ != (#[trigger] after[b]).workout_name@ by {
        if a < n && b < n {
            assert(before[a].workout_name@ != before[b].workout_name@);
        } else if a < n {
            assert(before[a].workout_name@ == after[a].workout_name@);
        } else {
            assert(before[b].workout_name@ == after[b].workout_name@);
        }
    }
    let target = by_name(before).insert(after.last().workout_name@, after.last().exercises@);
    assert forall|name: Seq<char>| by_name(after).contains_key(name) <==> target.contains_key(
        name,
    ) by {
        if has_name(after, name) {
            let j = place_of(after, name);
            if j < n {
                assert(before[j].workout_name@ == name);
            }
        }
        if has_name(before, name) {
            let j = place_of(before, name);
            assert(after[j].workout_name@ == name);
        }
        if name == after.last().workout_name@ {
            assert(after[n].workout_name@ == name);
        }
    }
    assert forall|name: Seq<char>| by_name(after).contains_key(name) implies by_name(after)[name]
        == target[name] by {
        let j = place_of(after, name);
        lemma_place(after, j);
        if j < n {
            lemma_place(before, j);
        }
    }
}

} // verus!

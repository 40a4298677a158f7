//! The state of a session: the day on show, the window that is open and what
//! was typed into the forms.
//!
//! The screens read this state and change it through the functions named
//! here only. A step that does not fit the window that is open changes
//! nothing and says so.

use crate::calendar::{Date, TimeOfDay};
use crate::catalog::Exercises;
use crate::error::TrackError;
use crate::hydration::typed_drink;
use crate::ledger::with_only;
use crate::nutrition::typed_meal;
use crate::pack::{EntryKind, PackView, UserDataPack};
use crate::workout::planned_rest;
use vstd::prelude::*;
use vstd::string::StringExecFns;

verus! {

/// The window that is open over the workout screen.
#[derive(Clone, Copy, Debug, PartialEq, Eq, Structural, Hash)]
pub enum Modal {
    /// None.
    Idle,
    /// The list of templates to choose from.
    TemplatePicker,
    /// The form in which a new template is put together.
    TemplateCreateForm,
    /// The list of exercises to add to the new template.
    ExercisePicker,
}

/// The screen that a tab shows.
#[derive(Clone, Copy, Debug, PartialEq, Eq, Structural, Hash)]
pub enum Screen {
    Home,
    Workouts,
    Calories,
    Water,
    /// A tab that has no screen yet.
    Empty,
}

/// The screen that the tab of the given number shows.
pub open spec fn screen_of(tab: usize) -> Screen {
    if tab == 0 {
        Screen::Home
    } else if tab == 2 {
        Screen::Workouts
    } else if tab == 3 {
        Screen::Calories
    } else if tab == 4 {
        Screen::Water
    } else {
        Screen::Empty
    }
}

/// What waits to be deleted once the user confirms: an entry of a ledger,
/// by the day and the index at which it was shown.
#[derive(Clone, Copy, Debug, PartialEq, Eq, Structural, Hash)]
pub struct PendingDelete {
    pub kind: EntryKind,
    pub date: Date,
    pub index: usize,
}

/// The state of a session.
#[derive(Clone, Debug, PartialEq, Eq)]
pub struct States {
    pub calory_add_modal: bool,
    pub selected_tab: usize,
    pub skip_days: i16,
    pub selected_day: Date,
    pub calendar_mode_calory_ui: bool,
    pub macro_add_clicked: bool,
    pub calory_add_value: String,
    pub protein_add_value: String,
    pub carb_add_value: String,
    pub fat_add_value: String,
    pub alert_modal: bool,
    pub delete_was_positive: bool,
    pub pending_delete: Option<PendingDelete>,
    pub water_add_clicked: bool,
    pub water_add_value: String,
    pub hydration_percent: String,
    pub templates_window: bool,
    pub show_templates: bool,
    pub create_template: bool,
    pub current_template: String,
    pub editable: bool,
    pub exercises_window: bool,
    pub new_template_name: String,
    pub new_template_exercises: Vec<Exercises>,
}

/// What the state of a session is.
pub struct StatesView {
    pub calory_add_modal: bool,
    pub selected_tab: usize,
    pub skip_days: i16,
    pub selected_day: Date,
    pub calendar_mode_calory_ui: bool,
    pub macro_add_clicked: bool,
    pub calory_add_value: Seq<char>,
    pub protein_add_value: Seq<char>,
    pub carb_add_value: Seq<char>,
    pub fat_add_value: Seq<char>,
    pub alert_modal: bool,
    pub delete_was_positive: bool,
    pub pending_delete: Option<PendingDelete>,
    pub water_add_clicked: bool,
    pub water_add_value: Seq<char>,
    pub hydration_percent: Seq<char>,
    pub templates_window: bool,
    pub show_templates: bool,
    pub create_template: bool,
    pub current_template: Seq<char>,
    pub editable: bool,
    pub exercises_window: bool,
    pub new_template_name: Seq<char>,
    pub new_template_exercises: Seq<Exercises>,
}

impl View for States {
    type V = StatesView;

    open spec fn view(&self) -> StatesView {
        StatesView {
            calory_add_modal: self.calory_add_modal,
            selected_tab: self.selected_tab,
            skip_days: self.skip_days,
            selected_day: self.selected_day,
            calendar_mode_calory_ui: self.calendar_mode_calory_ui,
            macro_add_clicked: self.macro_add_clicked,
            calory_add_value: self.calory_add_value@,
            protein_add_value: self.protein_add_value@,
            carb_add_value: self.carb_add_value@,
            fat_add_value: self.fat_add_value@,
            alert_modal: self.alert_modal,
            delete_was_positive: self.delete_was_positive,
            pending_delete: self.pending_delete,
            water_add_clicked: self.water_add_clicked,
            water_add_value: self.water_add_value@,
            hydration_percent: self.hydration_percent@,
            templates_window: self.templates_window,
            show_templates: self.show_templates,
            create_template: self.create_template,
            current_template: self.current_template@,
            editable: self.editable,
            exercises_window: self.exercises_window,
            new_template_name: self.new_template_name@,
            new_template_exercises: self.new_template_exercises@,
        }
    }
}

/// What an amount field shows before anything is typed.
pub open spec fn blank_amount() -> Seq<char> {
    "0"@
}

/// What the name field of a new template shows before anything is typed.
pub open spec fn blank_template_name() -> Seq<char> {
    "workout name"@
}

/// The tab that is shown first: the workouts.
pub const FIRST_TAB: usize = 2;

/// The number of days by which the week strip moves at a time.
pub const WEEK: i16 = 7;

impl StatesView {
    /// The state in which a session starts on `today`: the workout tab, the
    /// week of today, today selected, no window open and nothing typed.
    pub open spec fn initial(today: Date) -> StatesView {
        StatesView {
            calory_add_modal: false,
            selected_tab: FIRST_TAB,
            skip_days: 0,
            selected_day: today,
            calendar_mode_calory_ui: true,
            macro_add_clicked: false,
            calory_add_value: blank_amount(),
            protein_add_value: blank_amount(),
            carb_add_value: blank_amount(),
            fat_add_value: blank_amount(),
            alert_modal: false,
            delete_was_positive: false,
            pending_delete: None,
            water_add_clicked: false,
            water_add_value: blank_amount(),
            hydration_percent: blank_amount(),
            templates_window: false,
            show_templates: true,
            create_template: false,
            current_template: Seq::empty(),
            editable: false,
            exercises_window: false,
            new_template_name: blank_template_name(),
            new_template_exercises: Seq::empty(),
        }
    }

    /// The window that is open. The flags are read in a fixed order, so that
    /// every state shows exactly one window.
    pub open spec fn modal(self) -> Modal {
        if !self.templates_window {
            Modal::Idle
        } else if self.exercises_window {
            Modal::ExercisePicker
        } else if self.create_template {
            Modal::TemplateCreateForm
        } else {
            Modal::TemplatePicker
        }
    }

    /// The state with the flags set for `modal`, and nothing else changed.
    pub open spec fn showing(self, modal: Modal) -> StatesView {
        StatesView {
            templates_window: modal != Modal::Idle,
            show_templates: modal == Modal::Idle || modal == Modal::TemplatePicker,
            create_template: modal == Modal::TemplateCreateForm || modal == Modal::ExercisePicker,
            exercises_window: modal == Modal::ExercisePicker,
            ..self
        }
    }

    /// Whether the flags are those of exactly one window, and the question
    /// whether to delete is open exactly while something waits to be deleted.
    pub open spec fn consistent(self) -> bool {
        &&& self == self.showing(self.modal())
        &&& self.alert_modal == (self.pending_delete is Some)
    }

    /// The state with the four amount fields of the meal form blank.
    pub open spec fn macros_reset(self) -> StatesView {
        StatesView {
            calory_add_value: blank_amount(),
            protein_add_value: blank_amount(),
            carb_add_value: blank_amount(),
            fat_add_value: blank_amount(),
            ..self
        }
    }

    /// The state with the two fields of the drink form blank.
    pub open spec fn water_reset(self) -> StatesView {
        StatesView { water_add_value: blank_amount(), hydration_percent: blank_amount(), ..self }
    }

    /// The state with every window over the workout screen closed, no
    /// template chosen, and what was staged for a new template thrown away:
    /// the fields of those windows are as they are when a session starts.
    pub open spec fn closed(self) -> StatesView {
        StatesView {
            templates_window: false,
            show_templates: true,
            create_template: false,
            current_template: Seq::empty(),
            editable: false,
            exercises_window: false,
            new_template_name: blank_template_name(),
            new_template_exercises: Seq::empty(),
            ..self
        }
    }

    /// After the user asked for the list of templates: it opens where no
    /// window was open.
    pub open spec fn templates_opened(self) -> StatesView {
        if self.modal() == Modal::Idle {
            self.showing(Modal::TemplatePicker)
        } else {
            self
        }
    }

    /// After the user chose to make a new template: the form opens in place
    /// of the list.
    pub open spec fn template_begun(self) -> StatesView {
        if self.modal() == Modal::TemplatePicker {
            self.showing(Modal::TemplateCreateForm)
        } else {
            self
        }
    }

    /// After the user asked for the list of exercises: it opens over the
    /// form.
    pub open spec fn exercises_opened(self) -> StatesView {
        if self.modal() == Modal::TemplateCreateForm {
            self.showing(Modal::ExercisePicker)
        } else {
            self
        }
    }

    /// After the user picked `exercise` from the list: it is staged behind
    /// what was staged before, and the form shows again.
    pub open spec fn exercise_staged(self, exercise: Exercises) -> StatesView {
        if self.modal() == Modal::ExercisePicker {
            StatesView {
                new_template_exercises: self.new_template_exercises.push(exercise),
                ..self.showing(Modal::TemplateCreateForm)
            }
        } else {
            self
        }
    }

    /// After the user asked to delete the entry at `index` of `date` in the
    /// ledger of `kind`: the question is open and remembers what was meant.
    pub open spec fn delete_requested(
        self,
        kind: EntryKind,
        date: Date,
        index: usize,
    ) -> StatesView {
        StatesView {
            alert_modal: true,
            delete_was_positive: false,
            pending_delete: Some(PendingDelete { kind, date, index }),
            ..self
        }
    }

    /// After the question was answered: it is closed, nothing waits any
    /// more, and `done` tells whether an entry was deleted.
    pub open spec fn delete_answered(self, done: bool) -> StatesView {
        StatesView { alert_modal: false, delete_was_positive: done, pending_delete: None, ..self }
    }

    /// After the user moved the week strip one week back: it moves unless it
    /// shows the week before the running one already.
    pub open spec fn week_back(self) -> StatesView {
        if self.skip_days >= 0 {
            StatesView { skip_days: (self.skip_days - WEEK) as i16, ..self }
        } else {
            self
        }
    }

    /// After the user moved the week strip one week on: it moves unless it
    /// shows the week after the running one already.
    pub open spec fn week_on(self) -> StatesView {
        if self.skip_days <= 0 {
            StatesView { skip_days: (self.skip_days + WEEK) as i16, ..self }
        } else {
            self
        }
    }
}

impl States {
    /// The state in which a session starts on `today`.
    pub fn default(today: Date) -> (r: States)
        ensures
            r@ == StatesView::initial(today),
    {
        States {
            calory_add_modal: false,
            selected_tab: FIRST_TAB,
            skip_days: 0,
            selected_day: today,
            calendar_mode_calory_ui: true,
            macro_add_clicked: false,
            calory_add_value: String::from_str("0"),
            protein_add_value: String::from_str("0"),
            carb_add_value: String::from_str("0"),
            fat_add_value: String::from_str("0"),
            alert_modal: false,
            delete_was_positive: false,
            pending_delete: None,
            water_add_clicked: false,
            water_add_value: String::from_str("0"),
            hydration_percent: String::from_str("0"),
            templates_window: false,
            show_templates: true,
            create_template: false,
            current_template: String::new(),
            editable: false,
            exercises_window: false,
            new_template_name: String::from_str("workout name"),
            new_template_exercises: Vec::new(),
        }
    }

    /// The window that is open.
    pub fn modal(&self) -> (r: Modal)
        ensures
            r == self@.modal(),
    {
        if !self.templates_window {
            Modal::Idle
        } else if self.exercises_window {
            Modal::ExercisePicker
        } else if self.create_template {
            Modal::TemplateCreateForm
        } else {
            Modal::TemplatePicker
        }
    }

    /// The screen that the selected tab shows.
    pub fn screen(&self) -> (r: Screen)
        ensures
            r == screen_of(self.selected_tab),
    {
        match self.selected_tab {
            0 => Screen::Home,
            2 => Screen::Workouts,
            3 => Screen::Calories,
            4 => Screen::Water,
            _ => Screen::Empty,
        }
    }

    /// Sets the flags for `modal`.
    fn show(&mut self, modal: Modal)
        ensures
            final(self)@ == old(self)@.showing(modal),
    {
        self.templates_window = modal != Modal::Idle;
        self.show_templates = modal == Modal::Idle || modal == Modal::TemplatePicker;
        self.create_template = modal == Modal::TemplateCreateForm || modal == Modal::ExercisePicker;
        self.exercises_window = modal == Modal::ExercisePicker;
    }

    /// Makes the four amount fields of the meal form blank.
    pub fn reset_macros(&mut self)
        ensures
            final(self)@ == old(self)@.macros_reset(),
    {
        self.calory_add_value = String::from_str("0");
        self.protein_add_value = String::from_str("0");
        self.carb_add_value = String::from_str("0");
        self.fat_add_value = String::from_str("0");
    }

    /// Makes the two fields of the drink form blank.
    pub fn reset_water(&mut self)
        ensures
            final(self)@ == old(self)@.water_reset(),
    {
        self.water_add_value = String::from_str("0");
        self.hydration_percent = String::from_str("0");
    }

    /// Closes the template window and whatever stands over it, forgets the
    /// template that was chosen and throws away what was staged for a new
    /// one: no window is open afterwards, from whichever window it is
    /// called.
    pub fn reset_template_window(&mut self)
        ensures
            final(self)@ == old(self)@.closed(),
            final(self)@.modal() == Modal::Idle,
    {
        self.templates_window = false;
        self.show_templates = true;
        self.create_template = false;
        self.current_template = String::new();
        self.editable = false;
        self.exercises_window = false;
        self.new_template_name = String::from_str("workout name");
        self.new_template_exercises = Vec::new();
    }

    /// What cancel and back do, from whichever window: the same as
    /// [`States::reset_template_window`].
    pub fn cancel(&mut self)
        ensures
            final(self)@ == old(self)@.closed(),
            final(self)@.modal() == Modal::Idle,
    {
        self.reset_template_window();
    }

    /// Opens the list of templates, where no window is open; says whether it
    /// did.
    pub fn open_templates(&mut self) -> (r: bool)
        ensures
            r == (old(self)@.modal() == Modal::Idle),
            final(self)@ == old(self)@.templates_opened(),
    {
        if self.modal() == Modal::Idle {
            self.show(Modal::TemplatePicker);
            true
        } else {
            false
        }
    }

    /// Opens the form for a new template in place of the list of templates;
    /// says whether it did.
    pub fn begin_template(&mut self) -> (r: bool)
        ensures
            r == (old(self)@.modal() == Modal::TemplatePicker),
            final(self)@ == old(self)@.template_begun(),
    {
        if self.modal() == Modal::TemplatePicker {
            self.show(Modal::TemplateCreateForm);
            true
        } else {
            false
        }
    }

    /// Opens the list of exercises over the form; says whether it did.
    pub fn open_exercises(&mut self) -> (r: bool)
        ensures
            r == (old(self)@.modal() == Modal::TemplateCreateForm),
            final(self)@ == old(self)@.exercises_opened(),
    {
        if self.modal() == Modal::TemplateCreateForm {
            self.show(Modal::ExercisePicker);
            true
        } else {
            false
        }
    }

    /// Stages `exercise` for the new template and goes back to the form;
    /// says whether it did. Only the list of exercises can do this.
    pub fn stage_exercise(&mut self, exercise: Exercises) -> (r: bool)
        ensures
            r == (old(self)@.modal() == Modal::ExercisePicker),
            final(self)@ == old(self)@.exercise_staged(exercise),
    {
        if self.modal() == Modal::ExercisePicker {
            self.new_template_exercises.push(exercise);
            self.show(Modal::TemplateCreateForm);
            true
        } else {
            false
        }
    }

    /// Keeps what was staged as a template under the name typed into the
    /// form, in place of any template of that name, and closes the windows;
    /// says whether it did. Only the form can do this.
    pub fn commit_template(&mut self, data: &mut UserDataPack) -> (r: bool)
        ensures
            r == (old(self)@.modal() == Modal::TemplateCreateForm),
            final(self)@ == if r {
                old(self)@.closed()
            } else {
                old(self)@
            },
            final(data)@ == if r {
                old(data)@.with_templates(
                    old(data)@.templates().insert(
                        old(self)@.new_template_name,
                        old(self)@.new_template_exercises,
                    ),
                )
            } else {
                old(data)@
            },
    {
        if self.modal() == Modal::TemplateCreateForm {
            let mut name = String::from_str("workout name");
            let mut exercises: Vec<Exercises> = Vec::new();
            std::mem::swap(&mut self.new_template_name, &mut name);
            std::mem::swap(&mut self.new_template_exercises, &mut exercises);
            data.create_template(name, exercises);
            self.cancel();
            true
        } else {
            false
        }
    }

    /// Plans a copy of the template kept under `name` onto the day on show
    /// and closes the windows. Only the list of templates can do this: from
    /// any other window, and where no template is kept under that name, the
    /// answer is `NotFound` and nothing changes.
    pub fn apply_template(&mut self, data: &mut UserDataPack, name: &str) -> (r: Result<
        (),
        TrackError,
    >)
        ensures
            r is Ok <==> old(self)@.modal() == Modal::TemplatePicker
                && old(data)@.templates().contains_key(name@),
            r matches Err(e) ==> e == TrackError::NotFound && final(self)@ == old(self)@,
            r is Err ==> final(data)@ == old(data)@,
            r is Ok ==> final(self)@ == old(self)@.closed() && final(data)@ == old(data)@.with_plan(
                name@,
                old(self)@.selected_day,
            ),
    {
        if self.modal() != Modal::TemplatePicker {
            return Err(TrackError::NotFound);
        }
        match data.plan_template(name, self.selected_day) {
            Ok(()) => {
                self.cancel();
                Ok(())
            },
            Err(e) => Err(e),
        }
    }

    /// Makes the day on show a day of rest.
    pub fn rest_day(&self, data: &mut UserDataPack)
        ensures
            final(data)@ == (PackView {
                planned_workout_data: with_only(
                    old(data)@.planned_workout_data,
                    self.selected_day,
                    planned_rest(self.selected_day),
                ),
                ..old(data)@
            }),
    {
        data.planned_workout_data.rest(self.selected_day);
    }

    /// Opens the question whether the entry at `index` of `date` in the
    /// ledger of `kind` shall be deleted, and remembers what was meant.
    pub fn request_delete(&mut self, kind: EntryKind, date: Date, index: usize)
        ensures
            final(self)@ == old(self)@.delete_requested(kind, date, index),
    {
        self.alert_modal = true;
        self.delete_was_positive = false;
        self.pending_delete = Some(PendingDelete { kind, date, index });
    }

    /// Closes the question without deleting anything.
    pub fn cancel_delete(&mut self)
        ensures
            final(self)@ == old(self)@.delete_answered(false),
    {
        self.alert_modal = false;
        self.delete_was_positive = false;
        self.pending_delete = None;
    }

    /// Deletes what waits to be deleted, sums the totals of the day on show
    /// anew, and closes the question. The index is checked against the list
    /// as it is now: where the list has changed since the question was
    /// opened and has no such index any more, the answer is
    /// `IndexOutOfRange` and no entry is deleted; an index that still fits
    /// deletes whatever stands there now. Where nothing waits, the answer is
    /// `NotFound`.
    pub fn confirm_delete(&mut self, data: &mut UserDataPack) -> (r: Result<(), TrackError>)
        ensures
            r == (match old(self)@.pending_delete {
                Some(pending) => old(data)@.removal_check(
                    pending.kind,
                    pending.date,
                    pending.index as int,
                ),
                None => Err::<(), TrackError>(TrackError::NotFound),
            }),
            final(self)@ == old(self)@.delete_answered(r is Ok),
            final(data)@ == (match old(self)@.pending_delete {
                Some(pending) => old(data)@.without_entry(
                    pending.kind,
                    pending.date,
                    pending.index as int,
                ).resummarized(old(self)@.selected_day),
                None => old(data)@,
            }),
    {
        let r = match self.pending_delete {
            Some(pending) => {
                let r = data.remove_entry(pending.kind, pending.date, pending.index);
                data.summarize_day(self.selected_day);
                r
            },
            None => Err(TrackError::NotFound),
        };
        self.alert_modal = false;
        self.delete_was_positive = r.is_ok();
        self.pending_delete = None;
        r
    }

    /// Opens the meal form.
    pub fn open_macro_add(&mut self)
        ensures
            final(self)@ == (StatesView { macro_add_clicked: true, ..old(self)@ }),
    {
        self.macro_add_clicked = true;
    }

    /// Closes the meal form and makes its fields blank.
    pub fn close_macro_add(&mut self)
        ensures
            final(self)@ == (StatesView { macro_add_clicked: false, ..old(self)@.macros_reset() }),
    {
        self.macro_add_clicked = false;
        self.reset_macros();
    }

    /// Enters what is typed into the meal form as a meal of the day on show,
    /// eaten at `time`, sums the totals of that day anew, and closes the
    /// form. A field that holds no number counts as zero.
    pub fn submit_macro_add(&mut self, data: &mut UserDataPack, time: TimeOfDay)
        ensures
            final(self)@ == (StatesView { macro_add_clicked: false, ..old(self)@.macros_reset() }),
            final(data)@ == (PackView {
                macro_data: old(data)@.macro_data.with_meal(
                    old(self)@.selected_day,
                    typed_meal(
                        time,
                        old(self)@.calory_add_value,
                        old(self)@.protein_add_value,
                        old(self)@.carb_add_value,
                        old(self)@.fat_add_value,
                    ),
                ),
                ..old(data)@
            }).resummarized(old(self)@.selected_day),
    {
        data.macro_data.add_meal(
            self.selected_day,
            time,
            self.calory_add_value.as_str(),
            self.protein_add_value.as_str(),
            self.carb_add_value.as_str(),
            self.fat_add_value.as_str(),
        );
        data.summarize_day(self.selected_day);
        self.close_macro_add();
    }

    /// Opens the drink form.
    pub fn open_water_add(&mut self)
        ensures
            final(self)@ == (StatesView { water_add_clicked: true, ..old(self)@ }),
    {
        self.water_add_clicked = true;
    }

    /// Closes the drink form and makes its fields blank.
    pub fn close_water_add(&mut self)
        ensures
            final(self)@ == (StatesView { water_add_clicked: false, ..old(self)@.water_reset() }),
    {
        self.water_add_clicked = false;
        self.reset_water();
    }

    /// Enters what is typed into the drink form as a drink of the day on
    /// show, drunk at `time`, sums the totals of that day anew, and closes
    /// the form. A field that holds no number counts as zero.
    pub fn submit_water_add(&mut self, data: &mut UserDataPack, time: TimeOfDay)
        ensures
            final(self)@ == (StatesView { water_add_clicked: false, ..old(self)@.water_reset() }),
            final(data)@ == (PackView {
                water_data: old(data)@.water_data.with_drink(
                    old(self)@.selected_day,
                    typed_drink(time, old(self)@.water_add_value, old(self)@.hydration_percent),
                ),
                ..old(data)@
            }).resummarized(old(self)@.selected_day),
    {
        data.water_data.add_drink(
            self.selected_day,
            time,
            self.water_add_value.as_str(),
            self.hydration_percent.as_str(),
        );
        data.summarize_day(self.selected_day);
        self.close_water_add();
    }

    /// Puts `day` on show and sums the totals of that day, so that what is
    /// registered is what the day holds.
    pub fn select_day(&mut self, data: &mut UserDataPack, day: Date)
        ensures
            final(self)@ == (StatesView { selected_day: day, ..old(self)@ }),
            final(data)@ == old(data)@.resummarized(day),
    {
        self.selected_day = day;
        data.summarize_day(day);
    }

    /// Shows the tab of the given number.
    pub fn select_tab(&mut self, tab: usize)
        ensures
            final(self)@ == (StatesView { selected_tab: tab, ..old(self)@ }),
    {
        self.selected_tab = tab;
    }

    /// Moves the week strip one week back, unless it shows the week before
    /// the running one already; says whether it moved.
    pub fn previous_week(&mut self) -> (r: bool)
        ensures
            r == (old(self)@.skip_days >= 0),
            final(self)@ == old(self)@.week_back(),
    {
        if self.skip_days >= 0 {
            self.skip_days = self.skip_days - WEEK;
            true
        } else {
            false
        }
    }

    /// Moves the week strip one week on, unless it shows the week after the
    /// running one already; says whether it moved.
    pub fn next_week(&mut self) -> (r: bool)
        ensures
            r == (old(self)@.skip_days <= 0),
            final(self)@ == old(self)@.week_on(),
    {
        if self.skip_days <= 0 {
            self.skip_days = self.skip_days + WEEK;
            true
        } else {
            false
        }
    }
}

/// A session starts in a consistent state with no window open, and every
/// step leads from a consistent state to a consistent one. Closing leads to
/// the state without a window and with nothing staged, from any state.
pub proof fn lemma_steps_keep_consistent(
    state: StatesView,
    today: Date,
    exercise: Exercises,
    kind: EntryKind,
    date: Date,
    index: usize,
    done: bool,
)
    ensures
        StatesView::initial(today).consistent(),
        StatesView::initial(today).modal() == Modal::Idle,
        state.closed().modal() == Modal::Idle,
        state.closed().new_template_exercises.len() == 0,
        state.consistent() ==> {
            &&& state.templates_opened().consistent()
            &&& state.template_begun().consistent()
            &&& state.exercises_opened().consistent()
            &&& state.exercise_staged(exercise).consistent()
            &&& state.closed().consistent()
            &&& state.delete_requested(kind, date, index).consistent()
            &&& state.delete_answered(done).consistent()
            &&& state.macros_reset().consistent()
            &&& state.water_reset().consistent()
            &&& state.week_back().consistent()
            &&& state.week_on().consistent()
        },
{
}

/// The window over the workout screen changes along these lines only: from
/// none to the list of templates, from that list to the form, from the form
/// to the list of exercises, from the list of exercises back to the form,
/// and from any of them to none. The question whether to delete opens and
/// closes without changing the window.
pub proof fn lemma_window_steps(
    state: StatesView,
    exercise: Exercises,
    kind: EntryKind,
    date: Date,
    index: usize,
    done: bool,
)
    ensures
        state.templates_opened().modal() == if state.modal() == Modal::Idle {
            Modal::TemplatePicker
        } else {
            state.modal()
        },
        state.template_begun().modal() == if state.modal() == Modal::TemplatePicker {
            Modal::TemplateCreateForm
        } else {
            state.modal()
        },
        state.exercises_opened().modal() == if state.modal() == Modal::TemplateCreateForm {
            Modal::ExercisePicker
        } else {
            state.modal()
        },
        state.exercise_staged(exercise).modal() == if state.modal() == Modal::ExercisePicker {
            Modal::TemplateCreateForm
        } else {
            state.modal()
        },
        state.modal() != Modal::ExercisePicker ==> state.exercise_staged(
            exercise,
        ).new_template_exercises == state.new_template_exercises,
        state.delete_requested(kind, date, index).modal() == state.modal(),
        state.delete_answered(done).modal() == state.modal(),
{
}

} // verus!

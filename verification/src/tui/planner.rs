use vstd::prelude::*;
use vstd::string::StringExecFns;

use crate::availability::{availability_from_specs, form_availability, form_availability_message, split_on};
use crate::cli::tasks::CreateTaskInput;
use crate::models::{CognitiveLoad, DeadlineKind, TaskPriority};
use crate::text::{is_blank, parse_i64, parsed_i64, trim, trim_str};
use crate::tui::keys::Screen;
use crate::tui::state::{App, Effect};
use crate::tui::text_input::{erased, typed, TextSlot};

verus! {

/// The next of five fields, wrapping around.
pub open spec fn next_of_five(f: usize) -> usize {
    ((f + 1) % 5) as usize
}

/// The previous of five fields, wrapping around.
pub open spec fn prev_of_five(f: usize) -> usize {
    if f == 0 {
        4
    } else {
        (f - 1) as usize
    }
}

/// The planner task form's priorities, in the order the form cycles through them.
pub open spec fn priority_at(i: usize) -> TaskPriority {
    if i == 0 {
        TaskPriority::Low
    } else if i == 1 {
        TaskPriority::Normal
    } else {
        TaskPriority::High
    }
}

/// The planner task form's cognitive loads, in cycling order.
pub open spec fn load_at(i: usize) -> CognitiveLoad {
    if i == 0 {
        CognitiveLoad::Low
    } else if i == 1 {
        CognitiveLoad::Medium
    } else {
        CognitiveLoad::High
    }
}

/// `b` is `a` after `c` was typed into the planner task form: the title, the duration (digits
/// only), or a press that cycles the calendar, the priority or the cognitive load.
pub open spec fn task_form_typed(a: App, b: App, c: char) -> bool {
    if a.planner_task_field == 0 {
        typed(a, b, TextSlot::TaskTitle, c)
    } else if a.planner_task_field == 1 {
        if '0' <= c <= '9' {
            typed(a, b, TextSlot::TaskDuration, c)
        } else {
            b == a
        }
    } else if a.planner_task_field == 2 {
        if a.calendars@.len() > 0 {
            b == App {
                planner_task_calendar_index: ((a.planner_task_calendar_index + 1) % (a.calendars@.len() as int)) as usize,
                ..a
            }
        } else {
            b == a
        }
    } else if a.planner_task_field == 3 {
        b == App { planner_task_priority_index: ((a.planner_task_priority_index + 1) % 3) as usize, ..a }
    } else {
        b == App { planner_task_cognitive_index: ((a.planner_task_cognitive_index + 1) % 3) as usize, ..a }
    }
}

/// `b` is `a` after a backspace in the planner task form.
pub open spec fn task_form_erased(a: App, b: App) -> bool {
    if a.planner_task_field == 0 {
        erased(a, b, TextSlot::TaskTitle)
    } else if a.planner_task_field == 1 {
        erased(a, b, TextSlot::TaskDuration)
    } else {
        b == a
    }
}

/// The buffer of a field of the planner settings form.
pub open spec fn settings_slot(f: usize) -> TextSlot {
    if f == 0 {
        TextSlot::SettingsTimezone
    } else if f == 1 {
        TextSlot::SettingsAvailability
    } else if f == 2 {
        TextSlot::SettingsHorizonDays
    } else if f == 3 {
        TextSlot::SettingsSlotMinutes
    } else {
        TextSlot::SettingsSolveSeconds
    }
}

/// Why the planner task form cannot be submitted, if it cannot.
pub open spec fn task_submit_error(a: App) -> Option<Seq<char>> {
    if a.planner_task_calendar_index >= a.calendars@.len() {
        Some("Create a calendar before adding a planner task."@)
    } else {
        match parsed_i64(a.planner_task_duration@) {
            Some(d) => if d > 0 {
                None
            } else {
                Some("Task duration must be a positive number of minutes."@)
            },
            None => Some("Task duration must be a positive number of minutes."@),
        }
    }
}

/// `b` and `effects` are what submitting the planner task form of `a` gives.
pub open spec fn task_submitted(a: App, b: App, effects: Seq<Effect>) -> bool {
    match task_submit_error(a) {
        Some(msg) => {
            &&& b == App { status_message: b.status_message, status_is_error: true, ..a }
            &&& b.status_message@ == msg
            &&& effects.len() == 0
        },
        None => {
            &&& b == App { loading: true, view: Screen::PlannerInbox, ..a }
            &&& effects.len() == 1
            &&& effects[0] matches Effect::CreatePlannerTask { input }
            &&& input.title@ == a.planner_task_title@
            &&& parsed_i64(a.planner_task_duration@) == Some(input.duration_minutes)
            &&& input.target_calendar_id@ == a.calendars@[a.planner_task_calendar_index as int].id@
            &&& input.project_id is None
            &&& input.priority == priority_at(a.planner_task_priority_index)
            &&& input.cognitive_load == load_at(a.planner_task_cognitive_index)
            &&& input.earliest_at is None
            &&& input.deadline_kind == DeadlineKind::NoDeadline
            &&& input.deadline_at is None
        },
    }
}

/// The planner's answer to a time zone it is asked to store.
pub open spec fn timezone_message() -> Seq<char> {
    "Timezone must be an IANA name such as Europe/Rome or UTC."@
}

/// Why the planner settings form cannot be submitted, if it cannot.
pub open spec fn settings_submit_error(a: App) -> Option<Seq<char>> {
    if trim(a.planner_settings_timezone@).len() == 0 {
        Some(timezone_message())
    } else if form_availability(split_on(a.planner_settings_availability@, ',')) is None {
        Some(form_availability_message())
    } else if parsed_i64(a.planner_settings_horizon_days@) is None {
        Some("Horizon days must be a whole number."@)
    } else if parsed_i64(a.planner_settings_slot_minutes@) is None {
        Some("Slot minutes must be a whole number."@)
    } else if parsed_i64(a.planner_settings_solve_seconds@) is None {
        Some("Solve seconds must be a whole number."@)
    } else {
        None
    }
}

/// `b` and `effects` are what submitting the planner settings form of `a` gives.
pub open spec fn settings_submitted(a: App, b: App, effects: Seq<Effect>) -> bool {
    match settings_submit_error(a) {
        Some(msg) => {
            &&& b == App { status_message: b.status_message, status_is_error: true, ..a }
            &&& b.status_message@ == msg
            &&& effects.len() == 0
        },
        None => {
            &&& b == App { loading: true, view: Screen::PlannerInbox, ..a }
            &&& effects.len() == 1
            &&& effects[0] matches Effect::UpdatePlannerSettings {
                timezone,
                availability,
                horizon_days,
                slot_minutes,
                solve_seconds,
            }
            &&& timezone@ == trim(a.planner_settings_timezone@)
            &&& Some(availability@) == form_availability(split_on(a.planner_settings_availability@, ','))
            &&& parsed_i64(a.planner_settings_horizon_days@) == Some(horizon_days)
            &&& parsed_i64(a.planner_settings_slot_minutes@) == Some(slot_minutes)
            &&& parsed_i64(a.planner_settings_solve_seconds@) == Some(solve_seconds)
        },
    }
}

/// What keeps the planner from optimizing, if anything.
pub open spec fn optimization_blocker(a: App) -> Option<Seq<char>> {
    match a.planner_settings {
        None => Some("Planner settings are loading; wait a moment, then optimize."@),
        Some(s) => match s.timezone {
            None => Some("Set a planner timezone first: use an IANA name such as Europe/Rome or UTC."@),
            Some(tz) => if trim(tz@).len() == 0 {
                Some("Correct the planner timezone: use an IANA name such as Europe/Rome or UTC."@)
            } else if s.availability is None {
                Some("Correct the weekly availability before optimizing."@)
            } else {
                None
            },
        },
    }
}

/// Tab then Shift-Tab, or Shift-Tab then Tab, come back to the same planner form field.
pub proof fn lemma_field_round_trip(f: usize)
    requires
        f < 5,
    ensures
        prev_of_five(next_of_five(f)) == f,
        next_of_five(prev_of_five(f)) == f,
{
}

proof fn lemma_mod_step(x: int, n: int)
    requires
        n > 0,
        x >= 0,
    ensures
        (x + 1) % n == (x % n + 1) % n,
        x % n + 1 <= n,
{
    vstd::arithmetic::div_mod::lemma_add_mod_noop(x, 1, n);
    vstd::arithmetic::div_mod::lemma_mod_bound(x, n);
    if n == 1 {
        assert(x % n == 0);
        assert((1int % n) == 0);
        assert(((x % n) + (1int % n)) % n == 0);
        assert((x % n + 1) % n == 0);
    } else {
        vstd::arithmetic::div_mod::lemma_small_mod(1nat, n as nat);
    }
}

impl App {
    /// Opens a blank planner task form.
    pub fn open_planner_task_form(&mut self)
        requires
            old(self).wf(),
        ensures
            *final(self) == (App {
                planner_task_title: final(self).planner_task_title,
                planner_task_duration: final(self).planner_task_duration,
                planner_task_field: 0,
                planner_task_calendar_index: 0,
                planner_task_priority_index: 1,
                planner_task_cognitive_index: 1,
                view: Screen::PlannerTaskForm,
                ..*old(self)
            }),
            final(self).planner_task_title@.len() == 0,
            final(self).planner_task_duration@ == "60"@,
            final(self).wf(),
    {
        self.planner_task_field = 0;
        self.planner_task_title = String::new();
        self.planner_task_duration = String::from_str("60");
        self.planner_task_calendar_index = 0;
        self.planner_task_priority_index = 1;
        self.planner_task_cognitive_index = 1;
        self.view = Screen::PlannerTaskForm;
    }

    /// Moves to the next field of the planner task form, wrapping around.
    pub fn planner_task_next_field(&mut self)
        requires
            old(self).wf(),
        ensures
            *final(self) == (App { planner_task_field: next_of_five(old(self).planner_task_field), ..*old(self) }),
            final(self).wf(),
    {
        self.planner_task_field = (self.planner_task_field + 1) % 5;
    }

    /// Moves to the previous field of the planner task form, wrapping around.
    pub fn planner_task_prev_field(&mut self)
        requires
            old(self).wf(),
        ensures
            *final(self) == (App { planner_task_field: prev_of_five(old(self).planner_task_field), ..*old(self) }),
            final(self).wf(),
    {
        self.planner_task_field = match self.planner_task_field.checked_sub(1) {
            Some(f) => f,
            None => 4,
        };
    }

    /// Types `c` into the planner task form.
    pub fn planner_task_input_char(&mut self, c: char)
        requires
            old(self).wf(),
        ensures
            task_form_typed(*old(self), *final(self), c),
            final(self).wf(),
    {
        if self.planner_task_field == 0 {
            self.type_into(TextSlot::TaskTitle, c);
        } else if self.planner_task_field == 1 {
            if '0' <= c && c <= '9' {
                self.type_into(TextSlot::TaskDuration, c);
            }
        } else if self.planner_task_field == 2 {
            if self.calendars.len() > 0 {
                let n = self.calendars.len();
                proof {
                    lemma_mod_step(self.planner_task_calendar_index as int, n as int);
                }
                self.planner_task_calendar_index = (self.planner_task_calendar_index % n + 1) % n;
            }
        } else if self.planner_task_field == 3 {
            self.planner_task_priority_index = (self.planner_task_priority_index + 1) % 3;
        } else {
            self.planner_task_cognitive_index = (self.planner_task_cognitive_index + 1) % 3;
        }
    }

    /// A backspace in the planner task form.
    pub fn planner_task_input_backspace(&mut self)
        requires
            old(self).wf(),
        ensures
            task_form_erased(*old(self), *final(self)),
            final(self).wf(),
    {
        if self.planner_task_field == 0 {
            self.erase_from(TextSlot::TaskTitle);
        } else if self.planner_task_field == 1 {
            self.erase_from(TextSlot::TaskDuration);
        }
    }

    /// Hands the task the form describes over to be created, or says why it cannot be.
    pub fn planner_task_submit(&mut self) -> (r: Vec<Effect>)
        requires
            old(self).wf(),
        ensures
            task_submitted(*old(self), *final(self), r@),
            final(self).wf(),
    {
        if self.planner_task_calendar_index >= self.calendars.len() {
            self.set_status(String::from_str("Create a calendar before adding a planner task."), true);
            return Vec::new();
        }
        let duration_minutes = match parse_i64(self.planner_task_duration.as_str()) {
            Some(value) => {
                if value > 0 {
                    value
                } else {
                    self.set_status(String::from_str("Task duration must be a positive number of minutes."), true);
                    return Vec::new();
                }
            },
            None => {
                self.set_status(String::from_str("Task duration must be a positive number of minutes."), true);
                return Vec::new();
            },
        };
        let priority = if self.planner_task_priority_index == 0 {
            TaskPriority::Low
        } else if self.planner_task_priority_index == 1 {
            TaskPriority::Normal
        } else {
            TaskPriority::High
        };
        let cognitive_load = if self.planner_task_cognitive_index == 0 {
            CognitiveLoad::Low
        } else if self.planner_task_cognitive_index == 1 {
            CognitiveLoad::Medium
        } else {
            CognitiveLoad::High
        };
        self.loading = true;
        let input = CreateTaskInput {
            title: self.planner_task_title.clone(),
            duration_minutes,
            target_calendar_id: self.calendars[self.planner_task_calendar_index].id.clone(),
            project_id: None,
            priority,
            cognitive_load,
            earliest_at: None,
            deadline_kind: DeadlineKind::NoDeadline,
            deadline_at: None,
        };
        self.view = Screen::PlannerInbox;
        vec![Effect::CreatePlannerTask { input }]
    }

    /// Opens the planner settings form and asks for the stored settings.
    pub fn open_planner_settings_form(&mut self) -> (r: Vec<Effect>)
        requires
            old(self).wf(),
        ensures
            *final(self) == (App {
                planner_settings_field: 0,
                view: Screen::PlannerSettingsForm,
                ..*old(self)
            }),
            r@ == seq![Effect::LoadPlannerSettings],
            final(self).wf(),
    {
        self.planner_settings_field = 0;
        self.view = Screen::PlannerSettingsForm;
        vec![Effect::LoadPlannerSettings]
    }

    /// Moves to the next field of the planner settings form, wrapping around.
    pub fn planner_settings_next_field(&mut self)
        requires
            old(self).wf(),
        ensures
            *final(self) == (App {
                planner_settings_field: next_of_five(old(self).planner_settings_field),
                ..*old(self)
            }),
            final(self).wf(),
    {
        self.planner_settings_field = (self.planner_settings_field + 1) % 5;
    }

    /// Moves to the previous field of the planner settings form, wrapping around.
    pub fn planner_settings_prev_field(&mut self)
        requires
            old(self).wf(),
        ensures
            *final(self) == (App {
                planner_settings_field: prev_of_five(old(self).planner_settings_field),
                ..*old(self)
            }),
            final(self).wf(),
    {
        self.planner_settings_field = match self.planner_settings_field.checked_sub(1) {
            Some(f) => f,
            None => 4,
        };
    }

    /// Types `c` into the active field of the planner settings form.
    pub fn planner_settings_input_char(&mut self, c: char)
        requires
            old(self).wf(),
        ensures
            typed(*old(self), *final(self), settings_slot(old(self).planner_settings_field), c),
            final(self).wf(),
    {
        let slot = if self.planner_settings_field == 0 {
            TextSlot::SettingsTimezone
        } else if self.planner_settings_field == 1 {
            TextSlot::SettingsAvailability
        } else if self.planner_settings_field == 2 {
            TextSlot::SettingsHorizonDays
        } else if self.planner_settings_field == 3 {
            TextSlot::SettingsSlotMinutes
        } else {
            TextSlot::SettingsSolveSeconds
        };
        self.type_into(slot, c);
    }

    /// A backspace in the active field of the planner settings form.
    pub fn planner_settings_input_backspace(&mut self)
        requires
            old(self).wf(),
        ensures
            erased(*old(self), *final(self), settings_slot(old(self).planner_settings_field)),
            final(self).wf(),
    {
        let slot = if self.planner_settings_field == 0 {
            TextSlot::SettingsTimezone
        } else if self.planner_settings_field == 1 {
            TextSlot::SettingsAvailability
        } else if self.planner_settings_field == 2 {
            TextSlot::SettingsHorizonDays
        } else if self.planner_settings_field == 3 {
            TextSlot::SettingsSlotMinutes
        } else {
            TextSlot::SettingsSolveSeconds
        };
        self.erase_from(slot);
    }

    /// Hands the settings the form describes over to be stored, or says why they cannot be.
    pub fn planner_settings_submit(&mut self) -> (r: Vec<Effect>)
        requires
            old(self).wf(),
        ensures
            settings_submitted(*old(self), *final(self), r@),
            final(self).wf(),
    {
        if is_blank(self.planner_settings_timezone.as_str()) {
            self.set_status(String::from_str("Timezone must be an IANA name such as Europe/Rome or UTC."), true);
            return Vec::new();
        }
        let timezone = trim_str(self.planner_settings_timezone.as_str());
        let availability = match availability_from_specs(self.planner_settings_availability.as_str()) {
            Ok(value) => value,
            Err(message) => {
                self.set_status(message, true);
                return Vec::new();
            },
        };
        let horizon_days = match parse_i64(self.planner_settings_horizon_days.as_str()) {
            Some(value) => value,
            None => {
                self.set_status(String::from_str("Horizon days must be a whole number."), true);
                return Vec::new();
            },
        };
        let slot_minutes = match parse_i64(self.planner_settings_slot_minutes.as_str()) {
            Some(value) => value,
            None => {
                self.set_status(String::from_str("Slot minutes must be a whole number."), true);
                return Vec::new();
            },
        };
        let solve_seconds = match parse_i64(self.planner_settings_solve_seconds.as_str()) {
            Some(value) => value,
            None => {
                self.set_status(String::from_str("Solve seconds must be a whole number."), true);
                return Vec::new();
            },
        };
        self.loading = true;
        self.view = Screen::PlannerInbox;
        vec![
            Effect::UpdatePlannerSettings {
                timezone,
                availability,
                horizon_days,
                slot_minutes,
                solve_seconds,
            },
        ]
    }

    /// What keeps the planner from optimizing, as a message, if anything.
    pub fn planner_optimization_prerequisite(&self) -> (r: Option<String>)
        ensures
            match optimization_blocker(*self) {
                Some(m) => r matches Some(s) && s@ == m,
                None => r is None,
            },
    {
        match &self.planner_settings {
            None => Some(String::from_str("Planner settings are loading; wait a moment, then optimize.")),
            Some(settings) => match &settings.timezone {
                None => Some(
                    String::from_str("Set a planner timezone first: use an IANA name such as Europe/Rome or UTC."),
                ),
                Some(tz) => {
                    if is_blank(tz.as_str()) {
                        Some(
                            String::from_str(
                                "Correct the planner timezone: use an IANA name such as Europe/Rome or UTC.",
                            ),
                        )
                    } else if settings.availability.is_none() {
                        Some(String::from_str("Correct the weekly availability before optimizing."))
                    } else {
                        None
                    }
                },
            },
        }
    }
}

} // verus!

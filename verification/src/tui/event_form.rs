use vstd::prelude::*;
use vstd::string::StringExecFns;

use crate::dag::str_eq;
use crate::dates::{date_text, format_date};
use crate::models::{Calendar, Event, EventView, Project};
use crate::text::{char_slice, int_string, int_text, is_blank, parse_i64, parsed_i64, trim, trim_str};
use crate::tui::keys::Screen;
use crate::tui::query::{has_calendar, visible_event_seq};
use crate::tui::state::{form_ready, App, Effect};
use crate::tui::text_input::{erased, form_slot, typed, TextSlot};
use crate::tui::{form_field_order, FormField};

verus! {

/// Position `idx` holds the first calendar with id `id`, or is 0 where none has it.
pub open spec fn first_calendar_at(cals: Seq<Calendar>, id: Seq<char>, idx: int) -> bool {
    if has_calendar(cals, id) {
        &&& 0 <= idx < cals.len()
        &&& cals[idx].id@ == id
        &&& forall|j: int| 0 <= j < idx ==> #[trigger] cals[j].id@ != id
    } else {
        idx == 0
    }
}

/// Some project has id `id`.
pub open spec fn has_project(ps: Seq<Project>, id: Seq<char>) -> bool {
    exists|i: int| 0 <= i < ps.len() && #[trigger] ps[i].id@ == id
}

/// The form's project choice for an event's project: 0 for none, else one past the position
/// of the first project with that id (0 where no project has it).
pub open spec fn project_choice_at(ps: Seq<Project>, pid: Option<Seq<char>>, idx: int) -> bool {
    match pid {
        None => idx == 0,
        Some(id) => if has_project(ps, id) {
            &&& 1 <= idx <= ps.len()
            &&& ps[idx - 1].id@ == id
            &&& forall|j: int| 0 <= j < idx - 1 ==> #[trigger] ps[j].id@ != id
        } else {
            idx == 0
        },
    }
}

/// `Some` of non-empty text; `None` of empty text.
pub open spec fn unless_empty(s: Seq<char>) -> Option<Seq<char>> {
    if s.len() == 0 {
        None
    } else {
        Some(s)
    }
}

/// The `HH:MM` part of a stored time, or `fallback` when the text is too short to hold it.
pub open spec fn clock_part(t: Seq<char>, fallback: Seq<char>) -> Seq<char> {
    if t.len() >= 16 {
        t.subrange(11, 16)
    } else {
        fallback
    }
}

/// `b` is `a` with the event form opened: blank for a new event on the focused date, or
/// filled from `ev` for an edit.
pub open spec fn form_opened(a: App, b: App, ev: Option<Event>) -> bool {
    &&& b == App {
        form_is_new: b.form_is_new,
        form_editing_event: b.form_editing_event,
        form_title: b.form_title,
        form_date: b.form_date,
        form_start_time: b.form_start_time,
        form_end_time: b.form_end_time,
        form_location: b.form_location,
        form_description: b.form_description,
        form_rrule: b.form_rrule,
        form_reminder: b.form_reminder,
        form_all_day: b.form_all_day,
        form_calendar_index: b.form_calendar_index,
        form_timezone: b.form_timezone,
        form_project_index: b.form_project_index,
        form_recurrence_index: b.form_recurrence_index,
        form_field_index: 0,
        view: Screen::EventForm,
        ..a
    }
    &&& match ev {
        None => {
            &&& b.form_is_new
            &&& b.form_editing_event is None
            &&& b.form_title@.len() == 0
            &&& b.form_date@ == date_text(a.focused_date)
            &&& b.form_start_time@ == "09:00"@
            &&& b.form_end_time@ == "10:00"@
            &&& b.form_location@.len() == 0
            &&& b.form_description@.len() == 0
            &&& b.form_rrule@.len() == 0
            &&& b.form_reminder@ == "15"@
            &&& !b.form_all_day
            &&& b.form_calendar_index == 0
            &&& b.form_timezone@ == a.default_timezone@
            &&& b.form_project_index == 0
            &&& b.form_recurrence_index == 0
        },
        Some(e) => {
            &&& !b.form_is_new
            &&& b.form_editing_event == Some(e)
            &&& b.form_title@ == e.title@
            &&& b.form_date@ == e.start_at@.subrange(0, 10)
            &&& b.form_start_time@ == clock_part(e.start_at@, "09:00"@)
            &&& b.form_end_time@ == clock_part(e.end_at@, "10:00"@)
            &&& b.form_location@ == (match e.location {
                Some(t) => t@,
                None => Seq::empty(),
            })
            &&& b.form_description@ == (match e.description {
                Some(t) => t@,
                None => Seq::empty(),
            })
            &&& b.form_rrule@ == (match e.rrule {
                Some(t) => t@,
                None => Seq::empty(),
            })
            &&& b.form_reminder@ == (match e.reminder_minutes {
                Some(m) => int_text(m as int),
                None => Seq::empty(),
            })
            &&& b.form_all_day == e.all_day
            &&& first_calendar_at(a.calendars@, e.calendar_id@, b.form_calendar_index as int)
            &&& b.form_timezone@ == e.timezone@
            &&& project_choice_at(a.projects@, crate::models::opt_view(e.project_id), b.form_project_index as int)
            &&& b.form_recurrence_index == a.form_recurrence_index
        },
    }
}

/// The field of the event form under the cursor.
pub open spec fn active_field(a: App) -> FormField {
    form_field_order()[a.form_field_index as int]
}

/// `c` moves a choice among `len` options: `+` or `l` forward, `-` or `h` back, within bounds.
pub open spec fn calendar_step(idx: usize, len: nat, c: char) -> usize {
    if c == '+' || c == 'l' {
        if idx + 1 < len {
            (idx + 1) as usize
        } else {
            idx
        }
    } else if (c == '-' || c == 'h') && idx > 0 {
        (idx - 1) as usize
    } else {
        idx
    }
}

/// The project choice also has "none" before the projects, so it runs up to `len`.
pub open spec fn project_step(idx: usize, len: nat, c: char) -> usize {
    if c == '+' || c == 'l' {
        if idx < len {
            (idx + 1) as usize
        } else {
            idx
        }
    } else if (c == '-' || c == 'h') && idx > 0 {
        (idx - 1) as usize
    } else {
        idx
    }
}

/// `b` is `a` after `c` was typed into the active field of the event form.
pub open spec fn typed_in_form(a: App, b: App, c: char) -> bool {
    let f = active_field(a);
    match form_slot(f) {
        Some(s) => if f == FormField::Reminder && !('0' <= c <= '9') {
            b == a
        } else {
            typed(a, b, s, c)
        },
        None => match f {
            FormField::Calendar => b == App {
                form_calendar_index: calendar_step(a.form_calendar_index, a.calendars@.len(), c),
                ..a
            },
            FormField::Project => b == App {
                form_project_index: project_step(a.form_project_index, a.projects@.len(), c),
                ..a
            },
            FormField::AllDay => b == App {
                form_all_day: if c == ' ' {
                    !a.form_all_day
                } else {
                    a.form_all_day
                },
                ..a
            },
            _ => b == a,
        },
    }
}

/// `b` is `a` after a backspace in the active field of the event form.
pub open spec fn erased_in_form(a: App, b: App) -> bool {
    match form_slot(active_field(a)) {
        Some(s) => erased(a, b, s),
        None => b == a,
    }
}

/// `b` is `a` after `c` was typed into the iCal import popup: the path, or the choice of
/// calendar (`h`/`-` back, `l`/`+` forward).
pub open spec fn typed_in_ical_import(a: App, b: App, c: char) -> bool {
    if a.ical_import_field_index == 0 {
        typed(a, b, TextSlot::IcalPath, c)
    } else {
        b == App {
            ical_import_calendar_index: if (c == 'h' || c == '-') && a.ical_import_calendar_index > 0 {
                (a.ical_import_calendar_index - 1) as usize
            } else if (c == 'l' || c == '+') && a.ical_import_calendar_index + 1 < a.calendars@.len() {
                (a.ical_import_calendar_index + 1) as usize
            } else {
                a.ical_import_calendar_index
            },
            ..a
        }
    }
}

/// `b` is `a` after `c` was typed in a text popup or form other than the planner's.
pub open spec fn form_typed(a: App, b: App, c: char) -> bool {
    match a.view {
        Screen::QuickAdd => typed(a, b, TextSlot::QuickAdd, c),
        Screen::GoogleAuth => if a.google_auth_field == 0 {
            typed(a, b, TextSlot::ClientId, c)
        } else {
            typed(a, b, TextSlot::ClientSecret, c)
        },
        Screen::IcalImport => typed_in_ical_import(a, b, c),
        Screen::EventForm => typed_in_form(a, b, c),
        _ => b == a,
    }
}

/// `b` is `a` after a backspace in a text popup or form other than the planner's.
pub open spec fn form_erased(a: App, b: App) -> bool {
    match a.view {
        Screen::QuickAdd => erased(a, b, TextSlot::QuickAdd),
        Screen::GoogleAuth => if a.google_auth_field == 0 {
            erased(a, b, TextSlot::ClientId)
        } else {
            erased(a, b, TextSlot::ClientSecret)
        },
        Screen::IcalImport => if a.ical_import_field_index == 0 {
            erased(a, b, TextSlot::IcalPath)
        } else {
            b == a
        },
        Screen::EventForm => erased_in_form(a, b),
        _ => b == a,
    }
}

/// The stored start time the form describes: its date, its start and `:00`.
pub open spec fn form_start_text(a: App) -> Seq<char> {
    a.form_date@ + " "@ + a.form_start_time@ + ":00"@
}

/// The stored end time the form describes.
pub open spec fn form_end_text(a: App) -> Seq<char> {
    a.form_date@ + " "@ + a.form_end_time@ + ":00"@
}

/// The project the form chose: none at 0, else the project before that position.
pub open spec fn form_project(a: App) -> Option<Seq<char>> {
    if a.form_project_index == 0 || a.form_project_index - 1 >= a.projects@.len() {
        None
    } else {
        Some(a.projects@[a.form_project_index - 1]@.id)
    }
}

/// Why the event form cannot be saved, if it cannot.
pub open spec fn form_submit_error(a: App) -> Option<Seq<char>> {
    if trim(a.form_title@).len() == 0 {
        Some("Title cannot be empty."@)
    } else if a.form_calendar_index >= a.calendars@.len() || a.calendars@[a.form_calendar_index as int].id@.len()
        == 0 {
        Some("No calendar selected."@)
    } else {
        None
    }
}

/// The fields of a saved event that the form sets.
pub open spec fn form_fields_of(a: App, e: EventView) -> bool {
    &&& e.calendar_id == a.calendars@[a.form_calendar_index as int].id@
    &&& e.title == a.form_title@
    &&& e.start_at == form_start_text(a)
    &&& e.end_at == form_end_text(a)
    &&& e.all_day == a.form_all_day
    &&& e.timezone == trim(a.form_timezone@)
    &&& e.location == unless_empty(a.form_location@)
    &&& e.description == unless_empty(a.form_description@)
    &&& e.rrule == unless_empty(a.form_rrule@)
    &&& e.reminder_minutes == parsed_i64(a.form_reminder@)
    &&& e.project_id == form_project(a)
}

/// The fields of a saved event that the form keeps: those of the edited event, or those of a
/// fresh one.
pub open spec fn form_kept_fields(a: App, e: EventView) -> bool {
    match a.form_editing_event {
        Some(x) => {
            &&& e.id == x@.id
            &&& e.google_id == x@.google_id
            &&& e.google_etag == x@.google_etag
            &&& e.created_at == x@.created_at
            &&& e.updated_at == x@.updated_at
            &&& e.deleted_at == x@.deleted_at
        },
        None => {
            &&& crate::clock::is_uuid_v4_text(e.id)
            &&& e.google_id is None
            &&& e.google_etag is None
            &&& e.created_at == e.updated_at
            &&& e.deleted_at is None
        },
    }
}

/// `b` and `effects` are what submitting the event form of `a` gives: an error on the status
/// line, or the event handed over to be saved.
pub open spec fn form_submitted(a: App, b: App, effects: Seq<Effect>) -> bool {
    match form_submit_error(a) {
        Some(msg) => {
            &&& b == App { status_message: b.status_message, status_is_error: true, ..a }
            &&& b.status_message@ == msg
            &&& effects.len() == 0
        },
        None => {
            &&& b == App { loading: true, ..a }
            &&& effects.len() == 1
            &&& effects[0] matches Effect::SaveEvent { event, is_new }
            &&& is_new == a.form_is_new
            &&& form_fields_of(a, event@)
            &&& form_kept_fields(a, event@)
        },
    }
}

fn project_index_of(projects: &Vec<Project>, id: &String) -> (r: usize)
    ensures
        project_choice_at(projects@, Some(id@), r as int),
{
    let mut i: usize = 0;
    while i < projects.len()
        invariant
            i <= projects@.len(),
            forall|j: int| 0 <= j < i ==> #[trigger] projects@[j].id@ != id@,
        decreases projects@.len() - i,
    {
        if str_eq(projects[i].id.as_str(), id.as_str()) {
            return i + 1;
        }
        i += 1;
    }
    0
}

fn text_or_empty(o: &Option<String>) -> (r: String)
    ensures
        r@ == (match *o {
            Some(t) => t@,
            None => Seq::empty(),
        }),
{
    match o {
        Some(t) => t.clone(),
        None => String::new(),
    }
}

fn clock_of(t: &String, fallback: &str) -> (r: String)
    requires
        vstd::utf8::is_ascii_chars(t@),
    ensures
        r@ == clock_part(t@, fallback@),
{
    if t.as_str().unicode_len() >= 16 {
        char_slice(t.as_str(), 11, 16)
    } else {
        String::from_str(fallback)
    }
}

fn text_if_any(s: &String) -> (r: Option<String>)
    ensures
        crate::models::opt_view(r) == unless_empty(s@),
{
    if s.as_str().unicode_len() == 0 {
        None
    } else {
        Some(s.clone())
    }
}

impl App {
    /// Opens the event form: blank for a new event, or filled from `event` to edit it.
    pub fn open_event_form(&mut self, event: Option<&Event>)
        requires
            old(self).wf(),
            event matches Some(e) ==> form_ready(*e),
        ensures
            form_opened(*old(self), *final(self), match event {
                Some(e) => Some(*e),
                None => None,
            }),
            final(self).wf(),
    {
        match event {
            None => {
                self.form_is_new = true;
                self.form_editing_event = None;
                self.form_title = String::new();
                self.form_date = format_date(self.focused_date);
                self.form_start_time = String::from_str("09:00");
                self.form_end_time = String::from_str("10:00");
                self.form_location = String::new();
                self.form_description = String::new();
                self.form_rrule = String::new();
                self.form_reminder = String::from_str("15");
                self.form_all_day = false;
                self.form_calendar_index = 0;
                self.form_timezone = self.default_timezone.clone();
                self.form_project_index = 0;
                self.form_recurrence_index = 0;
            },
            Some(ev) => {
                self.form_is_new = false;
                self.form_editing_event = Some(ev.clone());
                self.form_title = ev.title.clone();
                self.form_date = char_slice(ev.start_at.as_str(), 0, 10);
                self.form_start_time = clock_of(&ev.start_at, "09:00");
                self.form_end_time = clock_of(&ev.end_at, "10:00");
                self.form_location = text_or_empty(&ev.location);
                self.form_description = text_or_empty(&ev.description);
                self.form_rrule = text_or_empty(&ev.rrule);
                self.form_reminder = match ev.reminder_minutes {
                    Some(m) => int_string(m),
                    None => String::new(),
                };
                self.form_all_day = ev.all_day;
                self.form_calendar_index = self.calendar_index_for(ev.calendar_id.as_str());
                self.form_timezone = ev.timezone.clone();
                self.form_project_index = match &ev.project_id {
                    Some(pid) => project_index_of(&self.projects, pid),
                    None => 0,
                };
            },
        }
        self.form_field_index = 0;
        self.view = Screen::EventForm;
    }

    /// Opens the event form on the selected event, or says that none is selected.
    pub fn open_edit_form(&mut self)
        requires
            old(self).wf(),
        ensures
            final(self).wf(),
            ({
                let v = visible_event_seq(old(self).calendars@, old(self).events@);
                if old(self).selected_event_index < v.len() {
                    form_opened(*old(self), *final(self), Some(v[old(self).selected_event_index as int]))
                } else {
                    &&& *final(self) == App { status_message: final(self).status_message, status_is_error: false, ..*old(self) }
                    &&& final(self).status_message@ == "No event selected."@
                }
            }),
    {
        let chosen = match self.selected_event() {
            Some(e) => Some(e.clone()),
            None => None,
        };
        match chosen {
            Some(event) => {
                proof {
                    crate::tui::query::lemma_visible_are_events(self.calendars@, self.events@);
                }
                self.open_event_form(Some(&event));
            },
            None => self.set_status(String::from_str("No event selected."), false),
        }
    }

    /// Moves to the next field of the event form, stopping at the last.
    pub fn form_next_field(&mut self)
        requires
            old(self).wf(),
        ensures
            *final(self) == (App {
                form_field_index: if old(self).form_field_index + 1 < 12 {
                    (old(self).form_field_index + 1) as usize
                } else {
                    old(self).form_field_index
                },
                ..*old(self)
            }),
            final(self).wf(),
    {
        if self.form_field_index + 1 < self.form_fields.len() {
            self.form_field_index = self.form_field_index + 1;
        }
    }

    /// Moves to the previous field of the event form, stopping at the first.
    pub fn form_prev_field(&mut self)
        requires
            old(self).wf(),
        ensures
            *final(self) == (App {
                form_field_index: if old(self).form_field_index > 0 {
                    (old(self).form_field_index - 1) as usize
                } else {
                    0
                },
                ..*old(self)
            }),
            final(self).wf(),
    {
        if self.form_field_index > 0 {
            self.form_field_index = self.form_field_index - 1;
        }
    }

    /// Types `c` into the active field of the event form.
    pub fn form_active_field_push(&mut self, c: char)
        requires
            old(self).wf(),
        ensures
            typed_in_form(*old(self), *final(self), c),
            final(self).wf(),
    {
        let field = self.form_fields[self.form_field_index];
        match field {
            FormField::Title => self.type_into(TextSlot::FormTitle, c),
            FormField::Date => self.type_into(TextSlot::FormDate, c),
            FormField::StartTime => self.type_into(TextSlot::FormStartTime, c),
            FormField::EndTime => self.type_into(TextSlot::FormEndTime, c),
            FormField::Location => self.type_into(TextSlot::FormLocation, c),
            FormField::Description => self.type_into(TextSlot::FormDescription, c),
            FormField::Timezone => self.type_into(TextSlot::FormTimezone, c),
            FormField::Recurrence => self.type_into(TextSlot::FormRecurrence, c),
            FormField::Reminder => {
                if '0' <= c && c <= '9' {
                    self.type_into(TextSlot::FormReminder, c);
                }
            },
            FormField::Calendar => {
                if c == '+' || c == 'l' {
                    if self.form_calendar_index < self.calendars.len() && self.form_calendar_index + 1
                        < self.calendars.len() {
                        self.form_calendar_index = self.form_calendar_index + 1;
                    }
                } else if (c == '-' || c == 'h') && self.form_calendar_index > 0 {
                    self.form_calendar_index = self.form_calendar_index - 1;
                }
            },
            FormField::Project => {
                if c == '+' || c == 'l' {
                    if self.form_project_index < self.projects.len() {
                        self.form_project_index = self.form_project_index + 1;
                    }
                } else if (c == '-' || c == 'h') && self.form_project_index > 0 {
                    self.form_project_index = self.form_project_index - 1;
                }
            },
            FormField::AllDay => {
                if c == ' ' {
                    self.form_all_day = !self.form_all_day;
                }
            },
        }
    }

    /// Erases the last character of the active field of the event form.
    pub fn form_active_field_pop(&mut self)
        requires
            old(self).wf(),
        ensures
            erased_in_form(*old(self), *final(self)),
            final(self).wf(),
    {
        let field = self.form_fields[self.form_field_index];
        match field {
            FormField::Title => self.erase_from(TextSlot::FormTitle),
            FormField::Date => self.erase_from(TextSlot::FormDate),
            FormField::StartTime => self.erase_from(TextSlot::FormStartTime),
            FormField::EndTime => self.erase_from(TextSlot::FormEndTime),
            FormField::Location => self.erase_from(TextSlot::FormLocation),
            FormField::Description => self.erase_from(TextSlot::FormDescription),
            FormField::Timezone => self.erase_from(TextSlot::FormTimezone),
            FormField::Recurrence => self.erase_from(TextSlot::FormRecurrence),
            FormField::Reminder => self.erase_from(TextSlot::FormReminder),
            _ => {},
        }
    }

    /// Types `c` into the iCal import popup.
    pub fn ical_import_input_char(&mut self, c: char)
        requires
            old(self).wf(),
        ensures
            typed_in_ical_import(*old(self), *final(self), c),
            final(self).wf(),
    {
        if self.ical_import_field_index == 0 {
            self.type_into(TextSlot::IcalPath, c);
        } else if (c == 'h' || c == '-') && self.ical_import_calendar_index > 0 {
            self.ical_import_calendar_index = self.ical_import_calendar_index - 1;
        } else if (c == 'l' || c == '+') && self.ical_import_calendar_index < self.calendars.len()
            && self.ical_import_calendar_index + 1 < self.calendars.len() {
            self.ical_import_calendar_index = self.ical_import_calendar_index + 1;
        }
    }

    /// Types `c` into the popup or form on screen (the planner's forms aside).
    pub fn form_input_char(&mut self, c: char)
        requires
            old(self).wf(),
        ensures
            form_typed(*old(self), *final(self), c),
            final(self).wf(),
    {
        match self.view {
            Screen::QuickAdd => self.type_into(TextSlot::QuickAdd, c),
            Screen::GoogleAuth => {
                if self.google_auth_field == 0 {
                    self.type_into(TextSlot::ClientId, c);
                } else {
                    self.type_into(TextSlot::ClientSecret, c);
                }
            },
            Screen::IcalImport => self.ical_import_input_char(c),
            Screen::EventForm => self.form_active_field_push(c),
            _ => {},
        }
    }

    /// A backspace in the popup or form on screen (the planner's forms aside).
    pub fn form_input_backspace(&mut self)
        requires
            old(self).wf(),
        ensures
            form_erased(*old(self), *final(self)),
            final(self).wf(),
    {
        match self.view {
            Screen::QuickAdd => self.erase_from(TextSlot::QuickAdd),
            Screen::GoogleAuth => {
                if self.google_auth_field == 0 {
                    self.erase_from(TextSlot::ClientId);
                } else {
                    self.erase_from(TextSlot::ClientSecret);
                }
            },
            Screen::IcalImport => {
                if self.ical_import_field_index == 0 {
                    self.erase_from(TextSlot::IcalPath);
                }
            },
            Screen::EventForm => self.form_active_field_pop(),
            _ => {},
        }
    }

    /// Hands the event the form describes over to be saved, or says why it cannot be.
    pub fn form_submit(&mut self) -> (r: Vec<Effect>)
        requires
            old(self).wf(),
        ensures
            form_submitted(*old(self), *final(self), r@),
            final(self).wf(),
    {
        if is_blank(self.form_title.as_str()) {
            self.set_status(String::from_str("Title cannot be empty."), true);
            return Vec::new();
        }
        if self.form_calendar_index >= self.calendars.len() || self.calendars[self.form_calendar_index].id.as_str().unicode_len() == 0 {
            self.set_status(String::from_str("No calendar selected."), true);
            return Vec::new();
        }
        let cal_id = self.calendars[self.form_calendar_index].id.clone();
        let start_at = self.form_date.clone().concat(" ").concat(self.form_start_time.as_str()).concat(":00");
        let end_at = self.form_date.clone().concat(" ").concat(self.form_end_time.as_str()).concat(":00");
        let timezone = trim_str(self.form_timezone.as_str());
        let mut event = match &self.form_editing_event {
            Some(existing) => existing.clone(),
            None => Event::new(cal_id.clone(), self.form_title.clone(), start_at.clone(), end_at.clone(), timezone.clone()),
        };
        event.calendar_id = cal_id;
        event.title = self.form_title.clone();
        event.start_at = start_at;
        event.end_at = end_at;
        event.all_day = self.form_all_day;
        event.timezone = timezone;
        event.location = text_if_any(&self.form_location);
        event.description = text_if_any(&self.form_description);
        event.rrule = text_if_any(&self.form_rrule);
        event.reminder_minutes = parse_i64(self.form_reminder.as_str());
        event.project_id = if self.form_project_index == 0 || self.form_project_index - 1 >= self.projects.len() {
            None
        } else {
            Some(self.projects[self.form_project_index - 1].id.clone())
        };
        self.loading = true;
        let effects = vec![Effect::SaveEvent { event, is_new: self.form_is_new }];
        effects
    }
}

} // verus!

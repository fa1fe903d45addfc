use vstd::prelude::*;
use vstd::string::StringExecFns;

use crate::calendar_service::calendar_views;
use crate::dag::str_eq;
use crate::cli::google::{google_calendars, google_calendars_for};
use crate::dates::{date_text, format_date};
use crate::models::{Calendar, DiscoveredGoogleCalendar, Event};
use crate::text::{is_blank, trim, trim_str};
use crate::tui::keys::Screen;
use crate::tui::query::visible_event_seq;
use crate::tui::state::{App, Effect};

verus! {

/// `b` is `a` with the visibility of the calendar under the sidebar cursor flipped, if the
/// cursor is on one.
pub open spec fn visibility_toggled(a: App, b: App) -> bool {
    let i = a.calendar_list_index as int;
    if i < a.calendars@.len() {
        &&& b == App { calendars: b.calendars, ..a }
        &&& b.calendars@ == a.calendars@.update(i, Calendar { visible: !a.calendars@[i].visible, ..a.calendars@[i] })
    } else {
        b == a
    }
}

/// `b` is what opening the iCal import popup of `a` gives.
pub open spec fn ical_import_opened(a: App, b: App) -> bool {
    if a.calendars@.len() == 0 {
        &&& b == App { status_message: b.status_message, status_is_error: true, ..a }
        &&& b.status_message@ == "No calendar available for import."@
    } else {
        &&& b == App {
            ical_import_path: b.ical_import_path,
            ical_import_calendar_index: if a.calendar_list_index < a.calendars@.len() {
                a.calendar_list_index
            } else {
                (a.calendars@.len() - 1) as usize
            },
            ical_import_field_index: 0,
            view: Screen::IcalImport,
            ..a
        }
        &&& b.ical_import_path@.len() == 0
    }
}

/// Why the iCal import popup cannot be submitted, if it cannot.
pub open spec fn ical_submit_error(a: App) -> Option<Seq<char>> {
    if trim(a.ical_import_path@).len() == 0 {
        Some("Import path cannot be empty."@)
    } else if a.ical_import_calendar_index >= a.calendars@.len() {
        Some("No calendar selected for import."@)
    } else {
        None
    }
}

/// `b` and `effects` are what submitting the iCal import popup of `a` gives.
pub open spec fn ical_submitted(a: App, b: App, effects: Seq<Effect>) -> bool {
    match ical_submit_error(a) {
        Some(msg) => {
            &&& b == App { status_message: b.status_message, status_is_error: true, ..a }
            &&& b.status_message@ == msg
            &&& effects.len() == 0
        },
        None => {
            &&& b == App { status_message: b.status_message, status_is_error: false, loading: true, ..a }
            &&& b.status_message@ == "Importing "@ + trim(a.ical_import_path@) + "…"@
            &&& effects.len() == 1
            &&& effects[0] matches Effect::ImportIcal { calendar_id, path, timezone }
            &&& calendar_id@ == a.calendars@[a.ical_import_calendar_index as int].id@
            &&& path@ == trim(a.ical_import_path@)
            &&& timezone@ == a.default_timezone@
        },
    }
}

/// `b` and `effects` are what asking for the Google calendars of `a` gives: a request when
/// signed in, the sign-in popup otherwise.
pub open spec fn discovery_started(a: App, b: App, effects: Seq<Effect>) -> bool {
    if a.google_connected {
        &&& b == App { status_message: b.status_message, status_is_error: false, loading: true, ..a }
        &&& b.status_message@ == "Loading Google calendars…"@
        &&& effects == seq![Effect::DiscoverGoogleCalendars]
    } else {
        &&& b == App { view: Screen::GoogleAuth, ..a }
        &&& effects.len() == 0
    }
}

/// `b` and `effects` are what opening Google management gives.
pub open spec fn google_managed(a: App, b: App, effects: Seq<Effect>) -> bool {
    if a.google_connected {
        let shown = App { view: Screen::GoogleManage, ..a };
        if a.google_discovered_calendars@.len() == 0 {
            discovery_started(shown, b, effects)
        } else {
            b == shown && effects.len() == 0
        }
    } else {
        b == App { view: Screen::GoogleAuth, ..a } && effects.len() == 0
    }
}

/// Some calendar is linked to the Google calendar `google_id`.
pub open spec fn carries_google_id(cals: Seq<Calendar>, google_id: Seq<char>) -> bool {
    exists|i: int| 0 <= i < cals.len() && #[trigger] crate::models::opt_view(cals[i].google_id) == Some(google_id)
}

fn google_id_taken(cals: &Vec<Calendar>, google_id: &String) -> (r: bool)
    ensures
        r == carries_google_id(cals@, google_id@),
{
    let mut i: usize = 0;
    while i < cals.len()
        invariant
            i <= cals@.len(),
            forall|j: int| 0 <= j < i ==> #[trigger] crate::models::opt_view(cals@[j].google_id) != Some(google_id@),
        decreases cals@.len() - i,
    {
        match &cals[i].google_id {
            Some(g) => {
                if str_eq(g.as_str(), google_id.as_str()) {
                    assert(crate::models::opt_view(cals@[i as int].google_id) == Some(google_id@));
                    return true;
                }
            },
            None => {},
        }
        i += 1;
    }
    false
}

/// Why the selected discovered Google calendar cannot be imported, if it cannot.
pub open spec fn google_import_error(a: App) -> Option<Seq<char>> {
    if a.google_discovery_index >= a.google_discovered_calendars@.len() {
        Some("No Google calendar selected."@)
    } else if carries_google_id(
        a.calendars@,
        a.google_discovered_calendars@[a.google_discovery_index as int].google_id@,
    ) {
        Some("Google calendar already imported."@)
    } else {
        None
    }
}

/// `b` and `effects` are what importing the selected discovered Google calendar of `a` gives.
pub open spec fn google_import_started(a: App, b: App, effects: Seq<Effect>) -> bool {
    match google_import_error(a) {
        Some(msg) => {
            &&& b == App { status_message: b.status_message, status_is_error: true, ..a }
            &&& b.status_message@ == msg
            &&& effects.len() == 0
        },
        None => {
            &&& b == a
            &&& effects.len() == 1
            &&& effects[0] matches Effect::ImportGoogleCalendar { calendar }
            &&& calendar == a.google_discovered_calendars@[a.google_discovery_index as int]
        },
    }
}

/// `b` and `effects` are what a Google sync request gives.
pub open spec fn sync_started(a: App, b: App, effects: Seq<Effect>) -> bool {
    if !a.google_connected {
        b == App { view: Screen::GoogleAuth, ..a } && effects.len() == 0
    } else if google_calendars(calendar_views(a.calendars@)).len() == 0 {
        &&& b == App { status_message: b.status_message, status_is_error: false, loading: false, ..a }
        &&& b.status_message@ == "No Google calendars configured. Press G to set up."@
        &&& effects.len() == 0
    } else {
        &&& b == App { status_message: b.status_message, status_is_error: false, loading: true, ..a }
        &&& b.status_message@ == "Syncing with Google Calendar…"@
        &&& effects.len() == 1
        &&& effects[0] matches Effect::GoogleSync { calendars }
        &&& calendar_views(calendars@) == google_calendars(calendar_views(a.calendars@))
    }
}

/// `b` and `effects` are what finishing the Google sign-in popup gives.
pub open spec fn auth_completed(a: App, b: App, effects: Seq<Effect>) -> bool {
    if a.google_auth_client_id@.len() == 0 {
        &&& b == App { status_message: b.status_message, status_is_error: true, ..a }
        &&& b.status_message@ == "Client ID is required."@
        &&& effects.len() == 0
    } else {
        &&& b == App {
            status_message: b.status_message,
            status_is_error: false,
            view: Screen::GoogleManage,
            loading: true,
            ..a
        }
        &&& b.status_message@ == "Waiting for browser authorization…"@
        &&& effects.len() == 1
        &&& effects[0] matches Effect::CompleteGoogleAuth { client_id, client_secret }
        &&& client_id@ == a.google_auth_client_id@
        &&& client_secret@ == a.google_auth_client_secret@
    }
}

/// `b` and `effects` are what a quick-add of `input` gives: a one-hour event at nine on the
/// focused date in the first calendar, or an error when there is no calendar.
pub open spec fn quick_added(a: App, b: App, effects: Seq<Effect>, input: Seq<char>) -> bool {
    if a.calendars@.len() == 0 || a.calendars@[0].id@.len() == 0 {
        &&& b == App { status_message: b.status_message, status_is_error: true, ..a }
        &&& b.status_message@ == "No calendar available."@
        &&& effects.len() == 0
    } else {
        &&& b == App { loading: true, ..a }
        &&& effects.len() == 1
        &&& effects[0] matches Effect::SaveEvent { event, is_new }
        &&& is_new
        &&& event.calendar_id@ == a.calendars@[0].id@
        &&& event.title@ == input
        &&& event.start_at@ == date_text(a.focused_date) + " 09:00:00"@
        &&& event.end_at@ == date_text(a.focused_date) + " 10:00:00"@
        &&& event.timezone@ == a.default_timezone@
        &&& crate::clock::is_uuid_v4_text(event.id@)
        &&& event.project_id is None
        &&& event.description is None
        &&& event.location is None
        &&& !event.all_day
        &&& event.rrule is None
        &&& event.google_id is None
        &&& event.reminder_minutes is None
        &&& event.deleted_at is None
    }
}

/// `b` and `effects` are what Enter gives in the quick-add bar, the Google sign-in popup or
/// the iCal import popup.
pub open spec fn input_submitted(a: App, b: App, effects: Seq<Effect>) -> bool {
    match a.view {
        Screen::QuickAdd => {
            let input = trim(a.quick_add_input@);
            if input.len() == 0 {
                b == App { view: Screen::Month, ..a } && effects.len() == 0
            } else {
                quick_added(App { view: Screen::Month, ..a }, b, effects, input)
            }
        },
        Screen::GoogleAuth => if a.google_auth_field == 0 {
            b == App { google_auth_field: 1, ..a } && effects.len() == 0
        } else {
            auth_completed(a, b, effects)
        },
        Screen::IcalImport => ical_submitted(a, b, effects),
        _ => b == a && effects.len() == 0,
    }
}

/// The outcome of outside work, its error as text.
pub open spec fn outcome_view(o: Result<(), String>) -> Result<(), Seq<char>> {
    match o {
        Ok(_) => Ok(()),
        Err(e) => Err(e@),
    }
}

/// `b` and `effects` are what `a` makes of a finished import of the Google calendar `name`:
/// the calendar lists are reloaded on success, the error is shown otherwise.
pub open spec fn google_import_reported(
    a: App,
    b: App,
    effects: Seq<Effect>,
    name: Seq<char>,
    outcome: Result<(), Seq<char>>,
) -> bool {
    &&& b == App { status_message: b.status_message, status_is_error: outcome is Err, ..a }
    &&& match outcome {
        Ok(_) => {
            &&& b.status_message@ == "Imported Google calendar '"@ + name + "'."@
            &&& effects == seq![Effect::LoadCalendars, Effect::LoadCalendarSyncStates]
        },
        Err(e) => {
            &&& b.status_message@ == "Google import failed: "@ + e
            &&& effects.len() == 0
        },
    }
}

/// `b` is `a` after signing out of Google: the connection and the discovered calendars are
/// dropped and the month view is shown; a failure is shown instead.
pub open spec fn logout_reported(a: App, b: App, outcome: Result<(), Seq<char>>) -> bool {
    match outcome {
        Ok(_) => {
            &&& b == App {
                google_connected: false,
                google_discovered_calendars: b.google_discovered_calendars,
                view: Screen::Month,
                status_message: b.status_message,
                status_is_error: false,
                ..a
            }
            &&& b.google_discovered_calendars@.len() == 0
            &&& b.status_message@ == "Google disconnected."@
        },
        Err(e) => {
            &&& b == App { status_message: b.status_message, status_is_error: true, ..a }
            &&& b.status_message@ == "Google logout failed: "@ + e
        },
    }
}

/// `b` is `a` after an iCal export to `path` finished, or failed with an error.
pub open spec fn export_reported(a: App, b: App, outcome: Result<Seq<char>, Seq<char>>) -> bool {
    &&& b == App { status_message: b.status_message, status_is_error: outcome is Err, ..a }
    &&& b.status_message@ == match outcome {
        Ok(path) => "Exported to "@ + path,
        Err(e) => "Export failed: "@ + e,
    }
}

/// `b` and `effects` are what deleting the selected event gives: its deletion is asked for.
pub open spec fn deletion_requested(a: App, b: App, effects: Seq<Effect>) -> bool {
    let v = visible_event_seq(a.calendars@, a.events@);
    &&& b == a
    &&& if a.selected_event_index < v.len() {
        &&& effects.len() == 1
        &&& effects[0] matches Effect::DeleteEvent { id }
        &&& id@ == v[a.selected_event_index as int].id@
    } else {
        effects.len() == 0
    }
}

impl App {
    /// Shows or hides the calendar under the sidebar cursor.
    pub fn toggle_calendar_visibility(&mut self)
        requires
            old(self).wf(),
        ensures
            visibility_toggled(*old(self), *final(self)),
            final(self).wf(),
    {
        let i = self.calendar_list_index;
        if i < self.calendars.len() {
            let mut c = self.calendars[i].clone();
            c.visible = !c.visible;
            self.calendars.set(i, c);
        }
    }

    /// Opens the iCal import popup on the calendar under the sidebar cursor.
    pub fn open_ical_import(&mut self)
        requires
            old(self).wf(),
        ensures
            ical_import_opened(*old(self), *final(self)),
            final(self).wf(),
    {
        if self.calendars.len() == 0 {
            self.set_status(String::from_str("No calendar available for import."), true);
            return;
        }
        self.ical_import_path = String::new();
        self.ical_import_calendar_index = if self.calendar_list_index < self.calendars.len() {
            self.calendar_list_index
        } else {
            self.calendars.len() - 1
        };
        self.ical_import_field_index = 0;
        self.view = Screen::IcalImport;
    }

    /// Moves to the calendar field of the iCal import popup.
    pub fn ical_import_next_field(&mut self)
        requires
            old(self).wf(),
        ensures
            *final(self) == (App { ical_import_field_index: 1, ..*old(self) }),
            final(self).wf(),
    {
        if self.ical_import_field_index < 1 {
            self.ical_import_field_index = self.ical_import_field_index + 1;
        }
    }

    /// Moves to the path field of the iCal import popup.
    pub fn ical_import_prev_field(&mut self)
        requires
            old(self).wf(),
        ensures
            *final(self) == (App { ical_import_field_index: 0, ..*old(self) }),
            final(self).wf(),
    {
        if self.ical_import_field_index > 0 {
            self.ical_import_field_index = self.ical_import_field_index - 1;
        }
    }

    /// Hands the file of the iCal import popup over to be imported.
    pub fn ical_import_submit(&mut self) -> (r: Vec<Effect>)
        requires
            old(self).wf(),
        ensures
            ical_submitted(*old(self), *final(self), r@),
            final(self).wf(),
    {
        let path = trim_str(self.ical_import_path.as_str());
        if path.as_str().unicode_len() == 0 {
            self.set_status(String::from_str("Import path cannot be empty."), true);
            return Vec::new();
        }
        if self.ical_import_calendar_index >= self.calendars.len() {
            self.set_status(String::from_str("No calendar selected for import."), true);
            return Vec::new();
        }
        let calendar_id = self.calendars[self.ical_import_calendar_index].id.clone();
        self.loading = true;
        let message = String::from_str("Importing ").concat(path.as_str()).concat("…");
        self.set_status(message, false);
        vec![Effect::ImportIcal { calendar_id, path, timezone: self.default_timezone.clone() }]
    }

    /// Asks for the calendars of the Google account, or for sign-in first.
    pub fn discover_google_calendars(&mut self) -> (r: Vec<Effect>)
        requires
            old(self).wf(),
        ensures
            discovery_started(*old(self), *final(self), r@),
            final(self).wf(),
    {
        if self.google_connected {
            self.loading = true;
            self.set_status(String::from_str("Loading Google calendars…"), false);
            let effects = vec![Effect::DiscoverGoogleCalendars];
            assert(effects@ =~= seq![Effect::DiscoverGoogleCalendars]);
            effects
        } else {
            self.view = Screen::GoogleAuth;
            Vec::new()
        }
    }

    /// Opens Google management, discovering calendars the first time; sign-in if needed.
    pub fn google_manage(&mut self) -> (r: Vec<Effect>)
        requires
            old(self).wf(),
        ensures
            google_managed(*old(self), *final(self), r@),
            final(self).wf(),
    {
        if self.google_connected {
            self.view = Screen::GoogleManage;
            if self.google_discovered_calendars.len() == 0 {
                return self.discover_google_calendars();
            }
            Vec::new()
        } else {
            self.view = Screen::GoogleAuth;
            Vec::new()
        }
    }

    /// Asks for the selected discovered Google calendar to be imported, unless it already is.
    pub fn import_selected_google_calendar(&mut self) -> (r: Vec<Effect>)
        requires
            old(self).wf(),
        ensures
            google_import_started(*old(self), *final(self), r@),
            final(self).wf(),
    {
        if self.google_discovery_index >= self.google_discovered_calendars.len() {
            self.set_status(String::from_str("No Google calendar selected."), true);
            return Vec::new();
        }
        let selected = self.google_discovered_calendars[self.google_discovery_index].clone();
        if google_id_taken(&self.calendars, &selected.google_id) {
            self.set_status(String::from_str("Google calendar already imported."), true);
            return Vec::new();
        }
        vec![Effect::ImportGoogleCalendar { calendar: selected }]
    }

    /// Reports a finished import of the Google calendar `name`.
    pub fn google_import_finished(&mut self, name: &str, outcome: Result<(), String>) -> (r: Vec<Effect>)
        requires
            old(self).wf(),
        ensures
            google_import_reported(*old(self), *final(self), r@, name@, outcome_view(outcome)),
            final(self).wf(),
    {
        match outcome {
            Ok(_) => {
                let message = String::from_str("Imported Google calendar '").concat(name).concat("'.");
                self.set_status(message, false);
                vec![Effect::LoadCalendars, Effect::LoadCalendarSyncStates]
            },
            Err(e) => {
                let message = String::from_str("Google import failed: ").concat(e.as_str());
                self.set_status(message, true);
                Vec::new()
            },
        }
    }

    /// Asks for the stored Google sign-in to be removed.
    pub fn google_logout(&mut self) -> (r: Vec<Effect>)
        ensures
            *final(self) == *old(self),
            r@ == seq![Effect::GoogleLogout],
    {
        vec![Effect::GoogleLogout]
    }

    /// Reports the outcome of signing out of Google.
    pub fn google_logout_finished(&mut self, outcome: Result<(), String>)
        requires
            old(self).wf(),
        ensures
            logout_reported(*old(self), *final(self), outcome_view(outcome)),
            final(self).wf(),
    {
        match outcome {
            Ok(_) => {
                self.google_connected = false;
                self.google_discovered_calendars = Vec::new();
                self.view = Screen::Month;
                self.set_status(String::from_str("Google disconnected."), false);
            },
            Err(e) => {
                let message = String::from_str("Google logout failed: ").concat(e.as_str());
                self.set_status(message, true);
            },
        }
    }

    /// Asks for the Google calendars to be synced, or says there are none; sign-in if needed.
    pub fn google_sync(&mut self) -> (r: Vec<Effect>)
        requires
            old(self).wf(),
        ensures
            sync_started(*old(self), *final(self), r@),
            final(self).wf(),
    {
        if !self.google_connected {
            self.view = Screen::GoogleAuth;
            return Vec::new();
        }
        self.loading = true;
        self.set_status(String::from_str("Syncing with Google Calendar…"), false);
        let google_cals = match google_calendars_for(&self.calendars, None) {
            Ok(cals) => cals,
            Err(_) => Vec::new(),
        };
        if google_cals.len() == 0 {
            self.set_status(String::from_str("No Google calendars configured. Press G to set up."), false);
            self.loading = false;
            Vec::new()
        } else {
            vec![Effect::GoogleSync { calendars: google_cals }]
        }
    }

    /// Hands the typed client credentials over for the browser sign-in.
    pub fn complete_google_auth(&mut self) -> (r: Vec<Effect>)
        requires
            old(self).wf(),
        ensures
            auth_completed(*old(self), *final(self), r@),
            final(self).wf(),
    {
        let client_id = self.google_auth_client_id.clone();
        let client_secret = self.google_auth_client_secret.clone();
        if client_id.as_str().unicode_len() == 0 {
            self.set_status(String::from_str("Client ID is required."), true);
            return Vec::new();
        }
        self.set_status(String::from_str("Opening browser for Google authorization…"), false);
        self.view = Screen::GoogleManage;
        self.loading = true;
        let effects = vec![Effect::CompleteGoogleAuth { client_id, client_secret }];
        self.set_status(String::from_str("Waiting for browser authorization…"), false);
        effects
    }

    /// Asks for the loaded events to be exported.
    pub fn export_ical(&mut self) -> (r: Vec<Effect>)
        ensures
            *final(self) == *old(self),
            r@ == seq![Effect::ExportIcal],
    {
        vec![Effect::ExportIcal]
    }

    /// Reports the outcome of an export: the file written, or the error.
    pub fn export_finished(&mut self, outcome: Result<String, String>)
        requires
            old(self).wf(),
        ensures
            export_reported(*old(self), *final(self), match outcome {
                Ok(p) => Ok(p@),
                Err(e) => Err(e@),
            }),
            final(self).wf(),
    {
        match outcome {
            Ok(path) => {
                let message = String::from_str("Exported to ").concat(path.as_str());
                self.set_status(message, false);
            },
            Err(e) => {
                let message = String::from_str("Export failed: ").concat(e.as_str());
                self.set_status(message, true);
            },
        }
    }

    /// Asks for the selected event to be deleted, if an event is selected.
    pub fn delete_selected_event(&mut self) -> (r: Vec<Effect>)
        requires
            old(self).wf(),
        ensures
            deletion_requested(*old(self), *final(self), r@),
            final(self).wf(),
    {
        match self.selected_event() {
            Some(event) => vec![Effect::DeleteEvent { id: event.id.clone() }],
            None => Vec::new(),
        }
    }

    /// Enter on a day of the month view opens that day.
    pub fn select_event(&mut self)
        requires
            old(self).wf(),
        ensures
            *final(self) == (if old(self).view == Screen::Month {
                App { view: Screen::Day, ..*old(self) }
            } else {
                *old(self)
            }),
            final(self).wf(),
    {
        if self.view == Screen::Month {
            self.view = Screen::Day;
        }
    }

    /// Creates a one-hour event titled `input` at nine on the focused date, in the first calendar.
    pub fn parse_and_create_event(&mut self, input: &str) -> (r: Vec<Effect>)
        requires
            old(self).wf(),
        ensures
            quick_added(*old(self), *final(self), r@, input@),
            final(self).wf(),
    {
        let date = format_date(self.focused_date);
        let start = date.clone().concat(" 09:00:00");
        let end = date.concat(" 10:00:00");
        if self.calendars.len() == 0 || self.calendars[0].id.as_str().unicode_len() == 0 {
            self.set_status(String::from_str("No calendar available."), true);
            return Vec::new();
        }
        let cal_id = self.calendars[0].id.clone();
        let mut event = Event::new(cal_id, String::from_str(input), start, end, String::from_str("UTC"));
        event.timezone = self.default_timezone.clone();
        self.loading = true;
        vec![Effect::SaveEvent { event, is_new: true }]
    }

    /// Enter in the quick-add bar, the Google sign-in popup or the iCal import popup.
    pub fn handle_input_submit(&mut self) -> (r: Vec<Effect>)
        requires
            old(self).wf(),
        ensures
            input_submitted(*old(self), *final(self), r@),
            final(self).wf(),
    {
        match self.view {
            Screen::QuickAdd => {
                let input = trim_str(self.quick_add_input.as_str());
                let mut effects = Vec::new();
                self.view = Screen::Month;
                if input.as_str().unicode_len() > 0 {
                    effects = self.parse_and_create_event(input.as_str());
                }
                effects
            },
            Screen::GoogleAuth => {
                if self.google_auth_field == 0 {
                    self.google_auth_field = 1;
                    Vec::new()
                } else {
                    self.complete_google_auth()
                }
            },
            Screen::IcalImport => self.ical_import_submit(),
            _ => Vec::new(),
        }
    }
}

} // verus!

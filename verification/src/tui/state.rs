use vstd::prelude::*;
use vstd::string::StringExecFns;

use crate::availability::Availability;
use crate::cli::tasks::CreateTaskInput;
use crate::dates::{date_text, format_date, local_today, valid_date, CalendarDate};
use crate::models::{
    Calendar, CalendarSyncState, DiscoveredGoogleCalendar, Event, EventDependency, EventView,
    Project,
};
use crate::tui::keys::Screen;
use crate::tui::{default_weekly_availability, form_field_order, FormField};

verus! {

/// A planner proposal as the interface shows it.
#[derive(Debug)]
pub struct PlannerProposal {
    pub id: String,
    pub status: String,
}

/// Stored planner settings, with the weekly availability already read from its JSON
/// (`None` where that text does not parse).
#[derive(Debug)]
pub struct PlannerSettings {
    pub timezone: Option<String>,
    pub availability: Option<Availability>,
    pub horizon_days: i64,
    pub slot_minutes: i64,
    pub solve_seconds: i64,
}

/// Work the interface hands to the background worker or to the terminal loop.
#[derive(Debug)]
pub enum Effect {
    LoadCalendars,
    LoadCalendarSyncStates,
    LoadProjects,
    LoadDependencies,
    LoadPlannerTasks,
    LoadPlannerSettings,
    LoadEvents { year: i32, month: u32 },
    SaveEvent { event: Event, is_new: bool },
    DeleteEvent { id: String },
    OptimizePlanner,
    ApplyPlannerProposal { id: String },
    CreatePlannerTask { input: CreateTaskInput },
    UpdatePlannerSettings {
        timezone: String,
        availability: Availability,
        horizon_days: i64,
        slot_minutes: i64,
        solve_seconds: i64,
    },
    DiscoverGoogleCalendars,
    GoogleSync { calendars: Vec<Calendar> },
    CompleteGoogleAuth { client_id: String, client_secret: String },
    ImportGoogleCalendar { calendar: DiscoveredGoogleCalendar },
    GoogleLogout,
    ImportIcal { calendar_id: String, path: String, timezone: String },
    ExportIcal,
}

/// What the background worker reports back.
#[derive(Debug)]
pub enum WorkerResult {
    CalendarsLoaded(Vec<Calendar>),
    CalendarSyncStatesLoaded(Vec<CalendarSyncState>),
    ProjectsLoaded(Vec<Project>),
    EventsLoaded { events: Vec<Event> },
    DependenciesLoaded(Vec<EventDependency>),
    PlannerTasksLoaded { count: usize },
    PlannerSettingsLoaded(PlannerSettings),
    PlannerProposalReady(PlannerProposal),
    PlannerProposalApplied(PlannerProposal),
    EventSaved(Event),
    EventDeleted(String),
    GoogleAuthComplete,
    GoogleCalendarsDiscovered(Vec<DiscoveredGoogleCalendar>),
    GoogleSyncFinished {
        calendars_succeeded: usize,
        calendars_failed: usize,
        events_added: usize,
        events_updated: usize,
        conflicts_detected: usize,
    },
    IcalImported { imported: usize, path: String, warnings: usize },
    StatusMessage(String),
    Error(String),
}

/// The state of the terminal interface.
pub struct App {
    pub running: bool,
    pub view: Screen,
    pub focused_date: CalendarDate,
    pub view_month: u32,
    pub view_year: i32,
    pub week_scroll: i16,
    pub selected_event_index: usize,
    pub calendars: Vec<Calendar>,
    pub calendar_sync_state: Vec<CalendarSyncState>,
    pub projects: Vec<Project>,
    pub events: Vec<Event>,
    pub dependencies: Vec<EventDependency>,
    pub planner_task_count: usize,
    pub planner_proposal: Option<PlannerProposal>,
    pub planner_settings: Option<PlannerSettings>,
    pub planner_selected_index: usize,
    pub planner_task_field: usize,
    pub planner_task_title: String,
    pub planner_task_duration: String,
    pub planner_task_calendar_index: usize,
    pub planner_task_priority_index: usize,
    pub planner_task_cognitive_index: usize,
    pub planner_settings_field: usize,
    pub planner_settings_timezone: String,
    pub planner_settings_availability: String,
    pub planner_settings_horizon_days: String,
    pub planner_settings_slot_minutes: String,
    pub planner_settings_solve_seconds: String,
    pub sidebar_focused: bool,
    pub calendar_list_index: usize,
    pub form_editing_event: Option<Event>,
    pub form_is_new: bool,
    pub form_field_index: usize,
    pub form_fields: Vec<FormField>,
    pub form_title: String,
    pub form_date: String,
    pub form_start_time: String,
    pub form_end_time: String,
    pub form_location: String,
    pub form_description: String,
    pub form_rrule: String,
    pub form_reminder: String,
    pub form_calendar_index: usize,
    pub form_timezone: String,
    pub form_project_index: usize,
    pub form_all_day: bool,
    pub form_recurrence_index: usize,
    pub ical_import_path: String,
    pub ical_import_calendar_index: usize,
    pub ical_import_field_index: usize,
    pub quick_add_input: String,
    pub agenda_scroll: u16,
    pub help_scroll: u16,
    pub google_auth_client_id: String,
    pub google_auth_client_secret: String,
    pub google_auth_field: usize,
    pub google_connected: bool,
    pub google_discovered_calendars: Vec<DiscoveredGoogleCalendar>,
    pub google_discovery_index: usize,
    pub status_message: String,
    pub status_is_error: bool,
    pub loading: bool,
    pub tick_count: u64,
    /// The machine's time zone name, used where a new event or task needs one.
    pub default_timezone: String,
}

/// An event whose times the event form can show: ASCII text, the start holding a date at least.
pub open spec fn form_ready(e: Event) -> bool {
    &&& vstd::utf8::is_ascii_chars(e.start_at@)
    &&& e.start_at@.len() >= 10
    &&& vstd::utf8::is_ascii_chars(e.end_at@)
}

/// Every event of a list can be shown in the event form.
pub open spec fn all_form_ready(evs: Seq<Event>) -> bool {
    forall|i: int| 0 <= i < evs.len() ==> form_ready(#[trigger] evs[i])
}

impl App {
    /// The invariant every state of the interface keeps.
    pub open spec fn wf(self) -> bool {
        &&& self.wf_but_loaded_year()
        &&& crate::dates::first_year() <= self.view_year <= crate::dates::last_year()
    }

    /// The invariant, but for the range of the loaded year, which a month shift may leave
    /// for a moment.
    pub open spec fn wf_but_loaded_year(self) -> bool {
        &&& self.form_fields@ == form_field_order()
        &&& self.form_field_index < 12
        &&& all_form_ready(self.events@)
        &&& crate::tui::worker_results::one_state_per_calendar(self.calendar_sync_state@)
        &&& valid_date(self.focused_date)
        &&& 1 <= self.view_month <= 12
        &&& 0 <= self.week_scroll <= 20
        &&& self.google_auth_field <= 1
        &&& self.ical_import_field_index <= 1
        &&& self.planner_task_field < 5
        &&& self.planner_settings_field < 5
        &&& self.planner_task_priority_index < 3
        &&& self.planner_task_cognitive_index < 3
        &&& (self.planner_selected_index == 0 || self.planner_selected_index < self.planner_task_count)
    }

    /// A fresh interface on today's date. `saved_client_id` and `saved_client_secret` are the
    /// stored Google credentials, if any; `google_connected` says whether a signed-in Google
    /// client was found. Returns the interface and the loads it starts with.
    pub fn new(
        default_timezone: String,
        saved_client_id: Option<String>,
        saved_client_secret: Option<String>,
        google_connected: bool,
    ) -> (r: (App, Vec<Effect>))
        ensures
            r.0.wf(),
            r.0.running,
            r.0.view == Screen::Month,
            r.0.view_year == r.0.focused_date.0,
            r.0.view_month == r.0.focused_date.1,
            r.0.week_scroll == 8,
            r.0.form_date@ == date_text(r.0.focused_date),
            r.0.form_start_time@ == "09:00"@,
            r.0.form_end_time@ == "10:00"@,
            r.0.form_timezone@ == default_timezone@,
            r.0.default_timezone@ == default_timezone@,
            r.0.planner_task_duration@ == "60"@,
            r.0.planner_task_priority_index == 1,
            r.0.planner_task_cognitive_index == 1,
            r.0.planner_settings_availability@ == crate::tui::default_availability_text(),
            r.0.planner_settings_horizon_days@ == "14"@,
            r.0.planner_settings_slot_minutes@ == "15"@,
            r.0.planner_settings_solve_seconds@ == "5"@,
            r.0.google_auth_client_id@ == (match saved_client_id {
                Some(id) => id@,
                None => Seq::empty(),
            }),
            r.0.google_auth_client_secret@ == (match (saved_client_id, saved_client_secret) {
                (Some(_), Some(secret)) => secret@,
                _ => Seq::empty(),
            }),
            r.0.google_connected == google_connected,
            r.0.loading,
            r.0.calendars@.len() == 0,
            r.0.calendar_sync_state@.len() == 0,
            r.0.projects@.len() == 0,
            r.0.events@.len() == 0,
            r.0.dependencies@.len() == 0,
            r.0.planner_task_count == 0,
            r.0.planner_proposal is None,
            r.0.planner_settings is None,
            r.0.form_is_new,
            r.0.form_editing_event is None,
            r.0.selected_event_index == 0,
            r.0.tick_count == 0,
            !r.0.sidebar_focused,
            r.0.status_message@.len() == 0,
            !r.0.status_is_error,
            r.0.planner_selected_index == 0,
            r.0.planner_task_field == 0,
            r.0.planner_task_title@.len() == 0,
            r.0.planner_task_calendar_index == 0,
            r.0.planner_settings_field == 0,
            r.0.planner_settings_timezone@.len() == 0,
            r.0.calendar_list_index == 0,
            r.0.form_field_index == 0,
            r.0.form_title@.len() == 0,
            r.0.form_location@.len() == 0,
            r.0.form_description@.len() == 0,
            r.0.form_rrule@.len() == 0,
            r.0.form_reminder@.len() == 0,
            r.0.form_calendar_index == 0,
            r.0.form_project_index == 0,
            !r.0.form_all_day,
            r.0.form_recurrence_index == 0,
            r.0.ical_import_path@.len() == 0,
            r.0.ical_import_calendar_index == 0,
            r.0.ical_import_field_index == 0,
            r.0.quick_add_input@.len() == 0,
            r.0.agenda_scroll == 0,
            r.0.help_scroll == 0,
            r.0.google_auth_field == 0,
            r.0.google_discovered_calendars@.len() == 0,
            r.0.google_discovery_index == 0,
            r.1@.len() == 5,
            r.1@[0] is LoadCalendars,
            r.1@[1] is LoadCalendarSyncStates,
            r.1@[2] is LoadProjects,
            r.1@[3] is LoadDependencies,
            r.1@[4] is LoadPlannerTasks,
    {
        let today = local_today();
        let (client_id, client_secret) = match saved_client_id {
            Some(id) => {
                let secret = match saved_client_secret {
                    Some(s) => s,
                    None => String::new(),
                };
                (id, secret)
            },
            None => (String::new(), String::new()),
        };
        proof {
            reveal_strlit("09:00");
            reveal_strlit("10:00");
            reveal_strlit("60");
            reveal_strlit("14");
            reveal_strlit("15");
            reveal_strlit("5");
        }
        let app = App {
            running: true,
            view: Screen::Month,
            focused_date: today,
            view_month: today.1,
            view_year: today.0,
            week_scroll: 8,
            selected_event_index: 0,
            calendars: Vec::new(),
            calendar_sync_state: Vec::new(),
            projects: Vec::new(),
            events: Vec::new(),
            dependencies: Vec::new(),
            planner_task_count: 0,
            planner_proposal: None,
            planner_settings: None,
            planner_selected_index: 0,
            planner_task_field: 0,
            planner_task_title: String::new(),
            planner_task_duration: String::from_str("60"),
            planner_task_calendar_index: 0,
            planner_task_priority_index: 1,
            planner_task_cognitive_index: 1,
            planner_settings_field: 0,
            planner_settings_timezone: String::new(),
            planner_settings_availability: default_weekly_availability(),
            planner_settings_horizon_days: String::from_str("14"),
            planner_settings_slot_minutes: String::from_str("15"),
            planner_settings_solve_seconds: String::from_str("5"),
            sidebar_focused: false,
            calendar_list_index: 0,
            form_editing_event: None,
            form_is_new: true,
            form_field_index: 0,
            form_fields: FormField::all(),
            form_title: String::new(),
            form_date: format_date(today),
            form_start_time: String::from_str("09:00"),
            form_end_time: String::from_str("10:00"),
            form_location: String::new(),
            form_description: String::new(),
            form_rrule: String::new(),
            form_reminder: String::new(),
            form_calendar_index: 0,
            form_timezone: default_timezone.clone(),
            form_project_index: 0,
            form_all_day: false,
            form_recurrence_index: 0,
            ical_import_path: String::new(),
            ical_import_calendar_index: 0,
            ical_import_field_index: 0,
            quick_add_input: String::new(),
            agenda_scroll: 0,
            help_scroll: 0,
            google_auth_client_id: client_id,
            google_auth_client_secret: client_secret,
            google_auth_field: 0,
            google_connected,
            google_discovered_calendars: Vec::new(),
            google_discovery_index: 0,
            status_message: String::new(),
            status_is_error: false,
            loading: true,
            tick_count: 0,
            default_timezone,
        };
        let effects = vec![
            Effect::LoadCalendars,
            Effect::LoadCalendarSyncStates,
            Effect::LoadProjects,
            Effect::LoadDependencies,
            Effect::LoadPlannerTasks,
        ];
        (app, effects)
    }
}

} // verus!

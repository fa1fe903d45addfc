use vstd::prelude::*;

verus! {

/// Optional text viewed as an optional character sequence.
pub open spec fn opt_view(o: Option<String>) -> Option<Seq<char>> {
    match o {
        Some(s) => Some(s@),
        None => None,
    }
}

/// Where a calendar's events come from.
#[derive(Debug, Clone, Copy, PartialEq, Eq, Structural)]
pub enum CalendarSource {
    Local,
    Google,
}

/// A calendar row.
#[derive(Debug)]
pub struct Calendar {
    pub id: String,
    pub name: String,
    pub color: String,
    pub source: CalendarSource,
    pub google_id: Option<String>,
    pub visible: bool,
    pub position: i64,
    pub created_at: String,
    pub updated_at: String,
    pub deleted_at: Option<String>,
}

/// Mathematical model of a calendar row.
pub struct CalendarView {
    pub id: Seq<char>,
    pub name: Seq<char>,
    pub color: Seq<char>,
    pub source: CalendarSource,
    pub google_id: Option<Seq<char>>,
    pub visible: bool,
    pub position: i64,
    pub created_at: Seq<char>,
    pub updated_at: Seq<char>,
    pub deleted_at: Option<Seq<char>>,
}

impl View for Calendar {
    type V = CalendarView;

    open spec fn view(&self) -> CalendarView {
        CalendarView {
            id: self.id@,
            name: self.name@,
            color: self.color@,
            source: self.source,
            google_id: opt_view(self.google_id),
            visible: self.visible,
            position: self.position,
            created_at: self.created_at@,
            updated_at: self.updated_at@,
            deleted_at: opt_view(self.deleted_at),
        }
    }
}

impl DeepView for Calendar {
    type V = CalendarView;

    open spec fn deep_view(&self) -> CalendarView {
        self@
    }
}

impl Clone for Calendar {
    fn clone(&self) -> (r: Self)
        ensures
            r == *self,
    {
        Calendar {
            id: self.id.clone(),
            name: self.name.clone(),
            color: self.color.clone(),
            source: self.source,
            google_id: self.google_id.clone(),
            visible: self.visible,
            position: self.position,
            created_at: self.created_at.clone(),
            updated_at: self.updated_at.clone(),
            deleted_at: self.deleted_at.clone(),
        }
    }
}


/// Mathematical model of the errors of the calendar and event services.
pub enum ErrorView {
    NotFound(Seq<char>, Seq<char>),
    Validation(Seq<char>),
    Conflict(Seq<char>),
    Internal(Seq<char>),
}

/// The text a service error shows: `<resource> '<id>' not found`, or its message.
pub open spec fn error_text(e: ErrorView) -> Seq<char> {
    match e {
        ErrorView::NotFound(resource, id) => resource + " '"@ + id + "' not found"@,
        ErrorView::Validation(m) => m,
        ErrorView::Conflict(m) => m,
        ErrorView::Internal(m) => m,
    }
}

/// A project that events may belong to.
#[derive(Debug)]
pub struct Project {
    pub id: String,
    pub name: String,
    pub color: String,
    pub description: Option<String>,
    pub created_at: String,
    pub updated_at: String,
    pub deleted_at: Option<String>,
}

/// Mathematical model of a project row.
pub struct ProjectView {
    pub id: Seq<char>,
    pub name: Seq<char>,
    pub color: Seq<char>,
    pub description: Option<Seq<char>>,
    pub created_at: Seq<char>,
    pub updated_at: Seq<char>,
    pub deleted_at: Option<Seq<char>>,
}

impl View for Project {
    type V = ProjectView;

    open spec fn view(&self) -> ProjectView {
        ProjectView {
            id: self.id@,
            name: self.name@,
            color: self.color@,
            description: opt_view(self.description),
            created_at: self.created_at@,
            updated_at: self.updated_at@,
            deleted_at: opt_view(self.deleted_at),
        }
    }
}

/// A calendar event row.
#[derive(Debug)]
pub struct Event {
    pub id: String,
    pub calendar_id: String,
    pub project_id: Option<String>,
    pub title: String,
    pub description: Option<String>,
    pub location: Option<String>,
    pub start_at: String,
    pub end_at: String,
    pub all_day: bool,
    pub rrule: Option<String>,
    pub google_id: Option<String>,
    pub google_etag: Option<String>,
    pub reminder_minutes: Option<i64>,
    pub timezone: String,
    pub created_at: String,
    pub updated_at: String,
    pub deleted_at: Option<String>,
}

/// Mathematical model of an event row.
pub struct EventView {
    pub id: Seq<char>,
    pub calendar_id: Seq<char>,
    pub project_id: Option<Seq<char>>,
    pub title: Seq<char>,
    pub description: Option<Seq<char>>,
    pub location: Option<Seq<char>>,
    pub start_at: Seq<char>,
    pub end_at: Seq<char>,
    pub all_day: bool,
    pub rrule: Option<Seq<char>>,
    pub google_id: Option<Seq<char>>,
    pub google_etag: Option<Seq<char>>,
    pub reminder_minutes: Option<i64>,
    pub timezone: Seq<char>,
    pub created_at: Seq<char>,
    pub updated_at: Seq<char>,
    pub deleted_at: Option<Seq<char>>,
}

impl View for Event {
    type V = EventView;

    open spec fn view(&self) -> EventView {
        EventView {
            id: self.id@,
            calendar_id: self.calendar_id@,
            project_id: opt_view(self.project_id),
            title: self.title@,
            description: opt_view(self.description),
            location: opt_view(self.location),
            start_at: self.start_at@,
            end_at: self.end_at@,
            all_day: self.all_day,
            rrule: opt_view(self.rrule),
            google_id: opt_view(self.google_id),
            google_etag: opt_view(self.google_etag),
            reminder_minutes: self.reminder_minutes,
            timezone: self.timezone@,
            created_at: self.created_at@,
            updated_at: self.updated_at@,
            deleted_at: opt_view(self.deleted_at),
        }
    }
}

impl DeepView for Event {
    type V = EventView;

    open spec fn deep_view(&self) -> EventView {
        self@
    }
}

impl Clone for Event {
    fn clone(&self) -> (r: Self)
        ensures
            r == *self,
    {
        Event {
            id: self.id.clone(),
            calendar_id: self.calendar_id.clone(),
            project_id: self.project_id.clone(),
            title: self.title.clone(),
            description: self.description.clone(),
            location: self.location.clone(),
            start_at: self.start_at.clone(),
            end_at: self.end_at.clone(),
            all_day: self.all_day,
            rrule: self.rrule.clone(),
            google_id: self.google_id.clone(),
            google_etag: self.google_etag.clone(),
            reminder_minutes: self.reminder_minutes,
            timezone: self.timezone.clone(),
            created_at: self.created_at.clone(),
            updated_at: self.updated_at.clone(),
            deleted_at: self.deleted_at.clone(),
        }
    }
}

impl Event {
    /// A new timed event with a fresh id, stamped now; everything optional is left empty.
    pub fn new(calendar_id: String, title: String, start_at: String, end_at: String, timezone: String) -> (e: Event)
        ensures
            e.calendar_id@ == calendar_id@,
            e.title@ == title@,
            e.start_at@ == start_at@,
            e.end_at@ == end_at@,
            e.timezone@ == timezone@,
            crate::clock::is_uuid_v4_text(e.id@),
            e.project_id is None,
            e.description is None,
            e.location is None,
            !e.all_day,
            e.rrule is None,
            e.google_id is None,
            e.google_etag is None,
            e.reminder_minutes is None,
            e.created_at == e.updated_at,
            crate::clock::is_timestamp_text(e.created_at@),
            e.deleted_at is None,
    {
        let now = crate::clock::timestamp_now();
        Event {
            id: crate::clock::new_id(),
            calendar_id,
            project_id: None,
            title,
            description: None,
            location: None,
            start_at,
            end_at,
            all_day: false,
            rrule: None,
            google_id: None,
            google_etag: None,
            reminder_minutes: None,
            timezone,
            created_at: now.clone(),
            updated_at: now,
            deleted_at: None,
        }
    }
}

/// How one event constrains another.
#[derive(Debug, Clone, Copy, PartialEq, Eq, Structural)]
pub enum DependencyType {
    Blocks,
    Related,
}

/// An edge between two events: `from_event_id` blocks or relates to `to_event_id`.
#[derive(Debug)]
pub struct EventDependency {
    pub id: String,
    pub from_event_id: String,
    pub to_event_id: String,
    pub dependency_type: DependencyType,
    pub created_at: String,
    pub updated_at: String,
}

/// Mathematical model of a dependency row.
pub struct EventDependencyView {
    pub id: Seq<char>,
    pub from_event_id: Seq<char>,
    pub to_event_id: Seq<char>,
    pub dependency_type: DependencyType,
    pub created_at: Seq<char>,
    pub updated_at: Seq<char>,
}

impl View for EventDependency {
    type V = EventDependencyView;

    open spec fn view(&self) -> EventDependencyView {
        EventDependencyView {
            id: self.id@,
            from_event_id: self.from_event_id@,
            to_event_id: self.to_event_id@,
            dependency_type: self.dependency_type,
            created_at: self.created_at@,
            updated_at: self.updated_at@,
        }
    }
}

impl DeepView for EventDependency {
    type V = EventDependencyView;

    open spec fn deep_view(&self) -> EventDependencyView {
        self@
    }
}

/// A calendar offered by the user's Google account.
#[derive(Debug)]
pub struct DiscoveredGoogleCalendar {
    pub google_id: String,
    pub name: String,
    pub color: String,
    pub primary: bool,
    pub access_role: Option<String>,
    pub writable: bool,
}

/// Mathematical model of a discovered Google calendar.
pub struct DiscoveredGoogleCalendarView {
    pub google_id: Seq<char>,
    pub name: Seq<char>,
    pub color: Seq<char>,
    pub primary: bool,
    pub access_role: Option<Seq<char>>,
    pub writable: bool,
}

impl View for DiscoveredGoogleCalendar {
    type V = DiscoveredGoogleCalendarView;

    open spec fn view(&self) -> DiscoveredGoogleCalendarView {
        DiscoveredGoogleCalendarView {
            google_id: self.google_id@,
            name: self.name@,
            color: self.color@,
            primary: self.primary,
            access_role: opt_view(self.access_role),
            writable: self.writable,
        }
    }
}

impl DeepView for DiscoveredGoogleCalendar {
    type V = DiscoveredGoogleCalendarView;

    open spec fn deep_view(&self) -> DiscoveredGoogleCalendarView {
        self@
    }
}

impl Clone for DiscoveredGoogleCalendar {
    fn clone(&self) -> (r: Self)
        ensures
            r == *self,
    {
        DiscoveredGoogleCalendar {
            google_id: self.google_id.clone(),
            name: self.name.clone(),
            color: self.color.clone(),
            primary: self.primary,
            access_role: self.access_role.clone(),
            writable: self.writable,
        }
    }
}

/// Per-calendar Google sync bookkeeping.
#[derive(Debug)]
pub struct CalendarSyncState {
    pub calendar_id: String,
    pub google_access_role: Option<String>,
    pub writable: bool,
    pub last_synced_at: Option<String>,
    pub last_sync_error_code: Option<String>,
    pub last_sync_error_message: Option<String>,
    pub pending_outbox: i64,
    pub pending_conflicts: i64,
    pub created_at: String,
    pub updated_at: String,
}

impl Clone for CalendarSyncState {
    fn clone(&self) -> (r: Self)
        ensures
            r == *self,
    {
        CalendarSyncState {
            calendar_id: self.calendar_id.clone(),
            google_access_role: self.google_access_role.clone(),
            writable: self.writable,
            last_synced_at: self.last_synced_at.clone(),
            last_sync_error_code: self.last_sync_error_code.clone(),
            last_sync_error_message: self.last_sync_error_message.clone(),
            pending_outbox: self.pending_outbox,
            pending_conflicts: self.pending_conflicts,
            created_at: self.created_at.clone(),
            updated_at: self.updated_at.clone(),
        }
    }
}

/// Priority of a planner task.
#[derive(Debug, Clone, Copy, PartialEq, Eq, Structural)]
pub enum TaskPriority {
    Low,
    Normal,
    High,
}

/// Cognitive load of a planner task.
#[derive(Debug, Clone, Copy, PartialEq, Eq, Structural)]
pub enum CognitiveLoad {
    Low,
    Medium,
    High,
}

/// Kind of deadline of a planner task.
#[derive(Debug, Clone, Copy, PartialEq, Eq, Structural)]
pub enum DeadlineKind {
    NoDeadline,
    Hard,
    Soft,
}

/// Counts reported by one calendar's Google sync.
#[derive(Debug, Clone, Copy, Default)]
pub struct SyncCalendarReport {
    pub events_added: usize,
    pub events_updated: usize,
    pub pushed_creates: usize,
    pub pushed_updates: usize,
    pub pushed_deletes: usize,
    pub conflicts_detected: usize,
}

/// Errors of the task planner.
#[derive(Debug, Clone, PartialEq, Eq)]
pub enum PlannerError {
    NotFound { resource: &'static str, id: String },
    Validation(String),
    Conflict(String),
    Internal(String),
}

} // verus!

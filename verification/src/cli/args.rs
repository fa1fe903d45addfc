use vstd::prelude::*;

verus! {

#[derive(Debug)]
pub struct Cli {
    pub command: Command,
}

#[derive(Debug)]
pub enum Command {
    Calendars {
        action: CalendarCommand,
    },
    Projects {
        action: ProjectCommand,
    },
    Events {
        action: EventCommand,
    },
    Dependencies {
        action: DependencyCommand,
    },
    Tasks {
        action: TaskCommand,
    },
    Planner {
        action: PlannerCommand,
    },
    Google {
        action: GoogleCommand,
    },
    Ical {
        action: IcalCommand,
    },
}

#[derive(Debug)]
pub enum CalendarCommand {
    List,
    Get { id: String },
    Create(CalendarCreateArgs),
    Update(CalendarUpdateArgs),
    Delete(CalendarDeleteArgs),
}

#[derive(Debug)]
pub enum ProjectCommand {
    List,
    Get { id: String },
    Create(ProjectCreateArgs),
    Update(ProjectUpdateArgs),
    Delete(ProjectDeleteArgs),
}

#[derive(Debug)]
pub enum EventCommand {
    List(EventListArgs),
    Get { id: String },
    Create(EventCreateArgs),
    Update(EventUpdateArgs),
    Delete { id: String },
}

#[derive(Debug)]
pub enum DependencyCommand {
    List,
    Get { id: String },
    Create(DependencyCreateArgs),
    Update(DependencyUpdateArgs),
    Delete { id: String },
}

#[derive(Debug)]
pub enum TaskCommand {
    List,
    Get {
        id: String,
    },
    Create(TaskCreateArgs),
    Update(TaskUpdateArgs),
    Delete {
        id: String,
    },
    ReturnToInbox {
        id: String,
    },
    Dependencies {
        action: TaskDependencyCommand,
    },
}

#[derive(Debug)]
pub enum TaskDependencyCommand {
    List,
    Add(TaskDependencyArgs),
    Remove(TaskDependencyArgs),
}

#[derive(Debug)]
pub enum PlannerCommand {
    Settings {
        action: PlannerSettingsCommand,
    },
    Optimize(PlannerOptimizeArgs),
    Proposals {
        action: PlannerProposalCommand,
    },
}

#[derive(Debug)]
pub enum PlannerSettingsCommand {
    Show,
    Update(Box<PlannerSettingsArgs>),
}

#[derive(Debug)]
pub enum PlannerProposalCommand {
    List,
    Get { id: String },
    Apply { id: String },
}

#[derive(Debug)]
pub enum GoogleCommand {
    Auth {
        action: GoogleAuthCommand,
    },
    Calendars {
        action: GoogleCalendarCommand,
    },
    Sync(GoogleSyncArgs),
    SyncStatus(GoogleSyncStatusArgs),
    Conflicts {
        action: GoogleConflictCommand,
    },
}

#[derive(Debug)]
pub enum IcalCommand {
    Import(IcalImportArgs),
}

#[derive(Debug)]
pub enum GoogleAuthCommand {
    Status,
    Login(GoogleAuthLoginArgs),
    Logout,
}

#[derive(Debug)]
pub enum GoogleCalendarCommand {
    Discover,
    Import(GoogleCalendarImportArgs),
}

#[derive(Debug)]
pub enum GoogleConflictCommand {
    List,
    Resolve(GoogleConflictResolveArgs),
}

#[derive(Debug, Clone, Copy, PartialEq, Eq, Structural)]
pub enum CalendarSourceArg {
    Local,
    Google,
}

#[derive(Debug, Clone, Copy, PartialEq, Eq, Structural)]
pub enum DependencyTypeArg {
    Blocks,
    Related,
}

#[derive(Debug, Clone, Copy, PartialEq, Eq, Structural)]
pub enum TaskPriorityArg {
    Low,
    Normal,
    High,
}

#[derive(Debug, Clone, Copy, PartialEq, Eq, Structural)]
pub enum CognitiveLoadArg {
    Low,
    Medium,
    High,
}

#[derive(Debug, Clone, Copy, PartialEq, Eq, Structural)]
pub enum DeadlineKindArg {
    NoDeadline,
    Hard,
    Soft,
}
#[derive(Debug)]
pub struct CalendarCreateArgs {
    pub name: String,
    pub color: String,
    pub source: CalendarSourceArg,
    pub google_id: Option<String>,
    pub visible: bool,
    pub position: i64,
}

#[derive(Debug)]
pub struct CalendarUpdateArgs {
    pub id: String,
    pub name: Option<String>,
    pub color: Option<String>,
    pub source: Option<CalendarSourceArg>,
    pub google_id: Option<String>,
    pub visible: Option<bool>,
    pub position: Option<i64>,
}

#[derive(Debug)]
pub struct CalendarDeleteArgs {
    pub id: String,
    pub cascade_events: bool,
}

#[derive(Debug)]
pub struct ProjectCreateArgs {
    pub name: String,
    pub color: String,
    pub description: Option<String>,
}

#[derive(Debug)]
pub struct ProjectUpdateArgs {
    pub id: String,
    pub name: Option<String>,
    pub color: Option<String>,
    pub description: Option<String>,
}

#[derive(Debug)]
pub struct ProjectDeleteArgs {
    pub id: String,
    pub detach_events: bool,
}

#[derive(Debug)]
pub struct EventListArgs {
    pub from: Option<String>,
    pub to: Option<String>,
}

#[derive(Debug)]
pub struct EventCreateArgs {
    pub calendar_id: String,
    pub title: String,
    pub project_id: Option<String>,
    pub description: Option<String>,
    pub location: Option<String>,
    pub start_at: String,
    pub end_at: String,
    pub all_day: bool,
    pub rrule: Option<String>,
    pub reminder_minutes: Option<i64>,
    pub timezone: Option<String>,
}

#[derive(Debug)]
pub struct EventUpdateArgs {
    pub id: String,
    pub calendar_id: Option<String>,
    pub title: Option<String>,
    pub project_id: Option<String>,
    pub clear_project_id: bool,
    pub description: Option<String>,
    pub clear_description: bool,
    pub location: Option<String>,
    pub clear_location: bool,
    pub start_at: Option<String>,
    pub end_at: Option<String>,
    pub all_day: Option<bool>,
    pub rrule: Option<String>,
    pub clear_rrule: bool,
    pub reminder_minutes: Option<i64>,
    pub clear_reminder_minutes: bool,
    pub timezone: Option<String>,
}

#[derive(Debug)]
pub struct DependencyCreateArgs {
    pub from_event_id: String,
    pub to_event_id: String,
    pub dependency_type: DependencyTypeArg,
}

#[derive(Debug)]
pub struct DependencyUpdateArgs {
    pub id: String,
    pub from_event_id: Option<String>,
    pub to_event_id: Option<String>,
    pub dependency_type: Option<DependencyTypeArg>,
}
#[derive(Debug)]
pub struct TaskCreateArgs {
    pub title: String,
    pub duration_minutes: i64,
    pub target_calendar_id: String,
    pub project_id: Option<String>,
    pub priority: TaskPriorityArg,
    pub cognitive_load: CognitiveLoadArg,
    pub earliest_at: Option<String>,
    pub deadline_kind: DeadlineKindArg,
    pub deadline_at: Option<String>,
}

#[derive(Debug)]
pub struct TaskUpdateArgs {
    pub id: String,
    pub title: Option<String>,
    pub duration_minutes: Option<i64>,
    pub target_calendar_id: Option<String>,
    pub project_id: Option<String>,
    pub clear_project_id: bool,
    pub priority: Option<TaskPriorityArg>,
    pub cognitive_load: Option<CognitiveLoadArg>,
    pub earliest_at: Option<String>,
    pub clear_earliest_at: bool,
    pub deadline_kind: Option<DeadlineKindArg>,
    pub deadline_at: Option<String>,
    pub clear_deadline_at: bool,
}

#[derive(Debug)]
pub struct TaskDependencyArgs {
    pub from_task_id: String,
    pub to_task_id: String,
}

#[derive(Debug)]
pub struct PlannerOptimizeArgs {
    pub horizon_days: Option<i64>,
}

#[derive(Debug)]
pub struct PlannerSettingsArgs {
    pub timezone: Option<String>,
    pub availability: Vec<String>,
    pub horizon_days: Option<i64>,
    pub slot_minutes: Option<i64>,
    pub solve_seconds: Option<i64>,
    pub priority_low_weight: Option<i64>,
    pub priority_normal_weight: Option<i64>,
    pub priority_high_weight: Option<i64>,
    pub cognitive_enabled: Option<bool>,
    pub low_window_start: Option<String>,
    pub low_window_end: Option<String>,
    pub low_outside_penalty: Option<i64>,
    pub medium_window_start: Option<String>,
    pub medium_window_end: Option<String>,
    pub medium_outside_penalty: Option<i64>,
    pub high_window_start: Option<String>,
    pub high_window_end: Option<String>,
    pub high_outside_penalty: Option<i64>,
    pub high_streak_limit: Option<i64>,
    pub recovery_minutes: Option<i64>,
    pub excess_high_penalty: Option<i64>,
}

#[derive(Debug)]
pub struct GoogleSyncArgs {
    pub calendar_id: Option<String>,
}

#[derive(Debug)]
pub struct GoogleAuthLoginArgs {
    pub client_id: Option<String>,
    pub client_secret: Option<String>,
}

#[derive(Debug)]
pub struct GoogleCalendarImportArgs {
    pub google_id: String,
    pub position: Option<i64>,
}

#[derive(Debug)]
pub struct GoogleSyncStatusArgs {
    pub calendar_id: Option<String>,
}

#[derive(Debug, Clone, Copy, PartialEq, Eq, Structural)]
pub enum ConflictStrategyArg {
    KeepLocal,
    KeepRemote,
}

#[derive(Debug)]
pub struct GoogleConflictResolveArgs {
    pub id: String,
    pub strategy: ConflictStrategyArg,
}

#[derive(Debug)]
pub struct IcalImportArgs {
    pub calendar_id: String,
    pub path: String,
    pub timezone: Option<String>,
}

} // verus!

use vstd::prelude::*;

verus! {

/// The screens of the terminal interface.
#[derive(Debug, Clone, Copy, PartialEq, Eq, Structural)]
pub enum Screen {
    Month,
    Week,
    Day,
    Agenda,
    Help,
    EventForm,
    IcalImport,
    QuickAdd,
    GoogleAuth,
    GoogleManage,
    CalendarList,
    PlannerInbox,
    PlannerTaskForm,
    PlannerSettingsForm,
}

/// What a key press asks for, once resolved against the current screen.
#[derive(Debug, Clone, Copy, PartialEq, Eq, Structural)]
pub enum Action {
    Quit,
    Help,
    Escape,
    ViewMonth,
    ViewWeek,
    ViewDay,
    ViewAgenda,
    PlannerInbox,
    FocusSidebar,
    FocusMain,
    PrevPeriod,
    NextPeriod,
    PrevUnit,
    NextUnit,
    PrevDay,
    NextDay,
    JumpToday,
    JumpToDate,
    CreateEvent,
    EditEvent,
    DeleteEvent,
    SelectEvent,
    FormNextField,
    FormPrevField,
    FormSubmit,
    FormCancel,
    InputChar(char),
    InputBackspace,
    InputSubmit,
    InputCancel,
    CalendarUp,
    CalendarDown,
    ToggleCalendar,
    ScrollUp,
    ScrollDown,
    ScrollPageUp,
    ScrollPageDown,
    QuickAdd,
    GoogleManage,
    GoogleSync,
    GoogleDiscoverCalendars,
    GoogleImportCalendar,
    GoogleLogin,
    GoogleAuthLogout,
    ImportIcal,
    ExportIcal,
    CreateTask,
    PlannerOptimize,
    PlannerApply,
    PlannerSettings,
    NoAction,
}

} // verus!

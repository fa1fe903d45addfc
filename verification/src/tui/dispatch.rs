use vstd::prelude::*;
use vstd::string::StringExecFns;

use crate::dates::{shifted_date, valid_date, CalendarDate};
use crate::dag::str_eq;
use crate::tui::event_form::{form_erased, form_opened, form_submitted, form_typed};
use crate::tui::integrations::{
    auth_completed, deletion_requested, discovery_started, google_import_started, google_managed,
    ical_import_opened, ical_submitted, input_submitted, sync_started, visibility_toggled,
};
use crate::tui::keys::{Action, Screen};
use crate::tui::navigation::{
    escaped, jumped_to, moved_by, paged, period_moved, reload_effects, reloaded, scrolled_down,
    scrolled_up, switched, unit_back, unit_forward,
};
use crate::tui::planner::{
    next_of_five, optimization_blocker, prev_of_five, settings_slot, settings_submitted,
    task_form_erased, task_form_typed, task_submitted,
};
use crate::tui::query::visible_event_seq;
use crate::tui::state::{App, Effect};
use crate::tui::text_input::{erased, typed, TextSlot};

verus! {

/// Tab in a form: the next field of the form on screen.
pub open spec fn next_field(a: App) -> App {
    match a.view {
        Screen::GoogleAuth => App {
            google_auth_field: if a.google_auth_field < 1 {
                (a.google_auth_field + 1) as usize
            } else {
                a.google_auth_field
            },
            ..a
        },
        Screen::IcalImport => App { ical_import_field_index: 1, ..a },
        Screen::PlannerTaskForm => App { planner_task_field: next_of_five(a.planner_task_field), ..a },
        Screen::PlannerSettingsForm => App {
            planner_settings_field: next_of_five(a.planner_settings_field),
            ..a
        },
        _ => App {
            form_field_index: if a.form_field_index + 1 < 12 {
                (a.form_field_index + 1) as usize
            } else {
                a.form_field_index
            },
            ..a
        },
    }
}

/// Shift-Tab in a form: the previous field of the form on screen.
pub open spec fn prev_field(a: App) -> App {
    match a.view {
        Screen::GoogleAuth => App {
            google_auth_field: if a.google_auth_field > 0 {
                (a.google_auth_field - 1) as usize
            } else {
                0
            },
            ..a
        },
        Screen::IcalImport => App { ical_import_field_index: 0, ..a },
        Screen::PlannerTaskForm => App { planner_task_field: prev_of_five(a.planner_task_field), ..a },
        Screen::PlannerSettingsForm => App {
            planner_settings_field: prev_of_five(a.planner_settings_field),
            ..a
        },
        _ => App {
            form_field_index: if a.form_field_index > 0 {
                (a.form_field_index - 1) as usize
            } else {
                0
            },
            ..a
        },
    }
}

/// Enter in a form: the form on screen is submitted.
pub open spec fn form_submit_of(a: App, b: App, effects: Seq<Effect>) -> bool {
    match a.view {
        Screen::GoogleAuth => input_submitted(a, b, effects),
        Screen::IcalImport => ical_submitted(a, b, effects),
        Screen::PlannerTaskForm => task_submitted(a, b, effects),
        Screen::PlannerSettingsForm => settings_submitted(a, b, effects),
        _ => form_submitted(a, b, effects),
    }
}

/// A typed character goes to the form on screen.
pub open spec fn char_typed(a: App, b: App, c: char) -> bool {
    match a.view {
        Screen::PlannerTaskForm => task_form_typed(a, b, c),
        Screen::PlannerSettingsForm => typed(a, b, settings_slot(a.planner_settings_field), c),
        _ => form_typed(a, b, c),
    }
}

/// A backspace goes to the form on screen.
pub open spec fn char_erased(a: App, b: App) -> bool {
    match a.view {
        Screen::PlannerTaskForm => task_form_erased(a, b),
        Screen::PlannerSettingsForm => erased(a, b, settings_slot(a.planner_settings_field)),
        _ => form_erased(a, b),
    }
}

/// The cursor of the sidebar, or of the discovered Google calendars, moves up.
pub open spec fn cursor_up(a: App) -> App {
    if a.view == Screen::GoogleManage {
        App {
            google_discovery_index: if a.google_discovery_index > 0 {
                (a.google_discovery_index - 1) as usize
            } else {
                a.google_discovery_index
            },
            ..a
        }
    } else {
        App {
            calendar_list_index: if a.calendar_list_index > 0 {
                (a.calendar_list_index - 1) as usize
            } else {
                a.calendar_list_index
            },
            ..a
        }
    }
}

/// The cursor of the sidebar, or of the discovered Google calendars, moves down to the last.
pub open spec fn cursor_down(a: App) -> App {
    if a.view == Screen::GoogleManage {
        App {
            google_discovery_index: if a.google_discovery_index + 1 < a.google_discovered_calendars@.len() {
                (a.google_discovery_index + 1) as usize
            } else {
                a.google_discovery_index
            },
            ..a
        }
    } else {
        App {
            calendar_list_index: if a.calendar_list_index + 1 < a.calendars@.len() {
                (a.calendar_list_index + 1) as usize
            } else {
                a.calendar_list_index
            },
            ..a
        }
    }
}

/// The planner optimizes, or says what it needs first and opens its settings.
pub open spec fn optimize_requested(a: App, b: App, effects: Seq<Effect>) -> bool {
    match optimization_blocker(a) {
        Some(m) => {
            &&& b == App {
                status_message: b.status_message,
                status_is_error: true,
                planner_settings_field: 0,
                view: Screen::PlannerSettingsForm,
                ..a
            }
            &&& b.status_message@ == m
            &&& effects == seq![Effect::LoadPlannerSettings]
        },
        None => b == App { loading: true, ..a } && effects == seq![Effect::OptimizePlanner],
    }
}

/// A proposal that is ready is applied; otherwise the user is told why not.
pub open spec fn apply_requested(a: App, b: App, effects: Seq<Effect>) -> bool {
    match a.planner_proposal {
        Some(p) => if p.status@ == "ready"@ {
            &&& b == App { loading: true, ..a }
            &&& effects.len() == 1
            &&& effects[0] matches Effect::ApplyPlannerProposal { id }
            &&& id@ == p.id@
        } else {
            &&& b == App { status_message: b.status_message, status_is_error: true, ..a }
            &&& b.status_message@ == "This planner proposal has already been applied."@
            &&& effects.len() == 0
        },
        None => {
            &&& b == App { status_message: b.status_message, status_is_error: true, ..a }
            &&& b.status_message@ == "No proposal is ready to apply."@
            &&& effects.len() == 0
        },
    }
}

/// `b` and `effects` are what `a` makes of the action `act`.
pub open spec fn dispatched(a: App, b: App, act: Action, effects: Seq<Effect>) -> bool {
    match act {
        Action::Quit => b == App { running: false, ..a } && effects.len() == 0,
        Action::Help => b == App { view: Screen::Help, ..a } && effects.len() == 0,
        Action::Escape | Action::FormCancel | Action::InputCancel => b == escaped(a) && effects.len() == 0,
        Action::ViewMonth => b == switched(a, Screen::Month) && effects.len() == 0,
        Action::ViewWeek => b == switched(a, Screen::Week) && effects.len() == 0,
        Action::ViewDay => b == switched(a, Screen::Day) && effects.len() == 0,
        Action::ViewAgenda => b == switched(a, Screen::Agenda) && effects.len() == 0,
        Action::PlannerInbox => {
            &&& b == App { view: Screen::PlannerInbox, ..a }
            &&& effects == seq![Effect::LoadPlannerTasks, Effect::LoadPlannerSettings]
        },
        Action::FocusSidebar => b == App { sidebar_focused: true, view: Screen::CalendarList, ..a }
            && effects.len() == 0,
        Action::FocusMain => b == App { sidebar_focused: false, view: Screen::Month, ..a } && effects.len()
            == 0,
        Action::PrevPeriod => b == reloaded(period_moved(a, false)) && effects == reload_effects(
            period_moved(a, false),
        ),
        Action::NextPeriod => b == reloaded(period_moved(a, true)) && effects == reload_effects(
            period_moved(a, true),
        ),
        Action::PrevUnit => b == unit_back(a) && effects.len() == 0,
        Action::NextUnit => b == unit_forward(a) && effects.len() == 0,
        Action::PrevDay => {
            let m = App { focused_date: moved_by(a.focused_date, -1), ..a };
            b == reloaded(m) && effects == reload_effects(m)
        },
        Action::NextDay => {
            let m = App { focused_date: moved_by(a.focused_date, 1), ..a };
            b == reloaded(m) && effects == reload_effects(m)
        },
        Action::JumpToday => (exists|t: CalendarDate| valid_date(t) && b == #[trigger] jumped_to(a, t))
            && effects.len() == 0,
        Action::CreateEvent => form_opened(a, b, None) && effects.len() == 0,
        Action::EditEvent => {
            let v = visible_event_seq(a.calendars@, a.events@);
            &&& effects.len() == 0
            &&& if a.selected_event_index < v.len() {
                form_opened(a, b, Some(v[a.selected_event_index as int]))
            } else {
                &&& b == App { status_message: b.status_message, status_is_error: false, ..a }
                &&& b.status_message@ == "No event selected."@
            }
        },
        Action::DeleteEvent => deletion_requested(a, b, effects),
        Action::SelectEvent => b == (if a.view == Screen::Month {
            App { view: Screen::Day, ..a }
        } else {
            a
        }) && effects.len() == 0,
        Action::FormNextField => b == next_field(a) && effects.len() == 0,
        Action::FormPrevField => b == prev_field(a) && effects.len() == 0,
        Action::FormSubmit => form_submit_of(a, b, effects),
        Action::InputChar(c) => char_typed(a, b, c) && effects.len() == 0,
        Action::InputBackspace => char_erased(a, b) && effects.len() == 0,
        Action::InputSubmit => input_submitted(a, b, effects),
        Action::CalendarUp => b == cursor_up(a) && effects.len() == 0,
        Action::CalendarDown => b == cursor_down(a) && effects.len() == 0,
        Action::ToggleCalendar => visibility_toggled(a, b) && effects.len() == 0,
        Action::ScrollUp => b == scrolled_up(a) && effects.len() == 0,
        Action::ScrollDown => b == scrolled_down(a) && effects.len() == 0,
        Action::ScrollPageUp => b == paged(a, -10) && effects.len() == 0,
        Action::ScrollPageDown => b == paged(a, 10) && effects.len() == 0,
        Action::QuickAdd => {
            &&& b == App { quick_add_input: b.quick_add_input, view: Screen::QuickAdd, ..a }
            &&& b.quick_add_input@.len() == 0
            &&& effects.len() == 0
        },
        Action::GoogleManage => google_managed(a, b, effects),
        Action::GoogleSync => sync_started(a, b, effects),
        Action::GoogleDiscoverCalendars => discovery_started(a, b, effects),
        Action::GoogleImportCalendar => google_import_started(a, b, effects),
        Action::GoogleLogin => b == App { view: Screen::GoogleAuth, ..a } && effects.len() == 0,
        Action::GoogleAuthLogout => b == a && effects == seq![Effect::GoogleLogout],
        Action::ImportIcal => ical_import_opened(a, b) && effects.len() == 0,
        Action::ExportIcal => b == a && effects == seq![Effect::ExportIcal],
        Action::CreateTask => {
            &&& b == App {
                planner_task_title: b.planner_task_title,
                planner_task_duration: b.planner_task_duration,
                planner_task_field: 0,
                planner_task_calendar_index: 0,
                planner_task_priority_index: 1,
                planner_task_cognitive_index: 1,
                view: Screen::PlannerTaskForm,
                ..a
            }
            &&& b.planner_task_title@.len() == 0
            &&& b.planner_task_duration@ == "60"@
            &&& effects.len() == 0
        },
        Action::PlannerOptimize => optimize_requested(a, b, effects),
        Action::PlannerApply => apply_requested(a, b, effects),
        Action::PlannerSettings => {
            &&& b == App { planner_settings_field: 0, view: Screen::PlannerSettingsForm, ..a }
            &&& effects == seq![Effect::LoadPlannerSettings]
        },
        Action::NoAction | Action::JumpToDate => b == a && effects.len() == 0,
    }
}

impl App {
    fn dispatch_view(&mut self, action: Action) -> (r: Vec<Effect>)
        requires
            old(self).wf(),
            action is Quit || action is Help || action is Escape || action is FormCancel
                || action is InputCancel || action is ViewMonth || action is ViewWeek
                || action is ViewDay || action is ViewAgenda || action is PlannerInbox
                || action is FocusSidebar || action is FocusMain || action is SelectEvent
                || action is QuickAdd || action is GoogleLogin || action is NoAction
                || action is JumpToDate,
        ensures
            dispatched(*old(self), *final(self), action, r@),
            final(self).wf(),
    {
        match action {
            Action::Quit => {
                self.running = false;
                Vec::new()
            },
            Action::Help => {
                self.view = Screen::Help;
                Vec::new()
            },
            Action::Escape | Action::FormCancel | Action::InputCancel => {
                self.handle_escape();
                Vec::new()
            },
            Action::ViewMonth => {
                self.switch_view(Screen::Month);
                Vec::new()
            },
            Action::ViewWeek => {
                self.switch_view(Screen::Week);
                Vec::new()
            },
            Action::ViewDay => {
                self.switch_view(Screen::Day);
                Vec::new()
            },
            Action::ViewAgenda => {
                self.switch_view(Screen::Agenda);
                Vec::new()
            },
            Action::PlannerInbox => {
                self.view = Screen::PlannerInbox;
                let effects = vec![Effect::LoadPlannerTasks, Effect::LoadPlannerSettings];
                assert(effects@ =~= seq![Effect::LoadPlannerTasks, Effect::LoadPlannerSettings]);
                effects
            },
            Action::FocusSidebar => {
                self.sidebar_focused = true;
                self.view = Screen::CalendarList;
                Vec::new()
            },
            Action::FocusMain => {
                self.sidebar_focused = false;
                self.view = Screen::Month;
                Vec::new()
            },
            Action::SelectEvent => {
                self.select_event();
                Vec::new()
            },
            Action::QuickAdd => {
                self.quick_add_input = String::new();
                self.view = Screen::QuickAdd;
                Vec::new()
            },
            Action::GoogleLogin => {
                self.view = Screen::GoogleAuth;
                Vec::new()
            },
            _ => Vec::new(),
        }
    }

    fn dispatch_time(&mut self, action: Action) -> (r: Vec<Effect>)
        requires
            old(self).wf(),
            action is PrevPeriod || action is NextPeriod || action is PrevUnit || action is NextUnit
                || action is PrevDay || action is NextDay || action is JumpToday || action is ScrollUp
                || action is ScrollDown || action is ScrollPageUp || action is ScrollPageDown,
        ensures
            dispatched(*old(self), *final(self), action, r@),
            final(self).wf(),
    {
        match action {
            Action::PrevPeriod => self.prev_period(),
            Action::NextPeriod => self.next_period(),
            Action::PrevUnit => {
                self.prev_unit();
                Vec::new()
            },
            Action::NextUnit => {
                self.next_unit();
                Vec::new()
            },
            Action::PrevDay => self.move_day(-1),
            Action::NextDay => self.move_day(1),
            Action::JumpToday => self.jump_today(),
            Action::ScrollUp => {
                self.scroll_up();
                Vec::new()
            },
            Action::ScrollDown => {
                self.scroll_down();
                Vec::new()
            },
            Action::ScrollPageUp => {
                self.scroll_page(-10);
                Vec::new()
            },
            _ => {
                self.scroll_page(10);
                Vec::new()
            },
        }
    }

    fn dispatch_events(&mut self, action: Action) -> (r: Vec<Effect>)
        requires
            old(self).wf(),
            action is CreateEvent || action is EditEvent || action is DeleteEvent
                || action is FormNextField || action is FormPrevField || action is FormSubmit
                || action is InputSubmit,
        ensures
            dispatched(*old(self), *final(self), action, r@),
            final(self).wf(),
    {
        match action {
            Action::CreateEvent => {
                self.open_event_form(None);
                Vec::new()
            },
            Action::EditEvent => {
                self.open_edit_form();
                Vec::new()
            },
            Action::DeleteEvent => self.delete_selected_event(),
            Action::FormNextField => {
                match self.view {
                    Screen::GoogleAuth => {
                        if self.google_auth_field < 1 {
                            self.google_auth_field = self.google_auth_field + 1;
                        }
                    },
                    Screen::IcalImport => self.ical_import_next_field(),
                    Screen::PlannerTaskForm => self.planner_task_next_field(),
                    Screen::PlannerSettingsForm => self.planner_settings_next_field(),
                    _ => self.form_next_field(),
                }
                Vec::new()
            },
            Action::FormPrevField => {
                match self.view {
                    Screen::GoogleAuth => {
                        if self.google_auth_field > 0 {
                            self.google_auth_field = self.google_auth_field - 1;
                        }
                    },
                    Screen::IcalImport => self.ical_import_prev_field(),
                    Screen::PlannerTaskForm => self.planner_task_prev_field(),
                    Screen::PlannerSettingsForm => self.planner_settings_prev_field(),
                    _ => self.form_prev_field(),
                }
                Vec::new()
            },
            Action::FormSubmit => match self.view {
                Screen::GoogleAuth => self.handle_input_submit(),
                Screen::IcalImport => self.ical_import_submit(),
                Screen::PlannerTaskForm => self.planner_task_submit(),
                Screen::PlannerSettingsForm => self.planner_settings_submit(),
                _ => self.form_submit(),
            },
            _ => self.handle_input_submit(),
        }
    }

    fn dispatch_input(&mut self, action: Action) -> (r: Vec<Effect>)
        requires
            old(self).wf(),
            action is InputChar || action is InputBackspace || action is CalendarUp
                || action is CalendarDown || action is ToggleCalendar,
        ensures
            dispatched(*old(self), *final(self), action, r@),
            final(self).wf(),
    {
        match action {
            Action::InputChar(c) => {
                if self.view == Screen::PlannerTaskForm {
                    self.planner_task_input_char(c);
                } else if self.view == Screen::PlannerSettingsForm {
                    self.planner_settings_input_char(c);
                } else {
                    self.form_input_char(c);
                }
                Vec::new()
            },
            Action::InputBackspace => {
                if self.view == Screen::PlannerTaskForm {
                    self.planner_task_input_backspace();
                } else if self.view == Screen::PlannerSettingsForm {
                    self.planner_settings_input_backspace();
                } else {
                    self.form_input_backspace();
                }
                Vec::new()
            },
            Action::CalendarUp => {
                if self.view == Screen::GoogleManage {
                    if self.google_discovery_index > 0 {
                        self.google_discovery_index = self.google_discovery_index - 1;
                    }
                } else if self.calendar_list_index > 0 {
                    self.calendar_list_index = self.calendar_list_index - 1;
                }
                Vec::new()
            },
            Action::CalendarDown => {
                if self.view == Screen::GoogleManage {
                    if self.google_discovery_index < self.google_discovered_calendars.len()
                        && self.google_discovery_index + 1 < self.google_discovered_calendars.len() {
                        self.google_discovery_index = self.google_discovery_index + 1;
                    }
                } else if self.calendar_list_index < self.calendars.len() && self.calendar_list_index + 1
                    < self.calendars.len() {
                    self.calendar_list_index = self.calendar_list_index + 1;
                }
                Vec::new()
            },
            _ => {
                self.toggle_calendar_visibility();
                Vec::new()
            },
        }
    }

    fn dispatch_integrations(&mut self, action: Action) -> (r: Vec<Effect>)
        requires
            old(self).wf(),
            action is GoogleManage || action is GoogleSync || action is GoogleDiscoverCalendars
                || action is GoogleImportCalendar || action is GoogleAuthLogout || action is ImportIcal
                || action is ExportIcal,
        ensures
            dispatched(*old(self), *final(self), action, r@),
            final(self).wf(),
    {
        match action {
            Action::GoogleManage => self.google_manage(),
            Action::GoogleSync => self.google_sync(),
            Action::GoogleDiscoverCalendars => self.discover_google_calendars(),
            Action::GoogleImportCalendar => self.import_selected_google_calendar(),
            Action::GoogleAuthLogout => self.google_logout(),
            Action::ImportIcal => {
                self.open_ical_import();
                Vec::new()
            },
            _ => self.export_ical(),
        }
    }

    fn dispatch_planner(&mut self, action: Action) -> (r: Vec<Effect>)
        requires
            old(self).wf(),
            action is CreateTask || action is PlannerOptimize || action is PlannerApply
                || action is PlannerSettings,
        ensures
            dispatched(*old(self), *final(self), action, r@),
            final(self).wf(),
    {
        match action {
            Action::CreateTask => {
                self.open_planner_task_form();
                Vec::new()
            },
            Action::PlannerOptimize => {
                match self.planner_optimization_prerequisite() {
                    Some(message) => {
                        self.set_status(message, true);
                        self.open_planner_settings_form()
                    },
                    None => {
                        self.loading = true;
                        let effects = vec![Effect::OptimizePlanner];
                        assert(effects@ =~= seq![Effect::OptimizePlanner]);
                        effects
                    },
                }
            },
            Action::PlannerApply => {
                let ready = match &self.planner_proposal {
                    Some(p) => Some((str_eq(p.status.as_str(), "ready"), p.id.clone())),
                    None => None,
                };
                proof {
                    reveal_strlit("ready");
                }
                match ready {
                    Some((true, id)) => {
                        self.loading = true;
                        vec![Effect::ApplyPlannerProposal { id }]
                    },
                    Some((false, _)) => {
                        self.set_status(String::from_str("This planner proposal has already been applied."), true);
                        Vec::new()
                    },
                    None => {
                        self.set_status(String::from_str("No proposal is ready to apply."), true);
                        Vec::new()
                    },
                }
            },
            _ => self.open_planner_settings_form(),
        }
    }

    /// Carries out `action` on the interface and returns the work it calls for.
    pub fn dispatch(&mut self, action: Action) -> (r: Vec<Effect>)
        requires
            old(self).wf(),
        ensures
            dispatched(*old(self), *final(self), action, r@),
            final(self).wf(),
    {
        match action {
            Action::Quit | Action::Help | Action::Escape | Action::FormCancel | Action::InputCancel
            | Action::ViewMonth | Action::ViewWeek | Action::ViewDay | Action::ViewAgenda
            | Action::PlannerInbox | Action::FocusSidebar | Action::FocusMain | Action::SelectEvent
            | Action::QuickAdd | Action::GoogleLogin | Action::NoAction | Action::JumpToDate => {
                self.dispatch_view(action)
            },
            Action::PrevPeriod | Action::NextPeriod | Action::PrevUnit | Action::NextUnit
            | Action::PrevDay | Action::NextDay | Action::JumpToday | Action::ScrollUp
            | Action::ScrollDown | Action::ScrollPageUp | Action::ScrollPageDown => {
                self.dispatch_time(action)
            },
            Action::CreateEvent | Action::EditEvent | Action::DeleteEvent | Action::FormNextField
            | Action::FormPrevField | Action::FormSubmit | Action::InputSubmit => {
                self.dispatch_events(action)
            },
            Action::InputChar(_) | Action::InputBackspace | Action::CalendarUp
            | Action::CalendarDown | Action::ToggleCalendar => self.dispatch_input(action),
            Action::GoogleManage | Action::GoogleSync | Action::GoogleDiscoverCalendars
            | Action::GoogleImportCalendar | Action::GoogleAuthLogout | Action::ImportIcal
            | Action::ExportIcal => self.dispatch_integrations(action),
            Action::CreateTask | Action::PlannerOptimize | Action::PlannerApply
            | Action::PlannerSettings => self.dispatch_planner(action),
        }
    }
}

/// In the month view a unit is a week: `NextUnit` moves the focused date seven days on and
/// `PrevUnit` seven days back, and the date stays where chrono's range would be left.
pub proof fn lemma_month_unit_is_a_week(a: App, fwd: App, fwd_effects: Seq<Effect>, back: App, back_effects: Seq<Effect>)
    requires
        a.view == Screen::Month,
        dispatched(a, fwd, Action::NextUnit, fwd_effects),
        dispatched(a, back, Action::PrevUnit, back_effects),
    ensures
        fwd.focused_date == (match shifted_date(a.focused_date, 7) { Some(d) => d, None => a.focused_date }),
        back.focused_date == (match shifted_date(a.focused_date, -7) { Some(d) => d, None => a.focused_date }),
        fwd.view == Screen::Month,
        back.view == Screen::Month,
        fwd_effects.len() == 0,
        back_effects.len() == 0,
{
}

/// In the month view, a unit forward and then a unit back return to the focused date,
/// wherever the week forward stays within chrono's range.
pub proof fn lemma_month_unit_undone(a: App, b: App, b_effects: Seq<Effect>, c: App, c_effects: Seq<Effect>)
    requires
        a.view == Screen::Month,
        shifted_date(a.focused_date, 7) is Some,
        dispatched(a, b, Action::NextUnit, b_effects),
        dispatched(b, c, Action::PrevUnit, c_effects),
    ensures
        c.focused_date == a.focused_date,
{
    crate::dates::lemma_shift_undone(a.focused_date, 7);
}

/// A period is a week in the week view and a day in the day view: `NextPeriod` and
/// `PrevPeriod` move the focused date that far on or back (it stays where chrono's range
/// would be left), keep the view, and the loaded month follows the date.
pub proof fn lemma_period_moves(a: App, fwd: App, fwd_effects: Seq<Effect>, back: App, back_effects: Seq<Effect>)
    requires
        a.view == Screen::Week || a.view == Screen::Day,
        dispatched(a, fwd, Action::NextPeriod, fwd_effects),
        dispatched(a, back, Action::PrevPeriod, back_effects),
    ensures
        ({
            let n: int = if a.view == Screen::Week { 7 } else { 1 };
            &&& fwd.focused_date == (match shifted_date(a.focused_date, n) { Some(d) => d, None => a.focused_date })
            &&& back.focused_date == (match shifted_date(a.focused_date, -n) { Some(d) => d, None => a.focused_date })
        }),
        fwd.view == a.view,
        back.view == a.view,
        fwd.view_year == fwd.focused_date.0 && fwd.view_month == fwd.focused_date.1,
        back.view_year == back.focused_date.0 && back.view_month == back.focused_date.1,
{
}

/// In the week and day views a period forward and then a period back return to the
/// focused date, wherever the first move stays within chrono's range.
pub proof fn lemma_period_undone(a: App, b: App, b_effects: Seq<Effect>, c: App, c_effects: Seq<Effect>)
    requires
        a.view == Screen::Week || a.view == Screen::Day,
        shifted_date(a.focused_date, if a.view == Screen::Week { 7 } else { 1 }) is Some,
        dispatched(a, b, Action::NextPeriod, b_effects),
        dispatched(b, c, Action::PrevPeriod, c_effects),
    ensures
        c.focused_date == a.focused_date,
{
    crate::dates::lemma_shift_undone(a.focused_date, if a.view == Screen::Week { 7 } else { 1 });
}

/// `NextDay` and `PrevDay` move the focused date one day on or back in every view (it
/// stays where chrono's range would be left); one day on and one day back return to it.
pub proof fn lemma_day_moves(a: App, fwd: App, fwd_effects: Seq<Effect>, back: App, back_effects: Seq<Effect>, c: App, c_effects: Seq<Effect>)
    requires
        dispatched(a, fwd, Action::NextDay, fwd_effects),
        dispatched(a, back, Action::PrevDay, back_effects),
        dispatched(fwd, c, Action::PrevDay, c_effects),
    ensures
        fwd.focused_date == (match shifted_date(a.focused_date, 1) { Some(d) => d, None => a.focused_date }),
        back.focused_date == (match shifted_date(a.focused_date, -1) { Some(d) => d, None => a.focused_date }),
        shifted_date(a.focused_date, 1) is Some ==> c.focused_date == a.focused_date,
{
    if shifted_date(a.focused_date, 1) is Some {
        crate::dates::lemma_shift_undone(a.focused_date, 1);
    }
}

} // verus!

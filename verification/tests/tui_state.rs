use planner_core::dates::{days_in_month, format_date};
use planner_core::models::{Calendar, CalendarSource, CalendarSyncState, Event};
use planner_core::tui::keys::{Action, Screen};
use planner_core::tui::state::{App, Effect, PlannerProposal, WorkerResult};
use planner_core::tui::FormField;

fn calendar(id: &str, visible: bool) -> Calendar {
    Calendar {
        id: id.to_string(),
        name: "Work".to_string(),
        color: "#50f872".to_string(),
        source: CalendarSource::Local,
        google_id: None,
        visible,
        position: 0,
        created_at: "2026-04-06 10:00:00".to_string(),
        updated_at: "2026-04-06 10:00:00".to_string(),
        deleted_at: None,
    }
}

fn event(id: &str, calendar_id: &str) -> Event {
    let mut e = Event::new(
        calendar_id.to_string(),
        format!("Event {id}"),
        "2026-04-12 09:30:00".to_string(),
        "2026-04-12 11:15:00".to_string(),
        "UTC".to_string(),
    );
    e.id = id.to_string();
    e
}

fn fresh() -> App {
    let (app, effects) = App::new("Europe/Rome".to_string(), None, None, false);
    assert_eq!(effects.len(), 5);
    app
}

#[test]
fn new_interface_starts_on_month_view_and_loads_everything() {
    let (app, effects) = App::new(
        "Europe/Rome".to_string(),
        Some("client".to_string()),
        Some("secret".to_string()),
        true,
    );
    assert!(app.running);
    assert_eq!(app.view, Screen::Month);
    assert_eq!(app.week_scroll, 8);
    assert_eq!(app.form_start_time, "09:00");
    assert_eq!(app.form_timezone, "Europe/Rome");
    assert_eq!(app.google_auth_client_id, "client");
    assert_eq!(app.google_auth_client_secret, "secret");
    assert_eq!(app.view_month, app.focused_date.1);
    assert_eq!(app.form_date, format_date(app.focused_date));
    assert!(matches!(effects[0], Effect::LoadCalendars));
    assert!(matches!(effects[4], Effect::LoadPlannerTasks));
}

#[test]
fn quit_stops_the_interface() {
    let mut app = fresh();
    let effects = app.dispatch(Action::Quit);
    assert!(!app.running);
    assert!(effects.is_empty());
}

#[test]
fn escape_leaves_forms() {
    let mut app = fresh();
    app.dispatch(Action::CreateEvent);
    assert_eq!(app.view, Screen::EventForm);
    app.dispatch(Action::Escape);
    assert_eq!(app.view, Screen::Month);
    app.dispatch(Action::CreateTask);
    assert_eq!(app.view, Screen::PlannerTaskForm);
    app.dispatch(Action::FormCancel);
    assert_eq!(app.view, Screen::PlannerInbox);
    app.dispatch(Action::FocusSidebar);
    assert!(app.sidebar_focused);
    app.dispatch(Action::InputCancel);
    assert_eq!(app.view, Screen::Month);
    assert!(!app.sidebar_focused);
}

#[test]
fn new_event_form_has_defaults() {
    let mut app = fresh();
    app.dispatch(Action::CreateEvent);
    assert!(app.form_is_new);
    assert_eq!(app.form_start_time, "09:00");
    assert_eq!(app.form_end_time, "10:00");
    assert_eq!(app.form_reminder, "15");
    assert_eq!(app.form_timezone, "Europe/Rome");
    assert_eq!(app.form_field_index, 0);
    assert_eq!(app.form_fields, FormField::all());
}

#[test]
fn backspace_undoes_a_typed_character() {
    let mut app = fresh();
    app.dispatch(Action::CreateEvent);
    app.dispatch(Action::InputChar('P'));
    app.dispatch(Action::InputChar('x'));
    assert_eq!(app.form_title, "Px");
    app.dispatch(Action::InputBackspace);
    assert_eq!(app.form_title, "P");
}

#[test]
fn reminder_field_takes_digits_only() {
    let mut app = fresh();
    app.dispatch(Action::CreateEvent);
    for _ in 0..10 {
        app.dispatch(Action::FormNextField);
    }
    assert_eq!(app.form_fields[app.form_field_index], FormField::Reminder);
    app.dispatch(Action::InputChar('a'));
    app.dispatch(Action::InputChar('5'));
    assert_eq!(app.form_reminder, "155");
    app.dispatch(Action::FormNextField);
    app.dispatch(Action::FormNextField);
    assert_eq!(app.form_field_index, 11);
}

#[test]
fn event_form_refuses_blank_title_then_missing_calendar() {
    let mut app = fresh();
    app.dispatch(Action::CreateEvent);
    let effects = app.dispatch(Action::FormSubmit);
    assert!(effects.is_empty());
    assert_eq!(app.status_message, "Title cannot be empty.");
    assert!(app.status_is_error);
    app.dispatch(Action::InputChar('T'));
    let effects = app.dispatch(Action::FormSubmit);
    assert!(effects.is_empty());
    assert_eq!(app.status_message, "No calendar selected.");
}

#[test]
fn event_form_hands_the_event_over() {
    let mut app = fresh();
    let loads = app.handle_worker_result(WorkerResult::CalendarsLoaded(vec![calendar("cal-1", true)]));
    assert!(matches!(loads[0], Effect::LoadEvents { .. }));
    app.dispatch(Action::CreateEvent);
    app.form_date = "2026-04-12".to_string();
    for c in "Standup".chars() {
        app.dispatch(Action::InputChar(c));
    }
    let effects = app.dispatch(Action::FormSubmit);
    assert!(app.loading);
    match &effects[0] {
        Effect::SaveEvent { event, is_new } => {
            assert!(*is_new);
            assert_eq!(event.title, "Standup");
            assert_eq!(event.calendar_id, "cal-1");
            assert_eq!(event.start_at, "2026-04-12 09:00:00");
            assert_eq!(event.end_at, "2026-04-12 10:00:00");
            assert_eq!(event.reminder_minutes, Some(15));
            assert_eq!(event.timezone, "Europe/Rome");
            assert_eq!(event.location, None);
            assert_eq!(event.id.len(), 36);
        }
        other => panic!("unexpected effect {other:?}"),
    }
}

#[test]
fn edit_form_reads_the_selected_event() {
    let mut app = fresh();
    app.handle_worker_result(WorkerResult::CalendarsLoaded(vec![
        calendar("hidden", false),
        calendar("cal-1", true),
    ]));
    let mut e = event("e-1", "cal-1");
    e.reminder_minutes = Some(-5);
    app.handle_worker_result(WorkerResult::EventsLoaded {
        events: vec![event("e-0", "hidden"), e],
    });
    assert_eq!(app.visible_events().len(), 1);
    app.dispatch(Action::EditEvent);
    assert_eq!(app.view, Screen::EventForm);
    assert!(!app.form_is_new);
    assert_eq!(app.form_date, "2026-04-12");
    assert_eq!(app.form_start_time, "09:30");
    assert_eq!(app.form_end_time, "11:15");
    assert_eq!(app.form_reminder, "-5");
    assert_eq!(app.form_calendar_index, 1);
    assert_eq!(app.form_title, "Event e-1");
}

#[test]
fn edit_without_selection_says_so() {
    let mut app = fresh();
    app.dispatch(Action::EditEvent);
    assert_eq!(app.status_message, "No event selected.");
    assert!(!app.status_is_error);
}

#[test]
fn month_navigation_wraps_the_year_and_clamps_the_day() {
    let mut app = fresh();
    app.focused_date = (2026, 12, 31);
    app.view_month = 12;
    app.view_year = 2026;
    let effects = app.dispatch(Action::NextPeriod);
    assert_eq!((app.view_year, app.view_month), (2027, 1));
    assert_eq!(app.focused_date, (2027, 1, 31));
    assert!(effects.is_empty());
    app.dispatch(Action::NextPeriod);
    assert_eq!(app.focused_date, (2027, 2, 28));
    app.dispatch(Action::PrevPeriod);
    app.dispatch(Action::PrevPeriod);
    assert_eq!((app.view_year, app.view_month), (2026, 12));
    assert_eq!(app.focused_date, (2026, 12, 28));
}

#[test]
fn leap_february_keeps_the_twenty_ninth() {
    let mut app = fresh();
    app.focused_date = (2028, 1, 31);
    app.view_month = 1;
    app.view_year = 2028;
    app.dispatch(Action::NextPeriod);
    assert_eq!(app.focused_date, (2028, 2, 29));
}

#[test]
fn week_view_moves_by_seven_days_and_reloads_across_months() {
    let mut app = fresh();
    app.dispatch(Action::ViewWeek);
    app.focused_date = (2026, 4, 28);
    app.view_month = 4;
    app.view_year = 2026;
    let effects = app.dispatch(Action::NextPeriod);
    assert_eq!(app.focused_date, (2026, 5, 5));
    assert_eq!((app.view_year, app.view_month), (2026, 5));
    assert!(app.loading);
    assert!(matches!(effects[0], Effect::LoadEvents { year: 2026, month: 5 }));
    app.dispatch(Action::ViewDay);
    app.dispatch(Action::PrevDay);
    assert_eq!(app.focused_date, (2026, 5, 4));
}

#[test]
fn hour_scroll_stays_within_the_day() {
    let mut app = fresh();
    app.dispatch(Action::ViewWeek);
    for _ in 0..40 {
        app.dispatch(Action::ScrollDown);
    }
    assert_eq!(app.week_scroll, 20);
    for _ in 0..40 {
        app.dispatch(Action::ScrollUp);
    }
    assert_eq!(app.week_scroll, 0);
    for _ in 0..40 {
        app.dispatch(Action::NextUnit);
    }
    assert_eq!(app.week_scroll, 18);
}

#[test]
fn help_page_scroll_saturates() {
    let mut app = fresh();
    app.dispatch(Action::Help);
    app.dispatch(Action::ScrollPageUp);
    assert_eq!(app.help_scroll, 0);
    app.dispatch(Action::ScrollPageDown);
    app.dispatch(Action::ScrollDown);
    assert_eq!(app.help_scroll, 11);
}

#[test]
fn planner_task_form_needs_a_calendar_and_a_positive_duration() {
    let mut app = fresh();
    app.dispatch(Action::CreateTask);
    assert_eq!(app.planner_task_duration, "60");
    app.dispatch(Action::FormSubmit);
    assert_eq!(app.status_message, "Create a calendar before adding a planner task.");
    app.handle_worker_result(WorkerResult::CalendarsLoaded(vec![calendar("cal-1", true)]));
    app.dispatch(Action::FormNextField);
    app.dispatch(Action::InputBackspace);
    app.dispatch(Action::InputBackspace);
    app.dispatch(Action::InputChar('0'));
    app.dispatch(Action::FormSubmit);
    assert_eq!(app.status_message, "Task duration must be a positive number of minutes.");
    app.dispatch(Action::InputChar('5'));
    app.dispatch(Action::FormPrevField);
    app.dispatch(Action::InputChar('W'));
    let effects = app.dispatch(Action::FormSubmit);
    assert_eq!(app.view, Screen::PlannerInbox);
    match &effects[0] {
        Effect::CreatePlannerTask { input } => {
            assert_eq!(input.title, "W");
            assert_eq!(input.duration_minutes, 5);
            assert_eq!(input.target_calendar_id, "cal-1");
        }
        other => panic!("unexpected effect {other:?}"),
    }
}

#[test]
fn planner_fields_wrap_around() {
    let mut app = fresh();
    app.dispatch(Action::CreateTask);
    app.dispatch(Action::FormPrevField);
    assert_eq!(app.planner_task_field, 4);
    app.dispatch(Action::FormNextField);
    assert_eq!(app.planner_task_field, 0);
    app.dispatch(Action::FormNextField);
    app.dispatch(Action::FormNextField);
    app.dispatch(Action::FormNextField);
    app.dispatch(Action::InputChar(' '));
    app.dispatch(Action::InputChar(' '));
    assert_eq!(app.planner_task_priority_index, 0);
}

#[test]
fn optimizing_without_settings_opens_the_settings_form() {
    let mut app = fresh();
    let effects = app.dispatch(Action::PlannerOptimize);
    assert_eq!(
        app.status_message,
        "Planner settings are loading; wait a moment, then optimize."
    );
    assert!(app.status_is_error);
    assert_eq!(app.view, Screen::PlannerSettingsForm);
    assert!(matches!(effects[0], Effect::LoadPlannerSettings));
}

#[test]
fn applying_a_proposal_needs_one_that_is_ready() {
    let mut app = fresh();
    app.dispatch(Action::PlannerApply);
    assert_eq!(app.status_message, "No proposal is ready to apply.");
    app.handle_worker_result(WorkerResult::PlannerProposalReady(PlannerProposal {
        id: "p-1".to_string(),
        status: "ready".to_string(),
    }));
    assert_eq!(
        app.status_message,
        "Planner proposal is ready for review; press a to apply."
    );
    let effects = app.dispatch(Action::PlannerApply);
    assert!(matches!(&effects[0], Effect::ApplyPlannerProposal { id } if id == "p-1"));
    app.handle_worker_result(WorkerResult::PlannerProposalApplied(PlannerProposal {
        id: "p-1".to_string(),
        status: "applied".to_string(),
    }));
    app.dispatch(Action::PlannerApply);
    assert_eq!(
        app.status_message,
        "This planner proposal has already been applied."
    );
}

#[test]
fn planner_settings_form_checks_each_field() {
    let mut app = fresh();
    app.dispatch(Action::PlannerSettings);
    let effects = app.dispatch(Action::FormSubmit);
    assert!(effects.is_empty());
    assert_eq!(
        app.status_message,
        "Timezone must be an IANA name such as Europe/Rome or UTC."
    );
    for c in "UTC".chars() {
        app.dispatch(Action::InputChar(c));
    }
    app.planner_settings_horizon_days = "two".to_string();
    app.dispatch(Action::FormSubmit);
    assert_eq!(app.status_message, "Horizon days must be a whole number.");
    app.planner_settings_horizon_days = "14".to_string();
    let effects = app.dispatch(Action::FormSubmit);
    assert_eq!(app.view, Screen::PlannerInbox);
    match &effects[0] {
        Effect::UpdatePlannerSettings {
            timezone,
            horizon_days,
            slot_minutes,
            solve_seconds,
            ..
        } => {
            assert_eq!(timezone, "UTC");
            assert_eq!((*horizon_days, *slot_minutes, *solve_seconds), (14, 15, 5));
        }
        other => panic!("unexpected effect {other:?}"),
    }
}

#[test]
fn google_sync_needs_sign_in_then_google_calendars() {
    let mut app = fresh();
    app.dispatch(Action::GoogleSync);
    assert_eq!(app.view, Screen::GoogleAuth);
    app.google_connected = true;
    app.dispatch(Action::GoogleSync);
    assert_eq!(
        app.status_message,
        "No Google calendars configured. Press G to set up."
    );
    assert!(!app.loading);
}

#[test]
fn sign_in_popup_needs_a_client_id() {
    let mut app = fresh();
    app.dispatch(Action::GoogleLogin);
    app.dispatch(Action::InputSubmit);
    assert_eq!(app.google_auth_field, 1);
    app.dispatch(Action::InputSubmit);
    assert_eq!(app.status_message, "Client ID is required.");
    app.google_auth_field = 0;
    app.dispatch(Action::InputChar('c'));
    app.google_auth_field = 1;
    let effects = app.dispatch(Action::FormSubmit);
    assert_eq!(app.view, Screen::GoogleManage);
    assert_eq!(app.status_message, "Waiting for browser authorization…");
    assert!(matches!(&effects[0], Effect::CompleteGoogleAuth { client_id, .. } if client_id == "c"));
}

#[test]
fn worker_reports_update_the_status_line() {
    let mut app = fresh();
    app.handle_worker_result(WorkerResult::GoogleSyncFinished {
        calendars_succeeded: 2,
        calendars_failed: 0,
        events_added: 4,
        events_updated: 5,
        conflicts_detected: 1,
    });
    assert_eq!(app.status_message, "Google sync: +4 events, 5 updated, 1 conflicts.");
    app.handle_worker_result(WorkerResult::IcalImported {
        imported: 3,
        path: "cal.ics".to_string(),
        warnings: 2,
    });
    assert_eq!(app.status_message, "Imported 3 events from cal.ics. 2 warnings.");
    app.handle_worker_result(WorkerResult::Error("boom".to_string()));
    assert!(app.status_is_error);
    assert!(!app.loading);
}

#[test]
fn deleted_event_leaves_the_list() {
    let mut app = fresh();
    app.handle_worker_result(WorkerResult::CalendarsLoaded(vec![calendar("cal-1", true)]));
    app.handle_worker_result(WorkerResult::EventsLoaded {
        events: vec![event("e-1", "cal-1"), event("e-2", "cal-1")],
    });
    let effects = app.dispatch(Action::DeleteEvent);
    assert!(matches!(&effects[0], Effect::DeleteEvent { id } if id == "e-1"));
    app.handle_worker_result(WorkerResult::EventDeleted("e-1".to_string()));
    assert_eq!(app.events.len(), 1);
    assert_eq!(app.events[0].id, "e-2");
    assert_eq!(app.status_message, "Event deleted.");
}

#[test]
fn planner_selection_is_clamped_when_tasks_shrink() {
    let mut app = fresh();
    app.handle_worker_result(WorkerResult::PlannerTasksLoaded { count: 3 });
    app.dispatch(Action::PlannerInbox);
    app.dispatch(Action::NextUnit);
    app.dispatch(Action::NextUnit);
    app.dispatch(Action::NextUnit);
    assert_eq!(app.planner_selected_index, 2);
    app.handle_worker_result(WorkerResult::PlannerTasksLoaded { count: 1 });
    assert_eq!(app.planner_selected_index, 0);
}

#[test]
fn quick_add_creates_a_morning_event() {
    let mut app = fresh();
    app.handle_worker_result(WorkerResult::CalendarsLoaded(vec![calendar("cal-1", true)]));
    app.dispatch(Action::QuickAdd);
    for c in "  Lunch ".chars() {
        app.dispatch(Action::InputChar(c));
    }
    let effects = app.dispatch(Action::InputSubmit);
    assert_eq!(app.view, Screen::Month);
    let date = format_date(app.focused_date);
    match &effects[0] {
        Effect::SaveEvent { event, is_new } => {
            assert!(*is_new);
            assert_eq!(event.title, "Lunch");
            assert_eq!(event.start_at, format!("{date} 09:00:00"));
            assert_eq!(event.end_at, format!("{date} 10:00:00"));
            assert_eq!(event.timezone, "Europe/Rome");
        }
        other => panic!("unexpected effect {other:?}"),
    }
}

#[test]
fn toggling_a_calendar_hides_its_events() {
    let mut app = fresh();
    app.handle_worker_result(WorkerResult::CalendarsLoaded(vec![calendar("cal-1", true)]));
    app.handle_worker_result(WorkerResult::EventsLoaded {
        events: vec![event("e-1", "cal-1")],
    });
    assert_eq!(app.visible_events().len(), 1);
    app.dispatch(Action::ToggleCalendar);
    assert!(!app.calendars[0].visible);
    assert!(app.visible_events().is_empty());
    assert!(app.selected_event().is_none());
}

#[test]
fn calendar_colour_index_falls_back_to_zero() {
    let mut app = fresh();
    app.handle_worker_result(WorkerResult::CalendarsLoaded(vec![
        calendar("a", true),
        calendar("b", true),
    ]));
    assert_eq!(app.calendar_index_for("b"), 1);
    assert_eq!(app.calendar_index_for("zzz"), 0);
}

#[test]
fn cursor_blinks_every_two_ticks() {
    let mut app = fresh();
    assert!(app.cursor_visible());
    app.handle_tick();
    assert!(app.cursor_visible());
    app.handle_tick();
    assert!(!app.cursor_visible());
    app.tick_count = u64::MAX;
    app.handle_tick();
    assert_eq!(app.tick_count, 0);
}

#[test]
fn ical_import_needs_a_calendar_and_a_path() {
    let mut app = fresh();
    app.dispatch(Action::ImportIcal);
    assert_eq!(app.status_message, "No calendar available for import.");
    app.handle_worker_result(WorkerResult::CalendarsLoaded(vec![calendar("cal-1", true)]));
    app.dispatch(Action::ImportIcal);
    assert_eq!(app.view, Screen::IcalImport);
    app.dispatch(Action::FormSubmit);
    assert_eq!(app.status_message, "Import path cannot be empty.");
    for c in " a.ics".chars() {
        app.dispatch(Action::InputChar(c));
    }
    let effects = app.dispatch(Action::FormSubmit);
    assert_eq!(app.status_message, "Importing a.ics…");
    assert!(matches!(&effects[0], Effect::ImportIcal { path, calendar_id, .. } if path == "a.ics" && calendar_id == "cal-1"));
}

#[test]
fn days_in_month_follows_the_gregorian_calendar() {
    assert_eq!(days_in_month(2026, 2), 28);
    assert_eq!(days_in_month(2024, 2), 29);
    assert_eq!(days_in_month(1900, 2), 28);
    assert_eq!(days_in_month(2000, 2), 29);
    assert_eq!(days_in_month(2026, 4), 30);
    assert_eq!(days_in_month(2026, 12), 31);
    assert_eq!(days_in_month(2026, 0), 31);
    assert_eq!(days_in_month(2026, 13), 30);
}

fn sync_state(calendar_id: &str, pending_outbox: i64) -> CalendarSyncState {
    CalendarSyncState {
        calendar_id: calendar_id.to_string(),
        google_access_role: None,
        writable: true,
        last_synced_at: None,
        last_sync_error_code: None,
        last_sync_error_message: None,
        pending_outbox,
        pending_conflicts: 0,
        created_at: "2024-01-01 00:00:00".to_string(),
        updated_at: "2024-01-01 00:00:00".to_string(),
    }
}

#[test]
fn loaded_sync_states_keep_the_last_one_per_calendar() {
    let mut app = fresh();
    app.handle_worker_result(WorkerResult::CalendarSyncStatesLoaded(vec![
        sync_state("a", 1),
        sync_state("b", 2),
        sync_state("a", 3),
    ]));
    assert_eq!(app.calendar_sync_state.len(), 2);
    assert_eq!(app.calendar_sync_state[0].calendar_id, "b");
    assert_eq!(app.calendar_sync_state[0].pending_outbox, 2);
    assert_eq!(app.calendar_sync_state[1].calendar_id, "a");
    assert_eq!(app.calendar_sync_state[1].pending_outbox, 3);
}

#[test]
fn a_week_forward_then_back_returns_to_the_same_day() {
    let mut app = fresh();
    app.dispatch(Action::ViewWeek);
    app.focused_date = (2026, 12, 29);
    app.view_month = 12;
    app.view_year = 2026;
    app.dispatch(Action::NextPeriod);
    assert_eq!(app.focused_date, (2027, 1, 5));
    app.dispatch(Action::PrevPeriod);
    assert_eq!(app.focused_date, (2026, 12, 29));
    app.dispatch(Action::ViewDay);
    app.focused_date = (2024, 2, 29);
    app.dispatch(Action::NextDay);
    assert_eq!(app.focused_date, (2024, 3, 1));
    app.dispatch(Action::PrevDay);
    assert_eq!(app.focused_date, (2024, 2, 29));
}

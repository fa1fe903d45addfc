use planner_core::cli::args::{DependencyCreateArgs, DependencyTypeArg, EventUpdateArgs};
use planner_core::cli::google::{google_calendars_to_sync, override_counts, summarize_google_sync};
use planner_core::cli::handlers::{check_calendar_delete, check_project_delete, new_dependency};
use planner_core::cli::validation::validate_event_update_args;
use planner_core::models::{Calendar, CalendarSource, EventDependency, SyncCalendarReport};

fn personal() -> Calendar {
    Calendar {
        id: "00000000-0000-4000-8000-000000000001".to_string(),
        name: "Personal".to_string(),
        color: "#82FB9C".to_string(),
        source: CalendarSource::Local,
        google_id: None,
        visible: true,
        position: 0,
        created_at: "2026-04-06 10:00:00".to_string(),
        updated_at: "2026-04-06 10:00:00".to_string(),
        deleted_at: None,
    }
}

fn blocks(from: &str, to: &str) -> DependencyCreateArgs {
    DependencyCreateArgs {
        from_event_id: from.to_string(),
        to_event_id: to.to_string(),
        dependency_type: DependencyTypeArg::Blocks,
    }
}

#[test]
fn blocks_cycle_is_rejected() {
    let mut dependencies: Vec<EventDependency> = Vec::new();
    let first = new_dependency(blocks("event-a", "event-b"), true, true, &dependencies).unwrap();
    dependencies.push(first);

    let err = new_dependency(blocks("event-b", "event-a"), true, true, &dependencies).unwrap_err();
    assert_eq!(err.code, "conflict");
}

#[test]
fn project_delete_requires_detach_flag() {
    let err = check_project_delete(true, "project-1", 1, false).unwrap_err();
    assert_eq!(err.code, "conflict");
}

#[test]
fn calendar_delete_rejects_last_active_calendar() {
    let only_calendar = personal();
    let err = check_calendar_delete(true, &only_calendar.id, 1, 0, false).unwrap_err();
    assert_eq!(err.code, "conflict");
    assert_eq!(err.message, "cannot delete the last active calendar");
}

#[test]
fn project_delete_with_detach_clears_project_id() {
    assert!(check_project_delete(true, "project-1", 1, true).is_ok());
}

#[test]
fn event_update_conflicting_flags_are_rejected() {
    let args = EventUpdateArgs {
        id: "event-1".to_string(),
        calendar_id: None,
        title: None,
        project_id: None,
        clear_project_id: false,
        description: Some("new".to_string()),
        clear_description: true,
        location: None,
        clear_location: false,
        start_at: None,
        end_at: None,
        all_day: None,
        rrule: None,
        clear_rrule: false,
        reminder_minutes: None,
        clear_reminder_minutes: false,
        timezone: None,
    };
    let err = validate_event_update_args(&args).unwrap_err();
    assert_eq!(err.code, "validation_error");
}

#[test]
fn google_sync_without_google_calendars_returns_conflict() {
    let calendars = vec![personal()];
    let err = google_calendars_to_sync(&calendars, None).unwrap_err();
    assert_eq!(err.code, "conflict");
    assert_eq!(err.message, "no google calendars found to sync");
}

#[test]
fn duplicate_dependency_edge_is_refused() {
    let mut dependencies: Vec<EventDependency> = Vec::new();
    let first = new_dependency(blocks("event-a", "event-b"), true, true, &dependencies).unwrap();
    dependencies.push(first);
    let err = new_dependency(blocks("event-a", "event-b"), true, true, &dependencies).unwrap_err();
    assert_eq!(err.code, "conflict");
    assert_eq!(err.message, "dependency edge already exists");
}

#[test]
fn longer_blocks_cycle_is_rejected_and_related_edges_are_not() {
    let mut dependencies: Vec<EventDependency> = Vec::new();
    dependencies.push(new_dependency(blocks("a", "b"), true, true, &dependencies).unwrap());
    dependencies.push(new_dependency(blocks("b", "c"), true, true, &dependencies).unwrap());
    let err = new_dependency(blocks("c", "a"), true, true, &dependencies).unwrap_err();
    assert_eq!(err.message, "dependency would create a cycle in blocks edges");
    let related = DependencyCreateArgs {
        from_event_id: "c".to_string(),
        to_event_id: "a".to_string(),
        dependency_type: DependencyTypeArg::Related,
    };
    assert!(new_dependency(related, true, true, &dependencies).is_ok());
}

#[test]
fn self_dependency_is_a_validation_error() {
    let err = new_dependency(blocks("a", "a"), true, true, &Vec::new()).unwrap_err();
    assert_eq!(err.code, "validation_error");
    assert_eq!(err.message, "dependency endpoints must reference two distinct events");
}

#[test]
fn missing_calendar_delete_is_not_found() {
    let err = check_calendar_delete(false, "nope", 2, 0, false).unwrap_err();
    assert_eq!(err.code, "not_found");
    assert_eq!(err.message, "calendar 'nope' not found");
}

fn google_calendar(id: &str, name: &str, color: &str, google_id: &str, position: i64) -> Calendar {
    Calendar {
        id: id.to_string(),
        name: name.to_string(),
        color: color.to_string(),
        source: CalendarSource::Google,
        google_id: Some(google_id.to_string()),
        visible: true,
        position,
        created_at: "2026-04-06 10:00:00".to_string(),
        updated_at: "2026-04-06 10:00:00".to_string(),
        deleted_at: None,
    }
}

#[test]
fn google_sync_reports_missing_credentials() {
    let calendars = vec![
        personal(),
        google_calendar("g-1", "Google Work", "#00aaff", "google-work", 1),
    ];
    let chosen = google_calendars_to_sync(&calendars, None).unwrap();
    assert_eq!(chosen.len(), 1);
    let err = override_counts(
        None,
        None,
        Some("google credentials are not configured in keyring".to_string()),
    )
    .unwrap_err();
    assert_eq!(err.code, "external_error");
}

#[test]
fn google_sync_filters_to_selected_calendar() {
    let work = google_calendar("g-1", "Google Work", "#00aaff", "google-work", 1);
    let other = google_calendar("g-2", "Google Personal", "#ffaa00", "google-personal", 2);
    let calendars = vec![personal(), work, other];
    let chosen = google_calendars_to_sync(&calendars, Some("g-1")).unwrap();
    assert_eq!(chosen.len(), 1);
    let (added, updated) = override_counts(Some(2), Some(3), None).unwrap();
    let reports = vec![SyncCalendarReport {
        events_added: added,
        events_updated: updated,
        ..Default::default()
    }];
    let summary = summarize_google_sync(&chosen, &reports);
    assert_eq!(summary.calendars_synced, 1);
    assert_eq!(summary.events_added, 2);
    assert_eq!(summary.events_updated, 3);
    assert_eq!(summary.results[0].calendar_name, "Google Work");
}

#[test]
fn syncing_an_unknown_google_calendar_is_not_found() {
    let calendars = vec![personal()];
    let err = google_calendars_to_sync(&calendars, Some("nope")).unwrap_err();
    assert_eq!(err.code, "not_found");
    assert_eq!(err.message, "google calendar 'nope' not found");
}

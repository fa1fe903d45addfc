use planner_core::availability::{
    availability_from_specs, availability_to_specs, parse_availability_args,
};
use planner_core::cli::validation::parse_timestamp_arg;
use planner_core::dag::blocks_path_exists;
use planner_core::dates::format_date;
use planner_core::models::{DependencyType, EventDependency};
use planner_core::cli::args::ProjectCreateArgs;
use planner_core::cli::handlers::new_project;
use planner_core::models::Event;
use planner_core::text::{int_string, normalize_optional, trim_str};
use planner_core::tui::keys::Action;
use planner_core::tui::state::{App, Effect, WorkerResult};
use planner_core::timestamp::{format_timestamp, is_earlier, parse_timestamp};
use planner_core::tui::default_weekly_availability;

fn edge(id: &str, from: &str, to: &str, kind: DependencyType) -> EventDependency {
    EventDependency {
        id: id.to_string(),
        from_event_id: from.to_string(),
        to_event_id: to.to_string(),
        dependency_type: kind,
        created_at: "2026-04-06 10:00:00".to_string(),
        updated_at: "2026-04-06 10:00:00".to_string(),
    }
}

/// The duration the planner task form hands over, or `None` when the form refuses it.
fn submitted_duration(text: &str) -> Option<i64> {
    let (mut app, _) = App::new("UTC".to_string(), None, None, false);
    app.handle_worker_result(WorkerResult::CalendarsLoaded(vec![planner_core::models::Calendar {
        id: "cal-1".to_string(),
        name: "Work".to_string(),
        color: "#50f872".to_string(),
        source: planner_core::models::CalendarSource::Local,
        google_id: None,
        visible: true,
        position: 0,
        created_at: String::new(),
        updated_at: String::new(),
        deleted_at: None,
    }]));
    app.dispatch(Action::CreateTask);
    app.planner_task_duration = text.to_string();
    match app.dispatch(Action::FormSubmit).into_iter().next() {
        Some(Effect::CreatePlannerTask { input }) => Some(input.duration_minutes),
        _ => None,
    }
}

#[test]
fn durations_are_read_as_signed_decimal_text_only() {
    assert_eq!(submitted_duration("15"), Some(15));
    assert_eq!(submitted_duration("+7"), Some(7));
    assert_eq!(submitted_duration("9223372036854775807"), Some(i64::MAX));
    assert_eq!(submitted_duration("-5"), None);
    assert_eq!(submitted_duration("9223372036854775808"), None);
    assert_eq!(submitted_duration(""), None);
    assert_eq!(submitted_duration("+"), None);
    assert_eq!(submitted_duration(" 1"), None);
    assert_eq!(submitted_duration("12a"), None);
}

#[test]
fn int_string_writes_what_to_string_writes() {
    for n in [0i64, 7, -7, 1234567, i64::MAX, i64::MIN] {
        assert_eq!(int_string(n), n.to_string());
    }
}

#[test]
fn format_date_pads_like_chrono() {
    assert_eq!(format_date((2026, 4, 7)), "2026-04-07");
    assert_eq!(format_date((33, 12, 1)), "0033-12-01");
    assert_eq!(format_date((12345, 1, 1)), "+12345-01-01");
    assert_eq!(format_date((-5, 1, 1)), "-0005-01-01");
}

#[test]
fn timestamps_read_and_write_back() {
    let t = parse_timestamp("2026-04-12 09:00:00").unwrap();
    assert_eq!(t, (2026, 4, 12, 9, 0, 0, 0));
    assert_eq!(format_timestamp(t), "2026-04-12 09:00:00");
    assert_eq!(
        parse_timestamp_arg("2026-04-12 09:00:00").unwrap(),
        "2026-04-12 09:00:00"
    );
    assert_eq!(
        parse_timestamp_arg("tomorrow").unwrap_err(),
        "invalid timestamp 'tomorrow'; expected YYYY-MM-DD HH:MM:SS"
    );
    assert!(parse_timestamp("2026-02-30 09:00:00").is_none());
    assert!(is_earlier(t, (2026, 4, 12, 9, 0, 1, 0)));
    assert!(!is_earlier(t, t));
}

#[test]
fn new_rows_get_fresh_ids_and_readable_times() {
    let a = Event::new(
        "cal".to_string(),
        "A".to_string(),
        "2026-04-12 09:00:00".to_string(),
        "2026-04-12 10:00:00".to_string(),
        "UTC".to_string(),
    );
    let project = new_project(ProjectCreateArgs {
        name: " Launch ".to_string(),
        color: "#ffaa00".to_string(),
        description: None,
    })
    .unwrap();
    assert_eq!(a.id.len(), 36);
    assert_eq!(project.id.len(), 36);
    assert_ne!(a.id, project.id);
    assert_eq!(project.name, "Launch");
    assert!(parse_timestamp(&a.created_at).is_some());
    assert_eq!(a.created_at, a.updated_at);
}

#[test]
fn trimming_and_normalizing_text() {
    assert_eq!(trim_str("  a b \n"), "a b");
    assert_eq!(normalize_optional(Some("  x ".to_string())), Some("x".to_string()));
    assert_eq!(normalize_optional(Some("   ".to_string())), None);
    assert_eq!(normalize_optional(None), None);
}

#[test]
fn availability_arguments_are_sorted_by_weekday_text() {
    let parsed = parse_availability_args(vec![
        "Tue=13:00-17:00".to_string(),
        "mon=09:00-12:00".to_string(),
        "tue=08:00-09:00".to_string(),
    ])
    .unwrap()
    .unwrap();
    assert_eq!(
        availability_to_specs(&parsed),
        "mon=09:00-12:00, tue=13:00-17:00, tue=08:00-09:00"
    );
    assert!(parse_availability_args(Vec::new()).unwrap().is_none());
    let err = parse_availability_args(vec!["mon09".to_string()]).unwrap_err();
    assert_eq!(err.code, "invalid_arguments");
    assert_eq!(err.message, "invalid --availability 'mon09'; expected DAY=HH:MM-HH:MM");
}

#[test]
fn availability_form_text_round_trips() {
    let text = default_weekly_availability();
    let parsed = availability_from_specs(&text).unwrap();
    assert_eq!(
        availability_to_specs(&parsed),
        "fri=09:00-17:00, mon=09:00-17:00, thu=09:00-17:00, tue=09:00-17:00, wed=09:00-17:00"
    );
    let sorted = availability_to_specs(&parsed);
    assert_eq!(availability_to_specs(&availability_from_specs(&sorted).unwrap()), sorted);
    assert_eq!(
        availability_from_specs("mon 09:00").unwrap_err(),
        "Availability uses day=HH:MM-HH:MM, separated by commas."
    );
    assert!(availability_from_specs(" , ").unwrap().days.is_empty());
}

#[test]
fn blocks_paths_follow_blocking_edges_only() {
    let deps = vec![
        edge("d1", "a", "b", DependencyType::Blocks),
        edge("d2", "b", "c", DependencyType::Blocks),
        edge("d3", "c", "d", DependencyType::Related),
    ];
    assert!(blocks_path_exists(&deps, None, "a", "c"));
    assert!(!blocks_path_exists(&deps, None, "a", "d"));
    assert!(!blocks_path_exists(&deps, Some("d2"), "a", "c"));
    assert!(blocks_path_exists(&deps, None, "a", "a"));
}

#[test]
fn trimming_twice_is_trimming_once() {
    for text in ["  a ", "b", "   ", "\u{3000}c\u{a0}"] {
        let once = trim_str(text);
        assert_eq!(trim_str(&once), once);
    }
}

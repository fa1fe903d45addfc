use planner_core::event_service::{delete_event, order_bounds, save_event, EventServiceError};
use planner_core::models::{Calendar, CalendarSource, Event};

fn personal() -> Calendar {
    Calendar {
        id: "00000000-0000-4000-8000-000000000001".to_string(),
        name: "Personal".to_string(),
        color: "#82FB9C".to_string(),
        source: CalendarSource::Local,
        google_id: None,
        visible: true,
        position: 0,
        created_at: "2026-04-06 10:00:00".to_string(),
        updated_at: "2026-04-06 10:00:00".to_string(),
        deleted_at: None,
    }
}

fn planning(calendar_id: &str, title: &str, timezone: &str) -> Event {
    Event::new(
        calendar_id.to_string(),
        title.to_string(),
        "2026-04-12 09:00:00".to_string(),
        "2026-04-12 10:00:00".to_string(),
        timezone.to_string(),
    )
}

fn check_wall_clock_time_kept() {
    let calendar = personal();
    let event = planning(&calendar.id, "Planning", "Europe/Rome");
    let saved = save_event(event, true, None, Some(calendar), false, true).unwrap().event;
    assert_eq!(saved.timezone, "Europe/Rome");
    assert_eq!(saved.start_at, "2026-04-12 09:00:00");
    assert_eq!(saved.end_at, "2026-04-12 10:00:00");
}

fn check_all_day_bounds() {
    let calendar = personal();
    let mut event = planning(&calendar.id, "Offsite", "UTC");
    event.all_day = true;
    let saved = save_event(event, true, None, Some(calendar), false, true).unwrap().event;
    assert_eq!(saved.start_at, "2026-04-12 00:00:00");
    assert_eq!(saved.end_at, "2026-04-12 23:59:59");
}

fn check_prefixed_rrule_refused() {
    let calendar = personal();
    let mut event = planning(&calendar.id, "Planning", "UTC");
    event.rrule = Some("RRULE:FREQ=WEEKLY".to_string());
    let err = save_event(event, true, None, Some(calendar), false, true).unwrap_err();
    assert!(matches!(err, EventServiceError::Validation(message) if message.contains("RRULE:")));
}

fn check_missing_row_refused() {
    let err = delete_event("missing", None, None, true).unwrap_err();
    assert_eq!(
        err,
        EventServiceError::NotFound {
            resource: "event",
            id: "missing".to_string()
        }
    );
}

#[test]
fn event_service_save_event_keeps_wall_clock_time_with_timezone() {
    check_wall_clock_time_kept();
}

#[test]
fn tests_save_event_keeps_wall_clock_time_with_timezone() {
    check_wall_clock_time_kept();
}

#[test]
fn event_service_save_event_normalizes_all_day_bounds() {
    check_all_day_bounds();
}

#[test]
fn tests_save_event_normalizes_all_day_bounds() {
    check_all_day_bounds();
}

#[test]
fn event_service_save_event_requires_unprefixed_rrule_content() {
    check_prefixed_rrule_refused();
}

#[test]
fn tests_save_event_requires_unprefixed_rrule_content() {
    check_prefixed_rrule_refused();
}

#[test]
fn event_service_delete_event_requires_existing_row() {
    check_missing_row_refused();
}

#[test]
fn tests_delete_event_requires_existing_row() {
    check_missing_row_refused();
}

#[test]
fn save_event_refuses_end_before_start() {
    let calendar = personal();
    let mut event = planning(&calendar.id, "Planning", "UTC");
    event.end_at = "2026-04-12 08:00:00".to_string();
    assert!(matches!(
        save_event(event, true, None, Some(calendar), false, true),
        Err(EventServiceError::Validation(_))
    ));
}

#[test]
fn save_event_refuses_blank_title_and_trims_title() {
    let calendar = personal();
    let event = planning(&calendar.id, "   ", "UTC");
    assert_eq!(
        save_event(event, true, None, Some(calendar.clone()), false, true).unwrap_err(),
        EventServiceError::Validation("title cannot be empty".to_string())
    );
    let event = planning(&calendar.id, "  Planning ", "UTC");
    let saved = save_event(event, true, None, Some(calendar), false, true).unwrap().event;
    assert_eq!(saved.title, "Planning");
}

#[test]
fn save_event_requires_calendar() {
    let event = planning("nowhere", "Planning", "UTC");
    assert_eq!(
        save_event(event, true, None, None, false, true).unwrap_err(),
        EventServiceError::NotFound {
            resource: "calendar",
            id: "nowhere".to_string()
        }
    );
}

#[test]
fn updating_missing_event_is_not_found() {
    let calendar = personal();
    let event = planning(&calendar.id, "Planning", "UTC");
    let id = event.id.clone();
    assert_eq!(
        save_event(event, false, None, Some(calendar), false, true).unwrap_err(),
        EventServiceError::NotFound {
            resource: "event",
            id
        }
    );
}

#[test]
fn read_bounds_are_widened_ordered_and_written_out() {
    let start = (2026, 4, 6, 9, 30, 0, 0);
    let end = (2026, 4, 7, 8, 0, 0, 0);
    assert_eq!(
        order_bounds(Some(start), Some(end), true).unwrap(),
        ("2026-04-06 00:00:00".to_string(), "2026-04-07 23:59:59".to_string())
    );
    assert_eq!(
        order_bounds(Some(start), Some(end), false).unwrap(),
        ("2026-04-06 09:30:00".to_string(), "2026-04-07 08:00:00".to_string())
    );
    assert!(matches!(
        order_bounds(Some(end), Some(start), false),
        Err(EventServiceError::Validation(message)) if message == "end_at must be greater than or equal to start_at"
    ));
    assert!(matches!(
        order_bounds(None, Some(end), false),
        Err(EventServiceError::Validation(message)) if message == "invalid start_at timestamp"
    ));
    assert!(matches!(
        order_bounds(Some(start), None, false),
        Err(EventServiceError::Validation(message)) if message == "invalid end_at timestamp"
    ));
}

use planner_core::calendar_service::{
    create_calendar, filter_unimported_google_calendars, import_google_calendar,
    is_google_id_unique_violation, map_write_error, update_calendar, CalendarServiceError,
    CreateCalendarInput, UpdateCalendarInput, WriteFailure,
};
use planner_core::models::{Calendar, CalendarSource, DiscoveredGoogleCalendar};

/// The calendar a fresh database starts with.
fn seeded() -> Vec<Calendar> {
    vec![Calendar {
        id: "00000000-0000-4000-8000-000000000001".to_string(),
        name: "Personal".to_string(),
        color: "#82FB9C".to_string(),
        source: CalendarSource::Local,
        google_id: None,
        visible: true,
        position: 0,
        created_at: "2026-04-06 10:00:00".to_string(),
        updated_at: "2026-04-06 10:00:00".to_string(),
        deleted_at: None,
    }]
}

fn work_discovered() -> DiscoveredGoogleCalendar {
    DiscoveredGoogleCalendar {
        google_id: "work@example.com".to_string(),
        name: "Work".to_string(),
        color: "#50f872".to_string(),
        primary: false,
        access_role: Some("writer".to_string()),
        writable: true,
    }
}

#[test]
fn create_google_calendar_requires_google_id() {
    let calendars = seeded();
    let err = create_calendar(
        &calendars,
        CreateCalendarInput {
            name: "Work".to_string(),
            color: "#50f872".to_string(),
            source: CalendarSource::Google,
            google_id: None,
            visible: true,
            position: None,
        },
    )
    .unwrap_err();

    assert_eq!(
        err,
        CalendarServiceError::Validation("google calendars require a google_id".to_string())
    );
}

#[test]
fn import_google_calendar_rejects_duplicate_google_id() {
    let mut calendars = seeded();
    let discovered = work_discovered();

    let (first, _state) = import_google_calendar(&calendars, &discovered, None).unwrap();
    calendars.push(first);
    let err = import_google_calendar(&calendars, &discovered, None).unwrap_err();
    assert_eq!(
        err,
        CalendarServiceError::Conflict(
            "google calendar 'work@example.com' is already imported".to_string()
        )
    );
}

#[test]
fn import_google_calendar_persists_access_role_and_writability() {
    let calendars = seeded();
    let (imported, sync_state) = import_google_calendar(
        &calendars,
        &DiscoveredGoogleCalendar {
            google_id: "readonly@example.com".to_string(),
            name: "Readonly".to_string(),
            color: "#123456".to_string(),
            primary: false,
            access_role: Some("reader".to_string()),
            writable: false,
        },
        None,
    )
    .unwrap();

    assert_eq!(sync_state.calendar_id, imported.id);
    assert_eq!(sync_state.google_access_role.as_deref(), Some("reader"));
    assert!(!sync_state.writable);
}

#[test]
fn update_calendar_to_local_clears_google_id() {
    let mut calendars = seeded();
    let created = create_calendar(
        &calendars,
        CreateCalendarInput {
            name: "Work".to_string(),
            color: "#50f872".to_string(),
            source: CalendarSource::Google,
            google_id: Some("work@example.com".to_string()),
            visible: true,
            position: Some(1),
        },
    )
    .unwrap();
    let created_id = created.id.clone();
    calendars.push(created);

    let updated = update_calendar(
        &calendars,
        UpdateCalendarInput {
            id: created_id,
            name: Some("Personal".to_string()),
            color: None,
            source: Some(CalendarSource::Local),
            google_id: None,
            visible: None,
            position: None,
        },
    )
    .unwrap()
    .calendar;

    assert_eq!(updated.source, CalendarSource::Local);
    assert_eq!(updated.google_id, None);
    assert_eq!(updated.name, "Personal");
}

#[test]
fn update_calendar_to_local_detaches_event_sync_state() {
    let mut calendars = seeded();
    let created = create_calendar(
        &calendars,
        CreateCalendarInput {
            name: "Work".to_string(),
            color: "#50f872".to_string(),
            source: CalendarSource::Google,
            google_id: Some("work@example.com".to_string()),
            visible: true,
            position: Some(1),
        },
    )
    .unwrap();
    let created_id = created.id.clone();
    calendars.push(created);

    let update = update_calendar(
        &calendars,
        UpdateCalendarInput {
            id: created_id,
            name: None,
            color: None,
            source: Some(CalendarSource::Local),
            google_id: None,
            visible: None,
            position: None,
        },
    )
    .unwrap();

    assert_eq!(update.calendar.source, CalendarSource::Local);
    assert_eq!(update.calendar.google_id, None);
    assert!(update.detach_google_sync_state);
}

#[test]
fn update_calendar_rejects_google_id_changes_for_existing_google_calendar() {
    let mut calendars = seeded();
    let created = create_calendar(
        &calendars,
        CreateCalendarInput {
            name: "Work".to_string(),
            color: "#50f872".to_string(),
            source: CalendarSource::Google,
            google_id: Some("work@example.com".to_string()),
            visible: true,
            position: Some(1),
        },
    )
    .unwrap();
    let created_id = created.id.clone();
    calendars.push(created);

    let err = update_calendar(
        &calendars,
        UpdateCalendarInput {
            id: created_id,
            name: None,
            color: None,
            source: Some(CalendarSource::Google),
            google_id: Some(Some("personal@example.com".to_string())),
            visible: None,
            position: None,
        },
    )
    .unwrap_err();

    assert_eq!(
        err,
        CalendarServiceError::Validation(
            "changing google_id on an existing google calendar is not supported".to_string()
        )
    );
}

#[test]
fn filter_unimported_google_calendars_excludes_existing_rows() {
    let mut calendars = seeded();
    let (imported, _state) = import_google_calendar(&calendars, &work_discovered(), None).unwrap();
    calendars.push(imported);

    let filtered = filter_unimported_google_calendars(
        &calendars,
        vec![
            work_discovered(),
            DiscoveredGoogleCalendar {
                google_id: "personal@example.com".to_string(),
                name: "Personal".to_string(),
                color: "#ffaa00".to_string(),
                primary: true,
                access_role: Some("reader".to_string()),
                writable: false,
            },
        ],
    );

    assert_eq!(filtered.len(), 1);
    assert_eq!(filtered[0].google_id, "personal@example.com");
}

#[test]
fn created_calendar_takes_next_position_and_trims_text() {
    let calendars = seeded();
    let created = create_calendar(
        &calendars,
        CreateCalendarInput {
            name: "  Work  ".to_string(),
            color: " #50f872 ".to_string(),
            source: CalendarSource::Local,
            google_id: None,
            visible: true,
            position: None,
        },
    )
    .unwrap();
    assert_eq!(created.name, "Work");
    assert_eq!(created.color, "#50f872");
    assert_eq!(created.position, 1);
    assert_eq!(created.id.len(), 36);
}

#[test]
fn second_import_of_same_google_calendar_is_refused() {
    let mut calendars = seeded();
    let (first, _) = import_google_calendar(&calendars, &work_discovered(), None).unwrap();
    calendars.push(first);
    assert!(import_google_calendar(&calendars, &work_discovered(), None).is_err());
}

#[test]
fn update_cannot_take_a_google_id_another_calendar_holds() {
    let mut calendars = seeded();
    let (work, _) = import_google_calendar(&calendars, &work_discovered(), None).unwrap();
    calendars.push(work);
    let personal_id = calendars[0].id.clone();
    let err = update_calendar(
        &calendars,
        UpdateCalendarInput {
            id: personal_id.clone(),
            name: None,
            color: None,
            source: Some(CalendarSource::Google),
            google_id: Some(Some(" work@example.com ".to_string())),
            visible: None,
            position: None,
        },
    )
    .unwrap_err();
    assert_eq!(
        err,
        CalendarServiceError::Conflict(
            "google calendar 'work@example.com' is already imported".to_string()
        )
    );
    let moved = update_calendar(
        &calendars,
        UpdateCalendarInput {
            id: personal_id,
            name: None,
            color: None,
            source: Some(CalendarSource::Google),
            google_id: Some(Some("home@example.com".to_string())),
            visible: None,
            position: None,
        },
    )
    .unwrap();
    assert_eq!(moved.calendar.google_id.as_deref(), Some("home@example.com"));
    assert!(!moved.detach_google_sync_state);
}

#[test]
fn service_errors_read_as_text() {
    assert_eq!(
        CalendarServiceError::NotFound {
            resource: "calendar",
            id: "x".to_string()
        }
        .to_text(),
        "calendar 'x' not found"
    );
    assert_eq!(
        CalendarServiceError::Conflict("taken".to_string()).to_text(),
        "taken"
    );
}

#[test]
fn failed_writes_become_conflicts_or_internal_errors() {
    let clash = WriteFailure {
        constraint_violation: true,
        detail: Some("UNIQUE constraint failed: calendars.google_id".to_string()),
        text: "UNIQUE constraint failed: calendars.google_id".to_string(),
    };
    assert!(is_google_id_unique_violation(&clash));
    assert_eq!(
        map_write_error(clash, Some("work@example.com")),
        CalendarServiceError::Conflict(
            "google calendar 'work@example.com' is already imported".to_string()
        )
    );
    let silent = WriteFailure {
        constraint_violation: true,
        detail: None,
        text: "constraint failed".to_string(),
    };
    assert_eq!(
        map_write_error(silent, None),
        CalendarServiceError::Conflict("google calendar is already imported".to_string())
    );
    let other = WriteFailure {
        constraint_violation: true,
        detail: Some("NOT NULL constraint failed: calendars.name".to_string()),
        text: "NOT NULL constraint failed: calendars.name".to_string(),
    };
    assert!(!is_google_id_unique_violation(&other));
    assert_eq!(
        map_write_error(other, Some("g")),
        CalendarServiceError::Internal("NOT NULL constraint failed: calendars.name".to_string())
    );
}

#[test]
fn created_calendar_follows_negative_positions() {
    let mut calendars = seeded();
    for calendar in calendars.iter_mut() {
        calendar.position = -5;
    }
    let created = create_calendar(
        &calendars,
        CreateCalendarInput {
            name: "Work".to_string(),
            color: "#50f872".to_string(),
            source: CalendarSource::Local,
            google_id: None,
            visible: true,
            position: None,
        },
    )
    .unwrap();
    assert_eq!(created.position, -4);
    let first = create_calendar(
        &Vec::new(),
        CreateCalendarInput {
            name: "Home".to_string(),
            color: "#000000".to_string(),
            source: CalendarSource::Local,
            google_id: None,
            visible: true,
            position: None,
        },
    )
    .unwrap();
    assert_eq!(first.position, 0);
}

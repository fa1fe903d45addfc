use vstd::prelude::*;
use vstd::string::StringExecFns;

use crate::calendar_service::{empty_field_message, CreateCalendarInput, UpdateCalendarInput};
use crate::cli::args::{
    CalendarCreateArgs, CalendarUpdateArgs, DependencyCreateArgs, DependencyUpdateArgs,
    EventCreateArgs, EventUpdateArgs, ProjectCreateArgs, ProjectUpdateArgs,
};
use crate::cli::error::{cli_error, not_found_message, CliError};
use crate::cli::validation::{
    calendar_source_from_arg, datetime_error, dependency_edge_error, dependency_type_from_arg,
    ensure_title, non_empty, update_flags_error, validate_dependency_edge,
    validate_dependency_endpoints, validate_event_datetime,
};
use crate::clock::{new_id, timestamp_now};
use crate::dag::opt_str_view;
use crate::models::{opt_view, DependencyType, Event, EventDependency, EventView, Project};
use crate::text::{normalize_optional, normalized, trim, trim_str};

verus! {

/// Refuses deleting a missing calendar, the last active calendar, and a calendar with
/// active events unless they are deleted too.
pub fn check_calendar_delete(
    found: bool,
    id: &str,
    active_calendars: i64,
    active_events: i64,
    cascade_events: bool,
) -> (r: Result<(), CliError>)
    ensures
        !found ==> r is Err && r->Err_0@ == cli_error("not_found"@, not_found_message("calendar"@, id@)),
        found && active_calendars <= 1 ==> r is Err && r->Err_0@ == cli_error(
            "conflict"@,
            "cannot delete the last active calendar"@,
        ),
        found && active_calendars > 1 && active_events > 0 && !cascade_events ==> r is Err && r->Err_0@
            == cli_error(
            "conflict"@,
            "calendar has active events; rerun with --cascade-events to delete them too"@,
        ),
        found && active_calendars > 1 && (active_events <= 0 || cascade_events) ==> r is Ok,
{
    if !found {
        return Err(CliError::not_found("calendar", id));
    }
    if active_calendars <= 1 {
        return Err(CliError::conflict(String::from_str("cannot delete the last active calendar")));
    }
    if active_events > 0 && !cascade_events {
        return Err(CliError::conflict(String::from_str(
            "calendar has active events; rerun with --cascade-events to delete them too",
        )));
    }
    Ok(())
}

/// Refuses deleting a missing project, and a project with active events unless they
/// are detached from it first.
pub fn check_project_delete(found: bool, id: &str, active_events: i64, detach_events: bool) -> (r: Result<(), CliError>)
    ensures
        !found ==> r is Err && r->Err_0@ == cli_error("not_found"@, not_found_message("project"@, id@)),
        found && active_events > 0 && !detach_events ==> r is Err && r->Err_0@ == cli_error(
            "conflict"@,
            "project has active events; rerun with --detach-events to clear project_id first"@,
        ),
        found && (active_events <= 0 || detach_events) ==> r is Ok,
{
    if !found {
        return Err(CliError::not_found("project", id));
    }
    if active_events > 0 && !detach_events {
        return Err(CliError::conflict(String::from_str(
            "project has active events; rerun with --detach-events to clear project_id first",
        )));
    }
    Ok(())
}

/// The calendar request of `calendars create`: its position is always given.
pub fn calendar_create_input(args: CalendarCreateArgs) -> (r: CreateCalendarInput)
    ensures
        r.name == args.name,
        r.color == args.color,
        r.source == calendar_source_from_arg_spec(args.source),
        r.google_id == args.google_id,
        r.visible == args.visible,
        r.position == Some(args.position),
{
    CreateCalendarInput {
        name: args.name,
        color: args.color,
        source: calendar_source_from_arg(args.source),
        google_id: args.google_id,
        visible: args.visible,
        position: Some(args.position),
    }
}

/// The calendar source an argument names.
pub open spec fn calendar_source_from_arg_spec(source: crate::cli::args::CalendarSourceArg) -> crate::models::CalendarSource {
    match source {
        crate::cli::args::CalendarSourceArg::Local => crate::models::CalendarSource::Local,
        crate::cli::args::CalendarSourceArg::Google => crate::models::CalendarSource::Google,
    }
}

/// The calendar request of `calendars update`: a given Google id is normalized, and a
/// blank one clears the binding.
pub fn calendar_update_input(args: CalendarUpdateArgs) -> (r: UpdateCalendarInput)
    ensures
        r.id == args.id,
        r.name == args.name,
        r.color == args.color,
        r.source == match args.source {
            Some(s) => Some(calendar_source_from_arg_spec(s)),
            None => None,
        },
        args.google_id is None ==> r.google_id is None,
        args.google_id is Some ==> r.google_id is Some && opt_view(r.google_id->0) == normalized(opt_view(args.google_id)),
        r.visible == args.visible,
        r.position == args.position,
{
    let google_id = if args.google_id.is_some() {
        Some(normalize_optional(args.google_id))
    } else {
        None
    };
    let source = match args.source {
        Some(s) => Some(calendar_source_from_arg(s)),
        None => None,
    };
    UpdateCalendarInput {
        id: args.id,
        name: args.name,
        color: args.color,
        source,
        google_id,
        visible: args.visible,
        position: args.position,
    }
}

/// The project row of `projects create`: name and color trimmed and required,
/// description trimmed (blank dropped), a fresh id and both timestamps set to now.
pub fn new_project(args: ProjectCreateArgs) -> (r: Result<Project, CliError>)
    ensures
        trim(args.name@).len() == 0 ==> r is Err && r->Err_0@ == cli_error("validation_error"@, empty_field_message("name"@)),
        trim(args.name@).len() != 0 && trim(args.color@).len() == 0 ==> r is Err && r->Err_0@ == cli_error(
            "validation_error"@,
            empty_field_message("color"@),
        ),
        trim(args.name@).len() != 0 && trim(args.color@).len() != 0 ==> r is Ok && {
            let p = r->Ok_0@;
            &&& p.name == trim(args.name@)
            &&& p.color == trim(args.color@)
            &&& p.description == normalized(opt_view(args.description))
            &&& crate::clock::is_uuid_v4_text(p.id)
            &&& p.created_at == p.updated_at
            &&& crate::clock::is_timestamp_text(p.created_at)
            &&& p.deleted_at is None
        },
{
    let now = timestamp_now();
    let id = new_id();
    let name = non_empty(args.name, "name")?;
    let color = non_empty(args.color, "color")?;
    Ok(Project {
        id,
        name,
        color,
        description: normalize_optional(args.description),
        created_at: now.clone(),
        updated_at: now,
        deleted_at: None,
    })
}

/// A project with the changes of `projects update` applied; the caller writes it.
pub fn update_project(project: Project, args: ProjectUpdateArgs) -> (r: Result<Project, CliError>)
    ensures
        args.name is Some && trim(args.name->0@).len() == 0 ==> r is Err && r->Err_0@ == cli_error(
            "validation_error"@,
            empty_field_message("name"@),
        ),
        !(args.name is Some && trim(args.name->0@).len() == 0) && args.color is Some && trim(args.color->0@).len()
            == 0 ==> r is Err && r->Err_0@ == cli_error("validation_error"@, empty_field_message("color"@)),
        !(args.name is Some && trim(args.name->0@).len() == 0) && !(args.color is Some && trim(
            args.color->0@,
        ).len() == 0) ==> r is Ok && {
            let p = r->Ok_0@;
            &&& p.name == match args.name { Some(n) => trim(n@), None => project.name@ }
            &&& p.color == match args.color { Some(c) => trim(c@), None => project.color@ }
            &&& p.description == if args.description is Some { normalized(opt_view(args.description)) } else { opt_view(project.description) }
            &&& p.id == project.id@
            &&& p.created_at == project.created_at@
            &&& p.updated_at == project.updated_at@
            &&& p.deleted_at == opt_view(project.deleted_at)
        },
{
    let mut project = project;
    if let Some(name) = args.name {
        project.name = non_empty(name, "name")?;
    }
    if let Some(color) = args.color {
        project.color = non_empty(color, "color")?;
    }
    if args.description.is_some() {
        project.description = normalize_optional(args.description);
    }
    Ok(project)
}

/// The refusal, if any, of `events create`, given whether its calendar and project exist.
pub open spec fn new_event_error(args: EventCreateArgs, calendar_found: bool, project_found: bool) -> Option<CliErrorSpec> {
    if !calendar_found {
        Some(cli_error("not_found"@, not_found_message("calendar"@, args.calendar_id@)))
    } else if args.project_id is Some && !project_found {
        Some(cli_error("not_found"@, not_found_message("project"@, args.project_id->0@)))
    } else if trim(args.title@).len() == 0 {
        Some(cli_error("validation_error"@, "title cannot be empty"@))
    } else if datetime_error(args.start_at@, args.end_at@) is Some {
        Some(cli_error("validation_error"@, datetime_error(args.start_at@, args.end_at@)->0))
    } else if args.timezone is Some && trim(args.timezone->0@).len() == 0 {
        Some(cli_error("validation_error"@, empty_field_message("timezone"@)))
    } else {
        None
    }
}

/// Model of a command error.
pub type CliErrorSpec = crate::cli::error::CliErrorView;

/// The event row of `events create`, before the event service checks and stores it.
/// `default_timezone` is used when no timezone is given.
pub fn new_event(
    args: EventCreateArgs,
    calendar_found: bool,
    project_found: bool,
    default_timezone: String,
) -> (r: Result<Event, CliError>)
    ensures
        new_event_error(args, calendar_found, project_found) matches Some(e) ==> r is Err && r->Err_0@ == e,
        new_event_error(args, calendar_found, project_found) is None ==> r is Ok && {
            let e = r->Ok_0@;
            &&& e.calendar_id == args.calendar_id@
            &&& e.project_id == normalized(opt_view(args.project_id))
            &&& e.title == trim(args.title@)
            &&& e.description == normalized(opt_view(args.description))
            &&& e.location == normalized(opt_view(args.location))
            &&& e.start_at == args.start_at@
            &&& e.end_at == args.end_at@
            &&& e.all_day == args.all_day
            &&& e.rrule == normalized(opt_view(args.rrule))
            &&& e.google_id is None
            &&& e.google_etag is None
            &&& e.reminder_minutes == args.reminder_minutes
            &&& e.timezone == match args.timezone { Some(t) => trim(t@), None => default_timezone@ }
            &&& crate::clock::is_uuid_v4_text(e.id)
            &&& e.created_at == e.updated_at
            &&& crate::clock::is_timestamp_text(e.created_at)
            &&& e.deleted_at is None
        },
{
    if !calendar_found {
        return Err(CliError::not_found("calendar", args.calendar_id.as_str()));
    }
    if let Some(project_id) = &args.project_id {
        if !project_found {
            return Err(CliError::not_found("project", project_id.as_str()));
        }
    }
    ensure_title(args.title.as_str())?;
    validate_event_datetime(args.start_at.as_str(), args.end_at.as_str())?;
    let now = timestamp_now();
    let timezone = match args.timezone {
        Some(t) => non_empty(t, "timezone")?,
        None => default_timezone,
    };
    Ok(Event {
        id: new_id(),
        calendar_id: args.calendar_id,
        project_id: normalize_optional(args.project_id),
        title: trim_str(args.title.as_str()),
        description: normalize_optional(args.description),
        location: normalize_optional(args.location),
        start_at: args.start_at,
        end_at: args.end_at,
        all_day: args.all_day,
        rrule: normalize_optional(args.rrule),
        google_id: None,
        google_etag: None,
        reminder_minutes: args.reminder_minutes,
        timezone,
        created_at: now.clone(),
        updated_at: now,
        deleted_at: None,
    })
}

/// `e` with the changes of `events update` applied, before any check.
pub open spec fn updated_event(e: EventView, args: EventUpdateArgs) -> EventView {
    EventView {
        calendar_id: match args.calendar_id { Some(c) => c@, None => e.calendar_id },
        title: match args.title { Some(t) => trim(t@), None => e.title },
        project_id: if args.clear_project_id { None } else {
            match args.project_id { Some(p) => Some(p@), None => e.project_id }
        },
        description: if args.clear_description { None } else if args.description is Some {
            normalized(opt_view(args.description))
        } else { e.description },
        location: if args.clear_location { None } else if args.location is Some {
            normalized(opt_view(args.location))
        } else { e.location },
        start_at: match args.start_at { Some(s) => s@, None => e.start_at },
        end_at: match args.end_at { Some(s) => s@, None => e.end_at },
        all_day: match args.all_day { Some(b) => b, None => e.all_day },
        rrule: if args.clear_rrule { None } else if args.rrule is Some {
            normalized(opt_view(args.rrule))
        } else { e.rrule },
        reminder_minutes: if args.clear_reminder_minutes { None } else {
            match args.reminder_minutes { Some(m) => Some(m), None => e.reminder_minutes }
        },
        timezone: match args.timezone { Some(t) => trim(t@), None => e.timezone },
        ..e
    }
}

/// The refusal, if any, of `events update` on `e`, given whether the new calendar and
/// the new project exist.
pub open spec fn event_update_error(
    e: EventView,
    args: EventUpdateArgs,
    calendar_found: bool,
    project_found: bool,
) -> Option<CliErrorSpec> {
    if event_update_args_error(args, calendar_found, project_found) is Some {
        event_update_args_error(args, calendar_found, project_found)
    } else {
        let u = updated_event(e, args);
        if datetime_error(u.start_at, u.end_at) is Some {
            Some(cli_error("validation_error"@, datetime_error(u.start_at, u.end_at)->0))
        } else {
            None
        }
    }
}

/// The refusal, if any, of the arguments of `events update` alone.
pub open spec fn event_update_args_error(args: EventUpdateArgs, calendar_found: bool, project_found: bool) -> Option<CliErrorSpec> {
    if update_flags_error(args) is Some {
        Some(cli_error("validation_error"@, update_flags_error(args)->0))
    } else if args.calendar_id is Some && !calendar_found {
        Some(cli_error("not_found"@, not_found_message("calendar"@, args.calendar_id->0@)))
    } else if args.title is Some && trim(args.title->0@).len() == 0 {
        Some(cli_error("validation_error"@, "title cannot be empty"@))
    } else if !args.clear_project_id && args.project_id is Some && !project_found {
        Some(cli_error("not_found"@, not_found_message("project"@, args.project_id->0@)))
    } else if args.timezone is Some && trim(args.timezone->0@).len() == 0 {
        Some(cli_error("validation_error"@, empty_field_message("timezone"@)))
    } else {
        None
    }
}

fn check_event_update_args(args: &EventUpdateArgs, calendar_found: bool, project_found: bool) -> (r: Result<(), CliError>)
    ensures
        event_update_args_error(*args, calendar_found, project_found) matches Some(e) ==> r is Err && r->Err_0@ == e,
        event_update_args_error(*args, calendar_found, project_found) is None ==> r is Ok,
{
    crate::cli::validation::validate_event_update_args(args)?;
    if let Some(calendar_id) = &args.calendar_id {
        if !calendar_found {
            return Err(CliError::not_found("calendar", calendar_id.as_str()));
        }
    }
    if let Some(title) = &args.title {
        ensure_title(title.as_str())?;
    }
    if !args.clear_project_id {
        if let Some(project_id) = &args.project_id {
            if !project_found {
                return Err(CliError::not_found("project", project_id.as_str()));
            }
        }
    }
    if let Some(timezone) = &args.timezone {
        if crate::text::is_blank(timezone.as_str()) {
            return Err(CliError::validation(String::from_str("timezone").concat(" cannot be empty")));
        }
    }
    Ok(())
}

fn merge_event_update(event: Event, args: EventUpdateArgs) -> (r: Event)
    ensures
        r@ == updated_event(event@, args),
{
    let mut event = event;
    if let Some(calendar_id) = args.calendar_id {
        event.calendar_id = calendar_id;
    }
    if let Some(title) = args.title {
        event.title = trim_str(title.as_str());
    }
    if args.clear_project_id {
        event.project_id = None;
    } else if let Some(project_id) = args.project_id {
        event.project_id = Some(project_id);
    }
    if args.clear_description {
        event.description = None;
    } else if args.description.is_some() {
        event.description = normalize_optional(args.description);
    }
    if args.clear_location {
        event.location = None;
    } else if args.location.is_some() {
        event.location = normalize_optional(args.location);
    }
    if let Some(start_at) = args.start_at {
        event.start_at = start_at;
    }
    if let Some(end_at) = args.end_at {
        event.end_at = end_at;
    }
    if let Some(all_day) = args.all_day {
        event.all_day = all_day;
    }
    if args.clear_rrule {
        event.rrule = None;
    } else if args.rrule.is_some() {
        event.rrule = normalize_optional(args.rrule);
    }
    if args.clear_reminder_minutes {
        event.reminder_minutes = None;
    } else if let Some(reminder_minutes) = args.reminder_minutes {
        event.reminder_minutes = Some(reminder_minutes);
    }
    if let Some(timezone) = args.timezone {
        event.timezone = trim_str(timezone.as_str());
    }
    event
}

/// A stored event with the changes of `events update` applied, before the event
/// service checks and stores it.
pub fn apply_event_update(
    event: Event,
    args: EventUpdateArgs,
    calendar_found: bool,
    project_found: bool,
) -> (r: Result<Event, CliError>)
    ensures
        event_update_error(event@, args, calendar_found, project_found) matches Some(e) ==> r is Err && r->Err_0@ == e,
        event_update_error(event@, args, calendar_found, project_found) is None ==> r is Ok && r->Ok_0@
            == updated_event(event@, args),
{
    check_event_update_args(&args, calendar_found, project_found)?;
    let event = merge_event_update(event, args);
    validate_event_datetime(event.start_at.as_str(), event.end_at.as_str())?;
    Ok(event)
}

/// The dependency row of `dependencies create`, given whether both events exist and
/// the stored dependencies.
pub fn new_dependency(
    args: DependencyCreateArgs,
    from_found: bool,
    to_found: bool,
    dependencies: &Vec<EventDependency>,
) -> (r: Result<EventDependency, CliError>)
    ensures
        args.from_event_id@ == args.to_event_id@ ==> r is Err && r->Err_0@ == cli_error(
            "validation_error"@,
            "dependency endpoints must reference two distinct events"@,
        ),
        args.from_event_id@ != args.to_event_id@ && !from_found ==> r is Err && r->Err_0@ == cli_error(
            "not_found"@,
            not_found_message("event"@, args.from_event_id@),
        ),
        args.from_event_id@ != args.to_event_id@ && from_found && !to_found ==> r is Err && r->Err_0@
            == cli_error("not_found"@, not_found_message("event"@, args.to_event_id@)),
        args.from_event_id@ != args.to_event_id@ && from_found && to_found ==> match dependency_edge_error(
            dependencies.deep_view(),
            None,
            args.from_event_id@,
            args.to_event_id@,
            crate::cli::validation::dependency_type_spec(args.dependency_type),
        ) {
            Some(m) => r is Err && r->Err_0@ == cli_error("conflict"@, m),
            None => r is Ok && r->Ok_0@.from_event_id == args.from_event_id@ && r->Ok_0@.to_event_id
                == args.to_event_id@ && r->Ok_0@.dependency_type == crate::cli::validation::dependency_type_spec(
                args.dependency_type,
            ) && crate::clock::is_uuid_v4_text(r->Ok_0@.id) && r->Ok_0@.created_at == r->Ok_0@.updated_at
                && crate::clock::is_timestamp_text(r->Ok_0@.created_at),
        },
{
    validate_dependency_endpoints(args.from_event_id.as_str(), args.to_event_id.as_str(), from_found, to_found)?;
    let dependency_type = dependency_type_from_arg(args.dependency_type);
    validate_dependency_edge(dependencies, args.from_event_id.as_str(), args.to_event_id.as_str(), dependency_type, None)?;
    let now = timestamp_now();
    Ok(EventDependency {
        id: new_id(),
        from_event_id: args.from_event_id,
        to_event_id: args.to_event_id,
        dependency_type,
        created_at: now.clone(),
        updated_at: now,
    })
}

/// A stored dependency with the changes of `dependencies update` applied, before any check.
pub fn merge_dependency_update(dependency: EventDependency, args: DependencyUpdateArgs) -> (r: EventDependency)
    ensures
        r@.id == dependency@.id,
        r@.from_event_id == match args.from_event_id { Some(f) => f@, None => dependency@.from_event_id },
        r@.to_event_id == match args.to_event_id { Some(t) => t@, None => dependency@.to_event_id },
        r@.dependency_type == match args.dependency_type {
            Some(t) => crate::cli::validation::dependency_type_spec(t),
            None => dependency@.dependency_type,
        },
        r@.created_at == dependency@.created_at,
        r@.updated_at == dependency@.updated_at,
{
    let mut dependency = dependency;
    if let Some(from_event_id) = args.from_event_id {
        dependency.from_event_id = from_event_id;
    }
    if let Some(to_event_id) = args.to_event_id {
        dependency.to_event_id = to_event_id;
    }
    if let Some(dependency_type) = args.dependency_type {
        dependency.dependency_type = dependency_type_from_arg(dependency_type);
    }
    dependency
}

/// Checks a changed dependency against the stored ones, not counting itself.
pub fn check_dependency_update(
    dependency: &EventDependency,
    from_found: bool,
    to_found: bool,
    dependencies: &Vec<EventDependency>,
) -> (r: Result<(), CliError>)
    ensures
        dependency@.from_event_id == dependency@.to_event_id ==> r is Err && r->Err_0@ == cli_error(
            "validation_error"@,
            "dependency endpoints must reference two distinct events"@,
        ),
        dependency@.from_event_id != dependency@.to_event_id && !from_found ==> r is Err && r->Err_0@
            == cli_error("not_found"@, not_found_message("event"@, dependency@.from_event_id)),
        dependency@.from_event_id != dependency@.to_event_id && from_found && !to_found ==> r is Err
            && r->Err_0@ == cli_error("not_found"@, not_found_message("event"@, dependency@.to_event_id)),
        dependency@.from_event_id != dependency@.to_event_id && from_found && to_found ==> match dependency_edge_error(
            dependencies.deep_view(),
            Some(dependency@.id),
            dependency@.from_event_id,
            dependency@.to_event_id,
            dependency@.dependency_type,
        ) {
            Some(m) => r is Err && r->Err_0@ == cli_error("conflict"@, m),
            None => r is Ok,
        },
{
    validate_dependency_endpoints(dependency.from_event_id.as_str(), dependency.to_event_id.as_str(), from_found, to_found)?;
    validate_dependency_edge(
        dependencies,
        dependency.from_event_id.as_str(),
        dependency.to_event_id.as_str(),
        dependency.dependency_type,
        Some(dependency.id.as_str()),
    )
}

/// What an optional text of an update becomes: trimmed, and nothing when blank.
pub open spec fn given_text(t: Seq<char>) -> Option<Seq<char>> {
    if trim(t).len() == 0 {
        None
    } else {
        Some(trim(t))
    }
}

/// `events update` sets what it is given and keeps the rest: a given title or time zone
/// is stored trimmed, whatever the stored one was; a given calendar, start, end, all-day
/// flag or reminder is stored as given; a clear flag empties its field; a given optional
/// text is stored trimmed (nothing when blank); the id, Google binding and creation time
/// never change; and applying the same update twice is applying it once.
pub proof fn lemma_event_update_sets_given_fields(e: EventView, args: EventUpdateArgs)
    ensures
        ({
            let u = updated_event(e, args);
            &&& u.id == e.id
            &&& u.google_id == e.google_id
            &&& u.created_at == e.created_at
            &&& u.deleted_at == e.deleted_at
            &&& u.title == (match args.title { Some(t) => trim(t@), None => e.title })
            &&& u.timezone == (match args.timezone { Some(t) => trim(t@), None => e.timezone })
            &&& u.calendar_id == (match args.calendar_id { Some(c) => c@, None => e.calendar_id })
            &&& u.start_at == (match args.start_at { Some(s) => s@, None => e.start_at })
            &&& u.end_at == (match args.end_at { Some(s) => s@, None => e.end_at })
            &&& u.all_day == (match args.all_day { Some(b) => b, None => e.all_day })
            &&& (args.clear_project_id ==> u.project_id is None)
            &&& (!args.clear_project_id ==> u.project_id == (match args.project_id { Some(p) => Some(p@), None => e.project_id }))
            &&& (args.clear_description ==> u.description is None)
            &&& (!args.clear_description ==> u.description == (match args.description { Some(d) => given_text(d@), None => e.description }))
            &&& (args.clear_location ==> u.location is None)
            &&& (!args.clear_location ==> u.location == (match args.location { Some(d) => given_text(d@), None => e.location }))
            &&& (args.clear_rrule ==> u.rrule is None)
            &&& (!args.clear_rrule ==> u.rrule == (match args.rrule { Some(d) => given_text(d@), None => e.rrule }))
            &&& (args.clear_reminder_minutes ==> u.reminder_minutes is None)
            &&& (!args.clear_reminder_minutes ==> u.reminder_minutes == (match args.reminder_minutes { Some(m) => Some(m), None => e.reminder_minutes }))
        }),
        updated_event(updated_event(e, args), args) == updated_event(e, args),
{
    crate::text::lemma_trim_idempotent(e.title);
    match args.title {
        Some(t) => crate::text::lemma_trim_idempotent(t@),
        None => {},
    }
    match args.timezone {
        Some(t) => crate::text::lemma_trim_idempotent(t@),
        None => {},
    }
}

} // verus!

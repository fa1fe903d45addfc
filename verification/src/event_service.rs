use vstd::prelude::*;
use vstd::string::StringExecFns;

use crate::clock::{new_id, timestamp_now};
use crate::models::{opt_view, Calendar, CalendarSource, CalendarView, ErrorView, Event, EventView};
use crate::text::{contains_str, has_infix, has_prefix, is_blank, normalize_optional, normalized, starts_with, trim, trim_str};
use crate::timestamp::{
    earlier, format_timestamp, is_earlier, parse_timestamp, parse_timestamp_spec, parts_in_range, timestamp_text,
    DateTimeParts,
};

verus! {

/// Why the event service refused a request.
#[derive(Debug, Clone, PartialEq, Eq)]
pub enum EventServiceError {
    NotFound { resource: &'static str, id: String },
    Validation(String),
    Conflict(String),
    Internal(String),
}

impl View for EventServiceError {
    type V = ErrorView;

    open spec fn view(&self) -> ErrorView {
        match self {
            EventServiceError::NotFound { resource, id } => ErrorView::NotFound(resource@, id@),
            EventServiceError::Validation(m) => ErrorView::Validation(m@),
            EventServiceError::Conflict(m) => ErrorView::Conflict(m@),
            EventServiceError::Internal(m) => ErrorView::Internal(m@),
        }
    }
}

impl EventServiceError {
    /// The text of the error: `<resource> '<id>' not found`, or its message.
    pub fn to_text(&self) -> (s: String)
        ensures
            s@ == crate::models::error_text(self@),
    {
        match self {
            EventServiceError::NotFound { resource, id } => String::from_str(*resource).concat(" '").concat(
                id.as_str(),
            ).concat("' not found"),
            EventServiceError::Validation(m) => m.clone(),
            EventServiceError::Conflict(m) => m.clone(),
            EventServiceError::Internal(m) => m.clone(),
        }
    }
}

/// An event row ready to be written, with its calendar and the stored row it replaces.
#[derive(Debug)]
pub struct EventSave {
    pub event: Event,
    pub calendar: Calendar,
    pub previous: Option<Event>,
}

/// An event about to be soft-deleted, with its calendar.
#[derive(Debug)]
pub struct EventDelete {
    pub event: Event,
    pub calendar: Calendar,
}

/// Refusal of a recurrence rule written with its `RRULE:` property prefix.
pub open spec fn rrule_prefix_message() -> Seq<char> {
    "rrule must contain rule content beginning with FREQ=, not an RRULE: property prefix"@
}

/// Refusal of a recurrence rule that does not start with `FREQ=`.
pub open spec fn rrule_freq_message() -> Seq<char> {
    "rrule must contain rule content beginning with FREQ="@
}

/// The refusal, if any, of a (normalized) recurrence rule.
pub open spec fn rrule_error(rrule: Option<Seq<char>>) -> Option<ErrorView> {
    match rrule {
        Some(r) => if has_prefix(r, "RRULE:"@) {
            Some(ErrorView::Validation(rrule_prefix_message()))
        } else if !has_prefix(r, "FREQ="@) {
            Some(ErrorView::Validation(rrule_freq_message()))
        } else {
            None
        },
        None => None,
    }
}

/// Keeps a recurrence rule only when it is bare rule content starting with `FREQ=`.
fn normalize_rrule(value: Option<String>) -> (r: Result<Option<String>, EventServiceError>)
    ensures
        rrule_error(opt_view(value)) matches Some(e) ==> r is Err && r->Err_0@ == e,
        rrule_error(opt_view(value)) is None ==> r is Ok && opt_view(r->Ok_0) == opt_view(value),
{
    let value = match value {
        Some(v) => v,
        None => {
            return Ok(None);
        },
    };
    if starts_with(value.as_str(), "RRULE:") {
        return Err(EventServiceError::Validation(String::from_str(
            "rrule must contain rule content beginning with FREQ=, not an RRULE: property prefix",
        )));
    }
    if !starts_with(value.as_str(), "FREQ=") {
        return Err(EventServiceError::Validation(String::from_str(
            "rrule must contain rule content beginning with FREQ=",
        )));
    }
    Ok(Some(value))
}

/// Wraps a storage failure.
pub fn map_internal(message: String) -> (e: EventServiceError)
    ensures
        e@ == ErrorView::Internal(message@),
{
    EventServiceError::Internal(message)
}

/// Wraps a refused value.
pub fn map_validation(message: String) -> (e: EventServiceError)
    ensures
        e@ == ErrorView::Validation(message@),
{
    EventServiceError::Validation(message)
}

/// A sync bookkeeping failure that names a read-only or unsupported case is a conflict;
/// any other is internal.
pub fn map_sync_error(message: String) -> (e: EventServiceError)
    ensures
        (has_infix(message@, "read-only"@) || has_infix(message@, "not supported"@)) ==> e@
            == ErrorView::Conflict(message@),
        !(has_infix(message@, "read-only"@) || has_infix(message@, "not supported"@)) ==> e@
            == ErrorView::Internal(message@),
{
    if contains_str(message.as_str(), "read-only") || contains_str(message.as_str(), "not supported") {
        EventServiceError::Conflict(message)
    } else {
        EventServiceError::Internal(message)
    }
}

/// Refusal of an edit in a calendar that Google does not let us write.
pub open spec fn read_only_message(calendar_name: Seq<char>) -> Seq<char> {
    "calendar '"@ + calendar_name + "' is read-only and cannot accept local edits"@
}

/// The refusal, if any, of a local edit in `calendar`.
pub open spec fn writable_error(calendar: CalendarView, writable: bool) -> Option<ErrorView> {
    if calendar.source == CalendarSource::Google && !writable {
        Some(ErrorView::Conflict(read_only_message(calendar.name)))
    } else {
        None
    }
}

fn ensure_writable(calendar: &Calendar, writable: bool) -> (r: Result<(), EventServiceError>)
    ensures
        writable_error(calendar@, writable) matches Some(e) ==> r is Err && r->Err_0@ == e,
        writable_error(calendar@, writable) is None ==> r is Ok,
{
    if calendar.source == CalendarSource::Google && !writable {
        return Err(EventServiceError::Conflict(
            String::from_str("calendar '").concat(calendar.name.as_str()).concat(
                "' is read-only and cannot accept local edits",
            ),
        ));
    }
    Ok(())
}

/// Start of day of the date of `t`.
pub open spec fn day_start(t: DateTimeParts) -> DateTimeParts {
    (t.0, t.1, t.2, 0, 0, 0, 0)
}

/// Last second of the date of `t`.
pub open spec fn day_end(t: DateTimeParts) -> DateTimeParts {
    (t.0, t.1, t.2, 23, 59, 59, 0)
}

/// The bounds of an event from its read timestamps (`None` where one could not be
/// read): widened to whole days for all-day events; or the refusal.
pub open spec fn read_bounds(
    start: Option<DateTimeParts>,
    end: Option<DateTimeParts>,
    all_day: bool,
) -> Result<(DateTimeParts, DateTimeParts), ErrorView> {
    match (start, end) {
        (None, _) => Err(ErrorView::Validation("invalid start_at timestamp"@)),
        (Some(_), None) => Err(ErrorView::Validation("invalid end_at timestamp"@)),
        (Some(s), Some(t)) => {
            let (a, b) = if all_day {
                (day_start(s), day_end(t))
            } else {
                (s, t)
            };
            if earlier(b, a) {
                Err(ErrorView::Validation("end_at must be greater than or equal to start_at"@))
            } else {
                Ok((a, b))
            }
        },
    }
}

/// The bounds an event is stored with: its timestamps read back in canonical form,
/// widened to whole days for all-day events; or the refusal.
pub open spec fn event_bounds(e: EventView) -> Result<(DateTimeParts, DateTimeParts), ErrorView> {
    read_bounds(parse_timestamp_spec(e.start_at), parse_timestamp_spec(e.end_at), e.all_day)
}

/// A stored event never ends before it starts, and an all-day event spans its days from
/// midnight to the last second.
pub proof fn lemma_stored_bounds_are_ordered(e: EventView)
    requires
        event_bounds(e) is Ok,
    ensures
        !earlier(event_bounds(e)->Ok_0.1, event_bounds(e)->Ok_0.0),
        e.all_day ==> event_bounds(e)->Ok_0.0 == day_start(event_bounds(e)->Ok_0.0),
        e.all_day ==> event_bounds(e)->Ok_0.1 == day_end(event_bounds(e)->Ok_0.1),
{
}

/// Orders and writes out the bounds of an event from its read timestamps (`None` where
/// one could not be read), widening all-day events to whole days.
pub fn order_bounds(
    start: Option<DateTimeParts>,
    end: Option<DateTimeParts>,
    all_day: bool,
) -> (r: Result<(String, String), EventServiceError>)
    requires
        start matches Some(s) ==> parts_in_range(s),
        end matches Some(t) ==> parts_in_range(t),
    ensures
        read_bounds(start, end, all_day) matches Err(err) ==> r is Err && r->Err_0@ == err,
        read_bounds(start, end, all_day) matches Ok(b) ==> r is Ok && r->Ok_0.0@ == timestamp_text(b.0)
            && r->Ok_0.1@ == timestamp_text(b.1),
{
    let s = match start {
        Some(s) => s,
        None => {
            return Err(EventServiceError::Validation(String::from_str("invalid start_at timestamp")));
        },
    };
    let t = match end {
        Some(t) => t,
        None => {
            return Err(EventServiceError::Validation(String::from_str("invalid end_at timestamp")));
        },
    };
    let (a, b) = if all_day {
        ((s.0, s.1, s.2, 0u32, 0u32, 0u32, 0u32), (t.0, t.1, t.2, 23u32, 59u32, 59u32, 0u32))
    } else {
        (s, t)
    };
    if is_earlier(b, a) {
        return Err(EventServiceError::Validation(String::from_str(
            "end_at must be greater than or equal to start_at",
        )));
    }
    Ok((format_timestamp(a), format_timestamp(b)))
}

/// Reads, normalizes and orders the bounds of an event.
fn normalize_bounds(start_at: &String, end_at: &String, all_day: bool) -> (r: Result<(String, String), EventServiceError>)
    ensures
        ({
            let e = EventView { start_at: start_at@, end_at: end_at@, all_day, ..arbitrary() };
            &&& event_bounds(e) matches Err(err) ==> r is Err && r->Err_0@ == err
            &&& event_bounds(e) matches Ok(b) ==> r is Ok && r->Ok_0.0@ == timestamp_text(b.0)
                && r->Ok_0.1@ == timestamp_text(b.1)
        }),
{
    let s = parse_timestamp(start_at.as_str());
    let t = parse_timestamp(end_at.as_str());
    order_bounds(s, t, all_day)
}

/// The refusal, if any, of saving `e` (a new one when `is_new`), given what the
/// store holds: the stored row of `e` (when not new), the calendar of `e`, whether
/// the project of `e` exists, and whether Google lets us write that calendar.
pub open spec fn save_error(
    e: EventView,
    is_new: bool,
    stored: Option<EventView>,
    calendar: Option<CalendarView>,
    project_found: bool,
    writable: bool,
) -> Option<ErrorView> {
    if !is_new && stored is None {
        Some(ErrorView::NotFound("event"@, e.id))
    } else if calendar is None {
        Some(ErrorView::NotFound("calendar"@, e.calendar_id))
    } else if e.project_id is Some && !project_found {
        Some(ErrorView::NotFound("project"@, e.project_id->0))
    } else if trim(e.title).len() == 0 {
        Some(ErrorView::Validation("title cannot be empty"@))
    } else if rrule_error(normalized(e.rrule)) is Some {
        rrule_error(normalized(e.rrule))
    } else if trim(e.timezone).len() == 0 {
        Some(ErrorView::Validation("timezone cannot be empty"@))
    } else if event_bounds(e) is Err {
        Some(event_bounds(e)->Err_0)
    } else {
        writable_error(calendar->0, writable)
    }
}

/// Validates and normalizes an event before it is written.
///
/// The caller reads beforehand: the stored row with the event's id (when not new),
/// the event's calendar, whether the event's project exists, and whether Google lets
/// us write that calendar. A new event keeps its trimmed id or gets a fresh one; the
/// title, description, location and recurrence rule are trimmed (blank optional text
/// dropped); the rule must be bare `FREQ=` content; the timestamps are stored in
/// canonical form, all-day events spanning whole days; the end may not precede the
/// start; read-only Google calendars refuse local edits.
pub fn save_event(
    event: Event,
    is_new: bool,
    stored: Option<Event>,
    calendar: Option<Calendar>,
    project_found: bool,
    calendar_writable: bool,
) -> (r: Result<EventSave, EventServiceError>)
    ensures
        ({
            let stored_view = match stored { Some(s) => Some(s@), None => None };
            let calendar_view = match calendar { Some(c) => Some(c@), None => None };
            let err = save_error(event@, is_new, stored_view, calendar_view, project_found, calendar_writable);
            &&& err matches Some(x) ==> r is Err && r->Err_0@ == x
            &&& err is None ==> r is Ok && {
                let s = r->Ok_0.event@;
                let b = event_bounds(event@)->Ok_0;
                &&& (is_new && trim(event.id@).len() != 0) ==> s.id == trim(event.id@)
                &&& (is_new && trim(event.id@).len() == 0) ==> crate::clock::is_uuid_v4_text(s.id)
                &&& !is_new ==> s.id == event.id@
                &&& s.calendar_id == event.calendar_id@
                &&& s.project_id == opt_view(event.project_id)
                &&& s.title == trim(event.title@)
                &&& s.description == normalized(opt_view(event.description))
                &&& s.location == normalized(opt_view(event.location))
                &&& s.rrule == normalized(opt_view(event.rrule))
                &&& s.timezone == trim(event.timezone@)
                &&& s.start_at == timestamp_text(b.0)
                &&& s.end_at == timestamp_text(b.1)
                &&& s.all_day == event.all_day
                &&& s.google_id == opt_view(event.google_id)
                &&& s.google_etag == opt_view(event.google_etag)
                &&& s.reminder_minutes == event.reminder_minutes
                &&& !is_new ==> s.created_at == event.created_at@
                &&& is_new ==> s.created_at == s.updated_at
                &&& crate::clock::is_timestamp_text(s.updated_at)
                &&& s.deleted_at == opt_view(event.deleted_at)
                &&& Some(r->Ok_0.calendar@) == calendar_view
                &&& match r->Ok_0.previous { Some(p) => Some(p@), None => None } == (if is_new { None } else { stored_view })
            }
        }),
{
    let previous = if is_new {
        None
    } else {
        match stored {
            Some(s) => Some(s),
            None => {
                return Err(EventServiceError::NotFound { resource: "event", id: event.id });
            },
        }
    };
    let mut event = event;
    if is_new {
        event.id = if is_blank(event.id.as_str()) {
            new_id()
        } else {
            trim_str(event.id.as_str())
        };
    }
    let calendar = match calendar {
        Some(c) => c,
        None => {
            return Err(EventServiceError::NotFound { resource: "calendar", id: event.calendar_id });
        },
    };
    if let Some(project_id) = &event.project_id {
        if !project_found {
            return Err(EventServiceError::NotFound { resource: "project", id: project_id.clone() });
        }
    }
    if is_blank(event.title.as_str()) {
        return Err(EventServiceError::Validation(String::from_str("title cannot be empty")));
    }
    event.title = trim_str(event.title.as_str());
    event.description = normalize_optional(event.description);
    event.location = normalize_optional(event.location);
    event.rrule = normalize_rrule(normalize_optional(event.rrule))?;
    if is_blank(event.timezone.as_str()) {
        return Err(EventServiceError::Validation(String::from_str("timezone cannot be empty")));
    }
    event.timezone = trim_str(event.timezone.as_str());
    let (start_at, end_at) = normalize_bounds(&event.start_at, &event.end_at, event.all_day)?;
    event.start_at = start_at;
    event.end_at = end_at;
    ensure_writable(&calendar, calendar_writable)?;
    let now = timestamp_now();
    if is_new {
        event.created_at = now.clone();
    }
    event.updated_at = now;
    Ok(EventSave { event, calendar, previous })
}

/// Checks that a stored event may be deleted locally.
///
/// The caller reads beforehand the stored row with id `event_id`, its calendar, and
/// whether Google lets us write that calendar; it then records the deletion for sync
/// and soft-deletes the row.
pub fn delete_event(
    event_id: &str,
    stored: Option<Event>,
    calendar: Option<Calendar>,
    calendar_writable: bool,
) -> (r: Result<EventDelete, EventServiceError>)
    ensures
        stored is None ==> r is Err && r->Err_0@ == ErrorView::NotFound("event"@, event_id@),
        stored is Some && calendar is None ==> r is Err && r->Err_0@ == ErrorView::NotFound(
            "calendar"@,
            stored->0.calendar_id@,
        ),
        stored is Some && calendar is Some ==> match writable_error(calendar->0@, calendar_writable) {
            Some(e) => r is Err && r->Err_0@ == e,
            None => r is Ok && r->Ok_0.event == stored->0 && r->Ok_0.calendar == calendar->0,
        },
{
    let event = match stored {
        Some(e) => e,
        None => {
            return Err(EventServiceError::NotFound { resource: "event", id: event_id.to_owned() });
        },
    };
    let calendar = match calendar {
        Some(c) => c,
        None => {
            return Err(EventServiceError::NotFound { resource: "calendar", id: event.calendar_id });
        },
    };
    ensure_writable(&calendar, calendar_writable)?;
    Ok(EventDelete { event, calendar })
}

} // verus!

use vstd::prelude::*;
use vstd::string::StringExecFns;

use crate::clock::{new_id, timestamp_now};
use crate::models::{
    opt_view, Calendar, CalendarSource, CalendarSyncState, CalendarView, DiscoveredGoogleCalendar,
    DiscoveredGoogleCalendarView, ErrorView,
};
use crate::text::{contains_str, has_infix, is_blank, normalize_optional, normalized, trim, trim_str};

verus! {

/// What a new calendar is made from.
#[derive(Debug)]
pub struct CreateCalendarInput {
    pub name: String,
    pub color: String,
    pub source: CalendarSource,
    pub google_id: Option<String>,
    pub visible: bool,
    pub position: Option<i64>,
}

/// Changes to an existing calendar; `None` leaves a field as it is.
#[derive(Debug)]
pub struct UpdateCalendarInput {
    pub id: String,
    pub name: Option<String>,
    pub color: Option<String>,
    pub source: Option<CalendarSource>,
    pub google_id: Option<Option<String>>,
    pub visible: Option<bool>,
    pub position: Option<i64>,
}

/// Why the calendar service refused a request.
#[derive(Debug, Clone, PartialEq, Eq)]
pub enum CalendarServiceError {
    NotFound { resource: &'static str, id: String },
    Validation(String),
    Conflict(String),
    Internal(String),
}

impl View for CalendarServiceError {
    type V = ErrorView;

    open spec fn view(&self) -> ErrorView {
        match self {
            CalendarServiceError::NotFound { resource, id } => ErrorView::NotFound(resource@, id@),
            CalendarServiceError::Validation(m) => ErrorView::Validation(m@),
            CalendarServiceError::Conflict(m) => ErrorView::Conflict(m@),
            CalendarServiceError::Internal(m) => ErrorView::Internal(m@),
        }
    }
}

impl CalendarServiceError {
    /// The text of the error: `<resource> '<id>' not found`, or its message.
    pub fn to_text(&self) -> (s: String)
        ensures
            s@ == crate::models::error_text(self@),
    {
        match self {
            CalendarServiceError::NotFound { resource, id } => String::from_str(*resource).concat(" '").concat(
                id.as_str(),
            ).concat("' not found"),
            CalendarServiceError::Validation(m) => m.clone(),
            CalendarServiceError::Conflict(m) => m.clone(),
            CalendarServiceError::Internal(m) => m.clone(),
        }
    }
}

/// A failed write of a calendar row, as the database reported it: whether it broke a
/// constraint, the database's own message if it gave one, and the whole error as text.
#[derive(Debug)]
pub struct WriteFailure {
    pub constraint_violation: bool,
    pub detail: Option<String>,
    pub text: String,
}

/// A failed write broke the uniqueness of Google calendar ids: a constraint failure whose
/// message names that index or column, or that came without a message.
pub open spec fn google_id_clash(f: WriteFailure) -> bool {
    f.constraint_violation && match f.detail {
        Some(m) => has_infix(m@, "idx_calendars_google_id_unique"@) || has_infix(m@, "calendars.google_id"@),
        None => true,
    }
}

/// The service error a failed write becomes.
pub open spec fn write_error(f: WriteFailure, google_id: Option<Seq<char>>) -> ErrorView {
    if google_id_clash(f) {
        match google_id {
            Some(g) => ErrorView::Conflict(already_imported_message(g)),
            None => ErrorView::Conflict("google calendar is already imported"@),
        }
    } else {
        ErrorView::Internal(f.text@)
    }
}

/// Whether a failed write broke the uniqueness of Google calendar ids.
pub fn is_google_id_unique_violation(failure: &WriteFailure) -> (b: bool)
    ensures
        b == google_id_clash(*failure),
{
    if !failure.constraint_violation {
        return false;
    }
    match &failure.detail {
        Some(message) => contains_str(message.as_str(), "idx_calendars_google_id_unique")
            || contains_str(message.as_str(), "calendars.google_id"),
        None => true,
    }
}

/// The service error for a failed write of the calendar with Google id `google_id`:
/// a clash of Google ids is a conflict, anything else an internal error.
pub fn map_write_error(failure: WriteFailure, google_id: Option<&str>) -> (e: CalendarServiceError)
    ensures
        e@ == write_error(failure, match google_id {
            Some(g) => Some(g@),
            None => None,
        }),
{
    if is_google_id_unique_violation(&failure) {
        match google_id {
            Some(g) => {
                return CalendarServiceError::Conflict(
                    String::from_str("google calendar '").concat(g).concat("' is already imported"),
                );
            },
            None => {
                return CalendarServiceError::Conflict(String::from_str("google calendar is already imported"));
            },
        }
    }
    CalendarServiceError::Internal(failure.text)
}

/// A calendar row as it is written after an update, and whether the calendar's
/// Google sync state must be detached because it stopped being a Google calendar.
#[derive(Debug)]
pub struct CalendarUpdate {
    pub calendar: Calendar,
    pub detach_google_sync_state: bool,
}

/// The models of a sequence of calendars.
pub open spec fn calendar_views(cals: Seq<Calendar>) -> Seq<CalendarView> {
    cals.map_values(|c: Calendar| c@)
}

/// A calendar is consistent when Google calendars carry a Google id and local ones do not.
pub open spec fn source_consistent(c: CalendarView) -> bool {
    &&& c.source == CalendarSource::Google ==> c.google_id is Some
    &&& c.source == CalendarSource::Local ==> c.google_id is None
}

/// The refusal, if any, of `source` combined with `google_id`.
pub open spec fn source_error(source: CalendarSource, google_id: Option<Seq<char>>) -> Option<ErrorView> {
    if source == CalendarSource::Google && google_id is None {
        Some(ErrorView::Validation("google calendars require a google_id"@))
    } else if source == CalendarSource::Local && google_id is Some {
        Some(ErrorView::Validation("local calendars cannot set a google_id"@))
    } else {
        None
    }
}

/// Id of the first Google calendar in `cals` that is bound to `google_id`.
pub open spec fn google_owner(cals: Seq<CalendarView>, google_id: Seq<char>) -> Option<Seq<char>>
    decreases cals.len(),
{
    if cals.len() == 0 {
        None
    } else if cals[0].source == CalendarSource::Google && cals[0].google_id == Some(google_id) {
        Some(cals[0].id)
    } else {
        google_owner(cals.drop_first(), google_id)
    }
}

/// Message of the refusal to import a Google calendar twice.
pub open spec fn already_imported_message(google_id: Seq<char>) -> Seq<char> {
    "google calendar '"@ + google_id + "' is already imported"@
}

/// The refusal, if any, of binding `google_id` to the calendar `current` (none: a new one).
pub open spec fn import_error(
    cals: Seq<CalendarView>,
    google_id: Seq<char>,
    current: Option<Seq<char>>,
) -> Option<ErrorView> {
    match google_owner(cals, google_id) {
        Some(owner) => if current != Some(owner) {
            Some(ErrorView::Conflict(already_imported_message(google_id)))
        } else {
            None
        },
        None => None,
    }
}

/// Message of the refusal of an empty required field.
pub open spec fn empty_field_message(field: Seq<char>) -> Seq<char> {
    field + " cannot be empty"@
}

/// The largest position among `cals`, plus one; zero when there are none.
pub open spec fn next_position(cals: Seq<CalendarView>) -> int
    decreases cals.len(),
{
    if cals.len() == 0 {
        0
    } else if cals.len() == 1 {
        cals.last().position + 1
    } else {
        let rest = next_position(cals.drop_last());
        if cals.last().position + 1 > rest {
            cals.last().position + 1
        } else {
            rest
        }
    }
}

/// The refusal, if any, of creating a calendar from the given input among `cals`.
pub open spec fn create_error(
    cals: Seq<CalendarView>,
    name: Seq<char>,
    color: Seq<char>,
    source: CalendarSource,
    google_id: Option<Seq<char>>,
) -> Option<ErrorView> {
    let g = normalized(google_id);
    if source_error(source, g) is Some {
        source_error(source, g)
    } else if g is Some && import_error(cals, g->0, None) is Some {
        import_error(cals, g->0, None)
    } else if trim(name).len() == 0 {
        Some(ErrorView::Validation(empty_field_message("name"@)))
    } else if trim(color).len() == 0 {
        Some(ErrorView::Validation(empty_field_message("color"@)))
    } else {
        None
    }
}

/// Trims a required field, refusing it when nothing is left.
fn normalize_required(value: String, field: &'static str) -> (r: Result<String, CalendarServiceError>)
    ensures
        trim(value@).len() == 0 ==> r is Err && r->Err_0@ == ErrorView::Validation(
            empty_field_message(field@),
        ),
        trim(value@).len() != 0 ==> r is Ok && r->Ok_0@ == trim(value@),
{
    let trimmed = trim_str(value.as_str());
    if is_blank(value.as_str()) {
        return Err(CalendarServiceError::Validation(String::from_str(field).concat(" cannot be empty")));
    }
    Ok(trimmed)
}

/// Refuses a Google calendar without a Google id and a local calendar with one.
fn validate_calendar_source(source: CalendarSource, google_id: &Option<String>) -> (r: Result<(), CalendarServiceError>)
    ensures
        source_error(source, opt_view(*google_id)) is None ==> r is Ok,
        source_error(source, opt_view(*google_id)) matches Some(e) ==> r is Err && r->Err_0@ == e,
{
    match source {
        CalendarSource::Google => {
            if google_id.is_none() {
                return Err(CalendarServiceError::Validation(String::from_str("google calendars require a google_id")));
            }
        },
        CalendarSource::Local => {
            if google_id.is_some() {
                return Err(CalendarServiceError::Validation(String::from_str("local calendars cannot set a google_id")));
            }
        },
    }
    Ok(())
}

/// Id of the first Google calendar of `calendars` bound to `google_id`.
fn find_google_owner(calendars: &Vec<Calendar>, google_id: &String) -> (r: Option<String>)
    ensures
        opt_view(r) == google_owner(calendar_views(calendars@), google_id@),
{
    let ghost all = calendar_views(calendars@);
    let n = calendars.len();
    let mut i: usize = 0;
    assert(all.subrange(0, n as int) =~= all);
    while i < n
        invariant
            n == calendars.len(),
            all == calendar_views(calendars@),
            i <= n,
            google_owner(all, google_id@) == google_owner(all.subrange(i as int, n as int), google_id@),
        decreases n - i,
    {
        let c = &calendars[i];
        let ghost rest = all.subrange(i as int, n as int);
        assert(rest[0] == c@);
        let bound = match &c.google_id {
            Some(g) => *g == *google_id,
            None => false,
        };
        if c.source == CalendarSource::Google && bound {
            return Some(c.id.clone());
        }
        assert(rest.drop_first() =~= all.subrange(i + 1, n as int));
        i = i + 1;
    }
    None
}

/// Refuses binding `google_id` to a calendar other than `current_calendar_id`
/// when another calendar already holds it.
fn ensure_google_calendar_not_imported(
    calendars: &Vec<Calendar>,
    google_id: &String,
    current_calendar_id: Option<&String>,
) -> (r: Result<(), CalendarServiceError>)
    ensures
        import_error(calendar_views(calendars@), google_id@, opt_ref_view(current_calendar_id)) is None ==> r is Ok,
        import_error(calendar_views(calendars@), google_id@, opt_ref_view(current_calendar_id)) matches Some(e)
            ==> r is Err && r->Err_0@ == e,
{
    match find_google_owner(calendars, google_id) {
        Some(owner) => {
            let same = match current_calendar_id {
                Some(cur) => *cur == owner,
                None => false,
            };
            if !same {
                return Err(CalendarServiceError::Conflict(
                    String::from_str("google calendar '").concat(google_id.as_str()).concat(
                        "' is already imported",
                    ),
                ));
            }
            Ok(())
        },
        None => Ok(()),
    }
}

/// Optional string reference viewed as optional text.
pub open spec fn opt_ref_view(o: Option<&String>) -> Option<Seq<char>> {
    match o {
        Some(s) => Some(s@),
        None => None,
    }
}

/// The largest position of `calendars`, plus one (zero when there are none).
fn next_calendar_position(calendars: &Vec<Calendar>) -> (p: i64)
    requires
        forall|i: int| 0 <= i < calendars.len() ==> #[trigger] calendars@[i].position < i64::MAX,
    ensures
        p == next_position(calendar_views(calendars@)),
{
    let ghost all = calendar_views(calendars@);
    let mut best: i64 = 0;
    let mut i: usize = 0;
    while i < calendars.len()
        invariant
            all == calendar_views(calendars@),
            i <= calendars.len(),
            forall|k: int| 0 <= k < calendars.len() ==> #[trigger] calendars@[k].position < i64::MAX,
            best == next_position(all.subrange(0, i as int)),
        decreases calendars.len() - i,
    {
        let candidate = calendars[i].position + 1;
        assert(all.subrange(0, i + 1).drop_last() =~= all.subrange(0, i as int));
        if i == 0 || candidate > best {
            best = candidate;
        }
        i = i + 1;
    }
    assert(all.subrange(0, calendars.len() as int) =~= all);
    best
}

/// Builds the row of a new calendar, given the active calendars.
///
/// The Google id is trimmed (blank means none); a Google calendar needs one and a
/// local calendar may not have one; a Google id may be bound to one calendar only;
/// name and color are trimmed and may not be blank. Without a position the calendar
/// goes after the last one. The caller writes the row.
pub fn create_calendar(calendars: &Vec<Calendar>, input: CreateCalendarInput) -> (r: Result<Calendar, CalendarServiceError>)
    requires
        input.position is None ==> forall|i: int| 0 <= i < calendars.len() ==> #[trigger] calendars@[i].position
            < i64::MAX,
    ensures
        create_error(calendar_views(calendars@), input.name@, input.color@, input.source, opt_view(input.google_id))
            matches Some(e) ==> r is Err && r->Err_0@ == e,
        create_error(calendar_views(calendars@), input.name@, input.color@, input.source, opt_view(input.google_id))
            is None ==> r is Ok && {
            let c = r->Ok_0@;
            &&& c.name == trim(input.name@)
            &&& c.color == trim(input.color@)
            &&& c.source == input.source
            &&& c.google_id == normalized(opt_view(input.google_id))
            &&& c.visible == input.visible
            &&& c.position == match input.position {
                Some(p) => p as int,
                None => next_position(calendar_views(calendars@)),
            }
            &&& crate::clock::is_uuid_v4_text(c.id)
            &&& c.created_at == c.updated_at
            &&& crate::clock::is_timestamp_text(c.created_at)
            &&& c.deleted_at is None
        },
        r matches Ok(c) ==> source_consistent(c@),
{
    let source = input.source;
    let google_id = normalize_optional(input.google_id);
    validate_calendar_source(source, &google_id)?;
    if let Some(g) = &google_id {
        ensure_google_calendar_not_imported(calendars, g, None)?;
    }
    let position = match input.position {
        Some(position) => position,
        None => next_calendar_position(calendars),
    };
    let now = timestamp_now();
    let id = new_id();
    let name = normalize_required(input.name, "name")?;
    let color = normalize_required(input.color, "color")?;
    Ok(Calendar {
        id,
        name,
        color,
        source,
        google_id,
        visible: input.visible,
        position,
        created_at: now.clone(),
        updated_at: now,
        deleted_at: None,
    })
}

/// The calendar with id `id` among `cals`, if any (the first one).
pub open spec fn find_calendar(cals: Seq<CalendarView>, id: Seq<char>) -> Option<CalendarView>
    decreases cals.len(),
{
    if cals.len() == 0 {
        None
    } else if cals[0].id == id {
        Some(cals[0])
    } else {
        find_calendar(cals.drop_first(), id)
    }
}

/// Message of the refusal to rebind a Google calendar to another Google id.
pub open spec fn google_id_change_message() -> Seq<char> {
    "changing google_id on an existing google calendar is not supported"@
}

/// `c` with the changes of an update applied, before any check.
pub open spec fn apply_update(
    c: CalendarView,
    name: Option<Seq<char>>,
    color: Option<Seq<char>>,
    source: Option<CalendarSource>,
    google_id: Option<Option<Seq<char>>>,
    visible: Option<bool>,
    position: Option<i64>,
) -> CalendarView {
    let new_source = match source {
        Some(s) => s,
        None => c.source,
    };
    let g = match google_id {
        Some(o) => normalized(o),
        None => c.google_id,
    };
    CalendarView {
        name: match name {
            Some(n) => trim(n),
            None => c.name,
        },
        color: match color {
            Some(n) => trim(n),
            None => c.color,
        },
        source: new_source,
        google_id: if new_source == CalendarSource::Local {
            None
        } else {
            g
        },
        visible: match visible {
            Some(v) => v,
            None => c.visible,
        },
        position: match position {
            Some(p) => p,
            None => c.position,
        },
        ..c
    }
}

/// What an update of a calendar among `cals` gives: the updated calendar or the refusal.
pub open spec fn update_outcome(
    cals: Seq<CalendarView>,
    id: Seq<char>,
    name: Option<Seq<char>>,
    color: Option<Seq<char>>,
    source: Option<CalendarSource>,
    google_id: Option<Option<Seq<char>>>,
    visible: Option<bool>,
    position: Option<i64>,
) -> Result<CalendarView, ErrorView> {
    match find_calendar(cals, id) {
        None => Err(ErrorView::NotFound("calendar"@, id)),
        Some(c) => {
            if name is Some && trim(name->0).len() == 0 {
                Err(ErrorView::Validation(empty_field_message("name"@)))
            } else if color is Some && trim(color->0).len() == 0 {
                Err(ErrorView::Validation(empty_field_message("color"@)))
            } else {
                let u = apply_update(c, name, color, source, google_id, visible, position);
                if c.source == CalendarSource::Google && u.source == CalendarSource::Google
                    && c.google_id != u.google_id {
                    Err(ErrorView::Validation(google_id_change_message()))
                } else if source_error(u.source, u.google_id) is Some {
                    Err(source_error(u.source, u.google_id)->0)
                } else if u.google_id is Some && import_error(cals, u.google_id->0, Some(c.id)) is Some {
                    Err(import_error(cals, u.google_id->0, Some(c.id))->0)
                } else {
                    Ok(u)
                }
            }
        },
    }
}

/// Optional optional text viewed as optional optional character sequences.
pub open spec fn opt_opt_view(o: Option<Option<String>>) -> Option<Option<Seq<char>>> {
    match o {
        Some(x) => Some(opt_view(x)),
        None => None,
    }
}

/// Position of the calendar with id `id` in `calendars`.
fn find_calendar_index(calendars: &Vec<Calendar>, id: &String) -> (r: Option<usize>)
    ensures
        match r {
            Some(i) => i < calendars.len() && find_calendar(calendar_views(calendars@), id@) == Some(
                calendars@[i as int]@,
            ),
            None => find_calendar(calendar_views(calendars@), id@) is None,
        },
{
    let ghost all = calendar_views(calendars@);
    let n = calendars.len();
    let mut i: usize = 0;
    assert(all.subrange(0, n as int) =~= all);
    while i < n
        invariant
            n == calendars.len(),
            all == calendar_views(calendars@),
            i <= n,
            find_calendar(all, id@) == find_calendar(all.subrange(i as int, n as int), id@),
        decreases n - i,
    {
        let ghost rest = all.subrange(i as int, n as int);
        assert(rest[0] == calendars@[i as int]@);
        if calendars[i].id == *id {
            return Some(i);
        }
        assert(rest.drop_first() =~= all.subrange(i + 1, n as int));
        i = i + 1;
    }
    None
}

/// Applies an update to a calendar of the active `calendars`.
///
/// Name and color are trimmed and may not be blank; a calendar made local loses its
/// Google id; a Google calendar keeps its Google id; the result must still pair its
/// source with a Google id correctly, and the Google id may not belong to another
/// calendar. The caller writes the row and, when asked, detaches the Google sync state.
pub fn update_calendar(calendars: &Vec<Calendar>, input: UpdateCalendarInput) -> (r: Result<CalendarUpdate, CalendarServiceError>)
    ensures
        ({
            let outcome = update_outcome(calendar_views(calendars@), input.id@, opt_view(input.name),
                opt_view(input.color), input.source, opt_opt_view(input.google_id), input.visible, input.position);
            &&& outcome matches Err(e) ==> r is Err && r->Err_0@ == e
            &&& outcome matches Ok(u) ==> r is Ok && r->Ok_0.calendar@ == u
                && r->Ok_0.detach_google_sync_state == (find_calendar(calendar_views(calendars@), input.id@)->0.source
                    == CalendarSource::Google && u.source == CalendarSource::Local)
        }),
        r matches Ok(u) ==> source_consistent(u.calendar@),
{
    let idx = match find_calendar_index(calendars, &input.id) {
        Some(i) => i,
        None => {
            return Err(CalendarServiceError::NotFound { resource: "calendar", id: input.id });
        },
    };
    let mut calendar = calendars[idx].clone();
    let original_source = calendar.source;
    let original_google_id = calendar.google_id.clone();
    if let Some(name) = input.name {
        calendar.name = normalize_required(name, "name")?;
    }
    if let Some(color) = input.color {
        calendar.color = normalize_required(color, "color")?;
    }
    if let Some(source) = input.source {
        calendar.source = source;
    }
    if let Some(visible) = input.visible {
        calendar.visible = visible;
    }
    if let Some(position) = input.position {
        calendar.position = position;
    }
    if let Some(google_id) = input.google_id {
        calendar.google_id = normalize_optional(google_id);
    }
    if calendar.source == CalendarSource::Local {
        calendar.google_id = None;
    }
    let same_google_id = match (&original_google_id, &calendar.google_id) {
        (Some(a), Some(b)) => *a == *b,
        (None, None) => true,
        _ => false,
    };
    if original_source == CalendarSource::Google && calendar.source == CalendarSource::Google && !same_google_id {
        return Err(CalendarServiceError::Validation(String::from_str(
            "changing google_id on an existing google calendar is not supported",
        )));
    }
    validate_calendar_source(calendar.source, &calendar.google_id)?;
    if let Some(g) = &calendar.google_id {
        ensure_google_calendar_not_imported(calendars, g, Some(&calendar.id))?;
    }
    let detach = original_source == CalendarSource::Google && calendar.source == CalendarSource::Local;
    Ok(CalendarUpdate { calendar, detach_google_sync_state: detach })
}

proof fn lemma_owner_found(cals: Seq<CalendarView>, g: Seq<char>, k: int)
    requires
        0 <= k < cals.len(),
        cals[k].source == CalendarSource::Google,
        cals[k].google_id == Some(g),
    ensures
        google_owner(cals, g) is Some,
    decreases cals.len(),
{
    if k > 0 && !(cals[0].source == CalendarSource::Google && cals[0].google_id == Some(g)) {
        assert(cals.drop_first()[k - 1] == cals[k]);
        lemma_owner_found(cals.drop_first(), g, k - 1);
    }
}

/// Normalizing optional text twice is normalizing it once.
pub proof fn lemma_normalized_idempotent(o: Option<Seq<char>>)
    ensures
        normalized(normalized(o)) == normalized(o),
{
    if let Some(v) = o {
        crate::text::lemma_trim_idempotent(v);
    }
}

/// No two Google calendars of `cals` are bound to the same Google calendar.
pub open spec fn google_ids_unique(cals: Seq<CalendarView>) -> bool {
    forall|i: int, j: int|
        0 <= i < j < cals.len() && cals[i].source == CalendarSource::Google && cals[j].source
            == CalendarSource::Google && cals[i].google_id is Some ==> #[trigger] cals[i].google_id
            != #[trigger] cals[j].google_id
}

proof fn lemma_no_owner(cals: Seq<CalendarView>, g: Seq<char>)
    requires
        google_owner(cals, g) is None,
    ensures
        forall|i: int|
            0 <= i < cals.len() ==> !(#[trigger] cals[i].source == CalendarSource::Google && cals[i].google_id
                == Some(g)),
    decreases cals.len(),
{
    if cals.len() > 0 {
        lemma_no_owner(cals.drop_first(), g);
        assert forall|i: int| 0 <= i < cals.len() implies !(#[trigger] cals[i].source == CalendarSource::Google
            && cals[i].google_id == Some(g)) by {
            if i > 0 {
                assert(cals[i] == cals.drop_first()[i - 1]);
            }
        }
    }
}

/// A calendar that creation accepts keeps the Google calendars bound to distinct Google
/// calendars: a new Google calendar's id is one that no Google calendar holds yet.
pub proof fn lemma_create_keeps_google_ids_unique(
    cals: Seq<CalendarView>,
    name: Seq<char>,
    color: Seq<char>,
    source: CalendarSource,
    google_id: Option<Seq<char>>,
    created: CalendarView,
)
    requires
        google_ids_unique(cals),
        create_error(cals, name, color, source, google_id) is None,
        created.source == source,
        created.google_id == normalized(google_id),
    ensures
        google_ids_unique(cals.push(created)),
{
    let all = cals.push(created);
    if source == CalendarSource::Google {
        let g = normalized(google_id)->0;
        lemma_no_owner(cals, g);
        assert forall|i: int, j: int|
            0 <= i < j < all.len() && all[i].source == CalendarSource::Google && all[j].source
                == CalendarSource::Google && all[i].google_id is Some implies #[trigger] all[i].google_id
                != #[trigger] all[j].google_id by {
            if j == cals.len() {
                assert(all[i] == cals[i]);
                assert(!(cals[i].source == CalendarSource::Google && cals[i].google_id == Some(g)));
            } else {
                assert(all[i] == cals[i] && all[j] == cals[j]);
            }
        }
    } else {
        assert forall|i: int, j: int|
            0 <= i < j < all.len() && all[i].source == CalendarSource::Google && all[j].source
                == CalendarSource::Google && all[i].google_id is Some implies #[trigger] all[i].google_id
                != #[trigger] all[j].google_id by {
            assert(j < cals.len());
            assert(all[i] == cals[i] && all[j] == cals[j]);
        }
    }
}

/// The calendar ids of `cals` are distinct.
pub open spec fn ids_unique(cals: Seq<CalendarView>) -> bool {
    forall|i: int, j: int| 0 <= i < j < cals.len() ==> #[trigger] cals[i].id != #[trigger] cals[j].id
}

proof fn lemma_owner_member(cals: Seq<CalendarView>, g: Seq<char>) -> (m: int)
    requires
        google_owner(cals, g) is Some,
    ensures
        0 <= m < cals.len(),
        cals[m].source == CalendarSource::Google,
        cals[m].google_id == Some(g),
        cals[m].id == google_owner(cals, g)->0,
    decreases cals.len(),
{
    if cals[0].source == CalendarSource::Google && cals[0].google_id == Some(g) {
        0
    } else {
        let m = lemma_owner_member(cals.drop_first(), g);
        assert(cals[m + 1] == cals.drop_first()[m]);
        m + 1
    }
}

proof fn lemma_found_member(cals: Seq<CalendarView>, id: Seq<char>) -> (k: int)
    requires
        find_calendar(cals, id) is Some,
    ensures
        0 <= k < cals.len(),
        cals[k] == find_calendar(cals, id)->0,
        cals[k].id == id,
    decreases cals.len(),
{
    if cals[0].id == id {
        0
    } else {
        let k = lemma_found_member(cals.drop_first(), id);
        assert(cals[k + 1] == cals.drop_first()[k]);
        k + 1
    }
}

/// An update that the calendar service accepts keeps the Google calendars bound to
/// distinct Google calendars: the calendar at `k` (the one with id `id`) is replaced by
/// its updated row, and a Google id it takes is one no other Google calendar holds.
pub proof fn lemma_update_keeps_google_ids_unique(
    cals: Seq<CalendarView>,
    id: Seq<char>,
    name: Option<Seq<char>>,
    color: Option<Seq<char>>,
    source: Option<CalendarSource>,
    google_id: Option<Option<Seq<char>>>,
    visible: Option<bool>,
    position: Option<i64>,
    k: int,
)
    requires
        google_ids_unique(cals),
        ids_unique(cals),
        0 <= k < cals.len(),
        cals[k].id == id,
        update_outcome(cals, id, name, color, source, google_id, visible, position) is Ok,
    ensures
        google_ids_unique(
            cals.update(k, update_outcome(cals, id, name, color, source, google_id, visible, position)->Ok_0),
        ),
{
    let u = update_outcome(cals, id, name, color, source, google_id, visible, position)->Ok_0;
    let all = cals.update(k, u);
    let f = lemma_found_member(cals, id);
    assert(f == k) by {
        if f != k {
            if f < k {
                assert(cals[f].id != cals[k].id);
            } else {
                assert(cals[k].id != cals[f].id);
            }
        }
    }
    let c = cals[k];
    assert forall|i: int, j: int|
        0 <= i < j < all.len() && all[i].source == CalendarSource::Google && all[j].source
            == CalendarSource::Google && all[i].google_id is Some implies #[trigger] all[i].google_id
            != #[trigger] all[j].google_id by {
        if i != k && j != k {
            assert(all[i] == cals[i] && all[j] == cals[j]);
        } else if u.google_id is Some {
            let g = u.google_id->0;
            let other = if i == k { j } else { i };
            assert(all[other] == cals[other]);
            match google_owner(cals, g) {
                None => {
                    lemma_no_owner(cals, g);
                    assert(!(cals[other].source == CalendarSource::Google && cals[other].google_id == Some(g)));
                },
                Some(owner) => {
                    assert(owner == c.id);
                    let m = lemma_owner_member(cals, g);
                    assert(m == k) by {
                        if m != k {
                            if m < k {
                                assert(cals[m].id != cals[k].id);
                            } else {
                                assert(cals[k].id != cals[m].id);
                            }
                        }
                    }
                    if other < k {
                        assert(cals[other].google_id != cals[k].google_id);
                    } else {
                        assert(cals[k].google_id != cals[other].google_id);
                    }
                },
            }
        }
    }
}

/// A Google calendar cannot be imported twice: once an import is accepted and its
/// calendar stored, importing the same Google id again is refused as a conflict.
pub proof fn lemma_second_import_refused(
    cals: Seq<CalendarView>,
    imported: CalendarView,
    google_id: Seq<char>,
    name: Seq<char>,
    color: Seq<char>,
)
    requires
        imported.source == CalendarSource::Google,
        imported.google_id == normalized(Some(google_id)),
        normalized(Some(google_id)) is Some,
    ensures
        create_error(cals.push(imported), name, color, CalendarSource::Google, Some(google_id))
            == Some(ErrorView::Conflict(already_imported_message(trim(google_id)))),
{
    let all = cals.push(imported);
    let g = trim(google_id);
    assert(normalized(Some(google_id)) == Some(g));
    assert(all[cals.len() as int] == imported);
    lemma_owner_found(all, g, cals.len() as int);
}

/// A calendar made local by an update loses its Google id and has its Google sync
/// state detached when it was a Google calendar.
pub proof fn lemma_update_to_local_clears_google_id(
    cals: Seq<CalendarView>,
    id: Seq<char>,
    name: Option<Seq<char>>,
    color: Option<Seq<char>>,
    google_id: Option<Option<Seq<char>>>,
    visible: Option<bool>,
    position: Option<i64>,
)
    requires
        update_outcome(cals, id, name, color, Some(CalendarSource::Local), google_id, visible, position) is Ok,
    ensures
        update_outcome(cals, id, name, color, Some(CalendarSource::Local), google_id, visible, position)->Ok_0.google_id
            is None,
        update_outcome(cals, id, name, color, Some(CalendarSource::Local), google_id, visible, position)->Ok_0.source
            == CalendarSource::Local,
{
}

/// The sync record of a freshly imported Google calendar.
pub open spec fn fresh_sync_state(
    s: CalendarSyncState,
    calendar_id: Seq<char>,
    d: DiscoveredGoogleCalendarView,
) -> bool {
    &&& s.calendar_id@ == calendar_id
    &&& opt_view(s.google_access_role) == d.access_role
    &&& s.writable == d.writable
    &&& s.last_synced_at is None
    &&& s.last_sync_error_code is None
    &&& s.last_sync_error_message is None
    &&& s.pending_outbox == 0
    &&& s.pending_conflicts == 0
    &&& s.created_at@.len() == 0
    &&& s.updated_at@.len() == 0
}

/// Builds the rows for importing a discovered Google calendar: a visible Google
/// calendar bound to its Google id, and its sync record carrying the access role
/// and writability. The caller writes both in one transaction.
pub fn import_google_calendar(
    calendars: &Vec<Calendar>,
    calendar: &DiscoveredGoogleCalendar,
    position: Option<i64>,
) -> (r: Result<(Calendar, CalendarSyncState), CalendarServiceError>)
    requires
        position is None ==> forall|i: int| 0 <= i < calendars.len() ==> #[trigger] calendars@[i].position
            < i64::MAX,
    ensures
        create_error(calendar_views(calendars@), calendar.name@, calendar.color@, CalendarSource::Google,
            Some(calendar.google_id@)) matches Some(e) ==> r is Err && r->Err_0@ == e,
        create_error(calendar_views(calendars@), calendar.name@, calendar.color@, CalendarSource::Google,
            Some(calendar.google_id@)) is None ==> r is Ok && {
            let c = r->Ok_0.0@;
            &&& c.name == trim(calendar.name@)
            &&& c.color == trim(calendar.color@)
            &&& c.source == CalendarSource::Google
            &&& c.google_id == normalized(Some(calendar.google_id@))
            &&& c.visible
            &&& c.position == match position {
                Some(p) => p as int,
                None => next_position(calendar_views(calendars@)),
            }
            &&& crate::clock::is_uuid_v4_text(c.id)
            &&& c.created_at == c.updated_at
            &&& crate::clock::is_timestamp_text(c.created_at)
            &&& c.deleted_at is None
            &&& fresh_sync_state(r->Ok_0.1, c.id, calendar@)
        },
{
    let imported = create_calendar(
        calendars,
        CreateCalendarInput {
            name: calendar.name.clone(),
            color: calendar.color.clone(),
            source: CalendarSource::Google,
            google_id: Some(calendar.google_id.clone()),
            visible: true,
            position,
        },
    )?;
    let state = CalendarSyncState {
        calendar_id: imported.id.clone(),
        google_access_role: calendar.access_role.clone(),
        writable: calendar.writable,
        last_synced_at: None,
        last_sync_error_code: None,
        last_sync_error_message: None,
        pending_outbox: 0,
        pending_conflicts: 0,
        created_at: String::new(),
        updated_at: String::new(),
    };
    Ok((imported, state))
}

/// `google_id` is bound to one of the Google calendars of `cals`.
pub open spec fn is_imported(cals: Seq<CalendarView>, google_id: Seq<char>) -> bool {
    exists|i: int|
        0 <= i < cals.len() && #[trigger] cals[i].source == CalendarSource::Google && cals[i].google_id
            == Some(google_id)
}

/// The discovered calendars that are not imported yet.
pub open spec fn unimported(
    cals: Seq<CalendarView>,
    discovered: Seq<DiscoveredGoogleCalendarView>,
) -> Seq<DiscoveredGoogleCalendarView> {
    discovered.filter(|d: DiscoveredGoogleCalendarView| !is_imported(cals, d.google_id))
}

pub fn google_id_imported(calendars: &Vec<Calendar>, google_id: &String) -> (b: bool)
    ensures
        b == is_imported(calendar_views(calendars@), google_id@),
{
    let ghost all = calendar_views(calendars@);
    let mut i: usize = 0;
    while i < calendars.len()
        invariant
            all == calendar_views(calendars@),
            i <= calendars.len(),
            forall|k: int| 0 <= k < i ==> !(#[trigger] all[k].source == CalendarSource::Google && all[k].google_id
                == Some(google_id@)),
        decreases calendars.len() - i,
    {
        let c = &calendars[i];
        assert(all[i as int] == c@);
        let bound = match &c.google_id {
            Some(g) => *g == *google_id,
            None => false,
        };
        if c.source == CalendarSource::Google && bound {
            assert(all[i as int].source == CalendarSource::Google && all[i as int].google_id == Some(google_id@));
            return true;
        }
        i = i + 1;
    }
    false
}

/// What is left after filtering holds no imported calendar, and every discovered
/// calendar not imported yet is left.
pub proof fn lemma_unimported_exact(cals: Seq<CalendarView>, discovered: Seq<DiscoveredGoogleCalendarView>)
    ensures
        forall|i: int|
            0 <= i < unimported(cals, discovered).len() ==> !is_imported(cals, #[trigger] unimported(cals, discovered)[i].google_id),
        forall|i: int|
            0 <= i < discovered.len() && !is_imported(cals, #[trigger] discovered[i].google_id) ==> unimported(cals, discovered).contains(
                discovered[i],
            ),
{
    let pred = |d: DiscoveredGoogleCalendarView| !is_imported(cals, d.google_id);
    assert forall|i: int| 0 <= i < unimported(cals, discovered).len() implies !is_imported(cals, #[trigger] unimported(cals, discovered)[i].google_id) by {
        discovered.lemma_filter_pred(pred, i);
    }
    assert forall|i: int| 0 <= i < discovered.len() && !is_imported(cals, #[trigger] discovered[i].google_id) implies unimported(cals, discovered).contains(
        discovered[i],
    ) by {
        discovered.lemma_filter_contains(pred, i);
    }
}

/// Keeps, in order, the discovered Google calendars whose Google id no Google
/// calendar of `calendars` holds yet.
pub fn filter_unimported_google_calendars(
    calendars: &Vec<Calendar>,
    discovered: Vec<DiscoveredGoogleCalendar>,
) -> (r: Vec<DiscoveredGoogleCalendar>)
    ensures
        r.deep_view() == unimported(calendar_views(calendars@), discovered.deep_view()),
{
    let ghost cals = calendar_views(calendars@);
    let ghost pred = |d: DiscoveredGoogleCalendarView| !is_imported(cals, d.google_id);
    let ghost all = discovered.deep_view();
    let mut kept: Vec<DiscoveredGoogleCalendar> = Vec::new();
    let mut i: usize = 0;
    assert(all.take(0) =~= Seq::<DiscoveredGoogleCalendarView>::empty());
    while i < discovered.len()
        invariant
            cals == calendar_views(calendars@),
            all == discovered.deep_view(),
            pred == (|d: DiscoveredGoogleCalendarView| !is_imported(cals, d.google_id)),
            i <= discovered.len(),
            kept.deep_view() == all.take(i as int).filter(pred),
        decreases discovered.len() - i,
    {
        let d = &discovered[i];
        assert(all.take(i + 1) =~= all.take(i as int).push(all[i as int]));
        proof {
            all.take(i as int).lemma_filter_push(all[i as int], pred);
        }
        assert(all[i as int] == d@);
        if !google_id_imported(calendars, &d.google_id) {
            let ghost before = kept.deep_view();
            kept.push(d.clone());
            assert(kept.deep_view() =~= before.push(d@));
        }
        i = i + 1;
    }
    assert(all.take(discovered.len() as int) =~= all);
    kept
}

/// A new calendar without a given position goes after every calendar there: its position
/// is larger than each of theirs and one more than one of them (the largest); the first
/// calendar gets zero.
pub proof fn lemma_next_position_after_all(cals: Seq<CalendarView>)
    ensures
        cals.len() == 0 ==> next_position(cals) == 0,
        forall|i: int| 0 <= i < cals.len() ==> next_position(cals) > (#[trigger] cals[i]).position,
        cals.len() > 0 ==> exists|i: int| 0 <= i < cals.len() && next_position(cals) == (#[trigger] cals[i]).position + 1,
    decreases cals.len(),
{
    if cals.len() == 1 {
        assert(next_position(cals) == cals[0].position + 1);
    } else if cals.len() > 1 {
        let init = cals.drop_last();
        lemma_next_position_after_all(init);
        assert forall|i: int| 0 <= i < cals.len() implies next_position(cals) > (#[trigger] cals[i]).position by {
            if i < cals.len() - 1 {
                assert(cals[i] == init[i]);
            }
        }
        if cals.last().position + 1 > next_position(init) {
            assert(next_position(cals) == cals[cals.len() - 1].position + 1);
        } else {
            let j = choose|j: int| 0 <= j < init.len() && next_position(init) == (#[trigger] init[j]).position + 1;
            assert(cals[j] == init[j]);
            assert(next_position(cals) == cals[j].position + 1);
        }
    }
}

/// The calendar that `find_calendar` gives is one of the calendars, with the id asked for.
proof fn lemma_find_calendar_member(cals: Seq<CalendarView>, id: Seq<char>)
    requires
        find_calendar(cals, id) is Some,
    ensures
        exists|i: int| 0 <= i < cals.len() && cals[i] == find_calendar(cals, id)->0 && (#[trigger] cals[i]).id == id,
    decreases cals.len(),
{
    if cals[0].id != id {
        let rest = cals.drop_first();
        lemma_find_calendar_member(rest, id);
        let j = choose|j: int| 0 <= j < rest.len() && rest[j] == find_calendar(rest, id)->0 && (#[trigger] rest[j]).id == id;
        assert(cals[j + 1] == rest[j]);
    } else {
        assert(cals[0].id == id);
    }
}

/// An accepted update of a calendar changes the calendar with the given id: each given
/// name and color trimmed, each given source, visibility and position taken as given,
/// every field not given kept, and its id and creation time untouched.
pub proof fn lemma_update_sets_given_fields(
    cals: Seq<CalendarView>,
    id: Seq<char>,
    name: Option<Seq<char>>,
    color: Option<Seq<char>>,
    source: Option<CalendarSource>,
    google_id: Option<Option<Seq<char>>>,
    visible: Option<bool>,
    position: Option<i64>,
)
    requires
        update_outcome(cals, id, name, color, source, google_id, visible, position) is Ok,
    ensures
        ({
            let u = update_outcome(cals, id, name, color, source, google_id, visible, position)->Ok_0;
            exists|i: int| 0 <= i < cals.len() && (#[trigger] cals[i]).id == id && {
                let c = cals[i];
                &&& u.id == id
                &&& u.created_at == c.created_at
                &&& u.deleted_at == c.deleted_at
                &&& u.name == (match name { Some(n) => trim(n), None => c.name })
                &&& u.color == (match color { Some(n) => trim(n), None => c.color })
                &&& u.source == (match source { Some(s) => s, None => c.source })
                &&& u.visible == (match visible { Some(v) => v, None => c.visible })
                &&& u.position == (match position { Some(p) => p, None => c.position })
                &&& (u.source == CalendarSource::Local ==> u.google_id is None)
            }
        }),
{
    lemma_find_calendar_member(cals, id);
}

} // verus!

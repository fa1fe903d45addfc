use vstd::prelude::*;
use vstd::string::StringExecFns;

use crate::calendar_service::{calendar_views, is_imported};
use crate::cli::error::{cli_error, not_found_message, CliError};
use crate::dag::str_eq;
use crate::models::{
    Calendar, CalendarSource, CalendarView, DiscoveredGoogleCalendar, DiscoveredGoogleCalendarView,
    SyncCalendarReport,
};
use crate::text::{has_infix, contains_str};

verus! {

/// The Google calendars of `cals`, in order.
pub open spec fn google_calendars(cals: Seq<CalendarView>) -> Seq<CalendarView> {
    cals.filter(|c: CalendarView| c.source == CalendarSource::Google)
}

/// The Google calendars of `cals` with id `id`, in order.
pub open spec fn google_calendars_with_id(cals: Seq<CalendarView>, id: Seq<char>) -> Seq<CalendarView> {
    google_calendars(cals).filter(|c: CalendarView| c.id == id)
}

/// The Google calendars a sync or status request is about: all of them, or the one
/// with `calendar_id`, which must then exist.
pub fn google_calendars_for(
    calendars: &Vec<Calendar>,
    calendar_id: Option<&str>,
) -> (r: Result<Vec<Calendar>, CliError>)
    ensures
        calendar_id is None ==> r is Ok && calendar_views(r->Ok_0@) == google_calendars(calendar_views(calendars@)),
        calendar_id matches Some(id) ==> {
            let chosen = google_calendars_with_id(calendar_views(calendars@), id@);
            &&& chosen.len() == 0 ==> r is Err && r->Err_0@ == cli_error("not_found"@, not_found_message("google calendar"@, id@))
            &&& chosen.len() != 0 ==> r is Ok && calendar_views(r->Ok_0@) == chosen
        },
{
    let ghost all = calendar_views(calendars@);
    let ghost is_google = |c: CalendarView| c.source == CalendarSource::Google;
    let mut kept: Vec<Calendar> = Vec::new();
    let mut i: usize = 0;
    assert(all.take(0) =~= Seq::<CalendarView>::empty());
    while i < calendars.len()
        invariant
            all == calendar_views(calendars@),
            is_google == (|c: CalendarView| c.source == CalendarSource::Google),
            i <= calendars.len(),
            calendar_views(kept@) == all.take(i as int).filter(is_google),
        decreases calendars.len() - i,
    {
        assert(all.take(i + 1) =~= all.take(i as int).push(all[i as int]));
        proof {
            all.take(i as int).lemma_filter_push(all[i as int], is_google);
        }
        if calendars[i].source == CalendarSource::Google {
            let ghost before = kept@;
            kept.push(calendars[i].clone());
            assert(calendar_views(kept@) =~= calendar_views(before).push(all[i as int]));
        }
        i = i + 1;
    }
    assert(all.take(calendars.len() as int) =~= all);
    let id = match calendar_id {
        Some(id) => id,
        None => {
            return Ok(kept);
        },
    };
    let ghost google = calendar_views(kept@);
    let ghost same_id = |c: CalendarView| c.id == id@;
    let mut chosen: Vec<Calendar> = Vec::new();
    let mut j: usize = 0;
    assert(google.take(0) =~= Seq::<CalendarView>::empty());
    while j < kept.len()
        invariant
            google == calendar_views(kept@),
            same_id == (|c: CalendarView| c.id == id@),
            j <= kept.len(),
            calendar_views(chosen@) == google.take(j as int).filter(same_id),
        decreases kept.len() - j,
    {
        assert(google.take(j + 1) =~= google.take(j as int).push(google[j as int]));
        proof {
            google.take(j as int).lemma_filter_push(google[j as int], same_id);
        }
        if str_eq(kept[j].id.as_str(), id) {
            let ghost before = chosen@;
            chosen.push(kept[j].clone());
            assert(calendar_views(chosen@) =~= calendar_views(before).push(google[j as int]));
        }
        j = j + 1;
    }
    assert(google.take(kept.len() as int) =~= google);
    if chosen.len() == 0 {
        return Err(CliError::not_found("google calendar", id));
    }
    Ok(chosen)
}

/// The Google calendars `google sync` works on; refuses when there are none.
pub fn google_calendars_to_sync(
    calendars: &Vec<Calendar>,
    calendar_id: Option<&str>,
) -> (r: Result<Vec<Calendar>, CliError>)
    ensures
        calendar_id is None ==> {
            let chosen = google_calendars(calendar_views(calendars@));
            &&& chosen.len() == 0 ==> r is Err && r->Err_0@ == cli_error("conflict"@, "no google calendars found to sync"@)
            &&& chosen.len() != 0 ==> r is Ok && calendar_views(r->Ok_0@) == chosen
        },
        calendar_id matches Some(id) ==> {
            let chosen = google_calendars_with_id(calendar_views(calendars@), id@);
            &&& chosen.len() == 0 ==> r is Err && r->Err_0@ == cli_error("not_found"@, not_found_message("google calendar"@, id@))
            &&& chosen.len() != 0 ==> r is Ok && calendar_views(r->Ok_0@) == chosen
        },
{
    let chosen = google_calendars_for(calendars, calendar_id)?;
    if chosen.len() == 0 {
        return Err(CliError::conflict(String::from_str("no google calendars found to sync")));
    }
    Ok(chosen)
}

/// What one calendar's sync reports back to the user.
#[derive(Debug)]
pub struct SyncCalendarData {
    pub calendar_id: String,
    pub calendar_name: String,
    pub google_id: Option<String>,
    pub events_added: usize,
    pub events_updated: usize,
    pub pushed_creates: usize,
    pub pushed_updates: usize,
    pub pushed_deletes: usize,
    pub conflicts_detected: usize,
}

/// What a whole `google sync` reports back.
#[derive(Debug)]
pub struct GoogleSyncSummary {
    pub calendars_synced: usize,
    pub events_added: usize,
    pub events_updated: usize,
    pub conflicts_detected: usize,
    pub results: Vec<SyncCalendarData>,
}

/// Events added over the first `n` reports.
pub open spec fn total_added(reports: Seq<SyncCalendarReport>, n: int) -> int
    decreases n,
{
    if n <= 0 { 0 } else { total_added(reports, n - 1) + reports[n - 1].events_added }
}

/// Events updated (pulled or pushed) over the first `n` reports.
pub open spec fn total_updated(reports: Seq<SyncCalendarReport>, n: int) -> int
    decreases n,
{
    if n <= 0 { 0 } else { total_updated(reports, n - 1) + reports[n - 1].events_updated + reports[n - 1].pushed_updates }
}

/// Conflicts detected over the first `n` reports.
pub open spec fn total_conflicts(reports: Seq<SyncCalendarReport>, n: int) -> int
    decreases n,
{
    if n <= 0 { 0 } else { total_conflicts(reports, n - 1) + reports[n - 1].conflicts_detected }
}

proof fn lemma_totals_monotone(reports: Seq<SyncCalendarReport>, i: int, n: int)
    requires
        0 <= i <= n,
    ensures
        total_added(reports, i) <= total_added(reports, n),
        total_updated(reports, i) <= total_updated(reports, n),
        total_conflicts(reports, i) <= total_conflicts(reports, n),
    decreases n - i,
{
    if i < n {
        lemma_totals_monotone(reports, i, n - 1);
    }
}

/// Sums the reports of the synced calendars (`reports[i]` belongs to `calendars[i]`);
/// an update counts whether it was pulled from or pushed to Google.
pub fn summarize_google_sync(calendars: &Vec<Calendar>, reports: &Vec<SyncCalendarReport>) -> (r: GoogleSyncSummary)
    requires
        calendars.len() == reports.len(),
        total_added(reports@, reports.len() as int) <= usize::MAX,
        total_updated(reports@, reports.len() as int) <= usize::MAX,
        total_conflicts(reports@, reports.len() as int) <= usize::MAX,
    ensures
        r.calendars_synced == calendars.len(),
        r.events_added == total_added(reports@, reports.len() as int),
        r.events_updated == total_updated(reports@, reports.len() as int),
        r.conflicts_detected == total_conflicts(reports@, reports.len() as int),
        r.results.len() == calendars.len(),
        forall|i: int| 0 <= i < calendars.len() ==> {
            let d = #[trigger] r.results@[i];
            &&& d.calendar_id@ == calendars@[i].id@
            &&& d.calendar_name@ == calendars@[i].name@
            &&& d.google_id == calendars@[i].google_id
            &&& d.events_added == reports@[i].events_added
            &&& d.events_updated == reports@[i].events_updated + reports@[i].pushed_updates
            &&& d.pushed_creates == reports@[i].pushed_creates
            &&& d.pushed_updates == reports@[i].pushed_updates
            &&& d.pushed_deletes == reports@[i].pushed_deletes
            &&& d.conflicts_detected == reports@[i].conflicts_detected
        },
{
    let mut results: Vec<SyncCalendarData> = Vec::new();
    let mut total_a: usize = 0;
    let mut total_u: usize = 0;
    let mut total_c: usize = 0;
    let n = reports.len();
    let mut i: usize = 0;
    while i < n
        invariant
            n == reports.len() == calendars.len(),
            i <= n,
            total_added(reports@, n as int) <= usize::MAX,
            total_updated(reports@, n as int) <= usize::MAX,
            total_conflicts(reports@, n as int) <= usize::MAX,
            total_a == total_added(reports@, i as int),
            total_u == total_updated(reports@, i as int),
            total_c == total_conflicts(reports@, i as int),
            results.len() == i,
            forall|k: int| 0 <= k < i ==> {
                let d = #[trigger] results@[k];
                &&& d.calendar_id@ == calendars@[k].id@
                &&& d.calendar_name@ == calendars@[k].name@
                &&& d.google_id == calendars@[k].google_id
                &&& d.events_added == reports@[k].events_added
                &&& d.events_updated == reports@[k].events_updated + reports@[k].pushed_updates
                &&& d.pushed_creates == reports@[k].pushed_creates
                &&& d.pushed_updates == reports@[k].pushed_updates
                &&& d.pushed_deletes == reports@[k].pushed_deletes
                &&& d.conflicts_detected == reports@[k].conflicts_detected
            },
        decreases n - i,
    {
        let report = reports[i];
        let calendar = &calendars[i];
        proof {
            lemma_totals_monotone(reports@, i + 1, n as int);
        }
        total_a = total_a + report.events_added;
        let updated = report.events_updated + report.pushed_updates;
        total_u = total_u + updated;
        total_c = total_c + report.conflicts_detected;
        results.push(SyncCalendarData {
            calendar_id: calendar.id.clone(),
            calendar_name: calendar.name.clone(),
            google_id: calendar.google_id.clone(),
            events_added: report.events_added,
            events_updated: updated,
            pushed_creates: report.pushed_creates,
            pushed_updates: report.pushed_updates,
            pushed_deletes: report.pushed_deletes,
            conflicts_detected: report.conflicts_detected,
        });
        i = i + 1;
    }
    GoogleSyncSummary {
        calendars_synced: results.len(),
        events_added: total_a,
        events_updated: total_u,
        conflicts_detected: total_c,
        results,
    }
}

/// The counts a configured sync outcome stands for: its error, or its added and
/// updated counts (zero when absent).
pub fn override_counts(
    added: Option<usize>,
    updated: Option<usize>,
    error: Option<String>,
) -> (r: Result<(usize, usize), CliError>)
    ensures
        error matches Some(m) ==> r is Err && r->Err_0@ == cli_error("external_error"@, m@),
        error is None ==> r == Ok::<(usize, usize), CliError>(
            (
                match added { Some(a) => a, None => 0 },
                match updated { Some(u) => u, None => 0 },
            ),
        ),
{
    if let Some(error) = error {
        return Err(CliError::external(error));
    }
    Ok((added.unwrap_or(0), updated.unwrap_or(0)))
}

/// One discovered Google calendar as `google calendars discover` lists it.
#[derive(Debug)]
pub struct GoogleCalendarDiscoveryData {
    pub google_id: String,
    pub name: String,
    pub color: String,
    pub primary: bool,
    pub access_role: Option<String>,
    pub writable: bool,
    pub imported: bool,
}

/// Lists the discovered Google calendars, marking those already imported.
pub fn discovery_rows(
    calendars: &Vec<Calendar>,
    discovered: Vec<DiscoveredGoogleCalendar>,
) -> (r: Vec<GoogleCalendarDiscoveryData>)
    ensures
        r.len() == discovered.len(),
        forall|i: int| 0 <= i < discovered.len() ==> {
            let d = #[trigger] r@[i];
            &&& d.google_id == discovered@[i].google_id
            &&& d.name == discovered@[i].name
            &&& d.color == discovered@[i].color
            &&& d.primary == discovered@[i].primary
            &&& d.access_role == discovered@[i].access_role
            &&& d.writable == discovered@[i].writable
            &&& d.imported == is_imported(calendar_views(calendars@), discovered@[i].google_id@)
        },
{
    let mut rows: Vec<GoogleCalendarDiscoveryData> = Vec::new();
    let mut i: usize = 0;
    while i < discovered.len()
        invariant
            i <= discovered.len(),
            rows.len() == i,
            forall|k: int| 0 <= k < i ==> {
                let d = #[trigger] rows@[k];
                &&& d.google_id == discovered@[k].google_id
                &&& d.name == discovered@[k].name
                &&& d.color == discovered@[k].color
                &&& d.primary == discovered@[k].primary
                &&& d.access_role == discovered@[k].access_role
                &&& d.writable == discovered@[k].writable
                &&& d.imported == is_imported(calendar_views(calendars@), discovered@[k].google_id@)
            },
        decreases discovered.len() - i,
    {
        let c = &discovered[i];
        let imported = crate::calendar_service::google_id_imported(calendars, &c.google_id);
        rows.push(GoogleCalendarDiscoveryData {
            google_id: c.google_id.clone(),
            name: c.name.clone(),
            color: c.color.clone(),
            primary: c.primary,
            access_role: c.access_role.clone(),
            writable: c.writable,
            imported,
        });
        i = i + 1;
    }
    rows
}

/// The discovered calendar that `google calendars import` names.
pub fn find_discovered(
    discovered: Vec<DiscoveredGoogleCalendar>,
    google_id: &str,
) -> (r: Result<DiscoveredGoogleCalendar, CliError>)
    ensures
        r matches Ok(d) ==> exists|i: int|
            0 <= i < discovered.len() && discovered@[i] == d && d.google_id@ == google_id@ && forall|j: int|
                0 <= j < i ==> #[trigger] discovered@[j].google_id@ != google_id@,
        r is Err ==> r->Err_0@ == cli_error("not_found"@, not_found_message("google calendar"@, google_id@))
            && forall|i: int| 0 <= i < discovered.len() ==> #[trigger] discovered@[i].google_id@ != google_id@,
{
    let mut i: usize = 0;
    while i < discovered.len()
        invariant
            i <= discovered.len(),
            forall|k: int| 0 <= k < i ==> #[trigger] discovered@[k].google_id@ != google_id@,
        decreases discovered.len() - i,
    {
        if str_eq(discovered[i].google_id.as_str(), google_id) {
            let found = discovered[i].clone();
            assert(discovered@[i as int] == found);
            assert(0 <= i < discovered.len() && discovered@[i as int] == found && found.google_id@ == google_id@
                && forall|j: int| 0 <= j < i ==> #[trigger] discovered@[j].google_id@ != google_id@);
            return Ok(found);
        }
        i = i + 1;
    }
    Err(CliError::not_found("google calendar", google_id))
}

/// How a Google sync conflict is settled.
#[derive(Debug, Clone, Copy, PartialEq, Eq, Structural)]
pub enum ConflictResolutionStrategy {
    KeepLocal,
    KeepRemote,
}

/// The strategy an argument names.
pub fn conflict_strategy_from_arg(strategy: crate::cli::args::ConflictStrategyArg) -> (r: ConflictResolutionStrategy)
    ensures
        strategy == crate::cli::args::ConflictStrategyArg::KeepLocal ==> r == ConflictResolutionStrategy::KeepLocal,
        strategy == crate::cli::args::ConflictStrategyArg::KeepRemote ==> r == ConflictResolutionStrategy::KeepRemote,
{
    match strategy {
        crate::cli::args::ConflictStrategyArg::KeepLocal => ConflictResolutionStrategy::KeepLocal,
        crate::cli::args::ConflictStrategyArg::KeepRemote => ConflictResolutionStrategy::KeepRemote,
    }
}

/// The command error for a failed conflict resolution: a message that says
/// "not found" means the conflict does not exist.
pub fn conflict_resolution_error(id: &str, message: String) -> (e: CliError)
    ensures
        has_infix(message@, "not found"@) ==> e@ == cli_error("not_found"@, not_found_message("conflict"@, id@)),
        !has_infix(message@, "not found"@) ==> e@ == cli_error("internal_error"@, message@),
{
    if contains_str(message.as_str(), "not found") {
        CliError::not_found("conflict", id)
    } else {
        CliError::internal(message)
    }
}

/// The credentials of `google auth login`: given ones first, then saved ones;
/// a client id is required.
pub fn login_credentials(
    client_id: Option<String>,
    client_secret: Option<String>,
    saved: Option<(String, Option<String>)>,
) -> (r: Result<(String, Option<String>), CliError>)
    ensures
        client_id is None && saved is None ==> r is Err && r->Err_0@ == cli_error(
            "validation_error"@,
            "google auth login requires --client-id or saved credentials"@,
        ),
        client_id is Some || saved is Some ==> r is Ok && r->Ok_0.0 == match client_id {
            Some(c) => c,
            None => match saved { Some(x) => x.0, None => arbitrary() },
        } && r->Ok_0.1 == match client_secret {
            Some(s) => Some(s),
            None => match saved { Some(x) => x.1, None => None },
        },
{
    let (saved_id, saved_secret) = match saved {
        Some((id, secret)) => (Some(id), secret),
        None => (None, None),
    };
    let id = match client_id {
        Some(c) => c,
        None => match saved_id {
            Some(s) => s,
            None => {
                return Err(CliError::validation(String::from_str(
                    "google auth login requires --client-id or saved credentials",
                )));
            },
        },
    };
    let secret = match client_secret {
        Some(s) => Some(s),
        None => saved_secret,
    };
    Ok((id, secret))
}

/// Totals over a prefix of `a` are the same over `a` followed by anything.
proof fn lemma_totals_prefix(a: Seq<SyncCalendarReport>, b: Seq<SyncCalendarReport>, i: int)
    requires
        0 <= i <= a.len(),
    ensures
        total_added(a + b, i) == total_added(a, i),
        total_updated(a + b, i) == total_updated(a, i),
        total_conflicts(a + b, i) == total_conflicts(a, i),
    decreases i,
{
    if i > 0 {
        lemma_totals_prefix(a, b, i - 1);
        assert((a + b)[i - 1] == a[i - 1]);
    }
}

proof fn lemma_totals_concat_upto(a: Seq<SyncCalendarReport>, b: Seq<SyncCalendarReport>, k: int)
    requires
        0 <= k <= b.len(),
    ensures
        total_added(a + b, a.len() as int + k) == total_added(a, a.len() as int) + total_added(b, k),
        total_updated(a + b, a.len() as int + k) == total_updated(a, a.len() as int) + total_updated(b, k),
        total_conflicts(a + b, a.len() as int + k) == total_conflicts(a, a.len() as int) + total_conflicts(b, k),
    decreases k,
{
    if k == 0 {
        lemma_totals_prefix(a, b, a.len() as int);
    } else {
        lemma_totals_concat_upto(a, b, k - 1);
        assert((a + b)[a.len() + k - 1] == b[k - 1]);
    }
}

/// The totals of a sync add up: no report gives nothing, one report gives its own
/// counts (updates pulled or pushed), and the reports of two runs together give the
/// sum of their totals.
pub proof fn lemma_sync_totals_add_up(a: Seq<SyncCalendarReport>, b: Seq<SyncCalendarReport>, r: SyncCalendarReport)
    ensures
        total_added(Seq::<SyncCalendarReport>::empty(), 0) == 0,
        total_updated(Seq::<SyncCalendarReport>::empty(), 0) == 0,
        total_conflicts(Seq::<SyncCalendarReport>::empty(), 0) == 0,
        total_added(seq![r], 1) == r.events_added,
        total_updated(seq![r], 1) == r.events_updated + r.pushed_updates,
        total_conflicts(seq![r], 1) == r.conflicts_detected,
        total_added(a + b, (a.len() + b.len()) as int) == total_added(a, a.len() as int) + total_added(b, b.len() as int),
        total_updated(a + b, (a.len() + b.len()) as int) == total_updated(a, a.len() as int) + total_updated(b, b.len() as int),
        total_conflicts(a + b, (a.len() + b.len()) as int) == total_conflicts(a, a.len() as int) + total_conflicts(b, b.len() as int),
{
    let one = seq![r];
    assert(one[0] == r);
    assert(total_conflicts(one, 0) == 0);
    assert(total_added(one, 0) == 0);
    assert(total_updated(one, 0) == 0);
    lemma_totals_concat_upto(a, b, b.len() as int);
}

/// Every report's counts are part of the totals.
pub proof fn lemma_sync_totals_count_each(reports: Seq<SyncCalendarReport>, i: int)
    requires
        0 <= i < reports.len(),
    ensures
        total_added(reports, reports.len() as int) >= reports[i].events_added,
        total_updated(reports, reports.len() as int) >= reports[i].events_updated + reports[i].pushed_updates,
        total_conflicts(reports, reports.len() as int) >= reports[i].conflicts_detected,
{
    lemma_totals_monotone(reports, i + 1, reports.len() as int);
    lemma_totals_monotone(reports, 0, i);
}

} // verus!

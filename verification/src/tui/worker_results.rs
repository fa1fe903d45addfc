use vstd::prelude::*;
use vstd::string::StringExecFns;

use crate::availability::{all_window_texts, availability_to_specs, join};
use crate::dag::str_eq;
use crate::models::{CalendarSyncState, Event};
use crate::text::{decimal, decimal_string, int_string, int_text};
use crate::tui::keys::Screen;
use crate::tui::state::{all_form_ready, App, Effect, WorkerResult};
use crate::tui::{default_availability_text, default_weekly_availability, google_sync_finished_status, sync_status_spec};

verus! {

/// `evs` without the events with id `id`, in order.
pub open spec fn events_without(evs: Seq<Event>, id: Seq<char>) -> Seq<Event>
    decreases evs.len(),
{
    if evs.len() == 0 {
        Seq::empty()
    } else {
        let rest = events_without(evs.drop_last(), id);
        if evs.last().id@ == id {
            rest
        } else {
            rest.push(evs.last())
        }
    }
}

/// `s` without the sync states of the calendar `id`, in order.
pub open spec fn drop_calendar_state(s: Seq<CalendarSyncState>, id: Seq<char>) -> Seq<CalendarSyncState>
    decreases s.len(),
{
    if s.len() == 0 {
        Seq::empty()
    } else {
        let rest = drop_calendar_state(s.drop_last(), id);
        if s.last().calendar_id@ == id {
            rest
        } else {
            rest.push(s.last())
        }
    }
}

/// The sync states as a map keyed by calendar id holds them: for each calendar, the last
/// state given for it.
pub open spec fn last_state_per_calendar(s: Seq<CalendarSyncState>) -> Seq<CalendarSyncState>
    decreases s.len(),
{
    if s.len() == 0 {
        Seq::empty()
    } else {
        drop_calendar_state(last_state_per_calendar(s.drop_last()), s.last().calendar_id@).push(s.last())
    }
}

/// No two sync states are for the same calendar.
pub open spec fn one_state_per_calendar(s: Seq<CalendarSyncState>) -> bool {
    forall|i: int, j: int| 0 <= i < j < s.len() ==> #[trigger] s[i].calendar_id@ != #[trigger] s[j].calendar_id@
}

proof fn lemma_drop_calendar_state(s: Seq<CalendarSyncState>, id: Seq<char>)
    ensures
        forall|i: int| 0 <= i < drop_calendar_state(s, id).len() ==> s.contains(#[trigger] drop_calendar_state(s, id)[i])
            && drop_calendar_state(s, id)[i].calendar_id@ != id,
        one_state_per_calendar(s) ==> one_state_per_calendar(drop_calendar_state(s, id)),
    decreases s.len(),
{
    if s.len() > 0 {
        let rest = s.drop_last();
        lemma_drop_calendar_state(rest, id);
        let d = drop_calendar_state(s, id);
        assert forall|i: int| 0 <= i < d.len() implies s.contains(#[trigger] d[i]) && d[i].calendar_id@ != id by {
            if i < drop_calendar_state(rest, id).len() {
                let x = drop_calendar_state(rest, id)[i];
                assert(rest.contains(x));
                let k = choose|k: int| 0 <= k < rest.len() && rest[k] == x;
                assert(s[k] == x);
            } else {
                assert(s[s.len() - 1] == s.last());
            }
        }
        if one_state_per_calendar(s) {
            assert(one_state_per_calendar(rest)) by {
                assert forall|i: int, j: int| 0 <= i < j < rest.len() implies #[trigger] rest[i].calendar_id@
                    != #[trigger] rest[j].calendar_id@ by {
                    assert(rest[i] == s[i] && rest[j] == s[j]);
                }
            }
            let r = drop_calendar_state(rest, id);
            if s.last().calendar_id@ != id {
                assert forall|i: int, j: int| 0 <= i < j < d.len() implies #[trigger] d[i].calendar_id@
                    != #[trigger] d[j].calendar_id@ by {
                    if j == d.len() - 1 {
                        assert(d[j] == s.last());
                        assert(rest.contains(r[i]));
                        let k = choose|k: int| 0 <= k < rest.len() && rest[k] == r[i];
                        assert(s[k] == r[i]);
                        assert(s[s.len() - 1] == s.last());
                    } else {
                        assert(d[i] == r[i] && d[j] == r[j]);
                    }
                }
            }
        }
    }
}

/// Keeping the last state of each calendar leaves one state per calendar.
pub proof fn lemma_one_state_per_calendar(s: Seq<CalendarSyncState>)
    ensures
        one_state_per_calendar(last_state_per_calendar(s)),
    decreases s.len(),
{
    if s.len() > 0 {
        let prev = last_state_per_calendar(s.drop_last());
        lemma_one_state_per_calendar(s.drop_last());
        lemma_drop_calendar_state(prev, s.last().calendar_id@);
        let d = drop_calendar_state(prev, s.last().calendar_id@);
        let r = last_state_per_calendar(s);
        assert forall|i: int, j: int| 0 <= i < j < r.len() implies #[trigger] r[i].calendar_id@
            != #[trigger] r[j].calendar_id@ by {
            if j == r.len() - 1 {
                assert(r[i] == d[i]);
            } else {
                assert(r[i] == d[i] && r[j] == d[j]);
            }
        }
    }
}

fn drop_states_of(kept: &Vec<CalendarSyncState>, id: &String) -> (r: Vec<CalendarSyncState>)
    ensures
        r@ == drop_calendar_state(kept@, id@),
{
    let mut out: Vec<CalendarSyncState> = Vec::new();
    let mut i: usize = 0;
    while i < kept.len()
        invariant
            i <= kept@.len(),
            out@ == drop_calendar_state(kept@.take(i as int), id@),
        decreases kept@.len() - i,
    {
        assert(kept@.take(i + 1).drop_last() =~= kept@.take(i as int));
        if !str_eq(kept[i].calendar_id.as_str(), id.as_str()) {
            out.push(kept[i].clone());
        }
        assert(out@ =~= drop_calendar_state(kept@.take(i + 1), id@));
        i += 1;
    }
    assert(kept@.take(kept@.len() as int) =~= kept@);
    out
}

/// Keeps, for each calendar, the last of its sync states.
fn last_states(states: &Vec<CalendarSyncState>) -> (r: Vec<CalendarSyncState>)
    ensures
        r@ == last_state_per_calendar(states@),
{
    let mut kept: Vec<CalendarSyncState> = Vec::new();
    let mut i: usize = 0;
    while i < states.len()
        invariant
            i <= states@.len(),
            kept@ == last_state_per_calendar(states@.take(i as int)),
        decreases states@.len() - i,
    {
        assert(states@.take(i + 1).drop_last() =~= states@.take(i as int));
        let mut next = drop_states_of(&kept, &states[i].calendar_id);
        next.push(states[i].clone());
        kept = next;
        assert(kept@ =~= last_state_per_calendar(states@.take(i + 1)));
        i += 1;
    }
    assert(states@.take(states@.len() as int) =~= states@);
    kept
}

/// A worker result may be handed to the interface: the events it carries can be shown in
/// the event form.
pub open spec fn acceptable(r: WorkerResult) -> bool {
    match r {
        WorkerResult::EventsLoaded { events } => all_form_ready(events@),
        _ => true,
    }
}

/// The availability text the planner settings form shows for stored settings: the stored
/// windows, or working hours on weekdays when there are none or they do not read.
pub open spec fn availability_text_for(avail: Option<crate::availability::Availability>) -> Seq<char> {
    match avail {
        Some(m) => if join(all_window_texts(m@), ", "@).len() > 0 {
            join(all_window_texts(m@), ", "@)
        } else {
            default_availability_text()
        },
        None => default_availability_text(),
    }
}

/// The events of the loaded month are asked for again.
pub open spec fn reload_loaded(a: App) -> Effect {
    Effect::LoadEvents { year: a.view_year, month: a.view_month }
}

/// `b` and `effects` are what `a` makes of the worker result `r`.
pub open spec fn result_applied(a: App, b: App, r: WorkerResult, effects: Seq<Effect>) -> bool {
    match r {
        WorkerResult::CalendarsLoaded(cals) => {
            &&& b == App { calendars: cals, loading: false, ..a }
            &&& effects == seq![reload_loaded(a)]
        },
        WorkerResult::CalendarSyncStatesLoaded(states) => {
            &&& b == App { calendar_sync_state: b.calendar_sync_state, ..a }
            &&& b.calendar_sync_state@ == last_state_per_calendar(states@)
            &&& effects.len() == 0
        },
        WorkerResult::ProjectsLoaded(projects) => {
            &&& b == App { projects, ..a }
            &&& effects.len() == 0
        },
        WorkerResult::EventsLoaded { events } => {
            &&& b == App { events, loading: false, ..a }
            &&& effects.len() == 0
        },
        WorkerResult::DependenciesLoaded(deps) => {
            &&& b == App { dependencies: deps, ..a }
            &&& effects.len() == 0
        },
        WorkerResult::PlannerTasksLoaded { count } => {
            &&& b == App {
                planner_task_count: count,
                planner_selected_index: if count == 0 {
                    0
                } else if a.planner_selected_index < count {
                    a.planner_selected_index
                } else {
                    (count - 1) as usize
                },
                ..a
            }
            &&& effects.len() == 0
        },
        WorkerResult::PlannerSettingsLoaded(settings) => {
            &&& b == App {
                planner_settings_timezone: b.planner_settings_timezone,
                planner_settings_availability: b.planner_settings_availability,
                planner_settings_horizon_days: b.planner_settings_horizon_days,
                planner_settings_slot_minutes: b.planner_settings_slot_minutes,
                planner_settings_solve_seconds: b.planner_settings_solve_seconds,
                planner_settings: Some(settings),
                loading: false,
                ..a
            }
            &&& b.planner_settings_timezone@ == match settings.timezone {
                Some(tz) => tz@,
                None => a.default_timezone@,
            }
            &&& b.planner_settings_availability@ == availability_text_for(settings.availability)
            &&& b.planner_settings_horizon_days@ == int_text(settings.horizon_days as int)
            &&& b.planner_settings_slot_minutes@ == int_text(settings.slot_minutes as int)
            &&& b.planner_settings_solve_seconds@ == int_text(settings.solve_seconds as int)
            &&& effects.len() == 0
        },
        WorkerResult::PlannerProposalReady(p) => {
            &&& b == App {
                planner_proposal: Some(p),
                loading: false,
                status_message: b.status_message,
                status_is_error: false,
                ..a
            }
            &&& b.status_message@ == "Planner proposal is ready for review; press a to apply."@
            &&& effects.len() == 0
        },
        WorkerResult::PlannerProposalApplied(p) => {
            &&& b == App {
                planner_proposal: Some(p),
                loading: false,
                status_message: b.status_message,
                status_is_error: false,
                ..a
            }
            &&& b.status_message@ == "Scheduled planner tasks were applied."@
            &&& effects == seq![Effect::LoadPlannerTasks, reload_loaded(a)]
        },
        WorkerResult::EventSaved(ev) => {
            &&& b == App { view: Screen::Month, status_message: b.status_message, status_is_error: false, ..a }
            &&& b.status_message@ == "Saved: "@ + ev.title@
            &&& effects == seq![reload_loaded(a)]
        },
        WorkerResult::EventDeleted(id) => {
            &&& b == App {
                events: b.events,
                status_message: b.status_message,
                status_is_error: false,
                ..a
            }
            &&& b.events@ == events_without(a.events@, id@)
            &&& b.status_message@ == "Event deleted."@
            &&& effects.len() == 0
        },
        WorkerResult::GoogleAuthComplete => {
            &&& b == App {
                google_connected: true,
                view: Screen::GoogleManage,
                loading: false,
                status_message: b.status_message,
                status_is_error: false,
                ..a
            }
            &&& b.status_message@ == "Loading Google calendars…"@
            &&& effects == seq![Effect::LoadCalendarSyncStates, Effect::DiscoverGoogleCalendars]
        },
        WorkerResult::GoogleCalendarsDiscovered(cals) => {
            &&& b == App {
                google_discovered_calendars: cals,
                google_discovery_index: if a.google_discovery_index < cals@.len() {
                    a.google_discovery_index
                } else if cals@.len() == 0 {
                    0
                } else {
                    (cals@.len() - 1) as usize
                },
                view: Screen::GoogleManage,
                loading: false,
                status_message: b.status_message,
                status_is_error: false,
                ..a
            }
            &&& b.status_message@ == "Google calendar discovery updated."@
            &&& effects.len() == 0
        },
        WorkerResult::GoogleSyncFinished {
            calendars_succeeded,
            calendars_failed,
            events_added,
            events_updated,
            conflicts_detected,
        } => {
            let s = sync_status_spec(
                calendars_succeeded as nat,
                calendars_failed as nat,
                events_added as nat,
                events_updated as nat,
                conflicts_detected as nat,
            );
            &&& b == App { status_message: b.status_message, status_is_error: s.1, loading: false, ..a }
            &&& b.status_message@ == s.0
            &&& effects == seq![reload_loaded(a), Effect::LoadCalendarSyncStates]
        },
        WorkerResult::IcalImported { imported, path, warnings } => {
            &&& b == App {
                view: Screen::Month,
                status_message: b.status_message,
                status_is_error: false,
                loading: false,
                ..a
            }
            &&& b.status_message@ == "Imported "@ + decimal(imported as nat) + " events from "@ + path@ + "."@
                + if warnings == 0 {
                Seq::empty()
            } else {
                " "@ + decimal(warnings as nat) + " warnings."@
            }
            &&& effects == seq![reload_loaded(a), Effect::LoadCalendarSyncStates]
        },
        WorkerResult::StatusMessage(msg) => {
            &&& b == App { status_message: msg, status_is_error: false, loading: false, ..a }
            &&& effects.len() == 0
        },
        WorkerResult::Error(e) => {
            &&& b == App { status_message: e, status_is_error: true, loading: false, ..a }
            &&& effects.len() == 0
        },
    }
}

fn remove_events_with_id(events: &Vec<Event>, id: &String) -> (r: Vec<Event>)
    ensures
        r@ == events_without(events@, id@),
{
    let mut kept: Vec<Event> = Vec::new();
    let mut i: usize = 0;
    while i < events.len()
        invariant
            i <= events@.len(),
            kept@ == events_without(events@.take(i as int), id@),
        decreases events@.len() - i,
    {
        assert(events@.take(i + 1).drop_last() =~= events@.take(i as int));
        if !str_eq(events[i].id.as_str(), id.as_str()) {
            kept.push(events[i].clone());
        }
        assert(kept@ =~= events_without(events@.take(i + 1), id@));
        i += 1;
    }
    assert(events@.take(events@.len() as int) =~= events@);
    kept
}

impl App {
    /// One tick of the interface clock, which drives the cursor blink.
    pub fn handle_tick(&mut self)
        ensures
            *final(self) == (App { tick_count: if old(self).tick_count < u64::MAX {
                (old(self).tick_count + 1) as u64
            } else {
                0
            }, ..*old(self) }),
    {
        self.tick_count = if self.tick_count < u64::MAX {
            self.tick_count + 1
        } else {
            0
        };
    }

    /// Takes in what the background worker reports and returns the work it calls for.
    #[verifier::rlimit(40)]
    pub fn handle_worker_result(&mut self, result: WorkerResult) -> (r: Vec<Effect>)
        requires
            old(self).wf(),
            acceptable(result),
        ensures
            result_applied(*old(self), *final(self), result, r@),
            final(self).wf(),
    {
        let ghost before = *self;
        match result {
            WorkerResult::CalendarsLoaded(cals) => {
                self.calendars = cals;
                self.loading = false;
                let effects = vec![Effect::LoadEvents { year: self.view_year, month: self.view_month }];
                assert(effects@ =~= seq![reload_loaded(before)]);
                effects
            },
            WorkerResult::CalendarSyncStatesLoaded(states) => {
                self.calendar_sync_state = last_states(&states);
                proof {
                    lemma_one_state_per_calendar(states@);
                }
                Vec::new()
            },
            WorkerResult::ProjectsLoaded(projects) => {
                self.projects = projects;
                Vec::new()
            },
            WorkerResult::EventsLoaded { events } => {
                self.events = events;
                self.loading = false;
                Vec::new()
            },
            WorkerResult::DependenciesLoaded(deps) => {
                self.dependencies = deps;
                Vec::new()
            },
            WorkerResult::PlannerTasksLoaded { count } => {
                self.planner_task_count = count;
                let last = if count == 0 {
                    0
                } else {
                    count - 1
                };
                if self.planner_selected_index > last {
                    self.planner_selected_index = last;
                }
                Vec::new()
            },
            WorkerResult::PlannerSettingsLoaded(settings) => self.apply_settings_loaded(settings),
            WorkerResult::PlannerProposalReady(proposal) => {
                self.planner_proposal = Some(proposal);
                self.loading = false;
                self.set_status(String::from_str("Planner proposal is ready for review; press a to apply."), false);
                Vec::new()
            },
            WorkerResult::PlannerProposalApplied(proposal) => self.apply_proposal_applied(proposal),
            WorkerResult::EventSaved(ev) => self.apply_event_saved(ev),
            WorkerResult::EventDeleted(id) => self.apply_event_deleted(id),
            WorkerResult::GoogleAuthComplete => self.apply_auth_complete(),
            WorkerResult::GoogleCalendarsDiscovered(cals) => self.apply_discovered(cals),
            WorkerResult::GoogleSyncFinished {
                calendars_succeeded,
                calendars_failed,
                events_added,
                events_updated,
                conflicts_detected,
            } => self.apply_sync_finished(
                calendars_succeeded,
                calendars_failed,
                events_added,
                events_updated,
                conflicts_detected,
            ),
            WorkerResult::IcalImported { imported, path, warnings } => self.apply_ical_imported(
                imported,
                path,
                warnings,
            ),
            WorkerResult::StatusMessage(msg) => {
                self.set_status(msg, false);
                self.loading = false;
                Vec::new()
            },
            WorkerResult::Error(e) => {
                self.set_status(e, true);
                self.loading = false;
                Vec::new()
            },
        }
    }

    fn apply_settings_loaded(&mut self, settings: crate::tui::state::PlannerSettings) -> (r: Vec<Effect>)
        requires
            old(self).wf(),
        ensures
            result_applied(*old(self), *final(self), WorkerResult::PlannerSettingsLoaded(settings), r@),
            final(self).wf(),
    {
        self.planner_settings_timezone = match &settings.timezone {
            Some(tz) => tz.clone(),
            None => self.default_timezone.clone(),
        };
        let shown = match &settings.availability {
            Some(avail) => availability_to_specs(avail),
            None => String::new(),
        };
        self.planner_settings_availability = if shown.as_str().unicode_len() > 0 {
            shown
        } else {
            default_weekly_availability()
        };
        self.planner_settings_horizon_days = int_string(settings.horizon_days);
        self.planner_settings_slot_minutes = int_string(settings.slot_minutes);
        self.planner_settings_solve_seconds = int_string(settings.solve_seconds);
        self.planner_settings = Some(settings);
        self.loading = false;
        Vec::new()
    }

    fn apply_event_deleted(&mut self, id: String) -> (r: Vec<Effect>)
        requires
            old(self).wf(),
        ensures
            result_applied(*old(self), *final(self), WorkerResult::EventDeleted(id), r@),
            final(self).wf(),
    {
        let ghost before = *self;
        self.events = remove_events_with_id(&self.events, &id);
        proof {
            lemma_without_keeps_ready(before.events@, id@);
        }
        self.set_status(String::from_str("Event deleted."), false);
        Vec::new()
    }

    fn apply_auth_complete(&mut self) -> (r: Vec<Effect>)
        requires
            old(self).wf(),
        ensures
            result_applied(*old(self), *final(self), WorkerResult::GoogleAuthComplete, r@),
            final(self).wf(),
    {
        self.google_connected = true;
        self.view = Screen::GoogleManage;
        let mut effects = vec![Effect::LoadCalendarSyncStates];
        let mut more = self.discover_google_calendars();
        effects.append(&mut more);
        self.loading = false;
        assert(effects@ =~= seq![Effect::LoadCalendarSyncStates, Effect::DiscoverGoogleCalendars]);
        effects
    }

    fn apply_discovered(&mut self, cals: Vec<crate::models::DiscoveredGoogleCalendar>) -> (r: Vec<Effect>)
        requires
            old(self).wf(),
        ensures
            result_applied(*old(self), *final(self), WorkerResult::GoogleCalendarsDiscovered(cals), r@),
            final(self).wf(),
    {
        self.google_discovered_calendars = cals;
        if self.google_discovery_index >= self.google_discovered_calendars.len() {
            self.google_discovery_index = if self.google_discovered_calendars.len() == 0 {
                0
            } else {
                self.google_discovered_calendars.len() - 1
            };
        }
        self.view = Screen::GoogleManage;
        self.loading = false;
        self.set_status(String::from_str("Google calendar discovery updated."), false);
        Vec::new()
    }

    fn apply_sync_finished(
        &mut self,
        calendars_succeeded: usize,
        calendars_failed: usize,
        events_added: usize,
        events_updated: usize,
        conflicts_detected: usize,
    ) -> (r: Vec<Effect>)
        requires
            old(self).wf(),
        ensures
            result_applied(
                *old(self),
                *final(self),
                WorkerResult::GoogleSyncFinished {
                    calendars_succeeded,
                    calendars_failed,
                    events_added,
                    events_updated,
                    conflicts_detected,
                },
                r@,
            ),
            final(self).wf(),
    {
        let ghost before = *self;
        let (status, is_error) = google_sync_finished_status(
            calendars_succeeded,
            calendars_failed,
            events_added,
            events_updated,
            conflicts_detected,
        );
        self.set_status(status, is_error);
        self.loading = false;
        let effects = vec![
            Effect::LoadEvents { year: self.view_year, month: self.view_month },
            Effect::LoadCalendarSyncStates,
        ];
        assert(effects@ =~= seq![reload_loaded(before), Effect::LoadCalendarSyncStates]);
        effects
    }

    fn apply_ical_imported(&mut self, imported: usize, path: String, warnings: usize) -> (r: Vec<Effect>)
        requires
            old(self).wf(),
        ensures
            result_applied(*old(self), *final(self), WorkerResult::IcalImported { imported, path, warnings }, r@),
            final(self).wf(),
    {
        let ghost before = *self;
        self.view = Screen::Month;
        let mut message = String::from_str("Imported ");
        message.append(decimal_string(imported).as_str());
        message.append(" events from ");
        message.append(path.as_str());
        message.append(".");
        if warnings != 0 {
            message.append(" ");
            message.append(decimal_string(warnings).as_str());
            message.append(" warnings.");
        }
        self.set_status(message, false);
        self.loading = false;
        let effects = vec![
            Effect::LoadEvents { year: self.view_year, month: self.view_month },
            Effect::LoadCalendarSyncStates,
        ];
        assert(effects@ =~= seq![reload_loaded(before), Effect::LoadCalendarSyncStates]);
        assert(self.status_message@ =~= "Imported "@ + decimal(imported as nat) + " events from "@ + path@ + "."@
            + if warnings == 0 {
            Seq::empty()
        } else {
            " "@ + decimal(warnings as nat) + " warnings."@
        });
        effects
    }

    fn apply_proposal_applied(&mut self, proposal: crate::tui::state::PlannerProposal) -> (r: Vec<Effect>)
        requires
            old(self).wf(),
        ensures
            result_applied(*old(self), *final(self), WorkerResult::PlannerProposalApplied(proposal), r@),
            final(self).wf(),
    {
        let ghost before = *self;
        self.planner_proposal = Some(proposal);
        self.loading = false;
        self.set_status(String::from_str("Scheduled planner tasks were applied."), false);
        let effects = vec![
            Effect::LoadPlannerTasks,
            Effect::LoadEvents { year: self.view_year, month: self.view_month },
        ];
        assert(effects@ =~= seq![Effect::LoadPlannerTasks, reload_loaded(before)]);
        effects
    }

    fn apply_event_saved(&mut self, ev: Event) -> (r: Vec<Effect>)
        requires
            old(self).wf(),
        ensures
            result_applied(*old(self), *final(self), WorkerResult::EventSaved(ev), r@),
            final(self).wf(),
    {
        let ghost before = *self;
        let message = String::from_str("Saved: ").concat(ev.title.as_str());
        self.set_status(message, false);
        self.view = Screen::Month;
        let effects = vec![Effect::LoadEvents { year: self.view_year, month: self.view_month }];
        assert(effects@ =~= seq![reload_loaded(before)]);
        effects
    }
}

proof fn lemma_without_keeps_ready(evs: Seq<Event>, id: Seq<char>)
    requires
        all_form_ready(evs),
    ensures
        all_form_ready(events_without(evs, id)),
    decreases evs.len(),
{
    if evs.len() > 0 {
        let rest = evs.drop_last();
        assert(all_form_ready(rest)) by {
            assert forall|i: int| 0 <= i < rest.len() implies crate::tui::state::form_ready(#[trigger] rest[i]) by {
                assert(rest[i] == evs[i]);
            }
        }
        lemma_without_keeps_ready(rest, id);
        assert(crate::tui::state::form_ready(evs[evs.len() - 1]));
    }
}

} // verus!

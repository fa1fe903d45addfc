# planner_core

A calendar planner's core, verified with Verus: calendars, projects, events and their
dependencies, the checks a JSON command line applies to them, and the state machine of
the terminal interface.

## Layout

- `src/` — the verified library.
  - `models.rs` — rows (calendars, projects, events, dependencies, Google calendars) and
    their mathematical views.
  - `text.rs`, `timestamp.rs`, `dates.rs` — trimming, decimal text, `YYYY-MM-DD HH:MM:SS`
    timestamps and calendar dates (chrono does the parsing and the date arithmetic).
  - `calendar_service.rs`, `event_service.rs` — the rules for creating, updating, importing
    and deleting calendars and events, as functions from what the store holds to the row to
    write or the refusal.
  - `dag.rs` — reachability over "blocks" dependencies; adding an edge that the checks accept
    keeps the graph acyclic.
  - `availability.rs` — weekly availability windows, kept sorted by weekday.
  - `cli/` — the command arguments, command errors and the per-command decisions.
  - `tui/` — the terminal interface as a state machine: `App::dispatch` takes an action and
    `App::handle_worker_result` a background result; both return the work to run next
    (`Effect`) and keep the interface's invariant `App::wf`.
- `tests/` — scenario tests of the library.
- `app/` — the command-line side: clap arguments, the SQLite store and the command runner
  that reads the store, asks the library, writes and prints JSON.

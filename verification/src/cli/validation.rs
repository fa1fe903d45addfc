use vstd::prelude::*;
use vstd::string::StringExecFns;

use crate::cli::args::{
    CalendarSourceArg, CognitiveLoadArg, DeadlineKindArg, DependencyTypeArg, EventUpdateArgs,
    TaskPriorityArg,
};
use crate::cli::error::{cli_error, not_found_message, CliError};
use crate::dag::{
    acyclic, block_edge, blocks_graph, blocks_path_exists, counts_as_block, is_walk, lemma_added_edge_keeps_acyclic,
    opt_str_view, reaches, str_eq, with_edge,
};
use crate::models::{
    CalendarSource, CognitiveLoad, DeadlineKind, DependencyType, EventDependency,
    EventDependencyView, TaskPriority,
};
use crate::text::{is_blank, trim, trim_str};
use crate::timestamp::{
    earlier, format_timestamp, parse_timestamp, parse_timestamp_spec, timestamp_text,
};

verus! {

/// Trims a required argument, refusing it when nothing is left.
pub fn non_empty(value: String, field: &'static str) -> (r: Result<String, CliError>)
    ensures
        trim(value@).len() == 0 ==> r is Err && r->Err_0@ == cli_error(
            "validation_error"@,
            crate::calendar_service::empty_field_message(field@),
        ),
        trim(value@).len() != 0 ==> r is Ok && r->Ok_0@ == trim(value@),
{
    let trimmed = trim_str(value.as_str());
    if is_blank(value.as_str()) {
        return Err(CliError::validation(String::from_str(field).concat(" cannot be empty")));
    }
    Ok(trimmed)
}

/// The refusal, if any, of an event update that both sets and clears one field.
pub open spec fn update_flags_error(args: EventUpdateArgs) -> Option<Seq<char>> {
    if args.project_id is Some && args.clear_project_id {
        Some("cannot combine --project-id with --clear-project-id"@)
    } else if args.description is Some && args.clear_description {
        Some("cannot combine --description with --clear-description"@)
    } else if args.location is Some && args.clear_location {
        Some("cannot combine --location with --clear-location"@)
    } else if args.rrule is Some && args.clear_rrule {
        Some("cannot combine --rrule with --clear-rrule"@)
    } else if args.reminder_minutes is Some && args.clear_reminder_minutes {
        Some("cannot combine --reminder-minutes with --clear-reminder-minutes"@)
    } else {
        None
    }
}

/// Refuses an event update that both sets and clears the same field.
pub fn validate_event_update_args(args: &EventUpdateArgs) -> (r: Result<(), CliError>)
    ensures
        update_flags_error(*args) matches Some(m) ==> r is Err && r->Err_0@ == cli_error("validation_error"@, m),
        update_flags_error(*args) is None ==> r is Ok,
{
    if args.project_id.is_some() && args.clear_project_id {
        return Err(CliError::validation(String::from_str("cannot combine --project-id with --clear-project-id")));
    }
    if args.description.is_some() && args.clear_description {
        return Err(CliError::validation(String::from_str("cannot combine --description with --clear-description")));
    }
    if args.location.is_some() && args.clear_location {
        return Err(CliError::validation(String::from_str("cannot combine --location with --clear-location")));
    }
    if args.rrule.is_some() && args.clear_rrule {
        return Err(CliError::validation(String::from_str("cannot combine --rrule with --clear-rrule")));
    }
    if args.reminder_minutes.is_some() && args.clear_reminder_minutes {
        return Err(CliError::validation(
            String::from_str("cannot combine --reminder-minutes with --clear-reminder-minutes"),
        ));
    }
    Ok(())
}

/// Refuses a blank title.
pub fn ensure_title(title: &str) -> (r: Result<(), CliError>)
    ensures
        trim(title@).len() == 0 ==> r is Err && r->Err_0@ == cli_error("validation_error"@, "title cannot be empty"@),
        trim(title@).len() != 0 ==> r is Ok,
{
    if is_blank(title) {
        return Err(CliError::validation(String::from_str("title cannot be empty")));
    }
    Ok(())
}

/// The refusal, if any, of a pair of event timestamps.
pub open spec fn datetime_error(start_at: Seq<char>, end_at: Seq<char>) -> Option<Seq<char>> {
    match (parse_timestamp_spec(start_at), parse_timestamp_spec(end_at)) {
        (None, _) => Some("invalid start_at timestamp"@),
        (Some(_), None) => Some("invalid end_at timestamp"@),
        (Some(s), Some(e)) => if earlier(e, s) {
            Some("end_at must be greater than or equal to start_at"@)
        } else {
            None
        },
    }
}

/// Refuses timestamps that are not `YYYY-MM-DD HH:MM:SS` or an end before the start.
pub fn validate_event_datetime(start_at: &str, end_at: &str) -> (r: Result<(), CliError>)
    ensures
        datetime_error(start_at@, end_at@) matches Some(m) ==> r is Err && r->Err_0@ == cli_error("validation_error"@, m),
        datetime_error(start_at@, end_at@) is None ==> r is Ok,
{
    let start = match parse_timestamp(start_at) {
        Some(s) => s,
        None => {
            return Err(CliError::validation(String::from_str("invalid start_at timestamp")));
        },
    };
    let end = match parse_timestamp(end_at) {
        Some(e) => e,
        None => {
            return Err(CliError::validation(String::from_str("invalid end_at timestamp")));
        },
    };
    if crate::timestamp::is_earlier(end, start) {
        return Err(CliError::validation(String::from_str("end_at must be greater than or equal to start_at")));
    }
    Ok(())
}

/// Message of a timestamp argument that cannot be read.
pub open spec fn timestamp_arg_message(value: Seq<char>) -> Seq<char> {
    "invalid timestamp '"@ + value + "'; expected YYYY-MM-DD HH:MM:SS"@
}

/// Reads a timestamp argument and writes it back in canonical form.
pub fn parse_timestamp_arg(value: &str) -> (r: Result<String, String>)
    ensures
        parse_timestamp_spec(value@) matches Some(t) ==> r is Ok && r->Ok_0@ == timestamp_text(t),
        parse_timestamp_spec(value@) is None ==> r is Err && r->Err_0@ == timestamp_arg_message(value@),
{
    match parse_timestamp(value) {
        Some(t) => Ok(format_timestamp(t)),
        None => Err(String::from_str("invalid timestamp '").concat(value).concat("'; expected YYYY-MM-DD HH:MM:SS")),
    }
}

/// Refuses a dependency from an event to itself, then one whose ends do not exist.
pub fn validate_dependency_endpoints(
    from_event_id: &str,
    to_event_id: &str,
    from_found: bool,
    to_found: bool,
) -> (r: Result<(), CliError>)
    ensures
        from_event_id@ == to_event_id@ ==> r is Err && r->Err_0@ == cli_error(
            "validation_error"@,
            "dependency endpoints must reference two distinct events"@,
        ),
        from_event_id@ != to_event_id@ && !from_found ==> r is Err && r->Err_0@ == cli_error(
            "not_found"@,
            not_found_message("event"@, from_event_id@),
        ),
        from_event_id@ != to_event_id@ && from_found && !to_found ==> r is Err && r->Err_0@ == cli_error(
            "not_found"@,
            not_found_message("event"@, to_event_id@),
        ),
        from_event_id@ != to_event_id@ && from_found && to_found ==> r is Ok,
{
    if str_eq(from_event_id, to_event_id) {
        return Err(CliError::validation(String::from_str("dependency endpoints must reference two distinct events")));
    }
    if !from_found {
        return Err(CliError::not_found("event", from_event_id));
    }
    if !to_found {
        return Err(CliError::not_found("event", to_event_id));
    }
    Ok(())
}

/// Some dependency of `deps` other than `exclude` already joins `from` to `to`.
pub open spec fn edge_exists(
    deps: Seq<EventDependencyView>,
    exclude: Option<Seq<char>>,
    from: Seq<char>,
    to: Seq<char>,
) -> bool {
    exists|i: int|
        0 <= i < deps.len() && exclude != Some(#[trigger] deps[i].id) && deps[i].from_event_id == from
            && deps[i].to_event_id == to
}

/// The refusal, if any, of a dependency from `from` to `to` among `deps`, not counting
/// the dependency `exclude` (the one being changed).
pub open spec fn dependency_edge_error(
    deps: Seq<EventDependencyView>,
    exclude: Option<Seq<char>>,
    from: Seq<char>,
    to: Seq<char>,
    dependency_type: DependencyType,
) -> Option<Seq<char>> {
    if edge_exists(deps, exclude, from, to) {
        Some("dependency edge already exists"@)
    } else if dependency_type == DependencyType::Blocks && reaches(blocks_graph(deps, exclude), to, from) {
        Some("dependency would create a cycle in blocks edges"@)
    } else {
        None
    }
}

/// Refuses a second edge between the same two events, and a `blocks` edge that
/// would close a cycle of `blocks` edges.
pub fn validate_dependency_edge(
    dependencies: &Vec<EventDependency>,
    from_event_id: &str,
    to_event_id: &str,
    dependency_type: DependencyType,
    exclude_dependency_id: Option<&str>,
) -> (r: Result<(), CliError>)
    ensures
        dependency_edge_error(dependencies.deep_view(), opt_str_view(exclude_dependency_id), from_event_id@,
            to_event_id@, dependency_type) matches Some(m) ==> r is Err && r->Err_0@ == cli_error("conflict"@, m),
        dependency_edge_error(dependencies.deep_view(), opt_str_view(exclude_dependency_id), from_event_id@,
            to_event_id@, dependency_type) is None ==> r is Ok,
{
    let ghost deps = dependencies.deep_view();
    let ghost ex = opt_str_view(exclude_dependency_id);
    let mut i: usize = 0;
    while i < dependencies.len()
        invariant
            deps == dependencies.deep_view(),
            ex == opt_str_view(exclude_dependency_id),
            i <= dependencies.len(),
            forall|k: int|
                0 <= k < i ==> !(ex != Some(#[trigger] deps[k].id) && deps[k].from_event_id == from_event_id@
                    && deps[k].to_event_id == to_event_id@),
        decreases dependencies.len() - i,
    {
        let d = &dependencies[i];
        assert(deps[i as int] == d@);
        let excluded = match exclude_dependency_id {
            Some(x) => str_eq(d.id.as_str(), x),
            None => false,
        };
        if !excluded && str_eq(d.from_event_id.as_str(), from_event_id) && str_eq(d.to_event_id.as_str(), to_event_id) {
            assert(ex != Some(deps[i as int].id) && deps[i as int].from_event_id == from_event_id@
                && deps[i as int].to_event_id == to_event_id@);
            assert(edge_exists(deps, ex, from_event_id@, to_event_id@));
            return Err(CliError::conflict(String::from_str("dependency edge already exists")));
        }
        i = i + 1;
    }
    if dependency_type != DependencyType::Blocks {
        return Ok(());
    }
    if blocks_path_exists(dependencies, exclude_dependency_id, to_event_id, from_event_id) {
        return Err(CliError::conflict(String::from_str("dependency would create a cycle in blocks edges")));
    }
    Ok(())
}

/// A `blocks` graph without one dependency is a subgraph of the whole graph, so it
/// stays acyclic when the whole graph is.
pub proof fn lemma_dropping_dependency_keeps_acyclic(deps: Seq<EventDependencyView>, exclude: Seq<char>)
    requires
        acyclic(blocks_graph(deps, None)),
    ensures
        acyclic(blocks_graph(deps, Some(exclude))),
{
    let e = blocks_graph(deps, Some(exclude));
    let f = blocks_graph(deps, None);
    assert forall|p: Seq<Seq<char>>| #[trigger] is_walk(e, p) && p.len() >= 2 implies p[0] != p.last() by {
        assert forall|i: int| 0 <= i < p.len() - 1 implies f(#[trigger] p[i], p[i + 1]) by {
            assert(e(p[i], p[i + 1]));
            let k = choose|k: int|
                0 <= k < deps.len() && counts_as_block(#[trigger] deps[k], Some(exclude)) && deps[k].from_event_id == p[i]
                    && deps[k].to_event_id == p[i + 1];
            assert(counts_as_block(deps[k], None));
        }
        assert(is_walk(f, p));
    }
}

/// A dependency that `dependencies create` accepts keeps the `blocks` edges free of
/// cycles: if the stored `blocks` edges form no cycle, neither do they with the new
/// dependency added.
pub proof fn lemma_created_dependency_keeps_blocks_acyclic(deps: Seq<EventDependencyView>, d: EventDependencyView)
    requires
        acyclic(blocks_graph(deps, None)),
        dependency_edge_error(deps, None, d.from_event_id, d.to_event_id, d.dependency_type) is None,
    ensures
        acyclic(blocks_graph(deps.push(d), None)),
{
    let old_graph = blocks_graph(deps, None);
    let new_graph = blocks_graph(deps.push(d), None);
    if d.dependency_type == DependencyType::Blocks {
        lemma_added_edge_keeps_acyclic(old_graph, d.from_event_id, d.to_event_id);
        let g = with_edge(old_graph, d.from_event_id, d.to_event_id);
        assert forall|a: Seq<char>, b: Seq<char>| #[trigger] new_graph(a, b) == g(a, b) by {
            if new_graph(a, b) {
                let k = choose|k: int|
                    0 <= k < deps.push(d).len() && counts_as_block(#[trigger] deps.push(d)[k], None)
                        && deps.push(d)[k].from_event_id == a && deps.push(d)[k].to_event_id == b;
                if k < deps.len() {
                    assert(deps.push(d)[k] == deps[k]);
                    assert(old_graph(a, b));
                }
            }
            if old_graph(a, b) {
                let k = choose|k: int|
                    0 <= k < deps.len() && counts_as_block(#[trigger] deps[k], None) && deps[k].from_event_id == a
                        && deps[k].to_event_id == b;
                assert(deps.push(d)[k] == deps[k]);
                assert(new_graph(a, b));
            }
            if a == d.from_event_id && b == d.to_event_id {
                assert(deps.push(d)[deps.len() as int] == d);
                assert(new_graph(a, b));
            }
        }
        assert(new_graph =~= g);
    } else {
        assert forall|a: Seq<char>, b: Seq<char>| #[trigger] new_graph(a, b) == old_graph(a, b) by {
            if new_graph(a, b) {
                let k = choose|k: int|
                    0 <= k < deps.push(d).len() && counts_as_block(#[trigger] deps.push(d)[k], None)
                        && deps.push(d)[k].from_event_id == a && deps.push(d)[k].to_event_id == b;
                assert(k < deps.len());
                assert(deps.push(d)[k] == deps[k]);
            }
            if old_graph(a, b) {
                let k = choose|k: int|
                    0 <= k < deps.len() && counts_as_block(#[trigger] deps[k], None) && deps[k].from_event_id == a
                        && deps[k].to_event_id == b;
                assert(deps.push(d)[k] == deps[k]);
            }
        }
        assert(new_graph =~= old_graph);
    }
}

/// A change that `dependencies update` accepts keeps the `blocks` edges free of
/// cycles: the stored edges other than the changed dependency, plus its new edge
/// when it blocks, form no cycle when the stored edges formed none.
pub proof fn lemma_updated_dependency_keeps_blocks_acyclic(deps: Seq<EventDependencyView>, d: EventDependencyView)
    requires
        acyclic(blocks_graph(deps, None)),
        dependency_edge_error(deps, Some(d.id), d.from_event_id, d.to_event_id, d.dependency_type) is None,
    ensures
        d.dependency_type == DependencyType::Blocks ==> acyclic(
            with_edge(blocks_graph(deps, Some(d.id)), d.from_event_id, d.to_event_id),
        ),
        acyclic(blocks_graph(deps, Some(d.id))),
{
    lemma_dropping_dependency_keeps_acyclic(deps, d.id);
    if d.dependency_type == DependencyType::Blocks {
        lemma_added_edge_keeps_acyclic(blocks_graph(deps, Some(d.id)), d.from_event_id, d.to_event_id);
    }
}

/// Once a dependency is stored, a second one between the same two events is refused.
pub proof fn lemma_duplicate_dependency_refused(
    deps: Seq<EventDependencyView>,
    d: EventDependencyView,
    dependency_type: DependencyType,
)
    ensures
        dependency_edge_error(deps.push(d), None, d.from_event_id, d.to_event_id, dependency_type)
            == Some("dependency edge already exists"@),
{
    let all = deps.push(d);
    assert(all[deps.len() as int] == d);
    let i = deps.len() as int;
    assert(0 <= i < all.len() && None::<Seq<char>> != Some(all[i].id) && all[i].from_event_id == d.from_event_id
        && all[i].to_event_id == d.to_event_id);
    let ex: Option<Seq<char>> = None;
    assert(ex != Some(all[i].id));
    assert(edge_exists(all, ex, d.from_event_id, d.to_event_id));
}

/// The calendar source an argument names.
pub fn calendar_source_from_arg(source: CalendarSourceArg) -> (r: CalendarSource)
    ensures
        source == CalendarSourceArg::Local ==> r == CalendarSource::Local,
        source == CalendarSourceArg::Google ==> r == CalendarSource::Google,
{
    match source {
        CalendarSourceArg::Local => CalendarSource::Local,
        CalendarSourceArg::Google => CalendarSource::Google,
    }
}

/// The dependency type an argument names.
pub open spec fn dependency_type_spec(dependency_type: DependencyTypeArg) -> DependencyType {
    match dependency_type {
        DependencyTypeArg::Blocks => DependencyType::Blocks,
        DependencyTypeArg::Related => DependencyType::Related,
    }
}

/// The dependency type an argument names.
pub fn dependency_type_from_arg(dependency_type: DependencyTypeArg) -> (r: DependencyType)
    ensures
        r == dependency_type_spec(dependency_type),
{
    match dependency_type {
        DependencyTypeArg::Blocks => DependencyType::Blocks,
        DependencyTypeArg::Related => DependencyType::Related,
    }
}

/// The task priority an argument names.
pub open spec fn task_priority_spec(value: TaskPriorityArg) -> TaskPriority {
    match value {
        TaskPriorityArg::Low => TaskPriority::Low,
        TaskPriorityArg::Normal => TaskPriority::Normal,
        TaskPriorityArg::High => TaskPriority::High,
    }
}

/// The cognitive load an argument names.
pub open spec fn cognitive_load_spec(value: CognitiveLoadArg) -> CognitiveLoad {
    match value {
        CognitiveLoadArg::Low => CognitiveLoad::Low,
        CognitiveLoadArg::Medium => CognitiveLoad::Medium,
        CognitiveLoadArg::High => CognitiveLoad::High,
    }
}

/// The deadline kind an argument names.
pub open spec fn deadline_kind_spec(value: DeadlineKindArg) -> DeadlineKind {
    match value {
        DeadlineKindArg::NoDeadline => DeadlineKind::NoDeadline,
        DeadlineKindArg::Hard => DeadlineKind::Hard,
        DeadlineKindArg::Soft => DeadlineKind::Soft,
    }
}

/// The task priority an argument names.
pub fn task_priority_from_arg(value: TaskPriorityArg) -> (r: TaskPriority)
    ensures
        r == task_priority_spec(value),
{
    match value {
        TaskPriorityArg::Low => TaskPriority::Low,
        TaskPriorityArg::Normal => TaskPriority::Normal,
        TaskPriorityArg::High => TaskPriority::High,
    }
}

/// The cognitive load an argument names.
pub fn cognitive_load_from_arg(value: CognitiveLoadArg) -> (r: CognitiveLoad)
    ensures
        r == cognitive_load_spec(value),
{
    match value {
        CognitiveLoadArg::Low => CognitiveLoad::Low,
        CognitiveLoadArg::Medium => CognitiveLoad::Medium,
        CognitiveLoadArg::High => CognitiveLoad::High,
    }
}

/// The deadline kind an argument names.
pub fn deadline_kind_from_arg(value: DeadlineKindArg) -> (r: DeadlineKind)
    ensures
        r == deadline_kind_spec(value),
{
    match value {
        DeadlineKindArg::NoDeadline => DeadlineKind::NoDeadline,
        DeadlineKindArg::Hard => DeadlineKind::Hard,
        DeadlineKindArg::Soft => DeadlineKind::Soft,
    }
}

} // verus!

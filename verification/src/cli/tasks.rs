use vstd::prelude::*;
use vstd::string::StringExecFns;

use crate::cli::args::{TaskCreateArgs, TaskUpdateArgs};
use crate::cli::error::{cli_error, CliError};
use crate::cli::validation::{
    cognitive_load_from_arg, cognitive_load_spec, deadline_kind_from_arg, deadline_kind_spec, non_empty,
    task_priority_from_arg, task_priority_spec,
};
use crate::models::{opt_view, CognitiveLoad, DeadlineKind, TaskPriority};
use crate::text::{normalize_optional, normalized, trim};

verus! {

/// A planner task to create.
#[derive(Debug)]
pub struct CreateTaskInput {
    pub title: String,
    pub duration_minutes: i64,
    pub target_calendar_id: String,
    pub project_id: Option<String>,
    pub priority: TaskPriority,
    pub cognitive_load: CognitiveLoad,
    pub earliest_at: Option<String>,
    pub deadline_kind: DeadlineKind,
    pub deadline_at: Option<String>,
}

/// Changes to a planner task: `None` keeps a field, `Some(None)` clears an optional one.
#[derive(Debug)]
pub struct UpdateTaskInput {
    pub title: Option<String>,
    pub duration_minutes: Option<i64>,
    pub target_calendar_id: Option<String>,
    pub project_id: Option<Option<String>>,
    pub priority: Option<TaskPriority>,
    pub cognitive_load: Option<CognitiveLoad>,
    pub earliest_at: Option<Option<String>>,
    pub deadline_kind: Option<DeadlineKind>,
    pub deadline_at: Option<Option<String>>,
}

/// The planner request of `tasks create`: the project id is trimmed (blank dropped).
pub fn task_create_input(args: TaskCreateArgs) -> (r: CreateTaskInput)
    ensures
        r.title == args.title,
        r.duration_minutes == args.duration_minutes,
        r.target_calendar_id == args.target_calendar_id,
        opt_view(r.project_id) == normalized(opt_view(args.project_id)),
        r.priority == task_priority_spec(args.priority),
        r.cognitive_load == cognitive_load_spec(args.cognitive_load),
        r.earliest_at == args.earliest_at,
        r.deadline_kind == deadline_kind_spec(args.deadline_kind),
        r.deadline_at == args.deadline_at,
{
    CreateTaskInput {
        title: args.title,
        duration_minutes: args.duration_minutes,
        target_calendar_id: args.target_calendar_id,
        project_id: normalize_optional(args.project_id),
        priority: task_priority_from_arg(args.priority),
        cognitive_load: cognitive_load_from_arg(args.cognitive_load),
        earliest_at: args.earliest_at,
        deadline_kind: deadline_kind_from_arg(args.deadline_kind),
        deadline_at: args.deadline_at,
    }
}

/// `Some(None)` when the field is cleared, else the new value if any.
pub open spec fn clearable<T>(value: Option<T>, clear: bool) -> Option<Option<T>> {
    if clear {
        Some(None)
    } else {
        match value {
            Some(v) => Some(Some(v)),
            None => None,
        }
    }
}

fn clear_or_set(value: Option<String>, clear: bool) -> (r: Option<Option<String>>)
    ensures
        r == clearable(value, clear),
{
    if clear {
        Some(None)
    } else {
        match value {
            Some(v) => Some(Some(v)),
            None => None,
        }
    }
}

/// The refusal, if any, of `tasks update` arguments that both set and clear one field.
pub open spec fn task_update_error(args: TaskUpdateArgs) -> Option<Seq<char>> {
    if args.project_id is Some && args.clear_project_id {
        Some("cannot combine --project-id and --clear-project-id"@)
    } else if args.earliest_at is Some && args.clear_earliest_at {
        Some("cannot combine --earliest-at and --clear-earliest-at"@)
    } else if args.deadline_at is Some && args.clear_deadline_at {
        Some("cannot combine --deadline-at and --clear-deadline-at"@)
    } else {
        None
    }
}

/// The planner request of `tasks update`.
pub fn task_update_input(args: TaskUpdateArgs) -> (r: Result<UpdateTaskInput, CliError>)
    ensures
        task_update_error(args) matches Some(m) ==> r is Err && r->Err_0@ == cli_error("validation_error"@, m),
        task_update_error(args) is None ==> r is Ok && {
            let u = r->Ok_0;
            &&& u.title == args.title
            &&& u.duration_minutes == args.duration_minutes
            &&& u.target_calendar_id == args.target_calendar_id
            &&& u.project_id == clearable(args.project_id, args.clear_project_id)
            &&& u.earliest_at == clearable(args.earliest_at, args.clear_earliest_at)
            &&& u.deadline_at == clearable(args.deadline_at, args.clear_deadline_at)
            &&& u.priority == match args.priority {
                Some(p) => Some(task_priority_spec(p)),
                None => None,
            }
            &&& u.cognitive_load == match args.cognitive_load {
                Some(c) => Some(cognitive_load_spec(c)),
                None => None,
            }
            &&& u.deadline_kind == match args.deadline_kind {
                Some(d) => Some(deadline_kind_spec(d)),
                None => None,
            }
        },
{
    if args.project_id.is_some() && args.clear_project_id {
        return Err(CliError::validation(String::from_str("cannot combine --project-id and --clear-project-id")));
    }
    if args.earliest_at.is_some() && args.clear_earliest_at {
        return Err(CliError::validation(String::from_str("cannot combine --earliest-at and --clear-earliest-at")));
    }
    if args.deadline_at.is_some() && args.clear_deadline_at {
        return Err(CliError::validation(String::from_str("cannot combine --deadline-at and --clear-deadline-at")));
    }
    let priority = match args.priority {
        Some(p) => Some(task_priority_from_arg(p)),
        None => None,
    };
    let cognitive_load = match args.cognitive_load {
        Some(c) => Some(cognitive_load_from_arg(c)),
        None => None,
    };
    let deadline_kind = match args.deadline_kind {
        Some(d) => Some(deadline_kind_from_arg(d)),
        None => None,
    };
    Ok(UpdateTaskInput {
        title: args.title,
        duration_minutes: args.duration_minutes,
        target_calendar_id: args.target_calendar_id,
        project_id: clear_or_set(args.project_id, args.clear_project_id),
        priority,
        cognitive_load,
        earliest_at: clear_or_set(args.earliest_at, args.clear_earliest_at),
        deadline_kind,
        deadline_at: clear_or_set(args.deadline_at, args.clear_deadline_at),
    })
}

/// The timezone of an import or a new event: the given one, trimmed and required, or
/// `default_timezone`.
pub fn timezone_or_default(timezone: Option<String>, default_timezone: String) -> (r: Result<String, CliError>)
    ensures
        timezone matches Some(t) ==> (trim(t@).len() == 0 ==> r is Err && r->Err_0@ == cli_error(
            "validation_error"@,
            crate::calendar_service::empty_field_message("timezone"@),
        )) && (trim(t@).len() != 0 ==> r is Ok && r->Ok_0@ == trim(t@)),
        timezone is None ==> r == Ok::<String, CliError>(default_timezone),
{
    match timezone {
        Some(t) => non_empty(t, "timezone"),
        None => Ok(default_timezone),
    }
}

} // verus!

use vstd::prelude::*;
use vstd::string::StringExecFns;

use crate::calendar_service::CalendarServiceError;
use crate::event_service::EventServiceError;
use crate::models::{ErrorView, PlannerError};

verus! {

/// A failed command: a stable machine-readable code and a message.
#[derive(Debug, Clone)]
pub struct CliError {
    pub code: &'static str,
    pub message: String,
}

/// Mathematical model of a failed command.
pub struct CliErrorView {
    pub code: Seq<char>,
    pub message: Seq<char>,
}

impl View for CliError {
    type V = CliErrorView;

    open spec fn view(&self) -> CliErrorView {
        CliErrorView { code: self.code@, message: self.message@ }
    }
}

/// The error with `code` and `message`.
pub open spec fn cli_error(code: Seq<char>, message: Seq<char>) -> CliErrorView {
    CliErrorView { code, message }
}

/// Message of a missing resource.
pub open spec fn not_found_message(resource: Seq<char>, id: Seq<char>) -> Seq<char> {
    resource + " '"@ + id + "' not found"@
}

/// The command error that a service error becomes.
pub open spec fn service_error_to_cli(e: ErrorView) -> CliErrorView {
    match e {
        ErrorView::NotFound(resource, id) => cli_error("not_found"@, not_found_message(resource, id)),
        ErrorView::Validation(m) => cli_error("validation_error"@, m),
        ErrorView::Conflict(m) => cli_error("conflict"@, m),
        ErrorView::Internal(m) => cli_error("internal_error"@, m),
    }
}

impl CliError {
    /// A refused argument value.
    pub fn validation(message: String) -> (e: Self)
        ensures
            e@ == cli_error("validation_error"@, message@),
    {
        CliError { code: "validation_error", message }
    }

    /// A resource that does not exist.
    pub fn not_found(resource: &'static str, id: &str) -> (e: Self)
        ensures
            e@ == cli_error("not_found"@, not_found_message(resource@, id@)),
    {
        CliError {
            code: "not_found",
            message: String::from_str(resource).concat(" '").concat(id).concat("' not found"),
        }
    }

    /// A request that clashes with the stored state.
    pub fn conflict(message: String) -> (e: Self)
        ensures
            e@ == cli_error("conflict"@, message@),
    {
        CliError { code: "conflict", message }
    }

    /// A failure of an outside service.
    pub fn external(message: String) -> (e: Self)
        ensures
            e@ == cli_error("external_error"@, message@),
    {
        CliError { code: "external_error", message }
    }

    /// A failure of our own.
    pub fn internal(message: String) -> (e: Self)
        ensures
            e@ == cli_error("internal_error"@, message@),
    {
        CliError { code: "internal_error", message }
    }

    /// Command-line arguments that cannot be parsed.
    pub fn invalid_arguments(message: String) -> (e: Self)
        ensures
            e@ == cli_error("invalid_arguments"@, message@),
    {
        CliError { code: "invalid_arguments", message }
    }
}

/// Wraps an internal failure, given its text.
pub fn internal_error(message: String) -> (e: CliError)
    ensures
        e@ == cli_error("internal_error"@, message@),
{
    CliError::internal(message)
}

/// The command error for a calendar service error.
pub fn calendar_service_error(err: CalendarServiceError) -> (e: CliError)
    ensures
        e@ == service_error_to_cli(err@),
{
    match err {
        CalendarServiceError::NotFound { resource, id } => CliError::not_found(resource, id.as_str()),
        CalendarServiceError::Validation(message) => CliError::validation(message),
        CalendarServiceError::Conflict(message) => CliError::conflict(message),
        CalendarServiceError::Internal(message) => CliError::internal(message),
    }
}

/// The command error for an event service error.
pub fn event_service_error(err: EventServiceError) -> (e: CliError)
    ensures
        e@ == service_error_to_cli(err@),
{
    match err {
        EventServiceError::NotFound { resource, id } => CliError::not_found(resource, id.as_str()),
        EventServiceError::Validation(message) => CliError::validation(message),
        EventServiceError::Conflict(message) => CliError::conflict(message),
        EventServiceError::Internal(message) => CliError::internal(message),
    }
}

/// The model of a planner error.
pub open spec fn planner_error_view(err: PlannerError) -> ErrorView {
    match err {
        PlannerError::NotFound { resource, id } => ErrorView::NotFound(resource@, id@),
        PlannerError::Validation(m) => ErrorView::Validation(m@),
        PlannerError::Conflict(m) => ErrorView::Conflict(m@),
        PlannerError::Internal(m) => ErrorView::Internal(m@),
    }
}

/// The command error for a planner error.
pub fn planner_error(error: PlannerError) -> (e: CliError)
    ensures
        e@ == service_error_to_cli(planner_error_view(error)),
{
    match error {
        PlannerError::NotFound { resource, id } => CliError::not_found(resource, id.as_str()),
        PlannerError::Validation(message) => CliError::validation(message),
        PlannerError::Conflict(message) => CliError::conflict(message),
        PlannerError::Internal(message) => CliError::internal(message),
    }
}

/// The value inside `resource`, or a not-found error naming it.
pub fn require_resource<T>(resource: Option<T>, name: &'static str, id: &str) -> (r: Result<T, CliError>)
    ensures
        resource matches Some(v) ==> r == Ok::<T, CliError>(v),
        resource is None ==> r is Err && r->Err_0@ == cli_error("not_found"@, not_found_message(name@, id@)),
{
    match resource {
        Some(v) => Ok(v),
        None => Err(CliError::not_found(name, id)),
    }
}

} // verus!

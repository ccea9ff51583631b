//! The verdicts of a validation, and how a failed one is reported to the workflows.

use crate::address::{address_views, join_addresses, Address};
use crate::error::{error_text, ErrorView, HolochainError};
use crate::log::{LogLevel, LogRecord};
use crate::text::joined;
use vstd::prelude::*;
use vstd::string::*;

verus! {

/// A failed validation.
#[derive(Clone, Debug, PartialEq, Eq)]
pub enum ValidationError {
    /// The rules ran and found the entry invalid. The text is the reason.
    Fail(String),
    /// The entry cannot be judged yet: entries that it depends on are not held. The addresses
    /// are theirs.
    UnresolvedDependencies(Vec<Address>),
    /// There are no rules for this kind of entry.
    NotImplemented,
    /// Something failed that is no verdict on the entry.
    Error(HolochainError),
}

/// What a `ValidationError` says.
pub enum ValidationErrorView {
    Fail(Seq<char>),
    UnresolvedDependencies(Seq<Seq<char>>),
    NotImplemented,
    Error(ErrorView),
}

impl View for ValidationError {
    type V = ValidationErrorView;

    open spec fn view(&self) -> ValidationErrorView {
        match *self {
            ValidationError::Fail(reason) => ValidationErrorView::Fail(reason@),
            ValidationError::UnresolvedDependencies(dependencies) =>
                ValidationErrorView::UnresolvedDependencies(address_views(dependencies@)),
            ValidationError::NotImplemented => ValidationErrorView::NotImplemented,
            ValidationError::Error(e) => ValidationErrorView::Error(e@),
        }
    }
}

/// The result of validating an entry: `Ok` if it is valid.
pub type ValidationResult = Result<(), ValidationError>;

/// What a `ValidationResult` says.
pub open spec fn result_view(r: ValidationResult) -> Result<(), ValidationErrorView> {
    match r {
        Ok(_) => Ok(()),
        Err(e) => Err(e@),
    }
}

/// Whether an entry is validated in order to hold it for the network, or as a part of
/// authoring it.
#[derive(Clone, Copy, Debug, PartialEq, Eq, Structural)]
pub enum ValidationContext {
    Authoring,
    Holding,
}

/// A failed validation as an error of the node, where nothing is known of a later retry.
pub open spec fn as_holochain_error(e: ValidationErrorView) -> ErrorView {
    match e {
        ValidationErrorView::Fail(reason) => ErrorView::ValidationFailed(reason),
        ValidationErrorView::UnresolvedDependencies(_) => ErrorView::ValidationFailed(
            "Missing dependencies"@,
        ),
        ValidationErrorView::NotImplemented => ErrorView::NotImplemented(
            "Validation not implemented"@,
        ),
        ValidationErrorView::Error(inner) => inner,
    }
}

/// What `from` returns is stated over views, in the `ensures` of `from` itself: the texts that
/// it makes are known by their characters only.
impl vstd::std_specs::convert::FromSpecImpl<ValidationError> for HolochainError {
    open spec fn obeys_from_spec() -> bool {
        false
    }

    open spec fn from_spec(ve: ValidationError) -> Self {
        choose|e: HolochainError| e@ == as_holochain_error(ve@)
    }
}

impl From<ValidationError> for HolochainError {
    fn from(ve: ValidationError) -> (r: Self)
        ensures
            r@ == as_holochain_error(ve@),
    {
        match ve {
            ValidationError::Fail(reason) => HolochainError::ValidationFailed(reason),
            ValidationError::UnresolvedDependencies(_) => HolochainError::ValidationFailed(
                String::from_str("Missing dependencies"),
            ),
            ValidationError::NotImplemented => HolochainError::NotImplemented(
                String::from_str("Validation not implemented"),
            ),
            ValidationError::Error(e) => e,
        }
    }
}

/// What a workflow is told when the validation of an entry failed with `e`.
///
/// Unresolved dependencies and a timeout may resolve later, so the entry is reported as
/// pending and will be tried again. Every other failure is reported as it is.
pub open spec fn escalated(e: ValidationErrorView) -> ErrorView {
    match e {
        ValidationErrorView::UnresolvedDependencies(_) => ErrorView::ValidationPending,
        ValidationErrorView::Error(ErrorView::Timeout(_)) => ErrorView::ValidationPending,
        _ => as_holochain_error(e),
    }
}

/// The level at which a failed validation is logged: missing dependencies are expected and
/// are logged for debugging, everything else is a warning.
pub open spec fn escalation_level(e: ValidationErrorView) -> LogLevel {
    match e {
        ValidationErrorView::UnresolvedDependencies(_) => LogLevel::Debug,
        _ => LogLevel::Warn,
    }
}

/// The line that is logged when the validation of the entry at `addr` failed with `e` in the
/// workflow `src`. It starts with the workflow and names the entry.
pub open spec fn escalation_message(
    src: Seq<char>,
    e: ValidationErrorView,
    addr: Seq<char>,
) -> Seq<char> {
    match e {
        ValidationErrorView::UnresolvedDependencies(dependencies) => "workflow/"@ + src + ": "@
            + addr
            + " could not be validated due to unresolved dependencies and will be tried later. List of missing dependencies: ["@
            + joined(dependencies, ", "@) + "]"@,
        ValidationErrorView::Fail(reason) => "workflow/"@ + src + ": Entry "@ + addr
            + " is NOT valid! Validation error: "@ + reason,
        ValidationErrorView::Error(ErrorView::Timeout(wait)) => "workflow/"@ + src + ": Entry "@
            + addr + " got timeout("@ + wait + ") during validation, retrying"@,
        _ => "workflow/"@ + src + ": Entry "@ + addr + " Unexpected error during validation: "@
            + error_text(as_holochain_error(e)),
    }
}

/// What a validation comes to for the one who asked for it.
#[derive(Clone, Debug, PartialEq, Eq)]
pub enum Outcome {
    /// The entry is valid.
    Valid,
    /// The entry is invalid, for the reason given.
    Invalid(String),
    /// The validation could not be completed yet and will be tried again.
    Pending,
    /// There are no rules for this kind of entry.
    NotImplemented,
    /// The node failed.
    SystemError(HolochainError),
}

/// What an `Outcome` says.
pub enum OutcomeView {
    Valid,
    Invalid(Seq<char>),
    Pending,
    NotImplemented,
    SystemError(ErrorView),
}

impl View for Outcome {
    type V = OutcomeView;

    open spec fn view(&self) -> OutcomeView {
        match *self {
            Outcome::Valid => OutcomeView::Valid,
            Outcome::Invalid(reason) => OutcomeView::Invalid(reason@),
            Outcome::Pending => OutcomeView::Pending,
            Outcome::NotImplemented => OutcomeView::NotImplemented,
            Outcome::SystemError(e) => OutcomeView::SystemError(e@),
        }
    }
}

/// What the result of a validation comes to.
///
/// A failure of structure or of the rules makes the entry invalid, and is not tried again.
/// Missing dependencies and a timeout leave the validation pending. Any other failure of the
/// node is handed on as it is.
pub open spec fn outcome_of(result: Result<(), ValidationErrorView>) -> OutcomeView {
    match result {
        Ok(_) => OutcomeView::Valid,
        Err(ValidationErrorView::Fail(reason)) => OutcomeView::Invalid(reason),
        Err(ValidationErrorView::UnresolvedDependencies(_)) => OutcomeView::Pending,
        Err(ValidationErrorView::NotImplemented) => OutcomeView::NotImplemented,
        Err(ValidationErrorView::Error(ErrorView::Timeout(_))) => OutcomeView::Pending,
        Err(ValidationErrorView::Error(e)) => OutcomeView::SystemError(e),
    }
}

/// What the result of a validation comes to for the one who asked for it.
pub fn outcome(result: ValidationResult) -> (r: Outcome)
    ensures
        r@ == outcome_of(result_view(result)),
{
    match result {
        Ok(_) => Outcome::Valid,
        Err(ValidationError::Fail(reason)) => Outcome::Invalid(reason),
        Err(ValidationError::UnresolvedDependencies(_)) => Outcome::Pending,
        Err(ValidationError::NotImplemented) => Outcome::NotImplemented,
        Err(ValidationError::Error(HolochainError::Timeout(_))) => Outcome::Pending,
        Err(ValidationError::Error(e)) => Outcome::SystemError(e),
    }
}

/// The outcome of a failed validation and what the workflow reports of it agree: a pending
/// validation is reported as pending, an invalid entry as failed for the same reason,
/// missing rules as not implemented, and a failure of the node as the failure it is.
pub proof fn outcome_agrees_with_escalation(e: ValidationErrorView)
    ensures
        match outcome_of(Err(e)) {
            OutcomeView::Valid => false,
            OutcomeView::Invalid(reason) => escalated(e) == ErrorView::ValidationFailed(reason),
            OutcomeView::Pending => escalated(e) == ErrorView::ValidationPending,
            OutcomeView::NotImplemented => escalated(e) == ErrorView::NotImplemented(
                "Validation not implemented"@,
            ),
            OutcomeView::SystemError(inner) => escalated(e) == inner,
        },
{
}

/// What `process_validation_err` hands back: the error for the caller of the workflow, and the
/// line for the log.
#[derive(Clone, Debug, PartialEq, Eq)]
pub struct Escalation {
    pub error: HolochainError,
    pub log: LogRecord,
}

/// Interprets the failure `err` of the validation of the entry at `addr` for the workflow
/// `src`: says what the workflow reports to its caller, and what it logs.
pub fn process_validation_err(src: &str, err: ValidationError, addr: &Address) -> (r: Escalation)
    ensures
        r.error@ == escalated(err@),
        err@ is UnresolvedDependencies ==> r.error@ == ErrorView::ValidationPending,
        err@ matches ValidationErrorView::Error(inner) && inner is Timeout ==> r.error@
            == ErrorView::ValidationPending,
        err@ matches ValidationErrorView::Fail(reason) ==> r.error@ == ErrorView::ValidationFailed(
            reason,
        ),
        r.log.level == escalation_level(err@),
        r.log.message@ == escalation_message(src@, err@, addr@),
{
    let mut message = String::from_str("workflow/");
    message.append(src);
    match err {
        ValidationError::UnresolvedDependencies(dependencies) => {
            message.append(": ");
            message.append(addr.hash.as_str());
            message.append(
                " could not be validated due to unresolved dependencies and will be tried later. List of missing dependencies: [",
            );
            let list = join_addresses(&dependencies, ", ");
            message.append(list.as_str());
            message.append("]");
            Escalation {
                error: HolochainError::ValidationPending,
                log: LogRecord { level: LogLevel::Debug, message },
            }
        },
        ValidationError::Fail(reason) => {
            message.append(": Entry ");
            message.append(addr.hash.as_str());
            message.append(" is NOT valid! Validation error: ");
            message.append(reason.as_str());
            Escalation {
                error: HolochainError::ValidationFailed(reason),
                log: LogRecord { level: LogLevel::Warn, message },
            }
        },
        ValidationError::Error(HolochainError::Timeout(wait)) => {
            message.append(": Entry ");
            message.append(addr.hash.as_str());
            message.append(" got timeout(");
            message.append(wait.as_str());
            message.append(") during validation, retrying");
            Escalation {
                error: HolochainError::ValidationPending,
                log: LogRecord { level: LogLevel::Warn, message },
            }
        },
        other => {
            let error = HolochainError::from(other);
            message.append(": Entry ");
            message.append(addr.hash.as_str());
            message.append(" Unexpected error during validation: ");
            let text = error.to_string();
            message.append(text.as_str());
            Escalation { error, log: LogRecord { level: LogLevel::Warn, message } }
        },
    }
}

} // verus!

use entry_validation::address::Address;
use entry_validation::error::HolochainError;
use entry_validation::log::LogLevel;
use entry_validation::validation::{outcome, process_validation_err, Outcome, ValidationError};

#[test]
fn unresolved_dependencies_are_pending_and_logged_for_debugging() {
    let err = ValidationError::UnresolvedDependencies(vec![
        Address::new("QmBase"),
        Address::new("QmTarget"),
    ]);
    let out = process_validation_err("hold_link", err, &Address::new("QmEntry"));
    assert_eq!(out.error, HolochainError::ValidationPending);
    assert_eq!(out.log.level, LogLevel::Debug);
    assert_eq!(
        out.log.message,
        "workflow/hold_link: QmEntry could not be validated due to unresolved dependencies and will be tried later. List of missing dependencies: [QmBase, QmTarget]"
    );
}

#[test]
fn no_dependencies_at_all_are_still_pending() {
    let out = process_validation_err(
        "hold_link",
        ValidationError::UnresolvedDependencies(vec![]),
        &Address::new("QmEntry"),
    );
    assert_eq!(out.error, HolochainError::ValidationPending);
    assert_eq!(
        out.log.message,
        "workflow/hold_link: QmEntry could not be validated due to unresolved dependencies and will be tried later. List of missing dependencies: []"
    );
}

#[test]
fn a_timeout_is_pending_and_logged_as_a_warning() {
    let err = ValidationError::Error(HolochainError::Timeout(String::from("5s")));
    let out = process_validation_err("hold_entry", err, &Address::new("QmEntry"));
    assert_eq!(out.error, HolochainError::ValidationPending);
    assert_eq!(out.log.level, LogLevel::Warn);
    assert_eq!(
        out.log.message,
        "workflow/hold_entry: Entry QmEntry got timeout(5s) during validation, retrying"
    );
}

#[test]
fn a_failed_validation_is_reported_with_its_reason() {
    let err = ValidationError::Fail(String::from("too long"));
    let out = process_validation_err("author_entry", err, &Address::new("QmEntry"));
    assert_eq!(out.error, HolochainError::ValidationFailed(String::from("too long")));
    assert_eq!(out.log.level, LogLevel::Warn);
    assert_eq!(
        out.log.message,
        "workflow/author_entry: Entry QmEntry is NOT valid! Validation error: too long"
    );
}

#[test]
fn missing_rules_are_reported_as_not_implemented() {
    let out = process_validation_err(
        "hold_entry",
        ValidationError::NotImplemented,
        &Address::new("QmEntry"),
    );
    assert_eq!(
        out.error,
        HolochainError::NotImplemented(String::from("Validation not implemented"))
    );
    assert_eq!(out.log.level, LogLevel::Warn);
    assert_eq!(
        out.log.message,
        "workflow/hold_entry: Entry QmEntry Unexpected error during validation: not implemented: Validation not implemented"
    );
}

#[test]
fn other_errors_are_reported_unchanged() {
    let errors = vec![
        HolochainError::ErrorGeneric(String::from("no state")),
        HolochainError::IoError(String::from("disk")),
        HolochainError::SerializationError(String::from("bad json")),
        HolochainError::ChannelClosed,
        HolochainError::NetworkUninitialized,
        HolochainError::EntryNotFoundLocally,
        HolochainError::EntryIsPrivate,
        HolochainError::ValidationTimeout,
        HolochainError::ValidationPending,
        HolochainError::ValidationFailed(String::from("earlier")),
        HolochainError::NotImplemented(String::from("x")),
    ];
    for error in errors {
        let out = process_validation_err(
            "hold_entry",
            ValidationError::Error(error.clone()),
            &Address::new("QmEntry"),
        );
        assert_eq!(out.error, error);
        assert_eq!(out.log.level, LogLevel::Warn);
        assert_eq!(
            out.log.message,
            format!(
                "workflow/hold_entry: Entry QmEntry Unexpected error during validation: {}",
                error.to_string()
            )
        );
    }
}

#[test]
fn a_validation_error_converts_to_an_error_of_the_node() {
    assert_eq!(
        HolochainError::from(ValidationError::Fail(String::from("bad"))),
        HolochainError::ValidationFailed(String::from("bad"))
    );
    assert_eq!(
        HolochainError::from(ValidationError::UnresolvedDependencies(vec![Address::new("a")])),
        HolochainError::ValidationFailed(String::from("Missing dependencies"))
    );
    assert_eq!(
        HolochainError::from(ValidationError::NotImplemented),
        HolochainError::NotImplemented(String::from("Validation not implemented"))
    );
    assert_eq!(
        HolochainError::from(ValidationError::Error(HolochainError::Timeout(String::from("1s")))),
        HolochainError::Timeout(String::from("1s"))
    );
}

#[test]
fn errors_describe_themselves() {
    assert_eq!(HolochainError::new("plain").to_string(), "plain");
    assert_eq!(
        HolochainError::NotImplemented(String::from("x")).to_string(),
        "not implemented: x"
    );
    assert_eq!(HolochainError::IoError(String::from("disk")).to_string(), "disk");
    assert_eq!(HolochainError::SerializationError(String::from("json")).to_string(), "json");
    assert_eq!(HolochainError::ValidationFailed(String::from("bad")).to_string(), "bad");
    assert_eq!(
        HolochainError::ValidationPending.to_string(),
        "Entry validation could not be completed"
    );
    assert_eq!(HolochainError::Timeout(String::from("5s")).to_string(), "timeout: 5s");
    assert_eq!(HolochainError::ValidationTimeout.to_string(), "Entry validation timed out");
    assert_eq!(
        HolochainError::EntryNotFoundLocally.to_string(),
        "The requested entry could not be found locally"
    );
    assert_eq!(
        HolochainError::EntryIsPrivate.to_string(),
        "The requested entry is private and should not be shared via gossip"
    );
    assert_eq!(HolochainError::ChannelClosed.to_string(), "The action channel is closed");
    assert_eq!(HolochainError::NetworkUninitialized.to_string(), "Network not initialized");
    assert!(HolochainError::Timeout(String::from("5s")).is_timeout());
    assert!(!HolochainError::ValidationTimeout.is_timeout());
}

#[test]
fn results_reduce_to_five_outcomes() {
    assert_eq!(outcome(Ok(())), Outcome::Valid);
    assert_eq!(
        outcome(Err(ValidationError::Fail(String::from("bad")))),
        Outcome::Invalid(String::from("bad"))
    );
    assert_eq!(
        outcome(Err(ValidationError::UnresolvedDependencies(vec![Address::new("a")]))),
        Outcome::Pending
    );
    assert_eq!(
        outcome(Err(ValidationError::Error(HolochainError::Timeout(String::from("5s"))))),
        Outcome::Pending
    );
    assert_eq!(outcome(Err(ValidationError::NotImplemented)), Outcome::NotImplemented);
    assert_eq!(
        outcome(Err(ValidationError::Error(HolochainError::ChannelClosed))),
        Outcome::SystemError(HolochainError::ChannelClosed)
    );
}

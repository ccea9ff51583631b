//! Failures of the node that are not verdicts on an entry.

use vstd::prelude::*;
use vstd::string::*;

verus! {

/// A failure of the node itself, as the workflows report it to their callers.
#[derive(Clone, Debug, PartialEq, Eq)]
pub enum HolochainError {
    /// A failure described only by its message.
    ErrorGeneric(String),
    /// The operation is not implemented; the text says which.
    NotImplemented(String),
    /// Reading or writing storage failed.
    IoError(String),
    /// Content could not be serialized or parsed.
    SerializationError(String),
    /// The entry was validated and found invalid; the text is the reason.
    ValidationFailed(String),
    /// Validation could not be completed yet and will be tried again.
    ValidationPending,
    /// An awaited answer did not come in time; the text describes the wait.
    Timeout(String),
    /// A waiting validation was given up because its time was up.
    ValidationTimeout,
    /// The requested entry is not in local storage.
    EntryNotFoundLocally,
    /// The requested entry is private and is not shared.
    EntryIsPrivate,
    /// The action channel is closed or reported an error.
    ChannelClosed,
    /// The network part of the state has not been initialized.
    NetworkUninitialized,
}

/// What a `HolochainError` says: its kind, and the characters of its text where it has one.
pub enum ErrorView {
    ErrorGeneric(Seq<char>),
    NotImplemented(Seq<char>),
    IoError(Seq<char>),
    SerializationError(Seq<char>),
    ValidationFailed(Seq<char>),
    ValidationPending,
    Timeout(Seq<char>),
    ValidationTimeout,
    EntryNotFoundLocally,
    EntryIsPrivate,
    ChannelClosed,
    NetworkUninitialized,
}

impl View for HolochainError {
    type V = ErrorView;

    open spec fn view(&self) -> ErrorView {
        match *self {
            HolochainError::ErrorGeneric(m) => ErrorView::ErrorGeneric(m@),
            HolochainError::NotImplemented(m) => ErrorView::NotImplemented(m@),
            HolochainError::IoError(m) => ErrorView::IoError(m@),
            HolochainError::SerializationError(m) => ErrorView::SerializationError(m@),
            HolochainError::ValidationFailed(m) => ErrorView::ValidationFailed(m@),
            HolochainError::ValidationPending => ErrorView::ValidationPending,
            HolochainError::Timeout(m) => ErrorView::Timeout(m@),
            HolochainError::ValidationTimeout => ErrorView::ValidationTimeout,
            HolochainError::EntryNotFoundLocally => ErrorView::EntryNotFoundLocally,
            HolochainError::EntryIsPrivate => ErrorView::EntryIsPrivate,
            HolochainError::ChannelClosed => ErrorView::ChannelClosed,
            HolochainError::NetworkUninitialized => ErrorView::NetworkUninitialized,
        }
    }
}

/// The text that describes an error to a reader.
pub open spec fn error_text(e: ErrorView) -> Seq<char> {
    match e {
        ErrorView::ErrorGeneric(m) => m,
        ErrorView::NotImplemented(m) => "not implemented: "@ + m,
        ErrorView::IoError(m) => m,
        ErrorView::SerializationError(m) => m,
        ErrorView::ValidationFailed(m) => m,
        ErrorView::ValidationPending => "Entry validation could not be completed"@,
        ErrorView::Timeout(m) => "timeout: "@ + m,
        ErrorView::ValidationTimeout => "Entry validation timed out"@,
        ErrorView::EntryNotFoundLocally => "The requested entry could not be found locally"@,
        ErrorView::EntryIsPrivate =>
            "The requested entry is private and should not be shared via gossip"@,
        ErrorView::ChannelClosed => "The action channel is closed"@,
        ErrorView::NetworkUninitialized => "Network not initialized"@,
    }
}

impl HolochainError {
    /// A generic error with the message `message`.
    pub fn new(message: &str) -> (r: Self)
        ensures
            r@ == ErrorView::ErrorGeneric(message@),
    {
        HolochainError::ErrorGeneric(String::from_str(message))
    }

    /// Whether the error is a timeout, the one failure of the node that is worth a retry.
    pub fn is_timeout(&self) -> (r: bool)
        ensures
            r == (self@ is Timeout),
    {
        match self {
            HolochainError::Timeout(_) => true,
            _ => false,
        }
    }

    /// The text that describes the error to a reader.
    pub fn to_string(&self) -> (r: String)
        ensures
            r@ == error_text(self@),
    {
        match self {
            HolochainError::ErrorGeneric(m) => m.clone(),
            HolochainError::NotImplemented(m) => String::from_str("not implemented: ").concat(
                m.as_str(),
            ),
            HolochainError::IoError(m) => m.clone(),
            HolochainError::SerializationError(m) => m.clone(),
            HolochainError::ValidationFailed(m) => m.clone(),
            HolochainError::ValidationPending => String::from_str(
                "Entry validation could not be completed",
            ),
            HolochainError::Timeout(m) => String::from_str("timeout: ").concat(m.as_str()),
            HolochainError::ValidationTimeout => String::from_str("Entry validation timed out"),
            HolochainError::EntryNotFoundLocally => String::from_str(
                "The requested entry could not be found locally",
            ),
            HolochainError::EntryIsPrivate => String::from_str(
                "The requested entry is private and should not be shared via gossip",
            ),
            HolochainError::ChannelClosed => String::from_str("The action channel is closed"),
            HolochainError::NetworkUninitialized => String::from_str("Network not initialized"),
        }
    }
}

/// The result of an operation that can fail with a `HolochainError`.
pub type HcResult<T> = Result<T, HolochainError>;

} // verus!

//! Lines for the node's log. The library writes no log itself: where an operation has
//! something to report, it returns the line, and the caller writes it.

use vstd::prelude::*;

verus! {

/// How much a line of the log matters.
#[derive(Clone, Copy, Debug, PartialEq, Eq, Structural)]
pub enum LogLevel {
    Debug,
    Info,
    Warn,
    Error,
}

/// A line for the log: its level and its text.
#[derive(Clone, Debug, PartialEq, Eq)]
pub struct LogRecord {
    pub level: LogLevel,
    pub message: String,
}

} // verus!

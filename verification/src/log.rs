//! Captured log entries.

use vstd::prelude::*;

verus! {

/// Severity of a log entry.
#[derive(Clone, Copy, Debug, PartialEq, Eq, Structural)]
pub enum Level {
    Error,
    Warn,
    Info,
    Debug,
    Trace,
}

/// One captured log entry.
#[derive(Debug)]
pub enum LogEntry {
    /// An entry of this program, as it is printed.
    Tui { level: Level, text: String },
    /// A line of the daemon's log, with the escape sequences that colour it.
    Daemon { line: String },
}

} // verus!

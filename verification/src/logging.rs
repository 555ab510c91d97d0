//! The shape of the diagnostic log: severities and the line format.
//!
//! Writing the log file and reading the clock are the host's work; what
//! is verified here is the severity filter and the exact text of a log
//! line.

use vstd::prelude::*;
use vstd::string::StringExecFns;

verus! {

/// Severity of a log message.
#[derive(Clone, Copy, Debug, PartialEq, Eq, Structural)]
pub enum LogLevel {
    Debug,
    Error,
}

/// Position of a severity in the order from chattiest to gravest.
pub open spec fn spec_level_rank(l: LogLevel) -> int {
    match l {
        LogLevel::Debug => 0,
        LogLevel::Error => 1,
    }
}

impl LogLevel {
    /// Whether a message of this severity passes a threshold: it does
    /// exactly when it is at least as grave.
    pub fn passes(&self, threshold: &LogLevel) -> (r: bool)
        ensures
            r == (spec_level_rank(*self) >= spec_level_rank(*threshold)),
    {
        match (self, threshold) {
            (LogLevel::Debug, LogLevel::Error) => false,
            _ => true,
        }
    }
}

/// A named source of log lines within one process.
pub struct Logger {
    /// The module the lines come from.
    pub source_name: &'static str,
    /// The process the lines come from.
    pub process_name: &'static str,
}

impl Logger {
    /// A logger for the given module of the given process.
    pub fn new(source_name: &'static str, process_name: &'static str) -> (r: Logger)
        ensures
            r.source_name@ == source_name@,
            r.process_name@ == process_name@,
    {
        Logger { source_name, process_name }
    }

    /// The exact text of one log line: the timestamp and the logger's
    /// names in brackets, then the message.
    pub fn format_line(&self, timestamp: &str, message: &str) -> (r: String)
        ensures
            r@ == "["@ + timestamp@ + " | ("@ + self.process_name@ + " - "@ + self.source_name@
                + ")] "@ + message@,
    {
        let mut line = String::from_str("[");
        line.append(timestamp);
        line.append(" | (");
        line.append(self.process_name);
        line.append(" - ");
        line.append(self.source_name);
        line.append(")] ");
        line.append(message);
        line
    }
}

} // verus!

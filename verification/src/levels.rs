//! The small closed enums that parameterize the rest of the library:
//! verbosity tiers, output format, and event levels.

use vstd::prelude::*;

verus! {

/// Cargo-style verbosity levels, ordered by permissiveness.
#[derive(Debug, Clone, Copy, PartialEq, Eq, Structural)]
pub enum Verbosity {
    /// Suppress almost all output; errors (and task closings) still show.
    Quiet,
    /// Standard CLI output.
    Normal,
    /// Adds debug-level output and task/step tracking.
    Verbose,
    /// Full diagnostic output, including trace-level messages.
    Trace,
}

impl Verbosity {
    /// Quiet mode suppresses routine output.
    pub open spec fn spec_is_quiet(self) -> bool {
        self is Quiet
    }

    /// Verbose mode enables debug/trace formatting and step tracking.
    pub open spec fn spec_is_verbose(self) -> bool {
        self is Verbose || self is Trace
    }

    pub fn is_quiet(&self) -> (r: bool)
        ensures
            r == self.spec_is_quiet(),
    {
        matches!(self, Verbosity::Quiet)
    }

    pub fn is_verbose(&self) -> (r: bool)
        ensures
            r == self.spec_is_verbose(),
    {
        matches!(self, Verbosity::Verbose | Verbosity::Trace)
    }
}

/// Output format for the dispatcher: human-friendly text, or one JSON
/// object per line.
#[derive(Debug, Clone, Copy, PartialEq, Eq, Structural)]
pub enum LogFormat {
    Text,
    Json,
}

/// The level attached to a log event in JSON mode.
#[derive(Debug, Clone, Copy, PartialEq, Eq, Structural)]
pub enum LogLevel {
    Info,
    Warn,
    Error,
    Debug,
    Trace,
}

/// The `"level"` string a level maps to in the JSON line protocol.
pub open spec fn spec_level_str(level: LogLevel) -> Seq<char> {
    match level {
        LogLevel::Info => "info"@,
        LogLevel::Warn => "warn"@,
        LogLevel::Error => "error"@,
        LogLevel::Debug => "debug"@,
        LogLevel::Trace => "trace"@,
    }
}

impl LogLevel {
    pub fn as_str(&self) -> (r: &'static str)
        ensures
            r@ == spec_level_str(*self),
    {
        match self {
            LogLevel::Info => "info",
            LogLevel::Warn => "warn",
            LogLevel::Error => "error",
            LogLevel::Debug => "debug",
            LogLevel::Trace => "trace",
        }
    }
}

} // verus!

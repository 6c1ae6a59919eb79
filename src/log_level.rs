//! Logging levels, by name.
use vstd::prelude::*;

use crate::id::same_text;

verus! {

/// How much the server logs.
#[derive(Clone, Copy, Debug, PartialEq, Eq, Structural)]
pub enum LogLevel {
    Trace,
    Debug,
    Info,
    Warn,
    Error,
}

/// Whether a text names a logging level.
pub open spec fn is_log_level(s: Seq<char>) -> bool {
    s == "TRACE"@ || s == "DEBUG"@ || s == "INFO"@ || s == "WARN"@ || s == "ERROR"@
}

impl LogLevel {
    /// The level's name.
    pub open spec fn name(self) -> Seq<char> {
        match self {
            LogLevel::Trace => "TRACE"@,
            LogLevel::Debug => "DEBUG"@,
            LogLevel::Info => "INFO"@,
            LogLevel::Warn => "WARN"@,
            LogLevel::Error => "ERROR"@,
        }
    }

    /// The level's name.
    pub fn as_str(&self) -> (r: &'static str)
        ensures
            r@ == self.name(),
    {
        match self {
            LogLevel::Trace => "TRACE",
            LogLevel::Debug => "DEBUG",
            LogLevel::Info => "INFO",
            LogLevel::Warn => "WARN",
            LogLevel::Error => "ERROR",
        }
    }

    /// Reads a level's name, exactly; any other text is refused by the precondition.
    pub fn from(value: &str) -> (r: LogLevel)
        requires
            is_log_level(value@),
        ensures
            r.name() == value@,
    {
        match LogLevel::parse(value) {
            Some(l) => l,
            None => LogLevel::Error,
        }
    }

    /// Reads a level's name, exactly, or `None`.
    pub fn parse(value: &str) -> (r: Option<LogLevel>)
        ensures
            r is Some <==> is_log_level(value@),
            r is Some ==> r->Some_0.name() == value@,
    {
        if same_text(value, "TRACE") {
            return Some(LogLevel::Trace);
        }
        if same_text(value, "DEBUG") {
            return Some(LogLevel::Debug);
        }
        if same_text(value, "INFO") {
            return Some(LogLevel::Info);
        }
        if same_text(value, "WARN") {
            return Some(LogLevel::Warn);
        }
        if same_text(value, "ERROR") {
            return Some(LogLevel::Error);
        }
        None
    }
}

} // verus!

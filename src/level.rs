use vstd::prelude::*;

verus! {

/// Severity of a log record, from the most to the least severe.
#[derive(Debug, Clone, Copy, PartialEq, Eq, Structural)]
pub enum Severity {
    Error,
    Warn,
    Info,
    Debug,
    Trace,
}

/// The native message-logging levels, from the most to the least severe.
/// `Error` is fatal in the native facility: it aborts the process.
#[derive(Debug, Clone, Copy, PartialEq, Eq, Structural)]
pub enum NativeLevel {
    Error,
    Critical,
    Warning,
    Message,
    Info,
    Debug,
}

/// The native level that a record of severity `s` is emitted at.
pub open spec fn native_level_of(s: Severity) -> NativeLevel {
    match s {
        Severity::Error => NativeLevel::Critical,
        Severity::Warn => NativeLevel::Warning,
        Severity::Info => NativeLevel::Info,
        Severity::Debug => NativeLevel::Debug,
        Severity::Trace => NativeLevel::Debug,
    }
}

impl Severity {
    /// Maps a severity to its native level. `Error` is emitted as `Critical`,
    /// never as the fatal native `Error`.
    pub fn to_glib(&self) -> (r: NativeLevel)
        ensures
            r == native_level_of(*self),
            r != NativeLevel::Error,
    {
        match self {
            Severity::Error => NativeLevel::Critical,
            Severity::Warn => NativeLevel::Warning,
            Severity::Info => NativeLevel::Info,
            Severity::Debug => NativeLevel::Debug,
            Severity::Trace => NativeLevel::Debug,
        }
    }
}

} // verus!

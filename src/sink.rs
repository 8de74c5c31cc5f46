use vstd::prelude::*;

use crate::entry::Entry;
use crate::logger::Logger;
use crate::record::LogRecord;

verus! {

/// A sink that forwards records to a logger that can be swapped at any time,
/// and drops them while it holds none.
pub struct InterchangableLoggerWrap {
    wrapped_logger: Option<Logger>,
}

impl InterchangableLoggerWrap {
    /// The logger that records are forwarded to, if any.
    pub closed spec fn wrapped(&self) -> Option<Logger> {
        self.wrapped_logger
    }

    /// A sink that holds no logger.
    pub fn new() -> (r: InterchangableLoggerWrap)
        ensures
            r.wrapped() is None,
    {
        InterchangableLoggerWrap { wrapped_logger: None }
    }

    /// Forwards every later record to `wrapped_logger`, in place of the
    /// logger held so far.
    pub fn set_wrapped_logger(&mut self, wrapped_logger: Logger)
        ensures
            final(self).wrapped() == Some(wrapped_logger),
    {
        self.wrapped_logger = Some(wrapped_logger);
    }

    /// Drops every later record until a logger is set again.
    pub fn clear_wrapped_logger(&mut self)
        ensures
            final(self).wrapped() is None,
    {
        self.wrapped_logger = None;
    }

    /// The logger that records are forwarded to, if any.
    pub fn wrapped_logger(&self) -> (r: Option<Logger>)
        ensures
            r == self.wrapped(),
    {
        self.wrapped_logger
    }

    /// Whether records are forwarded at all.
    pub fn enabled(&self) -> (r: bool)
        ensures
            r == self.wrapped() is Some,
    {
        self.wrapped_logger.is_some()
    }

    /// The entry that the held logger makes of `record`, or `None` while the
    /// sink holds no logger.
    pub fn log(&self, record: &LogRecord) -> (r: Option<Entry>)
        requires
            self.wrapped() is Some ==> self.wrapped()->0.accepts(record),
        ensures
            match self.wrapped() {
                Some(l) => r is Some && r->0@ == l.entry_of(record),
                None => r is None,
            },
    {
        match &self.wrapped_logger {
            Some(l) => Some(l.log(record)),
            None => None,
        }
    }
}

} // verus!

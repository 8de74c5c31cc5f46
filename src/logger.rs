use vstd::prelude::*;

use crate::decimal::{decimal, push_decimal};
use crate::entry::{marshal_domain, marshalled_domain, Entry, EntryView};
use crate::level::native_level_of;
use crate::record::{opt_string_view, LogRecord};

verus! {

/// How a logger lays out the entries that it hands to the native facility.
#[derive(Debug, Clone, Copy, PartialEq, Eq, Structural)]
pub enum LoggerType {
    /// One unstructured line: `<file>:<line>: <message>`.
    Simple,
    /// One unstructured line holding the message alone.
    SimplePlain,
    /// The message, with file, line and module as separate fields.
    Structured,
}

/// Where the domain of an entry comes from.
#[derive(Debug, Clone, Copy)]
pub enum LoggerDomain {
    /// Entries carry no domain.
    NoDomain,
    /// Every entry carries this domain.
    Custom(&'static str),
    /// Each entry carries the target of its record.
    Target,
}

/// A logger configuration: a layout and a domain policy.
#[derive(Debug, Clone, Copy)]
pub struct Logger {
    logger_type: LoggerType,
    domain: LoggerDomain,
}

impl Logger {
    /// The layout of this logger, in contracts.
    pub closed spec fn spec_logger_type(&self) -> LoggerType {
        self.logger_type
    }

    /// The domain policy of this logger, in contracts.
    pub closed spec fn spec_domain(&self) -> LoggerDomain {
        self.domain
    }

    /// The layout of this logger.
    pub fn logger_type(&self) -> (r: LoggerType)
        ensures
            r == self.spec_logger_type(),
    {
        self.logger_type
    }

    /// The domain policy of this logger.
    pub fn domain(&self) -> (r: LoggerDomain)
        ensures
            r == self.spec_domain(),
    {
        self.domain
    }
}

/// The domain that a policy gives a record with target `target`.
pub open spec fn resolved_domain_of(policy: LoggerDomain, target: Seq<char>) -> Option<Seq<char>> {
    match policy {
        LoggerDomain::NoDomain => None,
        LoggerDomain::Custom(d) => Some(d@),
        LoggerDomain::Target => Some(target),
    }
}

/// The text of a `Simple` entry: `<file>:<line>: <message>`.
pub open spec fn simple_text(file: Seq<char>, line: nat, message: Seq<char>) -> Seq<char> {
    file + seq![':'] + decimal(line) + seq![':', ' '] + message
}

impl Logger {
    /// Whether `record` carries what this logger's layout needs: a file and
    /// a line, and for the structured layout the module too.
    pub open spec fn accepts(&self, record: &LogRecord) -> bool {
        &&& record.file is Some
        &&& record.line is Some
        &&& self.spec_logger_type() == LoggerType::Structured ==> record.module_name is Some
    }

    /// The entry that this logger hands to the native facility for `record`.
    pub open spec fn entry_of(&self, record: &LogRecord) -> EntryView {
        let domain = marshalled_domain(resolved_domain_of(self.spec_domain(), record.target@));
        let level = native_level_of(record.level);
        match self.spec_logger_type() {
            LoggerType::Simple => EntryView::Plain {
                domain,
                level,
                message: simple_text(
                    record.file->0@,
                    record.line->0 as nat,
                    record.message@,
                ),
            },
            LoggerType::SimplePlain => EntryView::Plain { domain, level, message: record.message@ },
            LoggerType::Structured => EntryView::Structured {
                domain,
                level,
                file: record.file->0@,
                line: decimal(record.line->0 as nat),
                func: record.module_name->0@,
                message: record.message@,
            },
        }
    }

    /// The domain that this logger's policy gives `record`, before encoding.
    pub fn resolve_domain(&self, record: &LogRecord) -> (r: Option<String>)
        ensures
            opt_string_view(r) == resolved_domain_of(self.spec_domain(), record.target@),
    {
        match self.domain {
            LoggerDomain::NoDomain => None,
            LoggerDomain::Custom(d) => Some(String::from_str(d)),
            LoggerDomain::Target => Some(record.target.clone()),
        }
    }

    /// Translates `record` into the one entry that goes to the native
    /// facility. The message is passed on as it is, with no escaping.
    pub fn log(&self, record: &LogRecord) -> (r: Entry)
        requires
            self.accepts(record),
        ensures
            r@ == self.entry_of(record),
    {
        let domain = marshal_domain(self.resolve_domain(record));
        let level = record.level.to_glib();
        let file = record.file.as_ref().unwrap();
        let line = *record.line.as_ref().unwrap();
        match self.logger_type {
            LoggerType::Simple => {
                let mut message = file.clone();
                message.append(":");
                push_decimal(&mut message, line);
                message.append(": ");
                message.append(record.message.as_str());
                proof {
                    reveal_strlit(":");
                    reveal_strlit(": ");
                }
                assert(message@ =~= simple_text(file@, line as nat, record.message@));
                Entry::Plain { domain, level, message }
            },
            LoggerType::SimplePlain => Entry::Plain { domain, level, message: record.message.clone() },
            LoggerType::Structured => {
                let mut line_text = String::new();
                push_decimal(&mut line_text, line);
                assert(line_text@ =~= decimal(line as nat));
                Entry::Structured {
                    domain,
                    level,
                    file: file.clone(),
                    line: line_text,
                    func: record.module_name.as_ref().unwrap().clone(),
                    message: record.message.clone(),
                }
            },
        }
    }
}

/// A logger that writes `<file>:<line>: <message>` lines without a domain.
pub fn simple() -> (r: Logger)
    ensures
        r.spec_logger_type() == LoggerType::Simple,
        r.spec_domain() is NoDomain,
{
    Logger { logger_type: LoggerType::Simple, domain: LoggerDomain::NoDomain }
}

/// A logger that writes structured entries without a domain.
pub fn structured() -> (r: Logger)
    ensures
        r.spec_logger_type() == LoggerType::Structured,
        r.spec_domain() is NoDomain,
{
    Logger { logger_type: LoggerType::Structured, domain: LoggerDomain::NoDomain }
}

/// A logger with the given layout and domain policy.
pub fn custom(logger_type: LoggerType, domain: LoggerDomain) -> (r: Logger)
    ensures
        r.spec_logger_type() == logger_type,
        r.spec_domain() == domain,
{
    Logger { logger_type, domain }
}

} // verus!

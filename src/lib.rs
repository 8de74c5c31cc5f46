//! Translation of application log records into entries for glib's message
//! logging facility: the severity mapping, the choice of domain, and the text
//! or fields of each entry, all with verified contracts.
//!
//! A record reaches the facility as exactly one [`Entry`]. The message is
//! passed on unchanged; a domain that glib could not take (empty, or holding a
//! NUL character) is dropped rather than failing the call.

pub mod decimal;
pub mod entry;
pub mod lemmas;
pub mod level;
pub mod logger;
pub mod record;
pub mod sink;

pub use entry::{encodable, marshal_domain, Entry};
pub use level::{NativeLevel, Severity};
pub use logger::{custom, simple, structured, Logger, LoggerDomain, LoggerType};
pub use record::{call_site_target, LogRecord};
pub use sink::InterchangableLoggerWrap;

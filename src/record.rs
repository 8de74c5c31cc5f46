use vstd::prelude::*;

use crate::level::Severity;

verus! {

/// One log record, as the logging call made it: what is logged, where from,
/// and under which target.
pub struct LogRecord {
    pub level: Severity,
    /// The target (category) of the record.
    pub target: String,
    /// The source file of the call site.
    pub file: Option<String>,
    /// The source line of the call site.
    pub line: Option<u32>,
    /// The path of the module that made the call.
    pub module_name: Option<String>,
    /// The message, already formatted.
    pub message: String,
}

/// The view of an optional string slice.
pub open spec fn opt_str_view(o: Option<&str>) -> Option<Seq<char>> {
    match o {
        Some(s) => Some(s@),
        None => None,
    }
}

/// The view of an optional string.
pub open spec fn opt_string_view(o: Option<String>) -> Option<Seq<char>> {
    match o {
        Some(s) => Some(s@),
        None => None,
    }
}

/// The target of a record made at a call site: the target named at the
/// call, else the domain declared for the enclosing scope, else the path of
/// the calling module.
pub open spec fn call_site_target_of(
    explicit: Option<Seq<char>>,
    scope_domain: Option<Seq<char>>,
    module_name: Seq<char>,
) -> Seq<char> {
    match explicit {
        Some(t) => t,
        None => match scope_domain {
            Some(d) => d,
            None => module_name,
        },
    }
}

/// Chooses the target of a record made at a call site.
pub fn call_site_target(explicit: Option<&str>, scope_domain: Option<&str>, module_name: &str) -> (r:
    String)
    ensures
        r@ == call_site_target_of(
            opt_str_view(explicit),
            opt_str_view(scope_domain),
            module_name@,
        ),
{
    match explicit {
        Some(t) => String::from_str(t),
        None => match scope_domain {
            Some(d) => String::from_str(d),
            None => String::from_str(module_name),
        },
    }
}

} // verus!

use vstd::prelude::*;

use crate::entry::is_encodable;
use crate::logger::{resolved_domain_of, Logger, LoggerDomain, LoggerType};
use crate::record::{call_site_target_of, LogRecord};

verus! {

/// A fixed domain is the resolved domain of every record, whatever its
/// target; where it can be encoded, it is the domain of every entry.
pub proof fn lemma_custom_domain_ignores_target(logger: Logger, record: &LogRecord, d: &'static str)
    requires
        logger.spec_domain() == LoggerDomain::Custom(d),
        logger.accepts(record),
    ensures
        resolved_domain_of(logger.spec_domain(), record.target@) == Some(d@),
        is_encodable(d@) ==> logger.entry_of(record).domain() == Some(d@),
{
}

/// Under the target policy, a target named at the call site is the resolved
/// domain; with none named, the domain declared for the enclosing scope is.
pub proof fn lemma_target_domain_follows_call_site(
    explicit: Seq<char>,
    scope_domain: Seq<char>,
    module_name: Seq<char>,
    other_scope: Option<Seq<char>>,
)
    ensures
        resolved_domain_of(
            LoggerDomain::Target,
            call_site_target_of(Some(explicit), other_scope, module_name),
        ) == Some(explicit),
        resolved_domain_of(
            LoggerDomain::Target,
            call_site_target_of(None, Some(scope_domain), module_name),
        ) == Some(scope_domain),
{
}

/// Without a domain policy no record gets a domain.
pub proof fn lemma_no_domain_is_absent(logger: Logger, record: &LogRecord)
    requires
        logger.spec_domain() == LoggerDomain::NoDomain,
        logger.accepts(record),
    ensures
        resolved_domain_of(logger.spec_domain(), record.target@) is None,
        logger.entry_of(record).domain() is None,
{
}

/// The message of a record reaches the native facility unchanged: it is the
/// whole text of a plain or structured entry, and the end of a simple one.
pub proof fn lemma_message_passed_verbatim(logger: Logger, record: &LogRecord)
    requires
        logger.accepts(record),
    ensures
        ({
            let text = logger.entry_of(record).message();
            let m = record.message@;
            &&& logger.spec_logger_type() != LoggerType::Simple ==> text == m
            &&& text.len() >= m.len()
            &&& text.subrange(text.len() - m.len(), text.len() as int) == m
        }),
{
    let text = logger.entry_of(record).message();
    let m = record.message@;
    assert(text.subrange(text.len() - m.len(), text.len() as int) =~= m);
}

} // verus!

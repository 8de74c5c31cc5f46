use vstd::prelude::*;

use crate::level::NativeLevel;
use crate::record::opt_string_view;

verus! {

/// Whether the native facility can take `s` as a domain: a non-empty string
/// without a NUL character.
pub open spec fn is_encodable(s: Seq<char>) -> bool {
    s.len() > 0 && !s.contains('\0')
}

/// Whether `s` can be handed to the native facility as a domain.
pub fn encodable(s: &str) -> (r: bool)
    ensures
        r == is_encodable(s@),
{
    let mut nul = false;
    for c in it: s.chars()
        invariant
            it.seq() == s@,
            nul <==> exists|j: int| 0 <= j < it.index() && s@[j] == '\0',
    {
        if c == '\0' {
            nul = true;
        }
    }
    !s.is_empty() && !nul
}

/// The domain handed to the native facility for a resolved domain: a domain
/// that cannot be encoded is dropped rather than failing the call.
pub open spec fn marshalled_domain(d: Option<Seq<char>>) -> Option<Seq<char>> {
    match d {
        Some(s) => if is_encodable(s) {
            Some(s)
        } else {
            None
        },
        None => None,
    }
}

/// Keeps a resolved domain only where the native facility can take it.
pub fn marshal_domain(d: Option<String>) -> (r: Option<String>)
    ensures
        opt_string_view(r) == marshalled_domain(opt_string_view(d)),
{
    match d {
        Some(s) => if encodable(s.as_str()) {
            Some(s)
        } else {
            None
        },
        None => None,
    }
}

/// One entry for the native facility: what a single call across the
/// boundary hands over.
pub enum Entry {
    /// An unstructured entry: one line of text.
    Plain { domain: Option<String>, level: NativeLevel, message: String },
    /// A structured entry: the call site as separate fields beside the message.
    Structured {
        domain: Option<String>,
        level: NativeLevel,
        file: String,
        line: String,
        func: String,
        message: String,
    },
}

/// The mathematical value of an [`Entry`].
pub enum EntryView {
    Plain { domain: Option<Seq<char>>, level: NativeLevel, message: Seq<char> },
    Structured {
        domain: Option<Seq<char>>,
        level: NativeLevel,
        file: Seq<char>,
        line: Seq<char>,
        func: Seq<char>,
        message: Seq<char>,
    },
}

impl View for Entry {
    type V = EntryView;

    open spec fn view(&self) -> EntryView {
        match self {
            Entry::Plain { domain, level, message } => EntryView::Plain {
                domain: opt_string_view(*domain),
                level: *level,
                message: message@,
            },
            Entry::Structured { domain, level, file, line, func, message } => EntryView::Structured {
                domain: opt_string_view(*domain),
                level: *level,
                file: file@,
                line: line@,
                func: func@,
                message: message@,
            },
        }
    }
}

impl EntryView {
    /// The message text of the entry.
    pub open spec fn message(self) -> Seq<char> {
        match self {
            EntryView::Plain { message, .. } => message,
            EntryView::Structured { message, .. } => message,
        }
    }

    /// The domain of the entry.
    pub open spec fn domain(self) -> Option<Seq<char>> {
        match self {
            EntryView::Plain { domain, .. } => domain,
            EntryView::Structured { domain, .. } => domain,
        }
    }

    /// The native level of the entry.
    pub open spec fn level(self) -> NativeLevel {
        match self {
            EntryView::Plain { level, .. } => level,
            EntryView::Structured { level, .. } => level,
        }
    }
}

} // verus!

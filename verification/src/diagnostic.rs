//! The diagnostics that the cache client hands to whoever logs for it.

use vstd::prelude::*;
use vstd::string::*;

verus! {

/// How serious a diagnostic is.
#[derive(Clone, Copy, Debug, PartialEq, Eq)]
pub enum Level {
    Error,
    Warn,
    Debug,
}

/// One line for the log: its severity and its text.
#[derive(Clone, Debug, PartialEq, Eq)]
pub struct Diagnostic {
    pub level: Level,
    pub message: String,
}

/// A [`Diagnostic`] as mathematical text.
pub ghost struct DiagnosticView {
    pub level: Level,
    pub message: Seq<char>,
}

impl View for Diagnostic {
    type V = DiagnosticView;

    open spec fn view(&self) -> DiagnosticView {
        DiagnosticView { level: self.level, message: self.message@ }
    }
}

impl DeepView for Diagnostic {
    type V = DiagnosticView;

    open spec fn deep_view(&self) -> DiagnosticView {
        self@
    }
}

/// The text that reports a key as written.
pub open spec fn added_text(key: Seq<char>) -> Seq<char> {
    "Key '"@ + key + "' added to Redis."@
}

/// The text that reports a key as removed.
pub open spec fn deleted_text(key: Seq<char>) -> Seq<char> {
    "Key '"@ + key + "' delete from Redis."@
}

/// The text that reports a key as not readable.
pub open spec fn not_found_text(key: Seq<char>) -> Seq<char> {
    "Key "@ + key + " Not found in Cache."@
}

/// The text that reports an address that the store's client does not accept.
pub open spec fn open_failed_text() -> Seq<char> {
    "Could not open Redis Service."@
}

/// The text that reports a store that could not be reached.
pub open spec fn connect_failed_text() -> Seq<char> {
    "Could not connect with Redis Service."@
}

/// `before`, then `key`, then `after`, as one string.
pub fn around_key(before: &str, key: &str, after: &str) -> (text: String)
    ensures
        text@ == before@ + key@ + after@,
{
    let mut text = String::from_str(before);
    text.append(key);
    text.append(after);
    text
}

impl Diagnostic {
    /// A diagnostic of the given severity and text.
    pub fn new(level: Level, message: String) -> (note: Diagnostic)
        ensures
            note@ == (DiagnosticView { level, message: message@ }),
    {
        Diagnostic { level, message }
    }
}

} // verus!

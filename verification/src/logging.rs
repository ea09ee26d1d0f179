//! The log level controller: the live, swappable log-filter directive.
//!
//! The controller owns the directive text currently in effect. Applying a
//! new directive parses it first; directives are ASCII text, and one that is
//! not, or does not parse, is the one locally recovered error of the system
//! — the previous directive stays in effect and no failure propagates to
//! the requester. The host feeds the
//! controller from its fire-and-forget reload queue and installs the parsed
//! filter it hands back.

use vstd::prelude::*;

verus! {

/// Whether the log-filter directive parser accepts a given directive text.
/// Named, not spelled out: acceptance depends on the directive characters
/// alone.
pub uninterp spec fn filter_directive_parses(s: Seq<char>) -> bool;

#[verifier::external_type_specification]
#[verifier::external_body]
pub struct ExEnvFilter(tracing_subscriber::EnvFilter);

/// Relies on tracing_subscriber's `EnvFilter::builder().parse`: a pure parse
/// of the directive text, yielding a filter exactly when the text is a valid
/// directive set. The parser slices the raw text with indices taken from its
/// trimmed form, which can fall inside a multi-byte character and panic; on
/// ASCII text every index lies on a character boundary, so the parser is
/// relied on for ASCII text only.
#[verifier::external_body]
fn parse_filter(s: &str) -> (r: Option<tracing_subscriber::EnvFilter>)
    requires
        vstd::utf8::is_ascii_chars(s@),
    ensures
        r is Some <==> filter_directive_parses(s@),
{
    match tracing_subscriber::EnvFilter::builder().parse(s) {
        Ok(f) => Some(f),
        Err(_) => None,
    }
}

/// Whether the controller accepts a directive: it must be ASCII — the
/// parser is relied on for ASCII text only — and it must parse.
pub open spec fn directive_accepted(s: Seq<char>) -> bool {
    vstd::utf8::is_ascii_chars(s) && filter_directive_parses(s)
}

/// The controller state: the directive currently in effect.
pub struct LogController {
    directive: String,
}

impl LogController {
    /// The text of the directive in effect.
    pub closed spec fn directive(self) -> Seq<char> {
        self.directive@
    }

    /// A controller starting from the fixed directive applied at process
    /// start, before any configuration occurs.
    pub fn new(initial: String) -> (r: Self)
        ensures
            r.directive() == initial@,
    {
        LogController { directive: initial }
    }

    /// The directive currently in effect, for display.
    pub fn current_directive(&self) -> (r: &str)
        ensures
            r@ == self.directive(),
    {
        self.directive.as_str()
    }

    /// Apply a new directive: accept it only when it is ASCII and parses,
    /// and then make it the directive in effect, handing back the parsed
    /// filter for the host to install. A rejected directive — non-ASCII
    /// text, which the parser is not relied on for, or a parse failure —
    /// leaves the previous directive in effect and hands nothing back: the
    /// failure is recovered here, not propagated.
    pub fn apply(&mut self, directive: String) -> (r: Option<
        tracing_subscriber::EnvFilter,
    >)
        ensures
            directive_accepted(directive@) ==> r is Some && final(self).directive()
                == directive@,
            !directive_accepted(directive@) ==> r is None && *final(self) == *old(self),
    {
        if !directive.as_str().is_ascii() {
            return None;
        }
        match parse_filter(directive.as_str()) {
            Some(filter) => {
                self.directive = directive;
                Some(filter)
            },
            None => None,
        }
    }
}

} // verus!

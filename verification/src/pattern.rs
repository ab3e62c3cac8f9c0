//! The boundary to the regex engine. Pattern compilation and matching are
//! the one piece of the rule matcher this crate does not implement itself;
//! both are deterministic in their text arguments, so their results carry
//! names that the contracts of the rule matcher speak of.

use vstd::prelude::*;

verus! {

/// Whether `regex::Regex::new` accepts `pat` as a pattern.
pub uninterp spec fn regex_compiles(pat: Seq<char>) -> bool;

/// Whether the compiled form of `pat` matches anywhere inside `text`.
pub uninterp spec fn regex_accepts(pat: Seq<char>, text: Seq<char>) -> bool;

/// Relies on `regex::Regex::new`: whether a pattern compiles depends on
/// the pattern text alone.
#[verifier::external_body]
pub(crate) fn pattern_compiles(pat: &str) -> (r: bool)
    ensures
        r == regex_compiles(pat@),
{
    regex::Regex::new(pat).is_ok()
}

/// Relies on `regex::Regex::new` and `regex::Regex::is_match`: both are
/// deterministic in the pattern and haystack texts. The pattern is
/// compiled afresh on each call; the precondition keeps the call on
/// patterns that compile, so the fallback arm is never taken.
#[verifier::external_body]
pub(crate) fn pattern_matches(pat: &str, text: &str) -> (r: bool)
    requires
        regex_compiles(pat@),
    ensures
        r == regex_accepts(pat@, text@),
{
    match regex::Regex::new(pat) {
        Ok(re) => re.is_match(text),
        Err(_) => false,
    }
}

} // verus!

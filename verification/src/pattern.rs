//! The pattern-matching seam: rules carry a text pattern that is compiled
//! and evaluated against process names with partial-match semantics (a match
//! anywhere in the name counts, with no full-string anchoring).

use vstd::prelude::*;

verus! {

/// Whether a pattern text compiles as a matching expression.
pub uninterp spec fn pattern_compiles(pattern: Seq<char>) -> bool;

/// Whether a compiled pattern matches anywhere in a text.
pub uninterp spec fn pattern_matches(pattern: Seq<char>, text: Seq<char>) -> bool;

/// Relies on regex::Regex::new: whether a pattern compiles is a function of
/// the pattern text alone.
#[verifier::external_body]
pub(crate) fn pattern_is_valid(pattern: &str) -> (r: bool)
    ensures
        r == pattern_compiles(pattern@),
{
    regex::Regex::new(pattern).is_ok()
}

/// Relies on regex::Regex::new and regex::Regex::is_match: `is_match` is true
/// if and only if the compiled pattern matches anywhere in the text, and the
/// answer is a function of the pattern and the text alone. A pattern that
/// does not compile matches nothing.
#[verifier::external_body]
pub(crate) fn pattern_is_match(pattern: &str, text: &str) -> (r: bool)
    ensures
        pattern_compiles(pattern@) ==> r == pattern_matches(pattern@, text@),
        !pattern_compiles(pattern@) ==> r == false,
{
    match regex::Regex::new(pattern) {
        Ok(re) => re.is_match(text),
        Err(_) => false,
    }
}

} // verus!

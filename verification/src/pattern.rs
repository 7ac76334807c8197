//! Pattern filters match folder names against a configured regular
//! expression. Compilation and matching are done by the regex crate; what
//! they decide is named here and everything built on top of it is verified.

use vstd::prelude::*;

verus! {

/// Whether the pattern text is a valid regular expression, exactly as
/// `regex::Regex::new` decides it: valid iff compilation succeeds.
pub uninterp spec fn pattern_valid(p: Seq<char>) -> bool;

/// Whether the regular expression `p` matches anywhere in the text `s`,
/// exactly as `regex::Regex::is_match` decides it for a regex compiled
/// from `p` with default settings.
pub uninterp spec fn pattern_matches(p: Seq<char>, s: Seq<char>) -> bool;

/// Relies on `regex::Regex::new` and `regex::Regex::is_match`: whether `new`
/// succeeds depends on the pattern text alone, and what `is_match` returns
/// for a regex that `new` built depends on the pattern and haystack texts
/// alone. `None` reports an invalid pattern.
#[verifier::external_body]
fn regex_match(p: &str, s: &str) -> (r: Option<bool>)
    ensures
        r is Some <==> pattern_valid(p@),
        r matches Some(b) ==> b == pattern_matches(p@, s@),
{
    regex::Regex::new(p).ok().map(|re| re.is_match(s))
}

/// Whether a configured pattern is a valid regular expression.
pub fn pattern_check(p: &str) -> (r: bool)
    ensures
        r == pattern_valid(p@),
{
    regex_match(p, "").is_some()
}

/// Match a pattern already known to be valid against a text.
pub fn pattern_match(p: &str, s: &str) -> (r: bool)
    requires
        pattern_valid(p@),
    ensures
        r == pattern_matches(p@, s@),
{
    match regex_match(p, s) {
        Option::Some(b) => b,
        Option::None => {
            assert(false);
            false
        },
    }
}

/// Match a pattern against a text, reporting an invalid pattern as `None`.
pub fn pattern_try_match(p: &str, s: &str) -> (r: Option<bool>)
    ensures
        r is Some <==> pattern_valid(p@),
        r matches Some(b) ==> b == pattern_matches(p@, s@),
{
    if pattern_check(p) {
        Option::Some(pattern_match(p, s))
    } else {
        Option::None
    }
}

} // verus!

//! The regular-expression engine, as far as the library relies on it.
use regex::Regex;
use vstd::prelude::*;

verus! {

/// Whether `regex::Regex::new` accepts `pattern`, that is, whether the text is
/// a regular expression that the engine can compile within its default limits.
pub uninterp spec fn regex_compiles(pattern: Seq<char>) -> bool;

/// What `regex::Regex::is_match` answers for the expression compiled from
/// `pattern` on the haystack `text`: whether the expression matches somewhere
/// in it. Meaningful only where `regex_compiles(pattern)`.
pub uninterp spec fn regex_is_match(pattern: Seq<char>, text: Seq<char>) -> bool;

/// Compiles `pattern` with `regex::Regex::new` and searches `text` with
/// `regex::Regex::is_match`.
///
/// Trusted, not proved: the answer is `None` exactly when the engine refuses
/// the pattern, and otherwise the engine's verdict, which depends on the two
/// texts alone.
#[verifier::external_body]
pub(crate) fn match_pattern(pattern: &str, text: &str) -> (verdict: Option<bool>)
    ensures
        verdict == (if regex_compiles(pattern@) {
            Some(regex_is_match(pattern@, text@))
        } else {
            None::<bool>
        }),
{
    match Regex::new(pattern) {
        Ok(compiled) => Some(compiled.is_match(text)),
        Err(_) => None,
    }
}

/// Whether the engine accepts `pattern`: it does exactly when a search with
/// it, here of the empty text, comes back with a verdict.
pub fn pattern_compiles(pattern: &str) -> (accepted: bool)
    ensures
        accepted == regex_compiles(pattern@),
{
    match_pattern(pattern, "").is_some()
}

} // verus!

//! The regular-expression engine behind the classifiers.
//!
//! Matching is done by the `regex` crate. Nothing here is proved about what a
//! pattern matches: the functions of this module are believed to return what
//! the crate returns, and that result is given a name so that the contracts
//! of the classifiers can speak of it.

use regex::Regex;
use vstd::prelude::*;
use vstd::string::*;

verus! {

/// Whether `regex::Regex::new` accepts `pattern`.
pub uninterp spec fn regex_compiles(pattern: Seq<char>) -> bool;

/// What `regex::Regex::is_match` answers for the regex compiled from `pattern`
/// on `haystack`: whether the pattern matches anywhere in it.
pub uninterp spec fn regex_is_match(pattern: Seq<char>, haystack: Seq<char>) -> bool;

/// The byte offsets at which the successive non-overlapping matches begin
/// that `regex::Regex::find_iter` yields for the regex compiled from
/// `pattern` on `haystack`, in the order in which it yields them.
pub uninterp spec fn regex_match_starts(pattern: Seq<char>, haystack: Seq<char>) -> Seq<usize>;

/// Compiles `pattern` with `regex::Regex::new` and asks `Regex::is_match`
/// whether it matches somewhere in `haystack`.
///
/// Believed, not proved: the answer is `None` exactly when the crate rejects
/// the pattern, and else holds what `is_match` returned.
#[verifier::external_body]
pub(crate) fn pattern_matches(pattern: &str, haystack: &str) -> (found: Option<bool>)
    ensures
        found is Some <==> regex_compiles(pattern@),
        found matches Some(hit) ==> hit == regex_is_match(pattern@, haystack@),
{
    match Regex::new(pattern) {
        Ok(re) => Some(re.is_match(haystack)),
        Err(_) => None,
    }
}

/// Compiles `pattern` with `regex::Regex::new` and collects `Match::start` of
/// every match that `Regex::find_iter` yields on `haystack`.
///
/// Believed, not proved: the answer is `None` exactly when the crate rejects
/// the pattern, and else holds the starts in the order of the iterator.
#[verifier::external_body]
pub(crate) fn pattern_match_starts(pattern: &str, haystack: &str) -> (found: Option<Vec<usize>>)
    ensures
        found is Some <==> regex_compiles(pattern@),
        found matches Some(starts) ==> starts@ == regex_match_starts(pattern@, haystack@),
{
    match Regex::new(pattern) {
        Ok(re) => Some(re.find_iter(haystack).map(|m| m.start()).collect()),
        Err(_) => None,
    }
}

/// Tells whether `pattern` is one that the engine accepts.
pub fn is_valid_pattern(pattern: &str) -> (valid: bool)
    ensures
        valid == regex_compiles(pattern@),
{
    pattern_matches(pattern, "").is_some()
}

} // verus!

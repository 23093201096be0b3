//! Detection of `#[allow(...)]` and `#[expect(...)]` attributes in Rust source
//! text, leaving out those that stand in comments and string literals.

use crate::patterns::{pattern_match_starts, regex_compiles, regex_match_starts};
use crate::scanner::{is_excluded_position, is_in_comment_or_string};
use vstd::prelude::*;
use vstd::string::*;
use vstd::utf8::encode_utf8;

verus! {

/// What a source text holds of the two lint-suppressing attributes.
#[derive(Debug, Clone, Copy, PartialEq, Eq, Structural)]
pub enum RustAllowCheckResult {
    /// Neither attribute.
    Clean,
    /// `#[allow(...)]` only.
    HasAllow,
    /// `#[expect(...)]` only.
    HasExpect,
    /// Both attributes.
    HasBoth,
}

/// Matches the head of an outer or inner `allow` attribute.
pub const RUST_ALLOW_PATTERN: &'static str = r"#!?\[allow\s*\(";

/// Matches the head of an outer or inner `expect` attribute.
pub const RUST_EXPECT_PATTERN: &'static str = r"#!?\[expect\s*\(";

/// One of `starts` is a position of `content` outside comments and strings.
pub open spec fn has_real_start(content: Seq<u8>, starts: Seq<usize>) -> bool {
    exists|i: int| 0 <= i < starts.len() && !is_excluded_position(content, #[trigger] starts[i] as int)
}

/// `pattern` is valid, and one of its matches in `content` begins outside
/// comments and strings.
pub open spec fn has_real_match(pattern: &str, content: Seq<char>) -> bool {
    regex_compiles(pattern@) && has_real_start(
        encode_utf8(content),
        regex_match_starts(pattern@, content),
    )
}

/// The finding for a text in which the two attributes are present or not.
pub open spec fn finding_of(has_allow: bool, has_expect: bool) -> RustAllowCheckResult {
    if has_allow && has_expect {
        RustAllowCheckResult::HasBoth
    } else if has_allow {
        RustAllowCheckResult::HasAllow
    } else if has_expect {
        RustAllowCheckResult::HasExpect
    } else {
        RustAllowCheckResult::Clean
    }
}

/// The finding for `content`: an empty text holds nothing, and in any other
/// the two attributes are looked for independently.
pub open spec fn rust_allow_finding(content: Seq<char>) -> RustAllowCheckResult {
    if content.len() == 0 {
        RustAllowCheckResult::Clean
    } else {
        finding_of(
            has_real_match(RUST_ALLOW_PATTERN, content),
            has_real_match(RUST_EXPECT_PATTERN, content),
        )
    }
}

/// Tells whether one of the positions `starts` of `content` lies outside
/// comments and string literals.
pub fn any_real_start(content: &str, starts: &Vec<usize>) -> (found: bool)
    ensures
        found == has_real_start(content.spec_bytes(), starts@),
{
    let mut i: usize = 0;
    while i < starts.len()
        invariant
            i <= starts@.len(),
            forall|j: int|
                0 <= j < i ==> is_excluded_position(
                    content.spec_bytes(),
                    #[trigger] starts@[j] as int,
                ),
        decreases starts@.len() - i,
    {
        if !is_in_comment_or_string(content, starts[i]) {
            return true;
        }
        i += 1;
    }
    false
}

/// Tells whether `pattern` matches `content` somewhere outside comments and
/// string literals. A pattern that is not valid matches nowhere.
pub fn find_real_matches(content: &str, pattern: &str) -> (found: bool)
    ensures
        found == has_real_match(pattern, content@),
{
    match pattern_match_starts(pattern, content) {
        Some(starts) => any_real_start(content, &starts),
        None => false,
    }
}

/// Combines the presence of the two attributes into one finding.
pub fn combine_findings(has_allow: bool, has_expect: bool) -> (finding: RustAllowCheckResult)
    ensures
        finding == finding_of(has_allow, has_expect),
{
    match (has_allow, has_expect) {
        (true, true) => RustAllowCheckResult::HasBoth,
        (true, false) => RustAllowCheckResult::HasAllow,
        (false, true) => RustAllowCheckResult::HasExpect,
        (false, false) => RustAllowCheckResult::Clean,
    }
}

/// Looks for `#[allow(...)]` and `#[expect(...)]` attributes in `content`,
/// in their outer and inner form, and reports which of the two are there.
///
/// Attributes in comments and string literals do not count. Whether the text
/// is Rust at all is for the caller to decide.
pub fn check_rust_allow_attributes(content: &str) -> (finding: RustAllowCheckResult)
    ensures
        finding == rust_allow_finding(content@),
        content@.len() == 0 ==> finding == RustAllowCheckResult::Clean,
{
    if content.is_empty() {
        return RustAllowCheckResult::Clean;
    }
    let has_allow = find_real_matches(content, RUST_ALLOW_PATTERN);
    let has_expect = find_real_matches(content, RUST_EXPECT_PATTERN);
    combine_findings(has_allow, has_expect)
}

} // verus!

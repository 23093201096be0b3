//! The checks with owned arguments and results, for callers that come from
//! another language and hand over their strings.

use crate::attributes::{RustAllowCheckResult, check_rust_allow_attributes, rust_allow_finding};
use crate::command::{
    Platform,
    check_destructive_find,
    destructive_find,
    is_rm_command,
    mentions_delete_verb,
    rm_command,
};
use crate::paths::{
    after_dot,
    extension_dot,
    is_plain_path,
    is_rs,
    is_rust_file,
    mentions_rs_extension,
};
use vstd::prelude::*;
use vstd::string::*;
use vstd::utf8::encode_utf8;

verus! {

/// What a source text holds of the two lint-suppressing attributes.
#[derive(Debug, Clone, Copy, PartialEq, Eq, Structural)]
pub enum RustAllowCheck {
    /// Neither attribute.
    Clean,
    /// `#[allow(...)]` only.
    HasAllow,
    /// `#[expect(...)]` only.
    HasExpect,
    /// Both attributes.
    HasBoth,
}

/// The same finding in the other enum.
pub open spec fn as_check(finding: RustAllowCheckResult) -> RustAllowCheck {
    match finding {
        RustAllowCheckResult::Clean => RustAllowCheck::Clean,
        RustAllowCheckResult::HasAllow => RustAllowCheck::HasAllow,
        RustAllowCheckResult::HasExpect => RustAllowCheck::HasExpect,
        RustAllowCheckResult::HasBoth => RustAllowCheck::HasBoth,
    }
}

/// The text of a description that may be missing.
pub open spec fn description_text(description: Option<&'static str>) -> Option<Seq<char>> {
    match description {
        Some(d) => Some(d@),
        None => None,
    }
}

/// The text of an owned string that may be missing.
pub open spec fn owned_text(text: Option<String>) -> Option<Seq<char>> {
    match text {
        Some(t) => Some(t@),
        None => None,
    }
}

/// Tells whether `cmd` runs `rm` in a POSIX shell.
pub fn is_rm_command_js(cmd: String) -> (blocked: bool)
    ensures
        blocked == rm_command(Platform::Unix, cmd@),
        !mentions_delete_verb(Platform::Unix, encode_utf8(cmd@)) ==> !blocked,
{
    is_rm_command(cmd.as_str())
}

/// Describes in what way `cmd` is a destructive `find` command of a POSIX
/// shell, if it is one.
pub fn check_destructive_find_js(cmd: String) -> (description: Option<String>)
    ensures
        owned_text(description) == description_text(destructive_find(Platform::Unix, cmd@)),
{
    match check_destructive_find(cmd.as_str()) {
        Some(description) => Some(description.to_owned()),
        None => None,
    }
}

/// Tells whether `file_path` names a Rust source file. A path without `.rs`
/// in it never does; a plain path that ends in a component with a `.` behind
/// its first byte does where `rs` follows the last `.`, in capitals or not.
pub fn is_rust_file_js(file_path: String) -> (rust: bool)
    ensures
        rust ==> mentions_rs_extension(encode_utf8(file_path@)),
        forall|start: int, dot: int|
            is_plain_path(encode_utf8(file_path@)) && #[trigger] extension_dot(
                encode_utf8(file_path@),
                start,
                dot,
            ) ==> rust == is_rs(after_dot(encode_utf8(file_path@), dot)),
{
    let path = file_path.as_str();
    assert(path.spec_bytes() == encode_utf8(file_path@));
    is_rust_file(path)
}

/// Reports which of `#[allow(...)]` and `#[expect(...)]` stand in `content`
/// outside comments and string literals.
pub fn check_rust_allow_attributes_js(content: String) -> (check: RustAllowCheck)
    ensures
        check == as_check(rust_allow_finding(content@)),
{
    match check_rust_allow_attributes(content.as_str()) {
        RustAllowCheckResult::Clean => RustAllowCheck::Clean,
        RustAllowCheckResult::HasAllow => RustAllowCheck::HasAllow,
        RustAllowCheckResult::HasExpect => RustAllowCheck::HasExpect,
        RustAllowCheckResult::HasBoth => RustAllowCheck::HasBoth,
    }
}

} // verus!

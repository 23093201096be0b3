//! Safety checks for the tool calls of a coding agent: classifiers for
//! destructive shell commands, a detector for lint-suppressing attributes in
//! Rust sources, and the policy that turns both into a verdict.

pub mod attributes;
pub mod bindings;
pub mod command;
pub mod hook;
pub mod paths;
pub mod patterns;
pub mod policy;
pub mod scanner;
pub mod text;

pub use crate::attributes::{
    RUST_ALLOW_PATTERN, RUST_EXPECT_PATTERN, RustAllowCheckResult, check_rust_allow_attributes,
    find_real_matches,
};
pub use crate::bindings::{
    RustAllowCheck, check_destructive_find_js, check_rust_allow_attributes_js, is_rm_command_js,
    is_rust_file_js,
};
pub use crate::command::{
    Platform, check_destructive_find, check_destructive_find_on, is_rm_command, is_rm_command_on,
};
pub use crate::hook::{
    Decision, DecisionBehavior, HookEventName, HookInput, HookOutput, HookSpecificOutput,
    PermissionDecision, ToolInput, ToolName,
};
pub use crate::paths::is_rust_file;
pub use crate::policy::{
    DenyRustAllowOptions, PolicyConfig, Verdict, block_rm, confirm_destructive_find,
    deny_rust_allow, deny_rust_allow_action, patterns_compile, permission_request_action,
    pre_tool_use_action,
};
pub use crate::scanner::is_in_comment_or_string;

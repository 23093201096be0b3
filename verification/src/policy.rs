//! The decision policy: what the checks make of a tool call, given which of
//! them are enabled.

use crate::attributes::{
    RUST_ALLOW_PATTERN,
    RUST_EXPECT_PATTERN,
    RustAllowCheckResult,
    check_rust_allow_attributes,
    rust_allow_finding,
};
use crate::command::{
    Platform,
    check_destructive_find_on,
    destructive_find,
    find_gate,
    find_gate_of,
    find_rule_list,
    find_rules,
    is_rm_command_on,
    rm_command,
    rm_pattern,
    rm_pattern_of,
};
use crate::hook::{
    Decision,
    DecisionBehavior,
    DecisionView,
    HookEventName,
    HookInput,
    HookOutput,
    HookOutputView,
    HookSpecificOutput,
    HookSpecificOutputView,
    PermissionDecision,
    ToolInput,
    ToolName,
    output_view,
    text_or_empty,
};
use crate::paths::{
    after_dot,
    extension_dot,
    is_plain_path,
    is_rs,
    is_rust_file,
    mentions_rs_extension,
};
use crate::patterns::{is_valid_pattern, regex_compiles};
use vstd::prelude::*;
use vstd::string::*;
use vstd::utf8::encode_utf8;

verus! {

/// What the checks make of one tool call.
#[derive(Debug)]
pub enum Verdict {
    /// Nothing to object to: the host decides by itself.
    NoOpinion,
    /// The call must not run.
    Deny { message: String },
    /// The user has to confirm the call.
    Ask { reason: String },
}

/// A `Verdict` with its text as a sequence of characters.
pub ghost enum VerdictView {
    NoOpinion,
    Deny { message: Seq<char> },
    Ask { reason: Seq<char> },
}

impl View for Verdict {
    type V = VerdictView;

    open spec fn view(&self) -> VerdictView {
        match self {
            Verdict::NoOpinion => VerdictView::NoOpinion,
            Verdict::Deny { message } => VerdictView::Deny { message: message@ },
            Verdict::Ask { reason } => VerdictView::Ask { reason: reason@ },
        }
    }
}

/// How attributes that suppress lints are treated.
#[derive(Debug)]
pub struct DenyRustAllowOptions {
    /// In lenient mode `#[expect(...)]` is let through, and offered in place
    /// of `#[allow(...)]`; in strict mode both are denied.
    pub expect: bool,
    /// Text to append to a denial.
    pub additional_context: Option<String>,
}

/// Which checks are enabled, and how they are run.
#[derive(Debug)]
pub struct PolicyConfig {
    /// The shell whose commands are classified.
    pub platform: Platform,
    /// Deny deletion commands.
    pub block_rm: bool,
    /// Ask before a destructive `find`.
    pub confirm_destructive_find: bool,
    /// Deny attributes that suppress lints in Rust files.
    pub deny_rust_allow: bool,
    /// How that last check is run.
    pub rust_allow: DenyRustAllowOptions,
}

pub const RM_FORBIDDEN: &'static str =
    "rm is forbidden. Use trash command to delete files. Example: trash <path...>";

pub const FIND_REASON_HEAD: &'static str = "Destructive find command detected: ";

pub const FIND_REASON_TAIL: &'static str =
    ". This operation may delete or modify files. Please confirm.";

pub const ALLOW_DENIED_USE_EXPECT: &'static str =
    "Adding #[allow(...)] or #![allow(...)] attributes is not permitted. Use #[expect(...)] instead, which will warn when the lint is no longer triggered.";

pub const BOTH_DENIED: &'static str =
    "Adding #[allow(...)] or #[expect(...)] attributes is not permitted. Fix the underlying issue instead of suppressing the warning.";

pub const ALLOW_DENIED: &'static str =
    "Adding #[allow(...)] or #![allow(...)] attributes is not permitted. Fix the underlying issue instead of suppressing the warning.";

pub const EXPECT_DENIED: &'static str =
    "Adding #[expect(...)] or #![expect(...)] attributes is not permitted. Fix the underlying issue instead of suppressing the warning.";

/// The engine accepts every pattern that the checks use on `platform`.
pub open spec fn patterns_valid(platform: Platform) -> bool {
    &&& regex_compiles(rm_pattern(platform)@)
    &&& regex_compiles(find_gate(platform)@)
    &&& forall|i: int|
        0 <= i < find_rules(platform).len() ==> regex_compiles(
            (#[trigger] find_rules(platform)[i]).pattern@,
        )
    &&& regex_compiles(RUST_ALLOW_PATTERN@)
    &&& regex_compiles(RUST_EXPECT_PATTERN@)
}

/// Tells whether the engine accepts every pattern that the checks use on
/// `platform`. A check whose pattern it rejects reports nothing, so this is
/// worth asking once before the checks are relied on.
pub fn patterns_compile(platform: Platform) -> (valid: bool)
    ensures
        valid == patterns_valid(platform),
{
    if !is_valid_pattern(rm_pattern_of(platform)) || !is_valid_pattern(find_gate_of(platform))
        || !is_valid_pattern(RUST_ALLOW_PATTERN) || !is_valid_pattern(RUST_EXPECT_PATTERN) {
        return false;
    }
    let rules = find_rule_list(platform);
    let mut i: usize = 0;
    while i < rules.len()
        invariant
            i <= rules@.len(),
            rules@ == find_rules(platform),
            forall|j: int|
                0 <= j < i ==> regex_compiles((#[trigger] find_rules(platform)[j]).pattern@),
        decreases rules@.len() - i,
    {
        if !is_valid_pattern(rules[i].pattern) {
            return false;
        }
        i += 1;
    }
    true
}

/// The reason given when a destructive `find` needs confirmation.
pub open spec fn find_reason(description: Seq<char>) -> Seq<char> {
    FIND_REASON_HEAD@ + description + FIND_REASON_TAIL@
}

/// The verdict on a shell command, given what the two classifiers found. A
/// deletion command is denied before a destructive `find` is asked about.
pub open spec fn shell_verdict(
    block_rm: bool,
    confirm_destructive_find: bool,
    is_rm: bool,
    destructive: Option<&'static str>,
) -> VerdictView {
    if block_rm && is_rm {
        VerdictView::Deny { message: RM_FORBIDDEN@ }
    } else if confirm_destructive_find && destructive is Some {
        VerdictView::Ask { reason: find_reason(destructive->Some_0@) }
    } else {
        VerdictView::NoOpinion
    }
}

/// The message that denies `finding`, or `None` where it is let through.
pub open spec fn denial_message(expect: bool, finding: RustAllowCheckResult) -> Option<
    &'static str,
> {
    if expect {
        match finding {
            RustAllowCheckResult::HasAllow | RustAllowCheckResult::HasBoth => Some(
                ALLOW_DENIED_USE_EXPECT,
            ),
            _ => None,
        }
    } else {
        match finding {
            RustAllowCheckResult::Clean => None,
            RustAllowCheckResult::HasBoth => Some(BOTH_DENIED),
            RustAllowCheckResult::HasAllow => Some(ALLOW_DENIED),
            RustAllowCheckResult::HasExpect => Some(EXPECT_DENIED),
        }
    }
}

/// `message`, with a space and the additional context behind it where there
/// is one.
pub open spec fn with_context(message: Seq<char>, additional_context: Option<String>) -> Seq<char> {
    match additional_context {
        Some(context) => message + " "@ + context@,
        None => message,
    }
}

/// The verdict on a finding in a Rust file.
pub open spec fn attribute_verdict(
    options: DenyRustAllowOptions,
    finding: RustAllowCheckResult,
) -> VerdictView {
    match denial_message(options.expect, finding) {
        Some(message) => VerdictView::Deny {
            message: with_context(message@, options.additional_context),
        },
        None => VerdictView::NoOpinion,
    }
}

/// A deletion command is denied where that check is enabled, whatever the
/// other check is set to and whatever it would find.
pub proof fn lemma_deletion_takes_priority(
    confirm_destructive_find: bool,
    destructive: Option<&'static str>,
)
    ensures
        shell_verdict(true, confirm_destructive_find, true, destructive) == (VerdictView::Deny {
            message: RM_FORBIDDEN@,
        }),
{
}

/// With both checks disabled there is no opinion on any command.
pub proof fn lemma_disabled_checks_no_opinion(is_rm: bool, destructive: Option<&'static str>)
    ensures
        shell_verdict(false, false, is_rm, destructive) == VerdictView::NoOpinion,
{
}

/// In strict mode every finding but a clean one is denied; in lenient mode
/// `#[expect(...)]` alone is let through, and `#[allow(...)]` is denied with
/// or without it.
pub proof fn lemma_modes(options: DenyRustAllowOptions, finding: RustAllowCheckResult)
    ensures
        !options.expect ==> (attribute_verdict(options, finding) is Deny <==> finding
            != RustAllowCheckResult::Clean),
        options.expect ==> (attribute_verdict(options, finding) is Deny <==> (finding
            == RustAllowCheckResult::HasAllow || finding == RustAllowCheckResult::HasBoth)),
        attribute_verdict(options, finding) is Deny || attribute_verdict(options, finding)
            == VerdictView::NoOpinion,
{
}

/// A denial ends with the additional context, behind one space, where one is
/// configured.
pub proof fn lemma_context_is_appended(options: DenyRustAllowOptions, finding: RustAllowCheckResult)
    requires
        options.additional_context is Some,
        attribute_verdict(options, finding) is Deny,
    ensures
        attribute_verdict(options, finding)->Deny_message == denial_message(
            options.expect,
            finding,
        )->Some_0@ + " "@ + options.additional_context->Some_0@,
{
}

/// Decides on a shell command from what the two classifiers found.
pub fn decide_shell(
    block_rm: bool,
    confirm_destructive_find: bool,
    is_rm: bool,
    destructive: Option<&'static str>,
) -> (verdict: Verdict)
    ensures
        verdict@ == shell_verdict(block_rm, confirm_destructive_find, is_rm, destructive),
        block_rm && is_rm ==> verdict is Deny,
        !block_rm && !confirm_destructive_find ==> verdict is NoOpinion,
{
    if block_rm && is_rm {
        return Verdict::Deny { message: RM_FORBIDDEN.to_owned() };
    }
    if confirm_destructive_find {
        if let Some(description) = destructive {
            let mut reason = FIND_REASON_HEAD.to_owned();
            reason.append(description);
            reason.append(FIND_REASON_TAIL);
            return Verdict::Ask { reason };
        }
    }
    Verdict::NoOpinion
}

/// Picks the message that denies `finding`, if it is denied.
pub fn choose_denial(expect: bool, finding: RustAllowCheckResult) -> (message: Option<
    &'static str,
>)
    ensures
        message == denial_message(expect, finding),
        !expect ==> (message is None <==> finding == RustAllowCheckResult::Clean),
        expect ==> (message is Some <==> (finding == RustAllowCheckResult::HasAllow || finding
            == RustAllowCheckResult::HasBoth)),
{
    if expect {
        match finding {
            RustAllowCheckResult::HasAllow | RustAllowCheckResult::HasBoth => Some(
                ALLOW_DENIED_USE_EXPECT,
            ),
            _ => None,
        }
    } else {
        match finding {
            RustAllowCheckResult::Clean => None,
            RustAllowCheckResult::HasBoth => Some(BOTH_DENIED),
            RustAllowCheckResult::HasAllow => Some(ALLOW_DENIED),
            RustAllowCheckResult::HasExpect => Some(EXPECT_DENIED),
        }
    }
}

/// Decides on a finding in a Rust file.
pub fn decide_attributes(options: &DenyRustAllowOptions, finding: RustAllowCheckResult) -> (verdict:
    Verdict)
    ensures
        verdict@ == attribute_verdict(*options, finding),
        verdict is Deny || verdict is NoOpinion,
        finding == RustAllowCheckResult::Clean ==> verdict is NoOpinion,
{
    match choose_denial(options.expect, finding) {
        Some(base) => {
            let mut message = base.to_owned();
            if let Some(context) = &options.additional_context {
                message.append(" ");
                message.append(context.as_str());
            }
            Verdict::Deny { message }
        },
        None => Verdict::NoOpinion,
    }
}

/// The answer that carries `verdict` for `event`: none for no opinion; a
/// denial of a permission request as a decision with its message; any other
/// denial, and a request to confirm, as a permission decision with its
/// reason.
pub open spec fn rendered(event: HookEventName, verdict: VerdictView) -> Option<HookOutputView> {
    match verdict {
        VerdictView::NoOpinion => None,
        VerdictView::Deny { message } => Some(
            HookOutputView {
                hook_specific_output: if event == HookEventName::PermissionRequest {
                    HookSpecificOutputView {
                        hook_event_name: event,
                        decision: Some(
                            DecisionView { behavior: DecisionBehavior::Deny, message: message },
                        ),
                        permission_decision: None,
                        permission_decision_reason: None,
                    }
                } else {
                    HookSpecificOutputView {
                        hook_event_name: event,
                        decision: None,
                        permission_decision: Some(PermissionDecision::Deny),
                        permission_decision_reason: Some(message),
                    }
                },
            },
        ),
        VerdictView::Ask { reason } => Some(
            HookOutputView {
                hook_specific_output: HookSpecificOutputView {
                    hook_event_name: event,
                    decision: None,
                    permission_decision: Some(PermissionDecision::Ask),
                    permission_decision_reason: Some(reason),
                },
            },
        ),
    }
}

/// Puts `verdict` into the answer for `event`; no opinion gives no answer.
pub fn render_verdict(event: HookEventName, verdict: Verdict) -> (output: Option<HookOutput>)
    ensures
        output_view(output) == rendered(event, verdict@),
        output is None <==> verdict is NoOpinion,
{
    match verdict {
        Verdict::NoOpinion => None,
        Verdict::Deny { message } => {
            let body = match event {
                HookEventName::PermissionRequest => HookSpecificOutput {
                    hook_event_name: event,
                    decision: Some(Decision { behavior: DecisionBehavior::Deny, message }),
                    permission_decision: None,
                    permission_decision_reason: None,
                },
                HookEventName::PreToolUse => HookSpecificOutput {
                    hook_event_name: event,
                    decision: None,
                    permission_decision: Some(PermissionDecision::Deny),
                    permission_decision_reason: Some(message),
                },
            };
            Some(HookOutput { hook_specific_output: body })
        },
        Verdict::Ask { reason } => Some(
            HookOutput {
                hook_specific_output: HookSpecificOutput {
                    hook_event_name: event,
                    decision: None,
                    permission_decision: Some(PermissionDecision::Ask),
                    permission_decision_reason: Some(reason),
                },
            },
        ),
    }
}

/// The verdict on the shell command `text` under `config`: none on an empty
/// command, and else what the enabled classifiers make of it.
pub open spec fn command_verdict(config: PolicyConfig, text: Seq<char>) -> VerdictView {
    if text.len() == 0 {
        VerdictView::NoOpinion
    } else {
        shell_verdict(
            config.block_rm,
            config.confirm_destructive_find,
            rm_command(config.platform, text),
            destructive_find(config.platform, text),
        )
    }
}

/// Decides on the shell command `cmd` under `config`.
///
/// A deletion command is denied where that check is enabled; else a
/// destructive `find` has to be confirmed where that check is enabled; else
/// there is no opinion.
pub fn shell_command_verdict(config: &PolicyConfig, cmd: &str) -> (verdict: Verdict)
    ensures
        verdict@ == command_verdict(*config, cmd@),
        cmd@.len() == 0 ==> verdict is NoOpinion,
        !config.block_rm && !config.confirm_destructive_find ==> verdict is NoOpinion,
        config.block_rm && rm_command(config.platform, cmd@) && cmd@.len() > 0 ==> verdict is Deny,
{
    if cmd.is_empty() {
        return Verdict::NoOpinion;
    }
    let is_rm = config.block_rm && is_rm_command_on(config.platform, cmd);
    let destructive = if config.confirm_destructive_find && !is_rm {
        check_destructive_find_on(config.platform, cmd)
    } else {
        None
    };
    decide_shell(config.block_rm, config.confirm_destructive_find, is_rm, destructive)
}

/// Denies `cmd` if it runs `rm` in a POSIX shell.
pub fn block_rm(cmd: &str) -> (output: Option<HookOutput>)
    ensures
        output_view(output) == rendered(
            HookEventName::PermissionRequest,
            shell_verdict(true, false, rm_command(Platform::Unix, cmd@), None),
        ),
        output is Some <==> rm_command(Platform::Unix, cmd@),
{
    let is_rm = is_rm_command_on(Platform::Unix, cmd);
    render_verdict(HookEventName::PermissionRequest, decide_shell(true, false, is_rm, None))
}

/// Asks for confirmation if `cmd` is a destructive `find` command of a POSIX
/// shell.
pub fn confirm_destructive_find(cmd: &str) -> (output: Option<HookOutput>)
    ensures
        output_view(output) == rendered(
            HookEventName::PermissionRequest,
            shell_verdict(false, true, false, destructive_find(Platform::Unix, cmd@)),
        ),
        output is Some <==> destructive_find(Platform::Unix, cmd@) is Some,
{
    let destructive = check_destructive_find_on(Platform::Unix, cmd);
    render_verdict(
        HookEventName::PermissionRequest,
        decide_shell(false, true, false, destructive),
    )
}

/// The command of the tool call `input`, empty where it has none.
pub open spec fn command_of(input: HookInput) -> Seq<char> {
    match input.tool_input {
        Some(tool_input) => text_or_empty(tool_input.command),
        None => Seq::empty(),
    }
}

/// The answer to the permission request `input` under `config`: none unless
/// the tool is the shell, and else the verdict on its command.
pub open spec fn permission_request(config: PolicyConfig, input: HookInput) -> Option<
    HookOutputView,
> {
    if input.tool_name matches Some(ToolName::Bash) {
        rendered(HookEventName::PermissionRequest, command_verdict(config, command_of(input)))
    } else {
        None
    }
}

/// Where the deletion check is enabled, a shell call with a deletion command
/// is answered by a denial with the fixed message, and nothing is asked,
/// whatever the other check is set to.
pub proof fn lemma_deletion_command_is_denied(config: PolicyConfig, input: HookInput)
    requires
        config.block_rm,
        input.tool_name matches Some(ToolName::Bash),
        command_of(input).len() > 0,
        rm_command(config.platform, command_of(input)),
    ensures
        permission_request(config, input) == Some(
            HookOutputView {
                hook_specific_output: HookSpecificOutputView {
                    hook_event_name: HookEventName::PermissionRequest,
                    decision: Some(
                        DecisionView { behavior: DecisionBehavior::Deny, message: RM_FORBIDDEN@ },
                    ),
                    permission_decision: None,
                    permission_decision_reason: None,
                },
            },
        ),
{
}

/// The text of `text`, empty where it is missing.
pub fn str_or_empty<'a>(text: &'a Option<String>) -> (s: &'a str)
    ensures
        s@ == text_or_empty(*text),
{
    match text {
        Some(t) => t.as_str(),
        None => {
            proof {
                reveal_strlit("");
            }
            ""
        },
    }
}

/// Answers a permission request: checks the command of a shell call, and has
/// no opinion on any other tool.
pub fn permission_request_action(config: &PolicyConfig, input: &HookInput) -> (output: Option<
    HookOutput,
>)
    ensures
        output_view(output) == permission_request(*config, *input),
        !config.block_rm && !config.confirm_destructive_find ==> output is None,
{
    if !config.block_rm && !config.confirm_destructive_find {
        return None;
    }
    match &input.tool_name {
        Some(ToolName::Bash) => {},
        _ => {
            return None;
        },
    }
    let verdict = match &input.tool_input {
        Some(tool_input) => shell_command_verdict(config, str_or_empty(&tool_input.command)),
        None => Verdict::NoOpinion,
    };
    render_verdict(HookEventName::PermissionRequest, verdict)
}

/// The text that the edit or write `input` puts into the file: the
/// replacement text where there is one, else the full content, else nothing.
pub open spec fn edited_text(input: ToolInput) -> Seq<char> {
    if input.new_string is Some {
        text_or_empty(input.new_string)
    } else {
        text_or_empty(input.content)
    }
}

/// The verdict on the tool call `tool` with `input`, for a file that is a
/// Rust file or not: no opinion unless the tool edits or writes a Rust file
/// and puts some text there, and else the verdict on what that text holds.
pub open spec fn rust_edit_verdict(
    tool: ToolName,
    input: ToolInput,
    options: DenyRustAllowOptions,
    is_rust: bool,
) -> VerdictView {
    if (tool is Edit || tool is Write) && is_rust && edited_text(input).len() > 0 {
        attribute_verdict(options, rust_allow_finding(edited_text(input)))
    } else {
        VerdictView::NoOpinion
    }
}

/// An edit or write of a file that is no Rust file gets no opinion, whatever
/// the text holds and whatever the mode.
pub proof fn lemma_other_files_no_opinion(
    tool: ToolName,
    input: ToolInput,
    options: DenyRustAllowOptions,
)
    ensures
        rust_edit_verdict(tool, input, options, false) == VerdictView::NoOpinion,
        rendered(HookEventName::PreToolUse, rust_edit_verdict(tool, input, options, false))
            is None,
{
}

/// The path of the file that `input` edits or writes, as bytes; empty where
/// it has none.
pub open spec fn path_bytes(input: ToolInput) -> Seq<u8> {
    encode_utf8(text_or_empty(input.file_path))
}

/// The text that `input` puts into the file.
pub fn edit_content<'a>(input: &'a ToolInput) -> (text: &'a str)
    ensures
        text@ == edited_text(*input),
{
    match &input.new_string {
        Some(replacement) => replacement.as_str(),
        None => str_or_empty(&input.content),
    }
}

/// Decides on an edit or write, given whether its file is a Rust file.
pub fn rust_edit_decision(
    tool_name: &ToolName,
    tool_input: &ToolInput,
    options: &DenyRustAllowOptions,
    is_rust: bool,
) -> (verdict: Verdict)
    ensures
        verdict@ == rust_edit_verdict(*tool_name, *tool_input, *options, is_rust),
        verdict is Deny || verdict is NoOpinion,
        !is_rust ==> verdict is NoOpinion,
        !(tool_name is Edit || tool_name is Write) ==> verdict is NoOpinion,
{
    if !tool_name.changes_file() || !is_rust {
        return Verdict::NoOpinion;
    }
    let content = edit_content(tool_input);
    if content.is_empty() {
        return Verdict::NoOpinion;
    }
    decide_attributes(options, check_rust_allow_attributes(content))
}

/// The answer to the tool call `tool` with `input`, for a file that is a Rust
/// file or not: the verdict on it, as an answer before the tool runs.
pub open spec fn rust_edit_answer(
    tool: ToolName,
    input: ToolInput,
    options: DenyRustAllowOptions,
    is_rust: bool,
) -> Option<HookOutputView> {
    rendered(HookEventName::PreToolUse, rust_edit_verdict(tool, input, options, is_rust))
}

/// Denies an edit or write that puts `#[allow(...)]` into a Rust file, and in
/// strict mode `#[expect(...)]` too.
///
/// Whether the file is a Rust file is asked of `is_rust_file`. For a plain
/// path that ends in a component with a `.` behind its first byte, the
/// answer is that for a file with the extension that follows the last `.`.
/// For any path, where `is_rust_file` says no there is no answer, and it says
/// no to every path without `.rs` in it.
pub fn deny_rust_allow(
    tool_name: &ToolName,
    tool_input: &ToolInput,
    options: &DenyRustAllowOptions,
) -> (output: Option<HookOutput>)
    ensures
        output is None || (mentions_rs_extension(path_bytes(*tool_input)) && output_view(output)
            == rendered(
            HookEventName::PreToolUse,
            rust_edit_verdict(*tool_name, *tool_input, *options, true),
        )),
        !mentions_rs_extension(path_bytes(*tool_input)) ==> output is None,
        !(tool_name is Edit || tool_name is Write) ==> output is None,
        edited_text(*tool_input).len() == 0 ==> output is None,
        forall|start: int, dot: int|
            is_plain_path(path_bytes(*tool_input)) && #[trigger] extension_dot(
                path_bytes(*tool_input),
                start,
                dot,
            ) ==> output_view(output) == rust_edit_answer(
                *tool_name,
                *tool_input,
                *options,
                is_rs(after_dot(path_bytes(*tool_input), dot)),
            ),
{
    let path = str_or_empty(&tool_input.file_path);
    assert(path.spec_bytes() == path_bytes(*tool_input));
    let is_rust = is_rust_file(path);
    render_verdict(
        HookEventName::PreToolUse,
        rust_edit_decision(tool_name, tool_input, options, is_rust),
    )
}

/// Answers the tool call `input` as `deny_rust_allow` does; a call without a
/// tool name or without arguments gets no answer.
pub fn deny_rust_allow_action(options: &DenyRustAllowOptions, input: &HookInput) -> (output:
    Option<HookOutput>)
    ensures
        output is Some ==> input.tool_name is Some && input.tool_input is Some,
        output is None || (mentions_rs_extension(path_bytes(input.tool_input->Some_0))
            && output_view(output) == rendered(
            HookEventName::PreToolUse,
            rust_edit_verdict(input.tool_name->Some_0, input.tool_input->Some_0, *options, true),
        )),
        input.tool_input matches Some(tool_input) && !mentions_rs_extension(
            path_bytes(tool_input),
        ) ==> output is None,
        forall|start: int, dot: int|
            input.tool_name is Some && input.tool_input is Some && is_plain_path(
                path_bytes(input.tool_input->Some_0),
            ) && #[trigger] extension_dot(path_bytes(input.tool_input->Some_0), start, dot)
                ==> output_view(output) == rust_edit_answer(
                input.tool_name->Some_0,
                input.tool_input->Some_0,
                *options,
                is_rs(after_dot(path_bytes(input.tool_input->Some_0), dot)),
            ),
{
    match (&input.tool_name, &input.tool_input) {
        (Some(tool_name), Some(tool_input)) => deny_rust_allow(tool_name, tool_input, options),
        _ => None,
    }
}

/// Answers a tool call before it runs: where the check is enabled, as
/// `deny_rust_allow_action` does, and not at all where it is not.
pub fn pre_tool_use_action(config: &PolicyConfig, input: &HookInput) -> (output: Option<
    HookOutput,
>)
    ensures
        !config.deny_rust_allow ==> output is None,
        input.tool_input matches Some(tool_input) && !mentions_rs_extension(
            path_bytes(tool_input),
        ) ==> output is None,
        output is Some ==> input.tool_name is Some && input.tool_input is Some,
        output is None || (mentions_rs_extension(path_bytes(input.tool_input->Some_0))
            && output_view(output) == rendered(
            HookEventName::PreToolUse,
            rust_edit_verdict(
                input.tool_name->Some_0,
                input.tool_input->Some_0,
                config.rust_allow,
                true,
            ),
        )),
        forall|start: int, dot: int|
            config.deny_rust_allow && input.tool_name is Some && input.tool_input is Some
                && is_plain_path(path_bytes(input.tool_input->Some_0)) && #[trigger] extension_dot(
                path_bytes(input.tool_input->Some_0),
                start,
                dot,
            ) ==> output_view(output) == rust_edit_answer(
                input.tool_name->Some_0,
                input.tool_input->Some_0,
                config.rust_allow,
                is_rs(after_dot(path_bytes(input.tool_input->Some_0), dot)),
            ),
{
    if !config.deny_rust_allow {
        return None;
    }
    deny_rust_allow_action(&config.rust_allow, input)
}

} // verus!

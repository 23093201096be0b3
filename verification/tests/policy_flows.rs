//! The two decision flows from event to answer, and the pieces they are
//! made of.

use agent_hooks::attributes::{any_real_start, combine_findings};
use agent_hooks::paths::{extension_is_rust, has_rust_extension};
use agent_hooks::RustAllowCheckResult::{Clean, HasAllow, HasBoth, HasExpect};
use agent_hooks::policy::{
    choose_denial, decide_attributes, decide_shell, edit_content, render_verdict,
    rust_edit_decision, shell_command_verdict, str_or_empty, ALLOW_DENIED,
    ALLOW_DENIED_USE_EXPECT, BOTH_DENIED, EXPECT_DENIED, RM_FORBIDDEN,
};
use agent_hooks::{
    check_rust_allow_attributes, deny_rust_allow, deny_rust_allow_action, find_real_matches,
    is_rust_file, permission_request_action, pre_tool_use_action, DecisionBehavior,
    DenyRustAllowOptions, HookEventName, HookInput, HookOutput, PermissionDecision, Platform,
    PolicyConfig, RustAllowCheckResult, ToolInput, ToolName, Verdict, RUST_ALLOW_PATTERN,
    RUST_EXPECT_PATTERN,
};

fn config(block_rm: bool, confirm: bool, deny: bool, expect: bool, context: Option<&str>) -> PolicyConfig {
    PolicyConfig {
        platform: Platform::Unix,
        block_rm,
        confirm_destructive_find: confirm,
        deny_rust_allow: deny,
        rust_allow: DenyRustAllowOptions {
            expect,
            additional_context: context.map(|c| c.to_string()),
        },
    }
}

fn shell_event(command: &str) -> HookInput {
    HookInput {
        tool_name: Some(ToolName::Bash),
        tool_input: Some(ToolInput {
            command: Some(command.to_string()),
            new_string: None,
            content: None,
            file_path: None,
        }),
    }
}

fn edit_event(path: &str, new_string: &str) -> HookInput {
    HookInput {
        tool_name: Some(ToolName::Edit),
        tool_input: Some(ToolInput {
            command: None,
            new_string: Some(new_string.to_string()),
            content: None,
            file_path: Some(path.to_string()),
        }),
    }
}

fn write_event(path: &str, content: &str) -> HookInput {
    HookInput {
        tool_name: Some(ToolName::Write),
        tool_input: Some(ToolInput {
            command: None,
            new_string: None,
            content: Some(content.to_string()),
            file_path: Some(path.to_string()),
        }),
    }
}

fn denial_reason(output: Option<HookOutput>) -> String {
    let body = output.expect("an answer").hook_specific_output;
    assert!(matches!(body.hook_event_name, HookEventName::PreToolUse));
    assert!(body.decision.is_none());
    assert!(matches!(body.permission_decision, Some(PermissionDecision::Deny)));
    body.permission_decision_reason.expect("a reason")
}

#[test]
fn deletion_command_is_denied() {
    let output = permission_request_action(&config(true, false, false, false, None), &shell_event("rm -rf /tmp/x"));
    let body = output.expect("an answer").hook_specific_output;
    assert!(matches!(body.hook_event_name, HookEventName::PermissionRequest));
    assert!(body.permission_decision.is_none());
    assert!(body.permission_decision_reason.is_none());
    let decision = body.decision.expect("a decision");
    assert!(matches!(decision.behavior, DecisionBehavior::Deny));
    assert!(decision.message.contains("forbidden"));
    assert_eq!(
        decision.message,
        "rm is forbidden. Use trash command to delete files. Example: trash <path...>"
    );
}

#[test]
fn destructive_find_is_asked_about() {
    let output = permission_request_action(
        &config(true, true, false, false, None),
        &shell_event("find . -name '*.tmp' -delete"),
    );
    let body = output.expect("an answer").hook_specific_output;
    assert!(matches!(body.hook_event_name, HookEventName::PermissionRequest));
    assert!(body.decision.is_none());
    assert!(matches!(body.permission_decision, Some(PermissionDecision::Ask)));
    assert_eq!(
        body.permission_decision_reason.unwrap(),
        "Destructive find command detected: find with -delete option. This operation may delete or modify files. Please confirm."
    );
}

#[test]
fn deletion_is_denied_before_find_is_asked_about() {
    let both = "rm x; find . -delete";
    let output = permission_request_action(&config(true, true, false, false, None), &shell_event(both));
    let body = output.unwrap().hook_specific_output;
    assert!(body.decision.is_some());
    assert!(body.permission_decision.is_none());
    let output = permission_request_action(&config(false, true, false, false, None), &shell_event(both));
    let body = output.unwrap().hook_specific_output;
    assert!(body.decision.is_none());
    assert!(matches!(body.permission_decision, Some(PermissionDecision::Ask)));
}

#[test]
fn disabled_checks_have_no_opinion() {
    let off = config(false, false, false, false, None);
    assert!(permission_request_action(&off, &shell_event("rm -rf /")).is_none());
    assert!(permission_request_action(&off, &shell_event("find . -delete")).is_none());
    assert!(permission_request_action(&config(false, true, false, false, None), &shell_event("rm -rf /")).is_none());
    assert!(permission_request_action(&config(true, false, false, false, None), &shell_event("find . -delete")).is_none());
    assert!(pre_tool_use_action(&off, &edit_event("src/main.rs", "#[allow(x)]")).is_none());
}

#[test]
fn events_without_a_command_have_no_opinion() {
    let on = config(true, true, true, false, None);
    assert!(permission_request_action(&on, &shell_event("")).is_none());
    assert!(permission_request_action(&on, &shell_event("ls -la")).is_none());
    assert!(permission_request_action(&on, &HookInput { tool_name: Some(ToolName::Bash), tool_input: None }).is_none());
    assert!(permission_request_action(&on, &HookInput { tool_name: None, tool_input: None }).is_none());
    let mut other = shell_event("rm -rf /");
    other.tool_name = Some(ToolName::Read);
    assert!(permission_request_action(&on, &other).is_none());
    other.tool_name = Some(ToolName::Unknown("Shell".to_string()));
    assert!(permission_request_action(&on, &other).is_none());
    other.tool_name = None;
    assert!(permission_request_action(&on, &other).is_none());
    let mut no_command = shell_event("x");
    no_command.tool_input.as_mut().unwrap().command = None;
    assert!(permission_request_action(&on, &no_command).is_none());
}

#[test]
fn shell_verdicts() {
    let on = config(true, true, false, false, None);
    assert!(matches!(shell_command_verdict(&on, ""), Verdict::NoOpinion));
    assert!(matches!(shell_command_verdict(&on, "ls"), Verdict::NoOpinion));
    match shell_command_verdict(&on, "sudo rm -rf /") {
        Verdict::Deny { message } => assert_eq!(message, RM_FORBIDDEN),
        other => panic!("{:?}", other),
    }
    match shell_command_verdict(&on, "find . -exec mv {} x \\;") {
        Verdict::Ask { reason } => assert_eq!(
            reason,
            "Destructive find command detected: find with -exec mv. This operation may delete or modify files. Please confirm."
        ),
        other => panic!("{:?}", other),
    }
    let mut windows = config(true, true, false, false, None);
    windows.platform = Platform::Windows;
    assert!(matches!(shell_command_verdict(&windows, "del x"), Verdict::Deny { .. }));
    assert!(matches!(shell_command_verdict(&windows, "dir | move x"), Verdict::Ask { .. }));
    assert!(matches!(shell_command_verdict(&on, "del x"), Verdict::NoOpinion));
}

#[test]
fn shell_decisions_from_findings() {
    assert!(matches!(decide_shell(true, true, true, Some("d")), Verdict::Deny { .. }));
    assert!(matches!(decide_shell(true, true, true, None), Verdict::Deny { .. }));
    assert!(matches!(decide_shell(false, true, true, None), Verdict::NoOpinion));
    assert!(matches!(decide_shell(true, false, false, Some("d")), Verdict::NoOpinion));
    assert!(matches!(decide_shell(false, false, true, Some("d")), Verdict::NoOpinion));
    match decide_shell(false, true, true, Some("d")) {
        Verdict::Ask { reason } => assert_eq!(
            reason,
            "Destructive find command detected: d. This operation may delete or modify files. Please confirm."
        ),
        other => panic!("{:?}", other),
    }
}

#[test]
fn strict_mode_denies_allow() {
    let output = pre_tool_use_action(
        &config(false, false, true, false, None),
        &edit_event("src/main.rs", "#[allow(dead_code)]\nfn f(){}"),
    );
    let reason = denial_reason(output);
    assert!(reason.contains("#[allow"));
    assert!(reason.contains("#![allow"));
    assert!(reason.contains("not permitted"));
    assert_eq!(
        reason,
        "Adding #[allow(...)] or #![allow(...)] attributes is not permitted. Fix the underlying issue instead of suppressing the warning."
    );
}

#[test]
fn lenient_mode_lets_expect_through() {
    let lenient = config(false, false, true, true, None);
    assert!(pre_tool_use_action(&lenient, &edit_event("src/main.rs", "#[expect(dead_code)]")).is_none());
    let reason = denial_reason(pre_tool_use_action(&lenient, &edit_event("src/main.rs", "#[allow(dead_code)]")));
    assert_eq!(
        reason,
        "Adding #[allow(...)] or #![allow(...)] attributes is not permitted. Use #[expect(...)] instead, which will warn when the lint is no longer triggered."
    );
    let both = denial_reason(pre_tool_use_action(&lenient, &edit_event("a.rs", "#[allow(a)]\n#[expect(b)]")));
    assert_eq!(both, ALLOW_DENIED_USE_EXPECT);
}

#[test]
fn strict_mode_messages() {
    let strict = config(false, false, true, false, None);
    let expect = denial_reason(pre_tool_use_action(&strict, &edit_event("a.rs", "#![expect(b)]")));
    assert_eq!(
        expect,
        "Adding #[expect(...)] or #![expect(...)] attributes is not permitted. Fix the underlying issue instead of suppressing the warning."
    );
    let both = denial_reason(pre_tool_use_action(&strict, &edit_event("a.rs", "#[allow(a)]\n#[expect(b)]")));
    assert_eq!(
        both,
        "Adding #[allow(...)] or #[expect(...)] attributes is not permitted. Fix the underlying issue instead of suppressing the warning."
    );
    assert_eq!(expect, EXPECT_DENIED);
    assert_eq!(both, BOTH_DENIED);
}

#[test]
fn other_files_have_no_opinion() {
    let contents = [
        "#[allow(dead_code)]",
        "#![allow(unused)]",
        "#[expect(x)]",
        "#[allow(a)] #[expect(b)]",
        "",
        "plain text",
    ];
    for content in contents {
        for expect in [false, true] {
            for context in [None, Some("more")] {
                let c = config(true, true, true, expect, context);
                assert!(pre_tool_use_action(&c, &edit_event("README.md", content)).is_none());
                assert!(pre_tool_use_action(&c, &write_event("README.md", content)).is_none());
                assert!(pre_tool_use_action(&c, &edit_event("notes.rs.txt", content)).is_none());
                assert!(pre_tool_use_action(&c, &edit_event("rs", content)).is_none());
                assert!(pre_tool_use_action(&c, &edit_event("", content)).is_none());
            }
        }
    }
}

#[test]
fn additional_context_is_appended() {
    let strict = config(false, false, true, false, Some("See guidelines"));
    let reason = denial_reason(pre_tool_use_action(&strict, &edit_event("a.rs", "#[allow(a)]")));
    assert_eq!(
        reason,
        "Adding #[allow(...)] or #![allow(...)] attributes is not permitted. Fix the underlying issue instead of suppressing the warning. See guidelines"
    );
    let lenient = config(false, false, true, true, Some(""));
    let reason = denial_reason(pre_tool_use_action(&lenient, &edit_event("a.rs", "#[allow(a)]")));
    assert_eq!(reason, format!("{} ", ALLOW_DENIED_USE_EXPECT));
}

#[test]
fn replacement_text_comes_before_content() {
    let strict = DenyRustAllowOptions { expect: false, additional_context: None };
    let mut input = ToolInput {
        command: None,
        new_string: Some("fn a() {}".to_string()),
        content: Some("#[allow(x)]".to_string()),
        file_path: Some("a.rs".to_string()),
    };
    assert_eq!(edit_content(&input), "fn a() {}");
    assert!(deny_rust_allow(&ToolName::Edit, &input, &strict).is_none());
    input.new_string = Some(String::new());
    assert_eq!(edit_content(&input), "");
    assert!(deny_rust_allow(&ToolName::Edit, &input, &strict).is_none());
    input.new_string = None;
    assert_eq!(edit_content(&input), "#[allow(x)]");
    assert!(deny_rust_allow(&ToolName::Write, &input, &strict).is_some());
    input.content = None;
    assert_eq!(edit_content(&input), "");
    assert!(deny_rust_allow(&ToolName::Write, &input, &strict).is_none());
    input.content = Some("#[allow(x)]".to_string());
    input.file_path = None;
    assert!(deny_rust_allow(&ToolName::Write, &input, &strict).is_none());
}

#[test]
fn events_without_tool_or_arguments_have_no_opinion() {
    let strict = DenyRustAllowOptions { expect: false, additional_context: None };
    let mut event = write_event("a.rs", "#[allow(x)]");
    assert!(deny_rust_allow_action(&strict, &event).is_some());
    event.tool_name = Some(ToolName::Bash);
    assert!(deny_rust_allow_action(&strict, &event).is_none());
    event.tool_name = None;
    assert!(deny_rust_allow_action(&strict, &event).is_none());
    event.tool_name = Some(ToolName::Write);
    event.tool_input = None;
    assert!(deny_rust_allow_action(&strict, &event).is_none());
}

#[test]
fn decisions_given_the_kind_of_file() {
    let strict = DenyRustAllowOptions { expect: false, additional_context: None };
    let input = ToolInput {
        command: None,
        new_string: Some("#[allow(x)]".to_string()),
        content: None,
        file_path: Some("whatever".to_string()),
    };
    assert!(matches!(rust_edit_decision(&ToolName::Edit, &input, &strict, true), Verdict::Deny { .. }));
    assert!(matches!(rust_edit_decision(&ToolName::Edit, &input, &strict, false), Verdict::NoOpinion));
    assert!(matches!(rust_edit_decision(&ToolName::Grep, &input, &strict, true), Verdict::NoOpinion));
}

#[test]
fn denial_for_each_finding() {
    assert_eq!(choose_denial(false, Clean), None);
    assert_eq!(choose_denial(false, HasAllow), Some(ALLOW_DENIED));
    assert_eq!(choose_denial(false, HasExpect), Some(EXPECT_DENIED));
    assert_eq!(choose_denial(false, HasBoth), Some(BOTH_DENIED));
    assert_eq!(choose_denial(true, Clean), None);
    assert_eq!(choose_denial(true, HasAllow), Some(ALLOW_DENIED_USE_EXPECT));
    assert_eq!(choose_denial(true, HasExpect), None);
    assert_eq!(choose_denial(true, HasBoth), Some(ALLOW_DENIED_USE_EXPECT));
    let with = DenyRustAllowOptions { expect: false, additional_context: Some("x y".to_string()) };
    match decide_attributes(&with, HasExpect) {
        Verdict::Deny { message } => assert_eq!(message, format!("{} x y", EXPECT_DENIED)),
        other => panic!("{:?}", other),
    }
    assert!(matches!(decide_attributes(&with, Clean), Verdict::NoOpinion));
}

#[test]
fn verdicts_are_rendered_by_event() {
    assert!(render_verdict(HookEventName::PermissionRequest, Verdict::NoOpinion).is_none());
    assert!(render_verdict(HookEventName::PreToolUse, Verdict::NoOpinion).is_none());
    let body = render_verdict(HookEventName::PermissionRequest, Verdict::Deny { message: "m".to_string() })
        .unwrap()
        .hook_specific_output;
    assert!(matches!(body.hook_event_name, HookEventName::PermissionRequest));
    let decision = body.decision.unwrap();
    assert!(matches!(decision.behavior, DecisionBehavior::Deny));
    assert_eq!(decision.message, "m");
    assert!(body.permission_decision.is_none() && body.permission_decision_reason.is_none());
    let body = render_verdict(HookEventName::PreToolUse, Verdict::Deny { message: "m".to_string() })
        .unwrap()
        .hook_specific_output;
    assert!(matches!(body.hook_event_name, HookEventName::PreToolUse));
    assert!(body.decision.is_none());
    assert!(matches!(body.permission_decision, Some(PermissionDecision::Deny)));
    assert_eq!(body.permission_decision_reason.unwrap(), "m");
    for event in [HookEventName::PermissionRequest, HookEventName::PreToolUse] {
        let body = render_verdict(event, Verdict::Ask { reason: "r".to_string() })
            .unwrap()
            .hook_specific_output;
        assert_eq!(body.hook_event_name, event);
        assert!(body.decision.is_none());
        assert!(matches!(body.permission_decision, Some(PermissionDecision::Ask)));
        assert_eq!(body.permission_decision_reason.unwrap(), "r");
    }
}

#[test]
fn tools_by_name() {
    assert_eq!(ToolName::from_name("Task"), ToolName::Task);
    assert_eq!(ToolName::from_name("Bash"), ToolName::Bash);
    assert_eq!(ToolName::from_name("Glob"), ToolName::Glob);
    assert_eq!(ToolName::from_name("Grep"), ToolName::Grep);
    assert_eq!(ToolName::from_name("Read"), ToolName::Read);
    assert_eq!(ToolName::from_name("Edit"), ToolName::Edit);
    assert_eq!(ToolName::from_name("Write"), ToolName::Write);
    assert_eq!(ToolName::from_name("WebFetch"), ToolName::WebFetch);
    assert_eq!(ToolName::from_name("WebSearch"), ToolName::WebSearch);
    assert_eq!(ToolName::from_name("edit"), ToolName::Unknown("edit".to_string()));
    assert_eq!(ToolName::from_name(""), ToolName::Unknown(String::new()));
    assert_eq!(ToolName::from_name("Unknown"), ToolName::Unknown("Unknown".to_string()));
    assert!(ToolName::Edit.changes_file() && ToolName::Write.changes_file());
    assert!(!ToolName::Read.changes_file());
    assert!(!ToolName::Unknown("Edit".to_string()).changes_file());
}

#[test]
fn missing_text_is_empty() {
    assert_eq!(str_or_empty(&None), "");
    assert_eq!(str_or_empty(&Some("a b".to_string())), "a b");
}

#[test]
fn rust_file_extensions() {
    assert!(extension_is_rust("rs"));
    assert!(extension_is_rust("RS"));
    assert!(extension_is_rust("rS"));
    assert!(!extension_is_rust("r"));
    assert!(!extension_is_rust("rss"));
    assert!(!extension_is_rust(""));
    assert!(!extension_is_rust("py"));
    assert!(!extension_is_rust("2S"));
    assert!(has_rust_extension(Some("rs")));
    assert!(has_rust_extension(Some("Rs")));
    assert!(!has_rust_extension(Some("md")));
    assert!(!has_rust_extension(Some("")));
    assert!(!has_rust_extension(None));
    assert!(!is_rust_file("rs"));
    assert!(!is_rust_file(".rs"));
    assert!(!is_rust_file("dir.rs/file"));
    assert!(!is_rust_file("file.rs.bak"));
    assert!(!is_rust_file(""));
    assert!(is_rust_file("a.b.Rs"));
    assert!(is_rust_file("..rs"));
}

#[test]
fn detector_edge_cases() {
    assert_eq!(check_rust_allow_attributes(""), Clean);
    assert_eq!(check_rust_allow_attributes("#[allow]"), Clean);
    assert_eq!(check_rust_allow_attributes("#[allow (x)]"), HasAllow);
    assert_eq!(check_rust_allow_attributes("#[allow\n\t(x)]"), HasAllow);
    assert_eq!(check_rust_allow_attributes("#[ allow(x)]"), Clean);
    assert_eq!(check_rust_allow_attributes("#![expect(x)]"), HasExpect);
    assert_eq!(check_rust_allow_attributes("#[warn(x)] #[deny(y)]"), Clean);
    assert_eq!(check_rust_allow_attributes("// #[allow(a)]\n#[allow(b)]"), HasAllow);
    assert_eq!(check_rust_allow_attributes("// #[allow(a)]\n#[expect(b)]"), HasExpect);
    assert_eq!(check_rust_allow_attributes("/* #[allow(a)] */ #[expect(b)]"), HasExpect);
    assert_eq!(check_rust_allow_attributes("/* #[allow(a)] #[expect(b)]"), Clean);
    assert_eq!(check_rust_allow_attributes("let s = r#\"#[allow(x)]\"#;"), Clean);
    assert_eq!(check_rust_allow_attributes("let s = \"a\"; #[allow(x)] #[expect(y)]"), HasBoth);
    assert_eq!(check_rust_allow_attributes("fn a(){}\n#[allow(x)]"), HasAllow);
    assert_eq!(check_rust_allow_attributes("\u{e9}\u{e9} #[allow(x)]"), HasAllow);
}

#[test]
fn real_matches_for_both_patterns() {
    assert!(find_real_matches("#[expect(x)]", RUST_EXPECT_PATTERN));
    assert!(!find_real_matches("#[expect(x)]", RUST_ALLOW_PATTERN));
    assert!(!find_real_matches("", RUST_ALLOW_PATTERN));
    assert!(!find_real_matches("#[allow(x)]", "not a (pattern"));
    assert!(find_real_matches("fn a() {}", "a"));
    assert!(!find_real_matches("// fn a() {}", "a"));
}

#[test]
fn real_starts_among_given_positions() {
    let content = "// #[allow(a)]\n#[allow(b)] \"#[allow(c)]\"";
    assert!(!any_real_start(content, &vec![]));
    assert!(!any_real_start(content, &vec![3]));
    assert!(any_real_start(content, &vec![15]));
    assert!(!any_real_start(content, &vec![3, 28]));
    assert!(any_real_start(content, &vec![3, 28, 15]));
    assert!(any_real_start(content, &vec![0]));
    assert!(any_real_start(content, &vec![1000]));
    assert!(!any_real_start("// open", &vec![1000]));
}

#[test]
fn findings_are_combined() {
    assert_eq!(combine_findings(false, false), RustAllowCheckResult::Clean);
    assert_eq!(combine_findings(true, false), RustAllowCheckResult::HasAllow);
    assert_eq!(combine_findings(false, true), RustAllowCheckResult::HasExpect);
    assert_eq!(combine_findings(true, true), RustAllowCheckResult::HasBoth);
}

#[test]
fn messages() {
    assert_eq!(RM_FORBIDDEN, "rm is forbidden. Use trash command to delete files. Example: trash <path...>");
    assert_eq!(
        ALLOW_DENIED,
        "Adding #[allow(...)] or #![allow(...)] attributes is not permitted. Fix the underlying issue instead of suppressing the warning."
    );
}

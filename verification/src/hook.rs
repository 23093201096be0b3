//! The records exchanged with the host agent: what it reports of a tool call,
//! and what it is answered.

use crate::text::str_eq;
use vstd::prelude::*;
use vstd::string::*;

verus! {

/// The tools that the host agent can invoke.
#[derive(Debug, Clone, PartialEq, Eq)]
pub enum ToolName {
    Task,
    Bash,
    Glob,
    Grep,
    Read,
    Edit,
    Write,
    WebFetch,
    WebSearch,
    /// A tool that this library does not know, with its name.
    Unknown(String),
}

/// The arguments of a tool call, as far as the checks read them.
#[derive(Debug)]
pub struct ToolInput {
    /// The command of a shell call.
    pub command: Option<String>,
    /// The replacement text of an edit.
    pub new_string: Option<String>,
    /// The full content of a written file.
    pub content: Option<String>,
    /// The path of the file that is edited or written.
    pub file_path: Option<String>,
}

/// One tool call as the host agent reports it.
#[derive(Debug)]
pub struct HookInput {
    pub tool_name: Option<ToolName>,
    pub tool_input: Option<ToolInput>,
}

/// The event that an answer belongs to.
#[derive(Debug, Clone, Copy, PartialEq, Eq, Structural)]
pub enum HookEventName {
    PermissionRequest,
    PreToolUse,
}

/// What a decision makes of the tool call.
#[derive(Debug, Clone, Copy, PartialEq, Eq, Structural)]
pub enum DecisionBehavior {
    Deny,
    Allow,
}

/// What a permission decision makes of the tool call.
#[derive(Debug, Clone, Copy, PartialEq, Eq, Structural)]
pub enum PermissionDecision {
    Ask,
    Allow,
    Deny,
}

/// A decision with the message that explains it.
#[derive(Debug)]
pub struct Decision {
    pub behavior: DecisionBehavior,
    pub message: String,
}

/// The body of an answer.
#[derive(Debug)]
pub struct HookSpecificOutput {
    pub hook_event_name: HookEventName,
    pub decision: Option<Decision>,
    pub permission_decision: Option<PermissionDecision>,
    pub permission_decision_reason: Option<String>,
}

/// An answer to the host agent.
#[derive(Debug)]
pub struct HookOutput {
    pub hook_specific_output: HookSpecificOutput,
}

/// A `Decision` with its message as a sequence of characters.
pub ghost struct DecisionView {
    pub behavior: DecisionBehavior,
    pub message: Seq<char>,
}

/// A `HookSpecificOutput` with its texts as sequences of characters.
pub ghost struct HookSpecificOutputView {
    pub hook_event_name: HookEventName,
    pub decision: Option<DecisionView>,
    pub permission_decision: Option<PermissionDecision>,
    pub permission_decision_reason: Option<Seq<char>>,
}

/// A `HookOutput` with its texts as sequences of characters.
pub ghost struct HookOutputView {
    pub hook_specific_output: HookSpecificOutputView,
}

impl View for Decision {
    type V = DecisionView;

    open spec fn view(&self) -> DecisionView {
        DecisionView { behavior: self.behavior, message: self.message@ }
    }
}

impl View for HookSpecificOutput {
    type V = HookSpecificOutputView;

    open spec fn view(&self) -> HookSpecificOutputView {
        HookSpecificOutputView {
            hook_event_name: self.hook_event_name,
            decision: match self.decision {
                Some(d) => Some(d@),
                None => None,
            },
            permission_decision: self.permission_decision,
            permission_decision_reason: match self.permission_decision_reason {
                Some(r) => Some(r@),
                None => None,
            },
        }
    }
}

impl View for HookOutput {
    type V = HookOutputView;

    open spec fn view(&self) -> HookOutputView {
        HookOutputView { hook_specific_output: self.hook_specific_output@ }
    }
}

/// The view of an answer that may be missing.
pub open spec fn output_view(output: Option<HookOutput>) -> Option<HookOutputView> {
    match output {
        Some(o) => Some(o@),
        None => None,
    }
}

/// The text of a string that may be missing, empty where it is.
pub open spec fn text_or_empty(text: Option<String>) -> Seq<char> {
    match text {
        Some(s) => s@,
        None => Seq::empty(),
    }
}

/// The tool that goes by `name`.
pub open spec fn known_tool(name: Seq<char>) -> Option<ToolName> {
    if name == "Task"@ {
        Some(ToolName::Task)
    } else if name == "Bash"@ {
        Some(ToolName::Bash)
    } else if name == "Glob"@ {
        Some(ToolName::Glob)
    } else if name == "Grep"@ {
        Some(ToolName::Grep)
    } else if name == "Read"@ {
        Some(ToolName::Read)
    } else if name == "Edit"@ {
        Some(ToolName::Edit)
    } else if name == "Write"@ {
        Some(ToolName::Write)
    } else if name == "WebFetch"@ {
        Some(ToolName::WebFetch)
    } else if name == "WebSearch"@ {
        Some(ToolName::WebSearch)
    } else {
        None
    }
}

impl ToolName {
    /// The tool that goes by `name`; a name that belongs to no known tool is
    /// kept in `Unknown`.
    pub fn from_name(name: &str) -> (tool: ToolName)
        ensures
            known_tool(name@) matches Some(t) ==> tool == t,
            known_tool(name@) is None ==> (tool matches ToolName::Unknown(n) && n@ == name@),
    {
        if str_eq(name, "Task") {
            ToolName::Task
        } else if str_eq(name, "Bash") {
            ToolName::Bash
        } else if str_eq(name, "Glob") {
            ToolName::Glob
        } else if str_eq(name, "Grep") {
            ToolName::Grep
        } else if str_eq(name, "Read") {
            ToolName::Read
        } else if str_eq(name, "Edit") {
            ToolName::Edit
        } else if str_eq(name, "Write") {
            ToolName::Write
        } else if str_eq(name, "WebFetch") {
            ToolName::WebFetch
        } else if str_eq(name, "WebSearch") {
            ToolName::WebSearch
        } else {
            ToolName::Unknown(name.to_owned())
        }
    }

    /// Tells whether the tool edits or writes a file.
    pub fn changes_file(&self) -> (changes: bool)
        ensures
            changes == (self is Edit || self is Write),
    {
        match self {
            ToolName::Edit | ToolName::Write => true,
            _ => false,
        }
    }
}

} // verus!

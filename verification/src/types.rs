//! The values that flow through a hook call: what the agent asked for, the
//! parts of the policy that the decision reads, and what is answered.
use vstd::prelude::*;

verus! {

/// What a tool call's input holds, as far as the decisions read it.
///
/// `command` is the input's `command` field when that field is a string,
/// `file_path` its `file_path` field when that is a string, and `json` the
/// compact JSON text of the whole input.
pub struct ToolInput {
    pub command: Option<String>,
    pub file_path: Option<String>,
    pub json: String,
}

/// The characters that the decisions read from a tool input.
pub struct ToolInputView {
    pub command: Option<Seq<char>>,
    pub file_path: Option<Seq<char>>,
    pub json: Seq<char>,
}

impl View for ToolInput {
    type V = ToolInputView;

    open spec fn view(&self) -> ToolInputView {
        ToolInputView {
            command: opt_view(self.command),
            file_path: opt_view(self.file_path),
            json: self.json@,
        }
    }
}

/// The input of a call, or that of a call without one.
pub open spec fn input_or_absent(o: Option<ToolInput>) -> ToolInputView {
    match o {
        Some(t) => t@,
        None => ToolInputView { command: None, file_path: None, json: "null"@ },
    }
}

impl ToolInput {
    /// The input used when the agent sent none: no fields, and the JSON
    /// text of `null`.
    pub fn absent() -> (res: ToolInput)
        ensures
            res@ == input_or_absent(None),
    {
        ToolInput { command: None, file_path: None, json: "null".to_owned() }
    }
}

/// A copy of an optional string.
pub fn copy_opt_string(o: &Option<String>) -> (res: Option<String>)
    ensures
        opt_view(res) == opt_view(*o),
{
    match o {
        Some(s) => Some(s.clone()),
        None => None,
    }
}

/// A copy of a tool input.
pub fn copy_tool_input(t: &ToolInput) -> (res: ToolInput)
    ensures
        res@ == t@,
{
    ToolInput {
        command: copy_opt_string(&t.command),
        file_path: copy_opt_string(&t.file_path),
        json: t.json.clone(),
    }
}

/// One hook event as the agent reports it.
pub struct HookInput {
    pub session_id: String,
    pub cwd: String,
    pub tool_name: Option<String>,
    pub tool_input: Option<ToolInput>,
    pub tool_use_id: Option<String>,
}

/// Whether tool calls are traced, and where (relative to the project).
pub struct TraceSettings {
    pub enabled: bool,
    pub directory: String,
}

/// Whether files are saved before they are changed, for which tools, and where.
pub struct SnapshotSettings {
    pub enabled: bool,
    pub tools: Vec<String>,
    pub directory: String,
}

/// The parts of a policy that the hook decisions read.
pub struct Policy {
    pub trace: TraceSettings,
    pub snapshot: SnapshotSettings,
}

/// What the rule engine decided about a tool call.
pub enum Decision {
    Allow,
    Block { rule: String, message: String },
    Approve { rule: String, message: String },
}

/// The permission answered to the agent.
#[derive(PartialEq, Eq, Structural, Clone, Copy, Debug)]
pub enum Permission {
    Allow,
    Deny,
    Ask,
}

/// The answer to a pre-tool hook event.
pub struct HookOutput {
    pub permission: Permission,
    pub reason: Option<String>,
}

/// The characters of an optional string.
pub open spec fn opt_view(o: Option<String>) -> Option<Seq<char>> {
    match o {
        Some(s) => Some(s@),
        None => None,
    }
}

impl HookOutput {
    /// Lets the call through, with no reason.
    pub fn allow() -> (res: HookOutput)
        ensures
            res.permission == Permission::Allow,
            res.reason is None,
    {
        HookOutput { permission: Permission::Allow, reason: None }
    }

    /// Refuses the call, telling the agent why.
    pub fn deny(reason: &str) -> (res: HookOutput)
        ensures
            res.permission == Permission::Deny,
            opt_view(res.reason) == Some(reason@),
    {
        HookOutput { permission: Permission::Deny, reason: Some(reason.to_owned()) }
    }

    /// Asks the human to approve the call, telling why.
    pub fn ask(reason: &str) -> (res: HookOutput)
        ensures
            res.permission == Permission::Ask,
            opt_view(res.reason) == Some(reason@),
    {
        HookOutput { permission: Permission::Ask, reason: Some(reason.to_owned()) }
    }
}

/// One line of the audit trace.
pub struct TraceEntry {
    pub timestamp: String,
    pub session_id: String,
    pub event: String,
    pub tool: String,
    pub input_summary: String,
    pub decision: String,
    pub rule: Option<String>,
    pub duration_ms: u64,
}

} // verus!

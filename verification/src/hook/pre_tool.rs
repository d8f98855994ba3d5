//! The pre-tool hook: every tool call passes through here before it runs.
use vstd::prelude::*;

use crate::clock::{ends_in_utc_offset, now_rfc3339};
use crate::text::{lemma_take_chars_is_short_prefix, same_text, take_chars, truncate_chars};
use crate::trace_dir::{global_trace_dir, spec_global_trace_dir, TraceRecord};
use crate::types::{
    copy_tool_input, input_or_absent, opt_view, Decision, HookInput, HookOutput,
    Permission, Policy, SnapshotSettings, ToolInput, ToolInputView, TraceEntry,
};

verus! {

/// How many characters of a command or of a JSON input a summary keeps.
pub const SUMMARY_LIMIT: usize = 200;

/// Tools whose input names one file.
pub open spec fn is_file_tool(name: Seq<char>) -> bool {
    name == "Write"@ || name == "Edit"@ || name == "Read"@
}

/// The one-line summary of a tool call that the trace records.
pub open spec fn spec_summarize_input(tool_name: Seq<char>, input: ToolInputView) -> Seq<char> {
    if tool_name == "Bash"@ {
        take_chars(
            match input.command {
                Some(c) => c,
                None => "(unknown command)"@,
            },
            SUMMARY_LIMIT as nat,
        )
    } else if is_file_tool(tool_name) {
        match input.file_path {
            Some(p) => p,
            None => "(unknown path)"@,
        }
    } else {
        take_chars(input.json, SUMMARY_LIMIT as nat)
    }
}

/// Whether a tool's input names one file (`Write`, `Edit` or `Read`).
pub fn is_file_tool_name(tool_name: &str) -> (res: bool)
    ensures
        res == is_file_tool(tool_name@),
{
    same_text(tool_name, "Write") || same_text(tool_name, "Edit") || same_text(tool_name, "Read")
}

/// What a summary holds for each kind of tool: a `Bash` call's command cut
/// to its first 200 characters, a file tool's path whole, any other tool's
/// JSON input cut to its first 200 characters, and fixed placeholders for a
/// missing command or path.
pub proof fn lemma_summary_by_tool(tool_name: Seq<char>, input: ToolInputView)
    ensures
        tool_name == "Bash"@ ==> match input.command {
            Some(c) => spec_summarize_input(tool_name, input).len() == (if c.len() <= SUMMARY_LIMIT { c.len() } else { SUMMARY_LIMIT as nat })
                && spec_summarize_input(tool_name, input) == c.subrange(0, spec_summarize_input(tool_name, input).len() as int),
            None => spec_summarize_input(tool_name, input) == "(unknown command)"@,
        },
        tool_name == "Write"@ || tool_name == "Edit"@ || tool_name == "Read"@ ==> match input.file_path {
            Some(p) => spec_summarize_input(tool_name, input) == p,
            None => spec_summarize_input(tool_name, input) == "(unknown path)"@,
        },
        tool_name != "Bash"@ && tool_name != "Write"@ && tool_name != "Edit"@ && tool_name != "Read"@
            ==> spec_summarize_input(tool_name, input).len() == (if input.json.len() <= SUMMARY_LIMIT { input.json.len() } else { SUMMARY_LIMIT as nat })
                && spec_summarize_input(tool_name, input) == input.json.subrange(0, spec_summarize_input(tool_name, input).len() as int),
{
    reveal_strlit("Bash");
    reveal_strlit("Write");
    reveal_strlit("Edit");
    reveal_strlit("Read");
    reveal_strlit("(unknown command)");
    assert("Bash"@[0] != "Write"@[0] && "Bash"@[0] != "Edit"@[0] && "Bash"@[0] != "Read"@[0]);
    if let Some(c) = input.command {
        lemma_take_chars_is_short_prefix(c, SUMMARY_LIMIT as nat);
    }
    lemma_take_chars_is_short_prefix("(unknown command)"@, SUMMARY_LIMIT as nat);
    lemma_take_chars_is_short_prefix(input.json, SUMMARY_LIMIT as nat);
}

/// Summarizes a tool call for the trace: the command of a `Bash` call, the
/// path of a file tool, or the JSON input of any other tool; commands and JSON
/// are cut to their first 200 characters.
pub fn summarize_input(tool_name: &str, tool_input: &ToolInput) -> (res: String)
    ensures
        res@ == spec_summarize_input(tool_name@, tool_input@),
        tool_name@ == "Bash"@ ==> match tool_input.command {
            Some(c) => res@.len() == (if c@.len() <= SUMMARY_LIMIT { c@.len() } else { SUMMARY_LIMIT as nat })
                && res@ == c@.subrange(0, res@.len() as int),
            None => res@ == "(unknown command)"@,
        },
        tool_name@ == "Write"@ || tool_name@ == "Edit"@ || tool_name@ == "Read"@ ==> match tool_input.file_path {
            Some(p) => res@ == p@,
            None => res@ == "(unknown path)"@,
        },
        tool_name@ != "Bash"@ && tool_name@ != "Write"@ && tool_name@ != "Edit"@ && tool_name@ != "Read"@
            ==> res@.len() == (if tool_input.json@.len() <= SUMMARY_LIMIT { tool_input.json@.len() } else { SUMMARY_LIMIT as nat })
                && res@ == tool_input.json@.subrange(0, res@.len() as int),
{
    proof {
        lemma_summary_by_tool(tool_name@, tool_input@);
    }
    if same_text(tool_name, "Bash") {
        match &tool_input.command {
            Some(c) => truncate_chars(c.as_str(), SUMMARY_LIMIT),
            None => truncate_chars("(unknown command)", SUMMARY_LIMIT),
        }
    } else if is_file_tool_name(tool_name) {
        match &tool_input.file_path {
            Some(p) => p.clone(),
            None => "(unknown path)".to_owned(),
        }
    } else {
        truncate_chars(tool_input.json.as_str(), SUMMARY_LIMIT)
    }
}

/// The reason given by the first failed path check, when one failed.
pub open spec fn fence_denial(checks: Seq<Result<(), String>>) -> Option<Seq<char>>
    decreases checks.len(),
{
    if checks.len() == 0 {
        None
    } else {
        match checks[0] {
            Err(r) => Some(r@),
            Ok(_) => fence_denial(checks.drop_first()),
        }
    }
}

/// When every path check passed, the fence denies nothing.
pub proof fn lemma_fence_passes(checks: Seq<Result<(), String>>)
    requires
        forall|i: int| 0 <= i < checks.len() ==> #[trigger] checks[i] is Ok,
    ensures
        fence_denial(checks) is None,
    decreases checks.len(),
{
    if checks.len() > 0 {
        let rest = checks.drop_first();
        assert forall|i: int| 0 <= i < rest.len() implies #[trigger] rest[i] is Ok by {
            assert(rest[i] == checks[i + 1]);
        }
        lemma_fence_passes(rest);
    }
}

/// When a path check failed and every check before it passed, the fence
/// denies with that check's reason.
pub proof fn lemma_fence_denies_at_first_failure(checks: Seq<Result<(), String>>, i: int)
    requires
        0 <= i < checks.len(),
        checks[i] is Err,
        forall|j: int| 0 <= j < i ==> #[trigger] checks[j] is Ok,
    ensures
        fence_denial(checks) == Some(checks[i]->Err_0@),
    decreases i,
{
    if i > 0 {
        let rest = checks.drop_first();
        assert(rest[i - 1] == checks[i]);
        assert forall|j: int| 0 <= j < i - 1 implies #[trigger] rest[j] is Ok by {
            assert(rest[j] == checks[j + 1]);
        }
        lemma_fence_denies_at_first_failure(rest, i - 1);
    }
}

/// Finds the first path check that failed, and returns its reason.
pub fn first_fence_denial(checks: &Vec<Result<(), String>>) -> (res: Option<String>)
    ensures
        opt_view(res) == fence_denial(checks@),
{
    let mut i: usize = 0;
    assert(checks@.skip(0) =~= checks@);
    while i < checks.len()
        invariant
            0 <= i <= checks.len(),
            fence_denial(checks@) == fence_denial(checks@.skip(i as int)),
        decreases checks.len() - i,
    {
        match &checks[i] {
            Err(r) => {
                return Some(r.clone());
            },
            Ok(_) => {},
        }
        assert(checks@.skip(i as int).drop_first() =~= checks@.skip(i + 1));
        i += 1;
    }
    None
}

/// The reason given when the rules block a call.
pub open spec fn block_message(message: Seq<char>) -> Seq<char> {
    "⛔ Railyard BLOCKED: "@ + message
}

/// The reason given when the rules want a human to approve a call.
pub open spec fn approval_message(message: Seq<char>) -> Seq<char> {
    "⚠️ Railyard: "@ + message + " — requires approval"@
}

/// The permission answered: a failed path check or a blocking rule denies,
/// an approval rule asks, and anything else is allowed.
pub open spec fn spec_permission(checks: Seq<Result<(), String>>, decision: Decision) -> Permission {
    if fence_denial(checks) is Some {
        Permission::Deny
    } else {
        match decision {
            Decision::Allow => Permission::Allow,
            Decision::Block { .. } => Permission::Deny,
            Decision::Approve { .. } => Permission::Ask,
        }
    }
}

/// The reason answered along with the permission.
pub open spec fn spec_reason(checks: Seq<Result<(), String>>, decision: Decision) -> Option<Seq<char>> {
    match fence_denial(checks) {
        Some(r) => Some(r),
        None => match decision {
            Decision::Allow => None,
            Decision::Block { message, .. } => Some(block_message(message@)),
            Decision::Approve { message, .. } => Some(approval_message(message@)),
        },
    }
}

/// The decision word written to the trace.
pub open spec fn spec_verdict(checks: Seq<Result<(), String>>, decision: Decision) -> Seq<char> {
    if fence_denial(checks) is Some {
        "block"@
    } else {
        match decision {
            Decision::Allow => "allow"@,
            Decision::Block { .. } => "block"@,
            Decision::Approve { .. } => "approve"@,
        }
    }
}

/// The rule written to the trace: the path fence, or the rule that fired.
pub open spec fn spec_rule(checks: Seq<Result<(), String>>, decision: Decision) -> Option<Seq<char>> {
    if fence_denial(checks) is Some {
        Some("path-fence"@)
    } else {
        match decision {
            Decision::Allow => None,
            Decision::Block { rule, .. } => Some(rule@),
            Decision::Approve { rule, .. } => Some(rule@),
        }
    }
}

/// The tool named by the event, `unknown` when it names none.
pub open spec fn tool_name_of(input: HookInput) -> Seq<char> {
    match input.tool_name {
        Some(n) => n@,
        None => "unknown"@,
    }
}

/// The id of the tool call, `unknown` when the event gives none.
pub open spec fn tool_use_id_of(input: HookInput) -> Seq<char> {
    match input.tool_use_id {
        Some(n) => n@,
        None => "unknown"@,
    }
}

/// Whether the snapshot settings cover a tool.
pub open spec fn snapshots_tool(settings: SnapshotSettings, name: Seq<char>) -> bool {
    settings.enabled && exists|i: int| 0 <= i < settings.tools.len() && #[trigger] settings.tools@[i]@ == name
}

/// A file to save before the call runs.
pub struct SnapshotRequest {
    pub directory: String,
    pub session_id: String,
    pub tool_use_id: String,
    pub file_path: String,
}

/// The characters of a snapshot request: directory, session, call and file.
pub open spec fn snapshot_view(s: Option<SnapshotRequest>) -> Option<(Seq<char>, Seq<char>, Seq<char>, Seq<char>)> {
    match s {
        Some(r) => Some((r.directory@, r.session_id@, r.tool_use_id@, r.file_path@)),
        None => None,
    }
}

/// The file saved before an allowed call of a covered tool that names one.
pub open spec fn spec_snapshot(
    input: HookInput,
    policy: Policy,
    checks: Seq<Result<(), String>>,
    decision: Decision,
) -> Option<(Seq<char>, Seq<char>, Seq<char>, Seq<char>)> {
    if fence_denial(checks) is None && decision is Allow && snapshots_tool(policy.snapshot, tool_name_of(input)) {
        match input_or_absent(input.tool_input).file_path {
            Some(p) => Some((policy.snapshot.directory@, input.session_id@, tool_use_id_of(input), p)),
            None => None,
        }
    } else {
        None
    }
}

/// Everything the pre-tool hook decided about one call.
pub struct PreToolOutcome {
    /// The answer to the agent.
    pub output: HookOutput,
    /// The decision word for the trace: `allow`, `block` or `approve`.
    pub verdict: String,
    /// The rule that decided, if any.
    pub rule: Option<String>,
    /// The file to save before the call runs, if any.
    pub snapshot: Option<SnapshotRequest>,
}

/// Whether the snapshot settings list a tool.
pub fn snapshot_covers(settings: &SnapshotSettings, tool_name: &str) -> (res: bool)
    ensures
        res == snapshots_tool(*settings, tool_name@),
{
    if !settings.enabled {
        return false;
    }
    let mut i: usize = 0;
    while i < settings.tools.len()
        invariant
            0 <= i <= settings.tools.len(),
            settings.enabled,
            forall|j: int| 0 <= j < i ==> #[trigger] settings.tools@[j]@ != tool_name@,
        decreases settings.tools.len() - i,
    {
        if same_text(settings.tools[i].as_str(), tool_name) {
            return true;
        }
        i += 1;
    }
    false
}

/// The tool named by the event, `unknown` when it names none.
pub fn tool_name_or_unknown(input: &HookInput) -> (res: &str)
    ensures
        res@ == tool_name_of(*input),
{
    match &input.tool_name {
        Some(n) => n.as_str(),
        None => "unknown",
    }
}

/// The input of the call, or that of a call without one.
pub fn tool_input_or_absent(input: &HookInput) -> (res: ToolInput)
    ensures
        res@ == input_or_absent(input.tool_input),
{
    match &input.tool_input {
        Some(t) => copy_tool_input(t),
        None => ToolInput::absent(),
    }
}

/// Decides a tool call before it runs.
///
/// `fence_checks` holds, in order, the outcome of checking each path that the
/// call may touch against the path fence (for `Bash`, the paths found in the
/// command; for other tools, the file they name); `decision` is what the rule
/// engine (allowlist, then blocklist, then approval rules) made of the call.
/// The first failed path check denies the call with its own reason. Otherwise
/// a blocking rule denies, an approval rule asks, and an allowed call goes
/// through, after a snapshot of the file it names when the policy covers the
/// tool.
pub fn handle(
    input: &HookInput,
    policy: &Policy,
    fence_checks: &Vec<Result<(), String>>,
    decision: &Decision,
) -> (out: PreToolOutcome)
    ensures
        out.output.permission == spec_permission(fence_checks@, *decision),
        opt_view(out.output.reason) == spec_reason(fence_checks@, *decision),
        out.verdict@ == spec_verdict(fence_checks@, *decision),
        opt_view(out.rule) == spec_rule(fence_checks@, *decision),
        snapshot_view(out.snapshot) == spec_snapshot(*input, *policy, fence_checks@, *decision),
        forall|i: int|
            0 <= i < fence_checks@.len() && fence_checks@[i] is Err
                && (forall|j: int| 0 <= j < i ==> #[trigger] fence_checks@[j] is Ok)
                ==> {
                &&& out.output.permission == Permission::Deny
                &&& opt_view(out.output.reason) == Some((#[trigger] fence_checks@[i])->Err_0@)
                &&& out.verdict@ == "block"@
                &&& opt_view(out.rule) == Some("path-fence"@)
                &&& out.snapshot is None
            },
        (forall|i: int| 0 <= i < fence_checks@.len() ==> #[trigger] fence_checks@[i] is Ok) ==> match *decision {
            Decision::Allow => out.output.permission == Permission::Allow
                && out.output.reason is None
                && out.verdict@ == "allow"@
                && out.rule is None
                && snapshot_view(out.snapshot) == if policy.snapshot.enabled
                    && (exists|k: int| 0 <= k < policy.snapshot.tools.len() && #[trigger] policy.snapshot.tools@[k]@ == tool_name_of(*input))
                    && input_or_absent(input.tool_input).file_path is Some {
                    Some((
                        policy.snapshot.directory@,
                        input.session_id@,
                        tool_use_id_of(*input),
                        input_or_absent(input.tool_input).file_path->0,
                    ))
                } else {
                    None
                },
            Decision::Block { rule, message } => out.output.permission == Permission::Deny
                && opt_view(out.output.reason) == Some("⛔ Railyard BLOCKED: "@ + message@)
                && out.verdict@ == "block"@
                && opt_view(out.rule) == Some(rule@)
                && out.snapshot is None,
            Decision::Approve { rule, message } => out.output.permission == Permission::Ask
                && opt_view(out.output.reason) == Some("⚠️ Railyard: "@ + message@ + " — requires approval"@)
                && out.verdict@ == "approve"@
                && opt_view(out.rule) == Some(rule@)
                && out.snapshot is None,
        },
{
    proof {
        assert forall|i: int|
            0 <= i < fence_checks@.len() && fence_checks@[i] is Err
                && (forall|j: int| 0 <= j < i ==> #[trigger] fence_checks@[j] is Ok)
            implies fence_denial(fence_checks@) == Some((#[trigger] fence_checks@[i])->Err_0@) by {
            lemma_fence_denies_at_first_failure(fence_checks@, i);
        }
        if forall|i: int| 0 <= i < fence_checks@.len() ==> #[trigger] fence_checks@[i] is Ok {
            lemma_fence_passes(fence_checks@);
        }
    }
    if let Some(reason) = first_fence_denial(fence_checks) {
        return PreToolOutcome {
            output: HookOutput::deny(reason.as_str()),
            verdict: "block".to_owned(),
            rule: Some("path-fence".to_owned()),
            snapshot: None,
        };
    }
    match decision {
        Decision::Allow => {
            let tool_name = tool_name_or_unknown(input);
            let mut snapshot: Option<SnapshotRequest> = None;
            if snapshot_covers(&policy.snapshot, tool_name) {
                let tool_input = tool_input_or_absent(input);
                if let Some(file_path) = tool_input.file_path {
                    let tool_use_id = match &input.tool_use_id {
                        Some(id) => id.clone(),
                        None => "unknown".to_owned(),
                    };
                    snapshot = Some(SnapshotRequest {
                        directory: policy.snapshot.directory.clone(),
                        session_id: input.session_id.clone(),
                        tool_use_id,
                        file_path,
                    });
                }
            }
            PreToolOutcome {
                output: HookOutput::allow(),
                verdict: "allow".to_owned(),
                rule: None,
                snapshot,
            }
        },
        Decision::Block { rule, message } => {
            let mut reason = "⛔ Railyard BLOCKED: ".to_owned();
            reason.append(message.as_str());
            PreToolOutcome {
                output: HookOutput::deny(reason.as_str()),
                verdict: "block".to_owned(),
                rule: Some(rule.clone()),
                snapshot: None,
            }
        },
        Decision::Approve { rule, message } => {
            let mut reason = "⚠️ Railyard: ".to_owned();
            reason.append(message.as_str());
            reason.append(" — requires approval");
            PreToolOutcome {
                output: HookOutput::ask(reason.as_str()),
                verdict: "approve".to_owned(),
                rule: Some(rule.clone()),
                snapshot: None,
            }
        },
    }
}

/// Writes the decision about a call to the trace: nothing when tracing is
/// off, else an entry stamped with the current time that names the session,
/// the tool, a summary of its input, the decision and the rule, with the time
/// the decision took, to be written to the global trace directory under
/// `home` (the same place as the post-tool trace, whatever the project).
pub fn log_decision(
    input: &HookInput,
    policy: &Policy,
    tool_name: &str,
    tool_input: &ToolInput,
    decision: &str,
    rule: Option<&str>,
    duration_ms: u64,
    home: &str,
) -> (res: Option<TraceRecord>)
    ensures
        res is None <==> !policy.trace.enabled,
        res matches Some(r) ==> {
            let e = r.entry;
            &&& r.directory@ == spec_global_trace_dir(home@)
            &&& ends_in_utc_offset(e.timestamp@)
            &&& e.session_id@ == input.session_id@
            &&& e.event@ == "PreToolUse"@
            &&& e.tool@ == tool_name@
            &&& e.input_summary@ == spec_summarize_input(tool_name@, tool_input@)
            &&& e.decision@ == decision@
            &&& opt_view(e.rule) == match rule {
                Some(r) => Some(r@),
                None => None::<Seq<char>>,
            }
            &&& e.duration_ms == duration_ms
        },
{
    if !policy.trace.enabled {
        return None;
    }
    let rule = match rule {
        Some(r) => Some(r.to_owned()),
        None => None,
    };
    let entry = TraceEntry {
        timestamp: now_rfc3339(),
        session_id: input.session_id.clone(),
        event: "PreToolUse".to_owned(),
        tool: tool_name.to_owned(),
        input_summary: summarize_input(tool_name, tool_input),
        decision: decision.to_owned(),
        rule,
        duration_ms,
    };
    Some(TraceRecord { directory: global_trace_dir(home), entry })
}

/// When every path check passed, the rules decide: an allowed call goes
/// through with no reason, a blocking rule denies with its message after
/// `⛔ Railyard BLOCKED: `, and an approval rule asks a human with its message
/// between `⚠️ Railyard: ` and ` — requires approval`; the trace records
/// `allow`, `block` or `approve` and the rule that fired.
pub proof fn lemma_rules_decide_when_fence_passes(checks: Seq<Result<(), String>>, decision: Decision)
    requires
        forall|i: int| 0 <= i < checks.len() ==> #[trigger] checks[i] is Ok,
    ensures
        match decision {
            Decision::Allow => spec_permission(checks, decision) == Permission::Allow
                && spec_reason(checks, decision) is None
                && spec_verdict(checks, decision) == "allow"@
                && spec_rule(checks, decision) is None,
            Decision::Block { rule, message } => spec_permission(checks, decision) == Permission::Deny
                && spec_reason(checks, decision) == Some("⛔ Railyard BLOCKED: "@ + message@)
                && spec_verdict(checks, decision) == "block"@
                && spec_rule(checks, decision) == Some(rule@),
            Decision::Approve { rule, message } => spec_permission(checks, decision) == Permission::Ask
                && spec_reason(checks, decision) == Some("⚠️ Railyard: "@ + message@ + " — requires approval"@)
                && spec_verdict(checks, decision) == "approve"@
                && spec_rule(checks, decision) == Some(rule@),
        },
{
    lemma_fence_passes(checks);
}

/// A call whose first failed path check is at place `i` is denied with that
/// check's reason, whatever the rules decided; nothing is saved for it.
pub proof fn lemma_first_failed_check_denies(
    input: HookInput,
    policy: Policy,
    checks: Seq<Result<(), String>>,
    decision: Decision,
    i: int,
)
    requires
        0 <= i < checks.len(),
        checks[i] is Err,
        forall|j: int| 0 <= j < i ==> #[trigger] checks[j] is Ok,
    ensures
        spec_permission(checks, decision) == Permission::Deny,
        spec_reason(checks, decision) == Some(checks[i]->Err_0@),
        spec_verdict(checks, decision) == "block"@,
        spec_rule(checks, decision) == Some("path-fence"@),
        spec_snapshot(input, policy, checks, decision) is None,
{
    lemma_fence_denies_at_first_failure(checks, i);
}

/// A call that fails the path fence is denied with the fence's own reason,
/// and nothing is saved for it, whatever the rules decided.
pub proof fn lemma_fence_denial_overrides_rules(
    input: HookInput,
    policy: Policy,
    checks: Seq<Result<(), String>>,
    decision: Decision,
    other: Decision,
)
    requires
        fence_denial(checks) is Some,
    ensures
        spec_permission(checks, decision) == Permission::Deny,
        spec_reason(checks, decision) == fence_denial(checks),
        spec_reason(checks, decision) == spec_reason(checks, other),
        spec_verdict(checks, decision) == "block"@,
        spec_rule(checks, decision) == Some("path-fence"@),
        spec_snapshot(input, policy, checks, decision) is None,
{
}

/// The decision written to the trace is the one answered to the agent:
/// `allow` exactly when the call is allowed, `approve` exactly when a human
/// is asked, `block` exactly when it is denied.
pub proof fn lemma_trace_matches_answer(checks: Seq<Result<(), String>>, decision: Decision)
    ensures
        (spec_permission(checks, decision) == Permission::Allow) <==> (spec_verdict(checks, decision) == "allow"@),
        (spec_permission(checks, decision) == Permission::Ask) <==> (spec_verdict(checks, decision) == "approve"@),
        (spec_permission(checks, decision) == Permission::Deny) <==> (spec_verdict(checks, decision) == "block"@),
{
    reveal_strlit("allow");
    reveal_strlit("approve");
    reveal_strlit("block");
    assert("allow"@.len() != "approve"@.len());
    assert("allow"@[0] != "block"@[0]);
    assert("approve"@.len() != "block"@.len());
}

/// Only an allowed call is let through without a reason; a denied or asked
/// call always tells the agent why.
pub proof fn lemma_reason_unless_allowed(checks: Seq<Result<(), String>>, decision: Decision)
    ensures
        (spec_permission(checks, decision) == Permission::Allow) <==> spec_reason(checks, decision) is None,
{
}

/// A file is saved only before a call that is let through, under a policy
/// that has snapshots on and lists the tool.
pub proof fn lemma_snapshot_only_when_allowed(
    input: HookInput,
    policy: Policy,
    checks: Seq<Result<(), String>>,
    decision: Decision,
)
    requires
        spec_snapshot(input, policy, checks, decision) is Some,
    ensures
        spec_permission(checks, decision) == Permission::Allow,
        policy.snapshot.enabled,
        snapshots_tool(policy.snapshot, tool_name_of(input)),
{
}

/// A summary of a command or of a JSON input never exceeds 200 characters
/// and is a prefix of what it summarizes.
pub proof fn lemma_summary_is_bounded_prefix(tool_name: Seq<char>, input: ToolInputView)
    requires
        !is_file_tool(tool_name),
    ensures
        spec_summarize_input(tool_name, input).len() <= SUMMARY_LIMIT,
        tool_name != "Bash"@ ==> input.json.take(spec_summarize_input(tool_name, input).len() as int)
            == spec_summarize_input(tool_name, input),
        tool_name == "Bash"@ && input.command is Some ==> input.command->0.take(
            spec_summarize_input(tool_name, input).len() as int,
        ) == spec_summarize_input(tool_name, input),
{
    reveal_strlit("(unknown command)");
}

} // verus!

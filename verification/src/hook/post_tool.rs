//! The post-tool hook: records the completed tool call.
use vstd::prelude::*;

use crate::clock::{ends_in_utc_offset, now_rfc3339};
use crate::hook::pre_tool::{
    is_file_tool, is_file_tool_name, spec_summarize_input, tool_input_or_absent, tool_name_of,
    tool_name_or_unknown, SUMMARY_LIMIT,
};
use crate::text::{lemma_take_chars_is_short_prefix, same_text, take_chars, truncate_chars};
use crate::trace_dir::{global_trace_dir, spec_global_trace_dir, TraceRecord};
use crate::types::{input_or_absent, HookInput, Policy, ToolInput, ToolInputView, TraceEntry};

verus! {

/// The summary of a completed call: like the pre-tool one, but a missing
/// command or path reads `(unknown)`.
pub open spec fn spec_completed_summary(tool_name: Seq<char>, input: ToolInputView) -> Seq<char> {
    if tool_name == "Bash"@ {
        take_chars(
            match input.command {
                Some(c) => c,
                None => "(unknown)"@,
            },
            SUMMARY_LIMIT as nat,
        )
    } else if is_file_tool(tool_name) {
        match input.file_path {
            Some(p) => p,
            None => "(unknown)"@,
        }
    } else {
        take_chars(input.json, SUMMARY_LIMIT as nat)
    }
}

/// What the summary of a completed call holds for each kind of tool: a
/// `Bash` call's command cut to its first 200 characters, a file tool's path
/// whole, any other tool's JSON input cut to its first 200 characters, and
/// `(unknown)` for a missing command or path.
pub proof fn lemma_completed_summary_by_tool(tool_name: Seq<char>, input: ToolInputView)
    ensures
        tool_name == "Bash"@ ==> match input.command {
            Some(c) => spec_completed_summary(tool_name, input).len() == (if c.len() <= SUMMARY_LIMIT { c.len() } else { SUMMARY_LIMIT as nat })
                && spec_completed_summary(tool_name, input) == c.subrange(0, spec_completed_summary(tool_name, input).len() as int),
            None => spec_completed_summary(tool_name, input) == "(unknown)"@,
        },
        tool_name == "Write"@ || tool_name == "Edit"@ || tool_name == "Read"@ ==> match input.file_path {
            Some(p) => spec_completed_summary(tool_name, input) == p,
            None => spec_completed_summary(tool_name, input) == "(unknown)"@,
        },
        tool_name != "Bash"@ && tool_name != "Write"@ && tool_name != "Edit"@ && tool_name != "Read"@
            ==> spec_completed_summary(tool_name, input).len() == (if input.json.len() <= SUMMARY_LIMIT { input.json.len() } else { SUMMARY_LIMIT as nat })
                && spec_completed_summary(tool_name, input) == input.json.subrange(0, spec_completed_summary(tool_name, input).len() as int),
{
    reveal_strlit("Bash");
    reveal_strlit("Write");
    reveal_strlit("Edit");
    reveal_strlit("Read");
    reveal_strlit("(unknown)");
    assert("Bash"@[0] != "Write"@[0] && "Bash"@[0] != "Edit"@[0] && "Bash"@[0] != "Read"@[0]);
    if let Some(c) = input.command {
        lemma_take_chars_is_short_prefix(c, SUMMARY_LIMIT as nat);
    }
    lemma_take_chars_is_short_prefix("(unknown)"@, SUMMARY_LIMIT as nat);
    lemma_take_chars_is_short_prefix(input.json, SUMMARY_LIMIT as nat);
}

/// Summarizes a completed call for the trace.
pub fn summarize_completed(tool_name: &str, tool_input: &ToolInput) -> (res: String)
    ensures
        res@ == spec_completed_summary(tool_name@, tool_input@),
        tool_name@ == "Bash"@ ==> match tool_input.command {
            Some(c) => res@.len() == (if c@.len() <= SUMMARY_LIMIT { c@.len() } else { SUMMARY_LIMIT as nat })
                && res@ == c@.subrange(0, res@.len() as int),
            None => res@ == "(unknown)"@,
        },
        tool_name@ == "Write"@ || tool_name@ == "Edit"@ || tool_name@ == "Read"@ ==> match tool_input.file_path {
            Some(p) => res@ == p@,
            None => res@ == "(unknown)"@,
        },
        tool_name@ != "Bash"@ && tool_name@ != "Write"@ && tool_name@ != "Edit"@ && tool_name@ != "Read"@
            ==> res@.len() == (if tool_input.json@.len() <= SUMMARY_LIMIT { tool_input.json@.len() } else { SUMMARY_LIMIT as nat })
                && res@ == tool_input.json@.subrange(0, res@.len() as int),
{
    proof {
        lemma_completed_summary_by_tool(tool_name@, tool_input@);
    }
    if same_text(tool_name, "Bash") {
        match &tool_input.command {
            Some(c) => truncate_chars(c.as_str(), SUMMARY_LIMIT),
            None => truncate_chars("(unknown)", SUMMARY_LIMIT),
        }
    } else if is_file_tool_name(tool_name) {
        match &tool_input.file_path {
            Some(p) => p.clone(),
            None => "(unknown)".to_owned(),
        }
    } else {
        truncate_chars(tool_input.json.as_str(), SUMMARY_LIMIT)
    }
}

/// Handles a completed tool call: when tracing is on, the trace entry that
/// records it (stamped with the current time, decision `completed`, no rule);
/// when it is off, nothing. `duration_ms` is the time the hook took; the
/// entry goes to the global trace directory under `home`.
pub fn handle(input: &HookInput, policy: &Policy, duration_ms: u64, home: &str) -> (res: Option<TraceRecord>)
    ensures
        res is None <==> !policy.trace.enabled,
        res matches Some(r) ==> {
            let e = r.entry;
            &&& r.directory@ == spec_global_trace_dir(home@)
            &&& ends_in_utc_offset(e.timestamp@)
            &&& e.session_id@ == input.session_id@
            &&& e.event@ == "PostToolUse"@
            &&& e.tool@ == tool_name_of(*input)
            &&& e.input_summary@ == spec_completed_summary(
                tool_name_of(*input),
                input_or_absent(input.tool_input),
            )
            &&& e.decision@ == "completed"@
            &&& e.rule is None
            &&& e.duration_ms == duration_ms
        },
{
    if !policy.trace.enabled {
        return None;
    }
    let tool_name = tool_name_or_unknown(input);
    let tool_input = tool_input_or_absent(input);
    let input_summary = summarize_completed(tool_name, &tool_input);
    let entry = TraceEntry {
        timestamp: now_rfc3339(),
        session_id: input.session_id.clone(),
        event: "PostToolUse".to_owned(),
        tool: tool_name.to_owned(),
        input_summary,
        decision: "completed".to_owned(),
        rule: None,
        duration_ms,
    };
    Some(TraceRecord { directory: global_trace_dir(home), entry })
}

/// The trace summarizes a call the same way before and after it runs; the
/// two differ only in the placeholder written for a missing command or path.
pub proof fn lemma_summaries_agree(tool_name: Seq<char>, input: ToolInputView)
    requires
        tool_name == "Bash"@ ==> input.command is Some,
        is_file_tool(tool_name) ==> input.file_path is Some,
    ensures
        spec_completed_summary(tool_name, input) == spec_summarize_input(tool_name, input),
{
}

} // verus!

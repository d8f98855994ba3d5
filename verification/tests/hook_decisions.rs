use railroad::hook::post_tool;
use railroad::hook::pre_tool::{first_fence_denial, handle, log_decision, summarize_input};
use railroad::types::{
    Decision, HookInput, Permission, Policy, SnapshotSettings, ToolInput, TraceSettings,
};

fn object_json(key: &str, value: &str) -> String {
    let mut map = serde_json::Map::new();
    map.insert(key.to_string(), serde_json::Value::String(value.to_string()));
    serde_json::to_string(&serde_json::Value::Object(map)).unwrap()
}

fn bash_input(command: &str) -> ToolInput {
    ToolInput {
        command: Some(command.to_string()),
        file_path: None,
        json: object_json("command", command),
    }
}

fn file_input(path: &str) -> ToolInput {
    ToolInput {
        command: None,
        file_path: Some(path.to_string()),
        json: object_json("file_path", path),
    }
}

fn event(tool: &str, input: ToolInput) -> HookInput {
    HookInput {
        session_id: "sess-1".to_string(),
        cwd: "/work/project".to_string(),
        tool_name: Some(tool.to_string()),
        tool_input: Some(input),
        tool_use_id: Some("toolu_01".to_string()),
    }
}

fn policy(trace: bool, snapshot: bool) -> Policy {
    Policy {
        trace: TraceSettings { enabled: trace, directory: ".railroad/traces".to_string() },
        snapshot: SnapshotSettings {
            enabled: snapshot,
            tools: vec!["Write".to_string(), "Edit".to_string()],
            directory: ".railroad/snapshots".to_string(),
        },
    }
}

#[test]
fn bash_summary_keeps_first_200_chars() {
    let long: String = "é".repeat(250);
    let s = summarize_input("Bash", &bash_input(&long));
    assert_eq!(s.chars().count(), 200);
    assert_eq!(s, "é".repeat(200));
    assert_eq!(summarize_input("Bash", &bash_input("ls -la")), "ls -la");
}

#[test]
fn summaries_of_missing_fields_use_placeholders() {
    let empty = ToolInput { command: None, file_path: None, json: "{}".to_string() };
    assert_eq!(summarize_input("Bash", &empty), "(unknown command)");
    assert_eq!(summarize_input("Read", &empty), "(unknown path)");
    assert_eq!(post_tool::summarize_completed("Bash", &empty), "(unknown)");
    assert_eq!(post_tool::summarize_completed("Edit", &empty), "(unknown)");
}

#[test]
fn file_tools_summarize_their_path_whole() {
    let path = format!("/tmp/{}", "a".repeat(300));
    assert_eq!(summarize_input("Write", &file_input(&path)), path);
    assert_eq!(post_tool::summarize_completed("Read", &file_input(&path)), path);
}

#[test]
fn other_tools_summarize_their_json() {
    let input = ToolInput {
        command: None,
        file_path: None,
        json: object_json("pattern", &"x".repeat(300)),
    };
    let s = summarize_input("Grep", &input);
    assert_eq!(s.chars().count(), 200);
    assert!(input.json.starts_with(&s));
    assert_eq!(s, post_tool::summarize_completed("Grep", &input));
}

#[test]
fn absent_input_is_json_null() {
    assert_eq!(ToolInput::absent().json, serde_json::to_string(&serde_json::Value::Null).unwrap());
}

#[test]
fn first_failed_fence_check_is_reported() {
    let checks = vec![Ok(()), Err("first".to_string()), Err("second".to_string())];
    assert_eq!(first_fence_denial(&checks), Some("first".to_string()));
    assert_eq!(first_fence_denial(&vec![Ok(()), Ok(())]), None);
    assert_eq!(first_fence_denial(&vec![]), None);
}

#[test]
fn fence_denial_overrides_allow() {
    let input = event("Write", file_input("/home/u/.ssh/id_rsa"));
    let checks = vec![Err("path ~/.ssh is denied".to_string())];
    let out = handle(&input, &policy(true, true), &checks, &Decision::Allow);
    assert_eq!(out.output.permission, Permission::Deny);
    assert_eq!(out.output.reason.as_deref(), Some("path ~/.ssh is denied"));
    assert_eq!(out.verdict, "block");
    assert_eq!(out.rule.as_deref(), Some("path-fence"));
    assert!(out.snapshot.is_none());
}

#[test]
fn blocking_rule_denies_with_message() {
    let input = event("Bash", bash_input("terraform destroy"));
    let decision = Decision::Block {
        rule: "terraform-destroy".to_string(),
        message: "Terraform destroy is blocked".to_string(),
    };
    let out = handle(&input, &policy(true, true), &vec![Ok(())], &decision);
    assert_eq!(out.output.permission, Permission::Deny);
    assert_eq!(
        out.output.reason.as_deref(),
        Some("⛔ Railyard BLOCKED: Terraform destroy is blocked")
    );
    assert_eq!(out.verdict, "block");
    assert_eq!(out.rule.as_deref(), Some("terraform-destroy"));
}

#[test]
fn approval_rule_asks_with_message() {
    let input = event("Bash", bash_input("git push --force"));
    let decision = Decision::Approve {
        rule: "force-push".to_string(),
        message: "Force push rewrites history".to_string(),
    };
    let out = handle(&input, &policy(true, true), &vec![], &decision);
    assert_eq!(out.output.permission, Permission::Ask);
    assert_eq!(
        out.output.reason.as_deref(),
        Some("⚠️ Railyard: Force push rewrites history — requires approval")
    );
    assert_eq!(out.verdict, "approve");
    assert_eq!(out.rule.as_deref(), Some("force-push"));
    assert!(out.snapshot.is_none());
}

#[test]
fn allowed_edit_is_snapshotted() {
    let input = event("Edit", file_input("src/main.rs"));
    let out = handle(&input, &policy(true, true), &vec![Ok(())], &Decision::Allow);
    assert_eq!(out.output.permission, Permission::Allow);
    assert!(out.output.reason.is_none());
    assert_eq!(out.verdict, "allow");
    assert!(out.rule.is_none());
    let snap = out.snapshot.expect("an allowed edit is saved first");
    assert_eq!(snap.directory, ".railroad/snapshots");
    assert_eq!(snap.session_id, "sess-1");
    assert_eq!(snap.tool_use_id, "toolu_01");
    assert_eq!(snap.file_path, "src/main.rs");
}

#[test]
fn no_snapshot_for_unlisted_tool_or_disabled_snapshots() {
    let read = event("Read", file_input("src/main.rs"));
    assert!(handle(&read, &policy(true, true), &vec![], &Decision::Allow).snapshot.is_none());
    let write = event("Write", file_input("src/main.rs"));
    assert!(handle(&write, &policy(true, false), &vec![], &Decision::Allow).snapshot.is_none());
    let mut no_id = event("Write", file_input("a.txt"));
    no_id.tool_use_id = None;
    let snap = handle(&no_id, &policy(true, true), &vec![], &Decision::Allow).snapshot.unwrap();
    assert_eq!(snap.tool_use_id, "unknown");
}

#[test]
fn decision_trace_entry() {
    let input = event("Bash", bash_input("npm test"));
    let p = policy(true, false);
    let record =
        log_decision(&input, &p, "Bash", &bash_input("npm test"), "allow", None, 7, "/home/dev").unwrap();
    assert_eq!(record.directory, "/home/dev/.railyard/traces");
    let entry = record.entry;
    assert!(entry.timestamp.ends_with("+00:00"));
    assert!(entry.timestamp.len() >= 25);
    assert_eq!(entry.session_id, "sess-1");
    assert_eq!(entry.event, "PreToolUse");
    assert_eq!(entry.tool, "Bash");
    assert_eq!(entry.input_summary, "npm test");
    assert_eq!(entry.decision, "allow");
    assert_eq!(entry.rule, None);
    assert_eq!(entry.duration_ms, 7);
    let blocked = log_decision(&input, &p, "Bash", &bash_input("rm -rf /"), "block", Some("rm-rf"), 3, "/root/")
        .unwrap();
    assert_eq!(blocked.directory, "/root/.railyard/traces");
    assert_eq!(blocked.entry.rule.as_deref(), Some("rm-rf"));
    assert!(log_decision(&input, &policy(false, false), "Bash", &bash_input("x"), "allow", None, 0, "/h")
        .is_none());
}

#[test]
fn completed_call_trace_entry() {
    let input = event("Bash", bash_input("cargo build --release"));
    let record = post_tool::handle(&input, &policy(true, false), 2, "/home/dev").unwrap();
    assert_eq!(record.directory, "/home/dev/.railyard/traces");
    let entry = record.entry;
    assert!(entry.timestamp.ends_with("+00:00"));
    assert_eq!(entry.event, "PostToolUse");
    assert_eq!(entry.tool, "Bash");
    assert_eq!(entry.input_summary, "cargo build --release");
    assert_eq!(entry.decision, "completed");
    assert_eq!(entry.rule, None);
    assert_eq!(entry.duration_ms, 2);
    assert!(post_tool::handle(&input, &policy(false, false), 2, "/home/dev").is_none());

    let unnamed = HookInput {
        session_id: "s".to_string(),
        cwd: "/".to_string(),
        tool_name: None,
        tool_input: None,
        tool_use_id: None,
    };
    let entry = post_tool::handle(&unnamed, &policy(true, false), 0, "/home/dev").unwrap().entry;
    assert_eq!(entry.tool, "unknown");
    assert_eq!(entry.input_summary, "null");
}

#[test]
fn both_hooks_trace_to_the_global_directory() {
    let input = event("Write", file_input("a.txt"));
    let p = policy(true, false);
    let pre = log_decision(&input, &p, "Write", &file_input("a.txt"), "allow", None, 0, "/home/dev").unwrap();
    let post = post_tool::handle(&input, &p, 0, "/home/dev").unwrap();
    assert_eq!(pre.directory, post.directory);
    assert!(!pre.directory.starts_with(&input.cwd));
    assert_eq!(railroad::trace_dir::global_trace_dir(""), ".railyard/traces");
}

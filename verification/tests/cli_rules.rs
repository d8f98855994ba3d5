use railroad::history::{on_off, recent_entries};
use railroad::locks::{age_label, group_by_session, heartbeat_age_label, short_session_id};
use railroad::rollback::{needs_known_sessions, plan_rollback, RollbackPlan, RollbackRequest};

fn req(id: Option<&str>, session: Option<&str>, file: Option<&str>, steps: Option<usize>) -> RollbackRequest {
    RollbackRequest {
        id: id.map(|s| s.to_string()),
        session: session.map(|s| s.to_string()),
        file: file.map(|s| s.to_string()),
        steps,
    }
}

#[test]
fn rollback_without_options_lists_latest_session() {
    let known = vec!["old".to_string(), "latest".to_string()];
    assert!(needs_known_sessions(&req(None, None, None, None)));
    assert!(!needs_known_sessions(&req(None, Some("s"), None, None)));
    match plan_rollback(&req(None, None, None, None), &known) {
        RollbackPlan::ListSnapshots { session } => assert_eq!(session, "latest"),
        _ => panic!("expected a listing"),
    }
    assert!(matches!(plan_rollback(&req(None, None, None, None), &vec![]), RollbackPlan::NoSessionToList));
}

#[test]
fn rollback_of_a_named_session_alone_restores_it_entirely() {
    match plan_rollback(&req(None, Some("mine"), None, None), &vec!["other".to_string()]) {
        RollbackPlan::RestoreSession { session } => assert_eq!(session, "mine"),
        _ => panic!("expected a whole-session restore"),
    }
    assert!(matches!(plan_rollback(&req(None, Some(""), None, None), &vec![]), RollbackPlan::MissingSession));
}

#[test]
fn rollback_needs_session_and_prefers_steps_then_id_then_file() {
    assert!(matches!(
        plan_rollback(&req(Some("snap"), None, None, None), &vec!["x".to_string()]),
        RollbackPlan::MissingSession
    ));
    match plan_rollback(&req(Some("snap"), Some("s"), Some("f.rs"), Some(3)), &vec![]) {
        RollbackPlan::UndoSteps { session, steps } => {
            assert_eq!(session, "s");
            assert_eq!(steps, 3);
        }
        _ => panic!("steps come first"),
    }
    match plan_rollback(&req(Some("snap"), Some("s"), Some("f.rs"), None), &vec![]) {
        RollbackPlan::RestoreSnapshot { session, id } => {
            assert_eq!(session, "s");
            assert_eq!(id, "snap");
        }
        _ => panic!("id comes second"),
    }
    match plan_rollback(&req(None, Some("s"), Some("f.rs"), None), &vec![]) {
        RollbackPlan::RestoreFile { session, file } => {
            assert_eq!(session, "s");
            assert_eq!(file, "f.rs");
        }
        _ => panic!("file comes third"),
    }
}

#[test]
fn log_shows_last_entries_in_order() {
    let entries = vec![1, 2, 3, 4, 5];
    assert_eq!(recent_entries(entries.clone(), 2), vec![4, 5]);
    assert_eq!(recent_entries(entries.clone(), 20), vec![1, 2, 3, 4, 5]);
    assert_eq!(recent_entries(entries, 0), Vec::<i32>::new());
}

#[test]
fn status_labels() {
    assert_eq!(on_off(true), "on");
    assert_eq!(on_off(false), "off");
}

#[test]
fn locks_are_grouped_by_session() {
    let sessions: Vec<String> = ["b", "a", "b", "c", "a"].iter().map(|s| s.to_string()).collect();
    let groups = group_by_session(&sessions);
    let shape: Vec<(String, Vec<usize>)> =
        groups.into_iter().map(|g| (g.session, g.members)).collect();
    assert_eq!(
        shape,
        vec![
            ("b".to_string(), vec![0, 2]),
            ("a".to_string(), vec![1, 4]),
            ("c".to_string(), vec![3]),
        ]
    );
    assert!(group_by_session(&vec![]).is_empty());
}

#[test]
fn session_ids_are_shortened_to_eight_bytes() {
    assert_eq!(short_session_id("0123456789abcdef"), "01234567");
    assert_eq!(short_session_id("abc"), "abc");
    assert_eq!(short_session_id("12345678"), "12345678");
}

#[test]
fn lock_age_labels() {
    assert_eq!(age_label(Some(42)), "42s ago");
    assert_eq!(age_label(Some(0)), "0s ago");
    assert_eq!(age_label(Some(-5)), "0s ago");
    assert_eq!(age_label(Some(1234567)), "1234567s ago");
    assert_eq!(age_label(None), "?");
}

#[test]
fn heartbeat_ages_are_read_through_the_clock() {
    assert_eq!(heartbeat_age_label("not a time"), "?");
    let label = heartbeat_age_label("2020-01-01T00:00:00+00:00");
    let secs: i64 = label.strip_suffix("s ago").expect("a parsed heartbeat shows seconds").parse().unwrap();
    assert!(secs > 100_000_000);
    let future = heartbeat_age_label("2999-01-01T00:00:00Z");
    assert_eq!(future, "0s ago");
}

use commit_tool::storage::{
    get_branch_config, has_pending_failure, load_branch_config, load_commit_template,
    save_branch_config, setup_branch_env, BranchYamlConfig, SessionError, SessionStore,
    SessionUpdate, Stored, NOT_YET_COMMITTED,
};

fn message(m: &str) -> SessionUpdate {
    let mut u = SessionUpdate::new();
    u.commit_message = Some(m.to_string());
    u
}

fn exit_code(code: i32) -> SessionUpdate {
    let mut u = SessionUpdate::new();
    u.commit_exit_code = Some(code);
    u
}

#[test]
fn save_round_trips_and_merges() {
    let mut store = SessionStore::new();
    assert_eq!(store.save_at("b", message("m"), "2024-01-01 10:00:00"), Ok(()));
    let r = get_branch_config(&store, "b").unwrap();
    assert_eq!(r.commit_message, Some("m".to_string()));
    let mut u = SessionUpdate::new();
    u.pr_template = Some("t".to_string());
    assert_eq!(store.save_at("b", u, "2024-01-02 10:00:00"), Ok(()));
    let r = get_branch_config(&store, "b").unwrap();
    assert_eq!(r.commit_message, Some("m".to_string()));
    assert_eq!(r.pr_template, Some("t".to_string()));
    assert_eq!(r.created_at, "2024-01-01 10:00:00");
    assert_eq!(r.updated_at, Some("2024-01-02 10:00:00".to_string()));
    assert_eq!(r.branch_name, "b");
}

#[test]
fn first_save_creates_the_record() {
    let mut store = SessionStore::new();
    let mut u = SessionUpdate::new();
    u.issue_id = Some("42".to_string());
    u.issue_name = Some("name".to_string());
    u.issue_description = Some("text".to_string());
    u.assistant_suggestion = Some("hint".to_string());
    u.additional_message = Some(vec!["x".to_string(), "y".to_string()]);
    assert_eq!(store.save_at("42-name", u, "now"), Ok(()));
    let r = get_branch_config(&store, "42-name").unwrap();
    assert_eq!(r.branch_name, "42-name");
    assert_eq!(r.created_at, "now");
    assert_eq!(r.updated_at, Some("now".to_string()));
    assert_eq!(r.pr_template, None);
    assert_eq!(r.commit_message, None);
    assert_eq!(r.additional_message, Some(vec!["x".to_string(), "y".to_string()]));
    assert_eq!(r.last_commit_exit_code, Some(NOT_YET_COMMITTED));
    assert_eq!(r.last_commit_exit_code, Some(1));
    assert_eq!(r.issue_id, Some("42".to_string()));
    assert_eq!(r.issue_name, Some("name".to_string()));
    assert_eq!(r.issue_description, Some("text".to_string()));
    assert_eq!(r.assistant_suggestion, Some("hint".to_string()));
}

#[test]
fn supplied_fields_replace_stored_ones() {
    let mut store = SessionStore::new();
    let mut u = message("first");
    u.additional_message = Some(vec!["a".to_string()]);
    u.commit_exit_code = Some(3);
    store.save_at("b", u, "t0").unwrap();
    let mut u = message("second");
    u.additional_message = Some(vec![]);
    store.save_at("b", u, "t1").unwrap();
    let r = get_branch_config(&store, "b").unwrap();
    assert_eq!(r.commit_message, Some("second".to_string()));
    assert_eq!(r.additional_message, Some(vec![]));
    assert_eq!(r.last_commit_exit_code, Some(3));
}

#[test]
fn failure_is_pending_until_a_commit_succeeds() {
    let mut store = SessionStore::new();
    let mut u = message("m");
    u.additional_message = Some(vec!["more".to_string()]);
    u.commit_exit_code = Some(1);
    store.save_at("b", u, "t0").unwrap();
    assert!(has_pending_failure(&store, "b"));
    let plan = load_branch_config(&store, "b").unwrap().unwrap();
    assert_eq!(plan.commit_message, "m");
    assert_eq!(plan.additional_messages, vec!["more".to_string()]);
    assert_eq!(plan.pr_template, "");
    assert_eq!(plan.notice(), "\x1b[1;33mFound a failed commit:\n\nm\nmore\n");
    store.save_at("b", exit_code(0), "t1").unwrap();
    assert!(!has_pending_failure(&store, "b"));
    assert!(load_branch_config(&store, "b").unwrap().is_none());
}

#[test]
fn failure_without_other_fields_is_detected() {
    let mut store = SessionStore::new();
    store.save_at("b", exit_code(1), "t0").unwrap();
    assert!(has_pending_failure(&store, "b"));
    assert_eq!(load_branch_config(&store, "b").unwrap_err(), SessionError::Incomplete);
    store.save_at("b", message("m"), "t1").unwrap();
    assert_eq!(load_branch_config(&store, "b").unwrap_err(), SessionError::Incomplete);
    store.save_at("b", exit_code(0), "t2").unwrap();
    assert!(!has_pending_failure(&store, "b"));
    assert!(load_branch_config(&store, "b").unwrap().is_none());
}

#[test]
fn retry_carries_the_stored_template() {
    let mut store = SessionStore::new();
    let mut u = message("m");
    u.additional_message = Some(vec![]);
    u.pr_template = Some("tpl".to_string());
    u.commit_exit_code = Some(-7);
    store.save_at("b", u, "t0").unwrap();
    let plan = load_branch_config(&store, "b").unwrap().unwrap();
    assert_eq!(plan.pr_template, "tpl");
    assert_eq!(plan.notice(), "\x1b[1;33mFound a failed commit:\n\nm\n");
}

#[test]
fn branch_is_new_until_saved() {
    let mut store = SessionStore::new();
    assert!(setup_branch_env(&store, "b"));
    assert!(get_branch_config(&store, "b").is_none());
    store.save_at("b", SessionUpdate::new(), "t0").unwrap();
    assert!(!setup_branch_env(&store, "b"));
    assert!(setup_branch_env(&store, "other"));
    assert!(store.contains("b"));
}

#[test]
fn malformed_entry_is_fatal_where_a_record_is_needed() {
    let mut store = SessionStore::new();
    store.put("b", Stored::Malformed);
    assert!(!setup_branch_env(&store, "b"));
    assert!(get_branch_config(&store, "b").is_none());
    assert!(!has_pending_failure(&store, "b"));
    assert_eq!(load_branch_config(&store, "b").unwrap_err(), SessionError::Malformed);
    assert_eq!(store.save_at("b", message("m"), "t0"), Err(SessionError::Malformed));
    assert!(get_branch_config(&store, "b").is_none());
    assert_eq!(load_commit_template(&store, "b").unwrap_err(), SessionError::Malformed);
}

#[test]
fn missing_record_cannot_be_resumed() {
    let store = SessionStore::new();
    assert_eq!(load_branch_config(&store, "b").unwrap_err(), SessionError::NotFound);
}

#[test]
fn stored_template_is_shown() {
    let mut store = SessionStore::new();
    assert_eq!(load_commit_template(&store, "b").unwrap(), "No previous file found.");
    store.save_at("b", message("m"), "t0").unwrap();
    assert_eq!(load_commit_template(&store, "b").unwrap(), "No saved commit template found");
    let mut u = SessionUpdate::new();
    u.pr_template = Some("the template".to_string());
    store.save_at("b", u, "t1").unwrap();
    assert_eq!(load_commit_template(&store, "b").unwrap(), "the template");
}

#[test]
fn save_stamps_the_local_time() {
    let mut store = SessionStore::new();
    assert_eq!(save_branch_config(&mut store, "b", message("m")), Ok(()));
    let r = get_branch_config(&store, "b").unwrap();
    assert_eq!(r.created_at.len(), 19);
    assert_eq!(r.updated_at, Some(r.created_at.clone()));
    let bytes = r.created_at.as_bytes();
    assert_eq!(bytes[4], b'-');
    assert_eq!(bytes[7], b'-');
    assert_eq!(bytes[10], b' ');
    assert_eq!(bytes[13], b':');
    assert_eq!(bytes[16], b':');
}

#[test]
fn records_merge_and_copy() {
    let r = BranchYamlConfig::create("b", "t0", message("m"));
    let c = r.copy();
    assert_eq!(c.branch_name, "b");
    assert_eq!(c.commit_message, Some("m".to_string()));
    assert!(r.has_failed_commit());
    let m = r.merge("t1", exit_code(0));
    assert!(!m.has_failed_commit());
    assert_eq!(m.commit_message, Some("m".to_string()));
    assert_eq!(m.created_at, "t0");
    assert_eq!(m.updated_at, Some("t1".to_string()));
    assert!(m.retry().unwrap().is_none());
}

#[test]
fn loaded_record_replaces_what_was_held() {
    let mut store = SessionStore::new();
    store.put("b", Stored::Malformed);
    store.put("b", Stored::Record(BranchYamlConfig::create("b", "t0", message("m"))));
    assert_eq!(get_branch_config(&store, "b").unwrap().commit_message, Some("m".to_string()));
}

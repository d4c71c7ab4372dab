use commit_tool::branch_utils::{
    branch_name, branch_name_from, changed_file_names, check_existing_pr,
    get_branch_origin_parts, issue_id, issue_id_from, validate_branch,
};

#[test]
fn protected_branches_are_refused() {
    assert_eq!(validate_branch("main"), Err("Branch is main, refusing to continue.".to_string()));
    assert_eq!(
        validate_branch("production"),
        Err("Branch is production, refusing to continue.".to_string())
    );
    assert_eq!(validate_branch("main2"), Ok(()));
    assert_eq!(validate_branch("123-fix"), Ok(()));
    assert_eq!(validate_branch(""), Ok(()));
}

#[test]
fn issue_id_is_the_leading_word() {
    assert_eq!(issue_id("123-add-login"), "123");
    assert_eq!(issue_id("INF_42-something"), "INF_42");
    assert_eq!(issue_id("feature"), "feature");
    assert_eq!(issue_id("-leading-dash"), "");
    assert_eq!(issue_id(""), "");
    assert_eq!(issue_id("ab/cd-ef"), "ab");
    assert_eq!(issue_id("two\nlines"), "");
}

#[test]
fn issue_id_from_a_capture() {
    assert_eq!(issue_id_from(None), "");
    assert_eq!(issue_id_from(Some(None)), "");
    assert_eq!(issue_id_from(Some(Some("77".to_string()))), "77");
}

#[test]
fn branch_name_is_made_readable() {
    assert_eq!(branch_name("123-add-login-page"), "add login page");
    assert_eq!(branch_name("123"), "");
    assert_eq!(branch_name("123--double--dash-"), "double  dash");
    assert_eq!(branch_name("two\nlines"), "");
    assert_eq!(branch_name_from(None), "");
    assert_eq!(branch_name_from(Some(None)), "");
    assert_eq!(branch_name_from(Some(Some(" -a-b- ".to_string()))), "a b");
}

#[test]
fn branch_name_is_cut_before_byte_56() {
    let long = "a".repeat(80);
    assert_eq!(branch_name(&format!("1-{}", long)), "a".repeat(56));
    // a two-byte character that begins at byte 55 is kept whole
    let text = format!("{}é{}", "a".repeat(55), "b".repeat(10));
    assert_eq!(branch_name_from(Some(Some(text))), format!("{}é", "a".repeat(55)));
    // one that begins at byte 56 is dropped
    let text = format!("{}é{}", "a".repeat(56), "b".repeat(10));
    assert_eq!(branch_name_from(Some(Some(text))), "a".repeat(56));
    let text = "é".repeat(40);
    assert_eq!(branch_name_from(Some(Some(text))), "é".repeat(28));
}

#[test]
fn staged_names_are_trimmed_lines() {
    assert_eq!(changed_file_names(""), vec!["".to_string()]);
    assert_eq!(changed_file_names("a.rs\n"), vec!["a.rs".to_string(), "".to_string()]);
    assert_eq!(
        changed_file_names(" a.rs \r\nsrc/b c.rs\n\n"),
        vec!["a.rs".to_string(), "src/b c.rs".to_string(), "".to_string(), "".to_string()]
    );
}

#[test]
fn origin_parts_of_github_addresses() {
    let p = get_branch_origin_parts("git@github.com:owner/repo.git\n").unwrap();
    assert_eq!(p.path, Some("git@github.com:owner/repo.git".to_string()));
    assert_eq!(p.owner, Some("owner".to_string()));
    assert_eq!(p.repo, Some("repo".to_string()));
    assert_eq!(p.owner_and_path, Some("owner/repo".to_string()));
    let p = get_branch_origin_parts("  https://github.com/o/r/x.git ").unwrap();
    assert_eq!(p.path, Some("https://github.com/o/r/x.git".to_string()));
    assert_eq!(p.owner, Some("o".to_string()));
    assert_eq!(p.repo, Some("r".to_string()));
    assert_eq!(p.owner_and_path, Some("o/r/x".to_string()));
}

#[test]
fn origin_parts_of_other_addresses() {
    for url in [
        "https://gitlab.com/o/r.git",
        "https://github.com/o/r",
        "ssh://git@github.com:o/r.git",
        "",
    ] {
        let p = get_branch_origin_parts(url).unwrap();
        assert_eq!(p.path, None);
        assert_eq!(p.owner, None);
        assert_eq!(p.repo, None);
        assert_eq!(p.owner_and_path, None);
    }
    assert!(get_branch_origin_parts("git@github.com:norepo.git").is_none());
    assert!(get_branch_origin_parts("https://github.com/.git").is_none());
}

#[test]
fn pull_request_lookup() {
    assert_eq!(check_existing_pr(Some(0), "title: x", ""), Some(true));
    assert_eq!(check_existing_pr(Some(1), "title: x", ""), Some(false));
    assert_eq!(check_existing_pr(None, "", ""), Some(false));
    assert_eq!(check_existing_pr(Some(0), "no pull requests found for branch", ""), Some(false));
    assert_eq!(check_existing_pr(Some(0), "title", "boom"), None);
}

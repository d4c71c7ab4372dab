use commit_tool::commands::{
    changed_files_command, commit_command, create_pr_command, git_branch_command,
    origin_command, pr_view_command, push_command, push_message, remote_heads_command,
    top_level_command, upstream_push_command,
};
use commit_tool::search::{contains_text, find, has_prefix, has_suffix, rfind, split_text};
use commit_tool::text::{
    char_width, chars_of, count_before_byte, is_whitespace, same_text, string_of,
    string_of_first, string_of_range, trimmed,
};
use commit_tool::ticket::{
    create_git_branch, define_issue_management_tool, git_branch_from, slug_char,
    IssueManagementTool, ToolChoice,
};

#[test]
fn whitespace_is_the_unicode_property() {
    let mut c = 0u32;
    while c <= 0x10FFFF {
        if let Some(ch) = char::from_u32(c) {
            assert_eq!(is_whitespace(ch), ch.is_whitespace(), "U+{:04X}", c);
        }
        c += 1;
    }
}

#[test]
fn width_is_the_utf8_length() {
    let mut c = 0u32;
    while c <= 0x10FFFF {
        if let Some(ch) = char::from_u32(c) {
            assert_eq!(char_width(ch), ch.len_utf8(), "U+{:04X}", c);
        }
        c += 1;
    }
}

#[test]
fn trimming_matches_std() {
    for s in ["", " ", "a", "  a b \t\n", "\u{3000}x\u{a0}", "x  ", "  x", " \u{85} "] {
        assert_eq!(trimmed(s), s.trim());
    }
}

#[test]
fn chars_round_trip() {
    let s = "héllo, wörld ✓";
    let chars = chars_of(s);
    assert_eq!(chars.len(), 14);
    assert_eq!(string_of(&chars), s);
    assert_eq!(string_of_range(&chars, 1, 5), "éllo");
    assert_eq!(string_of_first(&chars, 3), "hél");
    assert_eq!(string_of_first(&chars, 30), s);
    assert!(same_text("abc", "abc"));
    assert!(!same_text("abc", "abd"));
}

#[test]
fn bytes_before_a_limit() {
    let chars = chars_of("aéb✓c");
    assert_eq!(count_before_byte(&chars, 0), 0);
    assert_eq!(count_before_byte(&chars, 1), 1);
    assert_eq!(count_before_byte(&chars, 2), 2);
    assert_eq!(count_before_byte(&chars, 3), 2);
    assert_eq!(count_before_byte(&chars, 4), 3);
    assert_eq!(count_before_byte(&chars, 5), 4);
    assert_eq!(count_before_byte(&chars, 7), 4);
    assert_eq!(count_before_byte(&chars, 8), 5);
    assert_eq!(count_before_byte(&chars, 100), 5);
    assert_eq!(count_before_byte(&chars_of(""), 5), 0);
}

#[test]
fn searching_matches_std() {
    let cases = [
        ("", ""), ("abc", ""), ("", "a"), ("abcabc", "bc"), ("abcabc", "cab"), ("aaa", "aa"),
        ("abc", "abcd"), ("has no upstream branch", "upstream"), ("xyz", "z"), ("xyz", "x"),
    ];
    for (s, p) in cases {
        assert_eq!(contains_text(s, p), s.contains(p), "{:?} {:?}", s, p);
        assert_eq!(has_prefix(s, p), s.starts_with(p), "{:?} {:?}", s, p);
        assert_eq!(has_suffix(s, p), s.ends_with(p), "{:?} {:?}", s, p);
        assert_eq!(find(&chars_of(s), &chars_of(p)), s.find(p), "{:?} {:?}", s, p);
        assert_eq!(rfind(&chars_of(s), &chars_of(p)), s.rfind(p), "{:?} {:?}", s, p);
    }
}

#[test]
fn splitting_matches_std() {
    for s in ["", "a", "a/b", "/a/", "//", "a/b/c/"] {
        let expected: Vec<String> = s.split('/').map(|p| p.to_string()).collect();
        assert_eq!(split_text(s, '/'), expected);
    }
}

#[test]
fn git_commands() {
    assert_eq!(top_level_command("."), "cd . && git rev-parse --show-toplevel");
    assert_eq!(git_branch_command("/r"), "cd /r && git rev-parse --abbrev-ref HEAD");
    assert_eq!(changed_files_command("/r"), "cd /r && git diff --cached --name-only");
    assert_eq!(origin_command("/r"), "cd /r && git remote get-url origin");
    assert_eq!(pr_view_command("/r"), "cd /r && gh pr view");
    assert_eq!(push_command("/r", false), "cd /r && git push");
    assert_eq!(push_command("/r", true), "cd /r && git push --no-verify");
    assert_eq!(remote_heads_command("/r", "b"), "cd /r && git ls-remote --heads origin b");
    assert_eq!(
        upstream_push_command("/r", "b", false),
        "cd /r && git push --set-upstream origin b"
    );
    assert_eq!(
        upstream_push_command("/r", "b", true),
        "cd /r && git push --set-upstream origin b --no-verify"
    );
}

#[test]
fn commit_command_lists_every_message() {
    assert_eq!(
        commit_command("/r", "feat: x [INF] #1", &vec![], false),
        "cd /r && git commit -m  \"feat: x [INF] #1\""
    );
    assert_eq!(
        commit_command("/r", "m", &vec!["one".to_string(), "two".to_string()], true),
        "cd /r && git commit -m  \"m\" --no-verify -m \"one\" -m \"two\""
    );
}

#[test]
fn push_announcement_names_the_hooks() {
    assert_eq!(push_message(true), "Pushing branch. Skipping pre-push hooks.");
    assert_eq!(
        push_message(false),
        "Pushing branch. This might take some time depending on the pre-push hooks."
    );
}

#[test]
fn create_pr_command_has_defaults() {
    assert_eq!(
        create_pr_command("/r", Some("title"), Some("body")),
        "cd /r && gh pr create -a @me --body \"body\" -t \"title\""
    );
    assert_eq!(
        create_pr_command("/r", None, None),
        "cd /r && gh pr create -a @me --body \"\" -t \"Default PR Title\""
    );
}

#[test]
fn tracker_choice() {
    let github = ToolChoice::Only(IssueManagementTool::GitHub);
    let clickup = ToolChoice::Only(IssueManagementTool::Clickup);
    assert_eq!(define_issue_management_tool(None, None), github);
    assert_eq!(define_issue_management_tool(Some(""), Some("")), github);
    assert_eq!(define_issue_management_tool(Some("t"), None), ToolChoice::Missing);
    assert_eq!(define_issue_management_tool(Some("t"), Some("")), ToolChoice::Missing);
    assert_eq!(define_issue_management_tool(Some("t"), Some("k")), clickup);
    assert_eq!(define_issue_management_tool(None, Some("k")), ToolChoice::Ask);
}

#[test]
fn branch_for_an_issue() {
    assert_eq!(create_git_branch("12", "Add Login Page!"), "12-add-login-page");
    assert_eq!(create_git_branch("12", ""), "12-");
    assert_eq!(create_git_branch("A", "Ünïcode  näme (v2)"), "A-ünïcode--näme-v2");
    let long = "x".repeat(70);
    assert_eq!(create_git_branch("7", &long), format!("7-{}", "x".repeat(50)));
    assert_eq!(git_branch_from("7", "a b\tc_d"), "7-a-b-cd");
}

#[test]
fn what_a_branch_name_keeps_of_a_character() {
    assert_eq!(slug_char(' ', false), Some('-'));
    assert_eq!(slug_char('\t', true), Some('-'));
    assert_eq!(slug_char('\u{a0}', false), Some('-'));
    assert_eq!(slug_char('a', true), Some('a'));
    assert_eq!(slug_char('7', true), Some('7'));
    assert_eq!(slug_char('-', false), Some('-'));
    assert_eq!(slug_char('-', true), Some('-'));
    assert_eq!(slug_char('!', false), None);
    assert_eq!(slug_char('_', false), None);
    assert_eq!(slug_char('a', false), None);
}

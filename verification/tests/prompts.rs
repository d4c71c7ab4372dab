use commit_tool::claude::{parse_claude_response, prompt_claude, prompt_claude_one_off};
use commit_tool::gh::{continue_without_gh, validate_gh, WithoutGh};
use commit_tool::path_utils::git_branch;
use commit_tool::prompts::{
    get_short_type, issue_id_prompt, pr_template_prompt, risk_factor, select_message_prompt,
    select_types_prompt, starting_cursor, template_request,
};
use commit_tool::search::{find_first, find_last, lines, range_without, without_text};
use commit_tool::text::{append_decimal, append_signed, chars_of};

#[test]
fn issue_id_may_not_be_empty() {
    assert_eq!(issue_id_prompt(""), Some("An id is required".to_string()));
    assert_eq!(issue_id_prompt("1"), None);
}

#[test]
fn message_is_limited_to_55_characters() {
    assert_eq!(select_message_prompt(""), None);
    assert_eq!(select_message_prompt(&"a".repeat(55)), None);
    assert_eq!(select_message_prompt(&"é".repeat(55)), None);
    assert_eq!(
        select_message_prompt(&"a".repeat(56)),
        Some("Commit message limit is 55 characters. You have 56.".to_string())
    );
    assert_eq!(
        select_message_prompt(&"é".repeat(120)),
        Some("Commit message limit is 55 characters. You have 120.".to_string())
    );
}

#[test]
fn change_types_are_offered() {
    let options = select_types_prompt();
    assert_eq!(options.len(), 8);
    assert_eq!(options[0], "feat: A new feature");
    assert_eq!(options[1], "fix: Bug (feature related) or code (linting, typecheck, etc) fixes");
    assert_eq!(options[7], "revert: Reverts a previous commit");
    let short: Vec<String> = options.iter().map(|o| get_short_type(o)).collect();
    assert_eq!(short, vec!["feat", "fix", "test", "refactor", "docs", "build", "ci", "revert"]);
    assert_eq!(get_short_type("no separator"), "no separator");
    assert_eq!(get_short_type("a: b: c"), "a");
    assert_eq!(get_short_type(": b"), "");
    assert_eq!(get_short_type(""), "");
}

#[test]
fn cursor_starts_at_the_proposed_type() {
    assert_eq!(starting_cursor(None), 0);
    assert_eq!(starting_cursor(Some("feat")), 0);
    assert_eq!(starting_cursor(Some("fix")), 1);
    assert_eq!(starting_cursor(Some("test")), 2);
    assert_eq!(starting_cursor(Some("refactor")), 3);
    assert_eq!(starting_cursor(Some("docs")), 4);
    assert_eq!(starting_cursor(Some("build")), 5);
    assert_eq!(starting_cursor(Some("ci")), 6);
    assert_eq!(starting_cursor(Some("revert")), 7);
    assert_eq!(starting_cursor(Some("re")), 3);
    assert_eq!(starting_cursor(Some("chore")), 0);
    assert_eq!(starting_cursor(Some("")), 0);
}

#[test]
fn risk_levels_have_labels() {
    assert_eq!(risk_factor("High"), Some("🚨HIGH🚨"));
    assert_eq!(risk_factor("Medium"), Some("⚠️MEDIUM⚠️"));
    assert_eq!(risk_factor("Low"), Some("👍LOW👍"));
    assert_eq!(risk_factor("Trivial"), Some("✅TRIVIAL✅"));
    assert_eq!(risk_factor("high"), None);
    assert_eq!(risk_factor(""), None);
}

const CHECK_LIST_REST: &str = "\n- [ ] 📋 I filled out the risk level, how to test, impact, what the PR does\n- [ ] 🏷️ I added the right labels. [api? BENApp? someOtherApp?]\n- [ ] 🥸 I assigned myself to the PR and others (as needed)\n- [ ] 🚀 I moved the PR into ready state - it's ready to be reviewed!\n- [ ] 🤖 I enabled auto merge";

#[test]
fn template_with_every_part() {
    let t = pr_template_prompt(Some("What it does"), Some("🚨HIGH🚨"), Some("Because of X"), Some("1. run"), "42");
    let expected = format!(
        "\nWhat it does\n\n# 🚦 This is a 🚨HIGH🚨 risk PR\n\nBecause of X\n\n## 🧪 How to manually test this PR\n1. run\n\n## Good PR check list\n- [x] ✍️ I wrote an easy-to-read, short description at the top, with a good title\n- [x] 🔗 I linked this PR to an issue (which is in progress): fixes #42{}",
        CHECK_LIST_REST
    );
    assert_eq!(t, expected);
}

#[test]
fn template_without_any_part() {
    let t = pr_template_prompt(None, None, None, None, "");
    let expected = format!(
        "...Because...\n\n## 🧪 How to manually test this PR1.\n\n## Good PR check list\n- [ ] ✍️ I wrote an easy-to-read, short description at the top, with a good title\n- [x] 🔗 I linked this PR to an issue (which is in progress): fixes #{}",
        CHECK_LIST_REST
    );
    assert_eq!(t, expected);
}

#[test]
fn template_request_names_the_assistant() {
    let r = template_request("helper", "/r");
    assert!(r.starts_with("cd /r && helper -p \"We have done several changes to this repository."));
    assert!(r.ends_with("\" --output-format json "));
}

#[test]
fn answer_is_framed_by_fences() {
    assert_eq!(
        parse_claude_response("Here:\n```json\n{\n \"a\": 1\n}\n```\nDone"),
        Some("{ \"a\": 1}".to_string())
    );
    assert_eq!(parse_claude_response("```json\n```"), Some("".to_string()));
    assert_eq!(parse_claude_response("```json\n{}``` and ```json\n[]```"), Some("{}``` and ```json[]".to_string()));
    assert_eq!(parse_claude_response("```json\n{}"), None);
    assert_eq!(parse_claude_response("no fence"), None);
    assert_eq!(parse_claude_response("```\n{}\n```"), None);
    assert_eq!(parse_claude_response(""), None);
}

#[test]
fn assistant_commands() {
    assert_eq!(
        prompt_claude_one_off("helper", "/r", "/tmp/p.txt", "\"question\"", None),
        "cd /r &&  cat /tmp/p.txt | helper --model sonnet --output-format json  -p \"question\""
    );
    assert_eq!(
        prompt_claude_one_off("helper", "/r", "/tmp/p.txt", "q", Some("mcp.json")),
        "cd /r &&  cat /tmp/p.txt | helper --model sonnet --output-format json --mcp-config=mcp.json -p q"
    );
    assert_eq!(prompt_claude(None), "");
    assert_eq!(prompt_claude(Some("mcp.json")), "--mcp-config=mcp.json");
}

#[test]
fn gh_sign_in_is_read_from_the_status() {
    assert!(validate_gh("github.com\n  ✓ Logged in to github.com account me (keyring)\n"));
    assert!(!validate_gh("You are not logged into any GitHub hosts."));
    assert!(!validate_gh(""));
    assert_eq!(continue_without_gh(Some(true)), WithoutGh::Continue);
    assert_eq!(continue_without_gh(Some(false)), WithoutGh::Exit(0));
    assert_eq!(continue_without_gh(None), WithoutGh::Exit(1));
}

#[test]
fn current_branch_is_trimmed() {
    assert_eq!(git_branch("12-add-login\n"), "12-add-login");
    assert_eq!(git_branch("  main \r\n"), "main");
    assert_eq!(git_branch(""), "");
}

#[test]
fn lines_match_std() {
    for s in ["", "a", "a\n", "a\r\n", "a\r", "a\n\nb", "\n", "\r\n\r\n", "a\r\nb\rc\n\rd\r", "x\n\r"] {
        let expected: Vec<String> = s.lines().map(|l| l.to_string()).collect();
        assert_eq!(lines(s), expected, "{:?}", s);
    }
}

#[test]
fn removal_matches_std() {
    let cases = [
        ("repo.git", ".git"), ("a.git.git", ".git"), ("..gitt", ".git"), ("", ".git"), ("abc", ""),
        ("aaaa", "aa"), ("aaa", "aa"), ("xabxabx", "ab"), (".git", ".git"), ("ababab", "aba"),
    ];
    for (s, p) in cases {
        assert_eq!(without_text(&chars_of(s), &chars_of(p)), s.replace(p, ""), "{:?} {:?}", s, p);
    }
}

#[test]
fn first_and_last_index() {
    let s = chars_of("ab--cd--ef");
    let p = chars_of("--");
    assert_eq!(find_first(&s, &p), Some(2));
    assert_eq!(find_last(&s, &p), Some(6));
    assert_eq!(find_first(&s, &chars_of("x")), None);
    assert_eq!(find_last(&s, &chars_of("x")), None);
    assert_eq!(range_without(&s, 1, 9, '-'), "bcde");
    assert_eq!(range_without(&s, 3, 3, '-'), "");
}

#[test]
fn numbers_in_decimal() {
    for n in [0u64, 7, 10, 42, 100, 9999, u64::MAX] {
        let mut out = String::from("n=");
        append_decimal(&mut out, n);
        assert_eq!(out, format!("n={}", n));
    }
    for n in [0i64, -1, 5, -120, i64::MAX, i64::MIN] {
        let mut out = String::new();
        append_signed(&mut out, n);
        assert_eq!(out, n.to_string());
    }
}

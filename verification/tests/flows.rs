use commit_tool::branch_utils::{
    branch_on_remote, commit_pr, failed, has_no_upstream, push_pr, PushAction, PushEvent,
    PushMode, PushNote, PushState, PushStep,
};
use commit_tool::commit::{
    additional_lines, can_build_default_message, commit, commit_header, commit_message,
    drafted_message, manual_display, manual_message, message_name, message_request,
    proposal_notice, template_question, CommitAction as Action, CommitFacts, CommitMove,
    CommitSignal as Signal, CommitStage as Stage,
};
use commit_tool::classifier::Tag;
use commit_tool::storage::{get_branch_config, load_branch_config, SessionError, SessionStore, Stored};
use commit_tool::ux_utils::{
    commit_and_push, CommitAction, CommitEvent, CommitNote, CommitState, CommitStep,
};

fn ran(code: Option<i32>, stdout: &str, stderr: &str) -> PushEvent {
    PushEvent::Ran { code, stdout: stdout.to_string(), stderr: stderr.to_string() }
}

const NO_UPSTREAM: &str = "fatal: The current branch b has no upstream branch.\nTo push the current branch and set the remote as upstream, use\n";

#[test]
fn command_failure() {
    assert!(failed(None));
    assert!(failed(Some(1)));
    assert!(failed(Some(-1)));
    assert!(!failed(Some(0)));
}

#[test]
fn upstream_detection() {
    assert!(has_no_upstream(NO_UPSTREAM));
    assert!(!has_no_upstream("has no upstream branch"));
    assert!(!has_no_upstream("set the remote as upstream"));
    assert!(branch_on_remote(Some(0), "abc\trefs/heads/b\n", "b"));
    assert!(!branch_on_remote(Some(0), "", "b"));
    assert!(!branch_on_remote(Some(2), "refs/heads/b", "b"));
    assert!(!branch_on_remote(None, "refs/heads/b", "b"));
}

#[test]
fn push_without_gh_ends_with_the_exit_code() {
    let mode = PushMode { ci_mode: false, has_gh: false };
    let s = push_pr(mode, "b", PushState::Start, &PushEvent::Begin);
    assert_eq!(s, PushStep { state: PushState::Pushing, note: PushNote::Nothing, action: PushAction::Push });
    let s = push_pr(mode, "b", s.state, &ran(Some(0), "ok", ""));
    assert_eq!(s, PushStep { state: PushState::Done, note: PushNote::Output, action: PushAction::Finish(Some(0)) });
    let s = push_pr(mode, "b", PushState::Pushing, &ran(Some(128), "", "rejected"));
    assert_eq!(s, PushStep { state: PushState::Done, note: PushNote::Failure, action: PushAction::Finish(Some(128)) });
}

#[test]
fn push_without_upstream_asks_and_sets_it() {
    let mode = PushMode { ci_mode: false, has_gh: false };
    let s = push_pr(mode, "b", PushState::Pushing, &ran(Some(128), "", NO_UPSTREAM));
    assert_eq!(s.state, PushState::AskingUpstream { code: Some(128) });
    assert_eq!(s.note, PushNote::NoUpstream);
    assert_eq!(s.action, PushAction::AskUpstream);
    let s = push_pr(mode, "b", s.state, &PushEvent::Answered(Some(true)));
    assert_eq!(s, PushStep { state: PushState::CheckingRemote, note: PushNote::Nothing, action: PushAction::ListRemoteHeads });
    let missing = push_pr(mode, "b", s.state, &ran(Some(0), "", ""));
    assert_eq!(missing, PushStep { state: PushState::PushingUpstream, note: PushNote::SettingUpstream, action: PushAction::PushUpstream });
    let there = push_pr(mode, "b", s.state, &ran(Some(0), "1234 refs/heads/b", ""));
    assert_eq!(there, PushStep { state: PushState::PushingAgain, note: PushNote::BranchOnRemote, action: PushAction::Push });
    let s = push_pr(mode, "b", missing.state, &ran(Some(0), "", ""));
    assert_eq!(s.action, PushAction::Finish(Some(0)));
    let s = push_pr(mode, "b", there.state, &ran(None, "", ""));
    assert_eq!(s.action, PushAction::Finish(None));
    assert_eq!(s.state, PushState::Done);
}

#[test]
fn push_without_upstream_in_ci_mode_asks_nothing() {
    let mode = PushMode { ci_mode: true, has_gh: true };
    let s = push_pr(mode, "b", PushState::Pushing, &ran(Some(128), "", NO_UPSTREAM));
    assert_eq!(s, PushStep { state: PushState::CheckingRemote, note: PushNote::NoUpstream, action: PushAction::ListRemoteHeads });
}

#[test]
fn declined_upstream_goes_on_to_the_pull_request() {
    let mode = PushMode { ci_mode: false, has_gh: true };
    let asking = PushState::AskingUpstream { code: Some(128) };
    let s = push_pr(mode, "b", asking, &PushEvent::Answered(Some(false)));
    assert_eq!(s, PushStep { state: PushState::LookingForPr { code: Some(128) }, note: PushNote::Cancelled, action: PushAction::LookForPr });
    let s = push_pr(mode, "b", asking, &PushEvent::Answered(None));
    assert_eq!(s.note, PushNote::NoAnswer);
    assert_eq!(s.action, PushAction::LookForPr);
    let without = PushMode { ci_mode: false, has_gh: false };
    let s = push_pr(without, "b", asking, &PushEvent::Answered(Some(false)));
    assert_eq!(s.action, PushAction::Finish(Some(128)));
}

#[test]
fn pull_request_is_looked_for_and_created() {
    let mode = PushMode { ci_mode: false, has_gh: true };
    let s = push_pr(mode, "b", PushState::Pushing, &ran(Some(0), "", ""));
    assert_eq!(s, PushStep { state: PushState::LookingForPr { code: Some(0) }, note: PushNote::Output, action: PushAction::LookForPr });
    let exists = push_pr(mode, "b", s.state, &ran(Some(0), "title: x", ""));
    assert_eq!(exists, PushStep { state: PushState::Done, note: PushNote::PrExists, action: PushAction::Finish(Some(0)) });
    let broken = push_pr(mode, "b", s.state, &ran(Some(1), "", "boom"));
    assert_eq!(broken, PushStep { state: PushState::Done, note: PushNote::SearchFailed, action: PushAction::Abort });
    let none = push_pr(mode, "b", s.state, &ran(Some(1), "no pull requests found", ""));
    assert_eq!(none, PushStep { state: PushState::AskingForPr { code: Some(0) }, note: PushNote::Nothing, action: PushAction::AskForPr });
    let not_run = push_pr(mode, "b", s.state, &PushEvent::NotRun);
    assert_eq!(not_run, none);
    let create = push_pr(mode, "b", none.state, &PushEvent::Answered(Some(true)));
    assert_eq!(create, PushStep { state: PushState::CreatingPr { code: Some(0) }, note: PushNote::Nothing, action: PushAction::CreatePr });
    let done = push_pr(mode, "b", create.state, &ran(Some(7), "", ""));
    assert_eq!(done, PushStep { state: PushState::Done, note: PushNote::Output, action: PushAction::Finish(Some(0)) });
    for answer in [Some(false), None] {
        let s = push_pr(mode, "b", none.state, &PushEvent::Answered(answer));
        assert_eq!(s, PushStep { state: PushState::Done, note: PushNote::Nothing, action: PushAction::Finish(Some(0)) });
    }
}

#[test]
fn push_refuses_what_does_not_belong() {
    let mode = PushMode { ci_mode: false, has_gh: true };
    for state in [PushState::Start, PushState::Done, PushState::CheckingRemote, PushState::AskingForPr { code: None }] {
        let event = if state == PushState::Start { PushEvent::NotRun } else { PushEvent::Begin };
        let s = push_pr(mode, "b", state, &event);
        assert_eq!(s, PushStep { state, note: PushNote::Nothing, action: PushAction::Refuse });
    }
}

#[test]
fn push_notes_have_their_lines() {
    assert_eq!(PushNote::Nothing.text(), "");
    assert_eq!(PushNote::Output.text(), "");
    assert_eq!(PushNote::Failure.text(), "");
    assert_eq!(PushNote::NoUpstream.text(), "\nThe current branch has no upstream branch.");
    assert_eq!(PushNote::SettingUpstream.text(), "Setting upstream and pushing...");
    assert_eq!(PushNote::BranchOnRemote.text(), "Branch exists on remote, pushing...");
    assert_eq!(PushNote::Cancelled.text(), "Push cancelled by user.");
    assert_eq!(PushNote::NoAnswer.text(), "Failed to get user input. Push cancelled.");
    assert_eq!(PushNote::PrExists.text(), "The PR for this branch already exists");
    assert_eq!(PushNote::SearchFailed.text(), "There was an error searching for the existing PR.");
}

#[test]
fn commit_outcome_is_recorded() {
    let mut store = SessionStore::new();
    let r = commit_pr(&mut store, "feat: x", vec!["more".to_string()], "b", Some("tpl".to_string()), Some(1));
    assert_eq!(r, Ok(Some(1)));
    let record = get_branch_config(&store, "b").unwrap();
    assert_eq!(record.commit_message, Some("feat: x".to_string()));
    assert_eq!(record.additional_message, Some(vec!["more".to_string()]));
    assert_eq!(record.pr_template, Some("tpl".to_string()));
    assert_eq!(record.last_commit_exit_code, Some(1));
    assert!(load_branch_config(&store, "b").unwrap().is_some());
    let r = commit_pr(&mut store, "feat: y", vec![], "b", None, Some(0));
    assert_eq!(r, Ok(Some(0)));
    let record = get_branch_config(&store, "b").unwrap();
    assert_eq!(record.commit_message, Some("feat: y".to_string()));
    assert_eq!(record.pr_template, Some("tpl".to_string()));
    assert_eq!(record.last_commit_exit_code, Some(0));
    assert!(load_branch_config(&store, "b").unwrap().is_none());
    let r = commit_pr(&mut store, "feat: z", vec![], "b", None, None);
    assert_eq!(r, Ok(None));
    assert_eq!(get_branch_config(&store, "b").unwrap().last_commit_exit_code, Some(0));
    let mut broken = SessionStore::new();
    broken.put("b", Stored::Malformed);
    assert_eq!(commit_pr(&mut broken, "m", vec![], "b", None, Some(0)), Err(SessionError::Malformed));
}

#[test]
fn failed_commit_is_never_pushed() {
    for ci_mode in [false, true] {
        for has_template in [false, true] {
            for code in [None, Some(1), Some(-3)] {
                let s = commit_and_push(ci_mode, has_template, CommitState::Committing, CommitEvent::Committed(code));
                assert_eq!(s, CommitStep { state: CommitState::Done, note: CommitNote::CommitFailed, action: CommitAction::Abort });
            }
            let s = commit_and_push(ci_mode, has_template, CommitState::Committing, CommitEvent::NotRun);
            assert_eq!(s.action, CommitAction::Abort);
        }
    }
}

#[test]
fn commit_then_push_sequence() {
    let s = commit_and_push(false, true, CommitState::Start, CommitEvent::Begin);
    assert_eq!(s, CommitStep { state: CommitState::Committing, note: CommitNote::Running, action: CommitAction::Commit });
    let s = commit_and_push(false, true, s.state, CommitEvent::Committed(Some(0)));
    assert_eq!(s, CommitStep { state: CommitState::AskingPush, note: CommitNote::TemplateAvailable, action: CommitAction::AskPush });
    let yes = commit_and_push(false, true, s.state, CommitEvent::Answered(Some(true)));
    assert_eq!(yes, CommitStep { state: CommitState::Pushing, note: CommitNote::Nothing, action: CommitAction::Push });
    let no = commit_and_push(false, true, s.state, CommitEvent::Answered(Some(false)));
    assert_eq!(no, CommitStep { state: CommitState::Done, note: CommitNote::Nothing, action: CommitAction::Finish });
    let lost = commit_and_push(false, true, s.state, CommitEvent::Answered(None));
    assert_eq!(lost.action, CommitAction::Abort);
    let done = commit_and_push(false, true, yes.state, CommitEvent::Pushed(Some(3)));
    assert_eq!(done, CommitStep { state: CommitState::Done, note: CommitNote::Nothing, action: CommitAction::Finish });
    let killed = commit_and_push(false, true, yes.state, CommitEvent::Pushed(None));
    assert_eq!(killed.action, CommitAction::Abort);
    let ci = commit_and_push(true, false, CommitState::Committing, CommitEvent::Committed(Some(0)));
    assert_eq!(ci, CommitStep { state: CommitState::Pushing, note: CommitNote::Nothing, action: CommitAction::Push });
    let odd = commit_and_push(true, false, CommitState::Done, CommitEvent::Begin);
    assert_eq!(odd, CommitStep { state: CommitState::Done, note: CommitNote::Nothing, action: CommitAction::Refuse });
}

#[test]
fn commit_notes_have_their_lines() {
    assert_eq!(CommitNote::Nothing.text(), "");
    assert_eq!(CommitNote::Running.text(), "Running git commit. This might take some time depending on the pre-commit hooks.");
    assert_eq!(CommitNote::CommitFailed.text(), "\n\x1b[1;31mCommit failed. Please fix the issue before commiting.\x1b[1;0m\n\n");
    assert_eq!(CommitNote::TemplateAvailable.text(), "\x1b[1;32mThere is a PR template available.\x1b[1;0m Use `commit --show-pr-template` to display it.");
}

#[test]
fn conventional_messages() {
    assert_eq!(commit_message("feat", "add login", "INF", "123"), "feat: add login [INF] #123");
    assert_eq!(drafted_message("FEAT", "Add Login", "INF", "123"), "feat: add login [INF] #123");
    let long = "X".repeat(60);
    assert_eq!(drafted_message("Fix", &long, "T", "1"), format!("fix: {} [T] #1", "x".repeat(50)));
    assert_eq!(message_name(Some("Fix The BUG"), "1-other"), "fix the bug");
    assert_eq!(message_name(None, "12-Add-Login-Page"), "add login page");
    let branch = format!("12-{}", "A".repeat(70));
    assert_eq!(message_name(None, &branch), "a".repeat(55));
    assert_eq!(message_name(None, "12"), "");
}

#[test]
fn header_shows_what_was_found() {
    assert_eq!(
        commit_header("/r", "12-x", "INF", "12", "x"),
        "\n\x1b[1;1mCommit utility\x1b[0m\n- Working in directory \x1b[1;1m/r\x1b[0m\n- Git branch is \x1b[1;1m12-x\x1b[0m\n- Team prefix is \x1b[1;1mINF\x1b[0m\n- Issue id is \x1b[1;1m12\x1b[0m\n- Message name is \x1b[1;1mx\x1b[0m\n"
    );
    assert_eq!(
        commit_header("/r", "-", "INF", "", ""),
        "\n\x1b[1;1mCommit utility\x1b[0m\n- Working in directory \x1b[1;1m/r\x1b[0m\n- Git branch is \x1b[1;1m-\x1b[0m\n- Team prefix is \x1b[1;1mINF\x1b[0m\n\x1b[1;31m- No issue id found\x1b[0m\n\x1b[1;31m- No message name found\x1b[0m\n"
    );
    assert!(can_build_default_message("12", "x", Some(Tag::Feat)));
    assert!(!can_build_default_message("", "x", Some(Tag::Feat)));
    assert!(!can_build_default_message("12", "", Some(Tag::Feat)));
    assert!(!can_build_default_message("12", "x", None));
}

#[test]
fn proposal_and_manual_texts() {
    assert_eq!(
        proposal_notice("feat: x [INF] #1"),
        "We have enough information to propose the following commit message:\n\n\x1b[1;32mfeat: x [INF] #1\x1b[1;0m\n"
    );
    assert_eq!(manual_message("fix", "The Bug", "INF", "7", None, None), "fix: the bug [INF] #7");
    assert_eq!(
        manual_message("fix", "The Bug", "INF", "7", Some("api"), Some("Given")),
        "fix: the bug [INF] #7(api)Given"
    );
    assert_eq!(additional_lines(None), Vec::<String>::new());
    assert_eq!(additional_lines(Some("")), vec!["".to_string()]);
    assert_eq!(additional_lines(Some("a\nb\n")), vec!["a".to_string(), "b".to_string(), "".to_string()]);
    assert_eq!(manual_display("m", &vec![]), "m");
    assert_eq!(
        manual_display("m", &vec!["a".to_string(), "b".to_string()]),
        "m\x1b[1;32m\n\na\nb\x1b[1;0m"
    );
    assert_eq!(template_question(false), "Do you want to build a PR template?");
    assert_eq!(
        template_question(true),
        "Do you want to build a PR template? We will use the assistant to build it"
    );
    let request = message_request("helper", "/r");
    assert!(request.starts_with("cd /r && helper --model sonnet --output-format json  -p \"We have done several changes"));
    assert!(request.ends_with("Do not include un staged files in the analysis.\n                \""));
}

fn facts() -> CommitFacts {
    CommitFacts {
        use_claude: false,
        ci_mode: false,
        show_pr_template: false,
        has_message: false,
        has_template: false,
        is_new_branch: true,
    }
}

fn step(facts: CommitFacts, stage: Stage, event: Signal) -> (Stage, Action) {
    let CommitMove { stage, action } = commit(facts, stage, event);
    (stage, action)
}

#[test]
fn commit_starts_by_what_is_asked() {
    let f = facts();
    assert_eq!(step(CommitFacts { show_pr_template: true, use_claude: true, ..f }, Stage::Start, Signal::Begin), (Stage::Done, Action::ShowTemplate));
    assert_eq!(step(CommitFacts { use_claude: true, ..f }, Stage::Start, Signal::Begin), (Stage::Drafting, Action::AskAssistant));
    assert_eq!(step(CommitFacts { use_claude: true, has_message: true, ..f }, Stage::Start, Signal::Begin), (Stage::ListingFiles, Action::ListFiles));
    assert_eq!(step(CommitFacts { is_new_branch: false, ..f }, Stage::Start, Signal::Begin), (Stage::Resuming, Action::LoadSession));
    assert_eq!(step(f, Stage::Start, Signal::Begin), (Stage::ListingFiles, Action::ListFiles));
    assert_eq!(step(f, Stage::Start, Signal::Failed), (Stage::Start, Action::Refuse));
}

#[test]
fn failed_commit_is_offered_before_classification() {
    let f = CommitFacts { is_new_branch: false, ..facts() };
    assert_eq!(step(f, Stage::Resuming, Signal::Loaded { pending: true }), (Stage::ConfirmingRetry, Action::AskRetry));
    assert_eq!(step(f, Stage::Resuming, Signal::Loaded { pending: false }), (Stage::ListingFiles, Action::ListFiles));
    assert_eq!(step(f, Stage::ConfirmingRetry, Signal::Answered(Some(true))), (Stage::Done, Action::Retry));
    assert_eq!(step(f, Stage::ConfirmingRetry, Signal::Answered(Some(false))), (Stage::ListingFiles, Action::ListFiles));
    assert_eq!(step(f, Stage::ConfirmingRetry, Signal::Answered(None)), (Stage::Done, Action::Abort));
}

#[test]
fn nothing_staged_needs_confirmation() {
    let f = facts();
    assert_eq!(
        step(f, Stage::ListingFiles, Signal::Staged { nothing_staged: true, can_build: false }),
        (Stage::ConfirmingEmpty { can_build: false }, Action::AskEmpty)
    );
    let asking = Stage::ConfirmingEmpty { can_build: true };
    assert_eq!(step(f, asking, Signal::Answered(Some(false))), (Stage::Done, Action::Finish));
    assert_eq!(step(f, asking, Signal::Answered(Some(true))), (Stage::Heading { can_build: true }, Action::ShowHeader));
    assert_eq!(step(f, asking, Signal::Answered(None)), (Stage::Heading { can_build: true }, Action::ShowHeader));
    assert_eq!(
        step(f, Stage::ListingFiles, Signal::Staged { nothing_staged: false, can_build: true }),
        (Stage::Heading { can_build: true }, Action::ShowHeader)
    );
}

#[test]
fn proposal_is_offered_or_parts_are_entered() {
    let f = facts();
    let ci = CommitFacts { ci_mode: true, ..f };
    assert_eq!(step(f, Stage::Heading { can_build: true }, Signal::Shown), (Stage::ConfirmingProposal, Action::AskProposal));
    assert_eq!(step(ci, Stage::Heading { can_build: true }, Signal::Shown), (Stage::ConfirmingProposal, Action::AcceptProposal));
    assert_eq!(step(f, Stage::Heading { can_build: false }, Signal::Shown), (Stage::AskingIssueId, Action::AskIssueId));
    assert_eq!(step(ci, Stage::Heading { can_build: false }, Signal::Shown), (Stage::AskingIssueId, Action::AskIssueId));
    assert_eq!(step(f, Stage::ConfirmingProposal, Signal::Answered(Some(false))), (Stage::AskingIssueId, Action::AskIssueId));
    assert_eq!(step(f, Stage::ConfirmingProposal, Signal::Answered(None)), (Stage::Done, Action::Abort));
    assert_eq!(step(f, Stage::ConfirmingProposal, Signal::Answered(Some(true))), (Stage::ConfirmingTemplate, Action::AskTemplate { default: true }));
    assert_eq!(step(ci, Stage::ConfirmingProposal, Signal::Answered(Some(true))), (Stage::BuildingTemplate, Action::BuildTemplate));
    assert_eq!(step(f, Stage::AskingIssueId, Signal::Entered), (Stage::AskingTeamPrefix, Action::AskTeamPrefix));
    assert_eq!(step(f, Stage::AskingTeamPrefix, Signal::Entered), (Stage::AskingType, Action::AskType));
    assert_eq!(step(f, Stage::AskingType, Signal::Entered), (Stage::AskingMessage, Action::AskMessage));
    assert_eq!(step(f, Stage::AskingMessage, Signal::Entered), (Stage::AskingAdditional, Action::AskAdditional));
    assert_eq!(step(f, Stage::AskingAdditional, Signal::Answered(Some(true))), (Stage::EnteringAdditional, Action::EnterAdditional));
    assert_eq!(step(f, Stage::AskingAdditional, Signal::Answered(Some(false))), (Stage::ConfirmingTemplate, Action::AskTemplate { default: true }));
    assert_eq!(step(f, Stage::EnteringAdditional, Signal::Entered), (Stage::ConfirmingTemplate, Action::AskTemplate { default: true }));
    for stage in [Stage::AskingIssueId, Stage::AskingType, Stage::EnteringAdditional, Stage::Drafting, Stage::ListingFiles] {
        assert_eq!(step(f, stage, Signal::Failed), (Stage::Done, Action::Abort));
        assert_eq!(step(f, stage, Signal::Begin), (stage, Action::Refuse));
    }
}

#[test]
fn template_and_commit_questions() {
    let f = facts();
    let stored = CommitFacts { ci_mode: true, has_template: true, is_new_branch: false, ..f };
    assert_eq!(step(stored, Stage::Drafting, Signal::Drafted), (Stage::ConfirmingTemplate, Action::AskTemplate { default: false }));
    assert_eq!(step(CommitFacts { ci_mode: true, ..f }, Stage::Drafting, Signal::Drafted), (Stage::BuildingTemplate, Action::BuildTemplate));
    assert_eq!(step(f, Stage::ConfirmingTemplate, Signal::Answered(Some(true))), (Stage::BuildingTemplate, Action::BuildTemplate));
    assert_eq!(step(f, Stage::ConfirmingTemplate, Signal::Answered(Some(false))), (Stage::ConfirmingCommit, Action::AskCommit));
    assert_eq!(step(f, Stage::ConfirmingTemplate, Signal::Answered(None)), (Stage::Done, Action::Abort));
    assert_eq!(step(f, Stage::BuildingTemplate, Signal::Built), (Stage::ConfirmingCommit, Action::AskCommit));
    assert_eq!(step(f, Stage::ConfirmingCommit, Signal::Answered(Some(true))), (Stage::Done, Action::CommitAndPush));
    assert_eq!(step(f, Stage::ConfirmingCommit, Signal::Answered(Some(false))), (Stage::Done, Action::Finish));
    assert_eq!(step(f, Stage::ConfirmingCommit, Signal::Answered(None)), (Stage::Done, Action::Abort));
    assert_eq!(step(f, Stage::Done, Signal::Failed), (Stage::Done, Action::Refuse));
}

//! What is read from a branch name and from what git prints.

use vstd::prelude::*;
use vstd::string::StringExecFns;
use crate::patterns::{capture, capture_view, pattern_capture};
use crate::search::{
    ends_with, find, is_first_occurrence, matches_at, split_chars, split_on, starts_with, views,
};
use crate::storage::{
    save_branch_config, save_outcome, SessionChange, SessionError, SessionStore, SessionUpdate,
    lines_view, text_view, clone_lines,
};
use crate::text::{
    chars_before_byte, chars_of, count_before_byte, first_chars, replace_char, replaced, same_text,
    string_of, string_of_range, trim, trim_bounds, trimmed,
};

verus! {

/// A branch name: an issue id of word characters, an optional dash, and the
/// rest.
pub const ISSUE_PATTERN: &'static str = "^(\\w*)(?:-)?(.*)?$";

/// The number of bytes before which a proposed message is cut.
pub const MESSAGE_BYTES: usize = 56;

/// Whether commits on this branch are refused.
pub open spec fn protected_branch(branch: Seq<char>) -> bool {
    branch == "main"@ || branch == "production"@
}

/// What is printed when a branch is refused.
pub open spec fn refusal(branch: Seq<char>) -> Seq<char> {
    "Branch is "@ + branch + ", refusing to continue."@
}

/// Accepts a branch, or refuses a protected one with the line to print.
pub fn validate_branch(git_branch: &str) -> (r: Result<(), String>)
    ensures
        r is Err <==> protected_branch(git_branch@),
        r matches Err(line) ==> line@ == refusal(git_branch@),
{
    if same_text(git_branch, "main") || same_text(git_branch, "production") {
        let mut line = String::from_str("Branch is ");
        line.append(git_branch);
        line.append(", refusing to continue.");
        Err(line)
    } else {
        Ok(())
    }
}

/// The text of a capture, or nothing where there is none.
pub open spec fn captured_text(c: Option<Option<Seq<char>>>) -> Seq<char> {
    match c {
        Some(Some(t)) => t,
        _ => Seq::empty(),
    }
}

/// The issue id for what the first group of the branch pattern took.
pub fn issue_id_from(first_group: Option<Option<String>>) -> (r: String)
    ensures
        r@ == captured_text(capture_view(first_group)),
{
    match first_group {
        Some(Some(t)) => t,
        _ => String::new(),
    }
}

/// The issue id that a branch name begins with, or nothing where it begins
/// with none.
pub fn issue_id(git_branch: &str) -> (r: String)
    ensures
        r@ == captured_text(pattern_capture(ISSUE_PATTERN@, git_branch@, 1)),
{
    issue_id_from(capture(ISSUE_PATTERN, git_branch, 1))
}

/// The message proposed for what follows the issue id in a branch name:
/// dashes become spaces, white space at both ends goes, and the text is cut
/// before the first character that begins at byte `MESSAGE_BYTES` or later.
pub open spec fn message_of(rest: Seq<char>) -> Seq<char> {
    let text = trim(replace_char(rest, '-', ' '));
    text.take(chars_before_byte(text, MESSAGE_BYTES as nat) as int)
}

/// The message proposed for what the second group of the branch pattern
/// took.
pub fn branch_name_from(second_group: Option<Option<String>>) -> (r: String)
    ensures
        r@ == message_of(captured_text(capture_view(second_group))),
{
    let rest = match second_group {
        Some(Some(t)) => t,
        _ => String::new(),
    };
    let spaced = string_of(&replaced(&chars_of(rest.as_str()), '-', ' '));
    let text = chars_of(trimmed(spaced.as_str()).as_str());
    let n = count_before_byte(&text, MESSAGE_BYTES);
    string_of_range(&text, 0, n)
}

/// The message that a branch name proposes: what follows its issue id, made
/// readable.
pub fn branch_name(git_branch: &str) -> (r: String)
    ensures
        r@ == message_of(captured_text(pattern_capture(ISSUE_PATTERN@, git_branch@, 2))),
{
    branch_name_from(capture(ISSUE_PATTERN, git_branch, 2))
}

/// The staged paths in what `git diff --cached --name-only` printed: its
/// lines, each without white space at its ends.
pub open spec fn names_in(listing: Seq<char>) -> Seq<Seq<char>> {
    split_on(listing, '\n').map_values(|line: Seq<char>| trim(line))
}

/// The staged paths in what git printed.
pub fn changed_file_names(listing: &str) -> (r: Vec<String>)
    ensures
        views(r@) == names_in(listing@),
{
    let lines = split_chars(&chars_of(listing), '\n');
    let mut out: Vec<String> = Vec::new();
    let mut i: usize = 0;
    while i < lines.len()
        invariant
            i <= lines.len(),
            views(out@) == views(lines@).map_values(|line: Seq<char>| trim(line)).take(i as int),
        decreases lines.len() - i,
    {
        let name = trimmed(lines[i].as_str());
        proof {
            assert(views(out@.push(name)) == views(out@).push(name@));
        }
        out.push(name);
        i += 1;
    }
    assert(views(lines@).map_values(|line: Seq<char>| trim(line)).take(lines.len() as int)
        == views(lines@).map_values(|line: Seq<char>| trim(line)));
    out
}

/// The parts of the address of a repository on GitHub.
#[derive(Debug)]
pub struct GithubRepoParts {
    pub path: Option<String>,
    pub owner: Option<String>,
    pub repo: Option<String>,
    pub owner_and_path: Option<String>,
}

/// What the parts of a repository address hold.
pub struct RepoParts {
    pub path: Option<Seq<char>>,
    pub owner: Option<Seq<char>>,
    pub repo: Option<Seq<char>>,
    pub owner_and_path: Option<Seq<char>>,
}

impl View for GithubRepoParts {
    type V = RepoParts;

    open spec fn view(&self) -> RepoParts {
        RepoParts {
            path: text_view(self.path),
            owner: text_view(self.owner),
            repo: text_view(self.repo),
            owner_and_path: text_view(self.owner_and_path),
        }
    }
}

impl GithubRepoParts {
    /// The parts of no repository.
    pub open spec fn unknown() -> RepoParts {
        RepoParts { path: None, owner: None, repo: None, owner_and_path: None }
    }

    /// The parts of no repository.
    pub fn new() -> (r: Self)
        ensures
            r@ == Self::unknown(),
    {
        GithubRepoParts { path: None, owner: None, repo: None, owner_and_path: None }
    }
}

/// How an address of the form `git@host:path` begins for GitHub.
pub const SSH_PREFIX: &'static str = "git@github.com:";

/// How an address of the form `https://host/path` begins for GitHub.
pub const HTTPS_PREFIX: &'static str = "https://github.com/";

/// How the address of a repository ends.
pub const GIT_SUFFIX: &'static str = ".git";

/// `owner/repository` in the address of a repository on GitHub: what stands
/// between one of the two prefixes and the suffix `.git`.
pub open spec fn repository_path(url: Seq<char>) -> Option<Seq<char>> {
    let rest = if starts_with(url, SSH_PREFIX@) {
        Some(url.skip(SSH_PREFIX@.len() as int))
    } else if starts_with(url, HTTPS_PREFIX@) {
        Some(url.skip(HTTPS_PREFIX@.len() as int))
    } else {
        None
    };
    match rest {
        Some(p) => if ends_with(p, GIT_SUFFIX@) {
            Some(p.take(p.len() - GIT_SUFFIX@.len()))
        } else {
            None
        },
        None => None,
    }
}

/// The parts of the address that `git remote get-url origin` printed. An
/// address that is not one of a GitHub repository has no parts. `None` where
/// it is one but names no repository after the owner.
pub open spec fn origin_parts(remote: Seq<char>) -> Option<RepoParts> {
    let url = trim(remote);
    match repository_path(url) {
        None => Some(GithubRepoParts::unknown()),
        Some(p) => {
            let pieces = split_on(p, '/');
            if pieces.len() < 2 {
                None
            } else {
                Some(
                    RepoParts {
                        path: Some(url),
                        owner: Some(pieces[0]),
                        repo: Some(pieces[1]),
                        owner_and_path: Some(p),
                    },
                )
            }
        },
    }
}

fn repository_path_of(url: &Vec<char>) -> (r: Option<Vec<char>>)
    ensures
        match r {
            Some(p) => repository_path(url@) == Some(p@),
            None => repository_path(url@) is None,
        },
{
    let ssh = chars_of(SSH_PREFIX);
    let https = chars_of(HTTPS_PREFIX);
    let suffix = chars_of(GIT_SUFFIX);
    let from = if matches_at(url, &ssh, 0) {
        ssh.len()
    } else if matches_at(url, &https, 0) {
        https.len()
    } else {
        return None;
    };
    let rest = chars_of(string_of_range(url, from, url.len()).as_str());
    assert(rest@ == url@.skip(from as int));
    if suffix.len() <= rest.len() && matches_at(&rest, &suffix, rest.len() - suffix.len()) {
        let path = chars_of(string_of_range(&rest, 0, rest.len() - suffix.len()).as_str());
        assert(path@ == rest@.take(rest.len() - suffix.len()));
        Some(path)
    } else {
        None
    }
}

/// The parts of the address that `git remote get-url origin` printed.
pub fn get_branch_origin_parts(remote: &str) -> (r: Option<GithubRepoParts>)
    ensures
        match origin_parts(remote@) {
            Some(parts) => r matches Some(found) && found@ == parts,
            None => r is None,
        },
{
    let url = trimmed(remote);
    match repository_path_of(&chars_of(url.as_str())) {
        None => Some(GithubRepoParts::new()),
        Some(path) => {
            let mut pieces = split_chars(&path, '/');
            if pieces.len() < 2 {
                return None;
            }
            assert(views(pieces@)[0] == pieces@[0]@);
            assert(views(pieces@)[1] == pieces@[1]@);
            let repo = pieces.swap_remove(1);
            let owner = pieces.swap_remove(0);
            Some(
                GithubRepoParts {
                    path: Some(url),
                    owner: Some(owner),
                    repo: Some(repo),
                    owner_and_path: Some(string_of(&path)),
                },
            )
        },
    }
}

/// Whether `gh pr view` found a pull request, given what it printed and how
/// it ended. An error text leaves the question open.
pub open spec fn pr_found(code: Option<i32>, stdout: Seq<char>, stderr: Seq<char>) -> Option<bool> {
    if stderr.len() > 0 {
        None
    } else if crate::search::contains(stdout, "no pull requests found"@) {
        Some(false)
    } else {
        Some(code == Some(0i32))
    }
}

/// Whether `gh pr view` found a pull request for the branch. `None` where it
/// printed an error, so that the search failed.
pub fn check_existing_pr(code: Option<i32>, stdout: &str, stderr: &str) -> (r: Option<bool>)
    ensures
        r == pr_found(code, stdout@, stderr@),
{
    if !stderr.is_empty() {
        return None;
    }
    if crate::search::contains_text(stdout, "no pull requests found") {
        return Some(false);
    }
    match code {
        Some(0) => Some(true),
        _ => Some(false),
    }
}

/// What a commit attempt leaves in the session of its branch: the template,
/// the message, the additional messages and the exit code, where git gave
/// one.
pub open spec fn commit_change(
    commit_message: Seq<char>,
    additional: Seq<Seq<char>>,
    pr_template: Option<Seq<char>>,
    code: Option<i32>,
) -> SessionChange {
    SessionChange {
        pr_template: pr_template,
        commit_message: Some(commit_message),
        additional_message: Some(additional),
        commit_exit_code: code,
        issue_id: None,
        issue_name: None,
        issue_description: None,
        assistant_suggestion: None,
    }
}

/// Whether the save behind a recorded commit succeeded.
pub open spec fn save_of(r: Result<Option<i32>, SessionError>) -> Result<(), SessionError> {
    match r {
        Ok(_) => Ok(()),
        Err(e) => Err(e),
    }
}

/// Records how a commit attempt ended in the session of its branch, whether
/// it succeeded or failed, and hands the exit code on.
pub fn commit_pr(
    store: &mut SessionStore,
    commit_message: &str,
    additional_commit_message: Vec<String>,
    git_branch: &str,
    pr_template: Option<String>,
    code: Option<i32>,
) -> (r: Result<Option<i32>, SessionError>)
    ensures
        exists|now: Seq<char>|
            #[trigger] save_outcome(
                old(store)@,
                final(store)@,
                save_of(r),
                git_branch@,
                now,
                commit_change(
                    commit_message@,
                    views(additional_commit_message@),
                    text_view(pr_template),
                    code,
                ),
            ),
        r matches Ok(c) ==> c == code,
{
    let update = SessionUpdate {
        pr_template: pr_template,
        commit_message: Some(String::from_str(commit_message)),
        additional_message: Some(additional_commit_message),
        commit_exit_code: code,
        issue_id: None,
        issue_name: None,
        issue_description: None,
        assistant_suggestion: None,
    };
    let ghost change = update@;
    let saved = save_branch_config(store, git_branch, update);
    let r = match saved {
        Ok(()) => Ok(code),
        Err(e) => Err(e),
    };
    proof {
        let now = choose|now: Seq<char>|
            save_outcome(old(store)@, store@, saved, git_branch@, now, change);
        assert(save_outcome(old(store)@, store@, save_of(r), git_branch@, now, change));
    }
    r
}

/// Whether a command failed: it gave no exit code, or one other than zero.
pub open spec fn command_failed(code: Option<i32>) -> bool {
    match code {
        Some(c) => c != 0,
        None => true,
    }
}

/// Whether a command failed.
pub fn failed(code: Option<i32>) -> (r: bool)
    ensures
        r == command_failed(code),
{
    match code {
        Some(c) => c != 0,
        None => true,
    }
}

/// Whether git refused a push because the branch has no upstream branch.
pub open spec fn missing_upstream(stderr: Seq<char>) -> bool {
    crate::search::contains(stderr, "has no upstream branch"@) && crate::search::contains(
        stderr,
        "set the remote as upstream"@,
    )
}

/// Whether git refused a push because the branch has no upstream branch.
pub fn has_no_upstream(stderr: &str) -> (r: bool)
    ensures
        r == missing_upstream(stderr@),
{
    crate::search::contains_text(stderr, "has no upstream branch") && crate::search::contains_text(
        stderr,
        "set the remote as upstream",
    )
}

/// Whether `git ls-remote` lists the branch.
pub open spec fn on_remote(code: Option<i32>, stdout: Seq<char>, branch: Seq<char>) -> bool {
    code == Some(0i32) && crate::search::contains(stdout, branch)
}

/// Whether `git ls-remote` lists the branch.
pub fn branch_on_remote(code: Option<i32>, stdout: &str, git_branch: &str) -> (r: bool)
    ensures
        r == on_remote(code, stdout@, git_branch@),
{
    match code {
        Some(0) => crate::search::contains_text(stdout, git_branch),
        _ => false,
    }
}

/// Where a push stands.
#[derive(Debug, Clone, Copy, PartialEq, Eq)]
pub enum PushState {
    /// Nothing has run yet.
    Start,
    /// The push runs.
    Pushing,
    /// The user is asked whether to set the upstream branch.
    AskingUpstream { code: Option<i32> },
    /// The heads of the remote are listed.
    CheckingRemote,
    /// The push that sets the upstream branch runs.
    PushingUpstream,
    /// The push runs once more.
    PushingAgain,
    /// The pull request of the branch is looked for.
    LookingForPr { code: Option<i32> },
    /// The user is asked whether to create a pull request.
    AskingForPr { code: Option<i32> },
    /// The pull request is created.
    CreatingPr { code: Option<i32> },
    /// The push is over.
    Done,
}

/// What happened since the last step of a push.
#[derive(Debug)]
pub enum PushEvent {
    /// The push is asked for.
    Begin,
    /// The command ran to its end.
    Ran { code: Option<i32>, stdout: String, stderr: String },
    /// The command could not be run.
    NotRun,
    /// The user answered, or the question could not be asked.
    Answered(Option<bool>),
}

/// What a push event holds.
pub enum PushSignal {
    Begin,
    Ran { code: Option<i32>, stdout: Seq<char>, stderr: Seq<char> },
    NotRun,
    Answered(Option<bool>),
}

impl View for PushEvent {
    type V = PushSignal;

    open spec fn view(&self) -> PushSignal {
        match self {
            PushEvent::Begin => PushSignal::Begin,
            PushEvent::Ran { code, stdout, stderr } => PushSignal::Ran {
                code: *code,
                stdout: stdout@,
                stderr: stderr@,
            },
            PushEvent::NotRun => PushSignal::NotRun,
            PushEvent::Answered(a) => PushSignal::Answered(*a),
        }
    }
}

/// What is to be done next in a push.
#[derive(Debug, Clone, Copy, PartialEq, Eq)]
pub enum PushAction {
    /// Run the push command.
    Push,
    /// Ask whether to push and set the branch as upstream on the remote.
    AskUpstream,
    /// Run the command that lists the heads of the remote.
    ListRemoteHeads,
    /// Run the push command that sets the upstream branch.
    PushUpstream,
    /// Look for the pull request of the branch.
    LookForPr,
    /// Ask whether to create a pull request.
    AskForPr,
    /// Run the command that creates the pull request.
    CreatePr,
    /// The push is over, with this exit code.
    Finish(Option<i32>),
    /// The pull request could not be searched: leave with an error.
    Abort,
    /// The event does not belong to the state: nothing is done.
    Refuse,
}

/// What is to be said before the next action of a push.
#[derive(Debug, Clone, Copy, PartialEq, Eq, Structural)]
pub enum PushNote {
    Nothing,
    /// The output of the command that ran.
    Output,
    /// The output of the command that failed, with its exit code.
    Failure,
    NoUpstream,
    SettingUpstream,
    BranchOnRemote,
    Cancelled,
    NoAnswer,
    PrExists,
    SearchFailed,
}

impl PushNote {
    /// The line that the note prints, where it prints one of its own.
    pub open spec fn line(self) -> Seq<char> {
        match self {
            PushNote::NoUpstream => "\nThe current branch has no upstream branch."@,
            PushNote::SettingUpstream => "Setting upstream and pushing..."@,
            PushNote::BranchOnRemote => "Branch exists on remote, pushing..."@,
            PushNote::Cancelled => "Push cancelled by user."@,
            PushNote::NoAnswer => "Failed to get user input. Push cancelled."@,
            PushNote::PrExists => "The PR for this branch already exists"@,
            PushNote::SearchFailed => "There was an error searching for the existing PR."@,
            _ => Seq::empty(),
        }
    }

    /// The line that the note prints, where it prints one of its own.
    pub fn text(&self) -> (r: &'static str)
        ensures
            r@ == self.line(),
    {
        match self {
            PushNote::NoUpstream => "\nThe current branch has no upstream branch.",
            PushNote::SettingUpstream => "Setting upstream and pushing...",
            PushNote::BranchOnRemote => "Branch exists on remote, pushing...",
            PushNote::Cancelled => "Push cancelled by user.",
            PushNote::NoAnswer => "Failed to get user input. Push cancelled.",
            PushNote::PrExists => "The PR for this branch already exists",
            PushNote::SearchFailed => "There was an error searching for the existing PR.",
            _ => {
                proof {
                    reveal_strlit("");
                }
                assert(""@ =~= Seq::<char>::empty());
                ""
            },
        }
    }
}

/// One step of a push: the state it leads to, what is said, what is done.
#[derive(Debug, Clone, Copy, PartialEq, Eq)]
pub struct PushStep {
    pub state: PushState,
    pub note: PushNote,
    pub action: PushAction,
}

/// What a push is run with.
#[derive(Debug, Clone, Copy, PartialEq, Eq, Structural)]
pub struct PushMode {
    /// Prompts are answered with their default.
    pub ci_mode: bool,
    /// The GitHub CLI is signed in.
    pub has_gh: bool,
}

/// The step after the push itself is settled with exit code `code`: with the
/// GitHub CLI the pull request is looked for, without it the push is over.
pub open spec fn after_push(mode: PushMode, note: PushNote, code: Option<i32>) -> PushStep {
    if mode.has_gh {
        PushStep { state: PushState::LookingForPr { code }, note, action: PushAction::LookForPr }
    } else {
        PushStep { state: PushState::Done, note, action: PushAction::Finish(code) }
    }
}

/// The step that an event leads to from a state of a push.
pub open spec fn push_step(mode: PushMode, branch: Seq<char>, state: PushState, event: PushSignal) -> PushStep {
    match (state, event) {
        (PushState::Start, PushSignal::Begin) => PushStep {
            state: PushState::Pushing,
            note: PushNote::Nothing,
            action: PushAction::Push,
        },
        (PushState::Pushing, PushSignal::Ran { code, stdout, stderr }) => {
            if !command_failed(code) {
                after_push(mode, PushNote::Output, code)
            } else if !missing_upstream(stderr) {
                after_push(mode, PushNote::Failure, code)
            } else if mode.ci_mode {
                PushStep {
                    state: PushState::CheckingRemote,
                    note: PushNote::NoUpstream,
                    action: PushAction::ListRemoteHeads,
                }
            } else {
                PushStep {
                    state: PushState::AskingUpstream { code },
                    note: PushNote::NoUpstream,
                    action: PushAction::AskUpstream,
                }
            }
        },
        (PushState::AskingUpstream { code }, PushSignal::Answered(answer)) => match answer {
            Some(true) => PushStep {
                state: PushState::CheckingRemote,
                note: PushNote::Nothing,
                action: PushAction::ListRemoteHeads,
            },
            Some(false) => after_push(mode, PushNote::Cancelled, code),
            None => after_push(mode, PushNote::NoAnswer, code),
        },
        (PushState::CheckingRemote, PushSignal::Ran { code, stdout, stderr }) => {
            if on_remote(code, stdout, branch) {
                PushStep {
                    state: PushState::PushingAgain,
                    note: PushNote::BranchOnRemote,
                    action: PushAction::Push,
                }
            } else {
                PushStep {
                    state: PushState::PushingUpstream,
                    note: PushNote::SettingUpstream,
                    action: PushAction::PushUpstream,
                }
            }
        },
        (PushState::PushingUpstream, PushSignal::Ran { code, stdout, stderr }) => PushStep {
            state: PushState::Done,
            note: PushNote::Output,
            action: PushAction::Finish(code),
        },
        (PushState::PushingAgain, PushSignal::Ran { code, stdout, stderr }) => PushStep {
            state: PushState::Done,
            note: PushNote::Output,
            action: PushAction::Finish(code),
        },
        (PushState::LookingForPr { code }, PushSignal::Ran { code: found, stdout, stderr }) => {
            match pr_found(found, stdout, stderr) {
                None => PushStep {
                    state: PushState::Done,
                    note: PushNote::SearchFailed,
                    action: PushAction::Abort,
                },
                Some(true) => PushStep {
                    state: PushState::Done,
                    note: PushNote::PrExists,
                    action: PushAction::Finish(Some(0i32)),
                },
                Some(false) => PushStep {
                    state: PushState::AskingForPr { code },
                    note: PushNote::Nothing,
                    action: PushAction::AskForPr,
                },
            }
        },
        (PushState::LookingForPr { code }, PushSignal::NotRun) => PushStep {
            state: PushState::AskingForPr { code },
            note: PushNote::Nothing,
            action: PushAction::AskForPr,
        },
        (PushState::AskingForPr { code }, PushSignal::Answered(answer)) => {
            if answer == Some(true) {
                PushStep {
                    state: PushState::CreatingPr { code },
                    note: PushNote::Nothing,
                    action: PushAction::CreatePr,
                }
            } else {
                PushStep {
                    state: PushState::Done,
                    note: PushNote::Nothing,
                    action: PushAction::Finish(code),
                }
            }
        },
        (PushState::CreatingPr { code }, PushSignal::Ran { code: created, stdout, stderr }) => PushStep {
            state: PushState::Done,
            note: PushNote::Output,
            action: PushAction::Finish(code),
        },
        _ => PushStep { state: state, note: PushNote::Nothing, action: PushAction::Refuse },
    }
}

fn pr_phase(mode: PushMode, note: PushNote, code: Option<i32>) -> (r: PushStep)
    ensures
        r == after_push(mode, note, code),
{
    if mode.has_gh {
        PushStep { state: PushState::LookingForPr { code }, note, action: PushAction::LookForPr }
    } else {
        PushStep { state: PushState::Done, note, action: PushAction::Finish(code) }
    }
}

/// Decides the next step of a push: given where it stands and what happened,
/// says where it stands now, what to say and what to do next.
pub fn push_pr(mode: PushMode, git_branch: &str, state: PushState, event: &PushEvent) -> (r: PushStep)
    ensures
        r == push_step(mode, git_branch@, state, event@),
{
    let refuse = PushStep { state: state, note: PushNote::Nothing, action: PushAction::Refuse };
    match state {
        PushState::Start => match event {
            PushEvent::Begin => PushStep {
                state: PushState::Pushing,
                note: PushNote::Nothing,
                action: PushAction::Push,
            },
            _ => refuse,
        },
        PushState::Pushing => match event {
            PushEvent::Ran { code, stdout, stderr } => {
                if !failed(*code) {
                    pr_phase(mode, PushNote::Output, *code)
                } else if !has_no_upstream(stderr.as_str()) {
                    pr_phase(mode, PushNote::Failure, *code)
                } else if mode.ci_mode {
                    PushStep {
                        state: PushState::CheckingRemote,
                        note: PushNote::NoUpstream,
                        action: PushAction::ListRemoteHeads,
                    }
                } else {
                    PushStep {
                        state: PushState::AskingUpstream { code: *code },
                        note: PushNote::NoUpstream,
                        action: PushAction::AskUpstream,
                    }
                }
            },
            _ => refuse,
        },
        PushState::AskingUpstream { code } => match event {
            PushEvent::Answered(Some(true)) => PushStep {
                state: PushState::CheckingRemote,
                note: PushNote::Nothing,
                action: PushAction::ListRemoteHeads,
            },
            PushEvent::Answered(Some(false)) => pr_phase(mode, PushNote::Cancelled, code),
            PushEvent::Answered(None) => pr_phase(mode, PushNote::NoAnswer, code),
            _ => refuse,
        },
        PushState::CheckingRemote => match event {
            PushEvent::Ran { code, stdout, stderr } => {
                if branch_on_remote(*code, stdout.as_str(), git_branch) {
                    PushStep {
                        state: PushState::PushingAgain,
                        note: PushNote::BranchOnRemote,
                        action: PushAction::Push,
                    }
                } else {
                    PushStep {
                        state: PushState::PushingUpstream,
                        note: PushNote::SettingUpstream,
                        action: PushAction::PushUpstream,
                    }
                }
            },
            _ => refuse,
        },
        PushState::PushingUpstream => match event {
            PushEvent::Ran { code, stdout, stderr } => PushStep {
                state: PushState::Done,
                note: PushNote::Output,
                action: PushAction::Finish(*code),
            },
            _ => refuse,
        },
        PushState::PushingAgain => match event {
            PushEvent::Ran { code, stdout, stderr } => PushStep {
                state: PushState::Done,
                note: PushNote::Output,
                action: PushAction::Finish(*code),
            },
            _ => refuse,
        },
        PushState::LookingForPr { code } => match event {
            PushEvent::Ran { code: found, stdout, stderr } => {
                match check_existing_pr(*found, stdout.as_str(), stderr.as_str()) {
                    None => PushStep {
                        state: PushState::Done,
                        note: PushNote::SearchFailed,
                        action: PushAction::Abort,
                    },
                    Some(true) => PushStep {
                        state: PushState::Done,
                        note: PushNote::PrExists,
                        action: PushAction::Finish(Some(0)),
                    },
                    Some(false) => PushStep {
                        state: PushState::AskingForPr { code },
                        note: PushNote::Nothing,
                        action: PushAction::AskForPr,
                    },
                }
            },
            PushEvent::NotRun => PushStep {
                state: PushState::AskingForPr { code },
                note: PushNote::Nothing,
                action: PushAction::AskForPr,
            },
            _ => refuse,
        },
        PushState::AskingForPr { code } => match event {
            PushEvent::Answered(Some(true)) => PushStep {
                state: PushState::CreatingPr { code },
                note: PushNote::Nothing,
                action: PushAction::CreatePr,
            },
            PushEvent::Answered(_) => PushStep {
                state: PushState::Done,
                note: PushNote::Nothing,
                action: PushAction::Finish(code),
            },
            _ => refuse,
        },
        PushState::CreatingPr { code } => match event {
            PushEvent::Ran { code: created, stdout, stderr } => PushStep {
                state: PushState::Done,
                note: PushNote::Output,
                action: PushAction::Finish(code),
            },
            _ => refuse,
        },
        PushState::Done => refuse,
    }
}

} // verus!

//! The commit command: its texts and its decisions.

use vstd::prelude::*;
use vstd::string::StringExecFns;
use crate::branch_utils::{branch_name, captured_text, message_of, ISSUE_PATTERN};
use crate::classifier::Tag;
use crate::patterns::pattern_capture;
use crate::search::{split_on, split_text, views};
use crate::text::{
    append_wrapped, chars_of, first_chars, given, lowercase, lowercase_of, string_of_first,
    wrapped_lines,
};

verus! {

/// The team prefix that is proposed.
pub const TEAM_PREFIX: &'static str = "INF";

/// The most characters of the assistant's message that are kept.
pub const DRAFT_CHARS: usize = 50;

/// The most characters of a message taken from the branch name.
pub const NAME_CHARS: usize = 55;

/// A conventional commit message: type, message, team prefix and issue id.
pub open spec fn conventional(
    commit_type: Seq<char>,
    message: Seq<char>,
    team_prefix: Seq<char>,
    issue_id: Seq<char>,
) -> Seq<char> {
    commit_type + ": "@ + message + " ["@ + team_prefix + "] #"@ + issue_id
}

/// A conventional commit message.
pub fn commit_message(commit_type: &str, message: &str, team_prefix: &str, issue_id: &str) -> (r:
    String)
    ensures
        r@ == conventional(commit_type@, message@, team_prefix@, issue_id@),
{
    let mut out = String::from_str(commit_type);
    out.append(": ");
    out.append(message);
    out.append(" [");
    out.append(team_prefix);
    out.append("] #");
    out.append(issue_id);
    out
}

/// The commit message drafted by the assistant: its type and its message in
/// lowercase, the message cut to `DRAFT_CHARS` characters.
pub fn drafted_message(commit_type: &str, message: &str, team_prefix: &str, issue_id: &str) -> (r:
    String)
    ensures
        r@ == conventional(
            lowercase_of(commit_type@),
            first_chars(lowercase_of(message@), DRAFT_CHARS as nat),
            team_prefix@,
            issue_id@,
        ),
{
    let kind = lowercase(commit_type);
    let lowered = lowercase(message);
    let short = string_of_first(&chars_of(lowered.as_str()), DRAFT_CHARS);
    commit_message(kind.as_str(), short.as_str(), team_prefix, issue_id)
}

/// The message that is proposed: the one given on the command line, or else
/// the one that the branch name proposes, cut to `NAME_CHARS` characters;
/// either in lowercase.
pub open spec fn proposed_name(message: Option<Seq<char>>, branch: Seq<char>) -> Seq<char> {
    match message {
        Some(m) => lowercase_of(m),
        None => first_chars(
            lowercase_of(message_of(captured_text(pattern_capture(ISSUE_PATTERN@, branch, 2)))),
            NAME_CHARS as nat,
        ),
    }
}

/// The message that is proposed.
pub fn message_name(message: Option<&str>, git_branch: &str) -> (r: String)
    ensures
        r@ == proposed_name(given(message), git_branch@),
{
    match message {
        Some(m) => lowercase(m),
        None => {
            let lowered = lowercase(branch_name(git_branch).as_str());
            string_of_first(&chars_of(lowered.as_str()), NAME_CHARS)
        },
    }
}

/// One line of the header: a label and its value in bold.
pub open spec fn header_line(label: Seq<char>, value: Seq<char>) -> Seq<char> {
    label + "\x1b[1;1m"@ + value + "\x1b[0m\n"@
}

/// A line of the header for a value that is there, or the line that says
/// that it is missing.
pub open spec fn header_line_or(label: Seq<char>, value: Seq<char>, missing: Seq<char>) -> Seq<char> {
    if value.len() > 0 {
        header_line(label, value)
    } else {
        missing
    }
}

/// What the commit command shows first: where it works, and what it read
/// from the branch name.
pub open spec fn header_of(
    directory: Seq<char>,
    branch: Seq<char>,
    team_prefix: Seq<char>,
    issue_id: Seq<char>,
    name: Seq<char>,
) -> Seq<char> {
    "\n\x1b[1;1mCommit utility\x1b[0m\n"@ + header_line("- Working in directory "@, directory)
        + header_line("- Git branch is "@, branch) + header_line("- Team prefix is "@, team_prefix)
        + header_line_or("- Issue id is "@, issue_id, "\x1b[1;31m- No issue id found\x1b[0m\n"@)
        + header_line_or(
        "- Message name is "@,
        name,
        "\x1b[1;31m- No message name found\x1b[0m\n"@,
    )
}

fn append_header_line(out: &mut String, label: &str, value: &str)
    ensures
        final(out)@ == old(out)@ + header_line(label@, value@),
{
    out.append(label);
    out.append("\x1b[1;1m");
    out.append(value);
    out.append("\x1b[0m\n");
    assert(out@ == old(out)@ + (label@ + "\x1b[1;1m"@ + value@ + "\x1b[0m\n"@));
}

fn append_header_line_or(out: &mut String, label: &str, value: &str, missing: &str)
    ensures
        final(out)@ == old(out)@ + header_line_or(label@, value@, missing@),
{
    if !value.is_empty() {
        append_header_line(out, label, value);
    } else {
        out.append(missing);
    }
}

/// What the commit command shows first.
pub fn commit_header(
    directory: &str,
    git_branch: &str,
    team_prefix: &str,
    issue_id: &str,
    name: &str,
) -> (r: String)
    ensures
        r@ == header_of(directory@, git_branch@, team_prefix@, issue_id@, name@),
{
    let mut out = String::from_str("\n\x1b[1;1mCommit utility\x1b[0m\n");
    append_header_line(&mut out, "- Working in directory ", directory);
    append_header_line(&mut out, "- Git branch is ", git_branch);
    append_header_line(&mut out, "- Team prefix is ", team_prefix);
    append_header_line_or(&mut out, "- Issue id is ", issue_id, "\x1b[1;31m- No issue id found\x1b[0m\n");
    append_header_line_or(
        &mut out,
        "- Message name is ",
        name,
        "\x1b[1;31m- No message name found\x1b[0m\n",
    );
    out
}

/// Whether a message can be proposed: an issue id, a message and a type are
/// all there.
pub fn can_build_default_message(issue_id: &str, name: &str, proposed_type: Option<Tag>) -> (r: bool)
    ensures
        r == (issue_id@.len() > 0 && name@.len() > 0 && proposed_type is Some),
{
    !issue_id.is_empty() && !name.is_empty() && proposed_type.is_some()
}

/// How a proposed message is shown.
pub open spec fn proposal_of(message: Seq<char>) -> Seq<char> {
    "We have enough information to propose the following commit message:\n\n"@ + "\x1b[1;32m"@
        + message + "\x1b[1;0m"@ + "\n"@
}

/// How a proposed message is shown.
pub fn proposal_notice(message: &str) -> (r: String)
    ensures
        r@ == proposal_of(message@),
{
    let mut out = String::from_str(
        "We have enough information to propose the following commit message:\n\n",
    );
    out.append("\x1b[1;32m");
    out.append(message);
    out.append("\x1b[1;0m");
    out.append("\n");
    out
}

/// The message that the user put together: the conventional message with
/// the entered message in lowercase, then the scope in brackets and the
/// message of the command line, where they are given.
pub open spec fn entered_message(
    commit_type: Seq<char>,
    message: Seq<char>,
    team_prefix: Seq<char>,
    issue_id: Seq<char>,
    scope: Option<Seq<char>>,
    given_message: Option<Seq<char>>,
) -> Seq<char> {
    conventional(commit_type, lowercase_of(message), team_prefix, issue_id) + match scope {
        Some(s) => "("@ + s + ")"@,
        None => Seq::empty(),
    } + match given_message {
        Some(m) => m,
        None => Seq::empty(),
    }
}

/// The message that the user put together.
pub fn manual_message(
    commit_type: &str,
    message: &str,
    team_prefix: &str,
    issue_id: &str,
    scope: Option<&str>,
    given_message: Option<&str>,
) -> (r: String)
    ensures
        r@ == entered_message(
            commit_type@,
            message@,
            team_prefix@,
            issue_id@,
            given(scope),
            given(given_message),
        ),
{
    let lowered = lowercase(message);
    let mut out = commit_message(commit_type, lowered.as_str(), team_prefix, issue_id);
    let ghost a = out@;
    match scope {
        Some(s) => {
            out.append("(");
            out.append(s);
            out.append(")");
            assert(out@ == a + ("("@ + s@ + ")"@));
        },
        None => {
            assert(out@ == a + Seq::<char>::empty());
        },
    }
    let ghost b = out@;
    match given_message {
        Some(m) => out.append(m),
        None => {
            assert(out@ == b + Seq::<char>::empty());
        },
    }
    out
}

/// The additional messages in what the user entered: its lines, or none
/// where nothing was entered.
pub open spec fn lines_of(entered: Option<Seq<char>>) -> Seq<Seq<char>> {
    match entered {
        Some(text) => split_on(text, '\n'),
        None => Seq::empty(),
    }
}

/// The additional messages in what the user entered.
pub fn additional_lines(entered: Option<&str>) -> (r: Vec<String>)
    ensures
        views(r@) == lines_of(given(entered)),
{
    match entered {
        Some(text) => split_text(text, '\n'),
        None => {
            let out: Vec<String> = Vec::new();
            assert(views(out@) =~= Seq::<Seq<char>>::empty());
            out
        },
    }
}

/// How the message that the user put together is shown: the message, and
/// below it in colour the additional messages, where there are any.
pub open spec fn shown_message(message: Seq<char>, additional: Seq<Seq<char>>) -> Seq<char> {
    if additional.len() > 0 {
        message + "\x1b[1;32m\n"@ + wrapped_lines(additional, "\n"@, Seq::empty()) + "\x1b[1;0m"@
    } else {
        message
    }
}

/// How the message that the user put together is shown.
pub fn manual_display(message: &str, additional: &Vec<String>) -> (r: String)
    ensures
        r@ == shown_message(message@, views(additional@)),
{
    let mut out = String::from_str(message);
    if additional.len() > 0 {
        out.append("\x1b[1;32m\n");
        proof {
            reveal_strlit("");
            assert(""@ =~= Seq::<char>::empty());
        }
        append_wrapped(&mut out, additional, "\n", "");
        out.append("\x1b[1;0m");
    }
    out
}

/// The question before a template is built.
pub open spec fn template_question_of(use_claude: bool) -> Seq<char> {
    "Do you want to build a PR template?"@ + if use_claude {
        " We will use the assistant to build it"@
    } else {
        Seq::empty()
    }
}

/// The question before a template is built.
pub fn template_question(use_claude: bool) -> (r: String)
    ensures
        r@ == template_question_of(use_claude),
{
    let mut out = String::from_str("Do you want to build a PR template?");
    if use_claude {
        out.append(" We will use the assistant to build it");
    } else {
        assert(out@ == out@ + Seq::<char>::empty());
    }
    out
}

/// What the assistant is asked for a commit message, after its command.
pub const MESSAGE_REQUEST: &'static str =
    " --model sonnet --output-format json  -p \"We have done several changes to this repository that we are going to commit. Please analyze the staged files and return a json object with the following structure:\n                    commit_message: string,\n                    commit_type: string,\n                    commit_labels: string[],\n\nThe expected values are the following.\n- commit_message: should be a string under 50 characters that summarizes the main changes to the pr. Do not include the commit type in the commit_message entry\n- commit_type as a string choose the best from the following options and return the key:\n        \"feat: A new feature\",\n        \"fix: Bug feature related or code linting, typecheck, etc fixes\",\n        \"test: Adding missing tests or correcting existing tests\",\n        \"refactor: A code change that improves performance or code quality\",\n        \"docs: Documentation only changes\",\n        \"build: Changes that affect the build system or external dependencies example scopes: gulp, broccoli, npm\",\n        \"ci: Changes to our CI configuration files and scripts example scopes: Travis, Circle, BrowserStack, SauceLabs\",\n        \"revert: Reverts a previous commit\",\n\n- commit_labels: an array of strings; choose all that apply from the web, api or ci; if none match return an empty array\n                web: files related to frontend code\n                api: files related to backend code\n                ci: files related to deployments\nPlease only analyse code for staged files. Do not include un staged files in the analysis.\n                \"";

/// The command that asks the assistant, called as `assistant`, for a commit
/// message.
pub fn message_request(assistant: &str, directory: &str) -> (r: String)
    ensures
        r@ == "cd "@ + directory@ + " && "@ + assistant@ + MESSAGE_REQUEST@,
{
    let mut out = String::from_str("cd ");
    out.append(directory);
    out.append(" && ");
    out.append(assistant);
    out.append(MESSAGE_REQUEST);
    out
}

/// What the commit command is run with, and what it found stored.
#[derive(Debug, Clone, Copy, PartialEq, Eq, Structural)]
pub struct CommitFacts {
    /// The assistant drafts the message and the template.
    pub use_claude: bool,
    /// Prompts are answered with their default.
    pub ci_mode: bool,
    /// Only the stored template is to be shown.
    pub show_pr_template: bool,
    /// A commit message is stored for the branch.
    pub has_message: bool,
    /// A template is stored for the branch.
    pub has_template: bool,
    /// Nothing is stored for the branch.
    pub is_new_branch: bool,
}

/// Where the commit command stands.
#[derive(Debug, Clone, Copy, PartialEq, Eq, Structural)]
pub enum CommitStage {
    Start,
    Drafting,
    Resuming,
    ConfirmingRetry,
    ListingFiles,
    ConfirmingEmpty { can_build: bool },
    Heading { can_build: bool },
    ConfirmingProposal,
    AskingIssueId,
    AskingTeamPrefix,
    AskingType,
    AskingMessage,
    AskingAdditional,
    EnteringAdditional,
    ConfirmingTemplate,
    BuildingTemplate,
    ConfirmingCommit,
    Done,
}

/// What happened since the last step.
#[derive(Debug, Clone, Copy, PartialEq, Eq)]
pub enum CommitSignal {
    /// The command is asked for.
    Begin,
    /// The assistant drafted a message.
    Drafted,
    /// The session was loaded: whether it shows a failed commit.
    Loaded { pending: bool },
    /// The staged files were listed and classified.
    Staged { nothing_staged: bool, can_build: bool },
    /// The user answered, or the question could not be asked.
    Answered(Option<bool>),
    /// What was to be shown is shown.
    Shown,
    /// The user entered a text.
    Entered,
    /// The template is built.
    Built,
    /// What was asked for could not be done.
    Failed,
}

/// What is to be done next.
#[derive(Debug, Clone, Copy, PartialEq, Eq, Structural)]
pub enum CommitAction {
    /// Show the stored template and leave.
    ShowTemplate,
    /// Ask the assistant for a message.
    AskAssistant,
    /// Load the session of the branch.
    LoadSession,
    /// Show the failed commit and ask whether to retry it.
    AskRetry,
    /// Commit and push what the session holds, and leave.
    Retry,
    /// List and classify the staged files.
    ListFiles,
    /// Ask whether to go on with nothing staged.
    AskEmpty,
    /// Show what was read from the command line and the branch.
    ShowHeader,
    /// Show the proposed message and ask whether to accept it.
    AskProposal,
    /// Show the proposed message and take it as accepted.
    AcceptProposal,
    AskIssueId,
    AskTeamPrefix,
    AskType,
    AskMessage,
    /// Ask whether to add an additional message.
    AskAdditional,
    /// Ask for the additional message.
    EnterAdditional,
    /// Ask whether to build a template; the default answer is given.
    AskTemplate { default: bool },
    BuildTemplate,
    /// Ask whether to commit.
    AskCommit,
    /// Commit and push.
    CommitAndPush,
    /// Leave in order.
    Finish,
    /// Leave with an error.
    Abort,
    /// The event does not belong to the stage: nothing is done.
    Refuse,
}

/// One step: the stage it leads to and what is done.
#[derive(Debug, Clone, Copy, PartialEq, Eq, Structural)]
pub struct CommitMove {
    pub stage: CommitStage,
    pub action: CommitAction,
}

/// The step once the message is settled: a template is built unasked where
/// prompts are answered by default and none is stored, else the user is
/// asked, with a new branch as the default answer.
pub open spec fn template_phase(facts: CommitFacts) -> CommitMove {
    if facts.ci_mode && !facts.has_template {
        CommitMove { stage: CommitStage::BuildingTemplate, action: CommitAction::BuildTemplate }
    } else {
        CommitMove {
            stage: CommitStage::ConfirmingTemplate,
            action: CommitAction::AskTemplate { default: facts.is_new_branch },
        }
    }
}

/// The step once the header is shown: a message that can be proposed is
/// taken as accepted where prompts are answered by default, else offered;
/// without one the user enters the parts.
pub open spec fn proposal_phase(facts: CommitFacts, can_build: bool) -> CommitMove {
    if !can_build {
        CommitMove { stage: CommitStage::AskingIssueId, action: CommitAction::AskIssueId }
    } else if facts.ci_mode {
        CommitMove { stage: CommitStage::ConfirmingProposal, action: CommitAction::AcceptProposal }
    } else {
        CommitMove { stage: CommitStage::ConfirmingProposal, action: CommitAction::AskProposal }
    }
}

/// The step that shows the header.
pub open spec fn heading(can_build: bool) -> CommitMove {
    CommitMove { stage: CommitStage::Heading { can_build }, action: CommitAction::ShowHeader }
}

/// The move that leaves with an error.
pub open spec fn abort() -> CommitMove {
    CommitMove { stage: CommitStage::Done, action: CommitAction::Abort }
}

/// The step that an event leads to from a stage of the commit command.
pub open spec fn commit_move(facts: CommitFacts, stage: CommitStage, event: CommitSignal) -> CommitMove {
    match (stage, event) {
        (CommitStage::Start, CommitSignal::Begin) => {
            if facts.show_pr_template {
                CommitMove { stage: CommitStage::Done, action: CommitAction::ShowTemplate }
            } else if facts.use_claude && !facts.has_message {
                CommitMove { stage: CommitStage::Drafting, action: CommitAction::AskAssistant }
            } else if !facts.is_new_branch {
                CommitMove { stage: CommitStage::Resuming, action: CommitAction::LoadSession }
            } else {
                CommitMove { stage: CommitStage::ListingFiles, action: CommitAction::ListFiles }
            }
        },
        (CommitStage::Drafting, CommitSignal::Drafted) => template_phase(facts),
        (CommitStage::Resuming, CommitSignal::Loaded { pending }) => {
            if pending {
                CommitMove { stage: CommitStage::ConfirmingRetry, action: CommitAction::AskRetry }
            } else {
                CommitMove { stage: CommitStage::ListingFiles, action: CommitAction::ListFiles }
            }
        },
        (CommitStage::ConfirmingRetry, CommitSignal::Answered(answer)) => match answer {
            Some(true) => CommitMove { stage: CommitStage::Done, action: CommitAction::Retry },
            Some(false) => CommitMove {
                stage: CommitStage::ListingFiles,
                action: CommitAction::ListFiles,
            },
            None => abort(),
        },
        (CommitStage::ListingFiles, CommitSignal::Staged { nothing_staged, can_build }) => {
            if nothing_staged {
                CommitMove {
                    stage: CommitStage::ConfirmingEmpty { can_build },
                    action: CommitAction::AskEmpty,
                }
            } else {
                heading(can_build)
            }
        },
        (CommitStage::ConfirmingEmpty { can_build }, CommitSignal::Answered(answer)) => {
            if answer == Some(false) {
                CommitMove { stage: CommitStage::Done, action: CommitAction::Finish }
            } else {
                heading(can_build)
            }
        },
        (CommitStage::Heading { can_build }, CommitSignal::Shown) => proposal_phase(
            facts,
            can_build,
        ),
        (CommitStage::ConfirmingProposal, CommitSignal::Answered(answer)) => match answer {
            Some(true) => template_phase(facts),
            Some(false) => CommitMove {
                stage: CommitStage::AskingIssueId,
                action: CommitAction::AskIssueId,
            },
            None => abort(),
        },
        (CommitStage::AskingIssueId, CommitSignal::Entered) => CommitMove {
            stage: CommitStage::AskingTeamPrefix,
            action: CommitAction::AskTeamPrefix,
        },
        (CommitStage::AskingTeamPrefix, CommitSignal::Entered) => CommitMove {
            stage: CommitStage::AskingType,
            action: CommitAction::AskType,
        },
        (CommitStage::AskingType, CommitSignal::Entered) => CommitMove {
            stage: CommitStage::AskingMessage,
            action: CommitAction::AskMessage,
        },
        (CommitStage::AskingMessage, CommitSignal::Entered) => CommitMove {
            stage: CommitStage::AskingAdditional,
            action: CommitAction::AskAdditional,
        },
        (CommitStage::AskingAdditional, CommitSignal::Answered(answer)) => match answer {
            Some(true) => CommitMove {
                stage: CommitStage::EnteringAdditional,
                action: CommitAction::EnterAdditional,
            },
            Some(false) => template_phase(facts),
            None => abort(),
        },
        (CommitStage::EnteringAdditional, CommitSignal::Entered) => template_phase(facts),
        (CommitStage::ConfirmingTemplate, CommitSignal::Answered(answer)) => match answer {
            Some(true) => CommitMove {
                stage: CommitStage::BuildingTemplate,
                action: CommitAction::BuildTemplate,
            },
            Some(false) => CommitMove {
                stage: CommitStage::ConfirmingCommit,
                action: CommitAction::AskCommit,
            },
            None => abort(),
        },
        (CommitStage::BuildingTemplate, CommitSignal::Built) => CommitMove {
            stage: CommitStage::ConfirmingCommit,
            action: CommitAction::AskCommit,
        },
        (CommitStage::ConfirmingCommit, CommitSignal::Answered(answer)) => match answer {
            Some(true) => CommitMove { stage: CommitStage::Done, action: CommitAction::CommitAndPush },
            Some(false) => CommitMove { stage: CommitStage::Done, action: CommitAction::Finish },
            None => abort(),
        },
        (CommitStage::Done, _) => CommitMove { stage: stage, action: CommitAction::Refuse },
        (CommitStage::Start, _) => CommitMove { stage: stage, action: CommitAction::Refuse },
        (_, CommitSignal::Failed) => abort(),
        _ => CommitMove { stage: stage, action: CommitAction::Refuse },
    }
}

fn to_template(facts: CommitFacts) -> (r: CommitMove)
    ensures
        r == template_phase(facts),
{
    if facts.ci_mode && !facts.has_template {
        CommitMove { stage: CommitStage::BuildingTemplate, action: CommitAction::BuildTemplate }
    } else {
        CommitMove {
            stage: CommitStage::ConfirmingTemplate,
            action: CommitAction::AskTemplate { default: facts.is_new_branch },
        }
    }
}

fn to_proposal(facts: CommitFacts, can_build: bool) -> (r: CommitMove)
    ensures
        r == proposal_phase(facts, can_build),
{
    if !can_build {
        CommitMove { stage: CommitStage::AskingIssueId, action: CommitAction::AskIssueId }
    } else if facts.ci_mode {
        CommitMove { stage: CommitStage::ConfirmingProposal, action: CommitAction::AcceptProposal }
    } else {
        CommitMove { stage: CommitStage::ConfirmingProposal, action: CommitAction::AskProposal }
    }
}

/// Decides the next step of the commit command: given where it stands and
/// what happened, says where it stands now and what to do next.
pub fn commit(facts: CommitFacts, stage: CommitStage, event: CommitSignal) -> (r: CommitMove)
    ensures
        r == commit_move(facts, stage, event),
{
    let refuse = CommitMove { stage: stage, action: CommitAction::Refuse };
    let leave = CommitMove { stage: CommitStage::Done, action: CommitAction::Abort };
    let list = CommitMove { stage: CommitStage::ListingFiles, action: CommitAction::ListFiles };
    let enter = CommitMove { stage: CommitStage::AskingIssueId, action: CommitAction::AskIssueId };
    let ask_commit = CommitMove {
        stage: CommitStage::ConfirmingCommit,
        action: CommitAction::AskCommit,
    };
    let build = CommitMove {
        stage: CommitStage::BuildingTemplate,
        action: CommitAction::BuildTemplate,
    };
    match stage {
        CommitStage::Start => match event {
            CommitSignal::Begin => {
                if facts.show_pr_template {
                    CommitMove { stage: CommitStage::Done, action: CommitAction::ShowTemplate }
                } else if facts.use_claude && !facts.has_message {
                    CommitMove { stage: CommitStage::Drafting, action: CommitAction::AskAssistant }
                } else if !facts.is_new_branch {
                    CommitMove { stage: CommitStage::Resuming, action: CommitAction::LoadSession }
                } else {
                    list
                }
            },
            _ => refuse,
        },
        CommitStage::Done => refuse,
        CommitStage::Drafting => match event {
            CommitSignal::Drafted => to_template(facts),
            CommitSignal::Failed => leave,
            _ => refuse,
        },
        CommitStage::Resuming => match event {
            CommitSignal::Loaded { pending } => {
                if pending {
                    CommitMove { stage: CommitStage::ConfirmingRetry, action: CommitAction::AskRetry }
                } else {
                    list
                }
            },
            CommitSignal::Failed => leave,
            _ => refuse,
        },
        CommitStage::ConfirmingRetry => match event {
            CommitSignal::Answered(Some(true)) => CommitMove {
                stage: CommitStage::Done,
                action: CommitAction::Retry,
            },
            CommitSignal::Answered(Some(false)) => list,
            CommitSignal::Answered(None) => leave,
            CommitSignal::Failed => leave,
            _ => refuse,
        },
        CommitStage::ListingFiles => match event {
            CommitSignal::Staged { nothing_staged, can_build } => {
                if nothing_staged {
                    CommitMove {
                        stage: CommitStage::ConfirmingEmpty { can_build },
                        action: CommitAction::AskEmpty,
                    }
                } else {
                    CommitMove {
                        stage: CommitStage::Heading { can_build },
                        action: CommitAction::ShowHeader,
                    }
                }
            },
            CommitSignal::Failed => leave,
            _ => refuse,
        },
        CommitStage::ConfirmingEmpty { can_build } => match event {
            CommitSignal::Answered(Some(false)) => CommitMove {
                stage: CommitStage::Done,
                action: CommitAction::Finish,
            },
            CommitSignal::Answered(_) => CommitMove {
                stage: CommitStage::Heading { can_build },
                action: CommitAction::ShowHeader,
            },
            CommitSignal::Failed => leave,
            _ => refuse,
        },
        CommitStage::Heading { can_build } => match event {
            CommitSignal::Shown => to_proposal(facts, can_build),
            CommitSignal::Failed => leave,
            _ => refuse,
        },
        CommitStage::ConfirmingProposal => match event {
            CommitSignal::Answered(Some(true)) => to_template(facts),
            CommitSignal::Answered(Some(false)) => enter,
            CommitSignal::Answered(None) => leave,
            CommitSignal::Failed => leave,
            _ => refuse,
        },
        CommitStage::AskingIssueId => match event {
            CommitSignal::Entered => CommitMove {
                stage: CommitStage::AskingTeamPrefix,
                action: CommitAction::AskTeamPrefix,
            },
            CommitSignal::Failed => leave,
            _ => refuse,
        },
        CommitStage::AskingTeamPrefix => match event {
            CommitSignal::Entered => CommitMove {
                stage: CommitStage::AskingType,
                action: CommitAction::AskType,
            },
            CommitSignal::Failed => leave,
            _ => refuse,
        },
        CommitStage::AskingType => match event {
            CommitSignal::Entered => CommitMove {
                stage: CommitStage::AskingMessage,
                action: CommitAction::AskMessage,
            },
            CommitSignal::Failed => leave,
            _ => refuse,
        },
        CommitStage::AskingMessage => match event {
            CommitSignal::Entered => CommitMove {
                stage: CommitStage::AskingAdditional,
                action: CommitAction::AskAdditional,
            },
            CommitSignal::Failed => leave,
            _ => refuse,
        },
        CommitStage::AskingAdditional => match event {
            CommitSignal::Answered(Some(true)) => CommitMove {
                stage: CommitStage::EnteringAdditional,
                action: CommitAction::EnterAdditional,
            },
            CommitSignal::Answered(Some(false)) => to_template(facts),
            CommitSignal::Answered(None) => leave,
            CommitSignal::Failed => leave,
            _ => refuse,
        },
        CommitStage::EnteringAdditional => match event {
            CommitSignal::Entered => to_template(facts),
            CommitSignal::Failed => leave,
            _ => refuse,
        },
        CommitStage::ConfirmingTemplate => match event {
            CommitSignal::Answered(Some(true)) => build,
            CommitSignal::Answered(Some(false)) => ask_commit,
            CommitSignal::Answered(None) => leave,
            CommitSignal::Failed => leave,
            _ => refuse,
        },
        CommitStage::BuildingTemplate => match event {
            CommitSignal::Built => ask_commit,
            CommitSignal::Failed => leave,
            _ => refuse,
        },
        CommitStage::ConfirmingCommit => match event {
            CommitSignal::Answered(Some(true)) => CommitMove {
                stage: CommitStage::Done,
                action: CommitAction::CommitAndPush,
            },
            CommitSignal::Answered(Some(false)) => CommitMove {
                stage: CommitStage::Done,
                action: CommitAction::Finish,
            },
            CommitSignal::Answered(None) => leave,
            CommitSignal::Failed => leave,
            _ => refuse,
        },
    }
}

/// A failed commit of an earlier run is offered for a retry before the
/// staged files are classified: on a branch with a stored session, and
/// without a draft by the assistant, the session is loaded first, and the
/// files are listed only once it shows no failure or the user declines.
pub proof fn lemma_retry_comes_first(facts: CommitFacts)
    requires
        !facts.show_pr_template,
        !facts.is_new_branch,
        !(facts.use_claude && !facts.has_message),
    ensures
        commit_move(facts, CommitStage::Start, CommitSignal::Begin).action
            == CommitAction::LoadSession,
        commit_move(facts, CommitStage::Resuming, CommitSignal::Loaded { pending: true }).action
            == CommitAction::AskRetry,
        commit_move(facts, CommitStage::ConfirmingRetry, CommitSignal::Answered(Some(true))).action
            == CommitAction::Retry,
        commit_move(facts, CommitStage::ConfirmingRetry, CommitSignal::Answered(Some(false))).action
            == CommitAction::ListFiles,
        commit_move(facts, CommitStage::Resuming, CommitSignal::Loaded { pending: false }).action
            == CommitAction::ListFiles,
{
}

} // verus!

//! Decisions of the ticket commands.

use vstd::prelude::*;
use vstd::string::StringExecFns;
use crate::search::{
    contains, contains_text, ends_with, has_prefix, has_suffix, lines, lines_of, remove_all,
    split_chars, split_on, starts_with, views, without_text,
};
use crate::storage::{BranchSession, BranchYamlConfig};
use crate::text::{
    alphanumeric, chars_of, debug_of, debug_text, first_chars, given, is_alphanumeric, is_space,
    is_whitespace, lowercase, lowercase_of, same_text, string_of_first, string_of_range,
};

verus! {

/// The tracker that issues are read from.
#[derive(Debug, Clone, Copy, PartialEq, Eq, Structural)]
pub enum IssueManagementTool {
    GitHub,
    Clickup,
}

/// How the tracker is settled.
#[derive(Debug, Clone, Copy, PartialEq, Eq, Structural)]
pub enum ToolChoice {
    /// No key opens a tracker: the command cannot go on.
    Missing,
    /// One tracker is open.
    Only(IssueManagementTool),
    /// Both are open: the user selects.
    Ask,
}

/// Whether a key is given and not empty.
pub open spec fn key_given(key: Option<Seq<char>>) -> bool {
    key matches Some(k) && k.len() > 0
}

/// How the tracker is settled for the given keys. GitHub counts as open
/// where no token is given, since the GitHub CLI then signs in by itself.
pub open spec fn tool_choice(github_api_token: Option<Seq<char>>, clickup_api_key: Option<Seq<char>>) -> ToolChoice {
    let has_github = !key_given(github_api_token);
    let has_clickup = key_given(clickup_api_key);
    if has_github && has_clickup {
        ToolChoice::Ask
    } else if has_github {
        ToolChoice::Only(IssueManagementTool::GitHub)
    } else if has_clickup {
        ToolChoice::Only(IssueManagementTool::Clickup)
    } else {
        ToolChoice::Missing
    }
}

/// Settles the tracker for the given keys.
pub fn define_issue_management_tool(github_api_token: Option<&str>, clickup_api_key: Option<&str>) -> (r:
    ToolChoice)
    ensures
        r == tool_choice(given(github_api_token), given(clickup_api_key)),
{
    let has_github = match github_api_token {
        Some(k) => k.is_empty(),
        None => true,
    };
    let has_clickup = match clickup_api_key {
        Some(k) => !k.is_empty(),
        None => false,
    };
    if has_github && has_clickup {
        ToolChoice::Ask
    } else if has_github {
        ToolChoice::Only(IssueManagementTool::GitHub)
    } else if has_clickup {
        ToolChoice::Only(IssueManagementTool::Clickup)
    } else {
        ToolChoice::Missing
    }
}

/// The most characters of an issue's name that a branch name takes.
pub const SLUG_CHARS: usize = 50;

/// What a branch name keeps of a character, given whether it is a letter or
/// a number: white space becomes a dash, a letter, a number and a dash stay,
/// and anything else is dropped.
pub open spec fn kept_char(c: char, letter_or_number: bool) -> Option<char> {
    if is_space(c) {
        Some('-')
    } else if letter_or_number || c == '-' {
        Some(c)
    } else {
        None
    }
}

/// What a branch name keeps of a character, given whether it is a letter or
/// a number.
pub fn slug_char(c: char, letter_or_number: bool) -> (r: Option<char>)
    ensures
        r == kept_char(c, letter_or_number),
{
    if is_whitespace(c) {
        Some('-')
    } else if letter_or_number || c == '-' {
        Some(c)
    } else {
        None
    }
}

/// The characters that a branch name keeps of `s`, in order.
pub open spec fn slug_chars(s: Seq<char>) -> Seq<char>
    decreases s.len(),
{
    if s.len() == 0 {
        Seq::empty()
    } else {
        match kept_char(s.last(), alphanumeric(s.last())) {
            Some(c) => slug_chars(s.drop_last()).push(c),
            None => slug_chars(s.drop_last()),
        }
    }
}

/// The branch name for an issue: its id, a dash, and the first `SLUG_CHARS`
/// kept characters of its lowercased name.
pub open spec fn git_branch_of(issue_id: Seq<char>, lowered_name: Seq<char>) -> Seq<char> {
    issue_id + "-"@ + first_chars(slug_chars(lowered_name), SLUG_CHARS as nat)
}

/// The branch name for an issue, given its name in lowercase.
pub fn git_branch_from(issue_id: &str, lowered_name: &str) -> (r: String)
    ensures
        r@ == git_branch_of(issue_id@, lowered_name@),
{
    let chars = chars_of(lowered_name);
    let mut kept: Vec<char> = Vec::new();
    let mut i: usize = 0;
    while i < chars.len()
        invariant
            i <= chars.len(),
            kept@ == slug_chars(chars@.take(i as int)),
        decreases chars.len() - i,
    {
        proof {
            assert(chars@.take(i + 1).drop_last() == chars@.take(i as int));
            assert(chars@.take(i + 1).last() == chars@[i as int]);
        }
        let letter_or_number = is_alphanumeric(chars[i]);
        match slug_char(chars[i], letter_or_number) {
            Some(c) => kept.push(c),
            None => {},
        }
        i += 1;
    }
    assert(chars@.take(chars.len() as int) == chars@);
    let mut out = String::from_str(issue_id);
    out.append("-");
    out.append(string_of_first(&kept, SLUG_CHARS).as_str());
    out
}

/// The branch name for an issue.
pub fn create_git_branch(issue_id: &str, issue_name: &str) -> (r: String)
    ensures
        r@ == git_branch_of(issue_id@, lowercase_of(issue_name@)),
{
    git_branch_from(issue_id, lowercase(issue_name).as_str())
}

/// How the file of a session ends.
pub const SESSION_SUFFIX: &'static str = ".yaml";

/// Whether a file holds the session of a branch of the issue: its name
/// begins with the issue id and ends as a session file does.
pub open spec fn is_session_of(name: Seq<char>, issue_id: Seq<char>) -> bool {
    starts_with(name, issue_id) && ends_with(name, SESSION_SUFFIX@)
}

/// The indices of `names` at which a session of the issue stands.
pub open spec fn sessions_of(names: Seq<Seq<char>>, issue_id: Seq<char>) -> Seq<int>
    decreases names.len(),
{
    if names.len() == 0 {
        Seq::empty()
    } else if is_session_of(names.last(), issue_id) {
        sessions_of(names.drop_last(), issue_id).push(names.len() - 1)
    } else {
        sessions_of(names.drop_last(), issue_id)
    }
}

/// The files, by index, that hold a session of the issue.
pub fn matching_sessions(names: &Vec<String>, issue_id: &str) -> (r: Vec<usize>)
    ensures
        r@.map_values(|i: usize| i as int) == sessions_of(views(names@), issue_id@),
{
    let mut out: Vec<usize> = Vec::new();
    let ghost all = views(names@);
    let mut i: usize = 0;
    assert(all.take(0) =~= Seq::<Seq<char>>::empty());
    assert(out@.map_values(|i: usize| i as int) =~= Seq::<int>::empty());
    while i < names.len()
        invariant
            i <= names.len(),
            all == views(names@),
            out@.map_values(|i: usize| i as int) == sessions_of(all.take(i as int), issue_id@),
        decreases names.len() - i,
    {
        proof {
            assert(all.take(i + 1).drop_last() == all.take(i as int));
            assert(all.take(i + 1).last() == names@[i as int]@);
        }
        let name = names[i].as_str();
        if has_prefix(name, issue_id) && has_suffix(name, SESSION_SUFFIX) {
            proof {
                assert(out@.push(i).map_values(|i: usize| i as int) == out@.map_values(
                    |i: usize| i as int,
                ).push(i as int));
            }
            out.push(i);
        }
        i += 1;
    }
    assert(all.take(names.len() as int) == all);
    out
}

/// The branch of a session file: its name without the suffix. A name that
/// is nothing but the suffix is the branch itself.
pub open spec fn branch_of_file(name: Seq<char>) -> Seq<char> {
    if ends_with(name, SESSION_SUFFIX@) && name.len() > SESSION_SUFFIX@.len() {
        name.take(name.len() - SESSION_SUFFIX@.len())
    } else {
        name
    }
}

/// The branch of a session file.
pub fn session_branch(name: &str) -> (r: String)
    ensures
        r@ == branch_of_file(name@),
{
    let chars = chars_of(name);
    let suffix = chars_of(SESSION_SUFFIX);
    if has_suffix(name, SESSION_SUFFIX) && chars.len() > suffix.len() {
        string_of_range(&chars, 0, chars.len() - suffix.len())
    } else {
        assert(chars@.subrange(0, chars.len() as int) == chars@);
        string_of_range(&chars, 0, chars.len())
    }
}

/// What is asked of GitHub about an issue.
pub const ISSUE_FIELDS: &'static str =
    "assignees,author,body,closed,closedAt,closedByPullRequestsReferences,comments,createdAt,id,isPinned,labels,milestone,number,projectCards,reactionGroups,state,stateReason,title,updatedAt,url";

/// The command that shows an issue.
pub open spec fn issue_view_line(directory: Seq<char>, issue_id: Seq<char>) -> Seq<char> {
    "cd "@ + directory + " && gh issue view "@ + issue_id + " --json "@ + ISSUE_FIELDS@
}

/// The command that shows an issue.
pub fn issue_view_command(directory: &str, issue_id: &str) -> (r: String)
    ensures
        r@ == issue_view_line(directory@, issue_id@),
{
    let mut out = String::from_str("cd ");
    out.append(directory);
    out.append(" && gh issue view ");
    out.append(issue_id);
    out.append(" --json ");
    out.append(ISSUE_FIELDS);
    out
}

/// The question that asks the assistant to extend an issue.
pub const SUGGESTION_HEADER: &'static str =
    "You are a technical product manager.\nGiven the following  GitHub issue text, extend the issue to support the developer implementing it.\n\nAdd whatever could be useful:\n- debug steps;\n- file paths to potentially look into;\n- helpful notes to keep in mind;\n- whatever might be helpful context.\n\n\n\n\n\"";

/// How the assistant is told to implement an issue.
pub const IMPLEMENT_OPEN: &'static str =
    "Given the following issue description, implement all the changes required to the codebase:";

/// What the assistant is told for an issue and the hints on it: both as
/// quoted texts, each after a backslash and the letter n.
pub open spec fn implement_with_hints(description: Seq<char>, suggestion: Seq<char>) -> Seq<char> {
    IMPLEMENT_OPEN@ + "\\n"@ + debug_of(description) + "\\n"@ + debug_of(suggestion)
}

/// What the assistant is told for an issue and the hints on it.
pub fn implementation_prompt(description: &str, suggestion: &str) -> (r: String)
    ensures
        r@ == implement_with_hints(description@, suggestion@),
{
    let mut out = String::from_str(IMPLEMENT_OPEN);
    out.append("\\n");
    out.append(debug_text(description).as_str());
    out.append("\\n");
    out.append(debug_text(suggestion).as_str());
    out
}

/// What the assistant is told for an issue: its description as a quoted
/// text on a line of its own.
pub open spec fn implement_issue(description: Seq<char>) -> Seq<char> {
    IMPLEMENT_OPEN@ + "\n"@ + debug_of(description)
}

/// What the assistant is told for an issue.
pub fn issue_prompt(description: &str) -> (r: String)
    ensures
        r@ == implement_issue(description@),
{
    let mut out = String::from_str(IMPLEMENT_OPEN);
    out.append("\n");
    out.append(debug_text(description).as_str());
    out
}

/// Whether a line of git's configuration names a remote.
pub open spec fn names_remote(line: Seq<char>) -> bool {
    contains(line, "url"@) || contains(line, "remote"@)
}

/// The first line that names a remote.
pub open spec fn remote_line(lines: Seq<Seq<char>>) -> Option<Seq<char>>
    decreases lines.len(),
{
    if lines.len() == 0 {
        None
    } else if names_remote(lines[0]) {
        Some(lines[0])
    } else {
        remote_line(lines.drop_first())
    }
}

/// Owner and repository in a line that names a remote on GitHub: the last
/// two parts of its path, the repository without `.git`.
pub open spec fn owner_repo_in(line: Seq<char>) -> Option<Seq<char>> {
    let parts = split_on(line, '/');
    if contains(line, "github.com"@) && parts.len() >= 2 {
        Some(parts[parts.len() - 2] + "/"@ + remove_all(parts[parts.len() - 1], ".git"@))
    } else {
        None
    }
}

/// Owner and repository in git's configuration: read from the first line
/// that names a remote.
pub open spec fn owner_repo_of(config: Seq<char>) -> Option<Seq<char>> {
    match remote_line(lines_of(config)) {
        Some(line) => owner_repo_in(line),
        None => None,
    }
}

/// Owner and repository in git's configuration.
pub fn owner_repo(config: &str) -> (r: Option<String>)
    ensures
        match r {
            Some(found) => owner_repo_of(config@) == Some(found@),
            None => owner_repo_of(config@) is None,
        },
{
    let all = lines(config);
    let mut i: usize = 0;
    assert(views(all@).skip(0) == views(all@));
    while i < all.len()
        invariant
            i <= all.len(),
            remote_line(lines_of(config@)) == remote_line(views(all@).skip(i as int)),
        decreases all.len() - i,
    {
        proof {
            assert(views(all@).skip(i as int)[0] == all@[i as int]@);
            assert(views(all@).skip(i as int).drop_first() == views(all@).skip(i + 1));
        }
        let line = all[i].as_str();
        if contains_text(line, "url") || contains_text(line, "remote") {
            if !contains_text(line, "github.com") {
                return None;
            }
            let parts = split_chars(&chars_of(line), '/');
            if parts.len() < 2 {
                return None;
            }
            let n = parts.len();
            assert(views(parts@)[n - 2] == parts@[n - 2]@);
            assert(views(parts@)[n - 1] == parts@[n - 1]@);
            let mut out = String::from_str(parts[n - 2].as_str());
            out.append("/");
            let repo = without_text(&chars_of(parts[n - 1].as_str()), &chars_of(".git"));
            out.append(repo.as_str());
            return Some(out);
        }
        i += 1;
    }
    None
}

/// The commands of `ticket`.
#[derive(Debug, Clone, Copy, PartialEq, Eq, Structural)]
pub enum TicketCommand {
    UpdatePr,
    CreatePrTemplate,
    Create,
    Issues,
    Spaces,
    Issue,
}

/// The command with the given name.
pub open spec fn command_of(name: Seq<char>) -> Option<TicketCommand> {
    if name == "update_pr"@ {
        Some(TicketCommand::UpdatePr)
    } else if name == "create_pr_template"@ {
        Some(TicketCommand::CreatePrTemplate)
    } else if name == "create"@ {
        Some(TicketCommand::Create)
    } else if name == "issues"@ {
        Some(TicketCommand::Issues)
    } else if name == "spaces"@ {
        Some(TicketCommand::Spaces)
    } else if name == "issue"@ {
        Some(TicketCommand::Issue)
    } else {
        None
    }
}

/// The command with the given name; a name that is none of a command asks
/// for nothing.
pub fn ticket(subcommand: &str) -> (r: Option<TicketCommand>)
    ensures
        r == command_of(subcommand@),
{
    if same_text(subcommand, "update_pr") {
        Some(TicketCommand::UpdatePr)
    } else if same_text(subcommand, "create_pr_template") {
        Some(TicketCommand::CreatePrTemplate)
    } else if same_text(subcommand, "create") {
        Some(TicketCommand::Create)
    } else if same_text(subcommand, "issues") {
        Some(TicketCommand::Issues)
    } else if same_text(subcommand, "spaces") {
        Some(TicketCommand::Spaces)
    } else if same_text(subcommand, "issue") {
        Some(TicketCommand::Issue)
    } else {
        None
    }
}

/// Where the work on an issue stands.
#[derive(Debug, Clone, Copy, PartialEq, Eq, Structural)]
pub enum IssueStage {
    Start,
    Loading,
    Fetching,
    Suggesting,
    Done,
}

/// What happened since the last step of the work on an issue.
#[derive(Debug, Clone, Copy, PartialEq, Eq, Structural)]
pub enum IssueSignal {
    /// The work is asked for; so many files hold a session of the issue.
    Begin { sessions: usize },
    /// The session was looked up: whether it can be read, and whether it
    /// holds a description and hints.
    Loaded { found: bool, has_description: bool, has_suggestion: bool },
    /// The issue was fetched: whether it has a name and a description.
    Fetched { has_name: bool, has_description: bool },
    /// The assistant gave its hints.
    Suggested,
    /// What was asked for could not be done.
    Failed,
}

/// What is to be done next for an issue.
#[derive(Debug, Clone, Copy, PartialEq, Eq, Structural)]
pub enum IssueAction {
    /// Say that several sessions were found, and leave with an error.
    ReportSeveral,
    /// Load the one session that was found.
    LoadSession,
    /// Fetch the issue from GitHub.
    FetchIssue,
    /// Name the branch, save the issue in its session, and ask the assistant
    /// for hints.
    SaveAndSuggest,
    /// Ask the assistant for hints.
    Suggest,
    /// Save the hints and let the assistant implement the issue.
    SaveAndImplement,
    /// Let the assistant implement the issue.
    Implement,
    /// Leave with an error.
    Abort,
    /// The event does not belong to the stage: nothing is done.
    Refuse,
}

/// One step of the work on an issue.
#[derive(Debug, Clone, Copy, PartialEq, Eq, Structural)]
pub struct IssueMove {
    pub stage: IssueStage,
    pub action: IssueAction,
}

/// The step that an event leads to from a stage of the work on an issue.
/// Several sessions for one issue end the work. A session that is found
/// spares the fetch, and stored hints spare the question to the assistant.
/// Without a name the branch cannot be named, and without a description
/// nothing can be asked: both end the work.
pub open spec fn issue_move(stage: IssueStage, event: IssueSignal) -> IssueMove {
    match (stage, event) {
        (IssueStage::Start, IssueSignal::Begin { sessions }) => {
            if sessions > 1 {
                IssueMove { stage: IssueStage::Done, action: IssueAction::ReportSeveral }
            } else if sessions == 1 {
                IssueMove { stage: IssueStage::Loading, action: IssueAction::LoadSession }
            } else {
                IssueMove { stage: IssueStage::Fetching, action: IssueAction::FetchIssue }
            }
        },
        (IssueStage::Loading, IssueSignal::Loaded { found, has_description, has_suggestion }) => {
            if !found {
                IssueMove { stage: IssueStage::Fetching, action: IssueAction::FetchIssue }
            } else if !has_description {
                IssueMove { stage: IssueStage::Done, action: IssueAction::Abort }
            } else if has_suggestion {
                IssueMove { stage: IssueStage::Done, action: IssueAction::Implement }
            } else {
                IssueMove { stage: IssueStage::Suggesting, action: IssueAction::Suggest }
            }
        },
        (IssueStage::Fetching, IssueSignal::Fetched { has_name, has_description }) => {
            if has_name && has_description {
                IssueMove { stage: IssueStage::Suggesting, action: IssueAction::SaveAndSuggest }
            } else {
                IssueMove { stage: IssueStage::Done, action: IssueAction::Abort }
            }
        },
        (IssueStage::Suggesting, IssueSignal::Suggested) => IssueMove {
            stage: IssueStage::Done,
            action: IssueAction::SaveAndImplement,
        },
        (IssueStage::Start, _) => IssueMove { stage: stage, action: IssueAction::Refuse },
        (IssueStage::Done, _) => IssueMove { stage: stage, action: IssueAction::Refuse },
        (_, IssueSignal::Failed) => IssueMove { stage: IssueStage::Done, action: IssueAction::Abort },
        _ => IssueMove { stage: stage, action: IssueAction::Refuse },
    }
}

/// Decides the next step of the work on an issue.
pub fn automation_from_issue_id(stage: IssueStage, event: IssueSignal) -> (r: IssueMove)
    ensures
        r == issue_move(stage, event),
{
    let refuse = IssueMove { stage: stage, action: IssueAction::Refuse };
    let leave = IssueMove { stage: IssueStage::Done, action: IssueAction::Abort };
    let fetch = IssueMove { stage: IssueStage::Fetching, action: IssueAction::FetchIssue };
    match stage {
        IssueStage::Start => match event {
            IssueSignal::Begin { sessions } => {
                if sessions > 1 {
                    IssueMove { stage: IssueStage::Done, action: IssueAction::ReportSeveral }
                } else if sessions == 1 {
                    IssueMove { stage: IssueStage::Loading, action: IssueAction::LoadSession }
                } else {
                    fetch
                }
            },
            _ => refuse,
        },
        IssueStage::Loading => match event {
            IssueSignal::Loaded { found, has_description, has_suggestion } => {
                if !found {
                    fetch
                } else if !has_description {
                    leave
                } else if has_suggestion {
                    IssueMove { stage: IssueStage::Done, action: IssueAction::Implement }
                } else {
                    IssueMove { stage: IssueStage::Suggesting, action: IssueAction::Suggest }
                }
            },
            IssueSignal::Failed => leave,
            _ => refuse,
        },
        IssueStage::Fetching => match event {
            IssueSignal::Fetched { has_name, has_description } => {
                if has_name && has_description {
                    IssueMove { stage: IssueStage::Suggesting, action: IssueAction::SaveAndSuggest }
                } else {
                    leave
                }
            },
            IssueSignal::Failed => leave,
            _ => refuse,
        },
        IssueStage::Suggesting => match event {
            IssueSignal::Suggested => IssueMove {
                stage: IssueStage::Done,
                action: IssueAction::SaveAndImplement,
            },
            IssueSignal::Failed => leave,
            _ => refuse,
        },
        IssueStage::Done => refuse,
    }
}

} // verus!

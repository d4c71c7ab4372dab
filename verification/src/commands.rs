//! The shell commands that the tool runs, as text.

use vstd::prelude::*;
use vstd::string::StringExecFns;
use crate::search::views;
use crate::text::{append_wrapped, given, wrapped_lines};

verus! {

/// `rest`, run in `directory`.
pub open spec fn in_directory(directory: Seq<char>, rest: Seq<char>) -> Seq<char> {
    "cd "@ + directory + " && "@ + rest
}

/// The flag that skips the git hooks, where it is asked for.
pub open spec fn skip_hooks_flag(skip_hooks: bool) -> Seq<char> {
    if skip_hooks {
        " --no-verify"@
    } else {
        Seq::empty()
    }
}

fn begin(directory: &str, rest: &str) -> (r: String)
    ensures
        r@ == in_directory(directory@, rest@),
{
    let mut out = String::from_str("cd ");
    out.append(directory);
    out.append(" && ");
    out.append(rest);
    out
}

fn append_skip_flag(out: &mut String, skip_hooks: bool)
    ensures
        final(out)@ == old(out)@ + skip_hooks_flag(skip_hooks),
{
    if skip_hooks {
        out.append(" --no-verify");
    } else {
        assert(out@ + Seq::<char>::empty() == out@);
    }
}

/// Asks git for the root of the repository.
pub fn top_level_command(directory: &str) -> (r: String)
    ensures
        r@ == in_directory(directory@, "git rev-parse --show-toplevel"@),
{
    begin(directory, "git rev-parse --show-toplevel")
}

/// Asks git for the name of the current branch.
pub fn git_branch_command(directory: &str) -> (r: String)
    ensures
        r@ == in_directory(directory@, "git rev-parse --abbrev-ref HEAD"@),
{
    begin(directory, "git rev-parse --abbrev-ref HEAD")
}

/// Asks git for the paths of the staged files.
pub fn changed_files_command(directory: &str) -> (r: String)
    ensures
        r@ == in_directory(directory@, "git diff --cached --name-only"@),
{
    begin(directory, "git diff --cached --name-only")
}

/// Asks git for the address of the remote `origin`.
pub fn origin_command(directory: &str) -> (r: String)
    ensures
        r@ == in_directory(directory@, "git remote get-url origin"@),
{
    begin(directory, "git remote get-url origin")
}

/// Asks the GitHub CLI for the pull request of the current branch.
pub fn pr_view_command(directory: &str) -> (r: String)
    ensures
        r@ == in_directory(directory@, "gh pr view"@),
{
    begin(directory, "gh pr view")
}

/// The commit command: the message, the flag that skips the hooks where it
/// is asked for, and one more `-m` for every additional message.
pub open spec fn commit_line(
    directory: Seq<char>,
    message: Seq<char>,
    additional: Seq<Seq<char>>,
    skip_hooks: bool,
) -> Seq<char> {
    in_directory(directory, "git commit -m  \""@) + message + "\""@ + skip_hooks_flag(skip_hooks)
        + wrapped_lines(additional, " -m \""@, "\""@)
}

/// Commits what is staged.
pub fn commit_command(
    directory: &str,
    commit_message: &str,
    additional_commit_message: &Vec<String>,
    skip_hooks: bool,
) -> (r: String)
    ensures
        r@ == commit_line(directory@, commit_message@, views(additional_commit_message@), skip_hooks),
{
    let mut out = begin(directory, "git commit -m  \"");
    out.append(commit_message);
    out.append("\"");
    append_skip_flag(&mut out, skip_hooks);
    append_wrapped(&mut out, additional_commit_message, " -m \"", "\"");
    out
}

/// The push command.
pub open spec fn push_line(directory: Seq<char>, skip_hooks: bool) -> Seq<char> {
    in_directory(directory, "git push"@) + skip_hooks_flag(skip_hooks)
}

/// Pushes the branch.
pub fn push_command(directory: &str, skip_hooks: bool) -> (r: String)
    ensures
        r@ == push_line(directory@, skip_hooks),
{
    let mut out = begin(directory, "git push");
    append_skip_flag(&mut out, skip_hooks);
    out
}

/// What is printed before the branch is pushed.
pub open spec fn push_announcement(skip_hooks: bool) -> Seq<char> {
    "Pushing branch."@ + if skip_hooks {
        " Skipping pre-push hooks."@
    } else {
        " This might take some time depending on the pre-push hooks."@
    }
}

/// What is printed before the branch is pushed.
pub fn push_message(skip_hooks: bool) -> (r: String)
    ensures
        r@ == push_announcement(skip_hooks),
{
    let mut out = String::from_str("Pushing branch.");
    if skip_hooks {
        out.append(" Skipping pre-push hooks.");
    } else {
        out.append(" This might take some time depending on the pre-push hooks.");
    }
    out
}

/// The command that lists the heads of `origin` that match a branch.
pub open spec fn remote_heads_line(directory: Seq<char>, branch: Seq<char>) -> Seq<char> {
    in_directory(directory, "git ls-remote --heads origin "@) + branch
}

/// Asks git whether the branch exists on `origin`.
pub fn remote_heads_command(directory: &str, git_branch: &str) -> (r: String)
    ensures
        r@ == remote_heads_line(directory@, git_branch@),
{
    let mut out = begin(directory, "git ls-remote --heads origin ");
    out.append(git_branch);
    out
}

/// The push command that sets the upstream branch.
pub open spec fn upstream_push_line(directory: Seq<char>, branch: Seq<char>, skip_hooks: bool) -> Seq<
    char,
> {
    in_directory(directory, "git push --set-upstream origin "@) + branch + skip_hooks_flag(
        skip_hooks,
    )
}

/// Pushes the branch and sets it as upstream on `origin`.
pub fn upstream_push_command(directory: &str, git_branch: &str, skip_hooks: bool) -> (r: String)
    ensures
        r@ == upstream_push_line(directory@, git_branch@, skip_hooks),
{
    let mut out = begin(directory, "git push --set-upstream origin ");
    out.append(git_branch);
    append_skip_flag(&mut out, skip_hooks);
    out
}

/// The title of a pull request without a commit message.
pub const DEFAULT_PR_TITLE: &'static str = "Default PR Title";

/// The stored text, or `fallback` where none is stored.
pub open spec fn text_or(text: Option<Seq<char>>, fallback: Seq<char>) -> Seq<char> {
    match text {
        Some(t) => t,
        None => fallback,
    }
}

/// The command that creates a pull request: the template is its body, the
/// commit message its title.
pub open spec fn create_pr_line(
    directory: Seq<char>,
    commit_message: Option<Seq<char>>,
    pr_template: Option<Seq<char>>,
) -> Seq<char> {
    in_directory(directory, "gh pr create -a @me --body \""@) + text_or(pr_template, Seq::empty())
        + "\" -t \""@ + text_or(commit_message, DEFAULT_PR_TITLE@) + "\""@
}

/// Creates a pull request for the branch.
pub fn create_pr_command(
    directory: &str,
    commit_message: Option<&str>,
    pr_template: Option<&str>,
) -> (r: String)
    ensures
        r@ == create_pr_line(directory@, given(commit_message), given(pr_template)),
{
    let mut out = begin(directory, "gh pr create -a @me --body \"");
    match pr_template {
        Some(t) => out.append(t),
        None => {
            assert(out@ + Seq::<char>::empty() == out@);
        },
    }
    out.append("\" -t \"");
    match commit_message {
        Some(m) => out.append(m),
        None => out.append(DEFAULT_PR_TITLE),
    }
    out.append("\"");
    out
}

} // verus!

//! The GitHub CLI: whether it is there and signed in.

use vstd::prelude::*;
use crate::search::{contains, contains_text};

verus! {

/// What `gh auth status` prints for an account that is signed in.
pub const SIGNED_IN: &'static str = "Logged in to github.com account";

/// What is printed where the GitHub CLI is not installed.
pub const NOT_INSTALLED: &'static str =
    "\x1b[31mGitHub CLI is not installed.\x1b[0m It's required to perform operations such as creating PRs. You can install it following the steps in https://cli.github.com/.";

/// What the user is asked where the GitHub CLI is not installed.
pub const CONTINUE_WITHOUT: &'static str = "Continue without GitHub CLI?";

/// Whether the GitHub CLI is signed in, given what `gh auth status` printed.
pub fn validate_gh(stdout: &str) -> (r: bool)
    ensures
        r == contains(stdout@, SIGNED_IN@),
{
    contains_text(stdout, SIGNED_IN)
}

/// What follows where the GitHub CLI could not be run.
#[derive(Debug, Clone, Copy, PartialEq, Eq, Structural)]
pub enum WithoutGh {
    /// Go on without it.
    Continue,
    /// Leave with this exit code.
    Exit(i32),
}

/// What follows the answer to `CONTINUE_WITHOUT`: an agreement goes on, a
/// refusal leaves in order, and a question that could not be asked leaves
/// with an error.
pub open spec fn without_gh(answer: Option<bool>) -> WithoutGh {
    match answer {
        Some(true) => WithoutGh::Continue,
        Some(false) => WithoutGh::Exit(0),
        None => WithoutGh::Exit(1),
    }
}

/// What follows the answer to `CONTINUE_WITHOUT`.
pub fn continue_without_gh(answer: Option<bool>) -> (r: WithoutGh)
    ensures
        r == without_gh(answer),
{
    match answer {
        Some(true) => WithoutGh::Continue,
        Some(false) => WithoutGh::Exit(0),
        None => WithoutGh::Exit(1),
    }
}

} // verus!

//! The sequence of commit and push.

use vstd::prelude::*;
use crate::branch_utils::{command_failed, failed};

verus! {

/// Where a commit-and-push stands.
#[derive(Debug, Clone, Copy, PartialEq, Eq, Structural)]
pub enum CommitState {
    Start,
    Committing,
    AskingPush,
    Pushing,
    Done,
}

/// What happened since the last step.
#[derive(Debug, Clone, Copy, PartialEq, Eq)]
pub enum CommitEvent {
    /// The sequence is asked for.
    Begin,
    /// The commit ran and its outcome is recorded in the session.
    Committed(Option<i32>),
    /// The commit could not be run or recorded.
    NotRun,
    /// The user answered, or the question could not be asked.
    Answered(Option<bool>),
    /// The push is over.
    Pushed(Option<i32>),
}

/// What is to be done next.
#[derive(Debug, Clone, Copy, PartialEq, Eq, Structural)]
pub enum CommitAction {
    /// Run the commit and record its outcome in the session.
    Commit,
    /// Ask whether to push the branch.
    AskPush,
    /// Push the branch.
    Push,
    /// The sequence is over.
    Finish,
    /// Leave with an error.
    Abort,
    /// The event does not belong to the state: nothing is done.
    Refuse,
}

/// What is to be said before the next action.
#[derive(Debug, Clone, Copy, PartialEq, Eq, Structural)]
pub enum CommitNote {
    Nothing,
    Running,
    CommitFailed,
    TemplateAvailable,
}

impl CommitNote {
    /// The line that the note prints.
    pub open spec fn line(self) -> Seq<char> {
        match self {
            CommitNote::Nothing => Seq::empty(),
            CommitNote::Running =>
                "Running git commit. This might take some time depending on the pre-commit hooks."@,
            CommitNote::CommitFailed =>
                "\n\x1b[1;31mCommit failed. Please fix the issue before commiting.\x1b[1;0m\n\n"@,
            CommitNote::TemplateAvailable =>
                "\x1b[1;32mThere is a PR template available.\x1b[1;0m Use `commit --show-pr-template` to display it."@,
        }
    }

    /// The line that the note prints.
    pub fn text(&self) -> (r: &'static str)
        ensures
            r@ == self.line(),
    {
        match self {
            CommitNote::Nothing => {
                proof {
                    reveal_strlit("");
                }
                assert(""@ =~= Seq::<char>::empty());
                ""
            },
            CommitNote::Running =>
                "Running git commit. This might take some time depending on the pre-commit hooks.",
            CommitNote::CommitFailed =>
                "\n\x1b[1;31mCommit failed. Please fix the issue before commiting.\x1b[1;0m\n\n",
            CommitNote::TemplateAvailable =>
                "\x1b[1;32mThere is a PR template available.\x1b[1;0m Use `commit --show-pr-template` to display it.",
        }
    }
}

/// One step: the state it leads to, what is said, what is done.
#[derive(Debug, Clone, Copy, PartialEq, Eq, Structural)]
pub struct CommitStep {
    pub state: CommitState,
    pub note: CommitNote,
    pub action: CommitAction,
}

/// The step that an event leads to. A commit that failed, or that gave no
/// exit code, ends the sequence with an error: nothing is pushed after it.
/// After a commit that succeeded the branch is pushed, at once where prompts
/// are answered by default, else where the user agrees.
pub open spec fn commit_step(ci_mode: bool, has_template: bool, state: CommitState, event: CommitEvent) -> CommitStep {
    match (state, event) {
        (CommitState::Start, CommitEvent::Begin) => CommitStep {
            state: CommitState::Committing,
            note: CommitNote::Running,
            action: CommitAction::Commit,
        },
        (CommitState::Committing, CommitEvent::Committed(code)) => {
            if command_failed(code) {
                CommitStep {
                    state: CommitState::Done,
                    note: CommitNote::CommitFailed,
                    action: CommitAction::Abort,
                }
            } else {
                let note = if has_template {
                    CommitNote::TemplateAvailable
                } else {
                    CommitNote::Nothing
                };
                if ci_mode {
                    CommitStep { state: CommitState::Pushing, note, action: CommitAction::Push }
                } else {
                    CommitStep { state: CommitState::AskingPush, note, action: CommitAction::AskPush }
                }
            }
        },
        (CommitState::Committing, CommitEvent::NotRun) => CommitStep {
            state: CommitState::Done,
            note: CommitNote::CommitFailed,
            action: CommitAction::Abort,
        },
        (CommitState::AskingPush, CommitEvent::Answered(answer)) => match answer {
            Some(true) => CommitStep {
                state: CommitState::Pushing,
                note: CommitNote::Nothing,
                action: CommitAction::Push,
            },
            Some(false) => CommitStep {
                state: CommitState::Done,
                note: CommitNote::Nothing,
                action: CommitAction::Finish,
            },
            None => CommitStep {
                state: CommitState::Done,
                note: CommitNote::Nothing,
                action: CommitAction::Abort,
            },
        },
        (CommitState::Pushing, CommitEvent::Pushed(code)) => CommitStep {
            state: CommitState::Done,
            note: CommitNote::Nothing,
            action: if code is Some {
                CommitAction::Finish
            } else {
                CommitAction::Abort
            },
        },
        _ => CommitStep { state: state, note: CommitNote::Nothing, action: CommitAction::Refuse },
    }
}

/// Decides the next step of a commit-and-push: given where it stands and
/// what happened, says where it stands now, what to say and what to do next.
pub fn commit_and_push(ci_mode: bool, has_template: bool, state: CommitState, event: CommitEvent) -> (r:
    CommitStep)
    ensures
        r == commit_step(ci_mode, has_template, state, event),
{
    let refuse = CommitStep { state: state, note: CommitNote::Nothing, action: CommitAction::Refuse };
    match state {
        CommitState::Start => match event {
            CommitEvent::Begin => CommitStep {
                state: CommitState::Committing,
                note: CommitNote::Running,
                action: CommitAction::Commit,
            },
            _ => refuse,
        },
        CommitState::Committing => match event {
            CommitEvent::Committed(code) => {
                if failed(code) {
                    CommitStep {
                        state: CommitState::Done,
                        note: CommitNote::CommitFailed,
                        action: CommitAction::Abort,
                    }
                } else {
                    let note = if has_template {
                        CommitNote::TemplateAvailable
                    } else {
                        CommitNote::Nothing
                    };
                    if ci_mode {
                        CommitStep { state: CommitState::Pushing, note, action: CommitAction::Push }
                    } else {
                        CommitStep {
                            state: CommitState::AskingPush,
                            note,
                            action: CommitAction::AskPush,
                        }
                    }
                }
            },
            CommitEvent::NotRun => CommitStep {
                state: CommitState::Done,
                note: CommitNote::CommitFailed,
                action: CommitAction::Abort,
            },
            _ => refuse,
        },
        CommitState::AskingPush => match event {
            CommitEvent::Answered(Some(true)) => CommitStep {
                state: CommitState::Pushing,
                note: CommitNote::Nothing,
                action: CommitAction::Push,
            },
            CommitEvent::Answered(Some(false)) => CommitStep {
                state: CommitState::Done,
                note: CommitNote::Nothing,
                action: CommitAction::Finish,
            },
            CommitEvent::Answered(None) => CommitStep {
                state: CommitState::Done,
                note: CommitNote::Nothing,
                action: CommitAction::Abort,
            },
            _ => refuse,
        },
        CommitState::Pushing => match event {
            CommitEvent::Pushed(Some(_)) => CommitStep {
                state: CommitState::Done,
                note: CommitNote::Nothing,
                action: CommitAction::Finish,
            },
            CommitEvent::Pushed(None) => CommitStep {
                state: CommitState::Done,
                note: CommitNote::Nothing,
                action: CommitAction::Abort,
            },
            _ => refuse,
        },
        CommitState::Done => refuse,
    }
}

/// A commit that fails is never followed by a push: from the state in which
/// the commit runs, a failure leads to the end with an error, whatever the
/// mode.
pub proof fn lemma_no_push_after_failed_commit(ci_mode: bool, has_template: bool, code: Option<i32>)
    requires
        command_failed(code),
    ensures
        commit_step(ci_mode, has_template, CommitState::Committing, CommitEvent::Committed(code))
            == (CommitStep {
            state: CommitState::Done,
            note: CommitNote::CommitFailed,
            action: CommitAction::Abort,
        }),
{
}

} // verus!

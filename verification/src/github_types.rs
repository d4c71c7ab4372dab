//! What the GitHub CLI reports of issues and project items.

use vstd::prelude::*;

verus! {

/// The milestone of an issue.
#[derive(Debug, Clone)]
pub struct Milestone {
    pub number: Option<u32>,
    pub title: Option<String>,
    pub description: Option<String>,
    pub due_on: Option<String>,
}

/// One item of a project board.
#[derive(Debug, Clone)]
pub struct GithubProjectItem {
    pub assignees: Option<Vec<String>>,
    pub content: Option<ProjectContent>,
    pub end_date: Option<String>,
    pub id: Option<String>,
    pub labels: Option<Vec<String>>,
    pub milestone: Option<ProjectMilestone>,
    pub repository: Option<String>,
    pub start_date: Option<String>,
    pub status: Option<String>,
    pub title: Option<String>,
    pub shipped_date: Option<String>,
}

/// The issue or pull request behind a project item.
#[derive(Debug, Clone)]
pub struct ProjectContent {
    pub body: Option<String>,
    pub number: Option<u32>,
    pub repository: Option<String>,
    pub title: Option<String>,
    pub content_type: Option<String>,
    pub url: Option<String>,
}

/// The milestone of a project item.
#[derive(Debug, Clone)]
pub struct ProjectMilestone {
    pub description: Option<String>,
    pub due_on: Option<String>,
    pub title: Option<String>,
}

/// The status column of a project item.
#[derive(Debug, Clone)]
pub struct GithubProjectStatus {
    pub option_id: Option<String>,
    pub name: Option<String>,
}

/// What `gh project item-list` prints.
#[derive(Debug, Clone)]
pub struct GithubProjectResponse {
    pub items: Option<Vec<GithubProjectItem>>,
    pub total_count: Option<i16>,
}

/// The title under which items without a milestone are listed.
pub const NO_MILESTONE: &'static str = "No milestone";

impl GithubProjectItem {
    /// The title of the item's milestone, or `NO_MILESTONE` where it has
    /// none.
    pub open spec fn milestone_title(self) -> Seq<char> {
        match self.milestone {
            Some(m) => match m.title {
                Some(t) => t@,
                None => NO_MILESTONE@,
            },
            None => NO_MILESTONE@,
        }
    }

    /// The title of the item's milestone, or `NO_MILESTONE` where it has
    /// none.
    pub fn milestone_name(&self) -> (r: &str)
        ensures
            r@ == self.milestone_title(),
    {
        match &self.milestone {
            Some(m) => match &m.title {
                Some(t) => t.as_str(),
                None => NO_MILESTONE,
            },
            None => NO_MILESTONE,
        }
    }
}

} // verus!

//! The records of the issue trackers: the spaces of a workspace, kept for the
//! whole repository.

use vstd::prelude::*;
use vstd::string::StringExecFns;
use crate::storage::{local_timestamp, text_view};

verus! {

/// A repository on GitHub.
#[derive(Debug, Clone)]
pub struct GithubSpace {
    pub id: i64,
    pub name: String,
    pub full_name: String,
    pub url: String,
    pub description: String,
}

/// The record of the GitHub repositories.
#[derive(Debug)]
pub struct GithubYamlConfig {
    pub github_spaces: Option<Vec<GithubSpace>>,
    pub created_at: String,
    pub updated_at: Option<String>,
}

/// The record of the ClickUp spaces.
#[derive(Debug)]
pub struct ClickupYamlConfig {
    pub clickup_spaces: Option<Vec<ClickupSpace>>,
    pub created_at: String,
    pub updated_at: Option<String>,
}

/// A space of a ClickUp workspace.
#[derive(Debug)]
pub struct ClickupSpace {
    pub id: String,
    pub name: String,
    pub priorities: Option<Vec<ClickupPriority>>,
    pub members: Option<Vec<ClickupMember>>,
    pub statuses: Option<Vec<ClickupStatus>>,
}

/// A task in ClickUp.
#[derive(Debug)]
pub struct ClickupTask {
    pub id: String,
}

/// A priority that a space offers.
#[derive(Debug)]
pub struct ClickupPriority {
    pub id: String,
    pub priority: String,
}

/// A status that a space offers.
#[derive(Debug)]
pub struct ClickupStatus {
    pub id: String,
    pub status: String,
    pub status_type: String,
}

/// A member of a space.
#[derive(Debug)]
pub struct ClickupMember {
    pub id: i64,
    pub username: String,
    pub initials: String,
}

/// The repositories fetched from GitHub.
pub struct GithubSpaceData {
    pub spaces: Vec<GithubSpace>,
}

/// The spaces fetched from ClickUp.
pub struct ClickupSpacesData {
    pub spaces: Vec<ClickupSpace>,
}

/// Whether `after` is the ClickUp record that a save at time `now` leaves:
/// the supplied spaces replace the stored ones, stored spaces stay where none
/// are supplied, the time of the first save stays, and the time of this one
/// is stamped.
pub open spec fn clickup_saved(
    stored: Option<ClickupYamlConfig>,
    spaces: Option<Vec<ClickupSpace>>,
    now: Seq<char>,
    after: ClickupYamlConfig,
) -> bool {
    &&& after.updated_at matches Some(stamp) && stamp@ == now
    &&& match stored {
        Some(record) => after.created_at == record.created_at && after.clickup_spaces == (
        if spaces is Some {
            spaces
        } else {
            record.clickup_spaces
        }),
        None => after.created_at@ == now && after.clickup_spaces == spaces,
    }
}

/// The ClickUp record after a save at time `now`.
pub fn merge_clickup_config(
    stored: Option<ClickupYamlConfig>,
    clickup_spaces: Option<Vec<ClickupSpace>>,
    now: &str,
) -> (r: ClickupYamlConfig)
    ensures
        clickup_saved(stored, clickup_spaces, now@, r),
{
    let mut record = match stored {
        Some(record) => record,
        None => ClickupYamlConfig {
            clickup_spaces: None,
            created_at: String::from_str(now),
            updated_at: None,
        },
    };
    if clickup_spaces.is_some() {
        record.clickup_spaces = clickup_spaces;
    }
    record.updated_at = Some(String::from_str(now));
    record
}

/// The ClickUp record after a save, stamped with the local time.
pub fn save_clickup_config(stored: Option<ClickupYamlConfig>, clickup_spaces: Option<Vec<ClickupSpace>>) -> (r:
    ClickupYamlConfig)
    ensures
        exists|now: Seq<char>| #[trigger] clickup_saved(stored, clickup_spaces, now, r),
{
    let now = local_timestamp();
    let r = merge_clickup_config(stored, clickup_spaces, now.as_str());
    assert(clickup_saved(stored, clickup_spaces, now@, r));
    r
}

/// Whether `after` is the GitHub record that a save at time `now` leaves.
pub open spec fn github_saved(
    stored: Option<GithubYamlConfig>,
    spaces: Option<Vec<GithubSpace>>,
    now: Seq<char>,
    after: GithubYamlConfig,
) -> bool {
    &&& after.updated_at matches Some(stamp) && stamp@ == now
    &&& match stored {
        Some(record) => after.created_at == record.created_at && after.github_spaces == (
        if spaces is Some {
            spaces
        } else {
            record.github_spaces
        }),
        None => after.created_at@ == now && after.github_spaces == spaces,
    }
}

/// The GitHub record after a save at time `now`.
pub fn merge_github_config(
    stored: Option<GithubYamlConfig>,
    github_spaces: Option<Vec<GithubSpace>>,
    now: &str,
) -> (r: GithubYamlConfig)
    ensures
        github_saved(stored, github_spaces, now@, r),
{
    let mut record = match stored {
        Some(record) => record,
        None => GithubYamlConfig {
            github_spaces: None,
            created_at: String::from_str(now),
            updated_at: None,
        },
    };
    if github_spaces.is_some() {
        record.github_spaces = github_spaces;
    }
    record.updated_at = Some(String::from_str(now));
    record
}

/// The GitHub record after a save, stamped with the local time.
pub fn save_github_config(stored: Option<GithubYamlConfig>, github_spaces: Option<Vec<GithubSpace>>) -> (r:
    GithubYamlConfig)
    ensures
        exists|now: Seq<char>| #[trigger] github_saved(stored, github_spaces, now, r),
{
    let now = local_timestamp();
    let r = merge_github_config(stored, github_spaces, now.as_str());
    assert(github_saved(stored, github_spaces, now@, r));
    r
}

/// The repositories of a stored record.
pub fn load_github_config(stored: Option<GithubYamlConfig>) -> (r: Option<Vec<GithubSpace>>)
    ensures
        r == match stored {
            Some(record) => record.github_spaces,
            None => None,
        },
{
    match stored {
        Some(record) => record.github_spaces,
        None => None,
    }
}

} // verus!

//! Commit-message tooling: classification of staged changes, the per-branch
//! session store, and the decisions of the commit and push flow.

pub mod branch_utils;
pub mod classifier;
pub mod claude;
pub mod commands;
pub mod commit;
pub mod extract_clickup_spaces_data;
pub mod extract_github_spaces_data;
pub mod gh;
pub mod github_types;
pub mod json;
pub mod path_utils;
pub mod patterns;
pub mod progress;
pub mod prompts;
pub mod search;
pub mod storage;
pub mod text;
pub mod ticket;
pub mod ux_utils;
pub mod workspace_config;

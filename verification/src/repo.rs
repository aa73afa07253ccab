//! Plain records for what the repository-inspection library reports.
//!
//! The inspection itself reads the repository from disk and stays outside
//! this crate; callers hand its results in as the types below. Timestamps
//! are carried as seconds and nanoseconds since the Unix epoch.

use vstd::prelude::*;

verus! {

/// A point-in-time summary of one repository: its name, the checked-out
/// branch, and the last commit.
#[derive(Debug, Clone)]
pub struct StatusDigest {
    pub repo_name: String,
    pub current_branch: String,
    pub last_commit_summary: String,
    pub last_commit_timestamp_secs: i64,
    pub last_commit_timestamp_nanos: u32,
}

/// Why a repository query failed; rendered as an error state instead of
/// aborting the interaction.
#[derive(Debug, Clone)]
pub struct FetchError {
    pub message: String,
}

/// One commit, as shown in the detail drawer.
#[derive(Debug, Clone)]
pub struct CommitInfo {
    pub commit_id: String,
    pub summary: String,
    pub author: String,
    pub timestamp_secs: i64,
    pub timestamp_nanos: u32,
}

/// Everything fetched for one discovered repository: its path, the status
/// digest if it could be computed, and the local branch names or the error
/// that the listing ended in.
#[derive(Debug)]
pub struct RepoSource {
    pub path: String,
    pub status_digest: Option<StatusDigest>,
    pub local_branches: Result<Vec<String>, FetchError>,
}

} // verus!

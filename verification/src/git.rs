//! What the library knows of a Git repository beside a workspace.

use vstd::prelude::*;
use crate::clock::Timestamp;

verus! {

/// A Git repository: where it is, its remotes (name and URL, in order) and the branch
/// checked out, if any.
#[derive(Debug, Clone)]
pub struct GitRepository {
    pub path: String,
    pub remotes: Vec<(String, String)>,
    pub current_branch: Option<String>,
}

/// A commit an issue can be associated with.
#[derive(Debug, Clone)]
pub struct GitRef {
    pub sha: String,
    pub message: Option<String>,
    pub author: Option<String>,
    pub timestamp: Timestamp,
}

} // verus!

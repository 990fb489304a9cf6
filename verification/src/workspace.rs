//! Workspaces: directories that hold an issue store and link to projects.

use vstd::prelude::*;
use crate::clock::{now, Timestamp};
use crate::project::valid_dotted_id;
use crate::text::{all_dotted_id_chars, list_contains, push_unique, remove_all, str_byte_len, views, with_added, with_removed};

verus! {

/// Workspace identifier.
pub type WorkspaceId = String;

/// A workspace; its path is kept as the text of the filesystem path.
#[derive(Debug, Clone)]
pub struct Workspace {
    pub id: WorkspaceId,
    pub path: String,
    pub projects: Vec<String>,
    pub created_at: Timestamp,
    pub updated_at: Timestamp,
}

/// Workspace ids are 3 to 100 bytes of letters, digits, `.`, `_` and `-`.
pub open spec fn valid_workspace_id(id: Seq<char>) -> bool {
    valid_dotted_id(id, 3, 100)
}

impl Workspace {
    /// Creates a workspace with no projects, stamped with the current time.
    pub fn new(id: WorkspaceId, path: String) -> (w: Self)
        ensures
            w.id@ == id@,
            w.path@ == path@,
            w.projects@.len() == 0,
            w.created_at == w.updated_at,
    {
        let t = now();
        Workspace { id, path, projects: Vec::new(), created_at: t, updated_at: t }
    }

    /// Whether a workspace id is acceptable.
    pub fn validate_id(id: &str) -> (b: bool)
        ensures
            b == valid_workspace_id(id@),
    {
        let n = str_byte_len(id);
        n >= 3 && n <= 100 && all_dotted_id_chars(id)
    }

    /// Links a project unless already linked; the update time moves only on a change.
    pub fn add_project(&mut self, project_id: String)
        ensures
            views(final(self).projects@) == with_added(views(old(self).projects@), project_id@),
            views(old(self).projects@).contains(project_id@) ==> *final(self) == *old(self),
            !views(old(self).projects@).contains(project_id@) ==> {
                &&& views(final(self).projects@) == views(old(self).projects@).push(project_id@)
                &&& *final(self) == (Workspace { projects: final(self).projects, updated_at: final(self).updated_at, ..*old(self) })
            },
    {
        if push_unique(&mut self.projects, project_id) {
            self.updated_at = now();
        }
    }

    /// Unlinks a project; the update time moves only when something was removed.
    pub fn remove_project(&mut self, project_id: &String)
        ensures
            views(final(self).projects@) == with_removed(views(old(self).projects@), project_id@),
            !views(old(self).projects@).contains(project_id@) ==> final(self).updated_at == old(self).updated_at,
            *final(self) == (Workspace { projects: final(self).projects, updated_at: final(self).updated_at, ..*old(self) }),
    {
        if remove_all(&mut self.projects, project_id.as_str()) {
            self.updated_at = now();
        }
    }

    /// Whether the workspace links the project.
    pub fn has_project(&self, project_id: &String) -> (b: bool)
        ensures
            b == views(self.projects@).contains(project_id@),
    {
        list_contains(&self.projects, project_id.as_str())
    }

    /// Number of linked projects.
    pub fn project_count(&self) -> (n: usize)
        ensures
            n == self.projects@.len(),
    {
        self.projects.len()
    }

    /// Moves the workspace to another path and stamps the update time.
    pub fn set_path(&mut self, path: String)
        ensures
            *final(self) == (Workspace { path, updated_at: final(self).updated_at, ..*old(self) }),
    {
        self.path = path;
        self.updated_at = now();
    }
}

} // verus!

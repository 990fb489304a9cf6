//! The application context: the workspace, its configuration, its storage and the
//! repositories built on it, and the checks that a command runs inside a workspace.

use vstd::prelude::*;
use crate::config::{
    config_opt_view, config_problem, merged, one_remote_per_name, remotes_wf, Config, ConfigLoader,
    FileConfigLoader,
};
use crate::errors::OdiError;
use crate::net::DefaultRemoteSync;
use crate::records::{FsIssueRepository, FsProjectRepository, FsRemoteRepository, FsUserRepository};
use crate::storage::{join_path, joined_path, FileSystemStorage};
use crate::text::copy_str;

verus! {

/// Everything a command works with.
#[derive(Debug, Clone)]
pub struct AppContext {
    pub workspace_path: String,
    pub storage: FileSystemStorage,
    pub config: Config,
    pub remote_sync: DefaultRemoteSync,
    pub issue_repository: FsIssueRepository,
    pub project_repository: FsProjectRepository,
    pub user_repository: FsUserRepository,
    pub remote_repository: FsRemoteRepository,
}

/// The storage layout of a workspace: rooted at its `.odi` directory.
pub open spec fn workspace_storage(s: FileSystemStorage, workspace: Seq<char>) -> bool {
    let root = joined_path(workspace, ".odi"@);
    &&& s.root_path@ == root
    &&& s.objects_path@ == joined_path(root, "objects"@)
    &&& s.refs_path@ == joined_path(root, "refs"@)
    &&& s.locks_path@ == joined_path(root, "locks"@)
}

/// The storage rooted at the workspace's `.odi` directory.
fn storage_for(workspace_path: &str) -> (s: FileSystemStorage)
    ensures
        workspace_storage(s, workspace_path@),
{
    FileSystemStorage::new(join_path(workspace_path, ".odi"))
}

impl AppContext {
    /// The context of the workspace at `workspace_path` with its configuration: the
    /// storage under `.odi`, and each repository on that storage.
    pub fn assemble(workspace_path: String, config: Config) -> (c: Self)
        ensures
            c.workspace_path@ == workspace_path@,
            c.config == config,
            workspace_storage(c.storage, workspace_path@),
            workspace_storage(c.issue_repository.storage, workspace_path@),
            workspace_storage(c.project_repository.storage, workspace_path@),
            workspace_storage(c.user_repository.storage, workspace_path@),
            workspace_storage(c.remote_repository.storage, workspace_path@),
    {
        let storage = storage_for(workspace_path.as_str());
        let issue_repository = FsIssueRepository::new(storage_for(workspace_path.as_str()));
        let project_repository = FsProjectRepository::new(storage_for(workspace_path.as_str()));
        let user_repository = FsUserRepository::new(storage_for(workspace_path.as_str()));
        let remote_repository = FsRemoteRepository::new(storage_for(workspace_path.as_str()));
        AppContext {
            workspace_path,
            storage,
            config,
            remote_sync: DefaultRemoteSync::new(),
            issue_repository,
            project_repository,
            user_repository,
            remote_repository,
        }
    }

    /// The configuration a workspace runs with: the global and local ones merged, the
    /// local one winning, then checked.
    pub fn load_configuration(global: Option<Config>, local: Option<Config>) -> (r: Result<Config, OdiError>)
        ensures
            match config_problem(merged(config_opt_view(global), config_opt_view(local))) {
                None => r matches Ok(c) && c@ == merged(config_opt_view(global), config_opt_view(local)),
                Some(m) => r matches Err(OdiError::Config { message })
                    && message@ == "Configuration validation failed: "@ + "Configuration error: "@ + m,
            },
            r matches Ok(c) ==> (one_remote_per_name(global) && one_remote_per_name(local) ==> remotes_wf(c@.remotes)),
    {
        let config = FileConfigLoader::merge(global, local);
        match FileConfigLoader::validate(&config) {
            Ok(()) => Ok(config),
            Err(e) => {
                let mut m = copy_str("Configuration validation failed: ");
                let t = e.message();
                m.append(t.as_str());
                Err(OdiError::Config { message: m })
            },
        }
    }

    /// The workspace directory.
    pub fn workspace_path(&self) -> (p: &str)
        ensures
            p@ == self.workspace_path@,
    {
        self.workspace_path.as_str()
    }

    /// The configuration.
    pub fn config(&self) -> (c: &Config)
        ensures
            *c == self.config,
    {
        &self.config
    }

    /// The storage.
    pub fn storage(&self) -> (s: &FileSystemStorage)
        ensures
            *s == self.storage,
    {
        &self.storage
    }

    /// The remote synchronisation.
    pub fn remote_sync(&self) -> (s: &DefaultRemoteSync)
        ensures
            *s == self.remote_sync,
    {
        &self.remote_sync
    }

    /// The issue repository.
    pub fn issue_repository(&self) -> (r: &FsIssueRepository)
        ensures
            *r == self.issue_repository,
    {
        &self.issue_repository
    }

    /// The project repository.
    pub fn project_repository(&self) -> (r: &FsProjectRepository)
        ensures
            *r == self.project_repository,
    {
        &self.project_repository
    }

    /// The user repository.
    pub fn user_repository(&self) -> (r: &FsUserRepository)
        ensures
            *r == self.user_repository,
    {
        &self.user_repository
    }

    /// The remote repository.
    pub fn remote_repository(&self) -> (r: &FsRemoteRepository)
        ensures
            *r == self.remote_repository,
    {
        &self.remote_repository
    }

    /// The directory whose existence makes `path` (or the current directory) a
    /// workspace: its `.odi`.
    pub fn workspace_marker(path: Option<&str>) -> (r: String)
        ensures
            r@ == joined_path(
                match path {
                    Some(p) => p@,
                    None => "."@,
                },
                ".odi"@,
            ),
    {
        let base = match path {
            Some(p) => p,
            None => ".",
        };
        join_path(base, ".odi")
    }

    /// Commands other than `init` refuse to run outside a workspace; `is_workspace`
    /// tells whether [`Self::workspace_marker`] exists.
    pub fn require_workspace(path: Option<&str>, is_workspace: bool) -> (r: Result<(), OdiError>)
        ensures
            is_workspace <==> r is Ok,
            r matches Err(e) ==> e matches OdiError::NotInitialized { message }
                && message@ == "Not in an ODI workspace. Current directory: "@ + match path {
                    Some(p) => p@,
                    None => "."@,
                } + "\nRun 'odi init' to initialize a new workspace."@,
    {
        if is_workspace {
            return Ok(());
        }
        let mut m = copy_str("Not in an ODI workspace. Current directory: ");
        match path {
            Some(p) => m.append(p),
            None => m.append("."),
        }
        m.append("\nRun 'odi init' to initialize a new workspace.");
        Err(OdiError::NotInitialized { message: m })
    }

    /// The context a new workspace starts with: the built-in configuration.
    pub fn init_workspace(path: &str) -> (c: Self)
        ensures
            c.workspace_path@ == path@,
            c.config@ == crate::config::default_config_view(),
            workspace_storage(c.storage, path@),
    {
        Self::assemble(copy_str(path), Config::default())
    }
}

} // verus!

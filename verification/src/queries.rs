//! Query filters and partial updates for the repositories, with their builders.

use vstd::prelude::*;
use crate::clock::Timestamp;
use crate::issue::{IssueStatus, Priority};
use crate::label::LabelId;
use crate::project::ProjectId;
use crate::user::{TeamId, UserId};
use crate::workspace::WorkspaceId;

verus! {

/// Filters for listing issues.
#[derive(Debug, Clone)]
pub struct IssueQuery {
    pub project_id: Option<ProjectId>,
    pub assignee: Option<UserId>,
    pub author: Option<UserId>,
    pub status: Option<IssueStatus>,
    pub priority: Option<Priority>,
    pub labels: Vec<LabelId>,
    pub limit: Option<usize>,
    pub offset: Option<usize>,
}

/// A partial update of an issue: each `Some` field replaces the stored one.
#[derive(Debug, Clone)]
pub struct IssueUpdate {
    pub title: Option<String>,
    pub description: Option<Option<String>>,
    pub status: Option<IssueStatus>,
    pub priority: Option<Priority>,
    pub assignees: Option<Vec<UserId>>,
    pub co_authors: Option<Vec<UserId>>,
    pub labels: Option<Vec<LabelId>>,
    pub project_id: Option<Option<ProjectId>>,
}

/// Filters for listing projects.
#[derive(Debug, Clone)]
pub struct ProjectQuery {
    pub workspace_id: Option<WorkspaceId>,
    pub team_id: Option<TeamId>,
    pub has_issues: Option<bool>,
    pub limit: Option<usize>,
    pub offset: Option<usize>,
}

/// A partial update of a project.
#[derive(Debug, Clone)]
pub struct ProjectUpdate {
    pub name: Option<String>,
    pub description: Option<Option<String>>,
    pub teams: Option<Vec<TeamId>>,
    pub workspaces: Option<Vec<WorkspaceId>>,
}

/// Filters for listing workspaces; the path prefix is the text of a filesystem path.
#[derive(Debug, Clone)]
pub struct WorkspaceQuery {
    pub project_id: Option<ProjectId>,
    pub path_prefix: Option<String>,
    pub limit: Option<usize>,
    pub offset: Option<usize>,
}

/// A partial update of a workspace.
#[derive(Debug, Clone)]
pub struct WorkspaceUpdate {
    pub path: Option<String>,
    pub projects: Option<Vec<ProjectId>>,
}

/// Filters for listing labels.
#[derive(Debug, Clone)]
pub struct LabelQuery {
    pub project_id: Option<ProjectId>,
    pub color: Option<String>,
    pub limit: Option<usize>,
    pub offset: Option<usize>,
}

/// Filters for listing users.
#[derive(Debug, Clone)]
pub struct UserQuery {
    pub team_id: Option<TeamId>,
    pub email_domain: Option<String>,
    pub active_since: Option<Timestamp>,
    pub limit: Option<usize>,
    pub offset: Option<usize>,
}

/// A partial update of a user.
#[derive(Debug, Clone)]
pub struct UserUpdate {
    pub name: Option<String>,
    pub email: Option<String>,
    pub avatar: Option<Option<String>>,
    pub teams: Option<Vec<TeamId>>,
}

/// Filters for listing teams.
#[derive(Debug, Clone)]
pub struct TeamQuery {
    pub member_id: Option<UserId>,
    pub min_members: Option<usize>,
    pub max_members: Option<usize>,
    pub limit: Option<usize>,
    pub offset: Option<usize>,
}

/// A partial update of a team.
#[derive(Debug, Clone)]
pub struct TeamUpdate {
    pub name: Option<String>,
    pub description: Option<Option<String>>,
    pub members: Option<Vec<UserId>>,
}

impl IssueQuery {
    /// An empty query: no filter, no paging.
    pub fn new() -> (q: Self)
        ensures
            q.project_id is None,
            q.assignee is None,
            q.author is None,
            q.status is None,
            q.priority is None,
            q.labels@.len() == 0,
            q.limit is None,
            q.offset is None,
    {
        IssueQuery { project_id: None, assignee: None, author: None, status: None, priority: None, labels: Vec::new(), limit: None, offset: None }
    }

    /// Filters by project.
    pub fn project(self, project_id: ProjectId) -> (q: Self)
        ensures
            q == (IssueQuery { project_id: Some(project_id), ..self }),
    {
        IssueQuery { project_id: Some(project_id), ..self }
    }

    /// Filters by assignee.
    pub fn assignee(self, user_id: UserId) -> (q: Self)
        ensures
            q == (IssueQuery { assignee: Some(user_id), ..self }),
    {
        IssueQuery { assignee: Some(user_id), ..self }
    }

    /// Filters by author.
    pub fn author(self, user_id: UserId) -> (q: Self)
        ensures
            q == (IssueQuery { author: Some(user_id), ..self }),
    {
        IssueQuery { author: Some(user_id), ..self }
    }

    /// Filters by status.
    pub fn status(self, status: IssueStatus) -> (q: Self)
        ensures
            q == (IssueQuery { status: Some(status), ..self }),
    {
        IssueQuery { status: Some(status), ..self }
    }

    /// Filters by priority.
    pub fn priority(self, priority: Priority) -> (q: Self)
        ensures
            q == (IssueQuery { priority: Some(priority), ..self }),
    {
        IssueQuery { priority: Some(priority), ..self }
    }

    /// Keeps issues carrying any of these labels.
    pub fn labels(self, labels: Vec<LabelId>) -> (q: Self)
        ensures
            q == (IssueQuery { labels: labels, ..self }),
    {
        IssueQuery { labels: labels, ..self }
    }

    /// Caps the number of results.
    pub fn limit(self, limit: usize) -> (q: Self)
        ensures
            q == (IssueQuery { limit: Some(limit), ..self }),
    {
        IssueQuery { limit: Some(limit), ..self }
    }

    /// Skips the first results.
    pub fn offset(self, offset: usize) -> (q: Self)
        ensures
            q == (IssueQuery { offset: Some(offset), ..self }),
    {
        IssueQuery { offset: Some(offset), ..self }
    }
}

impl Default for IssueQuery {
    fn default() -> (q: Self)
        ensures
            q.project_id is None,
            q.assignee is None,
            q.author is None,
            q.status is None,
            q.priority is None,
            q.labels@.len() == 0,
            q.limit is None,
            q.offset is None,
    {
        Self::new()
    }
}

impl IssueUpdate {
    /// An update that changes nothing.
    pub fn new() -> (q: Self)
        ensures
            q.title is None,
            q.description is None,
            q.status is None,
            q.priority is None,
            q.assignees is None,
            q.co_authors is None,
            q.labels is None,
            q.project_id is None,
    {
        IssueUpdate { title: None, description: None, status: None, priority: None, assignees: None, co_authors: None, labels: None, project_id: None }
    }

    /// Replaces the title.
    pub fn title(self, title: String) -> (q: Self)
        ensures
            q == (IssueUpdate { title: Some(title), ..self }),
    {
        IssueUpdate { title: Some(title), ..self }
    }

    /// Replaces the description.
    pub fn description(self, description: Option<String>) -> (q: Self)
        ensures
            q == (IssueUpdate { description: Some(description), ..self }),
    {
        IssueUpdate { description: Some(description), ..self }
    }

    /// Replaces the status.
    pub fn status(self, status: IssueStatus) -> (q: Self)
        ensures
            q == (IssueUpdate { status: Some(status), ..self }),
    {
        IssueUpdate { status: Some(status), ..self }
    }

    /// Replaces the priority.
    pub fn priority(self, priority: Priority) -> (q: Self)
        ensures
            q == (IssueUpdate { priority: Some(priority), ..self }),
    {
        IssueUpdate { priority: Some(priority), ..self }
    }

    /// Replaces the assignees.
    pub fn assignees(self, assignees: Vec<UserId>) -> (q: Self)
        ensures
            q == (IssueUpdate { assignees: Some(assignees), ..self }),
    {
        IssueUpdate { assignees: Some(assignees), ..self }
    }

    /// Replaces the co-authors.
    pub fn co_authors(self, co_authors: Vec<UserId>) -> (q: Self)
        ensures
            q == (IssueUpdate { co_authors: Some(co_authors), ..self }),
    {
        IssueUpdate { co_authors: Some(co_authors), ..self }
    }

    /// Replaces the labels.
    pub fn labels(self, labels: Vec<LabelId>) -> (q: Self)
        ensures
            q == (IssueUpdate { labels: Some(labels), ..self }),
    {
        IssueUpdate { labels: Some(labels), ..self }
    }

    /// Moves the issue to another project, or out of any.
    pub fn project(self, project_id: Option<ProjectId>) -> (q: Self)
        ensures
            q == (IssueUpdate { project_id: Some(project_id), ..self }),
    {
        IssueUpdate { project_id: Some(project_id), ..self }
    }
}

impl ProjectQuery {
    /// An empty query: no filter, no paging.
    pub fn new() -> (q: Self)
        ensures
            q.workspace_id is None,
            q.team_id is None,
            q.has_issues is None,
            q.limit is None,
            q.offset is None,
    {
        ProjectQuery { workspace_id: None, team_id: None, has_issues: None, limit: None, offset: None }
    }

    /// Filters by linked workspace.
    pub fn workspace(self, workspace_id: WorkspaceId) -> (q: Self)
        ensures
            q == (ProjectQuery { workspace_id: Some(workspace_id), ..self }),
    {
        ProjectQuery { workspace_id: Some(workspace_id), ..self }
    }

    /// Filters by team.
    pub fn team(self, team_id: TeamId) -> (q: Self)
        ensures
            q == (ProjectQuery { team_id: Some(team_id), ..self }),
    {
        ProjectQuery { team_id: Some(team_id), ..self }
    }

    /// Filters by whether the project has issues.
    pub fn has_issues(self, has_issues: bool) -> (q: Self)
        ensures
            q == (ProjectQuery { has_issues: Some(has_issues), ..self }),
    {
        ProjectQuery { has_issues: Some(has_issues), ..self }
    }

    /// Caps the number of results.
    pub fn limit(self, limit: usize) -> (q: Self)
        ensures
            q == (ProjectQuery { limit: Some(limit), ..self }),
    {
        ProjectQuery { limit: Some(limit), ..self }
    }

    /// Skips the first results.
    pub fn offset(self, offset: usize) -> (q: Self)
        ensures
            q == (ProjectQuery { offset: Some(offset), ..self }),
    {
        ProjectQuery { offset: Some(offset), ..self }
    }
}

impl Default for ProjectQuery {
    fn default() -> (q: Self)
        ensures
            q.workspace_id is None,
            q.team_id is None,
            q.has_issues is None,
            q.limit is None,
            q.offset is None,
    {
        Self::new()
    }
}

impl ProjectUpdate {
    /// An update that changes nothing.
    pub fn new() -> (q: Self)
        ensures
            q.name is None,
            q.description is None,
            q.teams is None,
            q.workspaces is None,
    {
        ProjectUpdate { name: None, description: None, teams: None, workspaces: None }
    }

    /// Replaces the name.
    pub fn name(self, name: String) -> (q: Self)
        ensures
            q == (ProjectUpdate { name: Some(name), ..self }),
    {
        ProjectUpdate { name: Some(name), ..self }
    }

    /// Replaces the description.
    pub fn description(self, description: Option<String>) -> (q: Self)
        ensures
            q == (ProjectUpdate { description: Some(description), ..self }),
    {
        ProjectUpdate { description: Some(description), ..self }
    }

    /// Replaces the teams.
    pub fn teams(self, teams: Vec<TeamId>) -> (q: Self)
        ensures
            q == (ProjectUpdate { teams: Some(teams), ..self }),
    {
        ProjectUpdate { teams: Some(teams), ..self }
    }

    /// Replaces the linked workspaces.
    pub fn workspaces(self, workspaces: Vec<WorkspaceId>) -> (q: Self)
        ensures
            q == (ProjectUpdate { workspaces: Some(workspaces), ..self }),
    {
        ProjectUpdate { workspaces: Some(workspaces), ..self }
    }
}

impl WorkspaceQuery {
    /// An empty query: no filter, no paging.
    pub fn new() -> (q: Self)
        ensures
            q.project_id is None,
            q.path_prefix is None,
            q.limit is None,
            q.offset is None,
    {
        WorkspaceQuery { project_id: None, path_prefix: None, limit: None, offset: None }
    }

    /// Filters by linked project.
    pub fn project(self, project_id: ProjectId) -> (q: Self)
        ensures
            q == (WorkspaceQuery { project_id: Some(project_id), ..self }),
    {
        WorkspaceQuery { project_id: Some(project_id), ..self }
    }

    /// Filters by path prefix.
    pub fn path_prefix(self, path: String) -> (q: Self)
        ensures
            q == (WorkspaceQuery { path_prefix: Some(path), ..self }),
    {
        WorkspaceQuery { path_prefix: Some(path), ..self }
    }

    /// Caps the number of results.
    pub fn limit(self, limit: usize) -> (q: Self)
        ensures
            q == (WorkspaceQuery { limit: Some(limit), ..self }),
    {
        WorkspaceQuery { limit: Some(limit), ..self }
    }

    /// Skips the first results.
    pub fn offset(self, offset: usize) -> (q: Self)
        ensures
            q == (WorkspaceQuery { offset: Some(offset), ..self }),
    {
        WorkspaceQuery { offset: Some(offset), ..self }
    }
}

impl Default for WorkspaceQuery {
    fn default() -> (q: Self)
        ensures
            q.project_id is None,
            q.path_prefix is None,
            q.limit is None,
            q.offset is None,
    {
        Self::new()
    }
}

impl WorkspaceUpdate {
    /// An update that changes nothing.
    pub fn new() -> (q: Self)
        ensures
            q.path is None,
            q.projects is None,
    {
        WorkspaceUpdate { path: None, projects: None }
    }

    /// Moves the workspace.
    pub fn path(self, path: String) -> (q: Self)
        ensures
            q == (WorkspaceUpdate { path: Some(path), ..self }),
    {
        WorkspaceUpdate { path: Some(path), ..self }
    }

    /// Replaces the linked projects.
    pub fn projects(self, projects: Vec<ProjectId>) -> (q: Self)
        ensures
            q == (WorkspaceUpdate { projects: Some(projects), ..self }),
    {
        WorkspaceUpdate { projects: Some(projects), ..self }
    }
}

impl LabelQuery {
    /// An empty query: no filter, no paging.
    pub fn new() -> (q: Self)
        ensures
            q.project_id is None,
            q.color is None,
            q.limit is None,
            q.offset is None,
    {
        LabelQuery { project_id: None, color: None, limit: None, offset: None }
    }

    /// Filters by project.
    pub fn project(self, project_id: ProjectId) -> (q: Self)
        ensures
            q == (LabelQuery { project_id: Some(project_id), ..self }),
    {
        LabelQuery { project_id: Some(project_id), ..self }
    }

    /// Filters by colour.
    pub fn color(self, color: String) -> (q: Self)
        ensures
            q == (LabelQuery { color: Some(color), ..self }),
    {
        LabelQuery { color: Some(color), ..self }
    }

    /// Caps the number of results.
    pub fn limit(self, limit: usize) -> (q: Self)
        ensures
            q == (LabelQuery { limit: Some(limit), ..self }),
    {
        LabelQuery { limit: Some(limit), ..self }
    }

    /// Skips the first results.
    pub fn offset(self, offset: usize) -> (q: Self)
        ensures
            q == (LabelQuery { offset: Some(offset), ..self }),
    {
        LabelQuery { offset: Some(offset), ..self }
    }
}

impl Default for LabelQuery {
    fn default() -> (q: Self)
        ensures
            q.project_id is None,
            q.color is None,
            q.limit is None,
            q.offset is None,
    {
        Self::new()
    }
}

impl UserQuery {
    /// An empty query: no filter, no paging.
    pub fn new() -> (q: Self)
        ensures
            q.team_id is None,
            q.email_domain is None,
            q.active_since is None,
            q.limit is None,
            q.offset is None,
    {
        UserQuery { team_id: None, email_domain: None, active_since: None, limit: None, offset: None }
    }

    /// Filters by team membership.
    pub fn team(self, team_id: TeamId) -> (q: Self)
        ensures
            q == (UserQuery { team_id: Some(team_id), ..self }),
    {
        UserQuery { team_id: Some(team_id), ..self }
    }

    /// Filters by e-mail domain.
    pub fn email_domain(self, domain: String) -> (q: Self)
        ensures
            q == (UserQuery { email_domain: Some(domain), ..self }),
    {
        UserQuery { email_domain: Some(domain), ..self }
    }

    /// Filters by activity since a time.
    pub fn active_since(self, date: Timestamp) -> (q: Self)
        ensures
            q == (UserQuery { active_since: Some(date), ..self }),
    {
        UserQuery { active_since: Some(date), ..self }
    }

    /// Caps the number of results.
    pub fn limit(self, limit: usize) -> (q: Self)
        ensures
            q == (UserQuery { limit: Some(limit), ..self }),
    {
        UserQuery { limit: Some(limit), ..self }
    }

    /// Skips the first results.
    pub fn offset(self, offset: usize) -> (q: Self)
        ensures
            q == (UserQuery { offset: Some(offset), ..self }),
    {
        UserQuery { offset: Some(offset), ..self }
    }
}

impl Default for UserQuery {
    fn default() -> (q: Self)
        ensures
            q.team_id is None,
            q.email_domain is None,
            q.active_since is None,
            q.limit is None,
            q.offset is None,
    {
        Self::new()
    }
}

impl UserUpdate {
    /// An update that changes nothing.
    pub fn new() -> (q: Self)
        ensures
            q.name is None,
            q.email is None,
            q.avatar is None,
            q.teams is None,
    {
        UserUpdate { name: None, email: None, avatar: None, teams: None }
    }

    /// Replaces the name.
    pub fn name(self, name: String) -> (q: Self)
        ensures
            q == (UserUpdate { name: Some(name), ..self }),
    {
        UserUpdate { name: Some(name), ..self }
    }

    /// Replaces the e-mail address.
    pub fn email(self, email: String) -> (q: Self)
        ensures
            q == (UserUpdate { email: Some(email), ..self }),
    {
        UserUpdate { email: Some(email), ..self }
    }

    /// Replaces the avatar.
    pub fn avatar(self, avatar: Option<String>) -> (q: Self)
        ensures
            q == (UserUpdate { avatar: Some(avatar), ..self }),
    {
        UserUpdate { avatar: Some(avatar), ..self }
    }

    /// Replaces the teams.
    pub fn teams(self, teams: Vec<TeamId>) -> (q: Self)
        ensures
            q == (UserUpdate { teams: Some(teams), ..self }),
    {
        UserUpdate { teams: Some(teams), ..self }
    }
}

impl TeamQuery {
    /// An empty query: no filter, no paging.
    pub fn new() -> (q: Self)
        ensures
            q.member_id is None,
            q.min_members is None,
            q.max_members is None,
            q.limit is None,
            q.offset is None,
    {
        TeamQuery { member_id: None, min_members: None, max_members: None, limit: None, offset: None }
    }

    /// Filters by member.
    pub fn member(self, user_id: UserId) -> (q: Self)
        ensures
            q == (TeamQuery { member_id: Some(user_id), ..self }),
    {
        TeamQuery { member_id: Some(user_id), ..self }
    }

    /// Filters by a minimum member count.
    pub fn min_members(self, min: usize) -> (q: Self)
        ensures
            q == (TeamQuery { min_members: Some(min), ..self }),
    {
        TeamQuery { min_members: Some(min), ..self }
    }

    /// Filters by a maximum member count.
    pub fn max_members(self, max: usize) -> (q: Self)
        ensures
            q == (TeamQuery { max_members: Some(max), ..self }),
    {
        TeamQuery { max_members: Some(max), ..self }
    }

    /// Caps the number of results.
    pub fn limit(self, limit: usize) -> (q: Self)
        ensures
            q == (TeamQuery { limit: Some(limit), ..self }),
    {
        TeamQuery { limit: Some(limit), ..self }
    }

    /// Skips the first results.
    pub fn offset(self, offset: usize) -> (q: Self)
        ensures
            q == (TeamQuery { offset: Some(offset), ..self }),
    {
        TeamQuery { offset: Some(offset), ..self }
    }
}

impl Default for TeamQuery {
    fn default() -> (q: Self)
        ensures
            q.member_id is None,
            q.min_members is None,
            q.max_members is None,
            q.limit is None,
            q.offset is None,
    {
        Self::new()
    }
}

impl TeamUpdate {
    /// An update that changes nothing.
    pub fn new() -> (q: Self)
        ensures
            q.name is None,
            q.description is None,
            q.members is None,
    {
        TeamUpdate { name: None, description: None, members: None }
    }

    /// Replaces the name.
    pub fn name(self, name: String) -> (q: Self)
        ensures
            q == (TeamUpdate { name: Some(name), ..self }),
    {
        TeamUpdate { name: Some(name), ..self }
    }

    /// Replaces the description.
    pub fn description(self, description: Option<String>) -> (q: Self)
        ensures
            q == (TeamUpdate { description: Some(description), ..self }),
    {
        TeamUpdate { description: Some(description), ..self }
    }

    /// Replaces the members.
    pub fn members(self, members: Vec<UserId>) -> (q: Self)
        ensures
            q == (TeamUpdate { members: Some(members), ..self }),
    {
        TeamUpdate { members: Some(members), ..self }
    }
}


} // verus!

//! The issue entity: its status workflow, priorities and assignees.

use vstd::prelude::*;
use crate::clock::{now, Timestamp};
use crate::ids::{random_id, IssueId};
use crate::text::{byte_len, copy_str, push_unique, remove_all, str_byte_len, views, with_added, with_removed};

verus! {

/// Where an issue stands in its workflow.
#[derive(Clone, Copy, Debug, PartialEq, Eq, Structural)]
pub enum IssueStatus {
    Open,
    InProgress,
    Resolved,
    Closed,
}

/// How urgent an issue is.
#[derive(Clone, Copy, Debug, PartialEq, Eq, Structural)]
pub enum Priority {
    Low,
    Medium,
    High,
    Critical,
}

/// An issue: the core tracking unit.
#[derive(Debug, Clone)]
pub struct Issue {
    pub id: IssueId,
    pub title: String,
    pub description: Option<String>,
    pub status: IssueStatus,
    pub priority: Priority,
    pub assignees: Vec<String>,
    pub author: String,
    pub co_authors: Vec<String>,
    pub labels: Vec<String>,
    pub project_id: Option<String>,
    pub created_at: Timestamp,
    pub updated_at: Timestamp,
    pub closed_at: Option<Timestamp>,
    pub git_refs: Vec<String>,
}

/// The name a status is printed with.
pub open spec fn status_name(s: IssueStatus) -> Seq<char> {
    match s {
        IssueStatus::Open => "Open"@,
        IssueStatus::InProgress => "InProgress"@,
        IssueStatus::Resolved => "Resolved"@,
        IssueStatus::Closed => "Closed"@,
    }
}

/// The name a priority is printed with.
pub open spec fn priority_name(p: Priority) -> Seq<char> {
    match p {
        Priority::Low => "Low"@,
        Priority::Medium => "Medium"@,
        Priority::High => "High"@,
        Priority::Critical => "Critical"@,
    }
}

/// Printed name of a status.
pub fn status_text(s: IssueStatus) -> (r: String)
    ensures
        r@ == status_name(s),
{
    proof {
        reveal_strlit("Open");
        reveal_strlit("InProgress");
        reveal_strlit("Resolved");
        reveal_strlit("Closed");
    }
    match s {
        IssueStatus::Open => copy_str("Open"),
        IssueStatus::InProgress => copy_str("InProgress"),
        IssueStatus::Resolved => copy_str("Resolved"),
        IssueStatus::Closed => copy_str("Closed"),
    }
}

/// Printed name of a priority.
pub fn priority_text(p: Priority) -> (r: String)
    ensures
        r@ == priority_name(p),
{
    proof {
        reveal_strlit("Low");
        reveal_strlit("Medium");
        reveal_strlit("High");
        reveal_strlit("Critical");
    }
    match p {
        Priority::Low => copy_str("Low"),
        Priority::Medium => copy_str("Medium"),
        Priority::High => copy_str("High"),
        Priority::Critical => copy_str("Critical"),
    }
}

/// The status workflow: which moves are allowed.
/// Open may start or close; in progress may reopen, resolve or close;
/// resolved may reopen or close; closed may only reopen.
pub open spec fn transition_allowed(from: IssueStatus, to: IssueStatus) -> bool {
    match (from, to) {
        (IssueStatus::Open, IssueStatus::InProgress) => true,
        (IssueStatus::Open, IssueStatus::Closed) => true,
        (IssueStatus::InProgress, IssueStatus::Open) => true,
        (IssueStatus::InProgress, IssueStatus::Resolved) => true,
        (IssueStatus::InProgress, IssueStatus::Closed) => true,
        (IssueStatus::Resolved, IssueStatus::Open) => true,
        (IssueStatus::Resolved, IssueStatus::Closed) => true,
        (IssueStatus::Closed, IssueStatus::Open) => true,
        _ => false,
    }
}

/// The status workflow, move by move: no status moves to itself; every status but
/// `Closed` can be closed; every status but `Open` can be reopened; only an issue in
/// progress can be resolved; only an open issue can be started.
pub proof fn lemma_workflow(from: IssueStatus, to: IssueStatus)
    ensures
        from == to ==> !transition_allowed(from, to),
        to == IssueStatus::Closed ==> (transition_allowed(from, to) <==> from != IssueStatus::Closed),
        to == IssueStatus::Open ==> (transition_allowed(from, to) <==> from != IssueStatus::Open),
        to == IssueStatus::Resolved ==> (transition_allowed(from, to) <==> from == IssueStatus::InProgress),
        to == IssueStatus::InProgress ==> (transition_allowed(from, to) <==> from == IssueStatus::Open),
{
}

/// A title is valid when it is non-empty and at most 100 bytes long.
pub open spec fn valid_issue_title(title: Seq<char>) -> bool {
    title.len() > 0 && byte_len(title) <= 100
}

/// The message an invalid transition is refused with.
pub open spec fn transition_error(from: IssueStatus, to: IssueStatus) -> Seq<char> {
    "Invalid status transition: "@ + status_name(from) + " -> "@ + status_name(to)
}

impl Issue {
    /// Creates an open, medium-priority issue with a fresh random id, stamped with the current time.
    pub fn new(title: String, author: String) -> (issue: Self)
        ensures
            issue.title@ == title@,
            issue.author@ == author@,
            issue.description is None,
            issue.status == IssueStatus::Open,
            issue.priority == Priority::Medium,
            issue.assignees@.len() == 0,
            issue.co_authors@.len() == 0,
            issue.labels@.len() == 0,
            issue.project_id is None,
            issue.created_at == issue.updated_at,
            issue.closed_at is None,
            issue.git_refs@.len() == 0,
    {
        let t = now();
        Issue {
            id: random_id(),
            title,
            description: None,
            status: IssueStatus::Open,
            priority: Priority::Medium,
            assignees: Vec::new(),
            author,
            co_authors: Vec::new(),
            labels: Vec::new(),
            project_id: None,
            created_at: t,
            updated_at: t,
            closed_at: None,
            git_refs: Vec::new(),
        }
    }

    /// Whether a title is acceptable (1 to 100 bytes).
    pub fn validate_title(title: &str) -> (b: bool)
        ensures
            b == valid_issue_title(title@),
    {
        !title.is_empty() && str_byte_len(title) <= 100
    }

    /// Whether the workflow allows moving from the current status to `new_status`.
    pub fn can_transition_to(&self, new_status: &IssueStatus) -> (b: bool)
        ensures
            b == transition_allowed(self.status, *new_status),
    {
        match (self.status, *new_status) {
            (IssueStatus::Open, IssueStatus::InProgress) => true,
            (IssueStatus::Open, IssueStatus::Closed) => true,
            (IssueStatus::InProgress, IssueStatus::Open) => true,
            (IssueStatus::InProgress, IssueStatus::Resolved) => true,
            (IssueStatus::InProgress, IssueStatus::Closed) => true,
            (IssueStatus::Resolved, IssueStatus::Open) => true,
            (IssueStatus::Resolved, IssueStatus::Closed) => true,
            (IssueStatus::Closed, IssueStatus::Open) => true,
            _ => false,
        }
    }

    /// Assigns a user, unless already assigned. Nothing else changes.
    pub fn add_assignee(&mut self, user_id: String)
        ensures
            views(final(self).assignees@) == with_added(views(old(self).assignees@), user_id@),
            *final(self) == (Issue { assignees: final(self).assignees, ..*old(self) }),
    {
        push_unique(&mut self.assignees, user_id);
    }

    /// Unassigns a user: every equal entry leaves, the others keep their order. Nothing else changes.
    pub fn remove_assignee(&mut self, user_id: &String)
        ensures
            views(final(self).assignees@) == with_removed(views(old(self).assignees@), user_id@),
            *final(self) == (Issue { assignees: final(self).assignees, ..*old(self) }),
    {
        remove_all(&mut self.assignees, user_id.as_str());
    }

    /// Moves to `new_status` when the workflow allows it, stamping the update time, and the
    /// closing time when the new status is `Closed`. A refused move changes nothing.
    pub fn update_status(&mut self, new_status: IssueStatus) -> (r: Result<(), String>)
        ensures
            r is Ok <==> transition_allowed(old(self).status, new_status),
            r matches Err(m) ==> m@ == transition_error(old(self).status, new_status) && *final(self) == *old(self),
            r is Ok ==> {
                &&& final(self).status == new_status
                &&& new_status == IssueStatus::Closed ==> final(self).closed_at is Some
                &&& new_status != IssueStatus::Closed ==> final(self).closed_at == old(self).closed_at
                &&& *final(self) == (Issue {
                    status: new_status,
                    updated_at: final(self).updated_at,
                    closed_at: final(self).closed_at,
                    ..*old(self)
                })
            },
    {
        if !self.can_transition_to(&new_status) {
            let mut m = copy_str("Invalid status transition: ");
            m.append(status_text(self.status).as_str());
            m.append(" -> ");
            m.append(status_text(new_status).as_str());
            proof {
                reveal_strlit("Invalid status transition: ");
                reveal_strlit(" -> ");
            }
            return Err(m);
        }
        self.status = new_status;
        self.updated_at = now();
        if new_status == IssueStatus::Closed {
            self.closed_at = Some(now());
        }
        Ok(())
    }
}

} // verus!

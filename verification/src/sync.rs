//! Synchronisation: conflicts between local and remote versions of an issue,
//! sync results, options and statistics.

use vstd::prelude::*;
use crate::clock::{duration_of_micros, duration_of_secs, microseconds, now, seconds, Timestamp};
use crate::ids::IssueId;
use crate::issue::{status_name, status_text, Issue, IssueStatus, Priority};
use crate::project::{ids_contain, ProjectId};
use crate::text::{copy_str, lists_equal, opt_str_equal, opt_view, str_eq, views};

verus! {

/// The kind of difference found between two versions of an issue.
#[derive(Clone, Copy, Debug, PartialEq, Eq, Structural)]
pub enum ConflictType {
    /// Content conflicts (title, description).
    ContentConflict,
    /// Status conflicts.
    StatusConflict,
    /// Assignment conflicts.
    AssignmentConflict,
    /// Label conflicts.
    LabelConflict,
    /// Metadata conflicts (priority, author, co-authors).
    MetadataConflict,
}

/// Two differing versions of one issue.
#[derive(Debug, Clone)]
pub struct Conflict {
    pub issue_id: IssueId,
    pub local_version: Issue,
    pub remote_version: Issue,
    pub conflict_type: ConflictType,
    pub detected_at: Timestamp,
}

/// How a conflict is settled.
#[derive(Debug, Clone)]
pub enum ConflictResolution {
    /// Keep the local version.
    AcceptLocal,
    /// Keep the remote version.
    AcceptRemote,
    /// Use a version resolved by hand.
    Manual(Issue),
}

/// State of a synchronisation run.
#[derive(Clone, Copy, Debug, PartialEq, Eq, Structural)]
pub enum SyncStatus {
    InProgress,
    Success,
    ConflictsDetected,
    Failed,
}

/// What a synchronisation run moved, and the conflicts it met.
#[derive(Debug, Clone)]
pub struct SyncResult {
    pub pulled_issues: Vec<IssueId>,
    pub pushed_issues: Vec<IssueId>,
    pub conflicts: Vec<Conflict>,
    pub sync_time: Timestamp,
}

/// Options that steer a synchronisation run.
#[derive(Debug, Clone)]
pub struct SyncOptions {
    /// Only sync these projects.
    pub projects: Option<Vec<ProjectId>>,
    /// Sync even when no change is detected.
    pub force: bool,
    /// Only report what would be synced.
    pub dry_run: bool,
    /// Resolve conflicts automatically where possible.
    pub auto_resolve: bool,
    /// Largest number of issues per operation.
    pub batch_size: Option<usize>,
    /// Time limit of the run.
    pub timeout: Option<std::time::Duration>,
}

/// Statistics of a synchronisation run.
#[derive(Debug, Clone)]
pub struct SyncStats {
    pub started_at: Timestamp,
    pub completed_at: Option<Timestamp>,
    pub issues_pulled: usize,
    pub issues_pushed: usize,
    pub conflicts_detected: usize,
    pub conflicts_resolved: usize,
    pub bytes_transferred: u64,
    pub duration: Option<std::time::Duration>,
}

/// How a batch of conflicts is handled.
#[derive(Debug, Clone)]
pub enum BatchConflictStrategy {
    /// Stop at the first conflict.
    StopOnConflict,
    /// Skip conflicts and go on.
    SkipConflicts,
    /// Settle every conflict the same way.
    AutoResolve(ConflictResolution),
}

/// What is known of a remote repository without syncing.
#[derive(Debug, Clone)]
pub struct RemoteInfo {
    pub name: String,
    pub url: String,
    pub last_activity: Option<Timestamp>,
    pub issue_count: usize,
    pub project_count: usize,
    pub supported_features: Vec<String>,
}

/// The first difference between two versions of one issue, checked in order: status,
/// assignees, labels, content (title and description), metadata (priority, author,
/// co-authors). Versions of different issues never conflict.
pub open spec fn conflict_between(local: Issue, remote: Issue) -> Option<ConflictType> {
    if local.id != remote.id {
        None
    } else if local.status != remote.status {
        Some(ConflictType::StatusConflict)
    } else if views(local.assignees@) != views(remote.assignees@) {
        Some(ConflictType::AssignmentConflict)
    } else if views(local.labels@) != views(remote.labels@) {
        Some(ConflictType::LabelConflict)
    } else if local.title@ != remote.title@ || opt_view(local.description) != opt_view(remote.description) {
        Some(ConflictType::ContentConflict)
    } else if local.priority != remote.priority || local.author@ != remote.author@
        || views(local.co_authors@) != views(remote.co_authors@) {
        Some(ConflictType::MetadataConflict)
    } else {
        None
    }
}

/// The type of conflict between a local and a remote version of an issue, if any.
pub fn detect_conflict_type(local: &Issue, remote: &Issue) -> (r: Option<ConflictType>)
    ensures
        r == conflict_between(*local, *remote),
{
    if local.id != remote.id {
        return None;
    }
    if local.status != remote.status {
        return Some(ConflictType::StatusConflict);
    }
    if !lists_equal(&local.assignees, &remote.assignees) {
        return Some(ConflictType::AssignmentConflict);
    }
    if !lists_equal(&local.labels, &remote.labels) {
        return Some(ConflictType::LabelConflict);
    }
    if !str_eq(local.title.as_str(), remote.title.as_str())
        || !opt_str_equal(&local.description, &remote.description) {
        return Some(ConflictType::ContentConflict);
    }
    if local.priority != remote.priority || !str_eq(local.author.as_str(), remote.author.as_str())
        || !lists_equal(&local.co_authors, &remote.co_authors) {
        return Some(ConflictType::MetadataConflict);
    }
    None
}

/// A version never conflicts with itself.
pub proof fn lemma_no_conflict_with_itself(issue: Issue)
    ensures
        conflict_between(issue, issue) is None,
{
}

/// Conflict detection does not depend on which side is local.
pub proof fn lemma_conflict_symmetric(a: Issue, b: Issue)
    ensures
        conflict_between(a, b) == conflict_between(b, a),
{
}

/// Two versions of one issue conflict unless they agree on everything compared: status,
/// assignees, labels, title, description, priority, author and co-authors.
pub proof fn lemma_no_conflict_iff_same(local: Issue, remote: Issue)
    requires
        local.id == remote.id,
    ensures
        conflict_between(local, remote) is None <==> {
            &&& local.status == remote.status
            &&& views(local.assignees@) == views(remote.assignees@)
            &&& views(local.labels@) == views(remote.labels@)
            &&& local.title@ == remote.title@
            &&& opt_view(local.description) == opt_view(remote.description)
            &&& local.priority == remote.priority
            &&& local.author@ == remote.author@
            &&& views(local.co_authors@) == views(remote.co_authors@)
        },
{
}

/// Each kind of difference between two versions of one issue is reported as its own
/// kind of conflict, the status first, then assignees, labels, content and metadata:
/// a difference is reported whenever the kinds before it agree.
pub proof fn lemma_conflict_kinds(local: Issue, remote: Issue)
    requires
        local.id == remote.id,
    ensures
        local.status != remote.status ==> conflict_between(local, remote) == Some(ConflictType::StatusConflict),
        local.status == remote.status && views(local.assignees@) != views(remote.assignees@)
            ==> conflict_between(local, remote) == Some(ConflictType::AssignmentConflict),
        local.status == remote.status && views(local.assignees@) == views(remote.assignees@)
            && views(local.labels@) != views(remote.labels@)
            ==> conflict_between(local, remote) == Some(ConflictType::LabelConflict),
        local.status == remote.status && views(local.assignees@) == views(remote.assignees@)
            && views(local.labels@) == views(remote.labels@)
            && (local.title@ != remote.title@ || opt_view(local.description) != opt_view(remote.description))
            ==> conflict_between(local, remote) == Some(ConflictType::ContentConflict),
        local.status == remote.status && views(local.assignees@) == views(remote.assignees@)
            && views(local.labels@) == views(remote.labels@) && local.title@ == remote.title@
            && opt_view(local.description) == opt_view(remote.description)
            && (local.priority != remote.priority || local.author@ != remote.author@
                || views(local.co_authors@) != views(remote.co_authors@))
            ==> conflict_between(local, remote) == Some(ConflictType::MetadataConflict),
{
}

/// Versions of different issues never conflict.
pub proof fn lemma_different_issues_never_conflict(local: Issue, remote: Issue)
    requires
        local.id != remote.id,
    ensures
        conflict_between(local, remote) is None,
{
}

/// The one-line description of a conflict of the given type.
pub open spec fn conflict_summary(t: ConflictType, local: IssueStatus, remote: IssueStatus) -> Seq<char> {
    match t {
        ConflictType::ContentConflict => "Content differs between local and remote versions"@,
        ConflictType::StatusConflict => "Status conflict: local="@ + status_name(local) + ", remote="@
            + status_name(remote),
        ConflictType::AssignmentConflict => "Assignment differs between local and remote versions"@,
        ConflictType::LabelConflict => "Labels differ between local and remote versions"@,
        ConflictType::MetadataConflict => "Metadata differs between local and remote versions"@,
    }
}

impl Conflict {
    /// Records a conflict detected now.
    pub fn new(issue_id: IssueId, local_version: Issue, remote_version: Issue, conflict_type: ConflictType) -> (c: Self)
        ensures
            c.issue_id == issue_id,
            c.local_version == local_version,
            c.remote_version == remote_version,
            c.conflict_type == conflict_type,
    {
        Conflict { issue_id, local_version, remote_version, conflict_type, detected_at: now() }
    }

    /// A one-line description of the conflict.
    pub fn summary(&self) -> (s: String)
        ensures
            s@ == conflict_summary(self.conflict_type, self.local_version.status, self.remote_version.status),
    {
        proof {
            reveal_strlit("Content differs between local and remote versions");
            reveal_strlit("Status conflict: local=");
            reveal_strlit(", remote=");
            reveal_strlit("Assignment differs between local and remote versions");
            reveal_strlit("Labels differ between local and remote versions");
            reveal_strlit("Metadata differs between local and remote versions");
        }
        match self.conflict_type {
            ConflictType::ContentConflict => copy_str("Content differs between local and remote versions"),
            ConflictType::StatusConflict => {
                let mut s = copy_str("Status conflict: local=");
                s.append(status_text(self.local_version.status).as_str());
                s.append(", remote=");
                s.append(status_text(self.remote_version.status).as_str());
                s
            },
            ConflictType::AssignmentConflict => copy_str("Assignment differs between local and remote versions"),
            ConflictType::LabelConflict => copy_str("Labels differ between local and remote versions"),
            ConflictType::MetadataConflict => copy_str("Metadata differs between local and remote versions"),
        }
    }

    /// Only metadata conflicts can be settled automatically (by taking the latest timestamp).
    pub fn can_auto_resolve(&self) -> (b: bool)
        ensures
            b == (self.conflict_type == ConflictType::MetadataConflict),
    {
        match self.conflict_type {
            ConflictType::MetadataConflict => true,
            _ => false,
        }
    }
}

impl SyncResult {
    /// An empty result stamped with the current time.
    pub fn new() -> (r: Self)
        ensures
            r.pulled_issues@.len() == 0,
            r.pushed_issues@.len() == 0,
            r.conflicts@.len() == 0,
    {
        SyncResult { pulled_issues: Vec::new(), pushed_issues: Vec::new(), conflicts: Vec::new(), sync_time: now() }
    }

    /// Whether any conflict was met.
    pub fn has_conflicts(&self) -> (b: bool)
        ensures
            b == (self.conflicts@.len() > 0),
    {
        self.conflicts.len() > 0
    }

    /// Number of issues pulled plus issues pushed.
    pub fn total_synced(&self) -> (n: usize)
        requires
            self.pulled_issues@.len() + self.pushed_issues@.len() <= usize::MAX,
        ensures
            n == self.pulled_issues@.len() + self.pushed_issues@.len(),
    {
        self.pulled_issues.len() + self.pushed_issues.len()
    }

    /// Number of conflicts met.
    pub fn conflict_count(&self) -> (n: usize)
        ensures
            n == self.conflicts@.len(),
    {
        self.conflicts.len()
    }

    /// Records a pulled issue, once. Nothing else changes.
    pub fn add_pulled(&mut self, issue_id: IssueId)
        ensures
            final(self).pulled_issues@ == if old(self).pulled_issues@.contains(issue_id) {
                old(self).pulled_issues@
            } else {
                old(self).pulled_issues@.push(issue_id)
            },
            *final(self) == (SyncResult { pulled_issues: final(self).pulled_issues, ..*old(self) }),
    {
        if !ids_contain(&self.pulled_issues, issue_id) {
            self.pulled_issues.push(issue_id);
        }
    }

    /// Records a pushed issue, once. Nothing else changes.
    pub fn add_pushed(&mut self, issue_id: IssueId)
        ensures
            final(self).pushed_issues@ == if old(self).pushed_issues@.contains(issue_id) {
                old(self).pushed_issues@
            } else {
                old(self).pushed_issues@.push(issue_id)
            },
            *final(self) == (SyncResult { pushed_issues: final(self).pushed_issues, ..*old(self) }),
    {
        if !ids_contain(&self.pushed_issues, issue_id) {
            self.pushed_issues.push(issue_id);
        }
    }

    /// Records a conflict. Nothing else changes.
    pub fn add_conflict(&mut self, conflict: Conflict)
        ensures
            final(self).conflicts@ == old(self).conflicts@.push(conflict),
            *final(self) == (SyncResult { conflicts: final(self).conflicts, ..*old(self) }),
    {
        self.conflicts.push(conflict);
    }
}

impl Default for SyncResult {
    fn default() -> (r: Self)
        ensures
            r.pulled_issues@.len() == 0,
            r.pushed_issues@.len() == 0,
            r.conflicts@.len() == 0,
    {
        Self::new()
    }
}

impl SyncOptions {
    /// The defaults: all projects, no force, no dry run, no auto-resolution,
    /// batches of 100, a five-minute time limit.
    pub fn new() -> (o: Self)
        ensures
            o.projects is None,
            !o.force,
            !o.dry_run,
            !o.auto_resolve,
            o.batch_size == Some(100usize),
            o.timeout == Some(duration_of_secs(300)),
    {
        SyncOptions {
            projects: None,
            force: false,
            dry_run: false,
            auto_resolve: false,
            batch_size: Some(100),
            timeout: Some(seconds(300)),
        }
    }

    /// Restricts the run to the given projects.
    pub fn projects(self, projects: Vec<ProjectId>) -> (o: Self)
        ensures
            o == (SyncOptions { projects: Some(projects), ..self }),
    {
        SyncOptions { projects: Some(projects), ..self }
    }

    /// Forces the run.
    pub fn force(self) -> (o: Self)
        ensures
            o == (SyncOptions { force: true, ..self }),
    {
        SyncOptions { force: true, ..self }
    }

    /// Makes the run a dry run.
    pub fn dry_run(self) -> (o: Self)
        ensures
            o == (SyncOptions { dry_run: true, ..self }),
    {
        SyncOptions { dry_run: true, ..self }
    }

    /// Resolves conflicts automatically where possible.
    pub fn auto_resolve(self) -> (o: Self)
        ensures
            o == (SyncOptions { auto_resolve: true, ..self }),
    {
        SyncOptions { auto_resolve: true, ..self }
    }

    /// Sets the batch size.
    pub fn batch_size(self, size: usize) -> (o: Self)
        ensures
            o == (SyncOptions { batch_size: Some(size), ..self }),
    {
        SyncOptions { batch_size: Some(size), ..self }
    }

    /// Sets the time limit.
    pub fn timeout(self, timeout: std::time::Duration) -> (o: Self)
        ensures
            o == (SyncOptions { timeout: Some(timeout), ..self }),
    {
        SyncOptions { timeout: Some(timeout), ..self }
    }
}

impl Default for SyncOptions {
    fn default() -> (o: Self)
        ensures
            o.projects is None,
            !o.force,
            !o.dry_run,
            !o.auto_resolve,
            o.batch_size == Some(100usize),
            o.timeout == Some(duration_of_secs(300)),
    {
        Self::new()
    }
}

/// Microseconds from `start` to `end`, or zero when `end` comes first.
pub open spec fn elapsed_micros(start: Timestamp, end: Timestamp) -> u64 {
    if end <= start { 0 } else { (end - start) as u64 }
}

impl SyncStats {
    /// Fresh statistics, started now.
    pub fn new() -> (s: Self)
        ensures
            s.completed_at is None,
            s.issues_pulled == 0,
            s.issues_pushed == 0,
            s.conflicts_detected == 0,
            s.conflicts_resolved == 0,
            s.bytes_transferred == 0,
            s.duration is None,
    {
        SyncStats {
            started_at: now(),
            completed_at: None,
            issues_pulled: 0,
            issues_pushed: 0,
            conflicts_detected: 0,
            conflicts_resolved: 0,
            bytes_transferred: 0,
            duration: None,
        }
    }

    /// Marks the run completed now and records how long it took (zero if the clock went back).
    pub fn complete(&mut self)
        ensures
            final(self).completed_at matches Some(t) && final(self).duration == Some(
                duration_of_micros(elapsed_micros(old(self).started_at, t)),
            ),
            *final(self) == (SyncStats {
                completed_at: final(self).completed_at,
                duration: final(self).duration,
                ..*old(self)
            }),
    {
        let t = now();
        self.completed_at = Some(t);
        let micros: u64 = if t <= self.started_at {
            0
        } else {
            (t as i128 - self.started_at as i128) as u64
        };
        self.duration = Some(microseconds(micros));
    }

    /// Whether the run is completed.
    pub fn is_completed(&self) -> (b: bool)
        ensures
            b == self.completed_at is Some,
    {
        self.completed_at.is_some()
    }

    /// Issues pulled plus issues pushed.
    pub fn total_issues(&self) -> (n: usize)
        requires
            self.issues_pulled + self.issues_pushed <= usize::MAX,
        ensures
            n == self.issues_pulled + self.issues_pushed,
    {
        self.issues_pulled + self.issues_pushed
    }

    /// The conflict resolution rate as a fraction `(resolved, detected)`; `(1, 1)` when no
    /// conflict was detected.
    pub fn resolution_ratio(&self) -> (r: (usize, usize))
        ensures
            self.conflicts_detected == 0 ==> r == (1usize, 1usize),
            self.conflicts_detected != 0 ==> r == (self.conflicts_resolved, self.conflicts_detected),
    {
        if self.conflicts_detected == 0 {
            (1, 1)
        } else {
            (self.conflicts_resolved, self.conflicts_detected)
        }
    }
}

impl Default for SyncStats {
    fn default() -> (s: Self)
        ensures
            s.completed_at is None,
            s.issues_pulled == 0,
            s.issues_pushed == 0,
            s.conflicts_detected == 0,
            s.conflicts_resolved == 0,
            s.bytes_transferred == 0,
            s.duration is None,
    {
        Self::new()
    }
}

} // verus!

//! What `push` and `pull` decide for each issue: which side is newer, what to upload,
//! download or update, and which issues a project filter lets through.

use vstd::prelude::*;
use crate::cli::{PullArgs, PushArgs};
use crate::commands::arg_view;
use crate::errors::{net_error_text, NetError, OdiError};
use crate::issue::Issue;
use crate::net::{decimal, decimal_text, IssueMetadata};
use crate::queries::{IssueQuery, IssueUpdate};
use crate::text::{copy_list, copy_opt, copy_str, opt_view, str_eq, views};

verus! {

/// What `pull` does with an issue the remote lists.
#[derive(Debug, Clone, Copy, PartialEq, Eq, Structural)]
pub enum PullAction {
    /// The local copy is older: download the issue and update the local one.
    Update,
    /// There is no local copy: download the issue and create it.
    Download,
    /// The local copy is as new or newer.
    Skip,
}

/// What `pull` does with an issue once it is downloaded.
#[derive(Debug, Clone, Copy, PartialEq, Eq, Structural)]
pub enum PullStep {
    /// Leave it: it is outside the project asked for, or nothing was to be done.
    Ignore,
    /// Update the local copy from it.
    UpdateLocal,
    /// Store it as a new local issue.
    CreateLocal,
}

/// What `pull` does with an issue downloaded for `action`, given the project filter.
pub open spec fn pull_step(action: PullAction, project_id: Option<Seq<char>>, project: Option<Seq<char>>) -> PullStep {
    if action == PullAction::Skip || (project matches Some(p) && project_id != Some(p)) {
        PullStep::Ignore
    } else if action == PullAction::Update {
        PullStep::UpdateLocal
    } else {
        PullStep::CreateLocal
    }
}

/// What `push` does with a local issue.
#[derive(Debug, Clone, Copy, PartialEq, Eq, Structural)]
pub enum PushAction {
    /// The remote copy is older: upload the issue.
    UploadUpdated,
    /// The remote has no copy: upload the issue.
    UploadNew,
    /// The remote copy is as new or newer.
    Skip,
}

/// `i` is the first local issue with the id `id`.
pub open spec fn first_local(local: Seq<Issue>, id: u128, i: int) -> bool {
    &&& 0 <= i < local.len()
    &&& local[i].id == id
    &&& forall|j: int| 0 <= j < i ==> (#[trigger] local[j]).id != id
}

/// `k` is the first remote entry with the id `id`.
pub open spec fn first_remote(remote: Seq<IssueMetadata>, id: u128, k: int) -> bool {
    &&& 0 <= k < remote.len()
    &&& remote[k].id == id
    &&& forall|j: int| 0 <= j < k ==> (#[trigger] remote[j]).id != id
}

/// What `pull` does with a remote entry, given the local issues: the first local issue
/// with the same id decides; the remote copy wins when it was modified later.
pub open spec fn pull_decision(m: IssueMetadata, local: Seq<Issue>) -> PullAction {
    if exists|i: int| first_local(local, m.id, i) {
        let i = choose|i: int| first_local(local, m.id, i);
        if m.last_modified > local[i].updated_at {
            PullAction::Update
        } else {
            PullAction::Skip
        }
    } else {
        PullAction::Download
    }
}

/// What `push` does with a local issue, given the remote entries: the first remote
/// entry with the same id decides; the local copy wins when it was updated later.
pub open spec fn push_decision(l: Issue, remote: Seq<IssueMetadata>) -> PushAction {
    if exists|k: int| first_remote(remote, l.id, k) {
        let k = choose|k: int| first_remote(remote, l.id, k);
        if l.updated_at > remote[k].last_modified {
            PushAction::UploadUpdated
        } else {
            PushAction::Skip
        }
    } else {
        PushAction::UploadNew
    }
}

/// The first position is unique.
proof fn lemma_first_local_unique(local: Seq<Issue>, id: u128, a: int, b: int)
    requires
        first_local(local, id, a),
        first_local(local, id, b),
    ensures
        a == b,
{
    if a < b {
        assert(local[a].id != id);
    } else if b < a {
        assert(local[b].id != id);
    }
}

/// The first position is unique.
proof fn lemma_first_remote_unique(remote: Seq<IssueMetadata>, id: u128, a: int, b: int)
    requires
        first_remote(remote, id, a),
        first_remote(remote, id, b),
    ensures
        a == b,
{
    if a < b {
        assert(remote[a].id != id);
    } else if b < a {
        assert(remote[b].id != id);
    }
}

/// How many of a pull's steps created a new local issue: a download that was carried out.
pub open spec fn downloaded_count(steps: Seq<(PullAction, bool)>) -> nat {
    steps.filter(|s: (PullAction, bool)| s.0 == PullAction::Download && s.1).len()
}

/// How many of a pull's steps updated a local issue: an update that was carried out.
pub open spec fn updated_count(steps: Seq<(PullAction, bool)>) -> nat {
    steps.filter(|s: (PullAction, bool)| s.0 == PullAction::Update && s.1).len()
}

/// How many of a push's steps uploaded an issue: an upload that was carried out.
pub open spec fn uploaded_count(steps: Seq<(PushAction, bool)>) -> nat {
    steps.filter(|s: (PushAction, bool)| s.0 != PushAction::Skip && s.1).len()
}

/// How many of a push's steps were skipped.
pub open spec fn skipped_count(steps: Seq<(PushAction, bool)>) -> nat {
    steps.filter(|s: (PushAction, bool)| s.0 == PushAction::Skip).len()
}

/// The line that ends a pull.
pub open spec fn pull_summary(downloaded: nat, updated: nat) -> Seq<char> {
    if downloaded > 0 || updated > 0 {
        "✓ Pull completed: "@ + decimal(downloaded) + " new, "@ + decimal(updated) + " updated"@
    } else {
        "✓ Pull completed: No changes"@
    }
}

/// The line that ends a push.
pub open spec fn push_summary(uploaded: nat, skipped: nat) -> Seq<char> {
    if uploaded > 0 {
        "✓ Push completed: "@ + decimal(uploaded) + " uploaded, "@ + decimal(skipped) + " skipped"@
    } else {
        "✓ Push completed: No changes to push"@
    }
}

impl PullArgs {
    /// What `pull` does with a remote entry, given the local issues.
    pub fn action(m: &IssueMetadata, local: &Vec<Issue>) -> (a: PullAction)
        ensures
            a == pull_decision(*m, local@),
    {
        let mut i: usize = 0;
        while i < local.len()
            invariant
                i <= local@.len(),
                forall|j: int| 0 <= j < i ==> (#[trigger] local@[j]).id != m.id,
            decreases local.len() - i,
        {
            if local[i].id == m.id {
                proof {
                    assert(first_local(local@, m.id, i as int));
                    let c = choose|c: int| first_local(local@, m.id, c);
                    lemma_first_local_unique(local@, m.id, c, i as int);
                }
                if m.last_modified > local[i].updated_at {
                    return PullAction::Update;
                } else {
                    return PullAction::Skip;
                }
            }
            i = i + 1;
        }
        proof {
            if exists|c: int| first_local(local@, m.id, c) {
                let c = choose|c: int| first_local(local@, m.id, c);
                assert(local@[c].id == m.id);
            }
        }
        PullAction::Download
    }

    /// Whether a downloaded issue passes the project filter of `pull`.
    pub fn accepts(issue: &Issue, project: Option<&str>) -> (b: bool)
        ensures
            b == match project {
                Some(p) => opt_view(issue.project_id) == Some(p@),
                None => true,
            },
    {
        match project {
            None => true,
            Some(p) => match &issue.project_id {
                Some(q) => str_eq(q.as_str(), p),
                None => false,
            },
        }
    }

    /// What `pull` does with an issue it downloaded for `action`: nothing when it is
    /// outside the project asked for, else the update or creation `action` calls for.
    pub fn step(action: PullAction, issue: &Issue, project: Option<&str>) -> (r: PullStep)
        ensures
            r == pull_step(action, opt_view(issue.project_id), arg_view(project)),
    {
        if action == PullAction::Skip || !Self::accepts(issue, project) {
            PullStep::Ignore
        } else if action == PullAction::Update {
            PullStep::UpdateLocal
        } else {
            PullStep::CreateLocal
        }
    }

    /// The local issues `pull` compares with: all of them, or those of one project.
    pub fn local_query(project: Option<&str>) -> (q: IssueQuery)
        ensures
            opt_view(q.project_id) == match project {
                Some(p) => Some(p@),
                None => None,
            },
            q.status is None,
            q.assignee is None,
            q.author is None,
            q.priority is None,
            q.labels@.len() == 0,
            q.limit is None,
            q.offset is None,
    {
        let mut q = IssueQuery::new();
        q.project_id = match project {
            Some(p) => Some(copy_str(p)),
            None => None,
        };
        q
    }

    /// The update that makes a local issue what the downloaded one is: every field
    /// that an update can set.
    pub fn update_from(issue: &Issue) -> (u: IssueUpdate)
        ensures
            u.title matches Some(t) && t@ == issue.title@,
            u.description matches Some(d) && opt_view(d) == opt_view(issue.description),
            u.status == Some(issue.status),
            u.priority == Some(issue.priority),
            u.assignees matches Some(a) && views(a@) == views(issue.assignees@),
            u.co_authors matches Some(a) && views(a@) == views(issue.co_authors@),
            u.labels matches Some(a) && views(a@) == views(issue.labels@),
            u.project_id matches Some(p) && opt_view(p) == opt_view(issue.project_id),
    {
        IssueUpdate {
            title: Some(copy_str(issue.title.as_str())),
            description: Some(copy_opt(&issue.description)),
            status: Some(issue.status),
            priority: Some(issue.priority),
            assignees: Some(copy_list(&issue.assignees)),
            co_authors: Some(copy_list(&issue.co_authors)),
            labels: Some(copy_list(&issue.labels)),
            project_id: Some(copy_opt(&issue.project_id)),
        }
    }

    /// Counts a pull's steps, each the action taken on a remote entry and whether it
    /// was carried out: the new issues downloaded, then the local issues updated.
    pub fn tally(steps: &Vec<(PullAction, bool)>) -> (r: (usize, usize))
        ensures
            r.0 == downloaded_count(steps@),
            r.1 == updated_count(steps@),
    {
        let mut downloaded: usize = 0;
        let mut updated: usize = 0;
        let mut i: usize = 0;
        while i < steps.len()
            invariant
                i <= steps@.len(),
                downloaded == downloaded_count(steps@.take(i as int)),
                updated == updated_count(steps@.take(i as int)),
                downloaded + updated <= i,
            decreases steps.len() - i,
        {
            proof {
                let t = steps@.take(i + 1);
                assert(t.drop_last() =~= steps@.take(i as int));
                reveal(Seq::filter);
            }
            let (a, done) = steps[i];
            if done && a == PullAction::Download {
                downloaded = downloaded + 1;
            } else if done && a == PullAction::Update {
                updated = updated + 1;
            }
            i = i + 1;
        }
        assert(steps@.take(steps@.len() as int) =~= steps@);
        (downloaded, updated)
    }

    /// The line that ends a pull that downloaded and updated these many issues.
    pub fn summary(downloaded: usize, updated: usize) -> (r: String)
        ensures
            r@ == pull_summary(downloaded as nat, updated as nat),
    {
        if downloaded > 0 || updated > 0 {
            let mut r = copy_str("✓ Pull completed: ");
            let d = decimal_text(downloaded as u64);
            r.append(d.as_str());
            r.append(" new, ");
            let u = decimal_text(updated as u64);
            r.append(u.as_str());
            r.append(" updated");
            r
        } else {
            copy_str("✓ Pull completed: No changes")
        }
    }

    /// The error a failed connection ends `pull` with.
    pub fn failed(e: &NetError) -> (r: OdiError)
        ensures
            r matches OdiError::Command { message } && message@ == "Pull operation failed: "@ + net_error_text(*e),
    {
        let mut m = copy_str("Pull operation failed: ");
        let t = e.message();
        m.append(t.as_str());
        OdiError::Command { message: m }
    }
}

impl PushArgs {
    /// What `push` does with a local issue, given the remote entries.
    pub fn action(l: &Issue, remote: &Vec<IssueMetadata>) -> (a: PushAction)
        ensures
            a == push_decision(*l, remote@),
    {
        let mut k: usize = 0;
        while k < remote.len()
            invariant
                k <= remote@.len(),
                forall|j: int| 0 <= j < k ==> (#[trigger] remote@[j]).id != l.id,
            decreases remote.len() - k,
        {
            if remote[k].id == l.id {
                proof {
                    assert(first_remote(remote@, l.id, k as int));
                    let c = choose|c: int| first_remote(remote@, l.id, c);
                    lemma_first_remote_unique(remote@, l.id, c, k as int);
                }
                if l.updated_at > remote[k].last_modified {
                    return PushAction::UploadUpdated;
                } else {
                    return PushAction::Skip;
                }
            }
            k = k + 1;
        }
        proof {
            if exists|c: int| first_remote(remote@, l.id, c) {
                let c = choose|c: int| first_remote(remote@, l.id, c);
                assert(remote@[c].id == l.id);
            }
        }
        PushAction::UploadNew
    }

    /// The actions of `push` for all local issues, in order.
    pub fn plan(local: &Vec<Issue>, remote: &Vec<IssueMetadata>) -> (r: Vec<PushAction>)
        ensures
            r@.len() == local@.len(),
            forall|i: int| 0 <= i < local@.len() ==> r@[i] == push_decision(#[trigger] local@[i], remote@),
    {
        let mut r: Vec<PushAction> = Vec::new();
        let mut i: usize = 0;
        while i < local.len()
            invariant
                i <= local@.len(),
                r@.len() == i,
                forall|j: int| 0 <= j < i ==> r@[j] == push_decision(#[trigger] local@[j], remote@),
            decreases local.len() - i,
        {
            r.push(Self::action(&local[i], remote));
            i = i + 1;
        }
        r
    }

    /// Counts a push's steps, each the action taken on a local issue and whether it was
    /// carried out: the issues uploaded, then the issues skipped.
    pub fn tally(steps: &Vec<(PushAction, bool)>) -> (r: (usize, usize))
        ensures
            r.0 == uploaded_count(steps@),
            r.1 == skipped_count(steps@),
    {
        let mut uploaded: usize = 0;
        let mut skipped: usize = 0;
        let mut i: usize = 0;
        while i < steps.len()
            invariant
                i <= steps@.len(),
                uploaded == uploaded_count(steps@.take(i as int)),
                skipped == skipped_count(steps@.take(i as int)),
                uploaded + skipped <= i,
            decreases steps.len() - i,
        {
            proof {
                let t = steps@.take(i + 1);
                assert(t.drop_last() =~= steps@.take(i as int));
                reveal(Seq::filter);
            }
            let (a, done) = steps[i];
            if a == PushAction::Skip {
                skipped = skipped + 1;
            } else if done {
                uploaded = uploaded + 1;
            }
            i = i + 1;
        }
        assert(steps@.take(steps@.len() as int) =~= steps@);
        (uploaded, skipped)
    }

    /// The line that ends a push that uploaded and skipped these many issues.
    pub fn summary(uploaded: usize, skipped: usize) -> (r: String)
        ensures
            r@ == push_summary(uploaded as nat, skipped as nat),
    {
        if uploaded > 0 {
            let mut r = copy_str("✓ Push completed: ");
            let d = decimal_text(uploaded as u64);
            r.append(d.as_str());
            r.append(" uploaded, ");
            let u = decimal_text(skipped as u64);
            r.append(u.as_str());
            r.append(" skipped");
            r
        } else {
            copy_str("✓ Push completed: No changes to push")
        }
    }

    /// The error a failed connection ends `push` with.
    pub fn failed(e: &NetError) -> (r: OdiError)
        ensures
            r matches OdiError::Command { message } && message@ == "Push operation failed: "@ + net_error_text(*e),
    {
        let mut m = copy_str("Push operation failed: ");
        let t = e.message();
        m.append(t.as_str());
        OdiError::Command { message: m }
    }
}

/// An issue that both sides hold is never sent both ways: when `push` would upload the
/// local copy, `pull` would not update it from the remote one, and the other way round.
pub proof fn lemma_push_pull_exclusive(local: Seq<Issue>, remote: Seq<IssueMetadata>, i: int, k: int)
    requires
        first_local(local, local[i].id, i),
        first_remote(remote, local[i].id, k),
    ensures
        !(push_decision(local[i], remote) == PushAction::UploadUpdated
            && pull_decision(remote[k], local) == PullAction::Update),
        push_decision(local[i], remote) != PushAction::UploadNew,
        pull_decision(remote[k], local) != PullAction::Download,
{
    let id = local[i].id;
    let k2 = choose|c: int| first_remote(remote, id, c);
    lemma_first_remote_unique(remote, id, k, k2);
    let i2 = choose|c: int| first_local(local, id, c);
    lemma_first_local_unique(local, id, i, i2);
}

/// Every remote entry that no local issue shares is downloaded, and every local issue
/// that no remote entry shares is uploaded.
pub proof fn lemma_missing_copies_transfer(local: Seq<Issue>, remote: Seq<IssueMetadata>, m: IssueMetadata, l: Issue)
    requires
        forall|j: int| 0 <= j < local.len() ==> (#[trigger] local[j]).id != m.id,
        forall|j: int| 0 <= j < remote.len() ==> (#[trigger] remote[j]).id != l.id,
    ensures
        pull_decision(m, local) == PullAction::Download,
        push_decision(l, remote) == PushAction::UploadNew,
{
    if exists|c: int| first_local(local, m.id, c) {
        let c = choose|c: int| first_local(local, m.id, c);
        assert(local[c].id == m.id);
    }
    if exists|c: int| first_remote(remote, l.id, c) {
        let c = choose|c: int| first_remote(remote, l.id, c);
        assert(remote[c].id == l.id);
    }
}

} // verus!

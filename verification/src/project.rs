//! Projects: organisational units that group issues, teams, labels and workspaces.

use vstd::prelude::*;
use crate::clock::{now, Timestamp};
use crate::ids::IssueId;
use crate::label::Label;
use crate::text::{all_dotted_id_chars, byte_len, is_dotted_id_char, push_unique, remove_all, str_byte_len, str_eq, views, with_added, with_removed};

verus! {

broadcast use vstd::seq_lib::group_seq_properties;

/// Project identifier.
pub type ProjectId = String;

/// A project.
#[derive(Debug, Clone)]
pub struct Project {
    pub id: ProjectId,
    pub name: String,
    pub description: Option<String>,
    pub issues: Vec<IssueId>,
    pub teams: Vec<String>,
    pub labels: Vec<Label>,
    pub workspaces: Vec<String>,
    pub created_at: Timestamp,
    pub updated_at: Timestamp,
}

/// Project, workspace and remote style ids: `min` to `max` bytes of letters, digits, `.`, `_`, `-`.
pub open spec fn valid_dotted_id(id: Seq<char>, min: int, max: int) -> bool {
    min <= byte_len(id) <= max && forall|i: int| 0 <= i < id.len() ==> is_dotted_id_char(#[trigger] id[i])
}

/// Project ids are 3 to 100 bytes of letters, digits, `.`, `_` and `-`.
pub open spec fn valid_project_id(id: Seq<char>) -> bool {
    valid_dotted_id(id, 3, 100)
}

/// Names of projects, teams and remotes: 1 to 100 bytes.
pub open spec fn valid_long_name(name: Seq<char>) -> bool {
    name.len() > 0 && byte_len(name) <= 100
}

/// The ids of a list of labels, in order.
pub open spec fn label_ids(labels: Seq<Label>) -> Seq<Seq<char>> {
    labels.map_values(|l: Label| l.id@)
}

/// The labels of `labels` whose id differs from `id`, in order.
pub open spec fn labels_without(labels: Seq<Label>, id: Seq<char>) -> Seq<Label> {
    labels.filter(|l: Label| l.id@ != id)
}

/// Whether `v` holds `id`.
pub fn ids_contain(v: &Vec<IssueId>, id: IssueId) -> (b: bool)
    ensures
        b == v@.contains(id),
{
    let mut i: usize = 0;
    while i < v.len()
        invariant
            i <= v.len(),
            forall|j: int| 0 <= j < i ==> v@[j] != id,
        decreases v.len() - i,
    {
        if v[i] == id {
            return true;
        }
        i = i + 1;
    }
    false
}

/// Keeps the ids that differ from `id`, in order; reports whether any was removed.
pub fn remove_id(v: &mut Vec<IssueId>, id: IssueId) -> (removed: bool)
    ensures
        final(v)@ == old(v)@.filter(|x: IssueId| x != id),
        removed == old(v)@.contains(id),
{
    let ghost old_v = v@;
    let ghost pred = |x: IssueId| x != id;
    let mut kept: Vec<IssueId> = Vec::new();
    let mut removed = false;
    let mut i: usize = 0;
    while i < v.len()
        invariant
            i <= v.len(),
            old_v == v@,
            pred == (|x: IssueId| x != id),
            kept@ == old_v.take(i as int).filter(pred),
            removed == old_v.take(i as int).contains(id),
        decreases v.len() - i,
    {
        proof {
            old_v.take(i as int).lemma_filter_push(old_v[i as int], pred);
            assert(old_v.take(i + 1) =~= old_v.take(i as int).push(old_v[i as int]));
        }
        if v[i] == id {
            removed = true;
        } else {
            kept.push(v[i]);
        }
        i = i + 1;
    }
    assert(old_v.take(v.len() as int) =~= old_v);
    *v = kept;
    removed
}

/// Whether a label with id `id` is in `labels`.
fn labels_contain(labels: &Vec<Label>, id: &str) -> (b: bool)
    ensures
        b == label_ids(labels@).contains(id@),
{
    let mut i: usize = 0;
    while i < labels.len()
        invariant
            i <= labels.len(),
            forall|j: int| 0 <= j < i ==> labels@[j].id@ != id@,
        decreases labels.len() - i,
    {
        if str_eq(labels[i].id.as_str(), id) {
            assert(label_ids(labels@)[i as int] == id@);
            return true;
        }
        i = i + 1;
    }
    assert forall|j: int| 0 <= j < label_ids(labels@).len() implies label_ids(labels@)[j] != id@ by {
        assert(label_ids(labels@)[j] == labels@[j].id@);
    }
    false
}

/// Keeps the labels whose id differs from `id`, in order; reports whether any was removed.
fn remove_labels_with_id(labels: &mut Vec<Label>, id: &str) -> (removed: bool)
    ensures
        final(labels)@ == labels_without(old(labels)@, id@),
        removed == label_ids(old(labels)@).contains(id@),
{
    let ghost old_v = labels@;
    let ghost pred = |l: Label| l.id@ != id@;
    let mut rest: Vec<Label> = Vec::new();
    std::mem::swap(&mut rest, labels);
    let mut kept: Vec<Label> = Vec::new();
    let mut removed = false;
    let ghost mut i: int = 0;
    while rest.len() > 0
        invariant
            0 <= i <= old_v.len(),
            rest@ == old_v.skip(i),
            pred == (|l: Label| l.id@ != id@),
            kept@ == old_v.take(i).filter(pred),
            removed == label_ids(old_v.take(i)).contains(id@),
        decreases rest.len(),
    {
        let l = rest.remove(0);
        proof {
            assert(l == old_v[i]);
            old_v.take(i).lemma_filter_push(old_v[i], pred);
            assert(old_v.take(i + 1) =~= old_v.take(i).push(old_v[i]));
            assert(label_ids(old_v.take(i + 1)) =~= label_ids(old_v.take(i)).push(l.id@));
            assert(old_v.skip(i + 1) =~= old_v.skip(i).remove(0));
        }
        if str_eq(l.id.as_str(), id) {
            removed = true;
        } else {
            kept.push(l);
        }
        proof { i = i + 1; }
    }
    assert(old_v.take(i) =~= old_v);
    *labels = kept;
    removed
}

impl Project {
    /// Creates an empty project stamped with the current time.
    pub fn new(id: ProjectId, name: String) -> (p: Self)
        ensures
            p.id@ == id@,
            p.name@ == name@,
            p.description is None,
            p.issues@.len() == 0,
            p.teams@.len() == 0,
            p.labels@.len() == 0,
            p.workspaces@.len() == 0,
            p.created_at == p.updated_at,
    {
        let t = now();
        Project {
            id,
            name,
            description: None,
            issues: Vec::new(),
            teams: Vec::new(),
            labels: Vec::new(),
            workspaces: Vec::new(),
            created_at: t,
            updated_at: t,
        }
    }

    /// Whether a project id is acceptable.
    pub fn validate_id(id: &str) -> (b: bool)
        ensures
            b == valid_project_id(id@),
    {
        let n = str_byte_len(id);
        n >= 3 && n <= 100 && all_dotted_id_chars(id)
    }

    /// Whether a project name is acceptable.
    pub fn validate_name(name: &str) -> (b: bool)
        ensures
            b == valid_long_name(name@),
    {
        !name.is_empty() && str_byte_len(name) <= 100
    }

    /// Links a workspace unless already linked; the update time moves only on a change.
    pub fn add_workspace(&mut self, workspace_id: String)
        ensures
            views(final(self).workspaces@) == with_added(views(old(self).workspaces@), workspace_id@),
            views(old(self).workspaces@).contains(workspace_id@) ==> *final(self) == *old(self),
            !views(old(self).workspaces@).contains(workspace_id@) ==> {
                &&& views(final(self).workspaces@) == views(old(self).workspaces@).push(workspace_id@)
                &&& *final(self) == (Project { workspaces: final(self).workspaces, updated_at: final(self).updated_at, ..*old(self) })
            },
    {
        if push_unique(&mut self.workspaces, workspace_id) {
            self.updated_at = now();
        }
    }

    /// Unlinks a workspace; the update time moves only when something was removed.
    pub fn remove_workspace(&mut self, workspace_id: &String)
        ensures
            views(final(self).workspaces@) == with_removed(views(old(self).workspaces@), workspace_id@),
            !views(old(self).workspaces@).contains(workspace_id@) ==> final(self).updated_at == old(self).updated_at,
            *final(self) == (Project { workspaces: final(self).workspaces, updated_at: final(self).updated_at, ..*old(self) }),
    {
        if remove_all(&mut self.workspaces, workspace_id.as_str()) {
            self.updated_at = now();
        }
    }

    /// Adds a team unless already present; the update time moves only on a change.
    pub fn add_team(&mut self, team_id: String)
        ensures
            views(final(self).teams@) == with_added(views(old(self).teams@), team_id@),
            views(old(self).teams@).contains(team_id@) ==> *final(self) == *old(self),
            !views(old(self).teams@).contains(team_id@) ==> {
                &&& views(final(self).teams@) == views(old(self).teams@).push(team_id@)
                &&& *final(self) == (Project { teams: final(self).teams, updated_at: final(self).updated_at, ..*old(self) })
            },
    {
        if push_unique(&mut self.teams, team_id) {
            self.updated_at = now();
        }
    }

    /// Removes a team; the update time moves only when something was removed.
    pub fn remove_team(&mut self, team_id: &String)
        ensures
            views(final(self).teams@) == with_removed(views(old(self).teams@), team_id@),
            !views(old(self).teams@).contains(team_id@) ==> final(self).updated_at == old(self).updated_at,
            *final(self) == (Project { teams: final(self).teams, updated_at: final(self).updated_at, ..*old(self) }),
    {
        if remove_all(&mut self.teams, team_id.as_str()) {
            self.updated_at = now();
        }
    }

    /// Adds an issue unless already present; the update time moves only on a change.
    pub fn add_issue(&mut self, issue_id: IssueId)
        ensures
            old(self).issues@.contains(issue_id) ==> *final(self) == *old(self),
            !old(self).issues@.contains(issue_id) ==> {
                &&& final(self).issues@ == old(self).issues@.push(issue_id)
                &&& *final(self) == (Project { issues: final(self).issues, updated_at: final(self).updated_at, ..*old(self) })
            },
    {
        if !ids_contain(&self.issues, issue_id) {
            self.issues.push(issue_id);
            self.updated_at = now();
        }
    }

    /// Removes an issue; the update time moves only when something was removed.
    pub fn remove_issue(&mut self, issue_id: &IssueId)
        ensures
            final(self).issues@ == old(self).issues@.filter(|x: IssueId| x != *issue_id),
            !old(self).issues@.contains(*issue_id) ==> final(self).updated_at == old(self).updated_at,
            *final(self) == (Project { issues: final(self).issues, updated_at: final(self).updated_at, ..*old(self) }),
    {
        if remove_id(&mut self.issues, *issue_id) {
            self.updated_at = now();
        }
    }

    /// Adds a label unless one with the same id is present; the update time moves only on a change.
    pub fn add_label(&mut self, label: Label)
        ensures
            label_ids(old(self).labels@).contains(label.id@) ==> *final(self) == *old(self),
            !label_ids(old(self).labels@).contains(label.id@) ==> {
                &&& final(self).labels@ == old(self).labels@.push(label)
                &&& *final(self) == (Project { labels: final(self).labels, updated_at: final(self).updated_at, ..*old(self) })
            },
    {
        if !labels_contain(&self.labels, label.id.as_str()) {
            self.labels.push(label);
            self.updated_at = now();
        }
    }

    /// Removes the labels with the given id; the update time moves only when something was removed.
    pub fn remove_label(&mut self, label_id: &String)
        ensures
            final(self).labels@ == labels_without(old(self).labels@, label_id@),
            !label_ids(old(self).labels@).contains(label_id@) ==> final(self).updated_at == old(self).updated_at,
            *final(self) == (Project { labels: final(self).labels, updated_at: final(self).updated_at, ..*old(self) }),
    {
        if remove_labels_with_id(&mut self.labels, label_id.as_str()) {
            self.updated_at = now();
        }
    }

    /// The first label with the given id, if any.
    pub fn get_label(&self, label_id: &String) -> (r: Option<&Label>)
        ensures
            r is None <==> !label_ids(self.labels@).contains(label_id@),
            r matches Some(l) ==> exists|i: int| 0 <= i < self.labels@.len() && self.labels@[i] == *l
                && l.id@ == label_id@ && forall|j: int| 0 <= j < i ==> self.labels@[j].id@ != label_id@,
    {
        let mut i: usize = 0;
        while i < self.labels.len()
            invariant
                i <= self.labels.len(),
                forall|j: int| 0 <= j < i ==> self.labels@[j].id@ != label_id@,
            decreases self.labels.len() - i,
        {
            if str_eq(self.labels[i].id.as_str(), label_id.as_str()) {
                assert(label_ids(self.labels@)[i as int] == label_id@);
                return Some(&self.labels[i]);
            }
            i = i + 1;
        }
        assert forall|j: int| 0 <= j < label_ids(self.labels@).len() implies label_ids(self.labels@)[j] != label_id@ by {
            assert(label_ids(self.labels@)[j] == self.labels@[j].id@);
        }
        None
    }

    /// Replaces the description and stamps the update time.
    pub fn set_description(&mut self, description: Option<String>)
        ensures
            *final(self) == (Project { description, updated_at: final(self).updated_at, ..*old(self) }),
    {
        self.description = description;
        self.updated_at = now();
    }
}

} // verus!

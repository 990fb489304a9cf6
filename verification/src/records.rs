//! What the repositories do to stored records once they are read: the query filters,
//! paging, text search, partial updates and the reference names records are stored under.

use vstd::prelude::*;
use crate::clock::now;
use crate::ids::{issue_id_text, uuid_text, IssueId};
use crate::issue::Issue;
use crate::label::Label;
use crate::project::Project;
use crate::queries::{
    IssueQuery, IssueUpdate, LabelQuery, ProjectQuery, ProjectUpdate, TeamUpdate, UserUpdate,
    WorkspaceUpdate,
};
use crate::remote::Remote;
use crate::storage::FileSystemStorage;
use crate::team::Team;
use crate::text::{copy_str, has_prefix, has_substring, list_contains, opt_view, str_contains, str_eq, str_starts_with, views};
use crate::user::User;
use crate::workspace::Workspace;

verus! {

broadcast use vstd::seq_lib::group_seq_properties;

/// The elements of `s` whose flag in `m` is set, in order.
pub open spec fn masked<T>(s: Seq<T>, m: Seq<bool>) -> Seq<T>
    decreases s.len(),
{
    if s.len() == 0 || m.len() == 0 {
        Seq::empty()
    } else {
        let r = masked(s.drop_last(), m.drop_last());
        if m.last() {
            r.push(s.last())
        } else {
            r
        }
    }
}

/// Keeping the elements whose flag is their predicate is filtering by the predicate.
pub proof fn lemma_masked_is_filter<T>(s: Seq<T>, m: Seq<bool>, pred: spec_fn(T) -> bool)
    requires
        s.len() == m.len(),
        forall|i: int| 0 <= i < s.len() ==> m[i] == pred(s[i]),
    ensures
        masked(s, m) == s.filter(pred),
    decreases s.len(),
{
    reveal(Seq::filter);
    if s.len() > 0 {
        assert forall|i: int| 0 <= i < s.drop_last().len() implies m.drop_last()[i] == pred(s.drop_last()[i]) by {
            assert(m.drop_last()[i] == m[i]);
            assert(s.drop_last()[i] == s[i]);
        }
        lemma_masked_is_filter(s.drop_last(), m.drop_last(), pred);
    }
}

/// Keeps the elements of `v` whose flag in `keep` is set, in order.
pub fn keep_where<T>(v: Vec<T>, keep: &Vec<bool>) -> (r: Vec<T>)
    requires
        keep@.len() == v@.len(),
    ensures
        r@ == masked(v@, keep@),
{
    let ghost v0 = v@;
    let mut rest = v;
    let mut r: Vec<T> = Vec::new();
    let mut i: usize = 0;
    let total = keep.len();
    while rest.len() > 0
        invariant
            total == v0.len(),
            keep@.len() == v0.len(),
            i <= v0.len(),
            i + rest@.len() == v0.len(),
            rest@ == v0.skip(i as int),
            r@ == masked(v0.take(i as int), keep@.take(i as int)),
        decreases rest.len(),
    {
        let x = rest.remove(0);
        proof {
            assert(v0.take(i + 1).drop_last() =~= v0.take(i as int));
            assert(keep@.take(i + 1).drop_last() =~= keep@.take(i as int));
            assert(v0.skip(i + 1) =~= v0.skip(i as int).remove(0));
        }
        if keep[i] {
            r.push(x);
        }
        i = i + 1;
    }
    assert(v0.take(i as int) =~= v0);
    assert(keep@.take(i as int) =~= keep@);
    r
}

/// Skips `offset` elements (everything when it reaches the end), then keeps at most `limit`.
pub open spec fn paginated<T>(s: Seq<T>, offset: Option<usize>, limit: Option<usize>) -> Seq<T> {
    let a = match offset {
        Some(o) => if o >= s.len() { Seq::empty() } else { s.skip(o as int) },
        None => s,
    };
    match limit {
        Some(l) => if l < a.len() { a.take(l as int) } else { a },
        None => a,
    }
}

/// Applies an offset and a limit to a list.
pub fn paginate<T>(v: Vec<T>, offset: Option<usize>, limit: Option<usize>) -> (r: Vec<T>)
    ensures
        r@ == paginated(v@, offset, limit),
{
    let mut v = v;
    if let Some(o) = offset {
        if o >= v.len() {
            v.clear();
        } else {
            v = v.split_off(o);
        }
    }
    if let Some(l) = limit {
        v.truncate(l);
    }
    v
}

/// What `str::to_lowercase` makes of a text (Unicode lower-casing).
pub uninterp spec fn lowercase(s: Seq<char>) -> Seq<char>;

/// Calls `str::to_lowercase`; the result is the named lower-cased text.
#[verifier::external_body]
pub(crate) fn to_lowercase(s: &str) -> (r: String)
    ensures
        r@ == lowercase(s@),
{
    s.to_lowercase()
}

/// Case-insensitive containment, as the searches test it.
pub open spec fn contains_ignoring_case(s: Seq<char>, query: Seq<char>) -> bool {
    has_substring(lowercase(s), lowercase(query))
}

/// Executable [`contains_ignoring_case`].
pub fn str_contains_ignoring_case(s: &str, query: &str) -> (b: bool)
    ensures
        b == contains_ignoring_case(s@, query@),
{
    let ls = to_lowercase(s);
    let lq = to_lowercase(query);
    str_contains(ls.as_str(), lq.as_str())
}

/// A title or description matches a text search when it contains it, ignoring case.
pub open spec fn text_matches(title: Seq<char>, description: Option<Seq<char>>, query: Seq<char>) -> bool {
    contains_ignoring_case(title, query) || match description {
        Some(d) => contains_ignoring_case(d, query),
        None => false,
    }
}

/// Whether `issue_labels` holds any of `wanted`.
pub open spec fn shares_label(issue_labels: Seq<Seq<char>>, wanted: Seq<Seq<char>>) -> bool {
    exists|i: int| 0 <= i < wanted.len() && issue_labels.contains(#[trigger] wanted[i])
}

/// Whether an issue passes every filter of a query (paging aside).
pub open spec fn issue_matches_query(issue: Issue, q: IssueQuery) -> bool {
    &&& q.project_id matches Some(p) ==> opt_view(issue.project_id) == Some(p@)
    &&& q.assignee matches Some(a) ==> views(issue.assignees@).contains(a@)
    &&& q.author matches Some(a) ==> issue.author@ == a@
    &&& q.status matches Some(s) ==> issue.status == s
    &&& q.priority matches Some(p) ==> issue.priority == p
    &&& q.labels@.len() > 0 ==> shares_label(views(issue.labels@), views(q.labels@))
}

/// Every element of a page of a list is an element of the list.
proof fn lemma_paginated_from(s: Seq<Issue>, offset: Option<usize>, limit: Option<usize>, i: int)
    requires
        0 <= i < paginated(s, offset, limit).len(),
    ensures
        s.contains(paginated(s, offset, limit)[i]),
{
    let a = match offset {
        Some(o) => if o >= s.len() { Seq::<Issue>::empty() } else { s.skip(o as int) },
        None => s,
    };
    let k: int = match offset {
        Some(o) => if o >= s.len() { 0 } else { o as int },
        None => 0,
    };
    assert(paginated(s, offset, limit)[i] == a[i]);
    assert(a[i] == s[i + k]);
}

/// Every issue a query lists is one of the issues given, and meets each filter the
/// query sets: its project, an assignee, its author, its status, its priority, and one
/// of its labels among those asked for.
pub proof fn lemma_listed_issues_meet_filters(issues: Seq<Issue>, q: IssueQuery, i: int)
    requires
        0 <= i < paginated(issues.filter(|x: Issue| issue_matches_query(x, q)), q.offset, q.limit).len(),
    ensures
        ({
            let x = paginated(issues.filter(|x: Issue| issue_matches_query(x, q)), q.offset, q.limit)[i];
            &&& issues.contains(x)
            &&& q.project_id matches Some(p) ==> opt_view(x.project_id) == Some(p@)
            &&& q.assignee matches Some(a) ==> views(x.assignees@).contains(a@)
            &&& q.author matches Some(a) ==> x.author@ == a@
            &&& q.status matches Some(st) ==> x.status == st
            &&& q.priority matches Some(pr) ==> x.priority == pr
            &&& q.labels@.len() > 0 ==> exists|j: int|
                0 <= j < q.labels@.len() && views(x.labels@).contains(#[trigger] views(q.labels@)[j])
        }),
{
    let pred = |x: Issue| issue_matches_query(x, q);
    let f = issues.filter(pred);
    lemma_paginated_from(f, q.offset, q.limit, i);
    let x = paginated(f, q.offset, q.limit)[i];
    let j = choose|j: int| 0 <= j < f.len() && f[j] == x;
    f.filter_lemma(pred);
    issues.filter_lemma(pred);
    assert(pred(f[j]));
    issues.lemma_filter_contains_rev(pred, x);
}

/// Without paging, a query lists exactly the given issues that meet its filters: an
/// issue with another status than the one asked for is never listed, and one that meets
/// every filter always is.
pub proof fn lemma_unpaged_listing(issues: Seq<Issue>, q: IssueQuery, x: Issue)
    requires
        q.offset is None,
        q.limit is None,
    ensures
        paginated(issues.filter(|y: Issue| issue_matches_query(y, q)), q.offset, q.limit).contains(x) <==> {
            &&& issues.contains(x)
            &&& q.project_id matches Some(p) ==> opt_view(x.project_id) == Some(p@)
            &&& q.assignee matches Some(a) ==> views(x.assignees@).contains(a@)
            &&& q.author matches Some(a) ==> x.author@ == a@
            &&& q.status matches Some(st) ==> x.status == st
            &&& q.priority matches Some(pr) ==> x.priority == pr
            &&& q.labels@.len() > 0 ==> exists|j: int|
                0 <= j < q.labels@.len() && views(x.labels@).contains(#[trigger] views(q.labels@)[j])
        },
{
    let pred = |y: Issue| issue_matches_query(y, q);
    let f = issues.filter(pred);
    assert(paginated(f, q.offset, q.limit) == f);
    if f.contains(x) {
        issues.lemma_filter_contains_rev(pred, x);
    }
    if issues.contains(x) && pred(x) {
        let k = choose|k: int| 0 <= k < issues.len() && issues[k] == x;
        issues.filter_lemma(pred);
    }
}

/// Whether an optional string holds exactly `s`.
fn opt_is(o: &Option<String>, s: &str) -> (b: bool)
    ensures
        b == (opt_view(*o) == Some(s@)),
{
    match o {
        Some(x) => str_eq(x.as_str(), s),
        None => false,
    }
}

/// Whether any of `wanted` is among `have`.
fn any_shared(have: &Vec<String>, wanted: &Vec<String>) -> (b: bool)
    ensures
        b == shares_label(views(have@), views(wanted@)),
{
    let mut i: usize = 0;
    while i < wanted.len()
        invariant
            i <= wanted.len(),
            forall|j: int| 0 <= j < i ==> !views(have@).contains(#[trigger] views(wanted@)[j]),
        decreases wanted.len() - i,
    {
        if list_contains(have, wanted[i].as_str()) {
            assert(views(wanted@)[i as int] == wanted@[i as int]@);
            return true;
        }
        assert(views(wanted@)[i as int] == wanted@[i as int]@);
        i = i + 1;
    }
    false
}

/// Whether an issue passes every filter of a query.
pub fn issue_matches(issue: &Issue, q: &IssueQuery) -> (b: bool)
    ensures
        b == issue_matches_query(*issue, *q),
{
    if let Some(p) = &q.project_id {
        if !opt_is(&issue.project_id, p.as_str()) {
            return false;
        }
    }
    if let Some(a) = &q.assignee {
        if !list_contains(&issue.assignees, a.as_str()) {
            return false;
        }
    }
    if let Some(a) = &q.author {
        if !str_eq(issue.author.as_str(), a.as_str()) {
            return false;
        }
    }
    if let Some(s) = q.status {
        if issue.status != s {
            return false;
        }
    }
    if let Some(p) = q.priority {
        if issue.priority != p {
            return false;
        }
    }
    if q.labels.len() > 0 {
        if !any_shared(&issue.labels, &q.labels) {
            return false;
        }
    }
    true
}

/// The issues that pass the query's filters, in order, then paged by its offset and limit.
pub fn filter_issues(issues: Vec<Issue>, q: &IssueQuery) -> (r: Vec<Issue>)
    ensures
        r@ == paginated(issues@.filter(|i: Issue| issue_matches_query(i, *q)), q.offset, q.limit),
{
    let mut keep: Vec<bool> = Vec::new();
    let mut i: usize = 0;
    while i < issues.len()
        invariant
            i <= issues.len(),
            keep@.len() == i,
            forall|j: int| 0 <= j < i ==> keep@[j] == issue_matches_query(issues@[j], *q),
        decreases issues.len() - i,
    {
        keep.push(issue_matches(&issues[i], q));
        i = i + 1;
    }
    proof { lemma_masked_is_filter(issues@, keep@, |x: Issue| issue_matches_query(x, *q)); }
    let kept = keep_where(issues, &keep);
    paginate(kept, q.offset, q.limit)
}

/// The issues whose title or description contains `query`, ignoring case, in order.
pub fn search_issues(issues: Vec<Issue>, query: &str) -> (r: Vec<Issue>)
    ensures
        r@ == issues@.filter(|i: Issue| text_matches(i.title@, opt_view(i.description), query@)),
{
    let mut keep: Vec<bool> = Vec::new();
    let mut i: usize = 0;
    while i < issues.len()
        invariant
            i <= issues.len(),
            keep@.len() == i,
            forall|j: int| 0 <= j < i ==> keep@[j] == text_matches(issues@[j].title@, opt_view(issues@[j].description), query@),
        decreases issues.len() - i,
    {
        let it = &issues[i];
        let m = str_contains_ignoring_case(it.title.as_str(), query) || match &it.description {
            Some(d) => str_contains_ignoring_case(d.as_str(), query),
            None => false,
        };
        keep.push(m);
        i = i + 1;
    }
    proof {
        lemma_masked_is_filter(issues@, keep@, |x: Issue| text_matches(x.title@, opt_view(x.description), query@));
    }
    keep_where(issues, &keep)
}

/// Applies a partial update to an issue and stamps the update time.
pub fn apply_issue_update(issue: Issue, update: IssueUpdate) -> (r: Issue)
    ensures
        r == (Issue {
            title: match update.title { Some(t) => t, None => issue.title },
            description: match update.description { Some(d) => d, None => issue.description },
            status: match update.status { Some(s) => s, None => issue.status },
            priority: match update.priority { Some(p) => p, None => issue.priority },
            assignees: match update.assignees { Some(a) => a, None => issue.assignees },
            co_authors: match update.co_authors { Some(c) => c, None => issue.co_authors },
            labels: match update.labels { Some(l) => l, None => issue.labels },
            project_id: match update.project_id { Some(p) => p, None => issue.project_id },
            updated_at: r.updated_at,
            ..issue
        }),
{
    let mut issue = issue;
    if let Some(title) = update.title {
        issue.title = title;
    }
    if let Some(description) = update.description {
        issue.description = description;
    }
    if let Some(status) = update.status {
        issue.status = status;
    }
    if let Some(priority) = update.priority {
        issue.priority = priority;
    }
    if let Some(assignees) = update.assignees {
        issue.assignees = assignees;
    }
    if let Some(co_authors) = update.co_authors {
        issue.co_authors = co_authors;
    }
    if let Some(labels) = update.labels {
        issue.labels = labels;
    }
    if let Some(project_id) = update.project_id {
        issue.project_id = project_id;
    }
    issue.updated_at = now();
    issue
}

/// Whether a project passes the workspace and team filters of a query.
pub open spec fn project_matches_query(p: Project, q: ProjectQuery) -> bool {
    &&& q.workspace_id matches Some(w) ==> views(p.workspaces@).contains(w@)
    &&& q.team_id matches Some(t) ==> views(p.teams@).contains(t@)
}

/// The projects that pass the query's filters, in order, then paged.
/// (The `has_issues` filter is not applied by the stores.)
pub fn filter_projects(projects: Vec<Project>, q: &ProjectQuery) -> (r: Vec<Project>)
    ensures
        r@ == paginated(projects@.filter(|p: Project| project_matches_query(p, *q)), q.offset, q.limit),
{
    let mut keep: Vec<bool> = Vec::new();
    let mut i: usize = 0;
    while i < projects.len()
        invariant
            i <= projects.len(),
            keep@.len() == i,
            forall|j: int| 0 <= j < i ==> keep@[j] == project_matches_query(projects@[j], *q),
        decreases projects.len() - i,
    {
        let p = &projects[i];
        let mut m = true;
        if let Some(w) = &q.workspace_id {
            if !list_contains(&p.workspaces, w.as_str()) {
                m = false;
            }
        }
        if let Some(t) = &q.team_id {
            if !list_contains(&p.teams, t.as_str()) {
                m = false;
            }
        }
        keep.push(m);
        i = i + 1;
    }
    proof { lemma_masked_is_filter(projects@, keep@, |x: Project| project_matches_query(x, *q)); }
    let kept = keep_where(projects, &keep);
    paginate(kept, q.offset, q.limit)
}

/// The projects whose name or description contains `query`, ignoring case, in order.
pub fn search_projects(projects: Vec<Project>, query: &str) -> (r: Vec<Project>)
    ensures
        r@ == projects@.filter(|p: Project| text_matches(p.name@, opt_view(p.description), query@)),
{
    let mut keep: Vec<bool> = Vec::new();
    let mut i: usize = 0;
    while i < projects.len()
        invariant
            i <= projects.len(),
            keep@.len() == i,
            forall|j: int| 0 <= j < i ==> keep@[j] == text_matches(projects@[j].name@, opt_view(projects@[j].description), query@),
        decreases projects.len() - i,
    {
        let p = &projects[i];
        let m = str_contains_ignoring_case(p.name.as_str(), query) || match &p.description {
            Some(d) => str_contains_ignoring_case(d.as_str(), query),
            None => false,
        };
        keep.push(m);
        i = i + 1;
    }
    proof {
        lemma_masked_is_filter(projects@, keep@, |x: Project| text_matches(x.name@, opt_view(x.description), query@));
    }
    keep_where(projects, &keep)
}

/// Applies a partial update to a project and stamps the update time.
pub fn apply_project_update(project: Project, update: ProjectUpdate) -> (r: Project)
    ensures
        r == (Project {
            name: match update.name { Some(n) => n, None => project.name },
            description: match update.description { Some(d) => d, None => project.description },
            teams: match update.teams { Some(t) => t, None => project.teams },
            workspaces: match update.workspaces { Some(w) => w, None => project.workspaces },
            updated_at: r.updated_at,
            ..project
        }),
{
    let mut project = project;
    if let Some(name) = update.name {
        project.name = name;
    }
    if let Some(description) = update.description {
        project.description = description;
    }
    if let Some(teams) = update.teams {
        project.teams = teams;
    }
    if let Some(workspaces) = update.workspaces {
        project.workspaces = workspaces;
    }
    project.updated_at = now();
    project
}

/// Applies a partial update to a workspace.
pub fn apply_workspace_update(workspace: Workspace, update: WorkspaceUpdate) -> (r: Workspace)
    ensures
        r == (Workspace {
            path: match update.path { Some(p) => p, None => workspace.path },
            projects: match update.projects { Some(p) => p, None => workspace.projects },
            ..workspace
        }),
{
    let mut workspace = workspace;
    if let Some(path) = update.path {
        workspace.path = path;
    }
    if let Some(projects) = update.projects {
        workspace.projects = projects;
    }
    workspace
}

/// The first workspace at exactly `path`, if any.
pub fn find_workspace_by_path(workspaces: Vec<Workspace>, path: &str) -> (r: Option<Workspace>)
    ensures
        r is None <==> forall|i: int| 0 <= i < workspaces@.len() ==> workspaces@[i].path@ != path@,
        r matches Some(w) ==> exists|i: int| 0 <= i < workspaces@.len() && workspaces@[i] == w && w.path@ == path@
            && forall|j: int| 0 <= j < i ==> workspaces@[j].path@ != path@,
{
    let ghost all = workspaces@;
    let mut rest = workspaces;
    let ghost mut i: int = 0;
    while rest.len() > 0
        invariant
            all == workspaces@,
            0 <= i <= all.len(),
            rest@ == all.skip(i),
            forall|j: int| 0 <= j < i ==> all[j].path@ != path@,
        decreases rest.len(),
    {
        let w = rest.remove(0);
        proof {
            assert(w == all[i]);
            assert(all.skip(i + 1) =~= all.skip(i).remove(0));
        }
        if str_eq(w.path.as_str(), path) {
            assert(all[i].path@ == path@);
            return Some(w);
        }
        proof { i = i + 1; }
    }
    assert(i == all.len());
    None
}

/// The labels of the given colour (any, when the query names none), in order, then paged.
pub fn filter_labels(labels: Vec<Label>, q: &LabelQuery) -> (r: Vec<Label>)
    ensures
        r@ == paginated(labels@.filter(|l: Label| q.color matches Some(c) ==> l.color@ == c@), q.offset, q.limit),
{
    let mut keep: Vec<bool> = Vec::new();
    let mut i: usize = 0;
    while i < labels.len()
        invariant
            i <= labels.len(),
            keep@.len() == i,
            forall|j: int| 0 <= j < i ==> keep@[j] == (q.color matches Some(c) ==> labels@[j].color@ == c@),
        decreases labels.len() - i,
    {
        let m = match &q.color {
            Some(c) => str_eq(labels[i].color.as_str(), c.as_str()),
            None => true,
        };
        keep.push(m);
        i = i + 1;
    }
    proof { lemma_masked_is_filter(labels@, keep@, |l: Label| q.color matches Some(c) ==> l.color@ == c@); }
    let kept = keep_where(labels, &keep);
    paginate(kept, q.offset, q.limit)
}

/// Applies a partial update to a user.
pub fn apply_user_update(user: User, update: UserUpdate) -> (r: User)
    ensures
        r == (User {
            name: match update.name { Some(n) => n, None => user.name },
            email: match update.email { Some(e) => e, None => user.email },
            avatar: match update.avatar { Some(a) => a, None => user.avatar },
            teams: match update.teams { Some(t) => t, None => user.teams },
            ..user
        }),
{
    let mut user = user;
    if let Some(name) = update.name {
        user.name = name;
    }
    if let Some(email) = update.email {
        user.email = email;
    }
    if let Some(avatar) = update.avatar {
        user.avatar = avatar;
    }
    if let Some(teams) = update.teams {
        user.teams = teams;
    }
    user
}

/// Applies a partial update to a team.
pub fn apply_team_update(team: Team, update: TeamUpdate) -> (r: Team)
    ensures
        r == (Team {
            name: match update.name { Some(n) => n, None => team.name },
            description: match update.description { Some(d) => d, None => team.description },
            members: match update.members { Some(m) => m, None => team.members },
            ..team
        }),
{
    let mut team = team;
    if let Some(name) = update.name {
        team.name = name;
    }
    if let Some(description) = update.description {
        team.description = description;
    }
    if let Some(members) = update.members {
        team.members = members;
    }
    team
}

/// The users whose team list holds `team_id`, in order.
pub fn team_members(users: Vec<User>, team_id: &str) -> (r: Vec<User>)
    ensures
        r@ == users@.filter(|u: User| views(u.teams@).contains(team_id@)),
{
    let mut keep: Vec<bool> = Vec::new();
    let mut i: usize = 0;
    while i < users.len()
        invariant
            i <= users.len(),
            keep@.len() == i,
            forall|j: int| 0 <= j < i ==> keep@[j] == views(users@[j].teams@).contains(team_id@),
        decreases users.len() - i,
    {
        keep.push(list_contains(&users[i].teams, team_id));
        i = i + 1;
    }
    proof { lemma_masked_is_filter(users@, keep@, |u: User| views(u.teams@).contains(team_id@)); }
    keep_where(users, &keep)
}

/// The first user with the given e-mail address, if any.
pub fn find_user_by_email(users: Vec<User>, email: &str) -> (r: Option<User>)
    ensures
        r is None <==> forall|i: int| 0 <= i < users@.len() ==> users@[i].email@ != email@,
        r matches Some(u) ==> exists|i: int| 0 <= i < users@.len() && users@[i] == u && u.email@ == email@
            && forall|j: int| 0 <= j < i ==> users@[j].email@ != email@,
{
    let ghost all = users@;
    let mut rest = users;
    let ghost mut i: int = 0;
    while rest.len() > 0
        invariant
            all == users@,
            0 <= i <= all.len(),
            rest@ == all.skip(i),
            forall|j: int| 0 <= j < i ==> all[j].email@ != email@,
        decreases rest.len(),
    {
        let u = rest.remove(0);
        proof {
            assert(u == all[i]);
            assert(all.skip(i + 1) =~= all.skip(i).remove(0));
        }
        if str_eq(u.email.as_str(), email) {
            assert(all[i].email@ == email@);
            return Some(u);
        }
        proof { i = i + 1; }
    }
    assert(i == all.len());
    None
}

/// The remotes that sync `project_id`, in order.
pub fn remotes_for_project(remotes: Vec<Remote>, project_id: &str) -> (r: Vec<Remote>)
    ensures
        r@ == remotes@.filter(|x: Remote| views(x.projects@).contains(project_id@)),
{
    let mut keep: Vec<bool> = Vec::new();
    let mut i: usize = 0;
    while i < remotes.len()
        invariant
            i <= remotes.len(),
            keep@.len() == i,
            forall|j: int| 0 <= j < i ==> keep@[j] == views(remotes@[j].projects@).contains(project_id@),
        decreases remotes.len() - i,
    {
        keep.push(list_contains(&remotes[i].projects, project_id));
        i = i + 1;
    }
    proof { lemma_masked_is_filter(remotes@, keep@, |x: Remote| views(x.projects@).contains(project_id@)); }
    keep_where(remotes, &keep)
}

/// Whether a remote with the given name is among `remotes`.
pub fn remote_name_exists(remotes: &Vec<Remote>, name: &str) -> (b: bool)
    ensures
        b == exists|i: int| 0 <= i < remotes@.len() && remotes@[i].name@ == name@,
{
    let mut i: usize = 0;
    while i < remotes.len()
        invariant
            i <= remotes.len(),
            forall|j: int| 0 <= j < i ==> remotes@[j].name@ != name@,
        decreases remotes.len() - i,
    {
        if str_eq(remotes[i].name.as_str(), name) {
            return true;
        }
        i = i + 1;
    }
    false
}

/// The first remote with the given name, if any.
pub fn find_remote_by_name(remotes: Vec<Remote>, name: &str) -> (r: Option<Remote>)
    ensures
        r is None <==> forall|i: int| 0 <= i < remotes@.len() ==> remotes@[i].name@ != name@,
        r matches Some(x) ==> exists|i: int| 0 <= i < remotes@.len() && remotes@[i] == x && x.name@ == name@
            && forall|j: int| 0 <= j < i ==> remotes@[j].name@ != name@,
{
    let ghost all = remotes@;
    let mut rest = remotes;
    let ghost mut i: int = 0;
    while rest.len() > 0
        invariant
            all == remotes@,
            0 <= i <= all.len(),
            rest@ == all.skip(i),
            forall|j: int| 0 <= j < i ==> all[j].name@ != name@,
        decreases rest.len(),
    {
        let x = rest.remove(0);
        proof {
            assert(x == all[i]);
            assert(all.skip(i + 1) =~= all.skip(i).remove(0));
        }
        if str_eq(x.name.as_str(), name) {
            assert(all[i].name@ == name@);
            return Some(x);
        }
        proof { i = i + 1; }
    }
    assert(i == all.len());
    None
}

/// Reference name an issue is stored under: `issues/<uuid>`.
pub fn issue_ref_name(id: IssueId) -> (r: String)
    ensures
        r@ == "issues/"@ + uuid_text(id),
{
    proof { reveal_strlit("issues/"); }
    let mut r = copy_str("issues/");
    r.append(issue_id_text(id).as_str());
    r
}

/// Reference name of a record kept under `<prefix><id>`.
fn prefixed(prefix: &str, id: &str) -> (r: String)
    ensures
        r@ == prefix@ + id@,
{
    let mut r = copy_str(prefix);
    r.append(id);
    r
}

/// Reference name a project is stored under: `projects/<id>`.
pub fn project_ref_name(id: &str) -> (r: String)
    ensures
        r@ == "projects/"@ + id@,
{
    prefixed("projects/", id)
}

/// Reference name a workspace is stored under: `workspaces/<id>`.
pub fn workspace_ref_name(id: &str) -> (r: String)
    ensures
        r@ == "workspaces/"@ + id@,
{
    prefixed("workspaces/", id)
}

/// Reference name a label is stored under: `labels/<project>/<label>`.
pub fn label_ref_name(project_id: &str, label_id: &str) -> (r: String)
    ensures
        r@ == "labels/"@ + project_id@ + "/"@ + label_id@,
{
    let mut r = prefixed("labels/", project_id);
    r.append("/");
    r.append(label_id);
    r
}

/// Reference name a user is stored under: `users/<id>`.
pub fn user_ref_name(id: &str) -> (r: String)
    ensures
        r@ == "users/"@ + id@,
{
    prefixed("users/", id)
}

/// Reference name a team is stored under: `teams/<id>`.
pub fn team_ref_name(id: &str) -> (r: String)
    ensures
        r@ == "teams/"@ + id@,
{
    prefixed("teams/", id)
}

/// Reference name a remote is stored under: `remotes/<id>`.
pub fn remote_ref_name(id: &str) -> (r: String)
    ensures
        r@ == "remotes/"@ + id@,
{
    prefixed("remotes/", id)
}

/// Whether a reference name is in the `users/` family.
pub fn is_user_ref(name: &str) -> (b: bool)
    ensures
        b == has_prefix(name@, "users/"@),
{
    str_starts_with(name, "users/")
}

/// Whether a reference name is in the `teams/` family.
pub fn is_team_ref(name: &str) -> (b: bool)
    ensures
        b == has_prefix(name@, "teams/"@),
{
    str_starts_with(name, "teams/")
}

/// The issue records of a storage.
#[derive(Debug, Clone)]
pub struct FsIssueRepository {
    pub storage: FileSystemStorage,
}

impl FsIssueRepository {
    /// Issue records kept in `storage`.
    pub fn new(storage: FileSystemStorage) -> (r: Self)
        ensures
            r.storage == storage,
    {
        FsIssueRepository { storage }
    }
}

/// The project, workspace and label records of a storage.
#[derive(Debug, Clone)]
pub struct FsProjectRepository {
    pub storage: FileSystemStorage,
}

impl FsProjectRepository {
    /// Project, workspace and label records kept in `storage`.
    pub fn new(storage: FileSystemStorage) -> (r: Self)
        ensures
            r.storage == storage,
    {
        FsProjectRepository { storage }
    }
}

/// The user and team records of a storage.
#[derive(Debug, Clone)]
pub struct FsUserRepository {
    pub storage: FileSystemStorage,
}

impl FsUserRepository {
    /// User and team records kept in `storage`.
    pub fn new(storage: FileSystemStorage) -> (r: Self)
        ensures
            r.storage == storage,
    {
        FsUserRepository { storage }
    }
}

/// The remote records of a storage.
#[derive(Debug, Clone)]
pub struct FsRemoteRepository {
    pub storage: FileSystemStorage,
}

impl FsRemoteRepository {
    /// Remote records kept in `storage`.
    pub fn new(storage: FileSystemStorage) -> (r: Self)
        ensures
            r.storage == storage,
    {
        FsRemoteRepository { storage }
    }
}

/// `i` is where the newest issue of `s` stands: the first of those updated last.
pub open spec fn is_newest(s: Seq<Issue>, i: int) -> bool {
    &&& 0 <= i < s.len()
    &&& forall|j: int| 0 <= j < s.len() ==> (#[trigger] s[j]).updated_at <= s[i].updated_at
    &&& forall|j: int| 0 <= j < i ==> (#[trigger] s[j]).updated_at < s[i].updated_at
}

/// The `limit` most recently updated issues, newest first; issues updated at the same
/// time keep their order (a stable sort by update time, newest first, then the first
/// `limit`).
pub open spec fn most_recent(s: Seq<Issue>, limit: nat) -> Seq<Issue>
    decreases limit,
{
    if limit == 0 || s.len() == 0 {
        Seq::empty()
    } else {
        let i = choose|i: int| is_newest(s, i);
        seq![s[i]] + most_recent(s.remove(i), (limit - 1) as nat)
    }
}

/// The first of the newest issues.
fn newest_index(s: &Vec<Issue>) -> (i: usize)
    requires
        s@.len() > 0,
    ensures
        is_newest(s@, i as int),
{
    let mut best: usize = 0;
    let mut k: usize = 1;
    while k < s.len()
        invariant
            0 < k <= s@.len(),
            best < k,
            forall|j: int| 0 <= j < k ==> (#[trigger] s@[j]).updated_at <= s@[best as int].updated_at,
            forall|j: int| 0 <= j < best ==> (#[trigger] s@[j]).updated_at < s@[best as int].updated_at,
        decreases s.len() - k,
    {
        if s[k].updated_at > s[best].updated_at {
            best = k;
        }
        k = k + 1;
    }
    best
}

/// There is only one first newest issue.
proof fn lemma_newest_unique(s: Seq<Issue>, a: int, b: int)
    requires
        is_newest(s, a),
        is_newest(s, b),
    ensures
        a == b,
{
    if a < b {
        assert(s[a].updated_at < s[b].updated_at);
        assert(s[b].updated_at <= s[a].updated_at);
    } else if b < a {
        assert(s[b].updated_at < s[a].updated_at);
        assert(s[a].updated_at <= s[b].updated_at);
    }
}

/// The `limit` most recently updated issues, newest first (what `get_recent` returns).
pub fn recent_issues(issues: Vec<Issue>, limit: usize) -> (r: Vec<Issue>)
    ensures
        r@ == most_recent(issues@, limit as nat),
{
    let ghost all = issues@;
    let mut rest = issues;
    let mut r: Vec<Issue> = Vec::new();
    let mut left: usize = limit;
    while left > 0 && rest.len() > 0
        invariant
            r@ + most_recent(rest@, left as nat) == most_recent(all, limit as nat),
        decreases left,
    {
        let i = newest_index(&rest);
        let ghost before = rest@;
        proof {
            let c = choose|c: int| is_newest(before, c);
            lemma_newest_unique(before, c, i as int);
        }
        let x = rest.remove(i);
        proof {
            assert(rest@ =~= before.remove(i as int));
            assert(most_recent(before, left as nat) == seq![x] + most_recent(rest@, (left - 1) as nat));
        }
        let ghost r_before = r@;
        r.push(x);
        assert(r@ =~= r_before + seq![x]);
        assert(r@ + most_recent(rest@, (left - 1) as nat) =~= r_before + (seq![x] + most_recent(rest@, (left - 1) as nat)));
        left = left - 1;
    }
    assert(most_recent(rest@, left as nat) =~= Seq::<Issue>::empty());
    assert(r@ =~= r@ + Seq::<Issue>::empty());
    r
}

} // verus!

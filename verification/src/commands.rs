//! What the commands decide: the records they build from their arguments, the rules
//! their arguments must meet, the filters of the listings and the lines they print,
//! and the errors they answer with. Reading and writing the repositories and printing
//! are left to the caller.

use vstd::prelude::*;
use crate::cli::{IssueArgs, LabelArgs, ProjectArgs, RemoteArgs, TeamArgs};
use crate::errors::{CoreError, OdiError};
use crate::ids::{issue_id_text, parse_issue_id, random_id, uuid_parsed, uuid_text, IssueId};
use crate::issue::{status_name, status_text, transition_allowed, Issue, IssueStatus, Priority};
use crate::label::{valid_color, valid_label_description, valid_label_id, valid_label_name, Label};
use crate::project::{valid_project_id, Project};
use crate::queries::IssueQuery;
use crate::records::{lowercase, to_lowercase};
use crate::remote::{valid_remote_id, valid_remote_url, Remote};
use crate::team::Team;
use crate::text::{
    byte_len, copy_str, has_prefix, has_substring, is_blank, opt_view, str_contains,
    str_contains_char, str_eq, str_is_blank, str_starts_with, substring, views, pad_right, padded,
    push_unique, with_added,
};
use crate::user::User;

verus! {

broadcast use vstd::seq_lib::group_seq_properties, vstd::utf8::encode_utf8_decode_utf8;

// ---------------------------------------------------------------------------------
// Shared helpers

/// `prefix` followed by the first eight characters of a fresh random UUID's text:
/// the short identifiers of new projects, teams and users.
fn short_id(prefix: &str) -> (r: String)
    ensures
        exists|u: u128| r@ == prefix@ + uuid_text(u).take(8),
{
    let u = random_id();
    let t = issue_id_text(u);
    let head = substring(t.as_str(), 0, 8);
    let mut r = copy_str(prefix);
    r.append(head.as_str());
    assert(r@ == prefix@ + uuid_text(u).take(8));
    r
}

/// The texts of `v` with `sep` between them.
pub open spec fn joined(v: Seq<Seq<char>>, sep: Seq<char>) -> Seq<char>
    decreases v.len(),
{
    if v.len() == 0 {
        Seq::empty()
    } else if v.len() == 1 {
        v[0]
    } else {
        joined(v.drop_last(), sep) + sep + v.last()
    }
}

/// Joins strings with a separator, as `join` on a slice of strings does.
pub fn join_strings(v: &Vec<String>, sep: &str) -> (r: String)
    ensures
        r@ == joined(views(v@), sep@),
{
    let mut r = String::new();
    let mut i: usize = 0;
    while i < v.len()
        invariant
            i <= v@.len(),
            r@ == joined(views(v@).take(i as int), sep@),
        decreases v.len() - i,
    {
        let ghost before = r@;
        assert(views(v@).take(i + 1).drop_last() =~= views(v@).take(i as int));
        if i > 0 {
            r.append(sep);
        }
        r.append(v[i].as_str());
        proof {
            if i == 0 {
                assert(views(v@).take(1) =~= seq![v@[0]@]);
            }
        }
        i = i + 1;
    }
    assert(views(v@).take(v@.len() as int) =~= views(v@));
    r
}

/// A validation error of the core layer.
pub open spec fn is_core_validation(e: OdiError, field: Seq<char>, message: Seq<char>) -> bool {
    e matches OdiError::Core(CoreError::ValidationError { field: f, message: m }) && f@ == field && m@ == message
}

/// Builds a validation error of the core layer.
fn core_validation(field: &str, message: String) -> (e: OdiError)
    ensures
        is_core_validation(e, field@, message@),
{
    OdiError::Core(CoreError::ValidationError { field: copy_str(field), message })
}

/// `a` and `b` in a row.
fn concat2(a: &str, b: &str) -> (r: String)
    ensures
        r@ == a@ + b@,
{
    let mut r = copy_str(a);
    r.append(b);
    r
}

/// `a`, `b` and `c` in a row.
fn concat3(a: &str, b: &str, c: &str) -> (r: String)
    ensures
        r@ == a@ + b@ + c@,
{
    let mut r = copy_str(a);
    r.append(b);
    r.append(c);
    r
}

/// The text printed for an optional description.
pub open spec fn description_or_default(d: Option<Seq<char>>) -> Seq<char> {
    match d {
        Some(s) => s,
        None => "No description"@,
    }
}

fn description_or_default_text(d: &Option<String>) -> (r: String)
    ensures
        r@ == description_or_default(opt_view(*d)),
{
    match d {
        Some(s) => copy_str(s.as_str()),
        None => copy_str("No description"),
    }
}

/// Whether an optional description passes a description filter: without a filter
/// everything passes; with one, the description must exist and hold the filter,
/// both lower-cased.
pub open spec fn description_passes(d: Option<Seq<char>>, filter: Option<Seq<char>>) -> bool {
    match filter {
        None => true,
        Some(f) => match d {
            Some(s) => has_substring(lowercase(s), lowercase(f)),
            None => false,
        },
    }
}

fn description_passes_check(d: &Option<String>, filter: Option<&str>) -> (b: bool)
    ensures
        b == description_passes(opt_view(*d), match filter {
            Some(f) => Some(f@),
            None => None,
        }),
{
    match filter {
        None => true,
        Some(f) => match d {
            Some(s) => {
                let ls = to_lowercase(s.as_str());
                let lf = to_lowercase(f);
                str_contains(ls.as_str(), lf.as_str())
            },
            None => false,
        },
    }
}

/// The plain view of an optional text argument.
pub open spec fn arg_view(o: Option<&str>) -> Option<Seq<char>> {
    match o {
        Some(s) => Some(s@),
        None => None,
    }
}

// ---------------------------------------------------------------------------------
// Issues

/// The refusal of an issue id argument that is no UUID.
pub open spec fn bad_issue_id(e: OdiError, text: Seq<char>) -> bool {
    is_core_validation(e, "issue_id"@, "Invalid UUID format: "@ + text)
}

/// Reads an issue id argument as a UUID.
pub fn parse_issue_arg(text: &str) -> (r: Result<IssueId, OdiError>)
    ensures
        match uuid_parsed(text@) {
            Some(id) => r == Ok::<IssueId, OdiError>(id),
            None => r matches Err(e) && bad_issue_id(e, text@),
        },
{
    match parse_issue_id(text) {
        Some(id) => Ok(id),
        None => {
            let mut m = copy_str("Invalid UUID format: ");
            m.append(text);
            Err(core_validation("issue_id", m))
        },
    }
}

/// The refusal of showing an issue that does not exist.
pub fn issue_not_found(id: &str) -> (e: OdiError)
    ensures
        is_core_validation(e, "issue_id"@, "Issue '"@ + id@ + "' not found"@),
{
    core_validation("issue_id", concat3("Issue '", id, "' not found"))
}

/// Whether an issue passes the listing filters: its id's text must hold the id filter,
/// and its description must pass the description filter.
pub open spec fn issue_listed(issue: Issue, id_filter: Option<Seq<char>>, desc_filter: Option<Seq<char>>) -> bool {
    (match id_filter {
        Some(f) => has_substring(uuid_text(issue.id), f),
        None => true,
    }) && description_passes(opt_view(issue.description), desc_filter)
}

/// The line printed for a listed issue's assignees.
pub open spec fn assignee_text(assignees: Seq<Seq<char>>) -> Seq<char> {
    if assignees.len() == 0 {
        "Unassigned"@
    } else {
        "Assigned to: "@ + joined(assignees, ", "@)
    }
}

/// The line printed for a listed issue.
pub open spec fn issue_line(issue: Issue) -> Seq<char> {
    "  "@ + issue.title@ + " ("@ + uuid_text(issue.id) + ") - "@
        + description_or_default(opt_view(issue.description)) + " ["@ + status_name(issue.status) + "] "@
        + assignee_text(views(issue.assignees@))
}

impl IssueArgs {
    /// The issue `issue assign` stores: `user` added to the assignees unless already
    /// there; nothing else changes.
    pub fn assigned(issue: Issue, user: &str) -> (r: Issue)
        ensures
            views(r.assignees@) == with_added(views(issue.assignees@), user@),
            r == (Issue { assignees: r.assignees, ..issue }),
    {
        let mut r = issue;
        r.add_assignee(copy_str(user));
        r
    }

    /// The issue `issue label` stores: `label` added to the labels unless already
    /// there; nothing else changes.
    pub fn labelled(issue: Issue, label: &str) -> (r: Issue)
        ensures
            views(r.labels@) == with_added(views(issue.labels@), label@),
            r == (Issue { labels: r.labels, ..issue }),
    {
        let mut r = issue;
        push_unique(&mut r.labels, copy_str(label));
        r
    }

    /// The issue `issue status` stores: moved to `status` (stamped with the current
    /// time, and closed now when `status` is `Closed`) when the move is allowed; a move
    /// that is not allowed is refused with both status names.
    pub fn with_status(issue: Issue, status: IssueStatus) -> (r: Result<Issue, OdiError>)
        ensures
            transition_allowed(issue.status, status) ==> (r matches Ok(i) && {
                &&& i.status == status
                &&& status == IssueStatus::Closed ==> i.closed_at is Some
                &&& status != IssueStatus::Closed ==> i.closed_at == issue.closed_at
                &&& i == (Issue { status, updated_at: i.updated_at, closed_at: i.closed_at, ..issue })
            }),
            !transition_allowed(issue.status, status) ==> (r matches Err(OdiError::Core(
                CoreError::InvalidStatusTransition { from, to },
            )) && from@ == status_name(issue.status) && to@ == status_name(status)),
    {
        let from = issue.status;
        let mut r = issue;
        match r.update_status(status) {
            Ok(()) => Ok(r),
            Err(_) => Err(OdiError::Core(CoreError::InvalidStatusTransition { from: status_text(from), to: status_text(status) })),
        }
    }

    /// The issue `issue create` makes: an open issue by `author` with the given title,
    /// and the given id, description, priority (medium by default) and project. An id
    /// that is no UUID is refused.
    pub fn new_issue(
        title: &str,
        description: &Option<String>,
        project: &Option<String>,
        priority: Option<Priority>,
        id: Option<&str>,
        author: &str,
    ) -> (r: Result<Issue, OdiError>)
        ensures
            match id {
                Some(t) => uuid_parsed(t@) is None <==> r is Err,
                None => r is Ok,
            },
            r matches Err(e) ==> bad_issue_id(e, id->0@),
            r matches Ok(issue) ==> {
                &&& issue.title@ == title@
                &&& issue.author@ == author@
                &&& opt_view(issue.description) == opt_view(*description)
                &&& opt_view(issue.project_id) == opt_view(*project)
                &&& issue.priority == match priority {
                    Some(p) => p,
                    None => Priority::Medium,
                }
                &&& issue.status == IssueStatus::Open
                &&& (id matches Some(t) ==> uuid_parsed(t@) == Some(issue.id))
                &&& issue.assignees@.len() == 0
                &&& issue.co_authors@.len() == 0
                &&& issue.labels@.len() == 0
                &&& issue.git_refs@.len() == 0
                &&& issue.created_at == issue.updated_at
                &&& issue.closed_at is None
            },
    {
        let mut issue = Issue::new(copy_str(title), copy_str(author));
        match id {
            Some(t) => {
                issue.id = parse_issue_arg(t)?;
            },
            None => {},
        }
        issue.description = crate::text::copy_opt(description);
        match priority {
            Some(p) => {
                issue.priority = p;
            },
            None => {},
        }
        issue.project_id = crate::text::copy_opt(project);
        Ok(issue)
    }

    /// The repository query of `issue list`: by status and project.
    pub fn list_query(status: Option<IssueStatus>, project: &Option<String>) -> (q: IssueQuery)
        ensures
            q.status == status,
            opt_view(q.project_id) == opt_view(*project),
            q.assignee is None,
            q.author is None,
            q.priority is None,
            q.labels@.len() == 0,
            q.limit is None,
            q.offset is None,
    {
        let mut q = IssueQuery::new();
        q.status = status;
        q.project_id = crate::text::copy_opt(project);
        q
    }

    /// Whether an issue is listed by `issue list` with the id and description filters.
    pub fn is_listed(issue: &Issue, id_filter: Option<&str>, desc_filter: Option<&str>) -> (b: bool)
        ensures
            b == issue_listed(*issue, arg_view(id_filter), arg_view(desc_filter)),
    {
        let id_ok = match id_filter {
            Some(f) => {
                let t = issue_id_text(issue.id);
                str_contains(t.as_str(), f)
            },
            None => true,
        };
        id_ok && description_passes_check(&issue.description, desc_filter)
    }

    /// The issues `issue list` shows, in order.
    pub fn listed(issues: Vec<Issue>, id_filter: Option<&str>, desc_filter: Option<&str>) -> (r: Vec<Issue>)
        ensures
            r@ == issues@.filter(|i: Issue| issue_listed(i, arg_view(id_filter), arg_view(desc_filter))),
    {
        let mut keep: Vec<bool> = Vec::new();
        let mut i: usize = 0;
        while i < issues.len()
            invariant
                i <= issues@.len(),
                keep@.len() == i,
                forall|j: int| 0 <= j < i ==> keep@[j] == issue_listed(issues@[j], arg_view(id_filter), arg_view(desc_filter)),
            decreases issues.len() - i,
        {
            keep.push(Self::is_listed(&issues[i], id_filter, desc_filter));
            i = i + 1;
        }
        let ghost all = issues@;
        let r = crate::records::keep_where(issues, &keep);
        proof {
            crate::records::lemma_masked_is_filter(all, keep@, |x: Issue| issue_listed(x, arg_view(id_filter), arg_view(desc_filter)));
        }
        r
    }

    /// The line `issue list` prints for an issue.
    pub fn list_line(issue: &Issue) -> (r: String)
        ensures
            r@ == issue_line(*issue),
    {
        proof {
            reveal_strlit("Unassigned");
        }
        let mut r = copy_str("  ");
        r.append(issue.title.as_str());
        r.append(" (");
        let id = issue_id_text(issue.id);
        r.append(id.as_str());
        r.append(") - ");
        let d = description_or_default_text(&issue.description);
        r.append(d.as_str());
        r.append(" [");
        let s = status_text(issue.status);
        r.append(s.as_str());
        r.append("] ");
        if issue.assignees.len() == 0 {
            r.append("Unassigned");
        } else {
            r.append("Assigned to: ");
            let a = join_strings(&issue.assignees, ", ");
            r.append(a.as_str());
        }
        r
    }
}

// ---------------------------------------------------------------------------------
// Projects

/// Whether some project in `projects` is named `name`.
pub open spec fn project_named(projects: Seq<Project>, name: Seq<char>) -> bool {
    exists|i: int| 0 <= i < projects.len() && #[trigger] projects[i].name@ == name
}

/// Whether some project in `projects` has the id `id`.
pub open spec fn project_with_id(projects: Seq<Project>, id: Seq<char>) -> bool {
    exists|i: int| 0 <= i < projects.len() && #[trigger] projects[i].id@ == id
}

/// Whether a project passes the `project list` filters: its id must hold the id
/// filter, and its description must pass the description filter.
pub open spec fn project_listed(p: Project, id_filter: Option<Seq<char>>, desc_filter: Option<Seq<char>>) -> bool {
    (match id_filter {
        Some(f) => has_substring(p.id@, f),
        None => true,
    }) && description_passes(opt_view(p.description), desc_filter)
}

/// The line `project list` prints for a project.
pub open spec fn project_line(p: Project) -> Seq<char> {
    "  "@ + p.name@ + " (ID: "@ + p.id@ + ") - "@ + description_or_default(opt_view(p.description))
}

/// A project is named or identified by `name`.
pub open spec fn project_matches(p: Project, name: Seq<char>) -> bool {
    p.name@ == name || p.id@ == name
}

/// `i` is the first project whose name or id is `name`.
pub open spec fn first_project_match(projects: Seq<Project>, name: Seq<char>, i: int) -> bool {
    &&& 0 <= i < projects.len()
    &&& project_matches(projects[i], name)
    &&& forall|j: int| 0 <= j < i ==> !#[trigger] project_matches(projects[j], name)
}

/// The first rule a new project breaks, as the field and message of the error: `name`
/// is its name, `id` the id it was given, if any, and `pid` the id it gets (the given
/// one, or one drawn for it).
pub open spec fn project_create_refusal(
    name: Seq<char>,
    id: Option<Seq<char>>,
    pid: Seq<char>,
    existing: Seq<Project>,
) -> Option<(Seq<char>, Seq<char>)> {
    if is_blank(name) {
        Some(("name"@, "Invalid project name"@))
    } else if id is Some && !valid_project_id(id->0) {
        Some(("project_id"@, "Invalid project ID: "@ + id->0))
    } else if project_named(existing, name) {
        Some(("project"@, "Project '"@ + name + "' already exists"@))
    } else if project_with_id(existing, pid) {
        Some(("project_id"@, "Project ID '"@ + pid + "' already exists"@))
    } else {
        None
    }
}

/// What creating a project gives: the error of the first rule it breaks, or the project
/// with id `pid`, the name and description asked for, and no issues or labels.
pub open spec fn project_created(
    r: Result<Project, OdiError>,
    name: Seq<char>,
    description: Option<Seq<char>>,
    id: Option<Seq<char>>,
    pid: Seq<char>,
    existing: Seq<Project>,
) -> bool {
    match project_create_refusal(name, id, pid, existing) {
        Some((f, m)) => r matches Err(e) && is_core_validation(e, f, m),
        None => r matches Ok(p) && p.id@ == pid && p.name@ == name && opt_view(p.description) == description
            && p.issues@.len() == 0 && p.labels@.len() == 0,
    }
}

/// The ids made up for projects created without one: `proj-` and the first eight
/// characters of a UUID's text.
pub open spec fn drawn_project_id(pid: Seq<char>) -> bool {
    exists|u: u128| pid == "proj-"@ + uuid_text(u).take(8)
}

/// The id a new project gets: the one given, or else the one drawn.
pub open spec fn chosen_project_id(id: Option<Seq<char>>, drawn: Seq<char>) -> Seq<char> {
    match id {
        Some(t) => t,
        None => drawn,
    }
}

impl ProjectArgs {
    /// The project `project create` makes, given the projects that exist. The name may
    /// not be blank; a given id must be a valid project id, and otherwise one is made
    /// up as `proj-` and eight characters of a random UUID; neither the name nor the id
    /// may be taken already.
    pub fn new_project(name: &str, description: &Option<String>, id: Option<&str>, existing: &Vec<Project>) -> (r: Result<Project, OdiError>)
        ensures
            id matches Some(t) ==> project_created(r, name@, opt_view(*description), Some(t@), t@, existing@),
            id is None ==> exists|pid: Seq<char>|
                drawn_project_id(pid) && #[trigger] project_created(r, name@, opt_view(*description), None, pid, existing@),
    {
        let drawn = match id {
            Some(_) => String::new(),
            None => short_id("proj-"),
        };
        let r = Self::new_project_with_id(name, description, id, drawn, existing);
        proof {
            if id is None {
                assert(drawn_project_id(drawn@));
                assert(project_created(r, name@, opt_view(*description), None, drawn@, existing@));
            }
        }
        r
    }

    /// The project `project create` makes with `drawn` as the id made up for it when
    /// none is given, given the projects that exist.
    pub fn new_project_with_id(
        name: &str,
        description: &Option<String>,
        id: Option<&str>,
        drawn: String,
        existing: &Vec<Project>,
    ) -> (r: Result<Project, OdiError>)
        ensures
            project_created(
                r,
                name@,
                opt_view(*description),
                arg_view(id),
                chosen_project_id(arg_view(id), drawn@),
                existing@,
            ),
    {
        if str_is_blank(name) {
            return Err(core_validation("name", copy_str("Invalid project name")));
        }
        let project_id = match id {
            Some(t) => {
                if !Project::validate_id(t) {
                    let mut m = copy_str("Invalid project ID: ");
                    m.append(t);
                    return Err(core_validation("project_id", m));
                }
                copy_str(t)
            },
            None => drawn,
        };
        let ghost ok = !is_blank(name@) && (id matches Some(t) ==> valid_project_id(t@))
            && project_id@ == chosen_project_id(arg_view(id), drawn@);
        let mut i: usize = 0;
        while i < existing.len()
            invariant
                ok,
                ok == (!is_blank(name@) && (id matches Some(t) ==> valid_project_id(t@))
                    && project_id@ == chosen_project_id(arg_view(id), drawn@)),
                i <= existing@.len(),
                forall|j: int| 0 <= j < i ==> (#[trigger] existing@[j]).name@ != name@,
            decreases existing.len() - i,
        {
            if str_eq(existing[i].name.as_str(), name) {
                assert(project_named(existing@, name@));
                return Err(core_validation("project", concat3("Project '", name, "' already exists")));
            }
            i = i + 1;
        }
        assert(!project_named(existing@, name@));
        let mut k: usize = 0;
        while k < existing.len()
            invariant
                ok,
                ok == (!is_blank(name@) && (id matches Some(t) ==> valid_project_id(t@))
                    && project_id@ == chosen_project_id(arg_view(id), drawn@)),
                !project_named(existing@, name@),
                k <= existing@.len(),
                forall|j: int| 0 <= j < k ==> (#[trigger] existing@[j]).id@ != project_id@,
            decreases existing.len() - k,
        {
            if str_eq(existing[k].id.as_str(), project_id.as_str()) {
                let e = core_validation("project_id", concat3("Project ID '", project_id.as_str(), "' already exists"));
                assert(project_with_id(existing@, project_id@));
                return Err(e);
            }
            k = k + 1;
        }
        assert(!project_with_id(existing@, project_id@));
        let mut p = Project::new(project_id, copy_str(name));
        p.description = crate::text::copy_opt(description);
        Ok(p)
    }

    /// Whether a project is listed by `project list` with the id and description filters.
    pub fn is_listed(p: &Project, id_filter: Option<&str>, desc_filter: Option<&str>) -> (b: bool)
        ensures
            b == project_listed(*p, arg_view(id_filter), arg_view(desc_filter)),
    {
        let id_ok = match id_filter {
            Some(f) => str_contains(p.id.as_str(), f),
            None => true,
        };
        id_ok && description_passes_check(&p.description, desc_filter)
    }

    /// The projects `project list` shows, in order.
    pub fn listed(projects: Vec<Project>, id_filter: Option<&str>, desc_filter: Option<&str>) -> (r: Vec<Project>)
        ensures
            r@ == projects@.filter(|p: Project| project_listed(p, arg_view(id_filter), arg_view(desc_filter))),
    {
        let mut keep: Vec<bool> = Vec::new();
        let mut i: usize = 0;
        while i < projects.len()
            invariant
                i <= projects@.len(),
                keep@.len() == i,
                forall|j: int| 0 <= j < i ==> keep@[j] == project_listed(projects@[j], arg_view(id_filter), arg_view(desc_filter)),
            decreases projects.len() - i,
        {
            keep.push(Self::is_listed(&projects[i], id_filter, desc_filter));
            i = i + 1;
        }
        let ghost all = projects@;
        let r = crate::records::keep_where(projects, &keep);
        proof {
            crate::records::lemma_masked_is_filter(all, keep@, |x: Project| project_listed(x, arg_view(id_filter), arg_view(desc_filter)));
        }
        r
    }

    /// The line `project list` prints for a project.
    pub fn list_line(p: &Project) -> (r: String)
        ensures
            r@ == project_line(*p),
    {
        let mut r = copy_str("  ");
        r.append(p.name.as_str());
        r.append(" (ID: ");
        r.append(p.id.as_str());
        r.append(") - ");
        let d = description_or_default_text(&p.description);
        r.append(d.as_str());
        r
    }

    /// The project `project show` and `project delete` act on: the first whose name or
    /// id is `name`.
    pub fn find(projects: &Vec<Project>, name: &str) -> (r: Option<usize>)
        ensures
            r matches Some(i) ==> first_project_match(projects@, name@, i as int),
            r is None ==> forall|j: int| 0 <= j < projects@.len() ==> !#[trigger] project_matches(projects@[j], name@),
    {
        let mut i: usize = 0;
        while i < projects.len()
            invariant
                i <= projects@.len(),
                forall|j: int| 0 <= j < i ==> !#[trigger] project_matches(projects@[j], name@),
            decreases projects.len() - i,
        {
            if str_eq(projects[i].name.as_str(), name) || str_eq(projects[i].id.as_str(), name) {
                return Some(i);
            }
            i = i + 1;
        }
        None
    }

    /// The refusal of a project that does not exist.
    pub fn not_found(name: &str) -> (e: OdiError)
        ensures
            is_core_validation(e, "project"@, "Project '"@ + name@ + "' not found"@),
    {
        core_validation("project", concat3("Project '", name, "' not found"))
    }
}

// ---------------------------------------------------------------------------------
// Teams

/// `i` is the first team named `name`.
pub open spec fn first_team_named(teams: Seq<Team>, name: Seq<char>, i: int) -> bool {
    &&& 0 <= i < teams.len()
    &&& teams[i].name@ == name
    &&& forall|j: int| 0 <= j < i ==> (#[trigger] teams[j]).name@ != name
}

/// The line `team list` prints for a team.
pub open spec fn team_line(t: Team) -> Seq<char> {
    "  "@ + t.name@ + " - "@ + description_or_default(opt_view(t.description))
}

impl TeamArgs {
    /// The team `team create` makes: named `name`, with the given description, and an
    /// id made up as `team-` and eight characters of a random UUID.
    pub fn new_team(name: &str, description: &Option<String>) -> (t: Team)
        ensures
            t.name@ == name@,
            opt_view(t.description) == opt_view(*description),
            exists|u: u128| t.id@ == "team-"@ + uuid_text(u).take(8),
            t.members@.len() == 0,
    {
        let mut t = Team::new(short_id("team-"), copy_str(name));
        t.description = crate::text::copy_opt(description);
        t
    }

    /// The user `team add-member` creates for a member it does not know: named and
    /// addressed by what was given, with an id made up as `user-` and eight characters
    /// of a random UUID.
    pub fn new_member(user_name: &str) -> (u: User)
        ensures
            u.name@ == user_name@,
            u.email@ == user_name@,
            exists|x: u128| u.id@ == "user-"@ + uuid_text(x).take(8),
            u.teams@.len() == 0,
    {
        User::new(short_id("user-"), copy_str(user_name), copy_str(user_name))
    }

    /// The team a subcommand acts on: the first named `name`.
    pub fn find(teams: &Vec<Team>, name: &str) -> (r: Option<usize>)
        ensures
            r matches Some(i) ==> first_team_named(teams@, name@, i as int),
            r is None ==> forall|j: int| 0 <= j < teams@.len() ==> (#[trigger] teams@[j]).name@ != name@,
    {
        let mut i: usize = 0;
        while i < teams.len()
            invariant
                i <= teams@.len(),
                forall|j: int| 0 <= j < i ==> (#[trigger] teams@[j]).name@ != name@,
            decreases teams.len() - i,
        {
            if str_eq(teams[i].name.as_str(), name) {
                return Some(i);
            }
            i = i + 1;
        }
        None
    }

    /// The line `team list` prints for a team.
    pub fn list_line(t: &Team) -> (r: String)
        ensures
            r@ == team_line(*t),
    {
        let mut r = copy_str("  ");
        r.append(t.name.as_str());
        r.append(" - ");
        let d = description_or_default_text(&t.description);
        r.append(d.as_str());
        r
    }
}

// ---------------------------------------------------------------------------------
// Labels

/// The first rule a new label's arguments break, as the message of the error.
pub open spec fn label_input_problem(id: Seq<char>, name: Seq<char>, color: Seq<char>, description: Option<Seq<char>>) -> Option<Seq<char>> {
    if !valid_label_id(id) {
        Some("Invalid label ID '"@ + id + "': must be 1-50 characters, alphanumeric with ._- allowed"@)
    } else if !valid_label_name(name) {
        Some("Invalid label name '"@ + name + "': must be 1-50 characters"@)
    } else if !valid_color(color) {
        Some("Invalid color format '"@ + color + "': must be #RRGGBB (e.g., #FF0000)"@)
    } else if description matches Some(d) && !valid_label_description(d) {
        Some("Description too long: maximum 200 characters"@)
    } else {
        None
    }
}

/// `r` is a validation error with message `m`.
pub open spec fn is_validation(e: OdiError, m: Seq<char>) -> bool {
    e matches OdiError::Validation { message } && message@ == m
}

/// How a label's description is shown in a listing: as it is up to 30 bytes, else its
/// first 27 bytes and `...`.
pub open spec fn shown_description(d: Seq<char>) -> Seq<char> {
    if byte_len(d) > 30 {
        vstd::utf8::decode_utf8(vstd::utf8::encode_utf8(d).subrange(0, 27)) + "..."@
    } else {
        d
    }
}

/// The row `label list` prints for a label (see `LabelArgs::list_line`).
pub open spec fn label_row(label: Label, dark: bool) -> Seq<char> {
    let indicator = label.color@ + if dark { " (dark)"@ } else { " (light)"@ };
    pad_right(label.id@, 12) + " "@ + pad_right(label.name@, 24) + " "@ + pad_right(indicator, 9) + " "@
        + match label.description {
        Some(d) => shown_description(d@),
        None => Seq::empty(),
    }
}

impl LabelArgs {
    /// Checks a new label's id, name, colour and description, in that order.
    pub fn validate_input(id: &str, name: &str, color: &str, description: Option<&str>) -> (r: Result<(), OdiError>)
        ensures
            match label_input_problem(id@, name@, color@, arg_view(description)) {
                None => r is Ok,
                Some(m) => r matches Err(e) && is_validation(e, m),
            },
    {
        if !Label::validate_id(id) {
            return Err(OdiError::Validation {
                message: concat3("Invalid label ID '", id, "': must be 1-50 characters, alphanumeric with ._- allowed"),
            });
        }
        if !Label::validate_name(name) {
            return Err(OdiError::Validation { message: concat3("Invalid label name '", name, "': must be 1-50 characters") });
        }
        if !Label::validate_color(color) {
            return Err(OdiError::Validation {
                message: concat3("Invalid color format '", color, "': must be #RRGGBB (e.g., #FF0000)"),
            });
        }
        match description {
            Some(d) => {
                if !Label::validate_description(d) {
                    return Err(OdiError::Validation { message: copy_str("Description too long: maximum 200 characters") });
                }
            },
            None => {},
        }
        Ok(())
    }

    /// The label `label create` makes from valid arguments.
    pub fn new_label(id: &str, name: &str, color: &str, description: Option<&str>) -> (l: Label)
        ensures
            l.id@ == id@,
            l.name@ == name@,
            l.color@ == color@,
            opt_view(l.description) == arg_view(description),
    {
        match description {
            Some(d) => Label::with_description(copy_str(id), copy_str(name), copy_str(color), copy_str(d)),
            None => Label::new(copy_str(id), copy_str(name), copy_str(color)),
        }
    }

    /// The refusal when the project a label is for does not exist.
    pub fn project_not_found(project_id: &str) -> (e: OdiError)
        ensures
            is_validation(e, "Project not found: "@ + project_id@),
    {
        OdiError::Validation { message: concat2("Project not found: ", project_id) }
    }

    /// The refusal when the project already has a label with the id.
    pub fn label_exists(project_id: &str, id: &str) -> (e: OdiError)
        ensures
            is_validation(e, "Label already exists in project '"@ + project_id@ + "': "@ + id@),
    {
        let mut m = copy_str("Label already exists in project '");
        m.append(project_id);
        m.append("': ");
        m.append(id);
        OdiError::Validation { message: m }
    }

    /// The row `label list` prints for a label: id and name in columns of 12 and 24
    /// characters, the colour marked dark or light in a column of 9, then the shown
    /// description. `dark` says whether the colour counts as dark.
    pub fn list_line(label: &Label, dark: bool) -> (r: String)
        requires
            label.description matches Some(d) ==> (byte_len(d@) > 30 ==> vstd::utf8::is_char_boundary(
                vstd::utf8::encode_utf8(d@),
                27,
            )),
        ensures
            r@ == label_row(*label, dark),
    {
        let mut r = padded(label.id.as_str(), 12);
        r.append(" ");
        let name = padded(label.name.as_str(), 24);
        r.append(name.as_str());
        r.append(" ");
        let indicator = if dark {
            concat2(label.color.as_str(), " (dark)")
        } else {
            concat2(label.color.as_str(), " (light)")
        };
        let indicator = padded(indicator.as_str(), 9);
        r.append(indicator.as_str());
        r.append(" ");
        match &label.description {
            Some(d) => {
                let shown = LabelArgs::shown_description(d.as_str());
                r.append(shown.as_str());
            },
            None => {
                proof {
                    reveal_strlit("");
                }
            },
        }
        r
    }

    /// A description as `label list` shows it.
    pub fn shown_description(description: &str) -> (r: String)
        requires
            byte_len(description@) > 30 ==> vstd::utf8::is_char_boundary(vstd::utf8::encode_utf8(description@), 27),
        ensures
            r@ == shown_description(description@),
    {
        if description.len() > 30 {
            let (head, _) = description.split_at(27);
            assert(head@ == vstd::utf8::decode_utf8(vstd::utf8::encode_utf8(head@)));
            concat2(head, "...")
        } else {
            copy_str(description)
        }
    }
}

// ---------------------------------------------------------------------------------
// Remotes

/// The row `remote list` prints: name, URL and projects in columns of 8, 29 and 8
/// characters, then when the remote last synchronised (`Never` if it did not).
pub open spec fn remote_row(remote: Remote, synced_at: Option<Seq<char>>) -> Seq<char> {
    let projects = if remote.projects@.len() == 0 {
        "All"@
    } else {
        crate::net::decimal(remote.projects@.len() as nat)
    };
    pad_right(remote.name@, 8) + " "@ + pad_right(remote.url@, 29) + " "@ + pad_right(projects, 8) + " "@
        + match synced_at {
        Some(t) => t,
        None => "Never"@,
    }
}

/// The first rule a new remote's name and URL break, as the message of the error.
pub open spec fn remote_input_problem(name: Seq<char>, url: Seq<char>) -> Option<Seq<char>> {
    if !valid_remote_id(name) {
        Some("Invalid remote name '"@ + name + "': must be 3-50 characters, alphanumeric with ._- allowed"@)
    } else if !valid_remote_url(url) {
        Some("Invalid URL format: "@ + url)
    } else {
        None
    }
}

/// How `remote add` names the authentication a URL uses.
pub open spec fn authentication_kind(url: Seq<char>) -> Seq<char> {
    if has_prefix(url, "ssh://"@) || url.contains('@') {
        "SSH"@
    } else if has_prefix(url, "https://"@) {
        "HTTPS"@
    } else {
        "Unknown"@
    }
}

impl RemoteArgs {
    /// Checks a new remote's name, then its URL.
    pub fn validate_new_remote(name: &str, url: &str) -> (r: Result<(), OdiError>)
        ensures
            match remote_input_problem(name@, url@) {
                None => r is Ok,
                Some(m) => r matches Err(e) && is_validation(e, m),
            },
    {
        if !Remote::validate_id(name) {
            return Err(OdiError::Validation {
                message: concat3("Invalid remote name '", name, "': must be 3-50 characters, alphanumeric with ._- allowed"),
            });
        }
        if !Remote::validate_url(url) {
            return Err(OdiError::Validation { message: concat2("Invalid URL format: ", url) });
        }
        Ok(())
    }

    /// The remote `remote add` stores: its name is also its id.
    pub fn new_remote(name: &str, url: &str) -> (r: Remote)
        ensures
            r.id@ == name@,
            r.name@ == name@,
            r.url@ == url@,
            r.projects@.len() == 0,
            r.last_sync is None,
    {
        Remote::new(copy_str(name), copy_str(name), copy_str(url))
    }

    /// The refusal of a remote name that is taken.
    pub fn already_exists(name: &str) -> (e: OdiError)
        ensures
            is_validation(e, "Remote already exists: "@ + name@),
    {
        OdiError::Validation { message: concat2("Remote already exists: ", name) }
    }

    /// The authentication `remote add` reports for a URL.
    pub fn authentication(url: &str) -> (r: String)
        ensures
            r@ == authentication_kind(url@),
    {
        if str_starts_with(url, "ssh://") || str_contains_char(url, '@') {
            copy_str("SSH")
        } else if str_starts_with(url, "https://") {
            copy_str("HTTPS")
        } else {
            copy_str("Unknown")
        }
    }

    /// What `remote list` prints for the projects of a remote: `All` when it names
    /// none, else how many.
    pub fn projects_text(remote: &Remote) -> (r: String)
        ensures
            r@ == if remote.projects@.len() == 0 {
                "All"@
            } else {
                crate::net::decimal(remote.projects@.len() as nat)
            },
    {
        let n = remote.project_count();
        if n == 0 {
            copy_str("All")
        } else {
            crate::net::decimal_text(n as u64)
        }
    }

    /// The row `remote list` prints for a remote. `synced_at` is the time of its last
    /// synchronisation as the listing writes it, `None` when it never synchronised.
    pub fn list_line(remote: &Remote, synced_at: Option<&str>) -> (r: String)
        ensures
            r@ == remote_row(*remote, arg_view(synced_at)),
    {
        let mut r = padded(remote.name.as_str(), 8);
        r.append(" ");
        let url = padded(remote.url.as_str(), 29);
        r.append(url.as_str());
        r.append(" ");
        let projects = RemoteArgs::projects_text(remote);
        let projects = padded(projects.as_str(), 8);
        r.append(projects.as_str());
        r.append(" ");
        match synced_at {
            Some(t) => r.append(t),
            None => r.append("Never"),
        }
        r
    }

    /// The remote a synchronisation uses: the one named, or `origin`.
    pub fn remote_or_origin(remote: Option<&str>) -> (r: String)
        ensures
            r@ == match remote {
                Some(n) => n@,
                None => "origin"@,
            },
    {
        match remote {
            Some(n) => copy_str(n),
            None => copy_str("origin"),
        }
    }

    /// The refusal of `push` and `pull` when the remote does not exist.
    pub fn not_found_for_sync(name: &str) -> (e: OdiError)
        ensures
            is_validation(e, "Remote not found: "@ + name@),
    {
        OdiError::Validation { message: concat2("Remote not found: ", name) }
    }

    /// The refusal of `remote show`, `remote remove` and `remote sync-status` when the
    /// remote does not exist.
    pub fn not_found(name: &str) -> (e: OdiError)
        ensures
            is_core_validation(e, "remote"@, "Remote '"@ + name@ + "' not found"@),
    {
        core_validation("remote", concat3("Remote '", name, "' not found"))
    }
}

} // verus!

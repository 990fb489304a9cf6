//! What `fsck` checks of each record and object file, how it sums them up, and the
//! storage statistics it reports.

use vstd::prelude::*;
use crate::cli::FsckArgs;
use crate::clock::Timestamp;
use crate::errors::OdiError;
use crate::issue::{Issue, IssueStatus, Priority};
use crate::net::{decimal, decimal_text};
use crate::project::Project;
use crate::team::Team;
use crate::text::{copy_str, is_blank, str_contains_char, str_is_blank, views};
use crate::user::User;

verus! {

/// What is wrong with an issue: a blank title, a creation date in the future, an
/// update date before the creation date.
#[derive(Debug, Clone)]
pub struct IssueFindings {
    pub empty_title: bool,
    pub future_creation: bool,
    pub updated_before_created: bool,
}

/// What is wrong with a project: a blank name, a creation date in the future.
#[derive(Debug, Clone)]
pub struct ProjectFindings {
    pub empty_name: bool,
    pub future_creation: bool,
}

/// What is wrong with a user: a blank name, an email without `@`.
#[derive(Debug, Clone)]
pub struct UserFindings {
    pub empty_name: bool,
    pub invalid_email: bool,
}

/// What a file in the objects directory holds.
#[derive(Debug, Clone, Copy, PartialEq, Eq, Structural)]
pub enum ObjectFileStatus {
    /// No bytes at all.
    Empty,
    /// More than 10 MiB.
    TooLarge,
    /// A record of a known kind.
    Valid,
    /// Bytes that no known kind decodes.
    Corrupt,
}

/// The largest object file that is not reported as unusually large.
pub const MAX_OBJECT_BYTES: usize = 10485760;

/// How many of three flags are set.
pub open spec fn flags_set(a: bool, b: bool, c: bool) -> nat {
    (if a { 1nat } else { 0nat }) + (if b { 1nat } else { 0nat }) + (if c { 1nat } else { 0nat })
}

impl IssueFindings {
    /// How many problems were found.
    pub fn count(&self) -> (n: u32)
        ensures
            n == flags_set(self.empty_title, self.future_creation, self.updated_before_created),
    {
        let mut n: u32 = 0;
        if self.empty_title {
            n = n + 1;
        }
        if self.future_creation {
            n = n + 1;
        }
        if self.updated_before_created {
            n = n + 1;
        }
        n
    }
}

impl ProjectFindings {
    /// How many problems were found.
    pub fn count(&self) -> (n: u32)
        ensures
            n == flags_set(self.empty_name, self.future_creation, false),
    {
        let mut n: u32 = 0;
        if self.empty_name {
            n = n + 1;
        }
        if self.future_creation {
            n = n + 1;
        }
        n
    }
}

impl UserFindings {
    /// How many problems were found.
    pub fn count(&self) -> (n: u32)
        ensures
            n == flags_set(self.empty_name, self.invalid_email, false),
    {
        let mut n: u32 = 0;
        if self.empty_name {
            n = n + 1;
        }
        if self.invalid_email {
            n = n + 1;
        }
        n
    }
}

/// How many issues have a status.
pub open spec fn status_count(issues: Seq<Issue>, s: IssueStatus) -> nat {
    issues.filter(|i: Issue| i.status == s).len()
}

/// How many issues have a priority.
pub open spec fn priority_count(issues: Seq<Issue>, p: Priority) -> nat {
    issues.filter(|i: Issue| i.priority == p).len()
}

/// The rough storage estimate of `fsck stats`: 250 bytes per issue, 150 per project,
/// 120 per user and 100 per team.
pub open spec fn estimated_bytes(issues: nat, projects: nat, users: nat, teams: nat) -> nat {
    issues * 250 + projects * 150 + users * 120 + teams * 100
}

/// How many problems an issue has, at the clock reading `now`.
pub open spec fn issue_problems(i: Issue, now: Timestamp) -> nat {
    flags_set(is_blank(i.title@), i.created_at > now, i.updated_at < i.created_at)
}

/// How many problems the issues have in all.
pub open spec fn issues_problems(s: Seq<Issue>, now: Timestamp) -> nat
    decreases s.len(),
{
    if s.len() == 0 {
        0
    } else {
        issues_problems(s.drop_last(), now) + issue_problems(s.last(), now)
    }
}

/// How many problems the projects have in all: blank names and creation dates after `now`.
pub open spec fn projects_problems(s: Seq<Project>, now: Timestamp) -> nat
    decreases s.len(),
{
    if s.len() == 0 {
        0
    } else {
        projects_problems(s.drop_last(), now) + flags_set(is_blank(s.last().name@), s.last().created_at > now, false)
    }
}

/// How many problems the users have in all: blank names and emails without `@`.
pub open spec fn users_problems(s: Seq<User>) -> nat
    decreases s.len(),
{
    if s.len() == 0 {
        0
    } else {
        users_problems(s.drop_last()) + flags_set(is_blank(s.last().name@), !s.last().email@.contains('@'), false)
    }
}

/// How many teams have a blank name.
pub open spec fn teams_problems(s: Seq<Team>) -> nat
    decreases s.len(),
{
    if s.len() == 0 {
        0
    } else {
        teams_problems(s.drop_last()) + flags_set(is_blank(s.last().name@), false, false)
    }
}

/// The lines that close an integrity check, after its heading: the counts, then the
/// verdict, with a hint to repair when problems were found outside a dry run.
pub open spec fn fsck_summary(checked: nat, found: nat, dry_run: bool) -> Seq<Seq<char>> {
    seq!["  Objects checked: "@ + decimal(checked), "  Issues found: "@ + decimal(found)] + if found == 0 {
        seq!["✅ Object store is healthy!"@]
    } else if dry_run {
        seq!["⚠️  Found "@ + decimal(found) + " integrity issues"@]
    } else {
        seq!["⚠️  Found "@ + decimal(found) + " integrity issues"@, "💡 Run 'odi fsck repair' to attempt automatic fixes"@]
    }
}

impl FsckArgs {
    /// Checks an issue against the clock reading `now`.
    pub fn check_issue(issue: &Issue, now: Timestamp) -> (f: IssueFindings)
        ensures
            f.empty_title == is_blank(issue.title@),
            f.future_creation == (issue.created_at > now),
            f.updated_before_created == (issue.updated_at < issue.created_at),
    {
        IssueFindings {
            empty_title: str_is_blank(issue.title.as_str()),
            future_creation: issue.created_at > now,
            updated_before_created: issue.updated_at < issue.created_at,
        }
    }

    /// Checks a project against the clock reading `now`.
    pub fn check_project(project: &Project, now: Timestamp) -> (f: ProjectFindings)
        ensures
            f.empty_name == is_blank(project.name@),
            f.future_creation == (project.created_at > now),
    {
        ProjectFindings { empty_name: str_is_blank(project.name.as_str()), future_creation: project.created_at > now }
    }

    /// Checks a user.
    pub fn check_user(user: &User) -> (f: UserFindings)
        ensures
            f.empty_name == is_blank(user.name@),
            f.invalid_email == !user.email@.contains('@'),
    {
        UserFindings { empty_name: str_is_blank(user.name.as_str()), invalid_email: !str_contains_char(user.email.as_str(), '@') }
    }

    /// Checks a team: only its name can be wrong (blank).
    pub fn check_team(team: &Team) -> (empty_name: bool)
        ensures
            empty_name == is_blank(team.name@),
    {
        str_is_blank(team.name.as_str())
    }

    /// The problems found in all the issues, at the clock reading `now`.
    pub fn issue_problem_total(issues: &Vec<Issue>, now: Timestamp) -> (n: u64)
        requires
            3 * issues@.len() <= u64::MAX,
        ensures
            n == issues_problems(issues@, now),
    {
        let mut n: u64 = 0;
        let mut i: usize = 0;
        while i < issues.len()
            invariant
                i <= issues@.len(),
                3 * issues@.len() <= u64::MAX,
                n == issues_problems(issues@.take(i as int), now),
                n <= 3 * i,
            decreases issues.len() - i,
        {
            assert(issues@.take(i + 1).drop_last() =~= issues@.take(i as int));
            let f = Self::check_issue(&issues[i], now);
            n = n + f.count() as u64;
            i = i + 1;
        }
        assert(issues@.take(issues@.len() as int) =~= issues@);
        n
    }

    /// The problems found in all the projects, at the clock reading `now`.
    pub fn project_problem_total(projects: &Vec<Project>, now: Timestamp) -> (n: u64)
        requires
            3 * projects@.len() <= u64::MAX,
        ensures
            n == projects_problems(projects@, now),
    {
        let mut n: u64 = 0;
        let mut i: usize = 0;
        while i < projects.len()
            invariant
                i <= projects@.len(),
                3 * projects@.len() <= u64::MAX,
                n == projects_problems(projects@.take(i as int), now),
                n <= 3 * i,
            decreases projects.len() - i,
        {
            assert(projects@.take(i + 1).drop_last() =~= projects@.take(i as int));
            let f = Self::check_project(&projects[i], now);
            n = n + f.count() as u64;
            i = i + 1;
        }
        assert(projects@.take(projects@.len() as int) =~= projects@);
        n
    }

    /// The problems found in all the users.
    pub fn user_problem_total(users: &Vec<User>) -> (n: u64)
        requires
            3 * users@.len() <= u64::MAX,
        ensures
            n == users_problems(users@),
    {
        let mut n: u64 = 0;
        let mut i: usize = 0;
        while i < users.len()
            invariant
                i <= users@.len(),
                3 * users@.len() <= u64::MAX,
                n == users_problems(users@.take(i as int)),
                n <= 3 * i,
            decreases users.len() - i,
        {
            assert(users@.take(i + 1).drop_last() =~= users@.take(i as int));
            let f = Self::check_user(&users[i]);
            n = n + f.count() as u64;
            i = i + 1;
        }
        assert(users@.take(users@.len() as int) =~= users@);
        n
    }

    /// The problems found in all the teams.
    pub fn team_problem_total(teams: &Vec<Team>) -> (n: u64)
        ensures
            n == teams_problems(teams@),
    {
        let mut n: u64 = 0;
        let mut i: usize = 0;
        while i < teams.len()
            invariant
                i <= teams@.len(),
                n == teams_problems(teams@.take(i as int)),
                n <= i,
            decreases teams.len() - i,
        {
            assert(teams@.take(i + 1).drop_last() =~= teams@.take(i as int));
            if Self::check_team(&teams[i]) {
                n = n + 1;
            }
            i = i + 1;
        }
        assert(teams@.take(teams@.len() as int) =~= teams@);
        n
    }

    /// What an object file of `len` bytes holds, given whether some known kind of
    /// record decodes from it. Emptiness and size are checked before decoding.
    pub fn object_file_status(len: usize, decodes: bool) -> (s: ObjectFileStatus)
        ensures
            s == if len == 0 {
                ObjectFileStatus::Empty
            } else if len > MAX_OBJECT_BYTES {
                ObjectFileStatus::TooLarge
            } else if decodes {
                ObjectFileStatus::Valid
            } else {
                ObjectFileStatus::Corrupt
            },
    {
        if len == 0 {
            ObjectFileStatus::Empty
        } else if len > MAX_OBJECT_BYTES {
            ObjectFileStatus::TooLarge
        } else if decodes {
            ObjectFileStatus::Valid
        } else {
            ObjectFileStatus::Corrupt
        }
    }

    /// The lines that close an integrity check that looked at `checked` objects and
    /// found `found` problems.
    pub fn summary_lines(checked: u32, found: u32, dry_run: bool) -> (r: Vec<String>)
        ensures
            views(r@) == fsck_summary(checked as nat, found as nat, dry_run),
    {
        let mut r: Vec<String> = Vec::new();
        let mut a = copy_str("  Objects checked: ");
        let c = decimal_text(checked as u64);
        a.append(c.as_str());
        r.push(a);
        let mut b = copy_str("  Issues found: ");
        let f = decimal_text(found as u64);
        b.append(f.as_str());
        r.push(b);
        if found == 0 {
            r.push(copy_str("✅ Object store is healthy!"));
        } else {
            let mut m = copy_str("⚠️  Found ");
            m.append(f.as_str());
            m.append(" integrity issues");
            r.push(m);
            if !dry_run {
                r.push(copy_str("💡 Run 'odi fsck repair' to attempt automatic fixes"));
            }
        }
        assert(views(r@) =~= fsck_summary(checked as nat, found as nat, dry_run));
        r
    }

    /// The outcome of an integrity check that found `issues_found` problems: a
    /// validation error naming the count when there are any.
    pub fn verdict(issues_found: u32) -> (r: Result<(), OdiError>)
        ensures
            issues_found == 0 <==> r is Ok,
            r matches Err(e) ==> e matches OdiError::Validation { message }
                && message@ == "Found "@ + decimal(issues_found as nat) + " integrity issues"@,
    {
        if issues_found == 0 {
            return Ok(());
        }
        let mut m = copy_str("Found ");
        let n = decimal_text(issues_found as u64);
        m.append(n.as_str());
        m.append(" integrity issues");
        Err(OdiError::Validation { message: m })
    }

    /// How many issues have the status `s`.
    pub fn count_status(issues: &Vec<Issue>, s: IssueStatus) -> (n: usize)
        ensures
            n == status_count(issues@, s),
    {
        let mut n: usize = 0;
        let mut i: usize = 0;
        while i < issues.len()
            invariant
                i <= issues@.len(),
                n == status_count(issues@.take(i as int), s),
                n <= i,
            decreases issues.len() - i,
        {
            proof {
                let t = issues@.take(i + 1);
                assert(t.drop_last() =~= issues@.take(i as int));
                reveal(Seq::filter);
            }
            if issues[i].status == s {
                n = n + 1;
            }
            i = i + 1;
        }
        assert(issues@.take(issues@.len() as int) =~= issues@);
        n
    }

    /// How many issues have the priority `p`.
    pub fn count_priority(issues: &Vec<Issue>, p: Priority) -> (n: usize)
        ensures
            n == priority_count(issues@, p),
    {
        let mut n: usize = 0;
        let mut i: usize = 0;
        while i < issues.len()
            invariant
                i <= issues@.len(),
                n == priority_count(issues@.take(i as int), p),
                n <= i,
            decreases issues.len() - i,
        {
            proof {
                let t = issues@.take(i + 1);
                assert(t.drop_last() =~= issues@.take(i as int));
                reveal(Seq::filter);
            }
            if issues[i].priority == p {
                n = n + 1;
            }
            i = i + 1;
        }
        assert(issues@.take(issues@.len() as int) =~= issues@);
        n
    }

    /// The rough storage estimate of `fsck stats`, in bytes.
    pub fn estimated_storage(issues: usize, projects: usize, users: usize, teams: usize) -> (n: usize)
        requires
            estimated_bytes(issues as nat, projects as nat, users as nat, teams as nat) <= usize::MAX,
        ensures
            n == estimated_bytes(issues as nat, projects as nat, users as nat, teams as nat),
    {
        issues * 250 + projects * 150 + users * 120 + teams * 100
    }
}

} // verus!

use odi::cli::{FsckArgs, PullArgs, PushArgs};
use odi::errors::{NetError, OdiError};
use odi::fsck::ObjectFileStatus;
use odi::issue::{Issue, IssueStatus, Priority};
use odi::net::IssueMetadata;
use odi::project::Project;
use odi::team::Team;
use odi::transfer::{PullAction, PullStep, PushAction};
use odi::user::User;

fn issue(id: u128, updated_at: i64) -> Issue {
    let mut i = Issue::new(format!("issue {}", id), "ann".to_string());
    i.id = id;
    i.updated_at = updated_at;
    i
}

fn meta(id: u128, last_modified: i64) -> IssueMetadata {
    IssueMetadata {
        id,
        title: String::new(),
        status: IssueStatus::Open,
        priority: Priority::Low,
        last_modified,
        checksum: String::new(),
    }
}

#[test]
fn pull_decides_by_time() {
    let local = vec![issue(1, 100), issue(2, 200)];
    assert_eq!(PullArgs::action(&meta(1, 150), &local), PullAction::Update);
    assert_eq!(PullArgs::action(&meta(2, 200), &local), PullAction::Skip);
    assert_eq!(PullArgs::action(&meta(3, 1), &local), PullAction::Download);
}

#[test]
fn push_decides_by_time() {
    let remote = vec![meta(1, 100), meta(2, 300)];
    assert_eq!(PushArgs::action(&issue(1, 150), &remote), PushAction::UploadUpdated);
    assert_eq!(PushArgs::action(&issue(2, 300), &remote), PushAction::Skip);
    assert_eq!(PushArgs::action(&issue(9, 1), &remote), PushAction::UploadNew);
    let plan = PushArgs::plan(&vec![issue(1, 150), issue(2, 10), issue(5, 5)], &remote);
    assert_eq!(plan, vec![PushAction::UploadUpdated, PushAction::Skip, PushAction::UploadNew]);
}

#[test]
fn push_and_pull_never_both_move_an_issue() {
    for (l, r) in [(100i64, 200i64), (200, 100), (150, 150)] {
        let local = vec![issue(7, l)];
        let remote = vec![meta(7, r)];
        let push = PushArgs::action(&local[0], &remote);
        let pull = PullArgs::action(&remote[0], &local);
        assert!(!(push == PushAction::UploadUpdated && pull == PullAction::Update));
    }
}

#[test]
fn pull_filters_and_updates() {
    let mut i = issue(4, 10);
    i.project_id = Some("p1".to_string());
    i.assignees = vec!["x".to_string()];
    assert!(PullArgs::accepts(&i, None));
    assert!(PullArgs::accepts(&i, Some("p1")));
    assert!(!PullArgs::accepts(&i, Some("p2")));
    let u = PullArgs::update_from(&i);
    assert_eq!(u.title, Some(i.title.clone()));
    assert_eq!(u.assignees, Some(vec!["x".to_string()]));
    assert_eq!(u.project_id, Some(Some("p1".to_string())));
    assert_eq!(PullArgs::local_query(Some("p1")).project_id, Some("p1".to_string()));
    match PullArgs::failed(&NetError::Sync { message: "down".to_string() }) {
        OdiError::Command { message } => assert_eq!(message, "Pull operation failed: Sync error: down"),
        other => panic!("unexpected {:?}", other),
    }
    match PushArgs::failed(&NetError::Protocol { message: "bad".to_string() }) {
        OdiError::Command { message } => assert_eq!(message, "Push operation failed: Protocol error: bad"),
        other => panic!("unexpected {:?}", other),
    }
}

#[test]
fn integrity_checks() {
    let mut i = issue(1, 50);
    i.created_at = 100;
    i.title = "  ".to_string();
    let f = FsckArgs::check_issue(&i, 90);
    assert!(f.empty_title && f.future_creation && f.updated_before_created);
    assert_eq!(f.count(), 3);
    let mut ok = issue(2, 100);
    ok.created_at = 100;
    assert_eq!(FsckArgs::check_issue(&ok, 200).count(), 0);

    let p = Project::new("p".to_string(), "".to_string());
    let pf = FsckArgs::check_project(&p, i64::MAX);
    assert!(pf.empty_name && !pf.future_creation);
    let u = User::new("u".to_string(), "U".to_string(), "no-at".to_string());
    let uf = FsckArgs::check_user(&u);
    assert!(!uf.empty_name && uf.invalid_email);
    assert_eq!(uf.count(), 1);
    assert!(FsckArgs::check_team(&Team::new("t".to_string(), " ".to_string())));

    assert_eq!(FsckArgs::object_file_status(0, true), ObjectFileStatus::Empty);
    assert_eq!(FsckArgs::object_file_status(10 * 1024 * 1024 + 1, true), ObjectFileStatus::TooLarge);
    assert_eq!(FsckArgs::object_file_status(10 * 1024 * 1024, true), ObjectFileStatus::Valid);
    assert_eq!(FsckArgs::object_file_status(12, false), ObjectFileStatus::Corrupt);

    assert!(FsckArgs::verdict(0).is_ok());
    match FsckArgs::verdict(3) {
        Err(OdiError::Validation { message }) => assert_eq!(message, "Found 3 integrity issues"),
        other => panic!("unexpected {:?}", other),
    }
}

#[test]
fn storage_statistics() {
    let mut a = issue(1, 1);
    a.status = IssueStatus::Closed;
    a.priority = Priority::High;
    let b = issue(2, 1);
    let issues = vec![a, b];
    assert_eq!(FsckArgs::count_status(&issues, IssueStatus::Closed), 1);
    assert_eq!(FsckArgs::count_status(&issues, IssueStatus::Open), 1);
    assert_eq!(FsckArgs::count_status(&issues, IssueStatus::InProgress), 0);
    assert_eq!(FsckArgs::count_priority(&issues, Priority::Medium), 1);
    assert_eq!(FsckArgs::estimated_storage(2, 1, 1, 1), 870);
}

#[test]
fn most_recent_issues_first() {
    let issues = vec![issue(1, 10), issue(2, 30), issue(3, 20), issue(4, 30)];
    let recent = odi::records::recent_issues(issues.clone(), 3);
    let ids: Vec<u128> = recent.iter().map(|i| i.id).collect();
    assert_eq!(ids, vec![2, 4, 3]);
    assert!(odi::records::recent_issues(issues.clone(), 0).is_empty());
    assert_eq!(odi::records::recent_issues(issues, 10).len(), 4);
}

#[test]
fn push_tally_and_summary() {
    let steps = vec![
        (PushAction::UploadNew, true),
        (PushAction::UploadUpdated, false),
        (PushAction::Skip, false),
        (PushAction::UploadUpdated, true),
    ];
    assert_eq!(PushArgs::tally(&steps), (2, 1));
    assert_eq!(PushArgs::summary(2, 1), "✓ Push completed: 2 uploaded, 1 skipped");
    assert_eq!(PushArgs::summary(0, 3), "✓ Push completed: No changes to push");
}

#[test]
fn pull_tally_and_summary() {
    let steps = vec![
        (PullAction::Download, true),
        (PullAction::Download, false),
        (PullAction::Update, true),
        (PullAction::Skip, false),
        (PullAction::Download, true),
    ];
    assert_eq!(PullArgs::tally(&steps), (2, 1));
    assert_eq!(PullArgs::summary(2, 1), "✓ Pull completed: 2 new, 1 updated");
    assert_eq!(PullArgs::summary(0, 0), "✓ Pull completed: No changes");
}

#[test]
fn fsck_summary_lines() {
    assert_eq!(
        FsckArgs::summary_lines(12, 0, false),
        vec!["  Objects checked: 12".to_string(), "  Issues found: 0".to_string(), "✅ Object store is healthy!".to_string()]
    );
    assert_eq!(
        FsckArgs::summary_lines(5, 2, false),
        vec![
            "  Objects checked: 5".to_string(),
            "  Issues found: 2".to_string(),
            "⚠️  Found 2 integrity issues".to_string(),
            "💡 Run 'odi fsck repair' to attempt automatic fixes".to_string(),
        ]
    );
    assert_eq!(FsckArgs::summary_lines(5, 2, true).len(), 3);
}

#[test]
fn pull_step_after_download() {
    let mut issue = Issue::new("t".to_string(), "u".to_string());
    issue.project_id = Some("p".to_string());
    assert_eq!(PullArgs::step(PullAction::Update, &issue, None), PullStep::UpdateLocal);
    assert_eq!(PullArgs::step(PullAction::Download, &issue, Some("p")), PullStep::CreateLocal);
    assert_eq!(PullArgs::step(PullAction::Download, &issue, Some("q")), PullStep::Ignore);
    assert_eq!(PullArgs::step(PullAction::Skip, &issue, None), PullStep::Ignore);
}

#[test]
fn fsck_problem_totals() {
    let now = 1_000;
    let mut bad = Issue::new(" ".to_string(), "u".to_string());
    bad.created_at = 2_000;
    bad.updated_at = 1_500;
    let mut good = Issue::new("fine".to_string(), "u".to_string());
    good.created_at = 10;
    good.updated_at = 20;
    assert_eq!(FsckArgs::issue_problem_total(&vec![bad, good], now), 3);
    let mut p = Project::new("p".to_string(), "".to_string());
    p.created_at = 5;
    assert_eq!(FsckArgs::project_problem_total(&vec![p], now), 1);
    let u = User::new("u".to_string(), "".to_string(), "nomail".to_string());
    assert_eq!(FsckArgs::user_problem_total(&vec![u]), 2);
    let t = Team::new("t".to_string(), " ".to_string());
    assert_eq!(FsckArgs::team_problem_total(&vec![t]), 1);
}

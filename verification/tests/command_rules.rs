use odi::cli::{Commands, InitArgs, IssueArgs, LabelArgs, OutputFormat, ProjectArgs, RemoteArgs, TeamArgs};
use odi::commands::join_strings;
use odi::context::AppContext;
use odi::errors::{CoreError, OdiError};
use odi::issue::{Issue, IssueStatus, Priority};
use odi::label::Label;
use odi::project::Project;
use odi::remote::Remote;
use odi::team::Team;

fn core_validation(e: OdiError) -> (String, String) {
    match e {
        OdiError::Core(CoreError::ValidationError { field, message }) => (field, message),
        other => panic!("unexpected {:?}", other),
    }
}

fn validation(e: OdiError) -> String {
    match e {
        OdiError::Validation { message } => message,
        other => panic!("unexpected {:?}", other),
    }
}

#[test]
fn new_issue_from_arguments() {
    let id = "67e55044-10b1-426f-9247-bb680e5fe0c8";
    let issue = IssueArgs::new_issue(
        "Crash",
        &Some("boom".to_string()),
        &Some("proj-1".to_string()),
        Some(Priority::High),
        Some(id),
        "ann",
    )
    .unwrap();
    assert_eq!(issue.title, "Crash");
    assert_eq!(issue.author, "ann");
    assert_eq!(issue.description, Some("boom".to_string()));
    assert_eq!(issue.project_id, Some("proj-1".to_string()));
    assert_eq!(issue.priority, Priority::High);
    assert_eq!(issue.id, uuid::Uuid::parse_str(id).unwrap().as_u128());
    assert_eq!(issue.status, IssueStatus::Open);

    let plain = IssueArgs::new_issue("T", &None, &None, None, None, "bob").unwrap();
    assert_eq!(plain.priority, Priority::Medium);

    let err = IssueArgs::new_issue("T", &None, &None, None, Some("not-a-uuid"), "bob").unwrap_err();
    assert_eq!(core_validation(err), ("issue_id".to_string(), "Invalid UUID format: not-a-uuid".to_string()));
}

#[test]
fn issue_listing() {
    let mut a = Issue::new("Alpha".to_string(), "ann".to_string());
    a.id = uuid::Uuid::parse_str("67e55044-10b1-426f-9247-bb680e5fe0c8").unwrap().as_u128();
    a.description = Some("Login FAILS".to_string());
    let mut b = Issue::new("Beta".to_string(), "ann".to_string());
    b.description = None;
    let listed = IssueArgs::listed(vec![a.clone(), b.clone()], None, Some("fails"));
    assert_eq!(listed.len(), 1);
    assert_eq!(listed[0].title, "Alpha");
    assert_eq!(IssueArgs::listed(vec![a.clone(), b.clone()], Some("67e55044"), None).len(), 1);
    assert_eq!(IssueArgs::listed(vec![a.clone(), b.clone()], None, None).len(), 2);

    assert_eq!(
        IssueArgs::list_line(&a),
        "  Alpha (67e55044-10b1-426f-9247-bb680e5fe0c8) - Login FAILS [Open] Unassigned"
    );
    a.assignees = vec!["x".to_string(), "y".to_string()];
    a.status = IssueStatus::InProgress;
    assert!(IssueArgs::list_line(&a).ends_with("[InProgress] Assigned to: x, y"));

    let q = IssueArgs::list_query(Some(IssueStatus::Closed), &Some("p".to_string()));
    assert_eq!(q.status, Some(IssueStatus::Closed));
    assert_eq!(q.project_id, Some("p".to_string()));
    assert_eq!(
        core_validation(odi::commands::issue_not_found("abc")),
        ("issue_id".to_string(), "Issue 'abc' not found".to_string())
    );
}

#[test]
fn new_project_rules() {
    let existing = vec![Project::new("web-app".to_string(), "Web".to_string())];
    let p = ProjectArgs::new_project("Mobile", &Some("phones".to_string()), Some("mobile-app"), &existing).unwrap();
    assert_eq!(p.id, "mobile-app");
    assert_eq!(p.name, "Mobile");
    assert_eq!(p.description, Some("phones".to_string()));

    let made_up = ProjectArgs::new_project("Other", &None, None, &existing).unwrap();
    assert!(made_up.id.starts_with("proj-"));
    assert_eq!(made_up.id.len(), 13);

    let e = ProjectArgs::new_project("  ", &None, None, &existing).unwrap_err();
    assert_eq!(core_validation(e), ("name".to_string(), "Invalid project name".to_string()));
    let e = ProjectArgs::new_project("X", &None, Some("a"), &existing).unwrap_err();
    assert_eq!(core_validation(e), ("project_id".to_string(), "Invalid project ID: a".to_string()));
    let e = ProjectArgs::new_project("Web", &None, None, &existing).unwrap_err();
    assert_eq!(core_validation(e), ("project".to_string(), "Project 'Web' already exists".to_string()));
    let e = ProjectArgs::new_project("New", &None, Some("web-app"), &existing).unwrap_err();
    assert_eq!(core_validation(e), ("project_id".to_string(), "Project ID 'web-app' already exists".to_string()));
}

#[test]
fn new_project_with_drawn_id() {
    let existing = vec![Project::new("proj-1234abcd".to_string(), "Web".to_string())];
    let e = ProjectArgs::new_project_with_id("Mobile", &None, None, "proj-1234abcd".to_string(), &existing).unwrap_err();
    assert_eq!(core_validation(e), ("project_id".to_string(), "Project ID 'proj-1234abcd' already exists".to_string()));
    let p = ProjectArgs::new_project_with_id("Mobile", &None, None, "proj-9999ffff".to_string(), &existing).unwrap();
    assert_eq!(p.id, "proj-9999ffff");
    assert_eq!(p.name, "Mobile");
    let given = ProjectArgs::new_project_with_id("Mobile", &None, Some("mobile"), "proj-1234abcd".to_string(), &existing).unwrap();
    assert_eq!(given.id, "mobile");
}

#[test]
fn project_listing_and_lookup() {
    let mut a = Project::new("web-app".to_string(), "Web".to_string());
    a.description = Some("The Site".to_string());
    let b = Project::new("api".to_string(), "API".to_string());
    let all = vec![a.clone(), b.clone()];
    assert_eq!(ProjectArgs::listed(all.clone(), Some("web"), None).len(), 1);
    assert_eq!(ProjectArgs::listed(all.clone(), None, Some("site")).len(), 1);
    assert_eq!(ProjectArgs::list_line(&a), "  Web (ID: web-app) - The Site");
    assert_eq!(ProjectArgs::list_line(&b), "  API (ID: api) - No description");
    assert_eq!(ProjectArgs::find(&all, "api"), Some(1));
    assert_eq!(ProjectArgs::find(&all, "Web"), Some(0));
    assert_eq!(ProjectArgs::find(&all, "none"), None);
    assert_eq!(
        core_validation(ProjectArgs::not_found("none")),
        ("project".to_string(), "Project 'none' not found".to_string())
    );
    assert_eq!(OutputFormat::default(), OutputFormat::Text);
}

#[test]
fn teams_and_members() {
    let t = TeamArgs::new_team("Core", &Some("the core".to_string()));
    assert!(t.id.starts_with("team-"));
    assert_eq!(t.id.len(), 13);
    assert_eq!(t.description, Some("the core".to_string()));
    let u = TeamArgs::new_member("ann@x.org");
    assert!(u.id.starts_with("user-"));
    assert_eq!(u.name, "ann@x.org");
    assert_eq!(u.email, "ann@x.org");
    let teams = vec![Team::new("t1".to_string(), "One".to_string()), Team::new("t2".to_string(), "Two".to_string())];
    assert_eq!(TeamArgs::find(&teams, "Two"), Some(1));
    assert_eq!(TeamArgs::find(&teams, "Three"), None);
    assert_eq!(TeamArgs::list_line(&teams[0]), "  One - No description");
}

#[test]
fn label_rules() {
    assert!(LabelArgs::validate_input("bug", "Bug", "#FF0000", None).is_ok());
    assert_eq!(
        validation(LabelArgs::validate_input("", "Bug", "#FF0000", None).unwrap_err()),
        "Invalid label ID '': must be 1-50 characters, alphanumeric with ._- allowed"
    );
    assert_eq!(
        validation(LabelArgs::validate_input("bug", "", "#FF0000", None).unwrap_err()),
        "Invalid label name '': must be 1-50 characters"
    );
    assert_eq!(
        validation(LabelArgs::validate_input("bug", "Bug", "red", None).unwrap_err()),
        "Invalid color format 'red': must be #RRGGBB (e.g., #FF0000)"
    );
    let long = "d".repeat(201);
    assert_eq!(
        validation(LabelArgs::validate_input("bug", "Bug", "#FF0000", Some(&long)).unwrap_err()),
        "Description too long: maximum 200 characters"
    );
    let l = LabelArgs::new_label("bug", "Bug", "#FF0000", Some("desc"));
    assert_eq!(l.description, Some("desc".to_string()));
    assert_eq!(validation(LabelArgs::project_not_found("p")), "Project not found: p");
    assert_eq!(validation(LabelArgs::label_exists("p", "bug")), "Label already exists in project 'p': bug");
    assert_eq!(LabelArgs::shown_description("short"), "short");
    assert_eq!(
        LabelArgs::shown_description("abcdefghijklmnopqrstuvwxyz0123456789"),
        "abcdefghijklmnopqrstuvwxyz0..."
    );
}

#[test]
fn remote_rules() {
    assert!(RemoteArgs::validate_new_remote("origin", "ssh://h/r").is_ok());
    assert_eq!(
        validation(RemoteArgs::validate_new_remote("o", "ssh://h/r").unwrap_err()),
        "Invalid remote name 'o': must be 3-50 characters, alphanumeric with ._- allowed"
    );
    assert_eq!(validation(RemoteArgs::validate_new_remote("origin", "nowhere").unwrap_err()), "Invalid URL format: nowhere");
    let r = RemoteArgs::new_remote("origin", "git@h:r");
    assert_eq!(r.id, "origin");
    assert_eq!(r.name, "origin");
    assert_eq!(RemoteArgs::authentication("git@h:r"), "SSH");
    assert_eq!(RemoteArgs::authentication("https://h/r"), "HTTPS");
    assert_eq!(RemoteArgs::authentication("http://h/r"), "Unknown");
    let mut remote = Remote::new("o".to_string(), "o".to_string(), "u".to_string());
    assert_eq!(RemoteArgs::projects_text(&remote), "All");
    remote.add_project("a".to_string());
    remote.add_project("b".to_string());
    assert_eq!(RemoteArgs::projects_text(&remote), "2");
    assert_eq!(RemoteArgs::remote_or_origin(None), "origin");
    assert_eq!(RemoteArgs::remote_or_origin(Some("up")), "up");
    assert_eq!(validation(RemoteArgs::not_found_for_sync("up")), "Remote not found: up");
    assert_eq!(validation(RemoteArgs::already_exists("up")), "Remote already exists: up");
    assert_eq!(
        core_validation(RemoteArgs::not_found("up")),
        ("remote".to_string(), "Remote 'up' not found".to_string())
    );
}

#[test]
fn workspace_requirements() {
    assert!(AppContext::require_workspace(None, true).is_ok());
    match AppContext::require_workspace(None, false) {
        Err(OdiError::NotInitialized { message }) => assert_eq!(
            message,
            "Not in an ODI workspace. Current directory: .\nRun 'odi init' to initialize a new workspace."
        ),
        other => panic!("unexpected {:?}", other),
    }
    assert_eq!(AppContext::workspace_marker(Some("/w")), "/w/.odi");
    assert_eq!(AppContext::workspace_marker(None), "./.odi");
    let ctx = AppContext::init_workspace("/w");
    assert_eq!(ctx.workspace_path(), "/w");
    assert_eq!(ctx.storage().root_path, "/w/.odi");
    assert_eq!(ctx.issue_repository().storage.objects_path, "/w/.odi/objects");
    assert_eq!(ctx.config().user.name, "Unknown User");
    let init = Commands::Init(InitArgs { project: None, git_repo: None, remote: None, config: None });
    assert!(!init.needs_workspace());
}

#[test]
fn configuration_loading() {
    let c = AppContext::load_configuration(None, None).unwrap();
    assert_eq!(c.project.name, "default");
    let mut bad = odi::config::Config::default();
    bad.user.email = "nobody".to_string();
    match AppContext::load_configuration(None, Some(bad)) {
        Err(OdiError::Config { message }) => assert_eq!(
            message,
            "Configuration validation failed: Configuration error: User email must be valid"
        ),
        other => panic!("unexpected {:?}", other),
    }
}

#[test]
fn joining() {
    assert_eq!(join_strings(&vec![], ", "), "");
    assert_eq!(join_strings(&vec!["a".to_string()], ", "), "a");
    assert_eq!(join_strings(&vec!["a".to_string(), "b".to_string(), "c".to_string()], "-"), "a-b-c");
}

#[test]
fn remote_list_rows_are_aligned() {
    let r = Remote::new("o1".to_string(), "origin".to_string(), "https://example.com/repo.git".to_string());
    assert_eq!(RemoteArgs::list_line(&r, None), "origin   https://example.com/repo.git  All      Never");
    let mut r2 = Remote::new("o2".to_string(), "upstream-long".to_string(), "ssh://git@host/x".to_string());
    r2.projects.push("a".to_string());
    r2.projects.push("b".to_string());
    assert_eq!(
        RemoteArgs::list_line(&r2, Some("2024-01-02 03:04")),
        "upstream-long ssh://git@host/x              2        2024-01-02 03:04"
    );
}

#[test]
fn label_list_rows_are_aligned() {
    let mut l = Label::new("bug".to_string(), "Bug".to_string(), "#FF0000".to_string());
    l.description = Some("Something is broken".to_string());
    assert_eq!(LabelArgs::list_line(&l, true), "bug          Bug                      #FF0000 (dark) Something is broken");
    let l2 = Label::new("doc".to_string(), "Docs".to_string(), "#FFFFFF".to_string());
    assert_eq!(LabelArgs::list_line(&l2, false), "doc          Docs                     #FFFFFF (light) ");
}

#[test]
fn issue_assign_label_and_status_updates() {
    let issue = Issue::new("Bug".to_string(), "ann".to_string());
    let a = IssueArgs::assigned(issue.clone(), "bob");
    assert_eq!(a.assignees, vec!["bob".to_string()]);
    let a = IssueArgs::assigned(a, "bob");
    assert_eq!(a.assignees, vec!["bob".to_string()]);
    let l = IssueArgs::labelled(a, "ui");
    let l = IssueArgs::labelled(l, "ui");
    assert_eq!(l.labels, vec!["ui".to_string()]);
    let c = IssueArgs::with_status(l, IssueStatus::Closed).unwrap();
    assert_eq!(c.status, IssueStatus::Closed);
    assert!(c.closed_at.is_some());
    match IssueArgs::with_status(c, IssueStatus::Resolved) {
        Err(OdiError::Core(CoreError::InvalidStatusTransition { from, to })) => {
            assert_eq!(from, "Closed");
            assert_eq!(to, "Resolved");
        },
        other => panic!("unexpected {:?}", other),
    }
}

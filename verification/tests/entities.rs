use odi::issue::{Issue, IssueStatus, Priority};
use odi::label::Label;
use odi::project::Project;
use odi::remote::{Remote, RemoteProtocol};
use odi::team::Team;
use odi::user::User;
use odi::workspace::Workspace;

#[test]
fn test_issue_creation() {
    let author = "john".to_string();
    let issue = Issue::new("Fix login bug".to_string(), author.clone());

    assert_eq!(issue.title, "Fix login bug");
    assert_eq!(issue.author, author);
    assert_eq!(issue.status, IssueStatus::Open);
    assert_eq!(issue.priority, Priority::Medium);
    assert!(issue.assignees.is_empty());
}

#[test]
fn test_status_transitions() {
    let author = "bob".to_string();
    let mut issue = Issue::new("Test issue".to_string(), author);

    assert!(issue.update_status(IssueStatus::InProgress).is_ok());
    assert_eq!(issue.status, IssueStatus::InProgress);

    assert!(issue.update_status(IssueStatus::Resolved).is_ok());
    assert_eq!(issue.status, IssueStatus::Resolved);
}

#[test]
fn test_assignee_management() {
    let author = "manager".to_string();
    let mut issue = Issue::new("Team task".to_string(), author);

    issue.add_assignee("dev1".to_string());
    issue.add_assignee("dev2".to_string());
    issue.add_assignee("dev1".to_string());

    assert_eq!(issue.assignees.len(), 2);
    assert!(issue.assignees.contains(&"dev1".to_string()));

    issue.remove_assignee(&"dev1".to_string());
    assert_eq!(issue.assignees.len(), 1);
    assert!(!issue.assignees.contains(&"dev1".to_string()));
}

#[test]
fn test_label_creation() {
    let label = Label::new("bug".to_string(), "Bug".to_string(), "#FF0000".to_string());

    assert_eq!(label.id, "bug");
    assert_eq!(label.name, "Bug");
    assert_eq!(label.color, "#FF0000");
    assert!(label.description.is_none());
}

#[test]
fn test_label_with_description() {
    let label = Label::with_description(
        "feature".to_string(),
        "Feature".to_string(),
        "#00FF00".to_string(),
        "New feature request".to_string(),
    );

    assert_eq!(label.description, Some("New feature request".to_string()));
}

#[test]
fn test_label_validation() {
    assert!(Label::validate_id("bug"));
    assert!(Label::validate_id("feature-request"));
    assert!(Label::validate_id("v1.0"));
    assert!(!Label::validate_id(""));
    assert!(!Label::validate_id(&"a".repeat(51)));

    assert!(Label::validate_name("Bug"));
    assert!(Label::validate_name("Feature Request"));
    assert!(!Label::validate_name(""));
    assert!(!Label::validate_name(&"a".repeat(51)));

    assert!(Label::validate_color("#FF0000"));
    assert!(Label::validate_color("#00ff00"));
    assert!(Label::validate_color("#123ABC"));
    assert!(!Label::validate_color("FF0000"));
    assert!(!Label::validate_color("#FF00"));
    assert!(!Label::validate_color("#GGGGGG"));

    assert!(Label::validate_description("Short description"));
    assert!(Label::validate_description(""));
    assert!(!Label::validate_description(&"a".repeat(201)));
}

#[test]
fn test_label_updates() {
    let mut label = Label::new("test".to_string(), "Test".to_string(), "#FF0000".to_string());

    assert!(label.set_name("New Test".to_string()).is_ok());
    assert_eq!(label.name, "New Test");

    assert!(label.set_name("".to_string()).is_err());

    assert!(label.set_color("#00FF00".to_string()).is_ok());
    assert_eq!(label.color, "#00FF00");

    assert!(label.set_color("invalid".to_string()).is_err());

    label.set_description(Some("Test description".to_string()));
    assert_eq!(label.description, Some("Test description".to_string()));

    label.set_description(None);
    assert!(label.description.is_none());
}

#[test]
fn test_rgb_values() {
    let label = Label::new("test".to_string(), "Test".to_string(), "#FF8000".to_string());

    let (r, g, b) = label.rgb_values().unwrap();
    assert_eq!(r, 255);
    assert_eq!(g, 128);
    assert_eq!(b, 0);

    let mut invalid_label = label.clone();
    invalid_label.color = "invalid".to_string();
    assert!(invalid_label.rgb_values().is_err());
}

#[test]
fn test_project_creation() {
    let project = Project::new("my_project".to_string(), "My Project".to_string());

    assert_eq!(project.id, "my_project");
    assert_eq!(project.name, "My Project");
    assert!(project.issues.is_empty());
    assert!(project.teams.is_empty());
    assert!(project.workspaces.is_empty());
}

#[test]
fn test_project_validation() {
    assert!(Project::validate_id("my_project"));
    assert!(Project::validate_id("project.v1"));
    assert!(Project::validate_id("project-123"));
    assert!(!Project::validate_id("ab"));
    assert!(!Project::validate_id(""));

    let long_id = "a".repeat(101);
    assert!(!Project::validate_id(&long_id));

    assert!(Project::validate_name("My Project"));
    assert!(!Project::validate_name(""));

    let long_name = "a".repeat(101);
    assert!(!Project::validate_name(&long_name));
}

#[test]
fn test_workspace_management() {
    let mut project = Project::new("test_project".to_string(), "Test Project".to_string());

    project.add_workspace("workspace1".to_string());
    project.add_workspace("workspace2".to_string());
    project.add_workspace("workspace1".to_string());

    assert_eq!(project.workspaces.len(), 2);
    assert!(project.workspaces.contains(&"workspace1".to_string()));

    project.remove_workspace(&"workspace1".to_string());
    assert_eq!(project.workspaces.len(), 1);
    assert!(!project.workspaces.contains(&"workspace1".to_string()));
}

#[test]
fn test_workspace_creation() {
    let path = "/tmp/workspace".to_string();
    let workspace = Workspace::new("workspace1".to_string(), path.clone());

    assert_eq!(workspace.id, "workspace1");
    assert_eq!(workspace.path, path);
    assert!(workspace.projects.is_empty());
    assert_eq!(workspace.project_count(), 0);
}

#[test]
fn test_workspace_validation() {
    assert!(Workspace::validate_id("workspace1"));
    assert!(Workspace::validate_id("work.space"));
    assert!(Workspace::validate_id("work-space"));
    assert!(!Workspace::validate_id("ab"));
    assert!(!Workspace::validate_id(""));

    let long_id = "a".repeat(101);
    assert!(!Workspace::validate_id(&long_id));
}

#[test]
fn workspace_test_project_management() {
    let path = "/tmp/workspace".to_string();
    let mut workspace = Workspace::new("workspace1".to_string(), path);

    workspace.add_project("project1".to_string());
    workspace.add_project("project2".to_string());
    workspace.add_project("project1".to_string());

    assert_eq!(workspace.project_count(), 2);
    assert!(workspace.has_project(&"project1".to_string()));
    assert!(workspace.has_project(&"project2".to_string()));
    assert!(!workspace.has_project(&"project3".to_string()));

    workspace.remove_project(&"project1".to_string());
    assert_eq!(workspace.project_count(), 1);
    assert!(!workspace.has_project(&"project1".to_string()));
    assert!(workspace.has_project(&"project2".to_string()));
}

#[test]
fn test_remote_creation() {
    let remote = Remote::new(
        "origin".to_string(),
        "Origin Remote".to_string(),
        "ssh://user@example.com/repo".to_string(),
    );

    assert_eq!(remote.id, "origin");
    assert_eq!(remote.name, "Origin Remote");
    assert_eq!(remote.url, "ssh://user@example.com/repo");
    assert!(remote.projects.is_empty());
    assert!(!remote.has_synced());
}

#[test]
fn test_remote_validation() {
    assert!(Remote::validate_id("origin"));
    assert!(Remote::validate_id("remote-1"));
    assert!(Remote::validate_id("my.remote"));
    assert!(!Remote::validate_id("ab"));
    assert!(!Remote::validate_id(""));

    let long_id = "a".repeat(51);
    assert!(!Remote::validate_id(&long_id));

    assert!(Remote::validate_name("Origin Remote"));
    assert!(!Remote::validate_name(""));

    let long_name = "a".repeat(101);
    assert!(!Remote::validate_name(&long_name));

    assert!(Remote::validate_url("ssh://user@example.com/repo"));
    assert!(Remote::validate_url("https://github.com/user/repo"));
    assert!(Remote::validate_url("user@example.com:repo"));
    assert!(!Remote::validate_url("invalid-url"));
}

#[test]
fn test_protocol_detection() {
    let ssh_remote = Remote::new(
        "ssh".to_string(),
        "SSH Remote".to_string(),
        "ssh://user@example.com/repo".to_string(),
    );
    assert_eq!(ssh_remote.get_protocol(), Some(RemoteProtocol::Ssh));

    let ssh_shorthand = Remote::new(
        "ssh2".to_string(),
        "SSH Shorthand".to_string(),
        "user@example.com:repo".to_string(),
    );
    assert_eq!(ssh_shorthand.get_protocol(), Some(RemoteProtocol::Ssh));

    let https_remote = Remote::new(
        "https".to_string(),
        "HTTPS Remote".to_string(),
        "https://github.com/user/repo".to_string(),
    );
    assert_eq!(https_remote.get_protocol(), Some(RemoteProtocol::Https));

    let invalid_remote = Remote::new(
        "invalid".to_string(),
        "Invalid Remote".to_string(),
        "ftp://example.com".to_string(),
    );
    assert_eq!(invalid_remote.get_protocol(), None);
}

#[test]
fn remote_test_project_management() {
    let mut remote = Remote::new(
        "origin".to_string(),
        "Origin".to_string(),
        "ssh://user@example.com/repo".to_string(),
    );

    remote.add_project("project1".to_string());
    remote.add_project("project2".to_string());
    remote.add_project("project1".to_string());

    assert_eq!(remote.project_count(), 2);
    assert!(remote.has_project(&"project1".to_string()));
    assert!(remote.has_project(&"project2".to_string()));
    assert!(!remote.has_project(&"project3".to_string()));

    remote.remove_project(&"project1".to_string());
    assert_eq!(remote.project_count(), 1);
    assert!(!remote.has_project(&"project1".to_string()));
}

#[test]
fn test_sync_tracking() {
    let mut remote = Remote::new(
        "origin".to_string(),
        "Origin".to_string(),
        "ssh://user@example.com/repo".to_string(),
    );

    assert!(!remote.has_synced());
    assert!(remote.time_since_sync().is_none());

    remote.update_last_sync();
    assert!(remote.has_synced());
    assert!(remote.time_since_sync().is_some());
}

#[test]
fn test_url_parsing() {
    let ssh_remote = Remote::new(
        "ssh".to_string(),
        "SSH".to_string(),
        "ssh://git@github.com/user/repo".to_string(),
    );
    assert_eq!(ssh_remote.get_ssh_user(), Some("git".to_string()));
    assert_eq!(ssh_remote.get_hostname(), Some("github.com".to_string()));

    let ssh_shorthand = Remote::new(
        "ssh2".to_string(),
        "SSH2".to_string(),
        "git@github.com:user/repo".to_string(),
    );
    assert_eq!(ssh_shorthand.get_ssh_user(), Some("git".to_string()));
    assert_eq!(ssh_shorthand.get_hostname(), Some("github.com".to_string()));

    let https_remote = Remote::new(
        "https".to_string(),
        "HTTPS".to_string(),
        "https://github.com/user/repo".to_string(),
    );
    assert_eq!(https_remote.get_hostname(), Some("github.com".to_string()));
    assert_eq!(https_remote.get_ssh_user(), None);
}

#[test]
fn test_user_creation() {
    let user = User::new(
        "john_doe".to_string(),
        "John Doe".to_string(),
        "john@example.com".to_string(),
    );

    assert_eq!(user.id, "john_doe");
    assert_eq!(user.name, "John Doe");
    assert_eq!(user.email, "john@example.com");
    assert!(user.teams.is_empty());
}

#[test]
fn test_user_validation() {
    assert!(User::validate_id("john_doe"));
    assert!(User::validate_id("user-123"));
    assert!(!User::validate_id("user@domain"));
    assert!(!User::validate_id(""));

    assert!(User::validate_email("user@example.com"));
    assert!(!User::validate_email("invalid"));
    assert!(!User::validate_email("@example.com"));
}

#[test]
fn test_team_membership() {
    let mut user = User::new(
        "alice".to_string(),
        "Alice Smith".to_string(),
        "alice@example.com".to_string(),
    );

    user.add_to_team("backend_team".to_string());
    user.add_to_team("frontend_team".to_string());
    user.add_to_team("backend_team".to_string());

    assert_eq!(user.teams.len(), 2);
    assert!(user.teams.contains(&"backend_team".to_string()));

    user.remove_from_team(&"backend_team".to_string());
    assert_eq!(user.teams.len(), 1);
    assert!(!user.teams.contains(&"backend_team".to_string()));
}

#[test]
fn test_team_creation() {
    let team = Team::new("backend_team".to_string(), "Backend Team".to_string());

    assert_eq!(team.id, "backend_team");
    assert_eq!(team.name, "Backend Team");
    assert!(team.members.is_empty());
    assert_eq!(team.member_count(), 0);
}

#[test]
fn test_team_validation() {
    assert!(Team::validate_id("backend_team"));
    assert!(Team::validate_id("team-123"));
    assert!(!Team::validate_id("ab"));
    assert!(!Team::validate_id(""));

    let long_id = "a".repeat(51);
    assert!(!Team::validate_id(&long_id));

    assert!(Team::validate_name("Backend Team"));
    assert!(!Team::validate_name(""));

    let long_name = "a".repeat(101);
    assert!(!Team::validate_name(&long_name));
}

#[test]
fn test_team_member_management() {
    let mut team = Team::new("dev_team".to_string(), "Development Team".to_string());

    team.add_member("alice".to_string());
    team.add_member("bob".to_string());
    team.add_member("alice".to_string());

    assert_eq!(team.member_count(), 2);
    assert!(team.is_member(&"alice".to_string()));
    assert!(team.is_member(&"bob".to_string()));
    assert!(!team.is_member(&"charlie".to_string()));

    team.remove_member(&"alice".to_string());
    assert_eq!(team.member_count(), 1);
    assert!(!team.is_member(&"alice".to_string()));
    assert!(team.is_member(&"bob".to_string()));
}

#[test]
fn test_team_description() {
    let mut team = Team::new("test_team".to_string(), "Test Team".to_string());

    assert!(team.description.is_none());

    team.set_description(Some("A team for testing".to_string()));
    assert_eq!(team.description, Some("A team for testing".to_string()));

    team.set_description(None);
    assert!(team.description.is_none());
}

use odi::config::{Config, ConfigLoader, FileConfigLoader, NamedRemote, ProjectConfig, RemoteConfig, UserConfig};
use odi::errors::{FsError, OdiError};
use odi::settings::{get_value_by_path, reset_section, set_value_by_path, unset_value_by_path};

fn remote(name: &str, url: &str, protocol: &str) -> NamedRemote {
    NamedRemote {
        name: name.to_string(),
        remote: RemoteConfig { url: url.to_string(), protocol: protocol.to_string() },
    }
}

fn config(user: &str, email: &str, project: &str, remotes: Vec<NamedRemote>) -> Config {
    Config {
        user: UserConfig { name: user.to_string(), email: email.to_string() },
        project: ProjectConfig { name: project.to_string(), description: None, default_branch: None },
        remotes,
    }
}

fn config_message(r: Result<(), FsError>) -> String {
    match r {
        Err(FsError::ConfigError { message }) => message,
        other => panic!("unexpected {:?}", other),
    }
}

#[test]
fn default_config_is_valid() {
    let c = Config::default();
    assert_eq!(c.user.name, "Unknown User");
    assert_eq!(c.user.email, "user@example.com");
    assert_eq!(c.project.name, "default");
    assert_eq!(c.project.description, None);
    assert_eq!(c.project.default_branch, Some("main".to_string()));
    assert!(c.remotes.is_empty());
    assert!(FileConfigLoader::validate(&c).is_ok());
}

#[test]
fn validate_reports_first_problem() {
    let c = config(" ", "a@b", "p", vec![]);
    assert_eq!(config_message(FileConfigLoader::validate(&c)), "User name cannot be empty");
    let c = config("n", "  ", "p", vec![]);
    assert_eq!(config_message(FileConfigLoader::validate(&c)), "User email cannot be empty");
    let c = config("n", "nobody", "p", vec![]);
    assert_eq!(config_message(FileConfigLoader::validate(&c)), "User email must be valid");
    let c = config("n", "a@b", "", vec![]);
    assert_eq!(config_message(FileConfigLoader::validate(&c)), "Project name cannot be empty");
    let c = config("n", "a@b", "p", vec![remote(" ", "u", "ssh")]);
    assert_eq!(config_message(FileConfigLoader::validate(&c)), "Remote name cannot be empty");
    let c = config("n", "a@b", "p", vec![remote("origin", "", "ssh")]);
    assert_eq!(config_message(FileConfigLoader::validate(&c)), "Remote 'origin' URL cannot be empty");
    let c = config("n", "a@b", "p", vec![remote("origin", "u", "ftp")]);
    assert_eq!(
        config_message(FileConfigLoader::validate(&c)),
        "Remote 'origin' protocol must be 'ssh' or 'https'"
    );
    let c = config("n", "a@b", "p", vec![remote("origin", "u", "https")]);
    assert!(FileConfigLoader::validate(&c).is_ok());
}

#[test]
fn merge_prefers_local() {
    let g = config("G", "g@x", "gp", vec![remote("origin", "g-url", "ssh"), remote("backup", "b-url", "https")]);
    let l = config("L", "l@x", "lp", vec![remote("origin", "l-url", "https"), remote("extra", "e-url", "ssh")]);
    let m = FileConfigLoader::merge(Some(g.clone()), Some(l.clone()));
    assert_eq!(m.user.name, "L");
    assert_eq!(m.project.name, "lp");
    assert_eq!(m.remotes.len(), 3);
    assert_eq!(m.remotes[0].name, "origin");
    assert_eq!(m.remotes[0].remote.url, "l-url");
    assert_eq!(m.remotes[1].remote.url, "b-url");
    assert_eq!(m.remotes[2].name, "extra");

    assert_eq!(FileConfigLoader::merge(Some(g.clone()), None).user.name, "G");
    assert_eq!(FileConfigLoader::merge(None, Some(l)).user.name, "L");
    assert_eq!(FileConfigLoader::merge(None, None).user.name, "Unknown User");
}

#[test]
fn get_values_by_key() {
    let mut c = config("Ann", "ann@x", "proj", vec![remote("origin", "ssh://h/r", "ssh")]);
    c.project.description = Some("desc".to_string());
    assert_eq!(get_value_by_path(&c, "user.name"), Some("Ann".to_string()));
    assert_eq!(get_value_by_path(&c, "user.email"), Some("ann@x".to_string()));
    assert_eq!(get_value_by_path(&c, "project.name"), Some("proj".to_string()));
    assert_eq!(get_value_by_path(&c, "project.description"), Some("desc".to_string()));
    assert_eq!(get_value_by_path(&c, "project.default_branch"), None);
    assert_eq!(get_value_by_path(&c, "remotes.origin.url"), Some("ssh://h/r".to_string()));
    assert_eq!(get_value_by_path(&c, "remotes.origin.protocol"), Some("ssh".to_string()));
    assert_eq!(get_value_by_path(&c, "remotes.other.url"), None);
    assert_eq!(get_value_by_path(&c, "remotes.origin.url.extra"), None);
    assert_eq!(get_value_by_path(&c, "user"), None);
    assert_eq!(get_value_by_path(&c, "user.name.x"), None);
}

#[test]
fn set_then_get_reads_back() {
    let mut c = config("Ann", "ann@x", "proj", vec![remote("origin", "ssh://h/r", "ssh")]);
    assert!(set_value_by_path(&mut c, "user.name", "Bob").is_ok());
    assert_eq!(get_value_by_path(&c, "user.name"), Some("Bob".to_string()));
    assert!(set_value_by_path(&mut c, "project.description", "About").is_ok());
    assert_eq!(get_value_by_path(&c, "project.description"), Some("About".to_string()));
    assert!(set_value_by_path(&mut c, "project.description", "   ").is_ok());
    assert_eq!(get_value_by_path(&c, "project.description"), None);
    assert!(set_value_by_path(&mut c, "remotes.origin.url", "https://h/r").is_ok());
    assert_eq!(get_value_by_path(&c, "remotes.origin.url"), Some("https://h/r".to_string()));
    assert_eq!(get_value_by_path(&c, "remotes.origin.protocol"), Some("ssh".to_string()));
    assert!(set_value_by_path(&mut c, "remotes.origin.protocol", "https").is_ok());
    assert_eq!(get_value_by_path(&c, "remotes.origin.protocol"), Some("https".to_string()));
    assert_eq!(get_value_by_path(&c, "user.name"), Some("Bob".to_string()));
}

#[test]
fn set_refusals() {
    let mut c = config("Ann", "ann@x", "proj", vec![]);
    match set_value_by_path(&mut c, "user.name", " ") {
        Err(OdiError::Validation { message }) => assert_eq!(message, "User name cannot be empty"),
        other => panic!("unexpected {:?}", other),
    }
    match set_value_by_path(&mut c, "user.email", "nobody") {
        Err(OdiError::Validation { message }) => assert_eq!(message, "User email must be a valid email address"),
        other => panic!("unexpected {:?}", other),
    }
    match set_value_by_path(&mut c, "remotes.origin.url", "u") {
        Err(OdiError::Config { message }) => {
            assert_eq!(message, "Remote 'origin' does not exist. Use 'odi remote add' first.")
        },
        other => panic!("unexpected {:?}", other),
    }
    match set_value_by_path(&mut c, "remotes.origin.protocol", "ftp") {
        Err(OdiError::Validation { message }) => assert_eq!(message, "Protocol must be 'ssh' or 'https'"),
        other => panic!("unexpected {:?}", other),
    }
    match set_value_by_path(&mut c, "colour", "red") {
        Err(OdiError::Config { message }) => assert_eq!(
            message,
            "Unknown configuration key: colour. Supported keys: user.name, user.email, project.name, project.description, project.default_branch, remotes.<name>.url, remotes.<name>.protocol"
        ),
        other => panic!("unexpected {:?}", other),
    }
    assert_eq!(c.user.name, "Ann");
    assert_eq!(c.user.email, "ann@x");
}

#[test]
fn unset_and_reset() {
    let mut c = config("Ann", "ann@x", "proj", vec![remote("origin", "https://h/r", "https")]);
    c.project.default_branch = Some("main".to_string());
    assert!(unset_value_by_path(&mut c, "user.name").is_ok());
    assert_eq!(get_value_by_path(&c, "user.name"), Some(String::new()));
    assert!(unset_value_by_path(&mut c, "project.default_branch").is_ok());
    assert_eq!(get_value_by_path(&c, "project.default_branch"), None);
    assert!(unset_value_by_path(&mut c, "remotes.origin.protocol").is_ok());
    assert_eq!(get_value_by_path(&c, "remotes.origin.protocol"), Some("ssh".to_string()));
    assert!(unset_value_by_path(&mut c, "remotes.origin.url").is_ok());
    assert_eq!(get_value_by_path(&c, "remotes.origin.url"), Some(String::new()));
    match unset_value_by_path(&mut c, "remotes.nope.url") {
        Err(OdiError::Config { message }) => assert_eq!(message, "Remote 'nope' does not exist"),
        other => panic!("unexpected {:?}", other),
    }
    match unset_value_by_path(&mut c, "what") {
        Err(OdiError::Config { message }) => assert_eq!(message, "Cannot unset configuration key: what"),
        other => panic!("unexpected {:?}", other),
    }

    assert!(reset_section(&mut c, "remotes").is_ok());
    assert!(c.remotes.is_empty());
    assert!(reset_section(&mut c, "project").is_ok());
    assert_eq!(c.project.name, "");
    assert!(reset_section(&mut c, "user").is_ok());
    assert_eq!(c.user.email, "");
    match reset_section(&mut c, "misc") {
        Err(OdiError::Config { message }) => assert_eq!(
            message,
            "Unknown configuration section: misc. Supported sections: user, project, remotes"
        ),
        other => panic!("unexpected {:?}", other),
    }
}

#[test]
fn listing_lines() {
    let mut c = config("Ann", "ann@x", "proj", vec![remote("origin", "ssh://h/r", "ssh")]);
    c.project.default_branch = Some("main".to_string());
    assert_eq!(
        odi::settings::list_lines(&c),
        vec![
            "USER",
            "  user.name = Ann",
            "  user.email = ann@x",
            "",
            "PROJECT",
            "  project.name = proj",
            "  project.default_branch = main",
            "",
            "REMOTES",
            "  remotes.origin.url = ssh://h/r",
            "  remotes.origin.protocol = ssh",
        ]
    );
    let bare = config("Ann", "ann@x", "proj", vec![]);
    assert_eq!(odi::settings::list_lines(&bare).len(), 7);
}

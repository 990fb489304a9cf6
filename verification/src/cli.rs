//! The command line as values: each command, its subcommands and their arguments.

use vstd::prelude::*;
use crate::issue::{IssueStatus, Priority};

verus! {

/// A parsed command line.
#[derive(Debug, Clone)]
pub struct Cli {
    pub command: Commands,
}

/// The commands.
#[derive(Debug, Clone)]
pub enum Commands {
    Init(InitArgs),
    Project(ProjectArgs),
    Issue(IssueArgs),
    Push(PushArgs),
    Pull(PullArgs),
    Remote(RemoteArgs),
    Team(TeamArgs),
    Config(ConfigArgs),
    Label(LabelArgs),
    Fsck(FsckArgs),
}

impl Commands {
    /// Every command but `init` runs inside a workspace.
    pub fn needs_workspace(&self) -> (b: bool)
        ensures
            b == !(self is Init),
    {
        match self {
            Commands::Init(_) => false,
            _ => true,
        }
    }
}

/// `odi init`.
#[derive(Debug, Clone)]
pub struct InitArgs {
    pub project: Option<String>,
    pub git_repo: Option<String>,
    pub remote: Option<String>,
    pub config: Option<String>,
}

/// `odi project`.
#[derive(Debug, Clone)]
pub struct ProjectArgs {
    pub command: ProjectSubcommand,
}

/// The project subcommands.
#[derive(Debug, Clone)]
pub enum ProjectSubcommand {
    Create { name: String, description: Option<String>, id: Option<String> },
    List { format: OutputFormat, id: Option<String>, description: Option<String> },
    Show { name: String },
    Delete { name: String },
}

/// How listings are printed.
#[derive(Debug, Clone, Copy, PartialEq, Eq, Structural)]
pub enum OutputFormat {
    Text,
    Json,
}

impl Default for OutputFormat {
    fn default() -> (f: Self)
        ensures
            f == OutputFormat::Text,
    {
        OutputFormat::Text
    }
}

/// `odi issue`.
#[derive(Debug, Clone)]
pub struct IssueArgs {
    pub command: IssueSubcommand,
}

/// The issue subcommands.
#[derive(Debug, Clone)]
pub enum IssueSubcommand {
    Create {
        title: String,
        description: Option<String>,
        project: Option<String>,
        priority: Option<Priority>,
        id: Option<String>,
    },
    List {
        status: Option<IssueStatus>,
        project: Option<String>,
        id: Option<String>,
        description: Option<String>,
    },
    Show { id: String, project: Option<String> },
    Assign { id: String, user: String, project: Option<String> },
    Status { id: String, status: IssueStatus, project: Option<String> },
    Label { id: String, label: String, project: Option<String> },
}

/// `odi push`.
#[derive(Debug, Clone)]
pub struct PushArgs {
    pub remote: Option<String>,
    pub force: bool,
    pub dry_run: bool,
}

/// `odi pull`.
#[derive(Debug, Clone)]
pub struct PullArgs {
    pub remote: Option<String>,
    pub force: bool,
    pub dry_run: bool,
    pub project: Option<String>,
}

/// `odi remote`.
#[derive(Debug, Clone)]
pub struct RemoteArgs {
    pub command: RemoteSubcommand,
}

/// The remote subcommands.
#[derive(Debug, Clone)]
pub enum RemoteSubcommand {
    Add { name: String, url: String, projects: Option<Vec<String>> },
    List,
    Pull { remote: Option<String>, force: bool, dry_run: bool },
    Push { remote: Option<String>, force: bool, dry_run: bool },
    Show { name: String },
    Remove { name: String },
    SyncStatus { remote: Option<String> },
}

/// `odi team`.
#[derive(Debug, Clone)]
pub struct TeamArgs {
    pub command: TeamSubcommand,
}

/// The team subcommands.
#[derive(Debug, Clone)]
pub enum TeamSubcommand {
    Create { name: String, description: Option<String> },
    List,
    Show { name: String },
    Delete { name: String },
    AddMember { team_name: String, user_name: String },
    RemoveMember { team_name: String, user_name: String },
}

/// `odi config`.
#[derive(Debug, Clone)]
pub struct ConfigArgs {
    pub command: ConfigSubcommand,
}

/// The config subcommands.
#[derive(Debug, Clone)]
pub enum ConfigSubcommand {
    Get { key: String },
    SetValue { key: String, value: String },
    Unset { key: String },
    Reset { section: String },
    List,
}

/// `odi label`.
#[derive(Debug, Clone)]
pub struct LabelArgs {
    pub command: LabelSubcommand,
}

/// The label subcommands.
#[derive(Debug, Clone)]
pub enum LabelSubcommand {
    Create { id: String, name: String, color: String, project: String, description: Option<String> },
    List { project: Option<String>, color: Option<String> },
}

/// `odi fsck`.
#[derive(Debug, Clone)]
pub struct FsckArgs {
    pub command: FsckCommand,
}

/// The fsck subcommands.
#[derive(Debug, Clone)]
pub enum FsckCommand {
    Check { dry_run: bool, verbose: bool },
    Repair { force: bool, verbose: bool },
    Stats { detailed: bool },
}

} // verus!

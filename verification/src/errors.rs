//! The error types of the library and the messages they print.

use vstd::prelude::*;
use crate::text::copy_str;

verus! {

/// Errors of the core domain operations.
#[derive(Debug, Clone)]
pub enum CoreError {
    IssueNotFound { id: String },
    UserNotFound { id: String },
    ProjectNotFound { id: String },
    InvalidStatusTransition { from: String, to: String },
    PermissionDenied { operation: String },
    ValidationError { field: String, message: String },
    Serialization { message: String },
    Uuid { message: String },
}

/// The message a [`CoreError`] prints.
pub open spec fn core_error_text(e: CoreError) -> Seq<char> {
    match e {
        CoreError::IssueNotFound { id } => "Issue not found: "@ + id@,
        CoreError::UserNotFound { id } => "User not found: "@ + id@,
        CoreError::ProjectNotFound { id } => "Project not found: "@ + id@,
        CoreError::InvalidStatusTransition { from, to } => "Invalid issue status transition: "@ + from@ + " -> "@ + to@,
        CoreError::PermissionDenied { operation } => "Permission denied: "@ + operation@,
        CoreError::ValidationError { field, message } => "Validation failed: "@ + field@ + ": "@ + message@,
        CoreError::Serialization { message } => "Serialization error: "@ + message@,
        CoreError::Uuid { message } => "UUID error: "@ + message@,
    }
}

impl CoreError {
    /// The message this error prints.
    pub fn message(&self) -> (m: String)
        ensures
            m@ == core_error_text(*self),
    {
        proof {
            reveal_strlit(" -> ");
            reveal_strlit(": ");
            reveal_strlit("Invalid issue status transition: ");
            reveal_strlit("Issue not found: ");
            reveal_strlit("Permission denied: ");
            reveal_strlit("Project not found: ");
            reveal_strlit("Serialization error: ");
            reveal_strlit("UUID error: ");
            reveal_strlit("User not found: ");
            reveal_strlit("Validation failed: ");
        }
        match self {
            CoreError::IssueNotFound { id } => {
                let mut m = copy_str("Issue not found: ");
                m.append(id.as_str());
                m
            },
            CoreError::UserNotFound { id } => {
                let mut m = copy_str("User not found: ");
                m.append(id.as_str());
                m
            },
            CoreError::ProjectNotFound { id } => {
                let mut m = copy_str("Project not found: ");
                m.append(id.as_str());
                m
            },
            CoreError::InvalidStatusTransition { from, to } => {
                let mut m = copy_str("Invalid issue status transition: ");
                m.append(from.as_str());
                m.append(" -> ");
                m.append(to.as_str());
                m
            },
            CoreError::PermissionDenied { operation } => {
                let mut m = copy_str("Permission denied: ");
                m.append(operation.as_str());
                m
            },
            CoreError::ValidationError { field, message } => {
                let mut m = copy_str("Validation failed: ");
                m.append(field.as_str());
                m.append(": ");
                m.append(message.as_str());
                m
            },
            CoreError::Serialization { message } => {
                let mut m = copy_str("Serialization error: ");
                m.append(message.as_str());
                m
            },
            CoreError::Uuid { message } => {
                let mut m = copy_str("UUID error: ");
                m.append(message.as_str());
                m
            },
        }
    }
}

/// Errors of the storage layer.
#[derive(Debug, Clone)]
pub enum FsError {
    Io { message: String },
    ConfigError { message: String },
    StorageError { message: String },
    SerializationError { message: String },
    LockError { message: String },
    GitError { message: String },
    TomlError { message: String },
    JsonError { message: String },
}

/// The message a [`FsError`] prints.
pub open spec fn fs_error_text(e: FsError) -> Seq<char> {
    match e {
        FsError::Io { message } => "IO error: "@ + message@,
        FsError::ConfigError { message } => "Configuration error: "@ + message@,
        FsError::StorageError { message } => "Storage error: "@ + message@,
        FsError::SerializationError { message } => "Serialization error: "@ + message@,
        FsError::LockError { message } => "Lock error: "@ + message@,
        FsError::GitError { message } => "Git integration error: "@ + message@,
        FsError::TomlError { message } => "TOML parsing error: "@ + message@,
        FsError::JsonError { message } => "JSON error: "@ + message@,
    }
}

impl FsError {
    /// The message this error prints.
    pub fn message(&self) -> (m: String)
        ensures
            m@ == fs_error_text(*self),
    {
        proof {
            reveal_strlit("Configuration error: ");
            reveal_strlit("Git integration error: ");
            reveal_strlit("IO error: ");
            reveal_strlit("JSON error: ");
            reveal_strlit("Lock error: ");
            reveal_strlit("Serialization error: ");
            reveal_strlit("Storage error: ");
            reveal_strlit("TOML parsing error: ");
        }
        match self {
            FsError::Io { message } => {
                let mut m = copy_str("IO error: ");
                m.append(message.as_str());
                m
            },
            FsError::ConfigError { message } => {
                let mut m = copy_str("Configuration error: ");
                m.append(message.as_str());
                m
            },
            FsError::StorageError { message } => {
                let mut m = copy_str("Storage error: ");
                m.append(message.as_str());
                m
            },
            FsError::SerializationError { message } => {
                let mut m = copy_str("Serialization error: ");
                m.append(message.as_str());
                m
            },
            FsError::LockError { message } => {
                let mut m = copy_str("Lock error: ");
                m.append(message.as_str());
                m
            },
            FsError::GitError { message } => {
                let mut m = copy_str("Git integration error: ");
                m.append(message.as_str());
                m
            },
            FsError::TomlError { message } => {
                let mut m = copy_str("TOML parsing error: ");
                m.append(message.as_str());
                m
            },
            FsError::JsonError { message } => {
                let mut m = copy_str("JSON error: ");
                m.append(message.as_str());
                m
            },
        }
    }
}

/// Errors of the network layer.
#[derive(Debug, Clone)]
pub enum NetError {
    Network { message: String },
    Authentication { message: String },
    Protocol { message: String },
    Sync { message: String },
    Serialization { message: String },
}

/// The message a [`NetError`] prints.
pub open spec fn net_error_text(e: NetError) -> Seq<char> {
    match e {
        NetError::Network { message } => "Network error: "@ + message@,
        NetError::Authentication { message } => "Authentication error: "@ + message@,
        NetError::Protocol { message } => "Protocol error: "@ + message@,
        NetError::Sync { message } => "Sync error: "@ + message@,
        NetError::Serialization { message } => "Serialization error: "@ + message@,
    }
}

impl NetError {
    /// The message this error prints.
    pub fn message(&self) -> (m: String)
        ensures
            m@ == net_error_text(*self),
    {
        proof {
            reveal_strlit("Authentication error: ");
            reveal_strlit("Network error: ");
            reveal_strlit("Protocol error: ");
            reveal_strlit("Serialization error: ");
            reveal_strlit("Sync error: ");
        }
        match self {
            NetError::Network { message } => {
                let mut m = copy_str("Network error: ");
                m.append(message.as_str());
                m
            },
            NetError::Authentication { message } => {
                let mut m = copy_str("Authentication error: ");
                m.append(message.as_str());
                m
            },
            NetError::Protocol { message } => {
                let mut m = copy_str("Protocol error: ");
                m.append(message.as_str());
                m
            },
            NetError::Sync { message } => {
                let mut m = copy_str("Sync error: ");
                m.append(message.as_str());
                m
            },
            NetError::Serialization { message } => {
                let mut m = copy_str("Serialization error: ");
                m.append(message.as_str());
                m
            },
        }
    }
}

/// Errors of configuration files.
#[derive(Debug, Clone)]
pub enum ConfigError {
    Io { message: String },
    Toml { message: String },
    Validation { message: String },
}

/// The message a [`ConfigError`] prints.
pub open spec fn config_error_text(e: ConfigError) -> Seq<char> {
    match e {
        ConfigError::Io { message } => "IO error: "@ + message@,
        ConfigError::Toml { message } => "TOML parsing error: "@ + message@,
        ConfigError::Validation { message } => "Validation error: "@ + message@,
    }
}

impl ConfigError {
    /// The message this error prints.
    pub fn message(&self) -> (m: String)
        ensures
            m@ == config_error_text(*self),
    {
        proof {
            reveal_strlit("IO error: ");
            reveal_strlit("TOML parsing error: ");
            reveal_strlit("Validation error: ");
        }
        match self {
            ConfigError::Io { message } => {
                let mut m = copy_str("IO error: ");
                m.append(message.as_str());
                m
            },
            ConfigError::Toml { message } => {
                let mut m = copy_str("TOML parsing error: ");
                m.append(message.as_str());
                m
            },
            ConfigError::Validation { message } => {
                let mut m = copy_str("Validation error: ");
                m.append(message.as_str());
                m
            },
        }
    }
}

/// Errors of the command-line operations.
#[derive(Debug, Clone)]
pub enum OdiError {
    Core(CoreError),
    Filesystem(FsError),
    Network(NetError),
    Config { message: String },
    Storage { message: String },
    Sync { message: String },
    NotInitialized { message: String },
    Command { message: String },
    Validation { message: String },
    Io { message: String },
    TeamNotFound(String),
    UserNotFound(String),
}

/// The message an [`OdiError`] prints.
pub open spec fn odi_error_text(e: OdiError) -> Seq<char> {
    match e {
        OdiError::Core(c) => "Core error: "@ + core_error_text(c),
        OdiError::Filesystem(f) => "Filesystem error: "@ + fs_error_text(f),
        OdiError::Network(n) => "Network error: "@ + net_error_text(n),
        OdiError::Config { message } => "Configuration error: "@ + message@,
        OdiError::Storage { message } => "Storage error: "@ + message@,
        OdiError::Sync { message } => "Synchronization error: "@ + message@,
        OdiError::NotInitialized { message } => "Not initialized: "@ + message@,
        OdiError::Command { message } => "Command error: "@ + message@,
        OdiError::Validation { message } => "Validation error: "@ + message@,
        OdiError::Io { message } => "IO error: "@ + message@,
        OdiError::TeamNotFound(name) => "Team not found: "@ + name@,
        OdiError::UserNotFound(name) => "User not found: "@ + name@,
    }
}

/// The friendly, multi-line explanation of an [`OdiError`], with a tip.
pub open spec fn friendly_text(e: OdiError) -> Seq<char> {
    match e {
        OdiError::Core(c) => "🔧 Core Error\n"@ + core_error_text(c) + "\n\n💡 Tip: This is an internal ODI error"@,
        OdiError::Filesystem(f) => "💾 Filesystem Error\n"@ + fs_error_text(f)
            + "\n\n💡 Tip: Check file permissions and disk space"@,
        OdiError::Network(n) => "🌐 Network Error\n"@ + net_error_text(n)
            + "\n\n💡 Tip: Check your internet connection and remote URLs"@,
        OdiError::NotInitialized { message } => "❌ Workspace Error\n"@ + message@
            + "\n\n💡 Tip: Use 'odi init' to set up a new workspace"@,
        OdiError::Config { message } => "⚙️  Configuration Error\n"@ + message@
            + "\n\n💡 Tip: Check your .odi/config file or run 'odi config --help'"@,
        OdiError::Storage { message } => "💾 Storage Error\n"@ + message@
            + "\n\n💡 Tip: Check file permissions and disk space"@,
        OdiError::Sync { message } => "🔄 Synchronization Error\n"@ + message@
            + "\n\n💡 Tip: Try 'odi remote status' to check remote connectivity"@,
        OdiError::Command { message } => "⚠️  Command Error\n"@ + message@
            + "\n\n💡 Tip: Use 'odi --help' for command usage"@,
        OdiError::Validation { message } => "❌ Validation Error\n"@ + message@
            + "\n\n💡 Tip: Check your input and try again"@,
        OdiError::Io { message } => "📁 File System Error\n"@ + message@
            + "\n\n💡 Tip: Check file permissions and paths"@,
        OdiError::TeamNotFound(name) => "❌ Team Not Found\nTeam '"@ + name@
            + "' does not exist\n\n💡 Tip: Use 'odi team list' to see available teams"@,
        OdiError::UserNotFound(name) => "❌ User Not Found\nUser '"@ + name@
            + "' does not exist\n\n💡 Tip: Check the username or create the user first"@,
    }
}

/// A text made of `a`, then `b`, then `c`.
fn join3(a: &str, b: &str, c: &str) -> (r: String)
    ensures
        r@ == a@ + b@ + c@,
{
    let mut r = copy_str(a);
    r.append(b);
    r.append(c);
    r
}

impl OdiError {
    /// The message this error prints.
    pub fn message(&self) -> (m: String)
        ensures
            m@ == odi_error_text(*self),
    {
        proof {
            reveal_strlit("Core error: ");
            reveal_strlit("Filesystem error: ");
            reveal_strlit("Network error: ");
            reveal_strlit("Configuration error: ");
            reveal_strlit("Storage error: ");
            reveal_strlit("Synchronization error: ");
            reveal_strlit("Not initialized: ");
            reveal_strlit("Command error: ");
            reveal_strlit("Validation error: ");
            reveal_strlit("IO error: ");
            reveal_strlit("Team not found: ");
            reveal_strlit("User not found: ");
            reveal_strlit("");
        }
        match self {
            OdiError::Core(c) => join3("Core error: ", c.message().as_str(), ""),
            OdiError::Filesystem(f) => join3("Filesystem error: ", f.message().as_str(), ""),
            OdiError::Network(n) => join3("Network error: ", n.message().as_str(), ""),
            OdiError::Config { message } => join3("Configuration error: ", message.as_str(), ""),
            OdiError::Storage { message } => join3("Storage error: ", message.as_str(), ""),
            OdiError::Sync { message } => join3("Synchronization error: ", message.as_str(), ""),
            OdiError::NotInitialized { message } => join3("Not initialized: ", message.as_str(), ""),
            OdiError::Command { message } => join3("Command error: ", message.as_str(), ""),
            OdiError::Validation { message } => join3("Validation error: ", message.as_str(), ""),
            OdiError::Io { message } => join3("IO error: ", message.as_str(), ""),
            OdiError::TeamNotFound(name) => join3("Team not found: ", name.as_str(), ""),
            OdiError::UserNotFound(name) => join3("User not found: ", name.as_str(), ""),
        }
    }

    /// A friendly, multi-line explanation of the error with a tip on what to do.
    pub fn format_user_friendly(&self) -> (m: String)
        ensures
            m@ == friendly_text(*self),
    {
        proof {
            reveal_strlit("🔧 Core Error\n");
            reveal_strlit("\n\n💡 Tip: This is an internal ODI error");
            reveal_strlit("💾 Filesystem Error\n");
            reveal_strlit("\n\n💡 Tip: Check file permissions and disk space");
            reveal_strlit("🌐 Network Error\n");
            reveal_strlit("\n\n💡 Tip: Check your internet connection and remote URLs");
            reveal_strlit("❌ Workspace Error\n");
            reveal_strlit("\n\n💡 Tip: Use 'odi init' to set up a new workspace");
            reveal_strlit("⚙️  Configuration Error\n");
            reveal_strlit("\n\n💡 Tip: Check your .odi/config file or run 'odi config --help'");
            reveal_strlit("💾 Storage Error\n");
            reveal_strlit("🔄 Synchronization Error\n");
            reveal_strlit("\n\n💡 Tip: Try 'odi remote status' to check remote connectivity");
            reveal_strlit("⚠️  Command Error\n");
            reveal_strlit("\n\n💡 Tip: Use 'odi --help' for command usage");
            reveal_strlit("❌ Validation Error\n");
            reveal_strlit("\n\n💡 Tip: Check your input and try again");
            reveal_strlit("📁 File System Error\n");
            reveal_strlit("\n\n💡 Tip: Check file permissions and paths");
            reveal_strlit("❌ Team Not Found\nTeam '");
            reveal_strlit("' does not exist\n\n💡 Tip: Use 'odi team list' to see available teams");
            reveal_strlit("❌ User Not Found\nUser '");
            reveal_strlit("' does not exist\n\n💡 Tip: Check the username or create the user first");
        }
        match self {
            OdiError::Core(c) => join3("🔧 Core Error\n", c.message().as_str(), "\n\n💡 Tip: This is an internal ODI error"),
            OdiError::Filesystem(f) => join3("💾 Filesystem Error\n", f.message().as_str(),
                "\n\n💡 Tip: Check file permissions and disk space"),
            OdiError::Network(n) => join3("🌐 Network Error\n", n.message().as_str(),
                "\n\n💡 Tip: Check your internet connection and remote URLs"),
            OdiError::NotInitialized { message } => join3("❌ Workspace Error\n", message.as_str(),
                "\n\n💡 Tip: Use 'odi init' to set up a new workspace"),
            OdiError::Config { message } => join3("⚙️  Configuration Error\n", message.as_str(),
                "\n\n💡 Tip: Check your .odi/config file or run 'odi config --help'"),
            OdiError::Storage { message } => join3("💾 Storage Error\n", message.as_str(),
                "\n\n💡 Tip: Check file permissions and disk space"),
            OdiError::Sync { message } => join3("🔄 Synchronization Error\n", message.as_str(),
                "\n\n💡 Tip: Try 'odi remote status' to check remote connectivity"),
            OdiError::Command { message } => join3("⚠️  Command Error\n", message.as_str(),
                "\n\n💡 Tip: Use 'odi --help' for command usage"),
            OdiError::Validation { message } => join3("❌ Validation Error\n", message.as_str(),
                "\n\n💡 Tip: Check your input and try again"),
            OdiError::Io { message } => join3("📁 File System Error\n", message.as_str(),
                "\n\n💡 Tip: Check file permissions and paths"),
            OdiError::TeamNotFound(name) => join3("❌ Team Not Found\nTeam '", name.as_str(),
                "' does not exist\n\n💡 Tip: Use 'odi team list' to see available teams"),
            OdiError::UserNotFound(name) => join3("❌ User Not Found\nUser '", name.as_str(),
                "' does not exist\n\n💡 Tip: Check the username or create the user first"),
        }
    }
}

} // verus!

use odi::errors::{CoreError, FsError, NetError, OdiError};

#[test]
fn messages_and_friendly_text() {
    let e = OdiError::TeamNotFound("core".to_string());
    assert_eq!(e.message(), "Team not found: core");
    assert_eq!(
        e.format_user_friendly(),
        "❌ Team Not Found\nTeam 'core' does not exist\n\n💡 Tip: Use 'odi team list' to see available teams"
    );
    let e = OdiError::Network(NetError::Sync { message: "down".to_string() });
    assert_eq!(e.message(), "Network error: Sync error: down");
    let e = OdiError::Filesystem(FsError::LockError { message: "held".to_string() });
    assert_eq!(e.message(), "Filesystem error: Lock error: held");
    let e = OdiError::Core(CoreError::ValidationError { field: "f".to_string(), message: "m".to_string() });
    assert!(e.format_user_friendly().starts_with("🔧 Core Error\n"));
    let e = OdiError::Validation { message: "bad".to_string() };
    assert_eq!(e.format_user_friendly(), "❌ Validation Error\nbad\n\n💡 Tip: Check your input and try again");
}

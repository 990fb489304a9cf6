use odi::issue::{Issue, IssueStatus, Priority};
use odi::sync::{
    detect_conflict_type, BatchConflictStrategy, Conflict, ConflictResolution, ConflictType, SyncOptions,
    SyncResult, SyncStats,
};

#[test]
fn test_sync_options() {
    let options = SyncOptions::new()
        .projects(vec!["project1".to_string()])
        .force()
        .dry_run()
        .auto_resolve()
        .batch_size(50)
        .timeout(std::time::Duration::from_secs(60));

    assert_eq!(options.projects, Some(vec!["project1".to_string()]));
    assert!(options.force);
    assert!(options.dry_run);
    assert!(options.auto_resolve);
    assert_eq!(options.batch_size, Some(50));
    assert_eq!(options.timeout, Some(std::time::Duration::from_secs(60)));
}

#[test]
fn test_sync_stats() {
    let mut stats = SyncStats::new();

    assert!(!stats.is_completed());
    assert_eq!(stats.total_issues(), 0);

    stats.issues_pulled = 5;
    stats.issues_pushed = 3;
    stats.conflicts_detected = 2;
    stats.conflicts_resolved = 1;

    assert_eq!(stats.total_issues(), 8);
    let (resolved, detected) = stats.resolution_ratio();
    assert_eq!(resolved as f64 / detected as f64, 0.5);

    stats.complete();
    assert!(stats.is_completed());
    assert!(stats.duration.is_some());
}

#[test]
fn test_conflict_detection() {
    let issue_id = uuid::Uuid::new_v4().as_u128();
    let mut local_issue = Issue::new("Test Issue".to_string(), "alice".to_string());
    local_issue.id = issue_id;

    let mut remote_issue = local_issue.clone();

    assert_eq!(detect_conflict_type(&local_issue, &remote_issue), None);

    remote_issue.status = IssueStatus::Resolved;
    assert_eq!(detect_conflict_type(&local_issue, &remote_issue), Some(ConflictType::StatusConflict));

    remote_issue = local_issue.clone();
    remote_issue.title = "Different Title".to_string();
    assert_eq!(detect_conflict_type(&local_issue, &remote_issue), Some(ConflictType::ContentConflict));

    remote_issue = local_issue.clone();
    remote_issue.assignees = vec!["bob".to_string()];
    assert_eq!(detect_conflict_type(&local_issue, &remote_issue), Some(ConflictType::AssignmentConflict));

    remote_issue = local_issue.clone();
    remote_issue.priority = Priority::High;
    assert_eq!(detect_conflict_type(&local_issue, &remote_issue), Some(ConflictType::MetadataConflict));
}

#[test]
fn test_batch_conflict_strategy() {
    let _stop = BatchConflictStrategy::StopOnConflict;
    let _skip = BatchConflictStrategy::SkipConflicts;
    let _auto = BatchConflictStrategy::AutoResolve(ConflictResolution::AcceptLocal);

    match BatchConflictStrategy::StopOnConflict {
        BatchConflictStrategy::StopOnConflict => assert!(true),
        _ => assert!(false),
    }
}

#[test]
fn test_sync_result_creation() {
    let result = SyncResult::new();

    assert!(result.pulled_issues.is_empty());
    assert!(result.pushed_issues.is_empty());
    assert!(result.conflicts.is_empty());
    assert!(!result.has_conflicts());
    assert_eq!(result.total_synced(), 0);
}

#[test]
fn test_sync_result_operations() {
    let mut result = SyncResult::new();

    let issue_id = uuid::Uuid::new_v4().as_u128();
    result.add_pulled(issue_id);
    result.add_pushed(issue_id);

    assert_eq!(result.pulled_issues.len(), 1);
    assert_eq!(result.pushed_issues.len(), 1);
    assert_eq!(result.total_synced(), 2);

    result.add_pulled(issue_id);
    assert_eq!(result.pulled_issues.len(), 1);
}

#[test]
fn test_conflict_creation() {
    let issue_id = uuid::Uuid::new_v4().as_u128();
    let mut local_issue = Issue::new("Test Issue".to_string(), "alice".to_string());
    let mut remote_issue = local_issue.clone();

    local_issue.status = IssueStatus::InProgress;
    remote_issue.status = IssueStatus::Resolved;

    let conflict = Conflict::new(issue_id, local_issue, remote_issue, ConflictType::StatusConflict);

    assert_eq!(conflict.issue_id, issue_id);
    assert_eq!(conflict.conflict_type, ConflictType::StatusConflict);
    assert!(!conflict.can_auto_resolve());
    assert!(conflict.summary().contains("Status conflict"));
}

#[test]
fn test_conflict_auto_resolve() {
    let issue_id = uuid::Uuid::new_v4().as_u128();
    let local_issue = Issue::new("Test Issue".to_string(), "alice".to_string());
    let remote_issue = local_issue.clone();

    let metadata_conflict =
        Conflict::new(issue_id, local_issue.clone(), remote_issue.clone(), ConflictType::MetadataConflict);

    let content_conflict = Conflict::new(issue_id, local_issue, remote_issue, ConflictType::ContentConflict);

    assert!(metadata_conflict.can_auto_resolve());
    assert!(!content_conflict.can_auto_resolve());
}

#[test]
fn default_sync_options() {
    let options = SyncOptions::new();
    assert_eq!(options.projects, None);
    assert!(!options.force);
    assert_eq!(options.batch_size, Some(100));
    assert_eq!(options.timeout, Some(std::time::Duration::from_secs(300)));
}

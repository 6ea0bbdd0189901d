use agent_core::memory::compaction::{CompactionError, CompactionService, NoopCompactionService};
use agent_core::memory::types::{CompactionOutcome, CompactionPolicy, CompactionStrategy};

#[test]
fn noop_compaction_always_skips() {
    let service = NoopCompactionService::new();
    let result = service.compact_if_needed("test-session").unwrap();
    assert!(matches!(result, CompactionOutcome::Skipped { .. }));
}

#[test]
fn default_policy_values() {
    let policy = CompactionPolicy::default();
    assert_eq!(policy.event_count_threshold, 100);
    assert_eq!(policy.keep_recent_events, 50);
    assert!(matches!(policy.strategy, CompactionStrategy::KeepRecent));
}

#[test]
fn noop_service_reports_default_policy_and_reason() {
    let service = NoopCompactionService::default();
    assert_eq!(*service.policy(), CompactionPolicy::default());
    assert_eq!(
        service.compact_if_needed("any").unwrap(),
        CompactionOutcome::Skipped { reason: "noop compaction service".to_string() }
    );
}

#[test]
fn compaction_error_messages() {
    assert_eq!(
        CompactionError::AlreadyInProgress("s1".to_string()).to_string(),
        "compaction already in progress for session s1"
    );
    assert_eq!(CompactionError::Storage("disk".to_string()).to_string(), "storage error: disk");
    assert_eq!(CompactionError::Internal("bug".to_string()).to_string(), "internal error: bug");
}

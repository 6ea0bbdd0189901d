//! Compaction services.
use vstd::prelude::*;
use crate::memory::types::{CompactionOutcome, CompactionPolicy};

verus! {

/// Decides whether a session needs compacting and compacts it.
pub trait CompactionService {
    /// Compacts the session if its policy calls for it.
    fn compact_if_needed(&self, session_id: &str) -> Result<CompactionOutcome, CompactionError>;

    /// The policy in force.
    fn policy(&self) -> &CompactionPolicy;
}

/// Why a compaction failed.
#[derive(Debug, Clone, PartialEq, Eq)]
pub enum CompactionError {
    AlreadyInProgress(String),
    Storage(String),
    Internal(String),
}

impl CompactionError {
    /// The human-readable message of the error.
    pub fn to_string(&self) -> (r: String)
        ensures
            r@ == match self {
                CompactionError::AlreadyInProgress(s) => "compaction already in progress for session "@ + s@,
                CompactionError::Storage(m) => "storage error: "@ + m@,
                CompactionError::Internal(m) => "internal error: "@ + m@,
            },
    {
        match self {
            CompactionError::AlreadyInProgress(s) => "compaction already in progress for session ".to_owned().concat(
                s.as_str(),
            ),
            CompactionError::Storage(m) => "storage error: ".to_owned().concat(m.as_str()),
            CompactionError::Internal(m) => "internal error: ".to_owned().concat(m.as_str()),
        }
    }
}

/// A service that never compacts.
pub struct NoopCompactionService {
    policy: CompactionPolicy,
}

impl NoopCompactionService {
    pub closed spec fn current_policy(&self) -> CompactionPolicy {
        self.policy
    }

    pub fn new() -> (r: Self)
        ensures
            r.current_policy() == CompactionPolicy::default_spec(),
    {
        NoopCompactionService { policy: CompactionPolicy::default() }
    }
}

impl CompactionPolicy {
    /// The default policy's values.
    pub open spec fn default_spec() -> CompactionPolicy {
        CompactionPolicy {
            event_count_threshold: 100,
            keep_recent_events: 50,
            strategy: crate::memory::types::CompactionStrategy::KeepRecent,
        }
    }
}

impl Default for NoopCompactionService {
    fn default() -> (r: Self)
        ensures
            r.current_policy() == CompactionPolicy::default_spec(),
    {
        Self::new()
    }
}

impl CompactionService for NoopCompactionService {
    /// Always skips, whatever the session.
    fn compact_if_needed(&self, session_id: &str) -> (r: Result<CompactionOutcome, CompactionError>)
        ensures
            r matches Ok(CompactionOutcome::Skipped { reason }) && reason@ == "noop compaction service"@,
    {
        Ok(CompactionOutcome::Skipped { reason: "noop compaction service".to_owned() })
    }

    fn policy(&self) -> (r: &CompactionPolicy)
        ensures
            *r == self.current_policy(),
    {
        &self.policy
    }
}

} // verus!

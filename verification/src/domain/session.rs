//! Session record of the event-sourced store.
use vstd::prelude::*;

verus! {

/// Lifecycle state of a session.
#[derive(Debug, Clone, Copy, PartialEq, Eq)]
pub enum SessionStatus {
    Active,
    Compacting,
    Archived,
}

/// A conversation session with its bookkeeping counters.
#[derive(Debug, Clone, PartialEq, Eq)]
pub struct Session {
    pub session_id: String,
    pub tenant_id: String,
    pub user_id: String,
    pub agent_id: String,
    pub status: SessionStatus,
    pub title: Option<String>,
    pub created_at: i64,
    pub updated_at: i64,
    pub last_active_at: i64,
    pub event_count: u64,
    pub last_sequence: u64,
    pub estimated_prompt_tokens: Option<u32>,
    pub estimated_tokens_after_compaction: Option<u32>,
    pub compacted_until_sequence: Option<u64>,
    pub version: u64,
    pub archived_at: Option<i64>,
    pub last_message_at: Option<i64>,
    pub archived: bool,
}

} // verus!

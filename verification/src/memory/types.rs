//! Compaction policy and outcome values.
use vstd::prelude::*;

verus! {

/// How old events are compacted.
#[derive(Debug, Clone, Copy, PartialEq, Eq)]
pub enum CompactionStrategy {
    /// Keep the most recent N events, cut the older ones.
    KeepRecent,
    /// Replace old events by a model-written summary.
    LlmSummary,
}

/// What a compaction attempt did.
#[derive(Debug, Clone, PartialEq, Eq)]
pub enum CompactionOutcome {
    /// Nothing needed compacting.
    Skipped { reason: String },
    /// Events `range_start..=range_end` were compacted.
    Compacted { range_start: u64, range_end: u64, strategy: CompactionStrategy },
}

/// When and how to compact.
#[derive(Debug, Clone, Copy, PartialEq, Eq)]
pub struct CompactionPolicy {
    /// Number of events that triggers a compaction.
    pub event_count_threshold: u64,
    /// Number of recent events kept after compacting.
    pub keep_recent_events: u64,
    pub strategy: CompactionStrategy,
}

impl Default for CompactionPolicy {
    /// Compact past 100 events, keeping the 50 most recent.
    fn default() -> (r: Self)
        ensures
            r == (CompactionPolicy {
                event_count_threshold: 100,
                keep_recent_events: 50,
                strategy: CompactionStrategy::KeepRecent,
            }),
    {
        CompactionPolicy { event_count_threshold: 100, keep_recent_events: 50, strategy: CompactionStrategy::KeepRecent }
    }
}

} // verus!

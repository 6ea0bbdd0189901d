//! Session memory compaction: policy, outcomes and services.
pub mod compaction;
pub mod types;

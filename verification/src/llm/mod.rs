//! The LLM provider layer: its own request/response types, errors, the
//! OpenAI-compatible wire format and provider rules, and the mapping to and
//! from the domain's LLM port.
pub mod compat;
pub mod error;
pub mod mock;
pub mod provider;
pub mod types;
pub mod wire;

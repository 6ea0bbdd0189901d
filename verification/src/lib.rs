//! Verified core of a conversational agent server: domain types and ports,
//! the LLM provider mapping, system prompt composition, authentication
//! tokens, the agent turn state machine and the request/response rules of
//! the gRPC handlers.
use vstd::prelude::*;

pub mod app;
pub mod channel;
pub mod context;
pub mod domain;
pub mod llm;
pub mod memory;
pub mod text;
pub mod time;

verus! {

} // verus!

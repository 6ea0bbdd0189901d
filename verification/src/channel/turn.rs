//! What the chat handler hands to the turn runtime and gets back.
use vstd::prelude::*;

verus! {

/// A turn to run: who speaks, in which session (none: the default one), what.
#[derive(Debug, Clone, PartialEq, Eq)]
pub struct TurnInput {
    pub user_id: String,
    pub session_id: Option<String>,
    pub user_message: String,
}

/// Why a turn ended.
#[derive(Debug, Clone, Copy, PartialEq, Eq)]
pub enum TurnFinishReason {
    Stop,
}

/// The outcome of a completed turn.
#[derive(Debug, Clone, PartialEq, Eq)]
pub struct TurnOutput {
    pub session_id: String,
    pub assistant_text: String,
    pub finish_reason: TurnFinishReason,
    pub tool_iterations: u32,
}

/// Why a turn failed.
#[derive(Debug, Clone, PartialEq, Eq)]
pub enum TurnError {
    InvalidInput(String),
    SessionError(String),
    LlmError(String),
    ToolLoopExceeded { max: usize },
    Internal(String),
}

} // verus!

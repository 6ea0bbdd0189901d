//! Value types exchanged with the domain's ports: authentication, the LLM,
//! the tool runtime and the message store. The ports themselves are
//! asynchronous and are implemented around the library.
use vstd::prelude::*;

verus! {

/// Outcome of a successful authentication or registration.
#[derive(Debug, Clone, PartialEq, Eq)]
pub struct AuthResult {
    pub user_id: String,
    pub display_name: String,
}

/// Failure reported by the authentication port.
#[derive(Debug, Clone, PartialEq, Eq)]
pub enum AuthError {
    InvalidCredentials,
    AlreadyExists(String),
    Internal(String),
}

/// A tool call requested by the model.
#[derive(Debug, Clone, PartialEq, Eq)]
pub struct ToolCall {
    pub call_id: String,
    pub name: String,
    pub arguments: String,
}

pub struct ToolCallView {
    pub call_id: Seq<char>,
    pub name: Seq<char>,
    pub arguments: Seq<char>,
}

impl DeepView for ToolCall {
    type V = ToolCallView;

    open spec fn deep_view(&self) -> ToolCallView {
        ToolCallView { call_id: self.call_id@, name: self.name@, arguments: self.arguments@ }
    }
}

/// A message of the conversation as the LLM port sees it.
#[derive(Debug, Clone, PartialEq, Eq)]
pub struct ChatMessage {
    pub role: String,
    pub content: String,
    pub tool_calls: Option<Vec<ToolCall>>,
    pub tool_call_id: Option<String>,
}

pub struct ChatMessageView {
    pub role: Seq<char>,
    pub content: Seq<char>,
    pub tool_calls: Option<Seq<ToolCallView>>,
    pub tool_call_id: Option<Seq<char>>,
}

impl DeepView for ChatMessage {
    type V = ChatMessageView;

    open spec fn deep_view(&self) -> ChatMessageView {
        ChatMessageView {
            role: self.role@,
            content: self.content@,
            tool_calls: self.tool_calls.deep_view(),
            tool_call_id: self.tool_call_id.deep_view(),
        }
    }
}

/// A tool offered to the model. `parameters` is the JSON Schema of the
/// tool's arguments, as JSON text.
#[derive(Debug, Clone, PartialEq, Eq)]
pub struct ToolSpec {
    pub name: String,
    pub description: String,
    pub parameters: String,
}

pub struct ToolSpecView {
    pub name: Seq<char>,
    pub description: Seq<char>,
    pub parameters: Seq<char>,
}

impl DeepView for ToolSpec {
    type V = ToolSpecView;

    open spec fn deep_view(&self) -> ToolSpecView {
        ToolSpecView {
            name: self.name@,
            description: self.description@,
            parameters: self.parameters@,
        }
    }
}

/// What a tool execution produced.
#[derive(Debug, Clone, PartialEq, Eq)]
pub struct ToolResult {
    pub call_id: String,
    pub content: String,
}

/// The LLM port's answer.
#[derive(Debug, Clone, PartialEq, Eq)]
pub struct LlmResponse {
    pub content: String,
    pub model: String,
    pub usage: Option<LlmUsage>,
    pub tool_calls: Vec<ToolCall>,
    pub finish_reason: FinishReason,
}

#[derive(Debug, Clone, Copy, PartialEq, Eq)]
pub enum FinishReason {
    Stop,
    ToolCalls,
    Length,
}

#[derive(Debug, Clone, Copy, PartialEq, Eq)]
pub struct LlmUsage {
    pub input_tokens: u32,
    pub output_tokens: u32,
    pub total_tokens: u32,
}

/// Failure reported by the LLM port.
#[derive(Debug, Clone, PartialEq, Eq)]
pub enum LlmError {
    ProviderError(String),
    RateLimited,
    InvalidRequest(String),
    Timeout,
}

/// A message as the store keeps it.
#[derive(Debug, Clone, PartialEq, Eq)]
pub struct StoredMessage {
    pub id: String,
    pub session_id: String,
    pub role: String,
    pub content: String,
    pub created_at: i64,
}

impl StoredMessage {
    /// A copy with the same contents.
    pub fn clone_message(&self) -> (r: Self)
        ensures
            r.id@ == self.id@,
            r.session_id@ == self.session_id@,
            r.role@ == self.role@,
            r.content@ == self.content@,
            r.created_at == self.created_at,
    {
        StoredMessage {
            id: self.id.clone(),
            session_id: self.session_id.clone(),
            role: self.role.clone(),
            content: self.content.clone(),
            created_at: self.created_at,
        }
    }
}

/// A session as the store keeps it.
#[derive(Debug, Clone, PartialEq, Eq)]
pub struct StoredSession {
    pub id: String,
    pub user_id: String,
    pub agent_id: String,
    pub title: String,
    pub summary: String,
    pub created_at: i64,
    pub updated_at: i64,
    pub last_message_at: Option<i64>,
    pub archived: bool,
}

impl StoredSession {
    /// A copy with the same contents.
    pub fn clone_session(&self) -> (r: Self)
        ensures
            r.id@ == self.id@,
            r.user_id@ == self.user_id@,
            r.agent_id@ == self.agent_id@,
            r.title@ == self.title@,
            r.summary@ == self.summary@,
            r.created_at == self.created_at,
            r.updated_at == self.updated_at,
            r.last_message_at == self.last_message_at,
            r.archived == self.archived,
    {
        StoredSession {
            id: self.id.clone(),
            user_id: self.user_id.clone(),
            agent_id: self.agent_id.clone(),
            title: self.title.clone(),
            summary: self.summary.clone(),
            created_at: self.created_at,
            updated_at: self.updated_at,
            last_message_at: self.last_message_at,
            archived: self.archived,
        }
    }
}

/// Failure reported by the message store.
#[derive(Debug, Clone, PartialEq, Eq)]
pub enum StoreError {
    NotFound(String),
    Internal(String),
}

/// Failure of an agent turn.
#[derive(Debug, Clone, PartialEq, Eq)]
pub enum AgentError {
    InvalidInput(String),
    Llm(LlmError),
    Store(StoreError),
}

impl From<LlmError> for AgentError {
    fn from(value: LlmError) -> (r: Self) {
        AgentError::Llm(value)
    }
}

impl vstd::std_specs::convert::FromSpecImpl<LlmError> for AgentError {
    open spec fn obeys_from_spec() -> bool {
        true
    }

    open spec fn from_spec(v: LlmError) -> AgentError {
        AgentError::Llm(v)
    }
}

impl From<StoreError> for AgentError {
    fn from(value: StoreError) -> (r: Self) {
        AgentError::Store(value)
    }
}

impl vstd::std_specs::convert::FromSpecImpl<StoreError> for AgentError {
    open spec fn obeys_from_spec() -> bool {
        true
    }

    open spec fn from_spec(v: StoreError) -> AgentError {
        AgentError::Store(v)
    }
}

/// The store's answer to a lookup that must find a session: the session,
/// or `NotFound("session not found")`.
pub fn require_session(found: Option<StoredSession>) -> (r: Result<StoredSession, StoreError>)
    ensures
        found is Some ==> r == Ok::<StoredSession, StoreError>(found->0),
        found is None ==> (r matches Err(StoreError::NotFound(m)) && m@ == "session not found"@),
{
    match found {
        Some(s) => Ok(s),
        None => Err(StoreError::NotFound("session not found".to_owned())),
    }
}

/// Failure of the event store.
#[derive(Debug, Clone, PartialEq, Eq)]
pub enum EventStoreError {
    SessionNotFound(String),
    SessionAlreadyExists(String),
    SequenceConflict,
    Database(String),
}

impl EventStoreError {
    /// The human-readable message of the error.
    pub fn to_string(&self) -> (r: String)
        ensures
            r@ == match self {
                EventStoreError::SessionNotFound(id) => "session not found: "@ + id@,
                EventStoreError::SessionAlreadyExists(id) => "session already exists: "@ + id@,
                EventStoreError::SequenceConflict => "sequence conflict"@,
                EventStoreError::Database(m) => "database error: "@ + m@,
            },
    {
        match self {
            EventStoreError::SessionNotFound(id) => "session not found: ".to_owned().concat(id.as_str()),
            EventStoreError::SessionAlreadyExists(id) => "session already exists: ".to_owned().concat(
                id.as_str(),
            ),
            EventStoreError::SequenceConflict => "sequence conflict".to_owned(),
            EventStoreError::Database(m) => "database error: ".to_owned().concat(m.as_str()),
        }
    }
}

/// A range of sequence numbers, each end optional (open).
#[derive(Debug, Clone, Copy, PartialEq, Eq)]
pub struct EventRange {
    pub start_inclusive: Option<u64>,
    pub end_inclusive: Option<u64>,
}

impl Default for EventRange {
    fn default() -> (r: Self)
        ensures
            r.start_inclusive is None,
            r.end_inclusive is None,
    {
        EventRange { start_inclusive: None, end_inclusive: None }
    }
}

/// An event to append. `payload` is the event body as JSON text.
#[derive(Debug, Clone, PartialEq, Eq)]
pub struct NewEvent {
    pub event_id: String,
    pub event_type: String,
    pub payload: String,
    pub tenant_id: String,
    pub user_id: String,
}

/// What an append reports back.
#[derive(Debug, Clone, Copy, PartialEq, Eq)]
pub struct AppendResult {
    pub last_sequence: u64,
    pub session_event_count: u64,
}

/// Parameters for creating a session.
#[derive(Debug, Clone, PartialEq, Eq)]
pub struct CreateSessionParams {
    pub tenant_id: String,
    pub user_id: String,
    pub agent_id: String,
    pub title: Option<String>,
}

/// Filter for listing sessions.
#[derive(Debug, Clone, PartialEq, Eq)]
pub struct SessionListFilter {
    pub user_id: String,
    pub tenant_id: String,
    pub include_archived: bool,
    pub limit: u32,
    pub offset: u32,
}

} // verus!

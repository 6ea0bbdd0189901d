//! The messages of the agent's gRPC API.
use std::collections::HashMap;
use vstd::prelude::*;

verus! {

/// An instant: seconds since the Unix epoch plus nanoseconds.
#[derive(Debug, Clone, Copy, PartialEq, Eq)]
pub struct Timestamp {
    pub seconds: i64,
    pub nanos: i32,
}

#[derive(Debug, Clone, PartialEq, Eq)]
pub struct TokenPair {
    pub access_token: String,
    pub refresh_token: String,
    pub access_token_expires_at: Option<Timestamp>,
    pub refresh_token_expires_at: Option<Timestamp>,
}

#[derive(Debug, Clone, PartialEq, Eq)]
pub struct RegisterRequest {
    pub email: String,
    pub password: String,
    pub display_name: String,
    pub invite_code: String,
}

#[derive(Debug, Clone, PartialEq, Eq)]
pub struct RegisterResponse {
    pub user_id: String,
    pub token_pair: Option<TokenPair>,
}

#[derive(Debug, Clone, PartialEq, Eq)]
pub struct LoginRequest {
    pub email: String,
    pub password: String,
    pub device_name: String,
    pub platform: String,
}

#[derive(Debug, Clone, PartialEq, Eq)]
pub struct LoginResponse {
    pub user_id: String,
    pub token_pair: Option<TokenPair>,
}

#[derive(Debug, Clone, PartialEq, Eq)]
pub struct RefreshTokenRequest {
    pub refresh_token: String,
}

#[derive(Debug, Clone, PartialEq, Eq)]
pub struct RefreshTokenResponse {
    pub token_pair: Option<TokenPair>,
}

#[derive(Debug, Clone, Copy, PartialEq, Eq)]
pub struct LogoutRequest {}

#[derive(Debug, Clone, Copy, PartialEq, Eq)]
pub struct LogoutResponse {}

#[derive(Debug, Clone, Copy, PartialEq, Eq)]
pub struct HealthCheckRequest {}

#[derive(Debug, Clone, PartialEq, Eq)]
pub struct HealthCheckResponse {
    pub version: String,
}

#[derive(Debug, Clone, PartialEq, Eq)]
pub struct TextBlock {
    pub text: String,
}

/// What a content block holds.
#[derive(Debug, Clone, PartialEq, Eq)]
pub enum ContentKind {
    Text(TextBlock),
}

/// One block of message content; a block may hold nothing.
#[derive(Debug, Clone, PartialEq, Eq)]
pub struct ContentBlock {
    pub kind: Option<ContentKind>,
}

#[derive(Debug, Clone, PartialEq, Eq)]
pub struct SendMessageRequest {
    pub request_id: String,
    pub session_id: String,
    pub agent_id: String,
    pub content: Vec<ContentBlock>,
    pub metadata: HashMap<String, String>,
}

#[derive(Debug, Clone, PartialEq, Eq)]
pub struct SendMessageResponse {
    pub request_id: String,
    pub session_id: String,
    pub user_message_id: String,
    pub assistant_content: Vec<ContentBlock>,
}

#[derive(Debug, Clone, Copy, PartialEq, Eq)]
pub struct SubscribeRequest {}

#[derive(Debug, Clone, Copy, PartialEq, Eq)]
pub struct SubmitToolResultRequest {}

#[derive(Debug, Clone, Copy, PartialEq, Eq)]
pub struct SubmitToolResultResponse {}

/// A session as the API shows it.
#[derive(Debug, Clone, PartialEq, Eq)]
pub struct Session {
    pub session_id: String,
    pub user_id: String,
    pub agent_id: String,
    pub title: String,
    pub summary: String,
    pub created_at: Option<Timestamp>,
    pub updated_at: Option<Timestamp>,
    pub last_message_at: Option<Timestamp>,
    pub archived: bool,
}

/// A message as the API shows it.
#[derive(Debug, Clone, PartialEq, Eq)]
pub struct ChatMessage {
    pub message_id: String,
    pub session_id: String,
    pub role: String,
    pub blocks: Vec<ContentBlock>,
    pub created_at: Option<Timestamp>,
}

#[derive(Debug, Clone, PartialEq, Eq)]
pub struct CreateSessionRequest {
    pub title: String,
}

#[derive(Debug, Clone, PartialEq, Eq)]
pub struct CreateSessionResponse {
    pub session: Option<Session>,
}

#[derive(Debug, Clone, PartialEq, Eq)]
pub struct GetSessionRequest {
    pub session_id: String,
}

#[derive(Debug, Clone, PartialEq, Eq)]
pub struct GetSessionResponse {
    pub session: Option<Session>,
}

#[derive(Debug, Clone, Copy, PartialEq, Eq)]
pub struct ListSessionsRequest {}

#[derive(Debug, Clone, PartialEq, Eq)]
pub struct PaginationRequest {
    pub page_size: i32,
    pub page_token: String,
}

#[derive(Debug, Clone, PartialEq, Eq)]
pub struct PaginationResponse {
    pub next_page_token: String,
    pub total_size: i32,
}

#[derive(Debug, Clone, PartialEq, Eq)]
pub struct ListSessionsResponse {
    pub sessions: Vec<Session>,
    pub pagination: Option<PaginationResponse>,
}

#[derive(Debug, Clone, PartialEq, Eq)]
pub struct ListSessionMessagesRequest {
    pub session_id: String,
    pub pagination: Option<PaginationRequest>,
    pub created_at_order: i32,
}

#[derive(Debug, Clone, PartialEq, Eq)]
pub struct ListSessionMessagesResponse {
    pub messages: Vec<ChatMessage>,
    pub pagination: Option<PaginationResponse>,
}

/// An instant in whole seconds.
pub fn to_timestamp(seconds: i64) -> (r: Timestamp)
    ensures
        r == (Timestamp { seconds, nanos: 0 }),
{
    Timestamp { seconds, nanos: 0 }
}

/// A block holding `text`.
pub fn text_block(text: String) -> (r: ContentBlock)
    ensures
        r.kind matches Some(ContentKind::Text(b)) && b.text@ == text@,
{
    ContentBlock { kind: Some(ContentKind::Text(TextBlock { text })) }
}

/// An empty first page, as every list answers.
pub fn first_page() -> (r: PaginationResponse)
    ensures
        r.next_page_token@.len() == 0,
        r.total_size == 0,
{
    PaginationResponse { next_page_token: String::new(), total_size: 0 }
}

} // verus!

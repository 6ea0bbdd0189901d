//! The session service: checks each request, and turns the store's answers
//! into the API's.
use std::sync::Arc;
use vstd::prelude::*;
use crate::channel::auth_interceptor::UserId;
use crate::channel::proto::{
    first_page, text_block, to_timestamp, ChatMessage, ContentBlock, ContentKind, CreateSessionResponse,
    GetSessionResponse, ListSessionMessagesResponse, ListSessionsResponse, PaginationRequest, Session, Timestamp,
};
use crate::channel::status::{status_is, store_error_status, Code, GrpcStatus, IntoGrpcStatus};
use crate::domain::ports::{StoreError, StoredMessage, StoredSession};
use crate::text::{trim, trimmed};

verus! {

/// Messages per page when the request names no valid size.
pub const DEFAULT_PAGE_SIZE: i64 = 50;

/// Largest page of messages.
pub const MAX_PAGE_SIZE: i32 = 200;

/// The API form of a stored session.
pub open spec fn shows_session(p: Session, s: StoredSession) -> bool {
    &&& p.session_id@ == s.id@
    &&& p.user_id@ == s.user_id@
    &&& p.agent_id@ == s.agent_id@
    &&& p.title@ == s.title@
    &&& p.summary@ == s.summary@
    &&& p.created_at == Some(Timestamp { seconds: s.created_at, nanos: 0 })
    &&& p.updated_at == Some(Timestamp { seconds: s.updated_at, nanos: 0 })
    &&& p.last_message_at == match s.last_message_at {
        Some(t) => Some(Timestamp { seconds: t, nanos: 0 }),
        None => None,
    }
    &&& p.archived == s.archived
}

/// The API form of a stored message: its content as one text block.
pub open spec fn shows_message(p: ChatMessage, m: StoredMessage) -> bool {
    &&& p.message_id@ == m.id@
    &&& p.session_id@ == m.session_id@
    &&& p.role@ == m.role@
    &&& p.blocks@.len() == 1
    &&& p.blocks@[0].kind matches Some(ContentKind::Text(b)) && b.text@ == m.content@
    &&& p.created_at == Some(Timestamp { seconds: m.created_at, nanos: 0 })
}

/// The page size to load: 50 for a missing or non-positive size, at most 200.
pub open spec fn page_size_of(page_size: i32) -> i64 {
    if page_size <= 0 {
        DEFAULT_PAGE_SIZE
    } else if page_size > MAX_PAGE_SIZE {
        MAX_PAGE_SIZE as i64
    } else {
        page_size as i64
    }
}

/// Every page asks for at least one message and at most `MAX_PAGE_SIZE`.
pub proof fn lemma_page_size_in_range(page_size: i32)
    ensures
        1 <= page_size_of(page_size) <= MAX_PAGE_SIZE,
{
}

/// Serves sessions from a message store.
pub struct SessionServiceHandler<S: ?Sized> {
    message_store: Arc<S>,
}

impl<S: ?Sized> SessionServiceHandler<S> {
    pub closed spec fn store(&self) -> Arc<S> {
        self.message_store
    }

    pub fn new(message_store: Arc<S>) -> (r: Self)
        ensures
            r.store() == message_store,
    {
        SessionServiceHandler { message_store }
    }

    pub fn message_store(&self) -> (r: &Arc<S>)
        ensures
            *r == self.store(),
    {
        &self.message_store
    }
}

/// The call's user; every session call needs one.
pub fn require_user(user: Option<UserId>) -> (r: Result<String, GrpcStatus>)
    ensures
        match user {
            Some(u) => r matches Ok(id) && id@ == u.0@,
            None => r matches Err(s) && status_is(s, Code::Unauthenticated, "missing user identity"@),
        },
{
    match user {
        Some(u) => Ok(u.0),
        None => Err(GrpcStatus::unauthenticated("missing user identity")),
    }
}

/// The number of messages a page asks for.
pub fn normalize_page_size(page_size: i32) -> (r: i64)
    ensures
        r == page_size_of(page_size),
{
    if page_size <= 0 {
        DEFAULT_PAGE_SIZE
    } else if page_size > MAX_PAGE_SIZE {
        MAX_PAGE_SIZE as i64
    } else {
        page_size as i64
    }
}

/// The number of messages to load for a request's pagination.
pub fn page_limit(pagination: &Option<PaginationRequest>) -> (r: i64)
    ensures
        r == match pagination {
            Some(p) => page_size_of(p.page_size),
            None => DEFAULT_PAGE_SIZE,
        },
{
    match pagination {
        Some(p) => normalize_page_size(p.page_size),
        None => DEFAULT_PAGE_SIZE,
    }
}

/// The session id a request names, trimmed; a blank one is refused.
pub fn required_session_id(raw: &str) -> (r: Result<String, GrpcStatus>)
    ensures
        trimmed(raw@).len() == 0 ==> (r matches Err(s) && status_is(s, Code::InvalidArgument, "session_id is required"@)),
        trimmed(raw@).len() != 0 ==> (r matches Ok(id) && id@ == trimmed(raw@)),
{
    let id = trim(raw);
    if id.unicode_len() == 0 {
        Err(GrpcStatus::invalid_argument("session_id is required"))
    } else {
        Ok(id.to_owned())
    }
}

/// The title a new session gets: the requested one, trimmed.
pub fn session_title(raw: &str) -> (r: String)
    ensures
        r@ == trimmed(raw@),
{
    trim(raw).to_owned()
}

/// The API form of a stored session.
pub fn to_proto_session(session: StoredSession) -> (r: Session)
    ensures
        shows_session(r, session),
{
    let last_message_at = match session.last_message_at {
        Some(t) => Some(to_timestamp(t)),
        None => None,
    };
    Session {
        session_id: session.id,
        user_id: session.user_id,
        agent_id: session.agent_id,
        title: session.title,
        summary: session.summary,
        created_at: Some(to_timestamp(session.created_at)),
        updated_at: Some(to_timestamp(session.updated_at)),
        last_message_at,
        archived: session.archived,
    }
}

/// The API form of a stored message.
pub fn to_proto_message(message: StoredMessage) -> (r: ChatMessage)
    ensures
        shows_message(r, message),
{
    let mut blocks: Vec<ContentBlock> = Vec::new();
    blocks.push(text_block(message.content));
    ChatMessage {
        message_id: message.id,
        session_id: message.session_id,
        role: message.role,
        blocks,
        created_at: Some(to_timestamp(message.created_at)),
    }
}

/// The answer to creating a session.
pub fn create_session_response(created: Result<StoredSession, StoreError>) -> (r: Result<
    CreateSessionResponse,
    GrpcStatus,
>)
    ensures
        match created {
            Ok(s) => r matches Ok(resp) && (resp.session matches Some(p) && shows_session(p, s)),
            Err(e) => r matches Err(st) && store_error_status(e, st),
        },
{
    match created {
        Ok(s) => Ok(CreateSessionResponse { session: Some(to_proto_session(s)) }),
        Err(e) => Err(e.into_status()),
    }
}

/// The answer to looking a session up; a missing session is `NotFound`.
pub fn get_session_response(found: Result<Option<StoredSession>, StoreError>) -> (r: Result<
    GetSessionResponse,
    GrpcStatus,
>)
    ensures
        match found {
            Ok(Some(s)) => r matches Ok(resp) && (resp.session matches Some(p) && shows_session(p, s)),
            Ok(None) => r matches Err(st) && status_is(st, Code::NotFound, "session not found"@),
            Err(e) => r matches Err(st) && store_error_status(e, st),
        },
{
    match found {
        Ok(Some(s)) => Ok(GetSessionResponse { session: Some(to_proto_session(s)) }),
        Ok(None) => Err(GrpcStatus::not_found("session not found")),
        Err(e) => Err(e.into_status()),
    }
}

/// The answer to listing sessions: all of them, in the store's order, on
/// one page.
pub fn list_sessions_response(listed: Result<Vec<StoredSession>, StoreError>) -> (r: Result<
    ListSessionsResponse,
    GrpcStatus,
>)
    ensures
        match listed {
            Ok(v) => r matches Ok(resp) && resp.sessions@.len() == v@.len() && (forall|i: int|
                0 <= i < v@.len() ==> shows_session(#[trigger] resp.sessions@[i], v@[i])) && (resp.pagination matches Some(
                p,
            ) && p.next_page_token@.len() == 0 && p.total_size == 0),
            Err(e) => r matches Err(st) && store_error_status(e, st),
        },
{
    match listed {
        Err(e) => Err(e.into_status()),
        Ok(v) => {
            let mut sessions: Vec<Session> = Vec::new();
            let mut i: usize = 0;
            while i < v.len()
                invariant
                    i <= v.len(),
                    sessions@.len() == i,
                    forall|j: int| 0 <= j < i ==> shows_session(#[trigger] sessions@[j], v@[j]),
                decreases v.len() - i,
            {
                sessions.push(to_proto_session(v[i].clone_session()));
                i = i + 1;
            }
            Ok(ListSessionsResponse { sessions, pagination: Some(first_page()) })
        },
    }
}

/// The answer to listing a session's messages: all of them, in the store's
/// order, on one page.
pub fn list_messages_response(listed: Result<Vec<StoredMessage>, StoreError>) -> (r: Result<
    ListSessionMessagesResponse,
    GrpcStatus,
>)
    ensures
        match listed {
            Ok(v) => r matches Ok(resp) && resp.messages@.len() == v@.len() && (forall|i: int|
                0 <= i < v@.len() ==> shows_message(#[trigger] resp.messages@[i], v@[i])) && (resp.pagination matches Some(
                p,
            ) && p.next_page_token@.len() == 0 && p.total_size == 0),
            Err(e) => r matches Err(st) && store_error_status(e, st),
        },
{
    match listed {
        Err(e) => Err(e.into_status()),
        Ok(v) => {
            let mut messages: Vec<ChatMessage> = Vec::new();
            let mut i: usize = 0;
            while i < v.len()
                invariant
                    i <= v.len(),
                    messages@.len() == i,
                    forall|j: int| 0 <= j < i ==> shows_message(#[trigger] messages@[j], v@[j]),
                decreases v.len() - i,
            {
                messages.push(to_proto_message(v[i].clone_message()));
                i = i + 1;
            }
            Ok(ListSessionMessagesResponse { messages, pagination: Some(first_page()) })
        },
    }
}

} // verus!

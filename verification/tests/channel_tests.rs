use std::collections::HashMap;

use agent_core::app::service::{AuthServiceError, Claims, LoginResult};
use agent_core::channel::auth_handler::{login_response, logout_response, refresh_response, register_response};
use agent_core::channel::auth_interceptor::{authorized_user, bearer_token, UserId};
use agent_core::channel::chat_handler::{
    extract_text, send_message_response, submit_tool_result_response, subscribe_status, turn_input,
};
use agent_core::channel::health_handler::HealthServiceHandler;
use agent_core::channel::proto::{
    text_block, ContentBlock, HealthCheckRequest, PaginationRequest, SendMessageRequest, Timestamp,
};
use agent_core::channel::session_handler::{
    create_session_response, get_session_response, list_messages_response, list_sessions_response, normalize_page_size,
    page_limit, require_user, required_session_id, session_title,
};
use agent_core::channel::status::{into_status, Code, GrpcStatus, IntoGrpcStatus};
use agent_core::channel::turn::{TurnError, TurnFinishReason, TurnOutput};
use agent_core::domain::ports::{StoreError, StoredMessage, StoredSession};
use agent_core::domain::token::TokenPair;

fn assert_status<E: IntoGrpcStatus>(err: E, expected_code: Code, expected_message: &str) {
    let status = into_status(err);
    assert_eq!(status.code, expected_code);
    assert_eq!(status.message, expected_message);
}

#[test]
fn auth_errors_map_to_expected_status() {
    assert_status(AuthServiceError::InvalidCredentials, Code::Unauthenticated, "invalid credentials");
    assert_status(
        AuthServiceError::AlreadyExists("email already in use".to_string()),
        Code::AlreadyExists,
        "email already in use",
    );
}

#[test]
fn remaining_auth_errors_map_to_expected_status() {
    assert_status(AuthServiceError::InvalidInput("email is required".to_string()), Code::InvalidArgument, "email is required");
    assert_status(AuthServiceError::TokenCreation, Code::Internal, "authentication error");
    assert_status(AuthServiceError::TokenValidation, Code::Internal, "authentication error");
    assert_status(AuthServiceError::Internal("db down".to_string()), Code::Internal, "db down");
}

#[test]
fn turn_errors_map_to_expected_status() {
    assert_status(TurnError::InvalidInput("bad request".to_string()), Code::InvalidArgument, "bad request");
    assert_status(TurnError::LlmError("provider down".to_string()), Code::Internal, "AI service error");
    assert_status(TurnError::ToolLoopExceeded { max: 2 }, Code::FailedPrecondition, "tool loop exceeded max iterations: 2");
}

#[test]
fn remaining_turn_and_store_errors_map_to_expected_status() {
    assert_status(TurnError::SessionError("no session".to_string()), Code::Internal, "no session");
    assert_status(TurnError::Internal("boom".to_string()), Code::Internal, "boom");
    assert_status(
        TurnError::ToolLoopExceeded { max: 1024 },
        Code::FailedPrecondition,
        "tool loop exceeded max iterations: 1024",
    );
    assert_status(TurnError::ToolLoopExceeded { max: 0 }, Code::FailedPrecondition, "tool loop exceeded max iterations: 0");
    assert_status(StoreError::NotFound("gone".to_string()), Code::NotFound, "gone");
    assert_status(StoreError::Internal("db".to_string()), Code::Internal, "db");
}

#[test]
fn health_check_returns_configured_version() {
    let handler = HealthServiceHandler::new("1.2.3".to_string());
    let response = handler.health_check(HealthCheckRequest {}).expect("health check should succeed");
    assert_eq!(response.version, "1.2.3");
}

fn send_request(session_id: &str, content: Vec<ContentBlock>) -> SendMessageRequest {
    SendMessageRequest {
        request_id: "test-123".to_string(),
        session_id: session_id.to_string(),
        agent_id: "".to_string(),
        content,
        metadata: HashMap::new(),
    }
}

#[test]
fn test_send_message_calls_runtime_chain() {
    let request = send_request("", vec![text_block("hello runtime".to_string())]);
    let input = turn_input(None, &request).expect("input");
    assert_eq!(input.user_id, "unknown");
    assert_eq!(input.session_id, None);
    assert_eq!(input.user_message, "hello runtime");

    let output = TurnOutput {
        session_id: "session-unknown".to_string(),
        assistant_text: "mocked-reply".to_string(),
        finish_reason: TurnFinishReason::Stop,
        tool_iterations: 0,
    };
    let resp = send_message_response(request.request_id.clone(), Ok(output)).unwrap();
    assert_eq!(resp.request_id, "test-123");
    assert_eq!(resp.session_id, "session-unknown");
    assert_eq!(resp.user_message_id, "msg-001");
    assert_eq!(resp.assistant_content.len(), 1);
    assert_eq!(resp.assistant_content[0], text_block("mocked-reply".to_string()));
}

#[test]
fn test_send_message_requires_text_content() {
    let request = send_request("", vec![]);
    let err = turn_input(Some(UserId("u1".to_string())), &request).unwrap_err();
    assert_eq!(err.code, Code::InvalidArgument);
    assert_eq!(err.message, "SendMessage.content must include at least one non-empty text block");
}

#[test]
fn send_message_joins_text_blocks_and_keeps_session() {
    let blocks = vec![
        text_block("first".to_string()),
        ContentBlock { kind: None },
        text_block("second".to_string()),
    ];
    assert_eq!(extract_text(&blocks).unwrap(), "first\nsecond");
    assert_eq!(extract_text(&vec![text_block("  ".to_string()), ContentBlock { kind: None }]).unwrap_err().code, Code::InvalidArgument);

    let request = send_request("s-9", blocks);
    let input = turn_input(Some(UserId("u1".to_string())), &request).expect("input");
    assert_eq!(input.user_id, "u1");
    assert_eq!(input.session_id.as_deref(), Some("s-9"));

    let err = send_message_response("r".to_string(), Err(TurnError::LlmError("x".to_string()))).unwrap_err();
    assert_eq!(err, GrpcStatus { code: Code::Internal, message: "AI service error".to_string() });
    assert_eq!(subscribe_status().code, Code::Unimplemented);
    assert_eq!(submit_tool_result_response().unwrap_err().message, "not implemented");
}

fn sample_session(id: &str, user_id: &str, title: &str) -> StoredSession {
    StoredSession {
        id: id.to_string(),
        user_id: user_id.to_string(),
        agent_id: "".to_string(),
        title: title.to_string(),
        summary: String::new(),
        created_at: 1700000000,
        updated_at: 1700000001,
        last_message_at: Some(1700000001),
        archived: false,
    }
}

#[test]
fn create_session_returns_session() {
    let user = require_user(Some(UserId("user-001".to_string()))).expect("user");
    let title = session_title("My Session");
    let response = create_session_response(Ok(sample_session("session-new", &user, &title))).unwrap();
    let session = response.session.unwrap();
    assert_eq!(session.user_id, "user-001");
    assert_eq!(session.title, "My Session");
    assert_eq!(session.created_at, Some(Timestamp { seconds: 1700000000, nanos: 0 }));
    assert_eq!(session.last_message_at, Some(Timestamp { seconds: 1700000001, nanos: 0 }));
}

#[test]
fn get_session_empty_session_id_returns_error() {
    let err = required_session_id("   ").unwrap_err();
    assert_eq!(err.code, Code::InvalidArgument);
    assert_eq!(err.message, "session_id is required");
    assert_eq!(required_session_id("  s1 ").unwrap(), "s1");
}

#[test]
fn get_session_not_found_returns_error() {
    let err = get_session_response(Ok(None)).unwrap_err();
    assert_eq!(err.code, Code::NotFound);
    assert_eq!(err.message, "session not found");
    let found = get_session_response(Ok(Some(sample_session("s1", "u", "Found")))).unwrap();
    assert_eq!(found.session.unwrap().session_id, "s1");
}

#[test]
fn list_sessions_returns_items() {
    let payload = list_sessions_response(Ok(vec![sample_session("session-001", "user-001", "First")])).unwrap();
    assert_eq!(payload.sessions.len(), 1);
    assert_eq!(payload.sessions[0].session_id, "session-001");
    let page = payload.pagination.unwrap();
    assert_eq!(page.next_page_token, "");
    assert_eq!(page.total_size, 0);
}

#[test]
fn list_messages_returns_stored_messages() {
    let pagination = Some(PaginationRequest { page_size: 120, page_token: String::new() });
    assert_eq!(page_limit(&pagination), 120);
    let payload = list_messages_response(Ok(vec![StoredMessage {
        id: "msg-001".to_string(),
        session_id: "session-001".to_string(),
        role: "assistant".to_string(),
        content: "hello from history".to_string(),
        created_at: 1700000000,
    }]))
    .unwrap();
    assert_eq!(payload.messages.len(), 1);
    assert_eq!(payload.messages[0].message_id, "msg-001");
    assert_eq!(payload.messages[0].blocks, vec![text_block("hello from history".to_string())]);
}

#[test]
fn page_size_is_defaulted_and_capped() {
    assert_eq!(normalize_page_size(0), 50);
    assert_eq!(normalize_page_size(-5), 50);
    assert_eq!(normalize_page_size(1), 1);
    assert_eq!(normalize_page_size(200), 200);
    assert_eq!(normalize_page_size(201), 200);
    assert_eq!(page_limit(&None), 50);
    assert_eq!(require_user(None).unwrap_err().message, "missing user identity");
    assert_eq!(
        list_sessions_response(Err(StoreError::Internal("db".to_string()))).unwrap_err().code,
        Code::Internal
    );
}

fn login_ok() -> Result<LoginResult, AuthServiceError> {
    Ok(LoginResult {
        user_id: "user-001".to_string(),
        token_pair: TokenPair {
            access_token: "a".to_string(),
            refresh_token: "r".to_string(),
            access_token_expires_at: 10,
            refresh_token_expires_at: 20,
        },
    })
}

#[test]
fn auth_answers_carry_token_pairs_or_status() {
    let login = login_response(login_ok()).unwrap();
    assert_eq!(login.user_id, "user-001");
    let pair = login.token_pair.unwrap();
    assert_eq!(pair.access_token, "a");
    assert_eq!(pair.refresh_token_expires_at, Some(Timestamp { seconds: 20, nanos: 0 }));
    assert_eq!(register_response(login_ok()).unwrap().user_id, "user-001");
    assert!(refresh_response(login_ok()).unwrap().token_pair.is_some());

    assert_eq!(login_response(Err(AuthServiceError::InvalidCredentials)).unwrap_err().code, Code::Unauthenticated);
    assert_eq!(
        register_response(Err(AuthServiceError::AlreadyExists("email already in use".to_string()))).unwrap_err().code,
        Code::AlreadyExists
    );
    assert_eq!(logout_response().unwrap_err().code, Code::Unimplemented);
}

#[test]
fn bearer_tokens_are_required_and_validated() {
    assert_eq!(bearer_token(Some("Bearer abc.def")).unwrap(), "abc.def");
    assert_eq!(bearer_token(Some("Bearer ")).unwrap(), "");
    for bad in [None, Some("bearer abc"), Some("Token abc"), Some("Bear")] {
        let err = bearer_token(bad).unwrap_err();
        assert_eq!(err.code, Code::Unauthenticated);
        assert_eq!(err.message, "invalid or expired token");
    }
    let claims = Claims { sub: "user-9".to_string(), exp: 1, iat: 0, token_type: "access".to_string() };
    assert_eq!(authorized_user(Ok(claims)).unwrap(), UserId("user-9".to_string()));
    assert_eq!(authorized_user(Err(AuthServiceError::TokenValidation)).unwrap_err().code, Code::Unauthenticated);
}

use agent_core::domain::ports::{
    require_session, AgentError, AppendResult, AuthError, CreateSessionParams, EventRange, EventStoreError,
    LlmError, NewEvent, SessionListFilter, StoreError, StoredSession,
};

#[test]
fn auth_error_variants() {
    let invalid = AuthError::InvalidCredentials;
    let exists = AuthError::AlreadyExists("email already in use".to_string());
    let internal = AuthError::Internal("db down".to_string());

    assert_eq!(invalid, AuthError::InvalidCredentials);
    assert_eq!(
        exists,
        AuthError::AlreadyExists("email already in use".to_string())
    );
    assert_eq!(internal, AuthError::Internal("db down".to_string()));
    assert!(format!("{internal:?}").contains("db down"));
}

#[test]
fn event_store_error_display_messages() {
    assert_eq!(
        EventStoreError::SessionNotFound("s1".to_string()).to_string(),
        "session not found: s1"
    );
    assert_eq!(
        EventStoreError::SessionAlreadyExists("s1".to_string()).to_string(),
        "session already exists: s1"
    );
    assert_eq!(
        EventStoreError::SequenceConflict.to_string(),
        "sequence conflict"
    );
    assert_eq!(
        EventStoreError::Database("db down".to_string()).to_string(),
        "database error: db down"
    );
}

#[test]
fn event_range_defaults() {
    let range = EventRange::default();
    assert_eq!(range.start_inclusive, None);
    assert_eq!(range.end_inclusive, None);
}

#[test]
fn event_and_append_structs_construct() {
    let event = NewEvent {
        event_id: "evt-1".to_string(),
        event_type: "UserMessage".to_string(),
        payload: r#"{"k":"v"}"#.to_string(),
        tenant_id: "t1".to_string(),
        user_id: "u1".to_string(),
    };
    assert_eq!(event.event_type, "UserMessage");
    let payload: serde_json::Value = serde_json::from_str(&event.payload).expect("payload is JSON");
    assert_eq!(payload["k"], "v");

    let append = AppendResult {
        last_sequence: 42,
        session_event_count: 7,
    };
    assert_eq!(append.last_sequence, 42);
    assert_eq!(append.session_event_count, 7);
}

#[test]
fn session_params_and_filter_structs_construct() {
    let params = CreateSessionParams {
        tenant_id: "t1".to_string(),
        user_id: "u1".to_string(),
        agent_id: "a1".to_string(),
        title: Some("hello".to_string()),
    };
    assert_eq!(params.agent_id, "a1");
    assert_eq!(params.title.as_deref(), Some("hello"));

    let filter = SessionListFilter {
        user_id: "u1".to_string(),
        tenant_id: "t1".to_string(),
        include_archived: true,
        limit: 10,
        offset: 20,
    };
    assert!(filter.include_archived);
    assert_eq!(filter.limit, 10);
    assert_eq!(filter.offset, 20);
}

#[test]
fn agent_error_from_port_errors() {
    assert_eq!(AgentError::from(LlmError::Timeout), AgentError::Llm(LlmError::Timeout));
    assert_eq!(
        AgentError::from(StoreError::Internal("x".to_string())),
        AgentError::Store(StoreError::Internal("x".to_string()))
    );
}

#[test]
fn require_session_reports_missing_session() {
    assert_eq!(
        require_session(None),
        Err(StoreError::NotFound("session not found".to_string()))
    );
    let s = StoredSession {
        id: "s".to_string(),
        user_id: "u".to_string(),
        agent_id: String::new(),
        title: "t".to_string(),
        summary: String::new(),
        created_at: 1,
        updated_at: 2,
        last_message_at: None,
        archived: false,
    };
    assert_eq!(require_session(Some(s.clone())), Ok(s));
}

#[test]
fn whitespace_matches_the_standard_library() {
    for u in 0u32..0x3100 {
        if let Some(c) = char::from_u32(u) {
            assert_eq!(agent_core::text::is_whitespace(c), c.is_whitespace(), "U+{u:04X}");
        }
    }
    for c in ['\u{FEFF}', '\u{200B}', '\u{10FFFF}', 'a'] {
        assert_eq!(agent_core::text::is_whitespace(c), c.is_whitespace());
    }
}

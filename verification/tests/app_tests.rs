use std::collections::HashMap;
use std::sync::Arc;

use agent_core::app::runtime::{AgentTurn, HandleMessageResult, TurnAction, TurnEvent, MAX_TOOL_ROUNDS};
use agent_core::app::service::{
    assemble_token_pair, check_registration, login_result, map_auth_error, plan_token_pair, plan_token_pair_now,
    refresh_subject,
    validated, AuthService, AuthServiceError, Claims, ACCESS_TOKEN_TTL_SECONDS, REFRESH_TOKEN_TTL_SECONDS,
};
use agent_core::app::tools::BuiltinToolRuntime;
use agent_core::domain::ports::{
    AgentError, AuthError, AuthResult, ChatMessage, FinishReason, LlmError, LlmResponse, LlmUsage, StoreError,
    StoredMessage, ToolCall, ToolResult, ToolSpec,
};

/// What the collaborators of a turn answer, in order.
struct Script {
    responses: Vec<Result<LlmResponse, LlmError>>,
    tools: Vec<ToolSpec>,
    results: HashMap<String, String>,
    history: Vec<StoredMessage>,
    default_session: Result<String, StoreError>,
}

impl Script {
    fn new(responses: Vec<Result<LlmResponse, LlmError>>) -> Self {
        Script {
            responses,
            tools: vec![],
            results: HashMap::new(),
            history: vec![],
            default_session: Ok("default-session".to_string()),
        }
    }
}

struct Outcome {
    result: Result<HandleMessageResult, AgentError>,
    saved: Vec<(String, String, String)>,
    requests: Vec<Vec<ChatMessage>>,
    executed: Vec<String>,
}

/// Runs one turn against scripted collaborators, the way the service loop does.
fn drive(user_id: &str, session_id: Option<&str>, message: &str, mut script: Script) -> Outcome {
    let mut saved = Vec::new();
    let mut requests = Vec::new();
    let mut executed = Vec::new();
    let mut turn = AgentTurn::new();
    let mut action = turn.step(TurnEvent::Start {
        user_id: user_id.to_string(),
        session_id: session_id.map(|s| s.to_string()),
        user_message: message.to_string(),
    });
    loop {
        let event = match action {
            TurnAction::ResolveDefaultSession { .. } => TurnEvent::SessionResolved(script.default_session.clone()),
            TurnAction::SaveMessage { session_id, role, content } => {
                saved.push((session_id, role, content));
                TurnEvent::MessageSaved(Ok("msg-id".to_string()))
            }
            TurnAction::LoadHistory { .. } => TurnEvent::HistoryLoaded(Ok(script.history.clone())),
            TurnAction::ListTools => TurnEvent::ToolsListed(script.tools.clone()),
            TurnAction::CallLlm { messages, .. } => {
                requests.push(messages);
                TurnEvent::LlmReplied(script.responses.remove(0))
            }
            TurnAction::EncodeToolCalls { tool_calls } => {
                let names: Vec<String> = tool_calls.iter().map(|c| c.name.clone()).collect();
                TurnEvent::ToolCallsEncoded(Ok(names.join(",")))
            }
            TurnAction::ExecuteTool { name, .. } => {
                let content = script.results.get(&name).cloned().unwrap_or_else(|| "ok".to_string());
                executed.push(name);
                TurnEvent::ToolExecuted(Ok(ToolResult { call_id: String::new(), content }))
            }
            TurnAction::Finish(result) => {
                assert!(turn.is_finished());
                return Outcome { result, saved, requests, executed };
            }
        };
        assert!(turn.expects(&event));
        action = turn.step(event);
    }
}

fn stop_response(content: &str) -> Result<LlmResponse, LlmError> {
    Ok(LlmResponse {
        content: content.to_string(),
        model: "mock-model".to_string(),
        usage: Some(LlmUsage { input_tokens: 1, output_tokens: 1, total_tokens: 2 }),
        tool_calls: vec![],
        finish_reason: FinishReason::Stop,
    })
}

fn tool_call_response(call_id: &str) -> Result<LlmResponse, LlmError> {
    Ok(LlmResponse {
        content: String::new(),
        model: "mock".to_string(),
        usage: None,
        tool_calls: vec![ToolCall {
            call_id: call_id.to_string(),
            name: "get_current_time".to_string(),
            arguments: "{}".to_string(),
        }],
        finish_reason: FinishReason::ToolCalls,
    })
}

#[test]
fn handle_message_with_store_persists_and_uses_history() {
    let mut script = Script::new(vec![stop_response("hello from ai")]);
    script.history = vec![StoredMessage {
        id: "m1".to_string(),
        session_id: "s1".to_string(),
        role: "user".to_string(),
        content: "old message".to_string(),
        created_at: 1,
    }];
    let out = drive("u1", Some("s1"), "new message", script);
    let result = out.result.expect("reply");

    assert_eq!(result.session_id, "s1");
    assert_eq!(result.reply, "hello from ai");
    assert_eq!(out.requests[0][0].role, "system");
    assert_eq!(out.requests[0][0].content, "You are a helpful assistant.");
    assert_eq!(out.requests[0][1].content, "old message");
    assert_eq!(out.saved.len(), 2);
    assert_eq!(out.saved[0].1, "user");
    assert_eq!(out.saved[0].2, "new message");
    assert_eq!(out.saved[1].1, "assistant");
    assert_eq!(out.saved[1].2, "hello from ai");
}

#[test]
fn handle_message_executes_tools_then_returns_final_text() {
    let mut script = Script::new(vec![tool_call_response("call-1"), stop_response("final answer")]);
    script.tools = vec![ToolSpec {
        name: "get_current_time".to_string(),
        description: "time".to_string(),
        parameters: "{\"type\":\"object\"}".to_string(),
    }];
    script.results.insert("get_current_time".to_string(), "2026-01-01T00:00:00+00:00".to_string());
    let out = drive("u1", Some("s1"), "what time is it", script);
    let result = out.result.expect("reply");

    assert_eq!(result.reply, "final answer");
    assert_eq!(out.saved[0].1, "user");
    assert_eq!(out.saved[1].1, "assistant");
    assert_eq!(out.saved[2].1, "tool");
    assert_eq!(out.saved[2].2, "2026-01-01T00:00:00+00:00");
    assert_eq!(out.saved[3].1, "assistant");
    assert_eq!(out.executed, vec!["get_current_time".to_string()]);

    // Every message of the turn goes to the same session.
    assert!(out.saved.iter().all(|(session, _, _)| session == "s1"));

    // The second request extends the first with the tool call and its answer.
    let second = &out.requests[1];
    assert_eq!(&second[..out.requests[0].len()], &out.requests[0][..]);
    let n = second.len();
    assert_eq!(second[n - 2].role, "assistant");
    assert_eq!(second[n - 2].tool_calls.as_ref().map(|c| c.len()), Some(1));
    assert_eq!(second[n - 1].role, "tool");
    assert_eq!(second[n - 1].tool_call_id.as_deref(), Some("call-1"));
    assert_eq!(second[n - 1].content, "2026-01-01T00:00:00+00:00");
}

#[test]
fn handle_message_creates_default_session_when_missing() {
    let mut script = Script::new(vec![stop_response("ok")]);
    script.default_session = Ok("generated-session".to_string());
    let out = drive("user-1", None, "hello", script);
    assert_eq!(out.result.expect("ok").session_id, "generated-session");
}

#[test]
fn handle_message_blank_session_id_uses_default_session() {
    let out = drive("user-1", Some("   "), "hello", Script::new(vec![stop_response("ok")]));
    assert_eq!(out.result.expect("ok").session_id, "default-session");
}

#[test]
fn handle_message_rejects_empty_content() {
    let out = drive("user-1", Some("s1"), "   \n\t", Script::new(vec![stop_response("unused")]));
    assert_eq!(
        out.result.unwrap_err(),
        AgentError::InvalidInput("message content cannot be empty".to_string())
    );
    assert!(out.saved.is_empty());
    assert!(out.requests.is_empty());
}

#[test]
fn handle_message_stops_after_max_tool_rounds() {
    let responses = (0..MAX_TOOL_ROUNDS).map(|i| tool_call_response(&format!("call-{i}"))).collect();
    let out = drive("u1", Some("s1"), "loop forever", Script::new(responses));
    assert_eq!(out.result.unwrap_err(), AgentError::InvalidInput("max tool rounds exceeded".to_string()));
    assert_eq!(out.requests.len(), MAX_TOOL_ROUNDS);
    assert_eq!(out.executed.len(), MAX_TOOL_ROUNDS);
}

#[test]
fn handle_message_reports_llm_and_store_errors() {
    let out = drive("u1", Some("s1"), "hi", Script::new(vec![Err(LlmError::Timeout)]));
    assert_eq!(out.result.unwrap_err(), AgentError::Llm(LlmError::Timeout));

    let mut script = Script::new(vec![stop_response("unused")]);
    script.default_session = Err(StoreError::Internal("db down".to_string()));
    let out = drive("u1", None, "hi", script);
    assert_eq!(out.result.unwrap_err(), AgentError::Store(StoreError::Internal("db down".to_string())));
}

#[test]
fn get_current_time_returns_rfc3339() {
    let runtime = BuiltinToolRuntime::new();
    let result = runtime
        .execute("get_current_time", r#"{"timezone":"Asia/Shanghai"}"#, Ok(Some("Asia/Shanghai".to_string())))
        .expect("tool call should succeed");

    assert!(!result.content.is_empty());
    assert!(result.call_id.is_empty());
    assert!(result.content.ends_with("+08:00"));
    assert_eq!(result.content.as_bytes()[4], b'-');
    assert_eq!(result.content.as_bytes()[10], b'T');
}

#[test]
fn get_current_time_defaults_to_utc_and_rejects_bad_input() {
    let runtime = BuiltinToolRuntime::new();
    let tools = runtime.list_tools();
    assert_eq!(tools.len(), 1);
    assert_eq!(tools[0].name, "get_current_time");

    let utc = runtime.execute("get_current_time", "  ", Err("unused".to_string())).expect("utc");
    assert!(utc.content.ends_with("+00:00"));

    assert_eq!(
        runtime.execute("other", "{}", Ok(None)).unwrap_err(),
        AgentError::InvalidInput("unknown tool: other".to_string())
    );
    assert_eq!(
        runtime.execute("get_current_time", "{bad", Err("expected value".to_string())).unwrap_err(),
        AgentError::InvalidInput("invalid get_current_time arguments: expected value".to_string())
    );
    assert_eq!(
        runtime.execute("get_current_time", "{\"timezone\":\"Mars/Base\"}", Ok(Some("Mars/Base".to_string()))).unwrap_err(),
        AgentError::InvalidInput("invalid timezone: failed to parse timezone".to_string())
    );
}

#[test]
fn token_plan_expiries_follow_issue_time() {
    let plan = plan_token_pair("user-1", 1_000).expect("plan");
    assert_eq!(plan.access.sub, "user-1");
    assert_eq!(plan.refresh.sub, "user-1");
    assert_eq!(plan.access.token_type, "access");
    assert_eq!(plan.refresh.token_type, "refresh");
    assert_eq!(plan.access.iat, 1_000);
    assert_eq!(plan.access_expires_at, 1_000 + ACCESS_TOKEN_TTL_SECONDS);
    assert_eq!(plan.refresh_expires_at, 1_000 + REFRESH_TOKEN_TTL_SECONDS);
    assert_eq!(plan.access.exp, 4_600);
    assert_eq!(plan.refresh.exp, 605_800);
    assert!(plan.access_expires_at < plan.refresh_expires_at);

    assert_eq!(plan_token_pair("user-1", -1), Err(AuthServiceError::TokenCreation));
    assert_eq!(plan_token_pair("user-1", i64::MAX), Err(AuthServiceError::TokenCreation));
}

#[test]
fn token_pair_assembly_needs_both_tokens() {
    let plan = plan_token_pair("u", 10).expect("plan");
    let pair = assemble_token_pair(plan.clone(), Some("a".to_string()), Some("r".to_string())).expect("pair");
    assert_eq!(pair.access_token, "a");
    assert_eq!(pair.refresh_token, "r");
    assert_eq!(pair.access_token_expires_at, 3_610);
    assert_eq!(pair.refresh_token_expires_at, 604_810);
    assert_eq!(assemble_token_pair(plan.clone(), None, Some("r".to_string())), Err(AuthServiceError::TokenCreation));
    assert_eq!(assemble_token_pair(plan, Some("a".to_string()), None), Err(AuthServiceError::TokenCreation));

    let user = AuthResult { user_id: "u".to_string(), display_name: "U".to_string() };
    let ok = login_result(user.clone(), Ok(pair.clone())).expect("login");
    assert_eq!(ok.user_id, "u");
    assert_eq!(ok.token_pair, pair);
    assert_eq!(login_result(user, Err(AuthServiceError::TokenCreation)), Err(AuthServiceError::TokenCreation));
}

#[test]
fn registration_requires_email_then_password() {
    assert_eq!(check_registration("", "pw"), Err(AuthServiceError::InvalidInput("email is required".to_string())));
    assert_eq!(check_registration("  ", ""), Err(AuthServiceError::InvalidInput("email is required".to_string())));
    assert_eq!(
        check_registration("a@b.c", " \t"),
        Err(AuthServiceError::InvalidInput("password is required".to_string()))
    );
    assert_eq!(check_registration("a@b.c", "pw"), Ok(()));
}

fn claims(kind: &str) -> Claims {
    Claims { sub: "user-1".to_string(), exp: 100, iat: 10, token_type: kind.to_string() }
}

#[test]
fn refresh_accepts_only_valid_refresh_tokens() {
    assert_eq!(refresh_subject(validated(Some(claims("refresh")))), Ok("user-1".to_string()));
    assert_eq!(
        refresh_subject(validated(Some(claims("access")))),
        Err(AuthServiceError::InvalidInput("not a refresh token".to_string()))
    );
    assert_eq!(refresh_subject(validated(None)), Err(AuthServiceError::TokenValidation));
    assert_eq!(validated(Some(claims("access"))), Ok(claims("access")));
}

#[test]
fn auth_port_errors_map_to_service_errors() {
    assert_eq!(map_auth_error(AuthError::InvalidCredentials), AuthServiceError::InvalidCredentials);
    assert_eq!(
        map_auth_error(AuthError::AlreadyExists("email".to_string())),
        AuthServiceError::AlreadyExists("email".to_string())
    );
    assert_eq!(map_auth_error(AuthError::Internal("db".to_string())), AuthServiceError::Internal("db".to_string()));
}

#[test]
fn token_plan_now_uses_the_clock() {
    let before = std::time::SystemTime::now().duration_since(std::time::UNIX_EPOCH).unwrap().as_secs() as i64;
    let plan = plan_token_pair_now("user-7").expect("plan");
    let after = std::time::SystemTime::now().duration_since(std::time::UNIX_EPOCH).unwrap().as_secs() as i64;
    let issued = plan.access.iat as i64;
    assert!(before <= issued && issued <= after);
    assert_eq!(plan.access_expires_at, issued + 3_600);
    assert_eq!(plan.refresh_expires_at, issued + 604_800);
    assert_eq!(plan.refresh.sub, "user-7");
}

fn decode_payload(token: &str, secret: &str) -> Option<serde_json::Value> {
    let validation = jsonwebtoken::Validation::new(jsonwebtoken::Algorithm::HS256);
    jsonwebtoken::decode::<serde_json::Value>(token, &jsonwebtoken::DecodingKey::from_secret(secret.as_bytes()), &validation)
        .ok()
        .map(|data| data.claims)
}

#[test]
fn create_token_pair_signs_both_tokens_with_the_secret() {
    let service = AuthService::new(Arc::new(()), "test-secret".to_string());
    assert_eq!(service.jwt_secret(), "test-secret");
    let pair = service.create_token_pair("user-001").expect("pair");
    assert_eq!(pair.access_token.split('.').count(), 3);
    assert_ne!(pair.access_token, pair.refresh_token);
    assert_eq!(pair.refresh_token_expires_at - pair.access_token_expires_at, 604_800 - 3_600);

    let access = decode_payload(&pair.access_token, "test-secret").expect("access decodes");
    assert_eq!(access["sub"], "user-001");
    assert_eq!(access["token_type"], "access");
    assert_eq!(access["exp"].as_i64(), Some(pair.access_token_expires_at));
    assert_eq!(access["iat"].as_i64(), Some(pair.access_token_expires_at - 3_600));

    let refresh = decode_payload(&pair.refresh_token, "test-secret").expect("refresh decodes");
    assert_eq!(refresh["token_type"], "refresh");
    assert_eq!(refresh["exp"].as_i64(), Some(pair.refresh_token_expires_at));

    assert!(decode_payload(&pair.access_token, "other-secret").is_none());
}

#[test]
fn get_current_time_at_a_fixed_instant() {
    let runtime = BuiltinToolRuntime::new();
    let args = r#"{"timezone":"Asia/Shanghai"}"#;
    let zone = Ok(Some("Asia/Shanghai".to_string()));
    // 2026-01-01T00:00:00Z
    let result = runtime.execute_at("get_current_time", args, zone.clone(), Some((1_767_225_600, 0))).expect("time");
    assert_eq!(result.content, "2026-01-01T08:00:00+08:00");
    assert_eq!(result.call_id, "");
    let half = runtime.execute_at("get_current_time", args, zone, Some((1_767_225_600, 500_000_000))).expect("time");
    assert_eq!(half.content, "2026-01-01T08:00:00.500+08:00");

    let utc = runtime.execute_at("get_current_time", "", Ok(None), Some((0, 0))).expect("epoch");
    assert_eq!(utc.content, "1970-01-01T00:00:00+00:00");

    assert_eq!(
        runtime.execute_at("get_current_time", "", Ok(None), Some((i64::MAX, 0))).unwrap_err(),
        AgentError::InvalidInput("time outside the representable range".to_string())
    );
    assert_eq!(
        runtime.execute_at("get_current_time", "{}", Ok(Some("Nowhere/Else".to_string())), None).unwrap_err(),
        AgentError::InvalidInput("invalid timezone: failed to parse timezone".to_string())
    );
    assert_eq!(
        runtime.execute_at("get_current_time", "", Ok(None), None).unwrap_err(),
        AgentError::InvalidInput("the system clock cannot be read".to_string())
    );
    assert_eq!(
        runtime.execute_at("other", "", Ok(None), None).unwrap_err(),
        AgentError::InvalidInput("unknown tool: other".to_string())
    );
    let before_epoch = runtime.execute_at("get_current_time", "", Ok(None), Some((-1, 500_000_000))).expect("1969");
    assert_eq!(before_epoch.content, "1969-12-31T23:59:59.500+00:00");
}

#[test]
fn token_claims_keep_their_field_order() {
    let service = AuthService::new(Arc::new(()), "test-secret".to_string());
    let pair = service.create_token_pair("user-001").expect("pair");
    let payload = decode_payload(&pair.access_token, "test-secret").expect("decodes");
    let keys: Vec<&String> = payload.as_object().expect("object").keys().collect();
    assert_eq!(keys, vec!["sub", "exp", "iat", "token_type"]);
}

#[test]
fn unix_time_now_reads_the_system_clock() {
    let before = std::time::SystemTime::now().duration_since(std::time::UNIX_EPOCH).unwrap().as_secs() as i64;
    let (secs, nanos) = agent_core::time::unix_time_now().expect("clock after 1970");
    let after = std::time::SystemTime::now().duration_since(std::time::UNIX_EPOCH).unwrap().as_secs() as i64;
    assert!(before <= secs && secs <= after);
    assert!(nanos < 1_000_000_000);
}

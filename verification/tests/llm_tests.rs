use agent_core::domain::ports as domain;
use agent_core::llm::compat::{
    map_domain_messages, map_domain_tools, map_to_domain_error, map_to_domain_response, resolve_domain_model,
};
use agent_core::llm::error::{unsupported_stream, LlmError};
use agent_core::llm::mock::{default_response, ResponseScript};
use agent_core::llm::provider::{parse_finish_reason, parse_tool_calls, OpenAiProvider};
use agent_core::llm::types::{
    FinishReason, LlmProviderCapabilities, LlmRequestMetadata, LlmResponse, LlmUsage, ModelMessage, ToolCall,
    ToolSpec,
};
use agent_core::llm::wire::{
    OpenAiChatCompletionResponse, OpenAiChoice, OpenAiChoiceMessage, OpenAiFunctionCall, OpenAiResponseFormat,
    OpenAiToolCall, OpenAiUsage,
};

#[test]
fn is_retryable_matches_expected_variants() {
    let retryable = [
        LlmError::RateLimit,
        LlmError::Timeout,
        LlmError::ProviderDown,
        LlmError::Transport("io".into()),
    ];
    for err in retryable {
        assert!(err.is_retryable());
    }

    let non_retryable = [
        LlmError::AuthError,
        LlmError::InvalidRequest("bad".into()),
        LlmError::InvalidResponse("bad".into()),
        LlmError::UnsupportedCapability {
            provider: "p".into(),
            capability: "stream".into(),
        },
        LlmError::Internal("bug".into()),
    ];
    for err in non_retryable {
        assert!(!err.is_retryable());
    }
}

#[test]
fn is_fallbackable_matches_expected_variants() {
    let fallbackable = [
        LlmError::RateLimit,
        LlmError::Timeout,
        LlmError::ProviderDown,
        LlmError::Transport("io".into()),
    ];
    for err in fallbackable {
        assert!(err.is_fallbackable());
    }

    let non_fallbackable = [
        LlmError::AuthError,
        LlmError::InvalidRequest("bad".into()),
        LlmError::InvalidResponse("bad".into()),
        LlmError::UnsupportedCapability {
            provider: "p".into(),
            capability: "stream".into(),
        },
        LlmError::Internal("bug".into()),
    ];
    for err in non_fallbackable {
        assert!(!err.is_fallbackable());
    }
}

#[test]
fn map_to_domain_response_maps_tool_calls_and_finish_reason() {
    let response = LlmResponse {
        content: "answer".into(),
        tool_calls: vec![ToolCall {
            call_id: "c1".into(),
            name: "tool_a".into(),
            arguments: "{}".into(),
        }],
        finish_reason: FinishReason::ToolCalls,
        usage: Some(LlmUsage {
            prompt_tokens: 10,
            completion_tokens: 3,
            total_tokens: 13,
            cache_read_tokens: None,
            cache_write_tokens: None,
        }),
        model: "m1".into(),
        provider: "p1".into(),
        response_id: Some("rid".into()),
    };

    let mapped = map_to_domain_response(response);

    assert_eq!(mapped.content, "answer");
    assert_eq!(mapped.model, "m1");
    assert_eq!(mapped.finish_reason, domain::FinishReason::ToolCalls);
    assert_eq!(mapped.tool_calls.len(), 1);
    assert_eq!(
        mapped.tool_calls[0],
        domain::ToolCall {
            call_id: "c1".into(),
            name: "tool_a".into(),
            arguments: "{}".into(),
        }
    );
    assert_eq!(
        mapped.usage,
        Some(domain::LlmUsage {
            input_tokens: 10,
            output_tokens: 3,
            total_tokens: 13,
        })
    );

    let length = map_to_domain_response(LlmResponse {
        finish_reason: FinishReason::Length,
        usage: None,
        tool_calls: vec![],
        content: String::new(),
        model: "m".into(),
        provider: "p".into(),
        response_id: None,
    });
    assert_eq!(length.finish_reason, domain::FinishReason::Length);

    let stop = map_to_domain_response(LlmResponse {
        finish_reason: FinishReason::Error,
        usage: None,
        tool_calls: vec![],
        content: String::new(),
        model: "m".into(),
        provider: "p".into(),
        response_id: None,
    });
    assert_eq!(stop.finish_reason, domain::FinishReason::Stop);
}

#[test]
fn map_to_domain_error_maps_each_llm_error_variant() {
    assert_eq!(
        map_to_domain_error(LlmError::RateLimit),
        domain::LlmError::RateLimited
    );
    assert_eq!(
        map_to_domain_error(LlmError::Timeout),
        domain::LlmError::Timeout
    );
    assert_eq!(
        map_to_domain_error(LlmError::InvalidRequest("bad".into())),
        domain::LlmError::InvalidRequest("bad".into())
    );

    let provider_cases = [
        (
            LlmError::AuthError,
            domain::LlmError::ProviderError("authentication failed".into()),
        ),
        (
            LlmError::ProviderDown,
            domain::LlmError::ProviderError("provider unavailable".into()),
        ),
        (
            LlmError::InvalidResponse("broken".into()),
            domain::LlmError::ProviderError("invalid response: broken".into()),
        ),
        (
            LlmError::UnsupportedCapability {
                provider: "p".into(),
                capability: "stream".into(),
            },
            domain::LlmError::ProviderError(
                "unsupported capability: provider=p capability=stream".into(),
            ),
        ),
        (
            LlmError::Transport("io".into()),
            domain::LlmError::ProviderError("transport error: io".into()),
        ),
        (
            LlmError::Internal("bug".into()),
            domain::LlmError::ProviderError("internal: bug".into()),
        ),
    ];

    for (input, expected) in provider_cases {
        assert_eq!(map_to_domain_error(input), expected);
    }
}

fn choice_response(choices: Vec<OpenAiChoice>, id: Option<&str>, usage: Option<OpenAiUsage>) -> OpenAiChatCompletionResponse {
    OpenAiChatCompletionResponse {
        id: id.map(str::to_string),
        model: "gpt-4o-mini".to_string(),
        choices,
        usage,
    }
}

#[test]
fn parse_success_body_parses_normal_response() {
    let parsed = choice_response(
        vec![OpenAiChoice {
            message: OpenAiChoiceMessage { content: Some("Hi there".to_string()), tool_calls: None },
            finish_reason: Some("stop".to_string()),
        }],
        Some("resp_1"),
        Some(OpenAiUsage { prompt_tokens: 10, completion_tokens: 5, total_tokens: 15 }),
    );

    let response = OpenAiProvider::parse_success_body(Ok(parsed)).expect("parse success body");

    assert_eq!(response.content, "Hi there");
    assert_eq!(response.model, "gpt-4o-mini");
    assert_eq!(response.provider, "openai-compatible");
    assert_eq!(response.response_id, Some("resp_1".to_string()));
    assert_eq!(response.finish_reason, FinishReason::Stop);
    assert_eq!(response.tool_calls, vec![]);
    assert_eq!(
        response.usage,
        Some(LlmUsage {
            prompt_tokens: 10,
            completion_tokens: 5,
            total_tokens: 15,
            cache_read_tokens: None,
            cache_write_tokens: None,
        })
    );
}

#[test]
fn parse_success_body_parses_tool_calls_response() {
    let parsed = choice_response(
        vec![OpenAiChoice {
            message: OpenAiChoiceMessage {
                content: None,
                tool_calls: Some(vec![OpenAiToolCall {
                    id: "call_1".to_string(),
                    call_type: "function".to_string(),
                    function: OpenAiFunctionCall {
                        name: "get_current_time".to_string(),
                        arguments: "{\"timezone\":\"Asia/Shanghai\"}".to_string(),
                    },
                }]),
            },
            finish_reason: Some("tool_calls".to_string()),
        }],
        None,
        None,
    );

    let response = OpenAiProvider::parse_success_body(Ok(parsed)).expect("parse success body");
    assert_eq!(response.finish_reason, FinishReason::ToolCalls);
    assert_eq!(response.content, "");
    assert_eq!(response.tool_calls.len(), 1);
    assert_eq!(response.tool_calls[0].call_id, "call_1");
    assert_eq!(response.tool_calls[0].name, "get_current_time");
}

#[test]
fn parse_success_body_returns_error_when_choices_missing() {
    let parsed = choice_response(vec![], None, None);
    let err = OpenAiProvider::parse_success_body(Ok(parsed)).expect_err("should fail");
    assert_eq!(err, LlmError::InvalidResponse("missing choices[0]".into()));
}

#[test]
fn parse_success_body_reports_unparsable_body() {
    let err = OpenAiProvider::parse_success_body(Err("expected value at line 1".to_string())).unwrap_err();
    assert_eq!(err, LlmError::InvalidResponse("expected value at line 1".into()));
}

#[test]
fn map_http_error_covers_expected_statuses() {
    assert_eq!(
        OpenAiProvider::map_http_error(429, "slow down".into()),
        LlmError::RateLimit
    );
    assert_eq!(
        OpenAiProvider::map_http_error(401, "bad key".into()),
        LlmError::AuthError
    );
    assert_eq!(
        OpenAiProvider::map_http_error(500, "oops".into()),
        LlmError::ProviderDown
    );
    assert_eq!(
        OpenAiProvider::map_http_error(400, "bad payload".into()),
        LlmError::InvalidRequest("bad payload".into())
    );
    let err = OpenAiProvider::map_http_error(302, "redirect".into());
    assert_eq!(
        err,
        LlmError::Transport("unexpected status 302 Found: redirect".into())
    );
}

#[test]
fn map_http_error_remaining_statuses() {
    assert_eq!(OpenAiProvider::map_http_error(403, String::new()), LlmError::AuthError);
    assert_eq!(OpenAiProvider::map_http_error(408, String::new()), LlmError::Timeout);
    assert_eq!(OpenAiProvider::map_http_error(503, String::new()), LlmError::ProviderDown);
    assert_eq!(
        OpenAiProvider::map_http_error(299, "x".into()),
        LlmError::Transport("unexpected status 299 <unknown status code>: x".into())
    );
}

#[test]
fn parse_tool_calls_handles_none_empty_and_multiple() {
    assert_eq!(parse_tool_calls(&None), Vec::<ToolCall>::new());
    assert_eq!(parse_tool_calls(&Some(vec![])), Vec::<ToolCall>::new());

    let calls = parse_tool_calls(&Some(vec![
        OpenAiToolCall {
            id: "call_1".into(),
            call_type: "function".into(),
            function: OpenAiFunctionCall {
                name: "tool_a".into(),
                arguments: "{\"a\":1}".into(),
            },
        },
        OpenAiToolCall {
            id: "call_2".into(),
            call_type: "function".into(),
            function: OpenAiFunctionCall {
                name: "tool_b".into(),
                arguments: "{\"b\":2}".into(),
            },
        },
    ]));

    assert_eq!(calls.len(), 2);
    assert_eq!(calls[0].call_id, "call_1");
    assert_eq!(calls[1].name, "tool_b");
}

#[test]
fn parse_finish_reason_handles_known_and_unknown_values() {
    assert_eq!(parse_finish_reason(&Some("stop".into())), FinishReason::Stop);
    assert_eq!(
        parse_finish_reason(&Some("tool_calls".into())),
        FinishReason::ToolCalls
    );
    assert_eq!(
        parse_finish_reason(&Some("length".into())),
        FinishReason::Length
    );
    assert_eq!(
        parse_finish_reason(&Some("something-else".into())),
        FinishReason::Stop
    );
    assert_eq!(parse_finish_reason(&None), FinishReason::Stop);
}

#[test]
fn parse_finish_reason_content_filter_and_error() {
    assert_eq!(parse_finish_reason(&Some("content_filter".into())), FinishReason::ContentFilter);
    assert_eq!(parse_finish_reason(&Some("error".into())), FinishReason::Error);
}

#[test]
fn provider_resolves_model_and_endpoint() {
    let provider = OpenAiProvider::with_config("k".into(), "https://example.com/v1//".into(), "gpt-test".into());
    assert_eq!(provider.endpoint(), "https://example.com/v1/chat/completions");
    assert_eq!(provider.resolve_model(String::new()), "gpt-test");
    assert_eq!(provider.resolve_model("gpt-4o".into()), "gpt-4o");
    assert_eq!(provider.provider_id(), "openai-compatible");
    assert_eq!(provider.api_key_text(), "k");
    let default_provider = OpenAiProvider::new("key".into());
    assert_eq!(default_provider.endpoint(), "https://api.openai.com/v1/chat/completions");
    assert_eq!(default_provider.resolve_model(String::new()), "gpt-4o-mini");
    assert_eq!(
        provider.capabilities(),
        LlmProviderCapabilities {
            supports_stream: false,
            supports_tools: true,
            supports_vision: false,
            supports_json_mode: true,
            supports_stateful: false,
        }
    );
    assert_eq!(LlmProviderCapabilities::default().supports_tools, false);
}

#[test]
fn provider_maps_messages_tools_and_format() {
    let messages = vec![ModelMessage {
        role: "assistant".into(),
        content: String::new(),
        tool_calls: Some(vec![ToolCall {
            call_id: "call_1".into(),
            name: "tool_name".into(),
            arguments: "{\"x\":1}".into(),
        }]),
        tool_call_id: Some("tool_call_1".into()),
    }];
    let mapped = OpenAiProvider::map_messages(&messages);
    assert_eq!(mapped.len(), 1);
    let calls = mapped[0].tool_calls.as_ref().expect("tool calls kept");
    assert_eq!(calls[0].call_type, "function");
    assert_eq!(calls[0].id, "call_1");
    assert_eq!(calls[0].function.name, "tool_name");
    assert_eq!(mapped[0].tool_call_id, Some("tool_call_1".to_string()));

    assert!(OpenAiProvider::map_tools(&vec![]).is_none());
    let tools = OpenAiProvider::map_tools(&vec![ToolSpec {
        name: "get_current_time".into(),
        description: "Get current time".into(),
        parameters_schema: "{\"type\":\"object\"}".into(),
        strict: true,
    }])
    .expect("tools present");
    assert_eq!(tools[0].tool_type, "function");
    assert_eq!(tools[0].function.name, "get_current_time");
    assert!(tools[0].function.strict);

    assert_eq!(
        OpenAiProvider::response_format(true),
        Some(OpenAiResponseFormat { format_type: "json_object".into() })
    );
    assert_eq!(OpenAiProvider::response_format(false), None);
    assert_eq!(OpenAiResponseFormat::json_object().format_type, "json_object");
}

#[test]
fn send_errors_map_to_timeout_or_transport() {
    assert_eq!(OpenAiProvider::map_send_error(true, "slow".into()), LlmError::Timeout);
    assert_eq!(
        OpenAiProvider::map_send_error(false, "reset".into()),
        LlmError::Transport("reset".into())
    );
}

#[test]
fn domain_request_pieces_map_to_provider_layer() {
    let messages = vec![domain::ChatMessage {
        role: "assistant".into(),
        content: "content".into(),
        tool_calls: Some(vec![domain::ToolCall {
            call_id: "call_1".into(),
            name: "tool_a".into(),
            arguments: "{\"x\":1}".into(),
        }]),
        tool_call_id: Some("call_1".into()),
    }];
    let mapped = map_domain_messages(&messages);
    assert_eq!(mapped.len(), 1);
    assert_eq!(mapped[0].role, "assistant");
    assert_eq!(mapped[0].content, "content");
    assert_eq!(mapped[0].tool_call_id, Some("call_1".into()));
    assert_eq!(mapped[0].tool_calls.as_ref().map(Vec::len), Some(1));
    assert_eq!(mapped[0].tool_calls.as_ref().expect("tool calls")[0].call_id, "call_1");

    let tools = map_domain_tools(&vec![domain::ToolSpec {
        name: "tool_a".into(),
        description: "desc".into(),
        parameters: "{\"type\":\"object\"}".into(),
    }]);
    assert_eq!(tools.len(), 1);
    assert_eq!(tools[0].name, "tool_a");
    assert_eq!(tools[0].description, "desc");
    assert_eq!(tools[0].parameters_schema, "{\"type\":\"object\"}");
    assert!(!tools[0].strict);

    assert_eq!(resolve_domain_model(None, "fallback-model"), "fallback-model");
    assert_eq!(resolve_domain_model(Some("explicit-model".into()), "fallback-model"), "explicit-model");
    assert_eq!(LlmRequestMetadata::default().trace_id, None);
}

#[test]
fn stream_default_impl_returns_unsupported_capability() {
    assert_eq!(
        unsupported_stream("dummy"),
        LlmError::UnsupportedCapability { provider: "dummy".into(), capability: "stream".into() }
    );
}

#[test]
fn llm_error_messages() {
    assert_eq!(LlmError::RateLimit.to_string(), "rate limited");
    assert_eq!(LlmError::Timeout.to_string(), "timeout");
    assert_eq!(LlmError::InvalidRequest("x".into()).to_string(), "invalid request: x");
}

#[test]
fn response_script_serves_queue_then_fallback() {
    let first = Ok(default_response("one"));
    let second = Err(LlmError::Timeout);
    let mut script = ResponseScript::with_tool_call_sequence(vec![first, second]);
    assert_eq!(script.next_response().unwrap().content, "one");
    assert_eq!(script.next_response(), Err(LlmError::Timeout));
    assert_eq!(script.next_response().unwrap().content, "mock");
    assert_eq!(script.next_response().unwrap().content, "mock");
    script.set_response(Err(LlmError::Internal("mock provider error".into())));
    assert_eq!(script.next_response(), Err(LlmError::Internal("mock provider error".into())));

    let mut text = ResponseScript::with_text("Hello from mock!");
    let reply = text.next_response().unwrap();
    assert_eq!(reply.content, "Hello from mock!");
    assert_eq!(reply.model, "mock");
    assert_eq!(reply.finish_reason, FinishReason::Stop);
}

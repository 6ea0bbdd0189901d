//! Mapping between the domain's LLM port and the provider layer.
use vstd::prelude::*;
use crate::domain::ports as domain;
use crate::llm::error::{llm_error_message, LlmError};
use crate::llm::types::{FinishReason, LlmResponse, ModelMessage, ModelMessageView, ToolCall, ToolCallView, ToolSpec, ToolSpecView};

verus! {

/// The domain's finish reason for a provider's: tool calls and length keep
/// their meaning, everything else is a stop.
pub open spec fn domain_finish_reason(r: FinishReason) -> domain::FinishReason {
    match r {
        FinishReason::ToolCalls => domain::FinishReason::ToolCalls,
        FinishReason::Length => domain::FinishReason::Length,
        _ => domain::FinishReason::Stop,
    }
}

/// The provider-layer form of a domain tool call.
pub open spec fn provider_tool_call(c: domain::ToolCallView) -> ToolCallView {
    ToolCallView { call_id: c.call_id, name: c.name, arguments: c.arguments }
}

/// The domain form of a provider tool call.
pub open spec fn domain_tool_call(c: ToolCallView) -> domain::ToolCallView {
    domain::ToolCallView { call_id: c.call_id, name: c.name, arguments: c.arguments }
}

/// The provider-layer form of a domain message.
pub open spec fn provider_message(m: domain::ChatMessageView) -> ModelMessageView {
    ModelMessageView {
        role: m.role,
        content: m.content,
        tool_calls: match m.tool_calls {
            Some(calls) => Some(calls.map_values(|c: domain::ToolCallView| provider_tool_call(c))),
            None => None,
        },
        tool_call_id: m.tool_call_id,
    }
}

/// The provider-layer form of a domain tool: its schema, not strict.
pub open spec fn provider_tool(t: domain::ToolSpecView) -> ToolSpecView {
    ToolSpecView { name: t.name, description: t.description, parameters_schema: t.parameters, strict: false }
}

/// The domain's answer for a provider's answer.
pub fn map_to_domain_response(response: LlmResponse) -> (r: domain::LlmResponse)
    ensures
        r.content@ == response.content@,
        r.model@ == response.model@,
        r.usage == match response.usage {
            Some(u) => Some(
                domain::LlmUsage {
                    input_tokens: u.prompt_tokens,
                    output_tokens: u.completion_tokens,
                    total_tokens: u.total_tokens,
                },
            ),
            None => None,
        },
        r.tool_calls.deep_view() == response.tool_calls.deep_view().map_values(|c: ToolCallView| domain_tool_call(c)),
        r.finish_reason == domain_finish_reason(response.finish_reason),
{
    let mut calls: Vec<domain::ToolCall> = Vec::new();
    let mut i: usize = 0;
    while i < response.tool_calls.len()
        invariant
            i <= response.tool_calls.len(),
            calls@.len() == i,
            forall|j: int|
                0 <= j < i ==> #[trigger] calls@[j].deep_view() == domain_tool_call(response.tool_calls@[j].deep_view()),
        decreases response.tool_calls.len() - i,
    {
        let c = &response.tool_calls[i];
        calls.push(domain::ToolCall { call_id: c.call_id.clone(), name: c.name.clone(), arguments: c.arguments.clone() });
        i = i + 1;
    }
    assert(calls.deep_view() =~= response.tool_calls.deep_view().map_values(|c: ToolCallView| domain_tool_call(c)));
    let usage = match response.usage {
        Some(u) => Some(
            domain::LlmUsage {
                input_tokens: u.prompt_tokens,
                output_tokens: u.completion_tokens,
                total_tokens: u.total_tokens,
            },
        ),
        None => None,
    };
    let finish_reason = match response.finish_reason {
        FinishReason::ToolCalls => domain::FinishReason::ToolCalls,
        FinishReason::Length => domain::FinishReason::Length,
        _ => domain::FinishReason::Stop,
    };
    domain::LlmResponse { content: response.content, model: response.model, usage, tool_calls: calls, finish_reason }
}

/// The domain's error for a provider's: rate limits, timeouts and invalid
/// requests keep their meaning; anything else becomes a provider error
/// carrying the message.
pub fn map_to_domain_error(error: LlmError) -> (r: domain::LlmError)
    ensures
        match error {
            LlmError::RateLimit => r == domain::LlmError::RateLimited,
            LlmError::Timeout => r == domain::LlmError::Timeout,
            LlmError::InvalidRequest(m) => r == domain::LlmError::InvalidRequest(m),
            _ => r matches domain::LlmError::ProviderError(m) && m@ == llm_error_message(error),
        },
{
    match error {
        LlmError::RateLimit => domain::LlmError::RateLimited,
        LlmError::Timeout => domain::LlmError::Timeout,
        LlmError::InvalidRequest(m) => domain::LlmError::InvalidRequest(m),
        other => domain::LlmError::ProviderError(other.to_string()),
    }
}

/// The model of a domain request: its own, or the provider's default.
pub fn resolve_domain_model(model: Option<String>, default_model: &str) -> (r: String)
    ensures
        r@ == match model {
            Some(m) => m@,
            None => default_model@,
        },
{
    match model {
        Some(m) => m,
        None => default_model.to_owned(),
    }
}

/// The provider-layer messages of a domain request.
pub fn map_domain_messages(messages: &Vec<domain::ChatMessage>) -> (r: Vec<ModelMessage>)
    ensures
        r.deep_view() == messages.deep_view().map_values(|m: domain::ChatMessageView| provider_message(m)),
{
    let mut out: Vec<ModelMessage> = Vec::new();
    let mut i: usize = 0;
    while i < messages.len()
        invariant
            i <= messages.len(),
            out@.len() == i,
            forall|j: int| 0 <= j < i ==> #[trigger] out@[j].deep_view() == provider_message(messages@[j].deep_view()),
        decreases messages.len() - i,
    {
        let m = &messages[i];
        let calls = match &m.tool_calls {
            Some(calls) => {
                let mut v: Vec<ToolCall> = Vec::new();
                let mut k: usize = 0;
                while k < calls.len()
                    invariant
                        k <= calls.len(),
                        v@.len() == k,
                        forall|j: int| 0 <= j < k ==> #[trigger] v@[j].deep_view() == provider_tool_call(calls@[j].deep_view()),
                    decreases calls.len() - k,
                {
                    let c = &calls[k];
                    v.push(ToolCall { call_id: c.call_id.clone(), name: c.name.clone(), arguments: c.arguments.clone() });
                    k = k + 1;
                }
                assert(v.deep_view() =~= calls.deep_view().map_values(|c: domain::ToolCallView| provider_tool_call(c)));
                Some(v)
            },
            None => None,
        };
        let tool_call_id = match &m.tool_call_id {
            Some(id) => Some(id.clone()),
            None => None,
        };
        out.push(ModelMessage { role: m.role.clone(), content: m.content.clone(), tool_calls: calls, tool_call_id });
        i = i + 1;
    }
    assert(out.deep_view() =~= messages.deep_view().map_values(|m: domain::ChatMessageView| provider_message(m)));
    out
}

/// The provider-layer tools of a domain request (never strict).
pub fn map_domain_tools(tools: &Vec<domain::ToolSpec>) -> (r: Vec<ToolSpec>)
    ensures
        r.deep_view() == tools.deep_view().map_values(|t: domain::ToolSpecView| provider_tool(t)),
{
    let mut out: Vec<ToolSpec> = Vec::new();
    let mut i: usize = 0;
    while i < tools.len()
        invariant
            i <= tools.len(),
            out@.len() == i,
            forall|j: int| 0 <= j < i ==> #[trigger] out@[j].deep_view() == provider_tool(tools@[j].deep_view()),
        decreases tools.len() - i,
    {
        let t = &tools[i];
        out.push(
            ToolSpec {
                name: t.name.clone(),
                description: t.description.clone(),
                parameters_schema: t.parameters.clone(),
                strict: false,
            },
        );
        i = i + 1;
    }
    assert(out.deep_view() =~= tools.deep_view().map_values(|t: domain::ToolSpecView| provider_tool(t)));
    out
}

} // verus!

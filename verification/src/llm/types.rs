//! The provider layer's request and response values. The request itself,
//! whose configuration carries floating-point sampling parameters, is
//! assembled around the library.
use vstd::prelude::*;

verus! {

/// A tool call as the provider layer carries it.
#[derive(Debug, Clone, PartialEq, Eq)]
pub struct ToolCall {
    pub call_id: String,
    pub name: String,
    pub arguments: String,
}

pub struct ToolCallView {
    pub call_id: Seq<char>,
    pub name: Seq<char>,
    pub arguments: Seq<char>,
}

impl DeepView for ToolCall {
    type V = ToolCallView;

    open spec fn deep_view(&self) -> ToolCallView {
        ToolCallView { call_id: self.call_id@, name: self.name@, arguments: self.arguments@ }
    }
}

/// A message of the model's input.
#[derive(Debug, Clone, PartialEq, Eq)]
pub struct ModelMessage {
    pub role: String,
    pub content: String,
    pub tool_calls: Option<Vec<ToolCall>>,
    pub tool_call_id: Option<String>,
}

pub struct ModelMessageView {
    pub role: Seq<char>,
    pub content: Seq<char>,
    pub tool_calls: Option<Seq<ToolCallView>>,
    pub tool_call_id: Option<Seq<char>>,
}

impl DeepView for ModelMessage {
    type V = ModelMessageView;

    open spec fn deep_view(&self) -> ModelMessageView {
        ModelMessageView {
            role: self.role@,
            content: self.content@,
            tool_calls: self.tool_calls.deep_view(),
            tool_call_id: self.tool_call_id.deep_view(),
        }
    }
}

/// A tool offered to the model; `parameters_schema` is JSON Schema text.
#[derive(Debug, Clone, PartialEq, Eq)]
pub struct ToolSpec {
    pub name: String,
    pub description: String,
    pub parameters_schema: String,
    pub strict: bool,
}

pub struct ToolSpecView {
    pub name: Seq<char>,
    pub description: Seq<char>,
    pub parameters_schema: Seq<char>,
    pub strict: bool,
}

impl DeepView for ToolSpec {
    type V = ToolSpecView;

    open spec fn deep_view(&self) -> ToolSpecView {
        ToolSpecView {
            name: self.name@,
            description: self.description@,
            parameters_schema: self.parameters_schema@,
            strict: self.strict,
        }
    }
}

/// Why the model stopped.
#[derive(Debug, Clone, Copy, PartialEq, Eq)]
pub enum FinishReason {
    Stop,
    ToolCalls,
    Length,
    ContentFilter,
    Error,
}

/// Token accounting of one call.
#[derive(Debug, Clone, Copy, PartialEq, Eq)]
pub struct LlmUsage {
    pub prompt_tokens: u32,
    pub completion_tokens: u32,
    pub total_tokens: u32,
    pub cache_read_tokens: Option<u32>,
    pub cache_write_tokens: Option<u32>,
}

/// A provider's answer.
#[derive(Debug, Clone, PartialEq, Eq)]
pub struct LlmResponse {
    pub content: String,
    pub tool_calls: Vec<ToolCall>,
    pub finish_reason: FinishReason,
    pub usage: Option<LlmUsage>,
    pub model: String,
    pub provider: String,
    pub response_id: Option<String>,
}

/// Who asks, for tracing.
#[derive(Debug, Clone, PartialEq, Eq)]
pub struct LlmRequestMetadata {
    pub tenant_id: Option<String>,
    pub session_id: Option<String>,
    pub turn_id: Option<String>,
    pub trace_id: Option<String>,
}

impl Default for LlmRequestMetadata {
    fn default() -> (r: Self)
        ensures
            r.tenant_id is None,
            r.session_id is None,
            r.turn_id is None,
            r.trace_id is None,
    {
        LlmRequestMetadata { tenant_id: None, session_id: None, turn_id: None, trace_id: None }
    }
}

/// What a provider supports.
#[derive(Debug, Clone, Copy, PartialEq, Eq)]
pub struct LlmProviderCapabilities {
    pub supports_stream: bool,
    pub supports_tools: bool,
    pub supports_vision: bool,
    pub supports_json_mode: bool,
    pub supports_stateful: bool,
}

impl Default for LlmProviderCapabilities {
    /// A provider that supports nothing beyond plain completion.
    fn default() -> (r: Self)
        ensures
            r == (LlmProviderCapabilities {
                supports_stream: false,
                supports_tools: false,
                supports_vision: false,
                supports_json_mode: false,
                supports_stateful: false,
            }),
    {
        LlmProviderCapabilities {
            supports_stream: false,
            supports_tools: false,
            supports_vision: false,
            supports_json_mode: false,
            supports_stateful: false,
        }
    }
}

/// One piece of a streamed answer.
#[derive(Debug, Clone, PartialEq, Eq)]
pub struct LlmStreamChunk {
    pub delta_text: Option<String>,
}

} // verus!

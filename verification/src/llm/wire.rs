//! The OpenAI-compatible chat completion wire format. The request body,
//! which carries floating-point sampling parameters, is assembled and
//! serialized around the library; so is the JSON text of each value here.
use vstd::prelude::*;

verus! {

/// A message of the request.
#[derive(Debug, Clone, PartialEq, Eq)]
pub struct OpenAiMessage {
    pub role: String,
    pub content: String,
    pub tool_calls: Option<Vec<OpenAiToolCall>>,
    pub tool_call_id: Option<String>,
}

/// A tool offered in the request.
#[derive(Debug, Clone, PartialEq, Eq)]
pub struct OpenAiToolSpec {
    pub tool_type: String,
    pub function: OpenAiFunctionSpec,
}

/// The function a tool exposes; `parameters` is JSON Schema text.
#[derive(Debug, Clone, PartialEq, Eq)]
pub struct OpenAiFunctionSpec {
    pub name: String,
    pub description: String,
    pub parameters: String,
    pub strict: bool,
}

/// The requested response format.
#[derive(Debug, Clone, PartialEq, Eq)]
pub struct OpenAiResponseFormat {
    pub format_type: String,
}

impl OpenAiResponseFormat {
    /// The format that asks for a JSON object.
    pub fn json_object() -> (r: Self)
        ensures
            r.format_type@ == "json_object"@,
    {
        OpenAiResponseFormat { format_type: "json_object".to_owned() }
    }
}

/// A tool call, in a request message or in a response.
#[derive(Debug, Clone, PartialEq, Eq)]
pub struct OpenAiToolCall {
    pub id: String,
    pub call_type: String,
    pub function: OpenAiFunctionCall,
}

/// The function a tool call invokes, with its JSON arguments text.
#[derive(Debug, Clone, PartialEq, Eq)]
pub struct OpenAiFunctionCall {
    pub name: String,
    pub arguments: String,
}

pub struct OpenAiToolCallView {
    pub id: Seq<char>,
    pub call_type: Seq<char>,
    pub name: Seq<char>,
    pub arguments: Seq<char>,
}

impl DeepView for OpenAiToolCall {
    type V = OpenAiToolCallView;

    open spec fn deep_view(&self) -> OpenAiToolCallView {
        OpenAiToolCallView {
            id: self.id@,
            call_type: self.call_type@,
            name: self.function.name@,
            arguments: self.function.arguments@,
        }
    }
}

pub struct OpenAiMessageView {
    pub role: Seq<char>,
    pub content: Seq<char>,
    pub tool_calls: Option<Seq<OpenAiToolCallView>>,
    pub tool_call_id: Option<Seq<char>>,
}

impl DeepView for OpenAiMessage {
    type V = OpenAiMessageView;

    open spec fn deep_view(&self) -> OpenAiMessageView {
        OpenAiMessageView {
            role: self.role@,
            content: self.content@,
            tool_calls: self.tool_calls.deep_view(),
            tool_call_id: self.tool_call_id.deep_view(),
        }
    }
}

pub struct OpenAiToolSpecView {
    pub tool_type: Seq<char>,
    pub name: Seq<char>,
    pub description: Seq<char>,
    pub parameters: Seq<char>,
    pub strict: bool,
}

impl DeepView for OpenAiToolSpec {
    type V = OpenAiToolSpecView;

    open spec fn deep_view(&self) -> OpenAiToolSpecView {
        OpenAiToolSpecView {
            tool_type: self.tool_type@,
            name: self.function.name@,
            description: self.function.description@,
            parameters: self.function.parameters@,
            strict: self.function.strict,
        }
    }
}

/// A chat completion response.
#[derive(Debug, Clone, PartialEq, Eq)]
pub struct OpenAiChatCompletionResponse {
    pub id: Option<String>,
    pub model: String,
    pub choices: Vec<OpenAiChoice>,
    pub usage: Option<OpenAiUsage>,
}

/// One choice of a response.
#[derive(Debug, Clone, PartialEq, Eq)]
pub struct OpenAiChoice {
    pub message: OpenAiChoiceMessage,
    pub finish_reason: Option<String>,
}

/// The message of a choice.
#[derive(Debug, Clone, PartialEq, Eq)]
pub struct OpenAiChoiceMessage {
    pub content: Option<String>,
    pub tool_calls: Option<Vec<OpenAiToolCall>>,
}

/// Token accounting of a response.
#[derive(Debug, Clone, Copy, PartialEq, Eq)]
pub struct OpenAiUsage {
    pub prompt_tokens: u32,
    pub completion_tokens: u32,
    pub total_tokens: u32,
}

} // verus!

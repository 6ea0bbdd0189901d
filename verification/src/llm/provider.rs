//! Rules of the OpenAI-compatible provider: the endpoint, the model choice,
//! the request's messages and tools, the reading of a response and the
//! mapping of HTTP failures. The HTTP exchange itself happens around the
//! library.
use vstd::prelude::*;
use crate::llm::error::LlmError;
use crate::llm::types::{
    FinishReason, LlmProviderCapabilities, LlmResponse, LlmUsage, ModelMessage, ModelMessageView, ToolCall,
    ToolCallView, ToolSpec, ToolSpecView,
};
use crate::llm::wire::{
    OpenAiChatCompletionResponse, OpenAiFunctionCall, OpenAiFunctionSpec, OpenAiMessage, OpenAiMessageView,
    OpenAiResponseFormat, OpenAiToolCall, OpenAiToolCallView, OpenAiToolSpec, OpenAiToolSpecView,
};
use crate::text::{decimal, push_decimal, str_eq};

verus! {

/// The reason phrase the `http` crate knows for a status code (for
/// instance "Found" for 302), if it knows one.
pub uninterp spec fn http_reason_phrase(code: u16) -> Option<Seq<char>>;

/// Calls `reqwest::StatusCode::from_u16` and then
/// `StatusCode::canonical_reason`, a fixed table of the registered codes;
/// the result is named by `http_reason_phrase`.
#[verifier::external_body]
fn status_reason(code: u16) -> (r: Option<&'static str>)
    requires
        100 <= code <= 999,
    ensures
        r.deep_view() == http_reason_phrase(code),
{
    match reqwest::StatusCode::from_u16(code) {
        Ok(status) => status.canonical_reason(),
        Err(_) => None,
    }
}

/// `s` without its trailing '/' characters.
pub open spec fn without_trailing_slashes(s: Seq<char>) -> Seq<char>
    decreases s.len(),
{
    if s.len() > 0 && s.last() == '/' {
        without_trailing_slashes(s.drop_last())
    } else {
        s
    }
}

/// The request message for a model message.
pub open spec fn wire_message(m: ModelMessageView) -> OpenAiMessageView {
    OpenAiMessageView {
        role: m.role,
        content: m.content,
        tool_calls: match m.tool_calls {
            Some(calls) => Some(calls.map_values(|c: ToolCallView| wire_tool_call(c))),
            None => None,
        },
        tool_call_id: m.tool_call_id,
    }
}

/// The request form of a tool call: a "function" call.
pub open spec fn wire_tool_call(c: ToolCallView) -> OpenAiToolCallView {
    OpenAiToolCallView { id: c.call_id, call_type: "function"@, name: c.name, arguments: c.arguments }
}

/// The request form of a tool: a "function" tool.
pub open spec fn wire_tool(t: ToolSpecView) -> OpenAiToolSpecView {
    OpenAiToolSpecView {
        tool_type: "function"@,
        name: t.name,
        description: t.description,
        parameters: t.parameters_schema,
        strict: t.strict,
    }
}

/// The tool call a response's tool call stands for.
pub open spec fn answered_tool_call(c: OpenAiToolCallView) -> ToolCallView {
    ToolCallView { call_id: c.id, name: c.name, arguments: c.arguments }
}

/// A request message carries the model message's role, content, answered
/// call and tool calls (as function calls with the same id, name and
/// arguments) unchanged.
pub proof fn lemma_wire_message_keeps_fields(m: ModelMessageView)
    ensures
        wire_message(m).role == m.role,
        wire_message(m).content == m.content,
        wire_message(m).tool_call_id == m.tool_call_id,
        m.tool_calls is None <==> wire_message(m).tool_calls is None,
        m.tool_calls matches Some(calls) ==> {
            &&& wire_message(m).tool_calls->0.len() == calls.len()
            &&& forall|j: int|
                0 <= j < calls.len() ==> {
                    &&& (#[trigger] wire_message(m).tool_calls->0[j]).id == calls[j].call_id
                    &&& wire_message(m).tool_calls->0[j].call_type == "function"@
                    &&& wire_message(m).tool_calls->0[j].name == calls[j].name
                    &&& wire_message(m).tool_calls->0[j].arguments == calls[j].arguments
                }
        },
{
}

/// A tool call of a response is read with its id, name and arguments
/// unchanged.
pub proof fn lemma_answered_tool_call_keeps_fields(c: OpenAiToolCallView)
    ensures
        answered_tool_call(c).call_id == c.id,
        answered_tool_call(c).name == c.name,
        answered_tool_call(c).arguments == c.arguments,
{
}

/// The finish reason a response's reason text stands for.
pub open spec fn finish_reason_of(reason: Option<Seq<char>>) -> FinishReason {
    match reason {
        Some(r) => if r == "tool_calls"@ {
            FinishReason::ToolCalls
        } else if r == "length"@ {
            FinishReason::Length
        } else if r == "content_filter"@ {
            FinishReason::ContentFilter
        } else if r == "error"@ {
            FinishReason::Error
        } else {
            FinishReason::Stop
        },
        None => FinishReason::Stop,
    }
}

/// The text of an unexpected status: "<code> <reason>: <body>".
pub open spec fn unexpected_status_text(status: u16, body: Seq<char>) -> Seq<char> {
    "unexpected status "@ + decimal(status as nat) + " "@ + match http_reason_phrase(status) {
        Some(p) => p,
        None => "<unknown status code>"@,
    } + ": "@ + body
}

/// Configuration of an OpenAI-compatible provider.
pub struct OpenAiProvider {
    api_key: String,
    base_url: String,
    default_model: String,
}

impl OpenAiProvider {
    pub closed spec fn api_key(&self) -> Seq<char> {
        self.api_key@
    }

    pub closed spec fn base_url(&self) -> Seq<char> {
        self.base_url@
    }

    pub closed spec fn default_model(&self) -> Seq<char> {
        self.default_model@
    }

    /// The official endpoint and the `gpt-4o-mini` model.
    pub fn new(api_key: String) -> (r: Self)
        ensures
            r.api_key() == api_key@,
            r.base_url() == "https://api.openai.com/v1"@,
            r.default_model() == "gpt-4o-mini"@,
    {
        Self::with_config(api_key, "https://api.openai.com/v1".to_owned(), "gpt-4o-mini".to_owned())
    }

    pub fn with_config(api_key: String, base_url: String, default_model: String) -> (r: Self)
        ensures
            r.api_key() == api_key@,
            r.base_url() == base_url@,
            r.default_model() == default_model@,
    {
        OpenAiProvider { api_key, base_url, default_model }
    }

    /// The key sent as bearer token.
    pub fn api_key_text(&self) -> (r: &str)
        ensures
            r@ == self.api_key(),
    {
        self.api_key.as_str()
    }

    /// The model used when a request names none.
    pub fn default_model_text(&self) -> (r: &str)
        ensures
            r@ == self.default_model(),
    {
        self.default_model.as_str()
    }

    /// The name the provider reports itself by.
    pub fn provider_id(&self) -> (r: &'static str)
        ensures
            r@ == "openai-compatible"@,
    {
        "openai-compatible"
    }

    /// The chat completion URL: the base URL without trailing slashes, then
    /// "/chat/completions".
    pub fn endpoint(&self) -> (r: String)
        ensures
            r@ == without_trailing_slashes(self.base_url()) + "/chat/completions"@,
    {
        let s = self.base_url.as_str();
        let mut end = s.unicode_len();
        proof {
            assert(s@.subrange(0, end as int) =~= s@);
        }
        while end > 0 && s.get_char(end - 1) == '/'
            invariant
                end <= s@.len(),
                without_trailing_slashes(s@) == without_trailing_slashes(s@.subrange(0, end as int)),
            decreases end,
        {
            proof {
                let t = s@.subrange(0, end as int);
                assert(t.drop_last() =~= s@.subrange(0, end - 1));
            }
            end = end - 1;
        }
        proof {
            let t = s@.subrange(0, end as int);
            if end > 0 {
                assert(t.last() == s@[end - 1]);
            }
        }
        s.substring_char(0, end).to_owned().concat("/chat/completions")
    }

    /// The model to ask for: the request's, or the default when it names none.
    pub fn resolve_model(&self, model: String) -> (r: String)
        ensures
            r@ == if model@.len() == 0 {
                self.default_model()
            } else {
                model@
            },
    {
        if model.unicode_len() == 0 {
            self.default_model.clone()
        } else {
            model
        }
    }

    /// What the provider supports: tools and JSON mode.
    pub fn capabilities(&self) -> (r: LlmProviderCapabilities)
        ensures
            r == (LlmProviderCapabilities {
                supports_stream: false,
                supports_tools: true,
                supports_vision: false,
                supports_json_mode: true,
                supports_stateful: false,
            }),
    {
        LlmProviderCapabilities {
            supports_stream: false,
            supports_tools: true,
            supports_vision: false,
            supports_json_mode: true,
            supports_stateful: false,
        }
    }

    /// The request's messages, each tool call marked as a function call.
    pub fn map_messages(messages: &Vec<ModelMessage>) -> (r: Vec<OpenAiMessage>)
        ensures
            r.deep_view() == messages.deep_view().map_values(|m: ModelMessageView| wire_message(m)),
            // Each message keeps its role, content, answered call and tool calls.
            r@.len() == messages@.len(),
            forall|i: int|
                0 <= i < messages@.len() ==> {
                    &&& (#[trigger] r@[i]).role@ == messages@[i].role@
                    &&& r@[i].content@ == messages@[i].content@
                    &&& r@[i].tool_call_id.deep_view() == messages@[i].tool_call_id.deep_view()
                    &&& (r@[i].tool_calls is Some <==> messages@[i].tool_calls is Some)
                    &&& messages@[i].tool_calls matches Some(calls) ==> {
                        &&& r@[i].tool_calls->0@.len() == calls@.len()
                        &&& forall|j: int|
                            0 <= j < calls@.len() ==> {
                                &&& (#[trigger] r@[i].tool_calls->0@[j]).id@ == calls@[j].call_id@
                                &&& r@[i].tool_calls->0@[j].call_type@ == "function"@
                                &&& r@[i].tool_calls->0@[j].function.name@ == calls@[j].name@
                                &&& r@[i].tool_calls->0@[j].function.arguments@ == calls@[j].arguments@
                            }
                    }
                },
    {
        let mut out: Vec<OpenAiMessage> = Vec::new();
        let mut i: usize = 0;
        while i < messages.len()
            invariant
                i <= messages.len(),
                out@.len() == i,
                forall|j: int|
                    0 <= j < i ==> #[trigger] out@[j].deep_view() == wire_message(messages@[j].deep_view()),
            decreases messages.len() - i,
        {
            let m = &messages[i];
            let calls = match &m.tool_calls {
                Some(calls) => Some(map_tool_calls_out(calls)),
                None => None,
            };
            let tool_call_id = match &m.tool_call_id {
                Some(id) => Some(id.clone()),
                None => None,
            };
            out.push(OpenAiMessage { role: m.role.clone(), content: m.content.clone(), tool_calls: calls, tool_call_id });
            i = i + 1;
        }
        assert(out.deep_view() =~= messages.deep_view().map_values(|m: ModelMessageView| wire_message(m)));
        assert forall|i: int| 0 <= i < messages@.len() implies {
            &&& (#[trigger] out@[i]).role@ == messages@[i].role@
            &&& out@[i].content@ == messages@[i].content@
            &&& out@[i].tool_call_id.deep_view() == messages@[i].tool_call_id.deep_view()
            &&& (out@[i].tool_calls is Some <==> messages@[i].tool_calls is Some)
            &&& messages@[i].tool_calls matches Some(calls) ==> {
                &&& out@[i].tool_calls->0@.len() == calls@.len()
                &&& forall|j: int|
                    0 <= j < calls@.len() ==> {
                        &&& (#[trigger] out@[i].tool_calls->0@[j]).id@ == calls@[j].call_id@
                        &&& out@[i].tool_calls->0@[j].call_type@ == "function"@
                        &&& out@[i].tool_calls->0@[j].function.name@ == calls@[j].name@
                        &&& out@[i].tool_calls->0@[j].function.arguments@ == calls@[j].arguments@
                    }
            }
        } by {
            assert(out.deep_view()[i] == out@[i].deep_view());
            assert(messages.deep_view()[i] == messages@[i].deep_view());
            if let Some(calls) = messages@[i].tool_calls {
                let w = out@[i].tool_calls->0;
                assert(w.deep_view() == calls.deep_view().map_values(|c: ToolCallView| wire_tool_call(c)));
                assert forall|j: int| 0 <= j < calls@.len() implies (#[trigger] w@[j]).deep_view() == wire_tool_call(
                    calls@[j].deep_view(),
                ) by {
                    assert(w.deep_view()[j] == w@[j].deep_view());
                    assert(calls.deep_view()[j] == calls@[j].deep_view());
                }
            }
        }
        out
    }

    /// The request's tools as function tools; none at all when there are none.
    pub fn map_tools(tool_specs: &Vec<ToolSpec>) -> (r: Option<Vec<OpenAiToolSpec>>)
        ensures
            tool_specs@.len() == 0 ==> r is None,
            tool_specs@.len() > 0 ==> (r matches Some(v) && v.deep_view() == tool_specs.deep_view().map_values(
                |t: ToolSpecView| wire_tool(t),
            )),
    {
        if tool_specs.len() == 0 {
            return None;
        }
        let mut out: Vec<OpenAiToolSpec> = Vec::new();
        let mut i: usize = 0;
        while i < tool_specs.len()
            invariant
                i <= tool_specs.len(),
                out@.len() == i,
                forall|j: int| 0 <= j < i ==> #[trigger] out@[j].deep_view() == wire_tool(tool_specs@[j].deep_view()),
            decreases tool_specs.len() - i,
        {
            let t = &tool_specs[i];
            out.push(
                OpenAiToolSpec {
                    tool_type: "function".to_owned(),
                    function: OpenAiFunctionSpec {
                        name: t.name.clone(),
                        description: t.description.clone(),
                        parameters: t.parameters_schema.clone(),
                        strict: t.strict,
                    },
                },
            );
            i = i + 1;
        }
        assert(out.deep_view() =~= tool_specs.deep_view().map_values(|t: ToolSpecView| wire_tool(t)));
        Some(out)
    }

    /// The response format to ask for: a JSON object in JSON mode, else none.
    pub fn response_format(json_mode: bool) -> (r: Option<OpenAiResponseFormat>)
        ensures
            json_mode ==> (r matches Some(f) && f.format_type@ == "json_object"@),
            !json_mode ==> r is None,
    {
        if json_mode {
            Some(OpenAiResponseFormat::json_object())
        } else {
            None
        }
    }

    /// Reads a successful response body, given the outcome of parsing it as
    /// JSON (the parser's error text on failure): the first choice becomes
    /// the answer.
    pub fn parse_success_body(parsed: Result<OpenAiChatCompletionResponse, String>) -> (r: Result<
        LlmResponse,
        LlmError,
    >)
        ensures
            match parsed {
                Err(m) => r matches Err(LlmError::InvalidResponse(t)) && t@ == m@,
                Ok(body) => if body.choices@.len() == 0 {
                    r matches Err(LlmError::InvalidResponse(t)) && t@ == "missing choices[0]"@
                } else {
                    let choice = body.choices@[0];
                    r matches Ok(resp) && {
                        &&& resp.content@ == match choice.message.content {
                            Some(c) => c@,
                            None => Seq::empty(),
                        }
                        &&& resp.tool_calls.deep_view() == match choice.message.tool_calls {
                            Some(calls) => calls.deep_view().map_values(|c: OpenAiToolCallView| answered_tool_call(c)),
                            None => Seq::empty(),
                        }
                        &&& resp.finish_reason == finish_reason_of(choice.finish_reason.deep_view())
                        &&& resp.usage == match body.usage {
                            Some(u) => Some(
                                LlmUsage {
                                    prompt_tokens: u.prompt_tokens,
                                    completion_tokens: u.completion_tokens,
                                    total_tokens: u.total_tokens,
                                    cache_read_tokens: None,
                                    cache_write_tokens: None,
                                },
                            ),
                            None => None,
                        }
                        &&& resp.model@ == body.model@
                        &&& resp.provider@ == "openai-compatible"@
                        &&& resp.response_id.deep_view() == body.id.deep_view()
                    }
                },
            },
            // The answer's tool calls are the first choice's, field by field.
            parsed matches Ok(body) ==> (body.choices@.len() > 0 ==> (r matches Ok(resp) ==> match body.choices@[0].message.tool_calls {
                None => resp.tool_calls@.len() == 0,
                Some(calls) => {
                    &&& resp.tool_calls@.len() == calls@.len()
                    &&& forall|i: int|
                        0 <= i < calls@.len() ==> {
                            &&& (#[trigger] resp.tool_calls@[i]).call_id@ == calls@[i].id@
                            &&& resp.tool_calls@[i].name@ == calls@[i].function.name@
                            &&& resp.tool_calls@[i].arguments@ == calls@[i].function.arguments@
                        }
                },
            })),
    {
        let body = match parsed {
            Err(m) => return Err(LlmError::InvalidResponse(m)),
            Ok(b) => b,
        };
        if body.choices.len() == 0 {
            return Err(LlmError::InvalidResponse("missing choices[0]".to_owned()));
        }
        let choice = &body.choices[0];
        let content = match &choice.message.content {
            Some(c) => c.clone(),
            None => String::new(),
        };
        let tool_calls = parse_tool_calls(&choice.message.tool_calls);
        let finish_reason = parse_finish_reason(&choice.finish_reason);
        let usage = match body.usage {
            Some(u) => Some(
                LlmUsage {
                    prompt_tokens: u.prompt_tokens,
                    completion_tokens: u.completion_tokens,
                    total_tokens: u.total_tokens,
                    cache_read_tokens: None,
                    cache_write_tokens: None,
                },
            ),
            None => None,
        };
        let response_id = match &body.id {
            Some(id) => Some(id.clone()),
            None => None,
        };
        Ok(
            LlmResponse {
                content,
                tool_calls,
                finish_reason,
                usage,
                model: body.model.clone(),
                provider: "openai-compatible".to_owned(),
                response_id,
            },
        )
    }

    /// The error for an unsuccessful HTTP status (`status` is a valid HTTP
    /// status code) and its body.
    pub fn map_http_error(status: u16, body: String) -> (r: LlmError)
        requires
            100 <= status <= 999,
        ensures
            status == 429 ==> r == LlmError::RateLimit,
            status == 401 || status == 403 ==> r == LlmError::AuthError,
            status == 408 ==> r == LlmError::Timeout,
            status != 429 && status != 401 && status != 403 && status != 408 && 400 <= status < 500 ==> (r matches LlmError::InvalidRequest(m) && m@ == body@),
            500 <= status < 600 ==> r == LlmError::ProviderDown,
            !(400 <= status < 600) ==> (r matches LlmError::Transport(m) && m@ == unexpected_status_text(status, body@)),
    {
        if status == 429 {
            return LlmError::RateLimit;
        }
        if status == 401 || status == 403 {
            return LlmError::AuthError;
        }
        if status == 408 {
            return LlmError::Timeout;
        }
        if 400 <= status && status < 500 {
            return LlmError::InvalidRequest(body);
        }
        if 500 <= status && status < 600 {
            return LlmError::ProviderDown;
        }
        let mut text = "unexpected status ".to_owned();
        push_decimal(&mut text, status as u64);
        text.append(" ");
        match status_reason(status) {
            Some(p) => text.append(p),
            None => text.append("<unknown status code>"),
        }
        text.append(": ");
        text.append(body.as_str());
        LlmError::Transport(text)
    }

    /// The error for a request that never got an answer: `Timeout` when the
    /// client timed out, else a transport error with the client's text.
    pub fn map_send_error(timed_out: bool, text: String) -> (r: LlmError)
        ensures
            timed_out ==> r == LlmError::Timeout,
            !timed_out ==> (r matches LlmError::Transport(m) && m@ == text@),
    {
        if timed_out {
            LlmError::Timeout
        } else {
            LlmError::Transport(text)
        }
    }
}

fn map_tool_calls_out(calls: &Vec<ToolCall>) -> (r: Vec<OpenAiToolCall>)
    ensures
        r.deep_view() == calls.deep_view().map_values(|c: ToolCallView| wire_tool_call(c)),
{
    let mut out: Vec<OpenAiToolCall> = Vec::new();
    let mut i: usize = 0;
    while i < calls.len()
        invariant
            i <= calls.len(),
            out@.len() == i,
            forall|j: int| 0 <= j < i ==> #[trigger] out@[j].deep_view() == wire_tool_call(calls@[j].deep_view()),
        decreases calls.len() - i,
    {
        let c = &calls[i];
        out.push(
            OpenAiToolCall {
                id: c.call_id.clone(),
                call_type: "function".to_owned(),
                function: OpenAiFunctionCall { name: c.name.clone(), arguments: c.arguments.clone() },
            },
        );
        i = i + 1;
    }
    assert(out.deep_view() =~= calls.deep_view().map_values(|c: ToolCallView| wire_tool_call(c)));
    out
}

/// The tool calls of a response; none when it has none.
pub fn parse_tool_calls(tool_calls: &Option<Vec<OpenAiToolCall>>) -> (r: Vec<ToolCall>)
    ensures
        r.deep_view() == match tool_calls {
            Some(calls) => calls.deep_view().map_values(|c: OpenAiToolCallView| answered_tool_call(c)),
            None => Seq::empty(),
        },
        // Each call keeps its id, function name and arguments, in order.
        tool_calls is None ==> r@.len() == 0,
        tool_calls matches Some(calls) ==> {
            &&& r@.len() == calls@.len()
            &&& forall|i: int|
                0 <= i < calls@.len() ==> {
                    &&& (#[trigger] r@[i]).call_id@ == calls@[i].id@
                    &&& r@[i].name@ == calls@[i].function.name@
                    &&& r@[i].arguments@ == calls@[i].function.arguments@
                }
        },
{
    let mut out: Vec<ToolCall> = Vec::new();
    match tool_calls {
        None => {
            assert(out.deep_view() =~= Seq::<ToolCallView>::empty());
        },
        Some(calls) => {
            let mut i: usize = 0;
            while i < calls.len()
                invariant
                    i <= calls.len(),
                    out@.len() == i,
                    forall|j: int|
                        0 <= j < i ==> #[trigger] out@[j].deep_view() == answered_tool_call(calls@[j].deep_view()),
                decreases calls.len() - i,
            {
                let c = &calls[i];
                out.push(
                    ToolCall {
                        call_id: c.id.clone(),
                        name: c.function.name.clone(),
                        arguments: c.function.arguments.clone(),
                    },
                );
                i = i + 1;
            }
            assert(out.deep_view() =~= calls.deep_view().map_values(
                |c: OpenAiToolCallView| answered_tool_call(c),
            ));
            assert forall|i: int| 0 <= i < calls@.len() implies {
                &&& (#[trigger] out@[i]).call_id@ == calls@[i].id@
                &&& out@[i].name@ == calls@[i].function.name@
                &&& out@[i].arguments@ == calls@[i].function.arguments@
            } by {
                assert(out.deep_view()[i] == out@[i].deep_view());
                assert(calls.deep_view()[i] == calls@[i].deep_view());
            }
        },
    }
    out
}

/// The finish reason a response's reason text stands for; anything unknown
/// or missing counts as a stop.
pub fn parse_finish_reason(reason: &Option<String>) -> (r: FinishReason)
    ensures
        r == finish_reason_of(reason.deep_view()),
{
    match reason {
        None => FinishReason::Stop,
        Some(text) => {
            let t = text.as_str();
            if str_eq(t, "tool_calls") {
                FinishReason::ToolCalls
            } else if str_eq(t, "length") {
                FinishReason::Length
            } else if str_eq(t, "content_filter") {
                FinishReason::ContentFilter
            } else if str_eq(t, "error") {
                FinishReason::Error
            } else {
                FinishReason::Stop
            }
        },
    }
}

} // verus!

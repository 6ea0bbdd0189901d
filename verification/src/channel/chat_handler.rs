//! The chat service: turns a request into a turn for the runtime, and the
//! turn's outcome into the answer.
use std::sync::Arc;
use vstd::prelude::*;
use crate::channel::auth_interceptor::UserId;
use crate::channel::proto::{
    text_block, ContentBlock, ContentKind, SendMessageRequest, SendMessageResponse, SubmitToolResultResponse,
};
use crate::channel::status::{status_is, turn_error_status, Code, GrpcStatus, IntoGrpcStatus};
use crate::channel::turn::{TurnError, TurnInput, TurnOutput};
use crate::text::{is_blank, is_blank_str, join, joined};

verus! {

/// The texts of the text blocks of `content`, in order.
pub open spec fn text_parts(content: Seq<ContentBlock>) -> Seq<Seq<char>>
    decreases content.len(),
{
    if content.len() == 0 {
        Seq::empty()
    } else {
        let rest = text_parts(content.drop_last());
        match content.last().kind {
            Some(ContentKind::Text(b)) => rest.push(b.text@),
            None => rest,
        }
    }
}

/// The message text of a request: its text blocks joined by newlines.
pub open spec fn message_text(content: Seq<ContentBlock>) -> Seq<char> {
    joined(text_parts(content), "\n"@)
}

/// The text a request sends, or `InvalidArgument` when it has no
/// non-blank text.
pub fn extract_text(content: &Vec<ContentBlock>) -> (r: Result<String, GrpcStatus>)
    ensures
        if is_blank(message_text(content@)) {
            r matches Err(s) && status_is(
                s,
                Code::InvalidArgument,
                "SendMessage.content must include at least one non-empty text block"@,
            )
        } else {
            r matches Ok(t) && t@ == message_text(content@)
        },
{
    let mut parts: Vec<String> = Vec::new();
    let mut i: usize = 0;
    while i < content.len()
        invariant
            i <= content.len(),
            parts@.map_values(|p: String| p@) == text_parts(content@.take(i as int)),
        decreases content.len() - i,
    {
        proof {
            assert(content@.take(i + 1).drop_last() =~= content@.take(i as int));
            assert(content@.take(i + 1).last() == content@[i as int]);
        }
        match &content[i].kind {
            Some(ContentKind::Text(b)) => {
                parts.push(b.text.clone());
                assert(parts@.map_values(|p: String| p@) =~= text_parts(content@.take(i as int)).push(b.text@));
            },
            None => {},
        }
        i = i + 1;
    }
    assert(content@.take(content.len() as int) =~= content@);
    let text = join(&parts, "\n");
    if is_blank_str(text.as_str()) {
        return Err(GrpcStatus::invalid_argument("SendMessage.content must include at least one non-empty text block"));
    }
    Ok(text)
}

/// `value`, unless it is blank.
pub fn non_empty(value: &str) -> (r: Option<&str>)
    ensures
        is_blank(value@) ==> r is None,
        !is_blank(value@) ==> r == Some(value),
{
    if is_blank_str(value) {
        None
    } else {
        Some(value)
    }
}

/// Serves chat messages through a turn runtime.
pub struct ChatServiceHandler<R: ?Sized> {
    runtime: Arc<R>,
}

impl<R: ?Sized> ChatServiceHandler<R> {
    pub closed spec fn runtime_spec(&self) -> Arc<R> {
        self.runtime
    }

    pub fn new(runtime: Arc<R>) -> (r: Self)
        ensures
            r.runtime_spec() == runtime,
    {
        ChatServiceHandler { runtime }
    }

    pub fn runtime(&self) -> (r: &Arc<R>)
        ensures
            *r == self.runtime_spec(),
    {
        &self.runtime
    }
}

/// The turn a request asks for: the authenticated user ("unknown" when
/// none), the request's session unless blank, and its message text.
pub fn turn_input(user: Option<UserId>, request: &SendMessageRequest) -> (r: Result<TurnInput, GrpcStatus>)
    ensures
        if is_blank(message_text(request.content@)) {
            r matches Err(s) && status_is(
                s,
                Code::InvalidArgument,
                "SendMessage.content must include at least one non-empty text block"@,
            )
        } else {
            r matches Ok(input) && {
                &&& input.user_id@ == match user {
                    Some(u) => u.0@,
                    None => "unknown"@,
                }
                &&& input.user_message@ == message_text(request.content@)
                &&& input.session_id.deep_view() == if is_blank(request.session_id@) {
                    None
                } else {
                    Some(request.session_id@)
                }
            }
        },
{
    let user_id = match user {
        Some(u) => u.0,
        None => "unknown".to_owned(),
    };
    let user_message = match extract_text(&request.content) {
        Ok(t) => t,
        Err(s) => return Err(s),
    };
    let session_id = match non_empty(request.session_id.as_str()) {
        Some(s) => Some(s.to_owned()),
        None => None,
    };
    Ok(TurnInput { user_id, session_id, user_message })
}

/// The answer to a chat message: the request id, the turn's session and the
/// assistant's text as one block; or the turn failure's status.
pub fn send_message_response(request_id: String, result: Result<TurnOutput, TurnError>) -> (r: Result<
    SendMessageResponse,
    GrpcStatus,
>)
    ensures
        match result {
            Ok(out) => r matches Ok(resp) && {
                &&& resp.request_id@ == request_id@
                &&& resp.session_id@ == out.session_id@
                &&& resp.user_message_id@ == "msg-001"@
                &&& resp.assistant_content@.len() == 1
                &&& (resp.assistant_content@[0].kind matches Some(ContentKind::Text(b)) && b.text@
                    == out.assistant_text@)
            },
            Err(e) => r matches Err(s) && turn_error_status(e, s),
        },
{
    match result {
        Ok(out) => {
            let mut blocks: Vec<ContentBlock> = Vec::new();
            blocks.push(text_block(out.assistant_text));
            Ok(
                SendMessageResponse {
                    request_id,
                    session_id: out.session_id,
                    user_message_id: "msg-001".to_owned(),
                    assistant_content: blocks,
                },
            )
        },
        Err(e) => Err(e.into_status()),
    }
}

/// Subscribing to events is not implemented.
pub fn subscribe_status() -> (r: GrpcStatus)
    ensures
        status_is(r, Code::Unimplemented, "not implemented"@),
{
    GrpcStatus::unimplemented("not implemented")
}

/// Submitting tool results is not implemented.
pub fn submit_tool_result_response() -> (r: Result<SubmitToolResultResponse, GrpcStatus>)
    ensures
        r matches Err(s) && status_is(s, Code::Unimplemented, "not implemented"@),
{
    Err(GrpcStatus::unimplemented("not implemented"))
}

} // verus!

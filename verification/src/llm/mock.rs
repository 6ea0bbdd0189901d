//! The scripted answers of the mock provider: queued answers first, in
//! order, then a fixed answer for every further call.
use vstd::prelude::*;
use crate::llm::error::LlmError;
use crate::llm::types::{FinishReason, LlmResponse, LlmUsage, ToolCall};

verus! {

/// The answer the mock gives by default: `text`, from model "mock", with
/// zero usage and no tool calls.
pub fn default_response(text: &str) -> (r: LlmResponse)
    ensures
        r.content@ == text@,
        r.model@ == "mock"@,
        r.provider@ == "mock"@,
        r.usage == Some(
            LlmUsage {
                prompt_tokens: 0,
                completion_tokens: 0,
                total_tokens: 0,
                cache_read_tokens: None,
                cache_write_tokens: None,
            },
        ),
        r.tool_calls@.len() == 0,
        r.finish_reason == FinishReason::Stop,
        r.response_id is None,
{
    LlmResponse {
        content: text.to_owned(),
        model: "mock".to_owned(),
        usage: Some(
            LlmUsage {
                prompt_tokens: 0,
                completion_tokens: 0,
                total_tokens: 0,
                cache_read_tokens: None,
                cache_write_tokens: None,
            },
        ),
        tool_calls: Vec::new(),
        finish_reason: FinishReason::Stop,
        provider: "mock".to_owned(),
        response_id: None,
    }
}

/// The contents of an answer.
pub open spec fn answer_view(r: Result<LlmResponse, LlmError>) -> Result<
    (Seq<char>, Seq<(Seq<char>, Seq<char>, Seq<char>)>, FinishReason, Option<LlmUsage>, Seq<char>, Seq<char>, Option<Seq<char>>),
    LlmError,
> {
    match r {
        Ok(resp) => Ok(
            (
                resp.content@,
                resp.tool_calls@.map_values(|c: ToolCall| (c.call_id@, c.name@, c.arguments@)),
                resp.finish_reason,
                resp.usage,
                resp.model@,
                resp.provider@,
                resp.response_id.deep_view(),
            ),
        ),
        Err(e) => Err(e),
    }
}

fn copy_answer(r: &Result<LlmResponse, LlmError>) -> (c: Result<LlmResponse, LlmError>)
    ensures
        answer_view(c) == answer_view(*r),
{
    match r {
        Err(e) => Err(copy_llm_error(e)),
        Ok(resp) => {
            let mut calls: Vec<ToolCall> = Vec::new();
            let mut i: usize = 0;
            while i < resp.tool_calls.len()
                invariant
                    i <= resp.tool_calls.len(),
                    calls@.len() == i,
                    forall|j: int|
                        0 <= j < i ==> (#[trigger] calls@[j]).call_id@ == resp.tool_calls@[j].call_id@
                            && calls@[j].name@ == resp.tool_calls@[j].name@ && calls@[j].arguments@
                            == resp.tool_calls@[j].arguments@,
                decreases resp.tool_calls.len() - i,
            {
                let t = &resp.tool_calls[i];
                calls.push(ToolCall { call_id: t.call_id.clone(), name: t.name.clone(), arguments: t.arguments.clone() });
                i = i + 1;
            }
            assert(calls@.map_values(|c: ToolCall| (c.call_id@, c.name@, c.arguments@)) =~= resp.tool_calls@.map_values(
                |c: ToolCall| (c.call_id@, c.name@, c.arguments@),
            ));
            let response_id = match &resp.response_id {
                Some(id) => Some(id.clone()),
                None => None,
            };
            Ok(
                LlmResponse {
                    content: resp.content.clone(),
                    tool_calls: calls,
                    finish_reason: resp.finish_reason,
                    usage: resp.usage,
                    model: resp.model.clone(),
                    provider: resp.provider.clone(),
                    response_id,
                },
            )
        },
    }
}

fn copy_llm_error(e: &LlmError) -> (c: LlmError)
    ensures
        c == *e,
{
    match e {
        LlmError::RateLimit => LlmError::RateLimit,
        LlmError::Timeout => LlmError::Timeout,
        LlmError::AuthError => LlmError::AuthError,
        LlmError::ProviderDown => LlmError::ProviderDown,
        LlmError::InvalidRequest(m) => LlmError::InvalidRequest(m.clone()),
        LlmError::InvalidResponse(m) => LlmError::InvalidResponse(m.clone()),
        LlmError::UnsupportedCapability { provider, capability } => LlmError::UnsupportedCapability {
            provider: provider.clone(),
            capability: capability.clone(),
        },
        LlmError::Transport(m) => LlmError::Transport(m.clone()),
        LlmError::Internal(m) => LlmError::Internal(m.clone()),
    }
}

/// The answer a script with these queued answers and this fixed answer
/// gives to its `i`-th request (counting from 0): the `i`-th queued answer
/// while the queue lasts, then the fixed one.
pub open spec fn scripted_answer(
    queued: Seq<Result<LlmResponse, LlmError>>,
    fallback: Result<LlmResponse, LlmError>,
    i: int,
) -> Result<LlmResponse, LlmError> {
    if i < queued.len() {
        queued[i]
    } else {
        fallback
    }
}

/// One request took a script with queue `q` and fixed answer `f` to queue
/// `q2` and fixed answer `f2`, answering `a`: the first queued answer, which
/// leaves the queue, or else (a copy of) the fixed answer.
pub open spec fn serves_next(
    q: Seq<Result<LlmResponse, LlmError>>,
    f: Result<LlmResponse, LlmError>,
    a: Result<LlmResponse, LlmError>,
    q2: Seq<Result<LlmResponse, LlmError>>,
    f2: Result<LlmResponse, LlmError>,
) -> bool {
    &&& f2 == f
    &&& if q.len() > 0 {
        a == q[0] && q2 == q.drop_first()
    } else {
        answer_view(a) == answer_view(f) && q2.len() == 0
    }
}

/// What is left of the queue after `i` requests.
proof fn lemma_queue_after(
    queues: Seq<Seq<Result<LlmResponse, LlmError>>>,
    fallback: Result<LlmResponse, LlmError>,
    answers: Seq<Result<LlmResponse, LlmError>>,
    i: int,
)
    requires
        queues.len() == answers.len() + 1,
        forall|j: int|
            0 <= j < answers.len() ==> serves_next(queues[j], fallback, #[trigger] answers[j], queues[j + 1], fallback),
        0 <= i <= answers.len(),
    ensures
        queues[i] == if i <= queues[0].len() {
            queues[0].skip(i)
        } else {
            Seq::<Result<LlmResponse, LlmError>>::empty()
        },
    decreases i,
{
    if i > 0 {
        lemma_queue_after(queues, fallback, answers, i - 1);
        assert(serves_next(queues[i - 1], fallback, answers[i - 1], queues[i], fallback));
        if i - 1 < queues[0].len() {
            assert(queues[0].skip(i - 1).drop_first() =~= queues[0].skip(i));
        } else if i - 1 == queues[0].len() {
            assert(queues[0].skip(i - 1) =~= Seq::<Result<LlmResponse, LlmError>>::empty());
        }
    } else {
        assert(queues[0].skip(0) =~= queues[0]);
    }
}

/// A script answers its requests in order: over a run of requests with no
/// change of the fixed answer, the `i`-th request gets the `i`-th queued
/// answer while the queue lasts, and the fixed answer after that.
pub proof fn lemma_script_answers_in_order(
    queues: Seq<Seq<Result<LlmResponse, LlmError>>>,
    fallback: Result<LlmResponse, LlmError>,
    answers: Seq<Result<LlmResponse, LlmError>>,
)
    requires
        queues.len() == answers.len() + 1,
        forall|j: int|
            0 <= j < answers.len() ==> serves_next(queues[j], fallback, #[trigger] answers[j], queues[j + 1], fallback),
    ensures
        forall|i: int|
            0 <= i < answers.len() ==> answer_view(#[trigger] answers[i]) == answer_view(
                scripted_answer(queues[0], fallback, i),
            ),
{
    assert forall|i: int| 0 <= i < answers.len() implies answer_view(#[trigger] answers[i]) == answer_view(
        scripted_answer(queues[0], fallback, i),
    ) by {
        lemma_queue_after(queues, fallback, answers, i);
        assert(serves_next(queues[i], fallback, answers[i], queues[i + 1], fallback));
    }
}

/// The mock provider's script: queued answers, then a fixed one.
pub struct ResponseScript {
    response: Result<LlmResponse, LlmError>,
    sequence: Vec<Result<LlmResponse, LlmError>>,
}

impl ResponseScript {
    /// The answers still queued.
    pub closed spec fn queued(&self) -> Seq<Result<LlmResponse, LlmError>> {
        self.sequence@
    }

    /// The answer once the queue is empty.
    pub closed spec fn fallback(&self) -> Result<LlmResponse, LlmError> {
        self.response
    }

    /// Always `response`.
    pub fn new(response: Result<LlmResponse, LlmError>) -> (r: Self)
        ensures
            r.queued().len() == 0,
            r.fallback() == response,
    {
        ResponseScript { response, sequence: Vec::new() }
    }

    /// `responses` in order, then the default answer "mock".
    pub fn with_tool_call_sequence(responses: Vec<Result<LlmResponse, LlmError>>) -> (r: Self)
        ensures
            r.queued() == responses@,
            r.fallback() matches Ok(d) && d.content@ == "mock"@ && d.model@ == "mock"@
                && d.finish_reason == FinishReason::Stop,
    {
        ResponseScript { response: Ok(default_response("mock")), sequence: responses }
    }

    /// Always the default answer with this text.
    pub fn with_text(text: &str) -> (r: Self)
        ensures
            r.queued().len() == 0,
            r.fallback() matches Ok(d) && d.content@ == text@ && d.finish_reason == FinishReason::Stop,
    {
        Self::new(Ok(default_response(text)))
    }

    /// Replaces the answer given once the queue is empty.
    pub fn set_response(&mut self, response: Result<LlmResponse, LlmError>)
        ensures
            final(self).fallback() == response,
            final(self).queued() == old(self).queued(),
    {
        self.response = response;
    }

    /// The next answer: the first queued one, which leaves the queue, or else
    /// the fixed answer.
    pub fn next_response(&mut self) -> (r: Result<LlmResponse, LlmError>)
        ensures
            serves_next(old(self).queued(), old(self).fallback(), r, final(self).queued(), final(self).fallback()),
    {
        if self.sequence.len() > 0 {
            let r = self.sequence.remove(0);
            assert(self.sequence@ =~= old(self).queued().drop_first());
            r
        } else {
            copy_answer(&self.response)
        }
    }
}

} // verus!

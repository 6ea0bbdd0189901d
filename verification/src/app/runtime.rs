//! One agent turn: validate the user's message, resolve the session, persist
//! the message, load the history, then alternate model calls and tool
//! executions until the model stops or the round limit is reached.
//!
//! The turn is a state machine. Each call of [`AgentTurn::step`] takes the
//! outcome of the previous action (an event) and returns the next action
//! (a store call, a model call, a tool execution, or the turn's result). The
//! caller performs the actions; every decision is taken here.
use std::sync::Arc;
use vstd::prelude::*;
use crate::app::copy::{copy_chat_messages, copy_tool_calls, copy_tool_specs};
use crate::domain::ports::{
    AgentError, ChatMessage, ChatMessageView, FinishReason, LlmError, LlmResponse, StoreError,
    StoredMessage, ToolCall, ToolCallView, ToolResult, ToolSpec, ToolSpecView,
};
use crate::text::{is_blank, is_blank_str};

verus! {

/// Most model calls one turn makes.
pub const MAX_TOOL_ROUNDS: usize = 10;

/// How many stored messages a turn loads as history.
pub const HISTORY_LIMIT: i64 = 50;

/// The system prompt that opens every conversation sent to the model.
pub open spec fn system_prompt() -> Seq<char> {
    "You are a helpful assistant."@
}

fn system_prompt_text() -> (s: String)
    ensures
        s@ == system_prompt(),
{
    "You are a helpful assistant.".to_owned()
}

/// The reply of a completed turn.
#[derive(Debug, Clone, PartialEq, Eq)]
pub struct HandleMessageResult {
    pub session_id: String,
    pub reply: String,
}

/// The agent: a model, a message store and a tool runtime. Each turn it
/// runs is an [`AgentTurn`].
pub struct AgentRuntime<L: ?Sized, M: ?Sized, T: ?Sized> {
    llm_provider: Arc<L>,
    message_store: Arc<M>,
    tool_runtime: Arc<T>,
}

impl<L: ?Sized, M: ?Sized, T: ?Sized> AgentRuntime<L, M, T> {
    pub closed spec fn parts(&self) -> (Arc<L>, Arc<M>, Arc<T>) {
        (self.llm_provider, self.message_store, self.tool_runtime)
    }

    pub fn new(llm_provider: Arc<L>, message_store: Arc<M>, tool_runtime: Arc<T>) -> (r: Self)
        ensures
            r.parts() == (llm_provider, message_store, tool_runtime),
    {
        AgentRuntime { llm_provider, message_store, tool_runtime }
    }

    pub fn llm_provider(&self) -> (r: &Arc<L>)
        ensures
            *r == self.parts().0,
    {
        &self.llm_provider
    }

    pub fn message_store(&self) -> (r: &Arc<M>)
        ensures
            *r == self.parts().1,
    {
        &self.message_store
    }

    pub fn tool_runtime(&self) -> (r: &Arc<T>)
        ensures
            *r == self.parts().2,
    {
        &self.tool_runtime
    }
}

/// What the caller reports back to the turn.
pub enum TurnEvent {
    /// The turn starts: who speaks, in which session (if any), and what.
    Start { user_id: String, session_id: Option<String>, user_message: String },
    /// Outcome of `ResolveDefaultSession`.
    SessionResolved(Result<String, StoreError>),
    /// Outcome of `SaveMessage`.
    MessageSaved(Result<String, StoreError>),
    /// Outcome of `LoadHistory`.
    HistoryLoaded(Result<Vec<StoredMessage>, StoreError>),
    /// Outcome of `ListTools`.
    ToolsListed(Vec<ToolSpec>),
    /// Outcome of `CallLlm`.
    LlmReplied(Result<LlmResponse, LlmError>),
    /// Outcome of `EncodeToolCalls`: the JSON text, or the encoder's error text.
    ToolCallsEncoded(Result<String, String>),
    /// Outcome of `ExecuteTool`.
    ToolExecuted(Result<ToolResult, AgentError>),
}

/// What the turn asks the caller to do next.
pub enum TurnAction {
    /// Find or create the user's default session.
    ResolveDefaultSession { user_id: String },
    /// Store a message of the session.
    SaveMessage { session_id: String, role: String, content: String },
    /// Load up to `limit` messages of the session.
    LoadHistory { session_id: String, limit: i64 },
    /// List the tools the tool runtime offers.
    ListTools,
    /// Ask the model for the next reply.
    CallLlm { messages: Vec<ChatMessage>, tools: Vec<ToolSpec> },
    /// Encode the model's tool calls as JSON text.
    EncodeToolCalls { tool_calls: Vec<ToolCall> },
    /// Run one tool.
    ExecuteTool { name: String, arguments: String },
    /// The turn is over.
    Finish(Result<HandleMessageResult, AgentError>),
}

/// Where the turn stands.
#[derive(Debug, Clone, Copy, PartialEq, Eq)]
pub enum TurnPhase {
    Ready,
    ResolvingSession,
    SavingUserMessage,
    LoadingHistory,
    ListingTools,
    AwaitingLlm,
    EncodingToolCalls,
    SavingToolCalls,
    ExecutingTool,
    SavingToolResult,
    SavingReply,
    Finished,
}

/// The state of one agent turn.
pub struct AgentTurn {
    phase: TurnPhase,
    user_id: String,
    user_message: String,
    session_id: String,
    messages: Vec<ChatMessage>,
    tools: Vec<ToolSpec>,
    rounds: usize,
    pending: Vec<ToolCall>,
    next_call: usize,
    tool_message: Option<ChatMessage>,
    reply: String,
}

/// The contents of a turn's state.
pub struct AgentTurnView {
    pub phase: TurnPhase,
    pub user_id: Seq<char>,
    pub user_message: Seq<char>,
    pub session_id: Seq<char>,
    pub messages: Seq<ChatMessageView>,
    pub tools: Seq<ToolSpecView>,
    pub rounds: nat,
    pub pending: Seq<ToolCallView>,
    pub next_call: nat,
    pub tool_message: Option<ChatMessageView>,
    pub reply: Seq<char>,
}

impl View for AgentTurn {
    type V = AgentTurnView;

    closed spec fn view(&self) -> AgentTurnView {
        AgentTurnView {
            phase: self.phase,
            user_id: self.user_id@,
            user_message: self.user_message@,
            session_id: self.session_id@,
            messages: self.messages.deep_view(),
            tools: self.tools.deep_view(),
            rounds: self.rounds as nat,
            pending: self.pending.deep_view(),
            next_call: self.next_call as nat,
            tool_message: self.tool_message.deep_view(),
            reply: self.reply@,
        }
    }
}

/// A stored message as a conversation message (no tool data).
pub open spec fn history_message(m: StoredMessage) -> ChatMessageView {
    ChatMessageView { role: m.role@, content: m.content@, tool_calls: None, tool_call_id: None }
}

/// The conversation a turn sends first: the system prompt, then the history.
pub open spec fn opening_conversation(history: Seq<StoredMessage>) -> Seq<ChatMessageView> {
    seq![ChatMessageView { role: "system"@, content: system_prompt(), tool_calls: None, tool_call_id: None }]
        + history.map_values(|m: StoredMessage| history_message(m))
}

/// The opening conversation is the system prompt followed by the stored
/// messages in order, each with its role and content unchanged and no tool
/// data.
pub proof fn lemma_opening_conversation_keeps_history(history: Seq<StoredMessage>)
    ensures
        opening_conversation(history).len() == history.len() + 1,
        opening_conversation(history)[0].role == "system"@,
        opening_conversation(history)[0].content == system_prompt(),
        forall|i: int|
            0 <= i < history.len() ==> {
                &&& (#[trigger] opening_conversation(history)[i + 1]).role == history[i].role@
                &&& opening_conversation(history)[i + 1].content == history[i].content@
                &&& opening_conversation(history)[i + 1].tool_calls is None
                &&& opening_conversation(history)[i + 1].tool_call_id is None
            },
{
    assert forall|i: int| 0 <= i < history.len() implies opening_conversation(history)[i + 1] == history_message(
        history[i],
    ) by {}
}

/// The assistant message that records the model's tool calls.
pub open spec fn tool_calls_message(calls: Seq<ToolCallView>) -> ChatMessageView {
    ChatMessageView { role: "assistant"@, content: Seq::empty(), tool_calls: Some(calls), tool_call_id: None }
}

/// The id a tool message answers: the one the tool reported, or else the
/// model's call id.
pub open spec fn answered_call_id(result: ToolResult, call: ToolCallView) -> Seq<char> {
    if result.call_id@.len() == 0 {
        call.call_id
    } else {
        result.call_id@
    }
}

/// The tool message that carries a tool's output back to the model.
pub open spec fn tool_output_message(result: ToolResult, call: ToolCallView) -> ChatMessageView {
    ChatMessageView {
        role: "tool"@,
        content: result.content@,
        tool_calls: None,
        tool_call_id: Some(answered_call_id(result, call)),
    }
}

/// The session a caller named, unless it named none or a blank one.
pub open spec fn given_session(s: Option<String>) -> Option<Seq<char>> {
    match s {
        Some(id) => if is_blank(id@) {
            None
        } else {
            Some(id@)
        },
        None => None,
    }
}

/// `a` is the request to save `content` under `role` in session `session`.
pub open spec fn is_save(a: TurnAction, session: Seq<char>, role: Seq<char>, content: Seq<char>) -> bool {
    a matches TurnAction::SaveMessage { session_id, role: r, content: c } && session_id@ == session && r@
        == role && c@ == content
}

/// `a` ends the turn with an invalid-input error carrying `msg`.
pub open spec fn is_invalid_input_finish(a: TurnAction, msg: Seq<char>) -> bool {
    a matches TurnAction::Finish(Err(AgentError::InvalidInput(m))) && m@ == msg
}

/// The phase a turn is in, in a form `step` can demand of its event.
pub open spec fn event_fits(phase: TurnPhase, e: TurnEvent) -> bool {
    match phase {
        TurnPhase::Ready => e is Start,
        TurnPhase::ResolvingSession => e is SessionResolved,
        TurnPhase::SavingUserMessage => e is MessageSaved,
        TurnPhase::LoadingHistory => e is HistoryLoaded,
        TurnPhase::ListingTools => e is ToolsListed,
        TurnPhase::AwaitingLlm => e is LlmReplied,
        TurnPhase::EncodingToolCalls => e is ToolCallsEncoded,
        TurnPhase::SavingToolCalls => e is MessageSaved,
        TurnPhase::ExecutingTool => e is ToolExecuted,
        TurnPhase::SavingToolResult => e is MessageSaved,
        TurnPhase::SavingReply => e is MessageSaved,
        TurnPhase::Finished => false,
    }
}

/// After the model's tool calls and the outputs so far are recorded in `n`:
/// run the next tool, or call the model again, or give up at the limit.
pub open spec fn continues_rounds(o: AgentTurnView, n: AgentTurnView, a: TurnAction) -> bool {
    if n.next_call < n.pending.len() {
        &&& n.phase == TurnPhase::ExecutingTool
        &&& n.rounds == o.rounds
        &&& a matches TurnAction::ExecuteTool { name, arguments } && name@ == n.pending[n.next_call as int].name
            && arguments@ == n.pending[n.next_call as int].arguments
    } else if o.rounds < MAX_TOOL_ROUNDS {
        &&& n.phase == TurnPhase::AwaitingLlm
        &&& n.rounds == o.rounds + 1
        &&& a matches TurnAction::CallLlm { messages, tools } && messages.deep_view() == n.messages
            && tools.deep_view() == n.tools
    } else {
        &&& n.phase == TurnPhase::Finished
        &&& n.rounds == o.rounds
        &&& is_invalid_input_finish(a, "max tool rounds exceeded"@)
    }
}

/// Phases before the first model call.
pub open spec fn is_opening_phase(p: TurnPhase) -> bool {
    ||| p == TurnPhase::Ready
    ||| p == TurnPhase::ResolvingSession
    ||| p == TurnPhase::SavingUserMessage
    ||| p == TurnPhase::LoadingHistory
    ||| p == TurnPhase::ListingTools
}

/// The step that records a saved tool step: the encoded calls or a tool's
/// output was stored.
pub open spec fn saves_tool_step(phase: TurnPhase, event: TurnEvent) -> bool {
    &&& event matches TurnEvent::MessageSaved(Ok(_))
    &&& (phase == TurnPhase::SavingToolCalls || phase == TurnPhase::SavingToolResult)
}

/// How far a turn is from its end, compared lexicographically: model calls
/// still allowed, stage within the round, tool work left in the round.
pub open spec fn turn_measure(v: AgentTurnView) -> (int, int, int) {
    let left = v.pending.len() - v.next_call;
    match v.phase {
        TurnPhase::Ready => (MAX_TOOL_ROUNDS + 1, 5, 0),
        TurnPhase::ResolvingSession => (MAX_TOOL_ROUNDS + 1, 4, 0),
        TurnPhase::SavingUserMessage => (MAX_TOOL_ROUNDS + 1, 3, 0),
        TurnPhase::LoadingHistory => (MAX_TOOL_ROUNDS + 1, 2, 0),
        TurnPhase::ListingTools => (MAX_TOOL_ROUNDS + 1, 1, 0),
        TurnPhase::AwaitingLlm => (MAX_TOOL_ROUNDS - v.rounds, 3, 0),
        TurnPhase::EncodingToolCalls => (MAX_TOOL_ROUNDS - v.rounds, 2, 0),
        TurnPhase::SavingToolCalls => (MAX_TOOL_ROUNDS - v.rounds, 1, 0),
        TurnPhase::SavingReply => (MAX_TOOL_ROUNDS - v.rounds, 1, 0),
        TurnPhase::ExecutingTool => (MAX_TOOL_ROUNDS - v.rounds, 0, 2 * left),
        TurnPhase::SavingToolResult => (MAX_TOOL_ROUNDS - v.rounds, 0, 2 * left - 1),
        TurnPhase::Finished => (0, 0, 0),
    }
}

/// Lexicographic order on the measure; its components never go below zero.
pub open spec fn measure_below(x: (int, int, int), y: (int, int, int)) -> bool {
    &&& 0 <= x.0 && 0 <= x.1 && 0 <= x.2
    &&& (x.0 < y.0 || (x.0 == y.0 && x.1 < y.1) || (x.0 == y.0 && x.1 == y.1 && x.2 < y.2))
}

/// How one step moves the round counter: up by one exactly when the step
/// asks the model, never past the limit.
pub open spec fn counts_round(o: AgentTurnView, n: AgentTurnView, a: TurnAction) -> bool {
    &&& n.rounds <= MAX_TOOL_ROUNDS
    &&& (a is CallLlm ==> n.rounds == o.rounds + 1)
    &&& (!(a is CallLlm) ==> n.rounds == o.rounds)
}

/// The number of model calls among `actions`.
pub open spec fn model_calls(actions: Seq<TurnAction>) -> nat
    decreases actions.len(),
{
    if actions.len() == 0 {
        0
    } else {
        model_calls(actions.drop_last()) + if actions.last() is CallLlm {
            1nat
        } else {
            0nat
        }
    }
}

/// A turn asks the model at most `MAX_TOOL_ROUNDS` times: along any run of
/// steps from a fresh turn (`states[i + 1]` and `actions[i]` being what the
/// step from `states[i]` produced), the model calls made so far are the
/// round counter, which never exceeds the limit.
pub proof fn lemma_model_calls_bounded(states: Seq<AgentTurnView>, actions: Seq<TurnAction>)
    requires
        states.len() == actions.len() + 1,
        states[0].rounds == 0,
        forall|i: int| 0 <= i < actions.len() ==> counts_round(states[i], states[i + 1], #[trigger] actions[i]),
    ensures
        model_calls(actions) == states.last().rounds,
        model_calls(actions) <= MAX_TOOL_ROUNDS,
    decreases actions.len(),
{
    if actions.len() > 0 {
        let n = actions.len() - 1;
        assert(counts_round(states[n], states[n + 1], actions[n]));
        lemma_model_calls_bounded(states.drop_last(), actions.drop_last());
        assert(states.drop_last().last() == states[n]);
    }
}

impl AgentTurn {
    /// Internal consistency of a turn's state.
    pub closed spec fn wf(&self) -> bool {
        &&& self.counts_ok()
        &&& (is_opening_phase(self.phase) ==> self.rounds == 0)
        &&& (self.phase == TurnPhase::AwaitingLlm ==> self.rounds >= 1)
        &&& (self.phase == TurnPhase::ExecutingTool ==> self.next_call < self.pending.len())
        &&& (self.phase == TurnPhase::SavingToolResult ==> self.next_call < self.pending.len()
            && self.tool_message is Some)
    }

    /// The round and call counters are within bounds.
    closed spec fn counts_ok(&self) -> bool {
        &&& self.rounds <= MAX_TOOL_ROUNDS
        &&& self.next_call <= self.pending.len()
    }

    /// A turn that has not started.
    pub fn new() -> (t: AgentTurn)
        ensures
            t.wf(),
            t@ == (AgentTurnView {
                phase: TurnPhase::Ready,
                user_id: Seq::empty(),
                user_message: Seq::empty(),
                session_id: Seq::empty(),
                messages: Seq::empty(),
                tools: Seq::empty(),
                rounds: 0,
                pending: Seq::empty(),
                next_call: 0,
                tool_message: None,
                reply: Seq::empty(),
            }),
    {
        let t = AgentTurn {
            phase: TurnPhase::Ready,
            user_id: String::new(),
            user_message: String::new(),
            session_id: String::new(),
            messages: Vec::new(),
            tools: Vec::new(),
            rounds: 0,
            pending: Vec::new(),
            next_call: 0,
            tool_message: None,
            reply: String::new(),
        };
        assert(t.messages.deep_view() =~= Seq::<ChatMessageView>::empty());
        assert(t.tools.deep_view() =~= Seq::<ToolSpecView>::empty());
        assert(t.pending.deep_view() =~= Seq::<ToolCallView>::empty());
        t
    }

    /// Whether `step` accepts `event` now.
    pub fn expects(&self, event: &TurnEvent) -> (b: bool)
        ensures
            b == event_fits(self@.phase, *event),
    {
        match self.phase {
            TurnPhase::Ready => matches!(event, TurnEvent::Start { .. }),
            TurnPhase::ResolvingSession => matches!(event, TurnEvent::SessionResolved(_)),
            TurnPhase::SavingUserMessage => matches!(event, TurnEvent::MessageSaved(_)),
            TurnPhase::LoadingHistory => matches!(event, TurnEvent::HistoryLoaded(_)),
            TurnPhase::ListingTools => matches!(event, TurnEvent::ToolsListed(_)),
            TurnPhase::AwaitingLlm => matches!(event, TurnEvent::LlmReplied(_)),
            TurnPhase::EncodingToolCalls => matches!(event, TurnEvent::ToolCallsEncoded(_)),
            TurnPhase::SavingToolCalls => matches!(event, TurnEvent::MessageSaved(_)),
            TurnPhase::ExecutingTool => matches!(event, TurnEvent::ToolExecuted(_)),
            TurnPhase::SavingToolResult => matches!(event, TurnEvent::MessageSaved(_)),
            TurnPhase::SavingReply => matches!(event, TurnEvent::MessageSaved(_)),
            TurnPhase::Finished => false,
        }
    }

    /// Whether the turn is over.
    pub fn is_finished(&self) -> (b: bool)
        ensures
            b == (self@.phase == TurnPhase::Finished),
    {
        matches!(self.phase, TurnPhase::Finished)
    }

    fn finish(&mut self, result: Result<HandleMessageResult, AgentError>) -> (a: TurnAction)
        requires
            old(self).counts_ok(),
        ensures
            final(self).wf(),
            final(self)@ == (AgentTurnView { phase: TurnPhase::Finished, ..old(self)@ }),
            a == TurnAction::Finish(result),
    {
        self.phase = TurnPhase::Finished;
        TurnAction::Finish(result)
    }

    fn save_user_message(&mut self) -> (a: TurnAction)
        requires
            old(self).wf(),
            old(self).rounds == 0,
        ensures
            final(self).wf(),
            final(self)@ == (AgentTurnView { phase: TurnPhase::SavingUserMessage, ..old(self)@ }),
            is_save(a, old(self)@.session_id, "user"@, old(self)@.user_message),
    {
        self.phase = TurnPhase::SavingUserMessage;
        TurnAction::SaveMessage {
            session_id: self.session_id.clone(),
            role: "user".to_owned(),
            content: self.user_message.clone(),
        }
    }

    fn call_llm(&mut self) -> (a: TurnAction)
        requires
            old(self).counts_ok(),
            old(self).rounds < MAX_TOOL_ROUNDS,
        ensures
            final(self).wf(),
            final(self)@ == (AgentTurnView {
                phase: TurnPhase::AwaitingLlm,
                rounds: old(self)@.rounds + 1,
                ..old(self)@
            }),
            a matches TurnAction::CallLlm { messages, tools } && messages.deep_view() == old(self)@.messages
                && tools.deep_view() == old(self)@.tools,
    {
        self.phase = TurnPhase::AwaitingLlm;
        self.rounds = self.rounds + 1;
        TurnAction::CallLlm { messages: copy_chat_messages(&self.messages), tools: copy_tool_specs(&self.tools) }
    }

    /// Run the next pending tool, or start the next round, or stop at the limit.
    fn continue_rounds(&mut self) -> (a: TurnAction)
        requires
            old(self).counts_ok(),
        ensures
            final(self).wf(),
            continues_rounds(old(self)@, final(self)@, a),
            final(self)@.messages == old(self)@.messages,
            final(self)@.tools == old(self)@.tools,
            final(self)@.pending == old(self)@.pending,
            final(self)@.next_call == old(self)@.next_call,
            final(self)@.session_id == old(self)@.session_id,
            final(self)@.user_id == old(self)@.user_id,
            final(self)@.user_message == old(self)@.user_message,
            final(self)@.reply == old(self)@.reply,
            final(self)@.tool_message == old(self)@.tool_message,
    {
        if self.next_call < self.pending.len() {
            self.phase = TurnPhase::ExecutingTool;
            let call = &self.pending[self.next_call];
            TurnAction::ExecuteTool { name: call.name.clone(), arguments: call.arguments.clone() }
        } else if self.rounds < MAX_TOOL_ROUNDS {
            self.call_llm()
        } else {
            self.finish(Err(AgentError::InvalidInput("max tool rounds exceeded".to_owned())))
        }
    }

    fn open_conversation(&mut self, history: Vec<StoredMessage>)
        requires
            old(self).wf(),
        ensures
            final(self).wf(),
            final(self)@ == (AgentTurnView { messages: opening_conversation(history@), ..old(self)@ }),
    {
        let mut messages: Vec<ChatMessage> = Vec::new();
        messages.push(
            ChatMessage {
                role: "system".to_owned(),
                content: system_prompt_text(),
                tool_calls: None,
                tool_call_id: None,
            },
        );
        let mut i: usize = 0;
        while i < history.len()
            invariant
                i <= history.len(),
                messages@.len() == i + 1,
                messages@[0].deep_view() == opening_conversation(history@)[0],
                forall|j: int|
                    0 < j <= i ==> #[trigger] messages@[j].deep_view() == history_message(history@[j - 1]),
            decreases history.len() - i,
        {
            let item = &history[i];
            messages.push(
                ChatMessage {
                    role: item.role.clone(),
                    content: item.content.clone(),
                    tool_calls: None,
                    tool_call_id: None,
                },
            );
            i = i + 1;
        }
        assert(messages.deep_view() =~= opening_conversation(history@));
        self.messages = messages;
    }

    /// Advances the turn by one event and returns the next action.
    pub fn step(&mut self, event: TurnEvent) -> (action: TurnAction)
        requires
            old(self).wf(),
            event_fits(old(self)@.phase, event),
        ensures
            final(self).wf(),
            // Every step brings the turn closer to its end.
            measure_below(turn_measure(final(self)@), turn_measure(old(self)@)),
            // Each model call uses up one of the turn's rounds, and nothing else does.
            counts_round(old(self)@, final(self)@, action),
            // Only the last action of a turn finishes it.
            (action is Finish) == (final(self)@.phase == TurnPhase::Finished),
            !(event is Start) ==> final(self)@.user_id == old(self)@.user_id,
            // Once resolved, the session stays the same for the rest of the turn.
            !(event is Start) && !(event is SessionResolved) ==> final(self)@.session_id == old(self)@.session_id,
            // Once opened, the conversation only grows.
            !(event is HistoryLoaded) ==> old(self)@.messages.is_prefix_of(final(self)@.messages),
            // What each step leaves alone: the conversation and the tool
            // message change only when the history opens it or a tool step
            // is saved; the tools only when they are listed; the pending calls
            // only with a model reply; the call counter only with a model
            // reply or a saved tool step; the reply only with a model reply.
            !(event is HistoryLoaded) && !saves_tool_step(old(self)@.phase, event) ==> final(self)@.messages
                == old(self)@.messages,
            !(event is ToolsListed) ==> final(self)@.tools == old(self)@.tools,
            !(event is LlmReplied) ==> final(self)@.pending == old(self)@.pending,
            !(event is LlmReplied) && !saves_tool_step(old(self)@.phase, event) ==> final(self)@.next_call
                == old(self)@.next_call,
            !(event is LlmReplied) ==> final(self)@.reply == old(self)@.reply,
            !(event is Start) ==> final(self)@.user_message == old(self)@.user_message,
            !(event is ToolExecuted) && !saves_tool_step(old(self)@.phase, event) ==> final(self)@.tool_message
                == old(self)@.tool_message,
            // A turn starts by rejecting a blank message, or by saving it in the
            // given session, or by resolving the user's default session.
            event matches TurnEvent::Start { user_id, session_id, user_message } ==> {
                &&& final(self)@.user_id == user_id@
                &&& final(self)@.user_message == user_message@
                &&& if is_blank(user_message@) {
                    &&& final(self)@.phase == TurnPhase::Finished
                    &&& is_invalid_input_finish(action, "message content cannot be empty"@)
                } else if given_session(session_id) is Some {
                    &&& final(self)@.session_id == given_session(session_id)->0
                    &&& final(self)@.phase == TurnPhase::SavingUserMessage
                    &&& is_save(action, given_session(session_id)->0, "user"@, user_message@)
                } else {
                    &&& final(self)@.phase == TurnPhase::ResolvingSession
                    &&& action matches TurnAction::ResolveDefaultSession { user_id: u } && u@ == user_id@
                }
            },
            // The resolved default session receives the user's message.
            event matches TurnEvent::SessionResolved(r) ==> match r {
                Err(e) => final(self)@.phase == TurnPhase::Finished && action == TurnAction::Finish(
                    Err(AgentError::Store(e)),
                ),
                Ok(id) => {
                    &&& final(self)@.session_id == id@
                    &&& final(self)@.phase == TurnPhase::SavingUserMessage
                    &&& is_save(action, id@, "user"@, old(self)@.user_message)
                },
            },
            // Any failed save ends the turn with the store's error.
            event matches TurnEvent::MessageSaved(Err(e)) ==> final(self)@.phase == TurnPhase::Finished
                && action == TurnAction::Finish(Err(AgentError::Store(e))),
            // Once the user's message is saved, the history is loaded.
            event matches TurnEvent::MessageSaved(Ok(_)) && old(self)@.phase == TurnPhase::SavingUserMessage
                ==> {
                &&& final(self)@.phase == TurnPhase::LoadingHistory
                &&& action matches TurnAction::LoadHistory { session_id, limit } && session_id@
                    == old(self)@.session_id && limit == HISTORY_LIMIT
            },
            // The conversation opens with the system prompt, then the history in order.
            event matches TurnEvent::HistoryLoaded(r) ==> match r {
                Err(e) => final(self)@.phase == TurnPhase::Finished && action == TurnAction::Finish(
                    Err(AgentError::Store(e)),
                ),
                Ok(history) => {
                    &&& final(self)@.messages == opening_conversation(history@)
                    &&& final(self)@.phase == TurnPhase::ListingTools
                    &&& action is ListTools
                    // The system prompt first, then each stored message with its
                    // role and content unchanged.
                    &&& final(self)@.messages.len() == history@.len() + 1
                    &&& final(self)@.messages[0].role == "system"@
                    &&& final(self)@.messages[0].content == system_prompt()
                    &&& forall|i: int|
                        0 <= i < history@.len() ==> {
                            &&& (#[trigger] final(self)@.messages[i + 1]).role == history@[i].role@
                            &&& final(self)@.messages[i + 1].content == history@[i].content@
                            &&& final(self)@.messages[i + 1].tool_calls is None
                            &&& final(self)@.messages[i + 1].tool_call_id is None
                        }
                },
            },
            // The first model call carries the opening conversation and the tools.
            event matches TurnEvent::ToolsListed(tools) ==> {
                &&& final(self)@.tools == tools.deep_view()
                &&& final(self)@.rounds == 1
                &&& final(self)@.phase == TurnPhase::AwaitingLlm
                &&& action matches TurnAction::CallLlm { messages, tools: t } && messages.deep_view()
                    == old(self)@.messages && t.deep_view() == tools.deep_view()
            },
            // A model answer that stops is saved as the reply; one with tool
            // calls has its calls encoded for the store.
            event matches TurnEvent::LlmReplied(r) ==> match r {
                Err(e) => final(self)@.phase == TurnPhase::Finished && action == TurnAction::Finish(
                    Err(AgentError::Llm(e)),
                ),
                Ok(resp) => if resp.finish_reason == FinishReason::Stop {
                    &&& final(self)@.reply == resp.content@
                    &&& final(self)@.phase == TurnPhase::SavingReply
                    &&& is_save(action, old(self)@.session_id, "assistant"@, resp.content@)
                } else {
                    &&& final(self)@.pending == resp.tool_calls.deep_view()
                    &&& final(self)@.phase == TurnPhase::EncodingToolCalls
                    &&& action matches TurnAction::EncodeToolCalls { tool_calls } && tool_calls.deep_view()
                        == resp.tool_calls.deep_view()
                },
            },
            // The encoded tool calls are saved as an assistant message.
            event matches TurnEvent::ToolCallsEncoded(r) ==> match r {
                Err(m) => final(self)@.phase == TurnPhase::Finished && is_invalid_input_finish(
                    action,
                    "failed to encode tool_calls: "@ + m@,
                ),
                Ok(encoded) => {
                    &&& final(self)@.phase == TurnPhase::SavingToolCalls
                    &&& is_save(action, old(self)@.session_id, "assistant"@, encoded@)
                },
            },
            // With the tool calls recorded, the tools run in the order the model gave.
            event matches TurnEvent::MessageSaved(Ok(_)) && old(self)@.phase == TurnPhase::SavingToolCalls
                ==> {
                &&& final(self)@.messages == old(self)@.messages.push(tool_calls_message(old(self)@.pending))
                &&& final(self)@.next_call == 0
                &&& continues_rounds(old(self)@, final(self)@, action)
            },
            // A tool's output is saved, answering the call it belongs to.
            event matches TurnEvent::ToolExecuted(r) ==> match r {
                Err(e) => final(self)@.phase == TurnPhase::Finished && action == TurnAction::Finish(Err(e)),
                Ok(res) => {
                    &&& final(self)@.phase == TurnPhase::SavingToolResult
                    &&& final(self)@.tool_message == Some(
                        tool_output_message(res, old(self)@.pending[old(self)@.next_call as int]),
                    )
                    &&& is_save(action, old(self)@.session_id, "tool"@, res.content@)
                },
            },
            // The saved output joins the conversation; the next call follows.
            event matches TurnEvent::MessageSaved(Ok(_)) && old(self)@.phase == TurnPhase::SavingToolResult
                ==> {
                &&& old(self)@.tool_message matches Some(m) && final(self)@.messages
                    == old(self)@.messages.push(m)
                &&& final(self)@.next_call == old(self)@.next_call + 1
                &&& continues_rounds(old(self)@, final(self)@, action)
            },
            // Once the reply is saved the turn answers with it.
            event matches TurnEvent::MessageSaved(Ok(_)) && old(self)@.phase == TurnPhase::SavingReply ==> {
                &&& final(self)@.phase == TurnPhase::Finished
                &&& action matches TurnAction::Finish(Ok(res)) && res.session_id@ == old(self)@.session_id
                    && res.reply@ == old(self)@.reply
            },
    {
        match event {
            TurnEvent::Start { user_id, session_id, user_message } => {
                self.user_id = user_id;
                self.user_message = user_message;
                if is_blank_str(self.user_message.as_str()) {
                    return self.finish(
                        Err(AgentError::InvalidInput("message content cannot be empty".to_owned())),
                    );
                }
                match session_id {
                    Some(id) => {
                        if !is_blank_str(id.as_str()) {
                            self.session_id = id;
                            return self.save_user_message();
                        }
                    },
                    None => {},
                }
                self.phase = TurnPhase::ResolvingSession;
                TurnAction::ResolveDefaultSession { user_id: self.user_id.clone() }
            },
            TurnEvent::SessionResolved(r) => match r {
                Err(e) => self.finish(Err(AgentError::Store(e))),
                Ok(id) => {
                    self.session_id = id;
                    self.save_user_message()
                },
            },
            TurnEvent::MessageSaved(r) => match r {
                Err(e) => self.finish(Err(AgentError::Store(e))),
                Ok(_) => match self.phase {
                    TurnPhase::SavingUserMessage => {
                        self.phase = TurnPhase::LoadingHistory;
                        TurnAction::LoadHistory { session_id: self.session_id.clone(), limit: HISTORY_LIMIT }
                    },
                    TurnPhase::SavingToolCalls => {
                        let calls = copy_tool_calls(&self.pending);
                        self.messages.push(
                            ChatMessage {
                                role: "assistant".to_owned(),
                                content: String::new(),
                                tool_calls: Some(calls),
                                tool_call_id: None,
                            },
                        );
                        self.next_call = 0;
                        self.continue_rounds()
                    },
                    TurnPhase::SavingToolResult => {
                        let m = self.tool_message.take();
                        match m {
                            Some(m) => self.messages.push(m),
                            None => {},
                        }
                        self.next_call = self.next_call + 1;
                        self.continue_rounds()
                    },
                    _ => {
                        let reply = HandleMessageResult {
                            session_id: self.session_id.clone(),
                            reply: self.reply.clone(),
                        };
                        self.finish(Ok(reply))
                    },
                },
            },
            TurnEvent::HistoryLoaded(r) => match r {
                Err(e) => self.finish(Err(AgentError::Store(e))),
                Ok(history) => {
                    proof {
                        lemma_opening_conversation_keeps_history(history@);
                    }
                    self.open_conversation(history);
                    self.phase = TurnPhase::ListingTools;
                    TurnAction::ListTools
                },
            },
            TurnEvent::ToolsListed(tools) => {
                self.tools = tools;
                self.rounds = 0;
                self.call_llm()
            },
            TurnEvent::LlmReplied(r) => match r {
                Err(e) => self.finish(Err(AgentError::Llm(e))),
                Ok(resp) => {
                    if matches!(resp.finish_reason, FinishReason::Stop) {
                        self.reply = resp.content;
                        self.phase = TurnPhase::SavingReply;
                        TurnAction::SaveMessage {
                            session_id: self.session_id.clone(),
                            role: "assistant".to_owned(),
                            content: self.reply.clone(),
                        }
                    } else {
                        let calls = copy_tool_calls(&resp.tool_calls);
                        self.pending = resp.tool_calls;
                        self.next_call = 0;
                        self.phase = TurnPhase::EncodingToolCalls;
                        TurnAction::EncodeToolCalls { tool_calls: calls }
                    }
                },
            },
            TurnEvent::ToolCallsEncoded(r) => match r {
                Err(m) => self.finish(
                    Err(AgentError::InvalidInput("failed to encode tool_calls: ".to_owned().concat(m.as_str()))),
                ),
                Ok(encoded) => {
                    self.phase = TurnPhase::SavingToolCalls;
                    TurnAction::SaveMessage {
                        session_id: self.session_id.clone(),
                        role: "assistant".to_owned(),
                        content: encoded,
                    }
                },
            },
            TurnEvent::ToolExecuted(r) => match r {
                Err(e) => self.finish(Err(e)),
                Ok(res) => {
                    let call = &self.pending[self.next_call];
                    let call_id = if res.call_id.unicode_len() == 0 {
                        call.call_id.clone()
                    } else {
                        res.call_id.clone()
                    };
                    let content = res.content.clone();
                    self.tool_message = Some(
                        ChatMessage {
                            role: "tool".to_owned(),
                            content: res.content,
                            tool_calls: None,
                            tool_call_id: Some(call_id),
                        },
                    );
                    self.phase = TurnPhase::SavingToolResult;
                    TurnAction::SaveMessage {
                        session_id: self.session_id.clone(),
                        role: "tool".to_owned(),
                        content,
                    }
                },
            },
        }
    }
}

} // verus!

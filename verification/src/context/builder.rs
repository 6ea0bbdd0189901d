//! Turning a session's events and configuration into the model's input.
use vstd::prelude::*;
use crate::context::composer::{composed_prompt, SystemPromptComposer};
use crate::context::error::{outcome_view, ContextError, ContextErrorView};
use crate::context::section::{PromptSection, PromptSectionContext, RuntimeInfo, ToolPromptSpec};
use crate::context::sections::{DateTimeSection, IdentitySection, RuntimeSection, SafetySection, ToolsSection};
use crate::domain::events::EventEnvelope;
use crate::time::unix_time_now;

verus! {

/// A message as the model receives it.
#[derive(Debug, Clone, PartialEq, Eq)]
pub struct ModelMessage {
    pub role: String,
    pub content: String,
}

pub struct ModelMessageView {
    pub role: Seq<char>,
    pub content: Seq<char>,
}

impl DeepView for ModelMessage {
    type V = ModelMessageView;

    open spec fn deep_view(&self) -> ModelMessageView {
        ModelMessageView { role: self.role@, content: self.content@ }
    }
}

/// A messages outcome with the messages' and the error's contents.
pub open spec fn messages_view(r: Result<Vec<ModelMessage>, ContextError>) -> Result<
    Seq<ModelMessageView>,
    ContextErrorView,
> {
    match r {
        Ok(v) => Ok(v.deep_view()),
        Err(e) => Err(e.deep_view()),
    }
}

/// Token budget of one model call.
#[derive(Debug, Clone, Copy, PartialEq, Eq)]
pub struct TokenBudget {
    pub model_context_limit: u32,
    pub reserved_for_completion: u32,
    pub reserved_for_tool_loop: u32,
    pub reserved_for_system_prompt: u32,
}

impl Default for TokenBudget {
    fn default() -> (r: Self)
        ensures
            r.model_context_limit == 128_000,
            r.reserved_for_completion == 4_096,
            r.reserved_for_tool_loop == 0,
            r.reserved_for_system_prompt == 8_000,
    {
        TokenBudget {
            model_context_limit: 128_000,
            reserved_for_completion: 4_096,
            reserved_for_tool_loop: 0,
            reserved_for_system_prompt: 8_000,
        }
    }
}

/// Which part of the history goes to the model.
#[derive(Debug, Clone, Copy, PartialEq, Eq)]
pub enum HistoryPolicy {
    /// Keep the last N events.
    KeepRecentN(usize),
}

impl Default for HistoryPolicy {
    fn default() -> (r: Self)
        ensures
            r == HistoryPolicy::KeepRecentN(50),
    {
        HistoryPolicy::KeepRecentN(50)
    }
}

/// What a context is built from.
#[derive(Debug, Clone, PartialEq, Eq)]
pub struct ContextInput {
    /// Context of the prompt sections.
    pub prompt_ctx: PromptSectionContext,
    /// The session's events, ascending by sequence number.
    pub events: Vec<EventEnvelope>,
    /// The user's current message, if any.
    pub current_user_message: Option<ModelMessage>,
    pub token_budget: TokenBudget,
    pub history_policy: HistoryPolicy,
}

/// Notes on how a context was built.
#[derive(Debug, Clone, PartialEq, Eq)]
pub struct ContextDiagnostics {
    pub used_summary_event_id: Option<String>,
    pub dropped_event_ids: Vec<String>,
    pub estimated_prompt_tokens: Option<u32>,
    pub estimated_history_tokens: Option<u32>,
    pub budget_exceeded: bool,
    pub rebuild_system_prompt: bool,
}

/// Diagnostics that report nothing.
pub open spec fn empty_diagnostics(d: ContextDiagnostics) -> bool {
    &&& d.used_summary_event_id is None
    &&& d.dropped_event_ids@.len() == 0
    &&& d.estimated_prompt_tokens is None
    &&& d.estimated_history_tokens is None
    &&& !d.budget_exceeded
    &&& !d.rebuild_system_prompt
}

impl Default for ContextDiagnostics {
    fn default() -> (r: Self)
        ensures
            empty_diagnostics(r),
    {
        ContextDiagnostics {
            used_summary_event_id: None,
            dropped_event_ids: Vec::new(),
            estimated_prompt_tokens: None,
            estimated_history_tokens: None,
            budget_exceeded: false,
            rebuild_system_prompt: false,
        }
    }
}

/// The model's input: system prompt, messages and diagnostics.
#[derive(Debug, Clone, PartialEq, Eq)]
pub struct ContextOutput {
    pub system_prompt: String,
    pub messages: Vec<ModelMessage>,
    pub diagnostics: ContextDiagnostics,
}

/// Turns events and configuration into the model's input.
pub trait ContextBuilder {
    spec fn spec_system_prompt(&self, ctx: &PromptSectionContext) -> Result<Seq<char>, ContextErrorView>;

    spec fn spec_messages(&self, input: &ContextInput) -> Result<Seq<ModelMessageView>, ContextErrorView>;

    /// The system prompt alone (cacheable across turns).
    fn build_system_prompt(&self, ctx: &PromptSectionContext) -> (r: Result<String, ContextError>)
        ensures
            outcome_view(r) == self.spec_system_prompt(ctx),
    ;

    /// The history, mapped into model messages.
    fn build_messages(&self, input: &ContextInput) -> (r: Result<Vec<ModelMessage>, ContextError>)
        ensures
            messages_view(r) == self.spec_messages(input),
    ;

    /// System prompt and messages together; the system prompt's failure
    /// comes first.
    fn build(&self, input: &ContextInput) -> (r: Result<ContextOutput, ContextError>)
        ensures
            match r {
                Ok(out) => {
                    &&& self.spec_system_prompt(&input.prompt_ctx) == Ok::<Seq<char>, ContextErrorView>(
                        out.system_prompt@,
                    )
                    &&& self.spec_messages(input) == Ok::<Seq<ModelMessageView>, ContextErrorView>(
                        out.messages.deep_view(),
                    )
                    &&& empty_diagnostics(out.diagnostics)
                },
                Err(e) => match self.spec_system_prompt(&input.prompt_ctx) {
                    Err(f) => e.deep_view() == f,
                    Ok(_) => self.spec_messages(input) == Err::<Seq<ModelMessageView>, ContextErrorView>(
                        e.deep_view(),
                    ),
                },
            },
    {
        let system_prompt = match self.build_system_prompt(&input.prompt_ctx) {
            Ok(s) => s,
            Err(e) => return Err(e),
        };
        let messages = match self.build_messages(input) {
            Ok(m) => m,
            Err(e) => return Err(e),
        };
        Ok(ContextOutput { system_prompt, messages, diagnostics: ContextDiagnostics::default() })
    }
}

/// The context builder of the MVP: the prompt sections' composition, and the
/// current user message as the only message.
pub struct DefaultContextBuilder {
    composer: SystemPromptComposer,
}

impl DefaultContextBuilder {
    pub closed spec fn sections(&self) -> Seq<Box<dyn PromptSection>> {
        self.composer.sections()
    }

    pub fn new(sections: Vec<Box<dyn PromptSection>>) -> (r: Self)
        ensures
            r.sections() == sections@,
    {
        DefaultContextBuilder { composer: SystemPromptComposer::new(sections) }
    }

    /// A builder with the identity, safety, tools, runtime and date/time
    /// sections, in that order.
    pub fn with_default_sections() -> (r: Self)
        ensures
            r.sections().len() == 5,
            forall|ctx: &PromptSectionContext| {
                &&& r.sections()[0].spec_name() == "identity"@ && r.sections()[0].spec_order() == 10
                &&& r.sections()[0].spec_enabled(ctx)
                &&& r.sections()[0].spec_build(ctx) == IdentitySection.spec_build(ctx)
                &&& r.sections()[1].spec_name() == "safety"@ && r.sections()[1].spec_order() == 20
                &&& r.sections()[1].spec_enabled(ctx)
                &&& r.sections()[1].spec_build(ctx) == SafetySection.spec_build(ctx)
                &&& r.sections()[2].spec_name() == "tools"@ && r.sections()[2].spec_order() == 30
                &&& r.sections()[2].spec_enabled(ctx)
                &&& r.sections()[2].spec_build(ctx) == ToolsSection.spec_build(ctx)
                &&& r.sections()[3].spec_name() == "runtime"@ && r.sections()[3].spec_order() == 90
                &&& r.sections()[3].spec_enabled(ctx)
                &&& r.sections()[3].spec_build(ctx) == RuntimeSection.spec_build(ctx)
                &&& r.sections()[4].spec_name() == "datetime"@ && r.sections()[4].spec_order() == 100
                &&& r.sections()[4].spec_enabled(ctx)
                &&& r.sections()[4].spec_build(ctx) == DateTimeSection.spec_build(ctx)
            },
    {
        let sections: Vec<Box<dyn PromptSection>> = vec![
            Box::new(IdentitySection),
            Box::new(SafetySection),
            Box::new(ToolsSection),
            Box::new(RuntimeSection),
            Box::new(DateTimeSection),
        ];
        Self::new(sections)
    }

    /// A prompt context for these ids, zone, tools and runtime, at the
    /// current instant.
    pub fn mvp_prompt_ctx(
        tenant_id: String,
        user_id: String,
        agent_id: String,
        session_id: String,
        timezone: String,
        tools: Vec<ToolPromptSpec>,
        runtime_info: RuntimeInfo,
    ) -> (r: PromptSectionContext)
        ensures
            r.tenant_id@ == tenant_id@,
            r.user_id@ == user_id@,
            r.agent_id@ == agent_id@,
            r.session_id@ == session_id@,
            r.timezone@ == timezone@,
            r.tools@ == tools@,
            r.runtime_info == runtime_info,
    {
        // A clock beyond what 64-bit seconds hold counts as the epoch.
        let now: i64 = match unix_time_now() {
            Some(p) => p.0,
            None => 0,
        };
        PromptSectionContext {
            tenant_id,
            user_id,
            agent_id,
            session_id,
            timezone,
            tools,
            now,
            runtime_info,
        }
    }
}

impl ContextBuilder for DefaultContextBuilder {
    open spec fn spec_system_prompt(&self, ctx: &PromptSectionContext) -> Result<Seq<char>, ContextErrorView> {
        composed_prompt(self.sections(), ctx)
    }

    open spec fn spec_messages(&self, input: &ContextInput) -> Result<Seq<ModelMessageView>, ContextErrorView> {
        match input.current_user_message {
            Some(m) => Ok(seq![m.deep_view()]),
            None => Ok(Seq::empty()),
        }
    }

    /// Fails only when an enabled section fails.
    fn build_system_prompt(&self, ctx: &PromptSectionContext) -> (r: Result<String, ContextError>)
        ensures
            (forall|i: int|
                0 <= i < self.sections().len() && #[trigger] self.sections()[i].spec_enabled(ctx) ==> self.sections()[i].spec_build(
                    ctx,
                ) is Ok) ==> r is Ok,
    {
        self.composer.compose(ctx)
    }

    fn build_messages(&self, input: &ContextInput) -> (r: Result<Vec<ModelMessage>, ContextError>) {
        let mut msgs: Vec<ModelMessage> = Vec::new();
        match &input.current_user_message {
            Some(m) => {
                msgs.push(ModelMessage { role: m.role.clone(), content: m.content.clone() });
                assert(msgs.deep_view() =~= seq![m.deep_view()]);
            },
            None => {
                assert(msgs.deep_view() =~= Seq::<ModelMessageView>::empty());
            },
        }
        Ok(msgs)
    }
}

} // verus!

//! A prompt section and what it is built from.
use vstd::prelude::*;
use crate::context::error::{outcome_view, ContextError, ContextErrorView};

verus! {

/// One part of the system prompt. Sections are built in ascending `order`;
/// a disabled section is left out, and so is one whose text is blank.
///
/// The name, text, order and enablement are fixed by spec functions of the
/// same names, so that what a composer makes of a set of sections can be
/// stated exactly. An implementation states its own spec functions; the
/// defaults describe a nameless section with empty text, ordered at 100
/// and always enabled. A section is stable (cacheable) unless it says
/// otherwise.
pub trait PromptSection {
    open spec fn spec_name(&self) -> Seq<char> {
        Seq::empty()
    }

    open spec fn spec_build(&self, ctx: &PromptSectionContext) -> Result<Seq<char>, ContextErrorView> {
        Ok(Seq::empty())
    }

    open spec fn spec_order(&self) -> u16 {
        100
    }

    open spec fn spec_enabled(&self, ctx: &PromptSectionContext) -> bool {
        true
    }

    /// A short identifier of the section.
    fn name(&self) -> (r: &'static str)
        ensures
            r@ == self.spec_name(),
    ;

    /// The section's text for this context.
    fn build(&self, ctx: &PromptSectionContext) -> (r: Result<String, ContextError>)
        ensures
            outcome_view(r) == self.spec_build(ctx),
    ;

    /// Whether the text stays the same from turn to turn (cacheable); by
    /// default it does.
    fn is_stable(&self) -> (r: bool)
        default_ensures
            r,
    {
        true
    }

    /// Position of the section in the prompt; lower comes first.
    fn order(&self) -> (r: u16)
        ensures
            r == self.spec_order(),
    ;

    /// Whether the section takes part for this context.
    fn enabled(&self, ctx: &PromptSectionContext) -> (r: bool)
        ensures
            r == self.spec_enabled(ctx),
    ;
}

/// What sections are built from. `now` is the current instant in Unix
/// seconds (UTC); `timezone` is an IANA time zone name.
#[derive(Debug, Clone, PartialEq, Eq)]
pub struct PromptSectionContext {
    pub tenant_id: String,
    pub user_id: String,
    pub agent_id: String,
    pub session_id: String,
    pub timezone: String,
    pub tools: Vec<ToolPromptSpec>,
    pub now: i64,
    pub runtime_info: RuntimeInfo,
}

/// A tool as the prompt describes it.
#[derive(Debug, Clone, PartialEq, Eq)]
pub struct ToolPromptSpec {
    pub name: String,
    pub description: String,
}

/// The model and operating system the agent runs on.
#[derive(Debug, Clone, PartialEq, Eq)]
pub struct RuntimeInfo {
    pub model: String,
    pub os: String,
}

} // verus!

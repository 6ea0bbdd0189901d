//! The built-in prompt sections: identity, safety, tools, runtime and the
//! current date and time.
use vstd::prelude::*;
use crate::context::error::{outcome_view, ContextError, ContextErrorView};
use crate::context::section::{PromptSection, PromptSectionContext, ToolPromptSpec};
use crate::text::{join, joined};
use crate::time::{format_local_time, in_chrono_range, local_time_text, parse_timezone, tz_known};

verus! {

/// The `chrono` pattern the date/time section uses.
pub open spec fn minute_pattern() -> Seq<char> {
    "%Y-%m-%d %H:%M"@
}

/// The zone the date/time section shows: the context's zone when known,
/// else UTC.
pub open spec fn shown_zone(ctx: &PromptSectionContext) -> Seq<char> {
    if tz_known(ctx.timezone@) {
        ctx.timezone@
    } else {
        "UTC"@
    }
}

/// Text of the tools section for these tools.
pub open spec fn tools_text(tools: Seq<ToolPromptSpec>) -> Seq<char> {
    if tools.len() == 0 {
        "You have access to the following tools:\n- (none)"@
    } else {
        "You have access to the following tools:\n"@ + joined(
            tools.map_values(|t: ToolPromptSpec| tool_line(t)),
            "\n"@,
        )
    }
}

/// The line that lists one tool.
pub open spec fn tool_line(t: ToolPromptSpec) -> Seq<char> {
    "- "@ + t.name@ + ": "@ + t.description@
}

/// Who the assistant is.
pub struct IdentitySection;

/// When to reach for tools.
pub struct SafetySection;

/// Which tools are available.
pub struct ToolsSection;

/// How to answer.
pub struct RuntimeSection;

/// The current date and time in the user's time zone.
pub struct DateTimeSection;

impl PromptSection for IdentitySection {
    open spec fn spec_name(&self) -> Seq<char> {
        "identity"@
    }

    open spec fn spec_build(&self, ctx: &PromptSectionContext) -> Result<Seq<char>, ContextErrorView> {
        Ok("You are a helpful AI assistant."@)
    }

    open spec fn spec_order(&self) -> u16 {
        10
    }

    open spec fn spec_enabled(&self, ctx: &PromptSectionContext) -> bool {
        true
    }

    fn name(&self) -> (r: &'static str) {
        "identity"
    }

    fn build(&self, ctx: &PromptSectionContext) -> (r: Result<String, ContextError>) {
        Ok("You are a helpful AI assistant.".to_owned())
    }

    fn order(&self) -> (r: u16) {
        10
    }

    fn enabled(&self, ctx: &PromptSectionContext) -> (r: bool) {
        true
    }
}

impl PromptSection for SafetySection {
    open spec fn spec_name(&self) -> Seq<char> {
        "safety"@
    }

    open spec fn spec_build(&self, ctx: &PromptSectionContext) -> Result<Seq<char>, ContextErrorView> {
        Ok(
            "When the user asks about current events, time, or facts you're unsure about, use the appropriate tool."@,
        )
    }

    open spec fn spec_order(&self) -> u16 {
        20
    }

    open spec fn spec_enabled(&self, ctx: &PromptSectionContext) -> bool {
        true
    }

    fn name(&self) -> (r: &'static str) {
        "safety"
    }

    fn build(&self, ctx: &PromptSectionContext) -> (r: Result<String, ContextError>) {
        Ok(
            "When the user asks about current events, time, or facts you're unsure about, use the appropriate tool.".to_owned(),
        )
    }

    fn order(&self) -> (r: u16) {
        20
    }

    fn enabled(&self, ctx: &PromptSectionContext) -> (r: bool) {
        true
    }
}

impl PromptSection for ToolsSection {
    open spec fn spec_name(&self) -> Seq<char> {
        "tools"@
    }

    open spec fn spec_build(&self, ctx: &PromptSectionContext) -> Result<Seq<char>, ContextErrorView> {
        Ok(tools_text(ctx.tools@))
    }

    open spec fn spec_order(&self) -> u16 {
        30
    }

    open spec fn spec_enabled(&self, ctx: &PromptSectionContext) -> bool {
        true
    }

    fn name(&self) -> (r: &'static str) {
        "tools"
    }

    fn build(&self, ctx: &PromptSectionContext) -> (r: Result<String, ContextError>) {
        if ctx.tools.len() == 0 {
            return Ok("You have access to the following tools:\n- (none)".to_owned());
        }
        let mut lines: Vec<String> = Vec::new();
        let mut i: usize = 0;
        while i < ctx.tools.len()
            invariant
                i <= ctx.tools.len(),
                lines@.len() == i,
                forall|j: int| 0 <= j < i ==> #[trigger] lines@[j]@ == tool_line(ctx.tools@[j]),
            decreases ctx.tools.len() - i,
        {
            let tool = &ctx.tools[i];
            let line = "- ".to_owned().concat(tool.name.as_str()).concat(": ").concat(tool.description.as_str());
            lines.push(line);
            i = i + 1;
        }
        assert(lines@.map_values(|p: String| p@) =~= ctx.tools@.map_values(|t: ToolPromptSpec| tool_line(t)));
        let listing = join(&lines, "\n");
        Ok("You have access to the following tools:\n".to_owned().concat(listing.as_str()))
    }

    fn order(&self) -> (r: u16) {
        30
    }

    fn enabled(&self, ctx: &PromptSectionContext) -> (r: bool) {
        true
    }
}

impl PromptSection for RuntimeSection {
    open spec fn spec_name(&self) -> Seq<char> {
        "runtime"@
    }

    open spec fn spec_build(&self, ctx: &PromptSectionContext) -> Result<Seq<char>, ContextErrorView> {
        Ok("Be concise and helpful. Respond in the same language the user uses."@)
    }

    open spec fn spec_order(&self) -> u16 {
        90
    }

    open spec fn spec_enabled(&self, ctx: &PromptSectionContext) -> bool {
        true
    }

    fn name(&self) -> (r: &'static str) {
        "runtime"
    }

    fn build(&self, ctx: &PromptSectionContext) -> (r: Result<String, ContextError>) {
        Ok("Be concise and helpful. Respond in the same language the user uses.".to_owned())
    }

    fn order(&self) -> (r: u16) {
        90
    }

    fn enabled(&self, ctx: &PromptSectionContext) -> (r: bool) {
        true
    }
}

impl PromptSection for DateTimeSection {
    open spec fn spec_name(&self) -> Seq<char> {
        "datetime"@
    }

    /// "Current time: <local time> (<zone>)", in the context's zone when it
    /// is known and in UTC otherwise.
    open spec fn spec_build(&self, ctx: &PromptSectionContext) -> Result<Seq<char>, ContextErrorView> {
        match local_time_text(ctx.now, shown_zone(ctx), minute_pattern()) {
            Some(t) => Ok("Current time: "@ + t + " ("@ + shown_zone(ctx) + ")"@),
            None => Err(
                ContextErrorView::SectionBuildFailed {
                    section: "datetime"@,
                    message: "instant outside the representable range"@,
                },
            ),
        }
    }

    open spec fn spec_order(&self) -> u16 {
        100
    }

    open spec fn spec_enabled(&self, ctx: &PromptSectionContext) -> bool {
        true
    }

    fn name(&self) -> (r: &'static str) {
        "datetime"
    }

    /// Succeeds for every instant in `chrono`'s range.
    fn build(&self, ctx: &PromptSectionContext) -> (r: Result<String, ContextError>)
        ensures
            in_chrono_range(ctx.now as int) ==> r is Ok,
    {
        let zone: String = if parse_timezone(ctx.timezone.as_str()).is_ok() {
            ctx.timezone.clone()
        } else {
            "UTC".to_owned()
        };
        match format_local_time(ctx.now, zone.as_str(), "%Y-%m-%d %H:%M") {
            Some(t) => Ok(
                "Current time: ".to_owned().concat(t.as_str()).concat(" (").concat(zone.as_str()).concat(")"),
            ),
            None => Err(
                ContextError::SectionBuildFailed {
                    section: "datetime",
                    message: "instant outside the representable range".to_owned(),
                },
            ),
        }
    }

    /// The current time changes from turn to turn.
    fn is_stable(&self) -> (r: bool)
        ensures
            !r,
    {
        false
    }

    fn order(&self) -> (r: u16) {
        100
    }

    fn enabled(&self, ctx: &PromptSectionContext) -> (r: bool) {
        true
    }
}

} // verus!

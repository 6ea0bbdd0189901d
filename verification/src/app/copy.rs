//! Deep copies of the domain values whose contents the contracts speak of.
use vstd::prelude::*;
use crate::domain::ports::{ChatMessage, ToolCall, ToolSpec};

verus! {

pub fn copy_string_option(o: &Option<String>) -> (r: Option<String>)
    ensures
        r.deep_view() == o.deep_view(),
{
    match o {
        Some(s) => Some(s.clone()),
        None => None,
    }
}

pub fn copy_tool_call(c: &ToolCall) -> (r: ToolCall)
    ensures
        r.deep_view() == c.deep_view(),
{
    ToolCall { call_id: c.call_id.clone(), name: c.name.clone(), arguments: c.arguments.clone() }
}

pub fn copy_tool_calls(v: &Vec<ToolCall>) -> (r: Vec<ToolCall>)
    ensures
        r.deep_view() == v.deep_view(),
{
    let mut out: Vec<ToolCall> = Vec::new();
    let mut i: usize = 0;
    while i < v.len()
        invariant
            i <= v.len(),
            out@.len() == i,
            forall|j: int| 0 <= j < i ==> #[trigger] out@[j].deep_view() == v@[j].deep_view(),
        decreases v.len() - i,
    {
        out.push(copy_tool_call(&v[i]));
        i = i + 1;
    }
    assert(out.deep_view() =~= v.deep_view());
    out
}

pub fn copy_chat_message(m: &ChatMessage) -> (r: ChatMessage)
    ensures
        r.deep_view() == m.deep_view(),
{
    let calls = match &m.tool_calls {
        Some(c) => Some(copy_tool_calls(c)),
        None => None,
    };
    ChatMessage {
        role: m.role.clone(),
        content: m.content.clone(),
        tool_calls: calls,
        tool_call_id: copy_string_option(&m.tool_call_id),
    }
}

pub fn copy_chat_messages(v: &Vec<ChatMessage>) -> (r: Vec<ChatMessage>)
    ensures
        r.deep_view() == v.deep_view(),
{
    let mut out: Vec<ChatMessage> = Vec::new();
    let mut i: usize = 0;
    while i < v.len()
        invariant
            i <= v.len(),
            out@.len() == i,
            forall|j: int| 0 <= j < i ==> #[trigger] out@[j].deep_view() == v@[j].deep_view(),
        decreases v.len() - i,
    {
        out.push(copy_chat_message(&v[i]));
        i = i + 1;
    }
    assert(out.deep_view() =~= v.deep_view());
    out
}

pub fn copy_tool_spec(t: &ToolSpec) -> (r: ToolSpec)
    ensures
        r.deep_view() == t.deep_view(),
{
    ToolSpec { name: t.name.clone(), description: t.description.clone(), parameters: t.parameters.clone() }
}

pub fn copy_tool_specs(v: &Vec<ToolSpec>) -> (r: Vec<ToolSpec>)
    ensures
        r.deep_view() == v.deep_view(),
{
    let mut out: Vec<ToolSpec> = Vec::new();
    let mut i: usize = 0;
    while i < v.len()
        invariant
            i <= v.len(),
            out@.len() == i,
            forall|j: int| 0 <= j < i ==> #[trigger] out@[j].deep_view() == v@[j].deep_view(),
        decreases v.len() - i,
    {
        out.push(copy_tool_spec(&v[i]));
        i = i + 1;
    }
    assert(out.deep_view() =~= v.deep_view());
    out
}

} // verus!

//! The built-in tool runtime: one tool, `get_current_time`, that tells the
//! current time in an IANA time zone as RFC 3339 text. Parsing the tool's
//! JSON arguments happens around the library, which is handed the outcome.
use vstd::prelude::*;
use crate::app::copy::copy_tool_specs;
use crate::time::{in_chrono_range, parse_timezone, rfc3339_in, rfc3339_text, tz_known, unix_time_now};
use crate::domain::ports::{AgentError, ToolResult, ToolSpec};
use crate::text::{is_blank, is_blank_str, str_eq};

verus! {

/// The name of the built-in tool.
pub open spec fn current_time_tool() -> Seq<char> {
    "get_current_time"@
}

/// The JSON schema of the built-in tool's arguments: an object with an
/// optional string `timezone`.
pub open spec fn current_time_schema() -> Seq<char> {
    "{\"properties\":{\"timezone\":{\"description\":\"IANA timezone like Asia/Shanghai, defaults to UTC\",\"type\":\"string\"}},\"required\":[],\"type\":\"object\"}"@
}

/// The zone a `get_current_time` call asks for, given its raw arguments
/// and the outcome of parsing them (`Ok` with the optional `timezone`
/// field, or the parser's error text): UTC for blank arguments or a missing
/// field.
pub open spec fn requested_zone(arguments: Seq<char>, parsed: Result<Option<String>, String>) -> Result<
    Seq<char>,
    Seq<char>,
> {
    if is_blank(arguments) {
        Ok("UTC"@)
    } else {
        match parsed {
            Err(m) => Err("invalid get_current_time arguments: "@ + m@),
            Ok(Some(z)) => Ok(z@),
            Ok(None) => Ok("UTC"@),
        }
    }
}

/// What a call of tool `name` with `arguments` (parsed as `parsed`) answers
/// when the clock reads `now` (Unix seconds and nanoseconds; `None` when it
/// cannot be read): the content of the result, or the text of the
/// `InvalidInput` error. The clock matters only once the zone is known.
pub open spec fn tool_answer(
    name: Seq<char>,
    arguments: Seq<char>,
    parsed: Result<Option<String>, String>,
    now: Option<(i64, u32)>,
) -> Result<Seq<char>, Seq<char>> {
    if name != current_time_tool() {
        Err("unknown tool: "@ + name)
    } else {
        match requested_zone(arguments, parsed) {
            Err(m) => Err(m),
            Ok(zone) => if !tz_known(zone) {
                Err("invalid timezone: failed to parse timezone"@)
            } else {
                match now {
                    None => Err("the system clock cannot be read"@),
                    Some(p) => match rfc3339_text(p.0, p.1, zone) {
                        Some(t) => Ok(t),
                        None => Err("time outside the representable range"@),
                    },
                }
            },
        }
    }
}

/// A call that is bound to get the time: the time tool, a known zone, and
/// a clock reading in `chrono`'s range with fewer than 10^9 nanoseconds.
pub open spec fn answerable(
    name: Seq<char>,
    arguments: Seq<char>,
    parsed: Result<Option<String>, String>,
    now: Option<(i64, u32)>,
) -> bool {
    &&& name == current_time_tool()
    &&& requested_zone(arguments, parsed) is Ok
    &&& tz_known(requested_zone(arguments, parsed)->Ok_0)
    &&& now is Some
    &&& in_chrono_range((now->0).0 as int)
    &&& (now->0).1 < 1_000_000_000
}

/// The zone a call asks for: UTC for blank arguments, and for arguments
/// without a `timezone` field; otherwise the field's value.
pub proof fn lemma_requested_zone_defaults_to_utc(arguments: Seq<char>, zone: String)
    ensures
        requested_zone(arguments, Ok(None)) == Ok::<Seq<char>, Seq<char>>("UTC"@),
        is_blank(arguments) ==> requested_zone(arguments, Ok(Some(zone))) == Ok::<Seq<char>, Seq<char>>("UTC"@),
        !is_blank(arguments) ==> requested_zone(arguments, Ok(Some(zone))) == Ok::<Seq<char>, Seq<char>>(zone@),
{
}

/// A time call whose arguments name no zone answers as one with no
/// arguments at all (UTC), whatever the clock reads.
pub proof fn lemma_no_zone_answers_as_blank(
    arguments: Seq<char>,
    parsed: Result<Option<String>, String>,
    now: Option<(i64, u32)>,
)
    ensures
        tool_answer(current_time_tool(), arguments, Ok(None), now) == tool_answer(
            current_time_tool(),
            Seq::empty(),
            parsed,
            now,
        ),
        tool_answer(current_time_tool(), arguments, Ok(None), now) == (if !tz_known("UTC"@) {
            Err::<Seq<char>, Seq<char>>("invalid timezone: failed to parse timezone"@)
        } else {
            match now {
                None => Err("the system clock cannot be read"@),
                Some(p) => match rfc3339_text(p.0, p.1, "UTC"@) {
                    Some(t) => Ok(t),
                    None => Err("time outside the representable range"@),
                },
            }
        }),
{
    assert(is_blank(Seq::<char>::empty()));
}

/// `r` is the tool result that `answer` describes: an empty call id and the
/// content, or an `InvalidInput` error with the text.
pub open spec fn gives_answer(r: Result<ToolResult, AgentError>, answer: Result<Seq<char>, Seq<char>>) -> bool {
    match answer {
        Ok(c) => r matches Ok(res) && res.call_id@.len() == 0 && res.content@ == c,
        Err(m) => r matches Err(AgentError::InvalidInput(t)) && t@ == m,
    }
}

/// Runs the built-in tools.
pub struct BuiltinToolRuntime {
    specs: Vec<ToolSpec>,
}

impl BuiltinToolRuntime {
    pub closed spec fn specs(&self) -> Seq<ToolSpec> {
        self.specs@
    }

    /// The runtime with its one tool.
    pub fn new() -> (r: Self)
        ensures
            r.specs().len() == 1,
            r.specs()[0].name@ == current_time_tool(),
            r.specs()[0].description@ == "Get current time in an IANA timezone"@,
            r.specs()[0].parameters@ == current_time_schema(),
    {
        let spec = ToolSpec {
            name: "get_current_time".to_owned(),
            description: "Get current time in an IANA timezone".to_owned(),
            parameters: "{\"properties\":{\"timezone\":{\"description\":\"IANA timezone like Asia/Shanghai, defaults to UTC\",\"type\":\"string\"}},\"required\":[],\"type\":\"object\"}".to_owned(),
        };
        let mut specs: Vec<ToolSpec> = Vec::new();
        specs.push(spec);
        BuiltinToolRuntime { specs }
    }

    /// The tools offered.
    pub fn list_tools(&self) -> (r: Vec<ToolSpec>)
        ensures
            r.deep_view() == self.specs().map_values(|t: ToolSpec| t.deep_view()),
    {
        let r = copy_tool_specs(&self.specs);
        assert(r.deep_view() =~= self.specs().map_values(|t: ToolSpec| t.deep_view()));
        r
    }

    /// Runs tool `name` with JSON `arguments` when the clock reads `now`
    /// (Unix seconds and nanoseconds; `None` when it cannot be read);
    /// `parsed` is the outcome of parsing `arguments` as
    /// `{"timezone": string?}`. A known zone and a reading in range always
    /// give the time.
    pub fn execute_at(
        &self,
        name: &str,
        arguments: &str,
        parsed: Result<Option<String>, String>,
        now: Option<(i64, u32)>,
    ) -> (r: Result<ToolResult, AgentError>)
        ensures
            gives_answer(r, tool_answer(name@, arguments@, parsed, now)),
            answerable(name@, arguments@, parsed, now) ==> r is Ok,
    {
        proof {
            reveal_strlit("get_current_time");
        }
        if !str_eq(name, "get_current_time") {
            return Err(AgentError::InvalidInput("unknown tool: ".to_owned().concat(name)));
        }
        let zone: String = if is_blank_str(arguments) {
            "UTC".to_owned()
        } else {
            match parsed {
                Err(m) => {
                    return Err(
                        AgentError::InvalidInput("invalid get_current_time arguments: ".to_owned().concat(m.as_str())),
                    );
                },
                Ok(Some(z)) => z,
                Ok(None) => "UTC".to_owned(),
            }
        };
        match parse_timezone(zone.as_str()) {
            Ok(()) => {},
            Err(e) => {
                proof {
                    reveal_strlit("invalid timezone: ");
                    reveal_strlit("failed to parse timezone");
                    reveal_strlit("invalid timezone: failed to parse timezone");
                    assert("invalid timezone: "@ + e@ =~= "invalid timezone: failed to parse timezone"@);
                }
                return Err(AgentError::InvalidInput("invalid timezone: ".to_owned().concat(e.as_str())));
            },
        }
        let (secs, nanos) = match now {
            Some(p) => p,
            None => return Err(AgentError::InvalidInput("the system clock cannot be read".to_owned())),
        };
        match rfc3339_in(secs, nanos, zone.as_str()) {
            Some(text) => Ok(ToolResult { call_id: String::new(), content: text }),
            None => Err(AgentError::InvalidInput("time outside the representable range".to_owned())),
        }
    }

    /// Runs tool `name` with JSON `arguments` now: reads the clock and
    /// answers as `execute_at` does for that reading.
    pub fn execute(&self, name: &str, arguments: &str, parsed: Result<Option<String>, String>) -> (r: Result<
        ToolResult,
        AgentError,
    >)
        ensures
            exists|now: Option<(i64, u32)>|
                {
                    &&& gives_answer(r, #[trigger] tool_answer(name@, arguments@, parsed, now))
                    &&& answerable(name@, arguments@, parsed, now) ==> r is Ok
                    &&& now matches Some(p) ==> p.1 < 1_000_000_000
                },
    {
        let now = unix_time_now();
        let ghost p = parsed;
        let r = self.execute_at(name, arguments, parsed, now);
        assert(gives_answer(r, tool_answer(name@, arguments@, p, now)));
        r
    }
}

} // verus!

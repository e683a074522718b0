//! Tool input and tool progress on the event stream.
use vstd::prelude::*;

use crate::events::{either, either_text, get_either, get_either_str, str_or, text_or};
use crate::json::{opt_str, Json, JsonV};
use crate::text::str_eq;
use crate::types::{
    copy_opt, own_opt, ToolInputEventData, ToolInputEventDataV, ToolInputPhase, ToolProgressEventData,
    ToolProgressEventDataV,
};

verus! {

/// The phase that an event type announces.
pub open spec fn phase_of(t: Seq<char>) -> Option<ToolInputPhase> {
    if t == "session.next.tool.input.started"@ || t == "session.next.tool_input.started"@ || t
        == "message.next.tool.input.started"@ {
        Some(ToolInputPhase::Started)
    } else if t == "session.next.tool.input.delta"@ || t == "session.next.tool_input.delta"@ || t
        == "message.next.tool.input.delta"@ {
        Some(ToolInputPhase::Delta)
    } else if t == "session.next.tool.input.ended"@ || t == "session.next.tool_input.ended"@ || t
        == "message.next.tool.input.ended"@ {
        Some(ToolInputPhase::Ended)
    } else {
        None
    }
}

/// The phase that an event type announces.
pub fn phase_for_event_type(event_type: &str) -> (r: Option<ToolInputPhase>)
    ensures
        r == phase_of(event_type@),
{
    let t = event_type;
    if str_eq(t, "session.next.tool.input.started") || str_eq(t, "session.next.tool_input.started")
        || str_eq(t, "message.next.tool.input.started") {
        Some(ToolInputPhase::Started)
    } else if str_eq(t, "session.next.tool.input.delta") || str_eq(t, "session.next.tool_input.delta")
        || str_eq(t, "message.next.tool.input.delta") {
        Some(ToolInputPhase::Delta)
    } else if str_eq(t, "session.next.tool.input.ended") || str_eq(t, "session.next.tool_input.ended")
        || str_eq(t, "message.next.tool.input.ended") {
        Some(ToolInputPhase::Ended)
    } else {
        None
    }
}

/// The text under the first of two keys that holds one.
pub open spec fn text_under(v: JsonV, a: Seq<char>, b: Seq<char>) -> Option<Seq<char>> {
    match v.field_text(a) {
        Some(t) => Some(t),
        None => v.field_text(b),
    }
}

/// The text under the first of two keys that holds one.
pub fn get_text_under<'a>(v: &'a Json, a: &str, b: &str) -> (r: Option<&'a str>)
    ensures
        opt_str(r) == text_under(v@, a@, b@),
{
    match v.get_str(a) {
        Some(t) => Some(t),
        None => v.get_str(b),
    }
}

/// The integer under the first of two keys that is there.
pub open spec fn either_signed(v: JsonV, a: Seq<char>, b: Seq<char>) -> Option<i64> {
    match either(v, a, b) {
        Some(x) => x.signed(),
        None => None,
    }
}

fn get_either_i64(v: &Json, a: &str, b: &str) -> (r: Option<i64>)
    ensures
        r == either_signed(v@, a@, b@),
{
    match get_either(v, a, b) {
        Some(x) => x.as_i64(),
        None => None,
    }
}

/// What a tool-input event tells: nothing where its type announces no phase or its
/// message or part is not named.
pub open spec fn tool_input_of(
    event_type: Seq<char>,
    props: JsonV,
    session_id: Seq<char>,
    parent: Option<Seq<char>>,
) -> Option<ToolInputEventDataV> {
    match (
        phase_of(event_type),
        text_under(props, "messageID"@, "message_id"@),
        text_under(props, "partID"@, "part_id"@),
    ) {
        (Some(phase), Some(message_id), Some(part_id)) => Some(
            ToolInputEventDataV {
                session_id,
                parent_session_id: parent,
                message_id,
                part_id,
                phase,
                tool_name: either_text(props, "toolName"@, "tool_name"@),
                input_delta: either_text(props, "inputDelta"@, "input_delta"@),
                final_input: either(props, "finalInput"@, "final_input"@),
                started_at: either_signed(props, "startedAt"@, "started_at"@),
                completed_at: either_signed(props, "completedAt"@, "completed_at"@),
            },
        ),
        _ => None,
    }
}

/// Reads a tool-input event.
pub fn translate_tool_input(
    event_type: &str,
    props: &Json,
    session_id: &str,
    parent_session_id: &Option<String>,
) -> (r: Option<ToolInputEventData>)
    ensures
        r.deep_view() == tool_input_of(
            event_type@,
            props@,
            session_id@,
            parent_session_id.deep_view(),
        ),
{
    let phase = match phase_for_event_type(event_type) {
        Some(p) => p,
        None => {
            return None;
        },
    };
    let message_id = match get_text_under(props, "messageID", "message_id") {
        Some(m) => m,
        None => {
            return None;
        },
    };
    let part_id = match get_text_under(props, "partID", "part_id") {
        Some(p) => p,
        None => {
            return None;
        },
    };
    let final_input = match get_either(props, "finalInput", "final_input") {
        Some(f) => Some(f.copy()),
        None => None,
    };
    Some(
        ToolInputEventData {
            session_id: session_id.to_owned(),
            parent_session_id: copy_opt(parent_session_id),
            message_id: message_id.to_owned(),
            part_id: part_id.to_owned(),
            phase,
            tool_name: own_opt(get_either_str(props, "toolName", "tool_name")),
            input_delta: own_opt(get_either_str(props, "inputDelta", "input_delta")),
            final_input,
            started_at: get_either_i64(props, "startedAt", "started_at"),
            completed_at: get_either_i64(props, "completedAt", "completed_at"),
        },
    )
}

/// The progress payload as the server sent it.
pub open spec fn raw_progress_of(props: JsonV) -> JsonV {
    match props.field("progress"@) {
        Some(p) => p,
        None => JsonV::Null,
    }
}

/// The tool that a progress event speaks of.
pub open spec fn progress_tool_of(props: JsonV) -> Seq<char> {
    text_or(either_text(props, "toolName"@, "tool_name"@), ""@)
}

/// What a tool-progress event tells: nothing where its message or part is not
/// named. `progress` is the payload in the form that listeners take.
pub open spec fn tool_progress_of(
    props: JsonV,
    progress: JsonV,
    session_id: Seq<char>,
    parent: Option<Seq<char>>,
    now: i64,
) -> Option<ToolProgressEventDataV> {
    match (text_under(props, "messageID"@, "message_id"@), text_under(props, "partID"@, "part_id"@)) {
        (Some(message_id), Some(part_id)) => Some(
            ToolProgressEventDataV {
                session_id,
                parent_session_id: parent,
                message_id,
                part_id,
                tool_name: progress_tool_of(props),
                progress,
                at: match props.field("at"@) {
                    Some(a) => match a.signed() {
                        Some(n) => n,
                        None => now,
                    },
                    None => now,
                },
            },
        ),
        _ => None,
    }
}

/// Reads a tool-progress event; `progress` is its payload in the form that
/// listeners take.
pub fn translate_tool_progress(
    props: &Json,
    progress: &Json,
    session_id: &str,
    parent_session_id: &Option<String>,
    now_ms: i64,
) -> (r: Option<ToolProgressEventData>)
    ensures
        r.deep_view() == tool_progress_of(
            props@,
            progress@,
            session_id@,
            parent_session_id.deep_view(),
            now_ms,
        ),
{
    let message_id = match get_text_under(props, "messageID", "message_id") {
        Some(m) => m,
        None => {
            return None;
        },
    };
    let part_id = match get_text_under(props, "partID", "part_id") {
        Some(p) => p,
        None => {
            return None;
        },
    };
    let at: i64 = match props.get("at") {
        Some(a) => match a.as_i64() {
            Some(n) => n,
            None => now_ms,
        },
        None => now_ms,
    };
    Some(
        ToolProgressEventData {
            session_id: session_id.to_owned(),
            parent_session_id: copy_opt(parent_session_id),
            message_id: message_id.to_owned(),
            part_id: part_id.to_owned(),
            tool_name: str_or(get_either_str(props, "toolName", "tool_name"), "").to_owned(),
            progress: progress.copy(),
            at,
        },
    )
}

/// The payload of a tool-progress event as the server sent it; `null` where there
/// is none.
pub fn raw_progress(props: &Json) -> (r: Json)
    ensures
        r@ == raw_progress_of(props@),
{
    match props.get("progress") {
        Some(p) => p.copy(),
        None => Json::Null,
    }
}

} // verus!

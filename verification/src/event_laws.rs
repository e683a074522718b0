//! What listeners are told of the events of a server: each law says what one event, or a
//! run of them, makes of what the server sent.
use vstd::prelude::*;

use crate::collections::{assoc, filter_members, with_member};
use crate::dispatch::{
    after, child_tick, context_usage, finish_root, flushed, gate_of, model_info, on_data, on_error,
    on_event, on_idle, on_message_updated, on_part_delta, on_part_updated, on_permission_asked,
    on_question_asked, on_raw, on_retried, on_status, rest, status_type_of, tool_part, GateV,
    OutsideV, Passage, StepV,
};
use crate::events::{event_types_call_for_what_they_name, kind_of, unwrapped, EventKind};
use crate::json::{parsed_text, JsonV, NumberV};
use crate::state::{
    delta_at, delta_effect, delta_effects, initial_state, of_other_part, of_part, PendingDeltaV,
    RemoteStateV,
};
use crate::turn_laws::run;
use crate::types::{
    AgentStreamEventV, ConversationStatus, EffectV, RemoteAgentStatus, ToolInputPhase,
    ToolProgressEventDataV,
};

verus! {

/// Whether a tree is an event of a type, with its properties.
pub open spec fn is_event(parsed: JsonV, t: Seq<char>, props: JsonV) -> bool {
    &&& parsed.field("payload"@) is None
    &&& parsed.field_text("type"@) == Some(t)
    &&& parsed.field("properties"@) == Some(props)
}

/// Whether an event is about the root session, or about no session at all.
pub open spec fn about_root(s: RemoteStateV, props: JsonV) -> bool {
    props.field_text("sessionID"@) is None || props.field_text("sessionID"@) == s.opencode_session_id
}

/// Whether an event is about a session that the root session started.
pub open spec fn about_child(s: RemoteStateV, props: JsonV, root: Seq<char>, child: Seq<char>) -> bool {
    &&& s.opencode_session_id == Some(root)
    &&& props.field_text("sessionID"@) == Some(child)
    &&& child != root
    &&& assoc(s.child_sessions, child) is Some
}

/// An event about the root session is handled as its type calls for.
pub proof fn lemma_root_event(
    s: RemoteStateV,
    parsed: JsonV,
    out: OutsideV,
    opencode: bool,
    t: Seq<char>,
    props: JsonV,
)
    requires
        is_event(parsed, t, props),
        about_root(s, props),
    ensures
        on_raw(s, parsed, out, opencode) == on_event(
            s,
            t,
            props,
            (GateV { session_id: props.field_text("sessionID"@), is_child: false, parent: None }),
            out,
            opencode,
        ),
{
}

/// An event about a sub-agent is handled as its type calls for.
pub proof fn lemma_child_event(
    s: RemoteStateV,
    parsed: JsonV,
    out: OutsideV,
    opencode: bool,
    t: Seq<char>,
    props: JsonV,
    root: Seq<char>,
    child: Seq<char>,
)
    requires
        is_event(parsed, t, props),
        about_child(s, props, root, child),
        t != "session.created"@,
    ensures
        on_raw(s, parsed, out, opencode) == on_event(
            s,
            t,
            props,
            (GateV { session_id: Some(child), is_child: true, parent: Some(root) }),
            out,
            opencode,
        ),
{
}

/// An event that the global stream wraps does what it does unwrapped.
pub proof fn wrapping_makes_no_difference(
    s: RemoteStateV,
    parsed: JsonV,
    inner: JsonV,
    out: OutsideV,
    opencode: bool,
)
    requires
        parsed.field("payload"@) == Some(inner),
        inner.field("payload"@) is None,
    ensures
        on_raw(s, parsed, out, opencode) == on_raw(s, inner, out, opencode),
{
}

/// A session that the registry takes on becomes a sub-agent of the root session, and is
/// announced as one.
pub proof fn new_sub_agents_are_announced(
    s: RemoteStateV,
    parsed: JsonV,
    out: OutsideV,
    opencode: bool,
    props: JsonV,
    root: Seq<char>,
    child: Seq<char>,
)
    requires
        is_event(parsed, "session.created"@, props),
        props.field_text("sessionID"@) == Some(child),
        s.opencode_session_id == Some(root),
        child != root,
        out.child_registered,
    ensures
        on_raw(s, parsed, out, opencode).effects == seq![
            EffectV::StartChild { parent_id: root, child_id: child },
        ],
        assoc(on_raw(s, parsed, out, opencode).state.child_sessions, child) == Some(root),
{
    crate::collections::entry_reads_back(s.child_sessions, child, root);
}

// ---- The turn ----

/// Whether an event says that a session rests: its status is idle, or it went idle.
pub open spec fn says_at_rest(t: Seq<char>, props: JsonV) -> bool {
    ||| t == "session.idle"@
    ||| t == "session.status"@ && (props.field("status"@) matches Some(v) && v.field_text("type"@)
        == Some("idle"@))
}

/// Whether an event says that an assistant's message is finished.
pub open spec fn says_stopped(t: Seq<char>, props: JsonV) -> bool {
    &&& t == "message.updated"@
    &&& props.field("info"@) matches Some(info) && info.field_text("role"@) == Some("assistant"@)
        && info.field_text("finish"@) == Some("stop"@)
}

proof fn lemma_finish_told(s: RemoteStateV, session: Option<Seq<char>>, before: Seq<EffectV>, told: Seq<EffectV>)
    requires
        s.root_turn_active,
        told == before + finish_root(s, session).effects,
    ensures
        told.len() >= 3,
        told[told.len() - 3] == EffectV::Emit(AgentStreamEventV::Finish { session_id: session }),
        told[told.len() - 2] == EffectV::TransitionTo(ConversationStatus::Finished),
        told[told.len() - 1] == EffectV::ReleaseTurnSlot,
{
    let f = finish_root(s, session).effects;
    assert(told[told.len() - 3] == f[f.len() - 3]);
    assert(told[told.len() - 2] == f[f.len() - 2]);
    assert(told[told.len() - 1] == f[f.len() - 1]);
}

/// A running turn ends with the event that says that the root session rests or that its
/// answer is finished: the end is told with the session, the conversation is finished and
/// the slot is free.
pub proof fn a_resting_root_ends_the_turn(
    s: RemoteStateV,
    parsed: JsonV,
    out: OutsideV,
    opencode: bool,
    t: Seq<char>,
    props: JsonV,
)
    requires
        is_event(parsed, t, props),
        about_root(s, props),
        s.root_turn_active,
        says_at_rest(t, props) || says_stopped(t, props),
    ensures
        !on_raw(s, parsed, out, opencode).state.root_turn_active,
        on_raw(s, parsed, out, opencode).state.finished_current_user_turn,
        on_raw(s, parsed, out, opencode).state.pending_deltas.len() == 0,
        ({
            let told = on_raw(s, parsed, out, opencode).effects;
            &&& told.len() >= 3
            &&& told[told.len() - 3] == EffectV::Emit(
                AgentStreamEventV::Finish { session_id: props.field_text("sessionID"@) },
            )
            &&& told[told.len() - 2] == EffectV::TransitionTo(ConversationStatus::Finished)
            &&& told[told.len() - 1] == EffectV::ReleaseTurnSlot
        }),
{
    event_types_call_for_what_they_name();
    lemma_root_event(s, parsed, out, opencode, t, props);
    let g = GateV { session_id: props.field_text("sessionID"@), is_child: false, parent: None };
    let step = on_raw(s, parsed, out, opencode);
    reveal_strlit("busy");
    reveal_strlit("idle");
    assert("busy"@[0] != "idle"@[0]);
    if says_stopped(t, props) {
        let info = props.field("info"@)->0;
        let a = model_info(s, info);
        let b = context_usage(a.state, info, out);
        assert(b.state.root_turn_active);
        lemma_finish_told(b.state, g.session_id, a.effects + b.effects, step.effects);
    } else {
        let f = finish_root(s, g.session_id);
        let before = step.effects.take(step.effects.len() - f.effects.len());
        assert(step.effects =~= before + f.effects);
        lemma_finish_told(s, g.session_id, before, step.effects);
    }
}

/// An event that says that the root session is busy is told as the start of its turn, and
/// shows that the server is reached.
pub proof fn a_busy_root_is_told(
    s: RemoteStateV,
    parsed: JsonV,
    out: OutsideV,
    opencode: bool,
    props: JsonV,
)
    requires
        is_event(parsed, "session.status"@, props),
        about_root(s, props),
        props.field("status"@) matches Some(v) && v.field_text("type"@) == Some("busy"@),
    ensures
        ({
            let step = on_raw(s, parsed, out, opencode);
            &&& step.effects.len() >= 2
            &&& step.effects[step.effects.len() - 1] == EffectV::Emit(
                AgentStreamEventV::Start { session_id: props.field_text("sessionID"@) },
            )
            &&& step.effects.contains(EffectV::BumpActivity)
            &&& step.state.connection_status == RemoteAgentStatus::Connected
            &&& step.state.root_turn_active == (s.root_turn_active || !s.finished_current_user_turn)
            &&& props.field_text("sessionID"@) is Some ==> step.state.session_key == props.field_text(
                "sessionID"@,
            )
        }),
{
    event_types_call_for_what_they_name();
    lemma_root_event(s, parsed, out, opencode, "session.status"@, props);
    let fx = on_raw(s, parsed, out, opencode).effects;
    assert(fx[fx.len() - 2] == EffectV::BumpActivity);
}

/// What a session's status is told as: a server's busy session is running, one that
/// failed is errored, and a status that is not known counts as idle, with itself as the
/// reason.
pub proof fn statuses_are_told(
    s: RemoteStateV,
    parsed: JsonV,
    out: OutsideV,
    opencode: bool,
    props: JsonV,
    session: Seq<char>,
    word: Seq<char>,
)
    requires
        is_event(parsed, "session.status"@, props),
        about_root(s, props),
        props.field_text("sessionID"@) == Some(session),
        props.field("status"@) matches Some(v) && v.field_text("type"@) == Some(word),
    ensures
        ({
            let told = on_raw(s, parsed, out, opencode).effects[0];
            &&& word == "busy"@ || word == "running"@ ==> told == EffectV::Emit(
                AgentStreamEventV::SessionStatus { session_id: session, status: "running"@, reason: None },
            )
            &&& word == "idle"@ ==> told == EffectV::Emit(
                AgentStreamEventV::SessionStatus { session_id: session, status: "idle"@, reason: None },
            )
            &&& word == "aborting"@ ==> told == EffectV::Emit(
                AgentStreamEventV::SessionStatus { session_id: session, status: "aborting"@, reason: None },
            )
            &&& word == "aborted"@ ==> told == EffectV::Emit(
                AgentStreamEventV::SessionStatus {
                    session_id: session,
                    status: "aborted"@,
                    reason: Some("aborted"@),
                },
            )
            &&& word == "error"@ || word == "errored"@ ==> told == EffectV::Emit(
                AgentStreamEventV::SessionStatus {
                    session_id: session,
                    status: "errored"@,
                    reason: Some("errored"@),
                },
            )
            &&& !(word == "busy"@ || word == "running"@ || word == "idle"@ || word == "aborting"@ || word
                == "aborted"@ || word == "error"@ || word == "errored"@) ==> told == EffectV::Emit(
                AgentStreamEventV::SessionStatus { session_id: session, status: "idle"@, reason: Some(word) },
            )
        }),
{
    event_types_call_for_what_they_name();
    lemma_root_event(s, parsed, out, opencode, "session.status"@, props);
    reveal_strlit("busy");
    reveal_strlit("running");
    reveal_strlit("idle");
    reveal_strlit("aborting");
    reveal_strlit("aborted");
    reveal_strlit("error");
    reveal_strlit("errored");
    assert("busy"@.len() == 4 && "running"@.len() == 7 && "idle"@.len() == 4 && "aborting"@.len() == 8
        && "aborted"@.len() == 7 && "error"@.len() == 5 && "errored"@.len() == 7);
    assert("busy"@[0] != "idle"@[0]);
    assert("running"@[0] != "aborted"@[0]);
    assert("running"@[0] != "errored"@[0]);
    assert("aborted"@[0] != "errored"@[0]);
    let g = GateV { session_id: Some(session), is_child: false, parent: None };
    assert(on_raw(s, parsed, out, opencode) == on_status(s, props, g));
}

/// A session that went idle is told with the time that the server gives, or else the
/// present time, and as completed where no reason is given.
pub proof fn idleness_is_told(
    s: RemoteStateV,
    parsed: JsonV,
    out: OutsideV,
    opencode: bool,
    props: JsonV,
    session: Seq<char>,
)
    requires
        is_event(parsed, "session.idle"@, props),
        about_root(s, props),
        props.field_text("sessionID"@) == Some(session),
        props.field("reason"@) is None || props.field_text("reason"@) == Some("completed"@)
            || props.field_text("reason"@) == Some("aborted"@) || props.field_text("reason"@) == Some(
            "errored"@,
        ) || props.field_text("reason"@) == Some("compacted"@),
    ensures
        on_raw(s, parsed, out, opencode).effects[0] == EffectV::Emit(
            AgentStreamEventV::SessionIdle {
                session_id: session,
                reason: match props.field_text("reason"@) {
                    Some(r) => r,
                    None => "completed"@,
                },
                at: match props.field("at"@) {
                    Some(JsonV::Number(NumberV::Negative(n))) => n,
                    Some(JsonV::Number(NumberV::Unsigned(n))) => if n <= i64::MAX {
                        n as i64
                    } else {
                        out.now
                    },
                    _ => out.now,
                },
            },
        ),
{
    event_types_call_for_what_they_name();
    lemma_root_event(s, parsed, out, opencode, "session.idle"@, props);
}

/// A sub-agent that rests has completed, and one whose session failed has failed: neither
/// touches the turn of the root session.
pub proof fn sub_agents_complete_or_fail(
    s: RemoteStateV,
    parsed: JsonV,
    out: OutsideV,
    opencode: bool,
    t: Seq<char>,
    props: JsonV,
    root: Seq<char>,
    child: Seq<char>,
)
    requires
        is_event(parsed, t, props),
        about_child(s, props, root, child),
        says_at_rest(t, props) || t == "session.error"@,
    ensures
        on_raw(s, parsed, out, opencode).state == s,
        ({
            let fx = on_raw(s, parsed, out, opencode).effects;
            &&& fx.len() > 0
            &&& fx.last() matches EffectV::CompleteChild { parent_id, child_id, failed, error }
                && parent_id == root && child_id == child && failed == (t == "session.error"@)
                && (error is Some) == failed
        }),
{
    event_types_call_for_what_they_name();
    reveal_strlit("session.created");
    reveal_strlit("session.error");
    reveal_strlit("session.idle");
    reveal_strlit("session.status");
    assert("session.created"@.len() == 15 && "session.error"@.len() == 13 && "session.idle"@.len() == 12
        && "session.status"@.len() == 14);
    lemma_child_event(s, parsed, out, opencode, t, props, root, child);
    reveal_strlit("busy");
    reveal_strlit("idle");
    assert("busy"@[0] != "idle"@[0]);
}

// ---- Text and thinking ----

/// A delta of a part's text.
pub open spec fn is_text_delta(
    parsed: JsonV,
    props: JsonV,
    message: Seq<char>,
    part: Seq<char>,
    text: Seq<char>,
) -> bool {
    &&& is_event(parsed, "message.part.delta"@, props)
    &&& props.field_text("field"@) == Some("text"@)
    &&& props.field_text("delta"@) == Some(text)
    &&& props.field_text("messageID"@) == Some(message)
    &&& props.field_text("partID"@) == Some(part)
}

/// What is pending is told as it stands: reasoning as thinking, everything else as text,
/// in the order in which it came.
pub proof fn pending_text_is_told_as_it_stands(d: Seq<PendingDeltaV>, i: int)
    requires
        0 <= i < d.len(),
    ensures
        delta_effects(d).len() == d.len(),
        d[i].reasoning ==> delta_effects(d)[i] == EffectV::Emit(
            AgentStreamEventV::Thinking { content: d[i].content },
        ),
        !d[i].reasoning ==> delta_effects(d)[i] == EffectV::Emit(
            AgentStreamEventV::Text { content: d[i].content },
        ),
{
}

/// Two deltas of a part are told as one text, the first before the second: as thinking
/// where the part is reasoning, else as text.
pub proof fn deltas_are_told_as_one_text(
    s: RemoteStateV,
    first: JsonV,
    second: JsonV,
    out: OutsideV,
    later: OutsideV,
    opencode: bool,
    props: JsonV,
    more: JsonV,
    message: Seq<char>,
    part: Seq<char>,
    x: Seq<char>,
    y: Seq<char>,
)
    requires
        is_text_delta(first, props, message, part, x),
        is_text_delta(second, more, message, part, y),
        about_root(s, props),
        about_root(s, more),
        s.pending_deltas.len() == 0,
    ensures
        ({
            let a = on_raw(s, first, out, opencode);
            let b = on_raw(a.state, second, later, opencode);
            &&& a.effects.len() == 0
            &&& b.effects.len() == 0
            &&& b.state == (RemoteStateV { pending_deltas: b.state.pending_deltas, ..s })
            &&& delta_effects(b.state.pending_deltas) == seq![
                EffectV::Emit(
                    if s.reasoning_parts.contains(part) {
                        AgentStreamEventV::Thinking { content: x + y }
                    } else {
                        AgentStreamEventV::Text { content: x + y }
                    },
                ),
            ]
        }),
{
    event_types_call_for_what_they_name();
    lemma_root_event(s, first, out, opencode, "message.part.delta"@, props);
    let a = on_raw(s, first, out, opencode);
    lemma_root_event(a.state, second, later, opencode, "message.part.delta"@, more);
    let b = on_raw(a.state, second, later, opencode);
    assert(a.state.pending_deltas.len() == 1);
    assert(delta_at(a.state.pending_deltas, message, part) == 0);
    assert(b.state.pending_deltas[0].content == x + y);
    assert(delta_effects(b.state.pending_deltas) =~= seq![delta_effect(b.state.pending_deltas[0])]);
}

/// Text of a part that has none pending waits behind what is already pending, which stays
/// as it is.
pub proof fn text_waits_in_the_order_in_which_it_came(
    s: RemoteStateV,
    parsed: JsonV,
    out: OutsideV,
    opencode: bool,
    props: JsonV,
    message: Seq<char>,
    part: Seq<char>,
    text: Seq<char>,
)
    requires
        is_text_delta(parsed, props, message, part, text),
        about_root(s, props),
        forall|i: int| 0 <= i < s.pending_deltas.len() ==> (#[trigger] s.pending_deltas[i]).part_id != part,
    ensures
        on_raw(s, parsed, out, opencode).state.pending_deltas == s.pending_deltas.push(
            PendingDeltaV {
                message_id: message,
                part_id: part,
                reasoning: s.reasoning_parts.contains(part),
                content: text,
            },
        ),
{
    event_types_call_for_what_they_name();
    lemma_root_event(s, parsed, out, opencode, "message.part.delta"@, props);
    lemma_no_delta_of(s.pending_deltas, message, part);
}

proof fn lemma_no_delta_of(d: Seq<PendingDeltaV>, message: Seq<char>, part: Seq<char>)
    requires
        forall|i: int| 0 <= i < d.len() ==> (#[trigger] d[i]).part_id != part,
    ensures
        delta_at(d, message, part) == d.len(),
    decreases d.len(),
{
    if d.len() > 0 {
        let e = d.drop_first();
        assert forall|i: int| 0 <= i < e.len() implies (#[trigger] e[i]).part_id != part by {
            assert(e[i] == d[i + 1]);
        }
        lemma_no_delta_of(e, message, part);
        assert(d[0].part_id != part);
    }
}

/// What is no text is not shown: a delta of another field changes nothing.
pub proof fn deltas_of_other_fields_are_not_shown(
    s: RemoteStateV,
    parsed: JsonV,
    out: OutsideV,
    opencode: bool,
    props: JsonV,
)
    requires
        is_event(parsed, "message.part.delta"@, props),
        about_root(s, props),
        props.field_text("field"@) != Some("text"@),
    ensures
        on_raw(s, parsed, out, opencode).state == s,
        on_raw(s, parsed, out, opencode).effects.len() == 0,
{
    event_types_call_for_what_they_name();
    lemma_root_event(s, parsed, out, opencode, "message.part.delta"@, props);
}

/// A part that the server calls reasoning is reasoning from then on; a part of another
/// type is not made so. What was reasoning stays so.
pub proof fn reasoning_parts_are_noted(
    s: RemoteStateV,
    parsed: JsonV,
    out: OutsideV,
    opencode: bool,
    props: JsonV,
    part: JsonV,
    id: Seq<char>,
    other: Seq<char>,
)
    requires
        is_event(parsed, "message.part.updated"@, props),
        about_root(s, props),
        props.field("part"@) == Some(part),
        part.field_text("id"@) == Some(id),
    ensures
        on_raw(s, parsed, out, opencode).state.reasoning_parts.contains(other) <==> (
        s.reasoning_parts.contains(other) || (other == id && part.field_text("type"@) == Some(
            "reasoning"@,
        ))),
{
    event_types_call_for_what_they_name();
    lemma_root_event(s, parsed, out, opencode, "message.part.updated"@, props);
    reveal_strlit("reasoning");
    reveal_strlit("tool");
    assert("reasoning"@.len() != "tool"@.len());
    lemma_with_member(s.reasoning_parts, id, other);
    let g = GateV { session_id: props.field_text("sessionID"@), is_child: false, parent: None };
    assert(child_tick(s, g, out).state.reasoning_parts == s.reasoning_parts);
}

proof fn lemma_with_member(s: Seq<Seq<char>>, x: Seq<char>, y: Seq<char>)
    ensures
        with_member(s, x).contains(y) <==> s.contains(y) || y == x,
{
    let w = with_member(s, x);
    if s.contains(y) {
        let i = choose|i: int| 0 <= i < s.len() && s[i] == y;
        assert(w[i] == y);
    }
    if y == x && !s.contains(x) {
        assert(w[w.len() - 1] == y);
    }
    if w.contains(y) && y != x {
        let i = choose|i: int| 0 <= i < w.len() && w[i] == y;
        assert(s[i] == y);
    }
}

/// When a part is updated, its pending text is told first, and the pending text of other
/// parts goes on waiting.
pub proof fn an_updated_part_tells_its_text(
    s: RemoteStateV,
    parsed: JsonV,
    out: OutsideV,
    opencode: bool,
    props: JsonV,
    part: JsonV,
    id: Seq<char>,
    d: PendingDeltaV,
)
    requires
        is_event(parsed, "message.part.updated"@, props),
        about_root(s, props),
        props.field("part"@) == Some(part),
        part.field_text("id"@) == Some(id),
        s.pending_deltas.contains(d),
    ensures
        d.part_id != id ==> on_raw(s, parsed, out, opencode).state.pending_deltas.contains(d),
        d.part_id == id ==> !on_raw(s, parsed, out, opencode).state.pending_deltas.contains(d),
        d.part_id == id && !d.reasoning ==> on_raw(s, parsed, out, opencode).effects.contains(
            EffectV::Emit(AgentStreamEventV::Text { content: d.content }),
        ),
        d.part_id == id && d.reasoning ==> on_raw(s, parsed, out, opencode).effects.contains(
            EffectV::Emit(AgentStreamEventV::Thinking { content: d.content }),
        ),
{
    event_types_call_for_what_they_name();
    lemma_root_event(s, parsed, out, opencode, "message.part.updated"@, props);
    let g = GateV { session_id: props.field_text("sessionID"@), is_child: false, parent: None };
    let f = flushed(s, part);
    filter_members(s.pending_deltas, of_other_part(id));
    filter_members(s.pending_deltas, of_part(id));
    let step = on_raw(s, parsed, out, opencode);
    assert(step.state.pending_deltas == f.state.pending_deltas);
    if d.part_id == id {
        let mine = s.pending_deltas.filter(of_part(id));
        assert(mine.contains(d));
        let i = choose|i: int| 0 <= i < mine.len() && mine[i] == d;
        assert(f.effects[i] == delta_effect(d));
        assert(step.effects[i] == f.effects[i]);
    }
}

// ---- Tool calls ----

/// Whether an effect shows a tool call.
pub open spec fn shows_call(e: EffectV, id: Seq<char>) -> bool {
    e matches EffectV::Emit(AgentStreamEventV::AcpToolCall { tool_call_id, .. }) && tool_call_id == id
}

/// Whether an effect shows a tool call as a new one.
pub open spec fn shows_new_call(e: EffectV, id: Seq<char>) -> bool {
    e matches EffectV::Emit(AgentStreamEventV::AcpToolCall { tool_call_id, first, .. }) && tool_call_id == id
        && first
}

/// A tool part is shown as the tool call that it is, with what is known of it.
pub proof fn tool_parts_are_shown(
    s: RemoteStateV,
    parsed: JsonV,
    out: OutsideV,
    opencode: bool,
    props: JsonV,
    part: JsonV,
    id: Seq<char>,
    update: JsonV,
)
    requires
        is_event(parsed, "message.part.updated"@, props),
        about_root(s, props),
        props.field("part"@) == Some(part),
        part.field_text("type"@) == Some("tool"@),
        out.tool_call matches Some(call) && call.tool_call_id == id && call.update == update,
    ensures
        exists|i: int|
            0 <= i < on_raw(s, parsed, out, opencode).effects.len() && (#[trigger] on_raw(
                s,
                parsed,
                out,
                opencode,
            ).effects[i] matches EffectV::Emit(AgentStreamEventV::AcpToolCall { tool_call_id, update: u, .. })
                && tool_call_id == id && u == update),
{
    event_types_call_for_what_they_name();
    lemma_root_event(s, parsed, out, opencode, "message.part.updated"@, props);
    reveal_strlit("reasoning");
    reveal_strlit("tool");
    assert("reasoning"@.len() != "tool"@.len());
    let n = flushed(s, part).effects.len();
    let fx = on_raw(s, parsed, out, opencode).effects;
    let g = GateV { session_id: props.field_text("sessionID"@), is_child: false, parent: None };
    let f = flushed(s, part);
    assert(fx == f.effects + tool_part(f.state, g, out).effects);
    assert(fx[n as int] == tool_part(f.state, g, out).effects[0]);
}

proof fn lemma_deltas_show_no_call(d: Seq<PendingDeltaV>, id: Seq<char>)
    ensures
        forall|i: int| 0 <= i < delta_effects(d).len() ==> !shows_call(#[trigger] delta_effects(d)[i], id),
{
    assert forall|i: int| 0 <= i < delta_effects(d).len() implies !shows_call(
        #[trigger] delta_effects(d)[i],
        id,
    ) by {
        assert(delta_effects(d)[i] == delta_effect(d[i]));
    }
}

/// Whether a step shows a call at most once: as a new one where it was not known before,
/// and never so where it was. What it shows is known from then on.
#[verifier::opaque]
spec fn announces_once(s: RemoteStateV, step: StepV, id: Seq<char>) -> bool {
    &&& forall|i: int|
        0 <= i < step.effects.len() && #[trigger] shows_call(step.effects[i], id) ==> (shows_new_call(
            step.effects[i],
            id,
        ) <==> !s.opencode_tool_call_ids.contains(id))
    &&& forall|i: int, j: int|
        0 <= i < j < step.effects.len() && #[trigger] shows_call(step.effects[i], id)
            ==> !#[trigger] shows_call(step.effects[j], id)
    &&& step.state.opencode_tool_call_ids.contains(id) <==> s.opencode_tool_call_ids.contains(id) || exists|
        i: int,
    |
        0 <= i < step.effects.len() && #[trigger] shows_call(step.effects[i], id)
}

proof fn lemma_silent_step(s: RemoteStateV, step: StepV, id: Seq<char>)
    requires
        step.state.opencode_tool_call_ids == s.opencode_tool_call_ids,
        forall|i: int| 0 <= i < step.effects.len() ==> !shows_call(#[trigger] step.effects[i], id),
    ensures
        announces_once(s, step, id),
{
    reveal(announces_once);
}

proof fn lemma_finish_shows_no_call(s: RemoteStateV, session: Option<Seq<char>>, id: Seq<char>)
    ensures
        forall|i: int|
            0 <= i < finish_root(s, session).effects.len() ==> !shows_call(
                #[trigger] finish_root(s, session).effects[i],
                id,
            ),
        finish_root(s, session).state.opencode_tool_call_ids == s.opencode_tool_call_ids,
{
    lemma_deltas_show_no_call(s.pending_deltas, id);
    let d = delta_effects(s.pending_deltas);
    let fx = finish_root(s, session).effects;
    assert forall|i: int| 0 <= i < fx.len() implies !shows_call(#[trigger] fx[i], id) by {
        if i < d.len() {
            assert(fx[i] == d[i]);
        }
    }
}

#[verifier::rlimit(60)]
proof fn lemma_part_announces_once(
    s: RemoteStateV,
    props: JsonV,
    g: GateV,
    out: OutsideV,
    id: Seq<char>,
)
    ensures
        announces_once(s, on_part_updated(s, props, g, out), id),
{
    reveal(announces_once);
    let step = on_part_updated(s, props, g, out);
    match props.field("part"@) {
        None => {
            lemma_silent_step(s, step, id);
        },
        Some(part) => {
            let f = flushed(s, part);
            match part.field_text("id"@) {
                Some(p) => {
                    lemma_deltas_show_no_call(s.pending_deltas.filter(of_part(p)), id);
                },
                None => {},
            }
            assert(forall|i: int| 0 <= i < f.effects.len() ==> !shows_call(#[trigger] f.effects[i], id));
            reveal_strlit("reasoning");
            reveal_strlit("tool");
            assert("reasoning"@.len() != "tool"@.len());
            if part.field_text("type"@) == Some("tool"@) {
                match out.tool_call {
                    None => {
                        assert(step.effects =~= f.effects);
                        lemma_silent_step(s, step, id);
                    },
                    Some(call) => {
                        lemma_with_member(s.opencode_tool_call_ids, call.tool_call_id, id);
                        let n = f.effects.len() as int;
                        let t = tool_part(f.state, g, out);
                        assert(t.effects.len() <= 2);
                        assert(step.effects[n] == t.effects[0]);
                        assert forall|i: int| 0 <= i < step.effects.len() && i != n implies !shows_call(
                            #[trigger] step.effects[i],
                            id,
                        ) by {
                            if i < n {
                                assert(step.effects[i] == f.effects[i]);
                            } else {
                                assert(step.effects[i] == t.effects[i - n]);
                            }
                        }
                        assert(shows_call(step.effects[n], id) <==> call.tool_call_id == id);
                    },
                }
            } else {
                lemma_silent_step(s, step, id);
            }
        },
    }
}

proof fn lemma_rest_shows_no_call(s: RemoteStateV, told: Seq<EffectV>, g: GateV, id: Seq<char>)
    requires
        forall|i: int| 0 <= i < told.len() ==> !shows_call(#[trigger] told[i], id),
    ensures
        announces_once(s, after(told, rest(s, g)), id),
{
    lemma_finish_shows_no_call(s, g.session_id, id);
    let f = rest(s, g);
    let step = after(told, f);
    assert(forall|i: int| 0 <= i < f.effects.len() ==> !shows_call(#[trigger] f.effects[i], id));
    assert forall|i: int| 0 <= i < step.effects.len() implies !shows_call(
        #[trigger] step.effects[i],
        id,
    ) by {
        if i < told.len() {
            assert(step.effects[i] == told[i]);
        } else {
            assert(step.effects[i] == f.effects[i - told.len()]);
        }
    }
    lemma_silent_step(s, step, id);
}

proof fn lemma_status_announces_once(s: RemoteStateV, props: JsonV, g: GateV, id: Seq<char>)
    ensures
        announces_once(s, on_status(s, props, g), id),
{
    let step = on_status(s, props, g);
    if status_type_of(props) == Some("idle"@) && status_type_of(props) != Some("busy"@) {
        let told = step.effects.take(
            if g.session_id is Some {
                1
            } else {
                0
            },
        );
        assert(step.effects =~= told + rest(s, g).effects);
        lemma_rest_shows_no_call(s, told, g, id);
    } else {
        lemma_silent_step(s, step, id);
    }
}

proof fn lemma_idle_announces_once(s: RemoteStateV, props: JsonV, g: GateV, now: i64, id: Seq<char>)
    ensures
        announces_once(s, on_idle(s, props, g, now), id),
{
    let step = on_idle(s, props, g, now);
    let told = step.effects.take(
        if g.session_id is Some {
            1
        } else {
            0
        },
    );
    assert(step.effects =~= told + rest(s, g).effects);
    lemma_rest_shows_no_call(s, told, g, id);
}

proof fn lemma_message_announces_once(
    s: RemoteStateV,
    props: JsonV,
    g: GateV,
    out: OutsideV,
    id: Seq<char>,
)
    ensures
        announces_once(s, on_message_updated(s, props, g, out), id),
{
    let step = on_message_updated(s, props, g, out);
    match props.field("info"@) {
        None => {
            lemma_silent_step(s, step, id);
        },
        Some(info) => {
            let a = model_info(s, info);
            let b = context_usage(a.state, info, out);
            let f = finish_root(b.state, g.session_id);
            lemma_finish_shows_no_call(b.state, g.session_id, id);
            if info.field_text("role"@) == Some("assistant"@) && info.field_text("finish"@) == Some(
                "stop"@,
            ) && !g.is_child {
                let before = a.effects + b.effects;
                assert(step.effects == before + f.effects);
                assert forall|i: int| 0 <= i < step.effects.len() implies !shows_call(
                    #[trigger] step.effects[i],
                    id,
                ) by {
                    if i >= before.len() {
                        assert(step.effects[i] == f.effects[i - before.len()]);
                    } else if i >= a.effects.len() {
                        assert(step.effects[i] == b.effects[i - a.effects.len()]);
                    } else {
                        assert(step.effects[i] == a.effects[i]);
                    }
                }
            }
            lemma_silent_step(s, step, id);
        },
    }
}

proof fn lemma_question_announces_once(s: RemoteStateV, props: JsonV, id: Seq<char>)
    ensures
        announces_once(s, on_question_asked(s, props), id),
{
    lemma_silent_step(s, on_question_asked(s, props), id);
}

#[verifier::rlimit(60)]
proof fn lemma_event_announces_once(
    s: RemoteStateV,
    t: Seq<char>,
    props: JsonV,
    g: GateV,
    out: OutsideV,
    opencode: bool,
    id: Seq<char>,
)
    ensures
        announces_once(s, on_event(s, t, props, g, out, opencode), id),
{
    match kind_of(t) {
        EventKind::PartUpdated => {
            lemma_part_announces_once(s, props, g, out, id);
        },
        EventKind::SessionStatus => {
            lemma_status_announces_once(s, props, g, id);
        },
        EventKind::SessionIdle => {
            lemma_idle_announces_once(s, props, g, out.now, id);
        },
        EventKind::MessageUpdated => {
            lemma_message_announces_once(s, props, g, out, id);
        },
        EventKind::QuestionAsked => {
            lemma_question_announces_once(s, props, id);
        },
        EventKind::SessionError => {
            lemma_silent_step(s, on_error(s, props, g), id);
        },
        EventKind::Retried => {
            lemma_silent_step(s, on_retried(s, props), id);
        },
        EventKind::PermissionAsked => {
            lemma_silent_step(s, on_permission_asked(s, props, g, out.now, opencode), id);
        },
        EventKind::PartDelta => {
            lemma_silent_step(s, on_part_delta(s, props), id);
        },
        EventKind::ToolInput | EventKind::ToolProgress | EventKind::TodoUpdated => {
            lemma_silent_step(s, on_event(s, t, props, g, out, opencode), id);
        },
        EventKind::ModelSwitched | EventKind::AgentSwitched | EventKind::SessionCompacted => {
            lemma_silent_step(s, on_event(s, t, props, g, out, opencode), id);
        },
        _ => {
            assert(on_event(s, t, props, g, out, opencode).effects.len() <= 1);
            lemma_silent_step(s, on_event(s, t, props, g, out, opencode), id);
        },
    }
}

proof fn lemma_data_announces_once(
    s: RemoteStateV,
    data: Seq<char>,
    out: OutsideV,
    opencode: bool,
    id: Seq<char>,
)
    ensures
        announces_once(s, on_data(s, data, out, opencode), id),
{
    let step = on_data(s, data, out, opencode);
    match parsed_text(data) {
        None => {
            lemma_silent_step(s, step, id);
        },
        Some(parsed) => {
            let raw = unwrapped(parsed);
            match (raw.field_text("type"@), raw.field("properties"@)) {
                (Some(t), Some(props)) => match gate_of(s, t, props, out) {
                    Passage::Pass(g) => {
                        lemma_event_announces_once(s, t, props, g, out, opencode, id);
                    },
                    _ => {
                        lemma_silent_step(s, step, id);
                    },
                },
                _ => {
                    lemma_silent_step(s, step, id);
                },
            }
        },
    }
}

#[verifier::rlimit(60)]
proof fn lemma_run_knows_calls(
    s: RemoteStateV,
    events: Seq<(Seq<char>, OutsideV)>,
    opencode: bool,
    id: Seq<char>,
)
    ensures
        run(s, events, opencode).state.opencode_tool_call_ids.contains(id) <==> (
        s.opencode_tool_call_ids.contains(id) || exists|j: int|
            0 <= j < run(s, events, opencode).effects.len() && #[trigger] shows_call(
                run(s, events, opencode).effects[j],
                id,
            )),
    decreases events.len(),
{
    reveal(announces_once);
    if events.len() > 0 {
        let before = run(s, events.drop_last(), opencode);
        let step = on_data(before.state, events.last().0, events.last().1, opencode);
        let all = run(s, events, opencode).effects;
        lemma_run_knows_calls(s, events.drop_last(), opencode, id);
        lemma_data_announces_once(before.state, events.last().0, events.last().1, opencode, id);
        let n = before.effects.len() as int;
        assert(all == before.effects + step.effects);
        if exists|j: int| 0 <= j < before.effects.len() && #[trigger] shows_call(before.effects[j], id) {
            let j = choose|j: int|
                0 <= j < before.effects.len() && #[trigger] shows_call(before.effects[j], id);
            assert(shows_call(all[j], id));
        }
        if exists|j: int| 0 <= j < step.effects.len() && #[trigger] shows_call(step.effects[j], id) {
            let j = choose|j: int|
                0 <= j < step.effects.len() && #[trigger] shows_call(step.effects[j], id);
            assert(all[n + j] == step.effects[j]);
            assert(shows_call(all[n + j], id));
        }
        if exists|j: int| 0 <= j < all.len() && #[trigger] shows_call(all[j], id) {
            let j = choose|j: int| 0 <= j < all.len() && #[trigger] shows_call(all[j], id);
            if j < n {
                assert(all[j] == before.effects[j]);
                assert(shows_call(before.effects[j], id));
            } else {
                assert(all[j] == step.effects[j - n]);
                assert(shows_call(step.effects[j - n], id));
            }
        }
    }
}

#[verifier::rlimit(60)]
proof fn lemma_run_announces_once(
    s: RemoteStateV,
    events: Seq<(Seq<char>, OutsideV)>,
    opencode: bool,
    id: Seq<char>,
    i: int,
)
    requires
        0 <= i < run(s, events, opencode).effects.len(),
        shows_call(run(s, events, opencode).effects[i], id),
    ensures
        shows_new_call(run(s, events, opencode).effects[i], id) <==> (
        !s.opencode_tool_call_ids.contains(id) && forall|j: int|
            0 <= j < i ==> !shows_call(#[trigger] run(s, events, opencode).effects[j], id)),
    decreases events.len(),
{
    reveal(announces_once);
    if events.len() > 0 {
        let before = run(s, events.drop_last(), opencode);
        let step = on_data(before.state, events.last().0, events.last().1, opencode);
        let all = run(s, events, opencode).effects;
        let n = before.effects.len() as int;
        assert(all == before.effects + step.effects);
        lemma_data_announces_once(before.state, events.last().0, events.last().1, opencode, id);
        lemma_run_knows_calls(s, events.drop_last(), opencode, id);
        if i < n {
            assert(all[i] == before.effects[i]);
            lemma_run_announces_once(s, events.drop_last(), opencode, id, i);
            assert(forall|j: int| 0 <= j < i ==> #[trigger] all[j] == before.effects[j]);
            assert(forall|j: int| 0 <= j < i ==> #[trigger] before.effects[j] == all[j]);
        } else {
            assert(all[i] == step.effects[i - n]);
            assert(shows_call(step.effects[i - n], id));
            if before.state.opencode_tool_call_ids.contains(id) {
                if !s.opencode_tool_call_ids.contains(id) {
                    let j = choose|j: int|
                        0 <= j < before.effects.len() && #[trigger] shows_call(before.effects[j], id);
                    assert(all[j] == before.effects[j]);
                    assert(shows_call(all[j], id));
                }
            } else {
                assert forall|j: int| 0 <= j < i implies !shows_call(#[trigger] all[j], id) by {
                    if j < n {
                        assert(all[j] == before.effects[j]);
                        assert(!shows_call(before.effects[j], id));
                    } else {
                        assert(all[j] == step.effects[j - n]);
                        if shows_call(step.effects[j - n], id) {
                            assert(!shows_call(step.effects[i - n], id));
                        }
                    }
                }
            }
        }
    }
}

/// Whatever events come, listeners are told of a tool call as a new one the first time
/// that it is shown, and as an update every time after.
pub proof fn a_tool_call_is_announced_once(
    workspace: Seq<char>,
    resume: Option<Seq<char>>,
    events: Seq<(Seq<char>, OutsideV)>,
    opencode: bool,
    id: Seq<char>,
    first: bool,
    update: JsonV,
    i: int,
)
    requires
        0 <= i < run(initial_state(workspace, resume), events, opencode).effects.len(),
        run(initial_state(workspace, resume), events, opencode).effects[i] == EffectV::Emit(
            AgentStreamEventV::AcpToolCall { tool_call_id: id, first, update },
        ),
    ensures
        first <==> forall|j: int|
            0 <= j < i ==> !shows_call(
                #[trigger] run(initial_state(workspace, resume), events, opencode).effects[j],
                id,
            ),
{
    lemma_run_announces_once(initial_state(workspace, resume), events, opencode, id, i);
}

/// A sub-agent's tool call is followed by a report of its progress where something
/// changed and the last report is half a second old, and by none otherwise.
pub proof fn progress_is_reported_twice_a_second(
    s: RemoteStateV,
    parsed: JsonV,
    out: OutsideV,
    opencode: bool,
    props: JsonV,
    part: JsonV,
    root: Seq<char>,
    child: Seq<char>,
    last: i64,
)
    requires
        is_event(parsed, "message.part.updated"@, props),
        about_child(s, props, root, child),
        props.field("part"@) == Some(part),
        part.field_text("type"@) == Some("tool"@),
        out.tool_call is Some,
        assoc(s.last_subtask_progress_ms, child) == Some(last),
        0 <= last <= out.now,
    ensures
        ({
            let step = on_raw(s, parsed, out, opencode);
            let report = EffectV::ReportChildProgress { parent_id: root, child_id: child };
            &&& (step.effects.last() == report) == (out.child_changed && out.now - last >= 500)
            &&& assoc(step.state.last_subtask_progress_ms, child) == Some(
                if step.effects.last() == report {
                    out.now
                } else {
                    last
                },
            )
        }),
{
    event_types_call_for_what_they_name();
    reveal_strlit("session.created");
    reveal_strlit("message.part.updated");
    assert("session.created"@.len() != "message.part.updated"@.len());
    lemma_child_event(s, parsed, out, opencode, "message.part.updated"@, props, root, child);
    reveal_strlit("reasoning");
    reveal_strlit("tool");
    assert("reasoning"@.len() != "tool"@.len());
    crate::collections::entry_reads_back(s.last_subtask_progress_ms, child, out.now);
}

// ---- Plans, errors, models ----

/// A to-do list is shown as the plan of its session, entry by entry.
pub proof fn to_do_lists_are_plans(
    s: RemoteStateV,
    parsed: JsonV,
    out: OutsideV,
    opencode: bool,
    props: JsonV,
    todos: Seq<JsonV>,
)
    requires
        is_event(parsed, "todo.updated"@, props),
        about_root(s, props),
        props.field("todos"@) == Some(JsonV::Array(todos)),
    ensures
        on_raw(s, parsed, out, opencode).state == s,
        on_raw(s, parsed, out, opencode).effects == seq![
            EffectV::Emit(
                AgentStreamEventV::Plan {
                    session_id: props.field_text("sessionID"@),
                    entries: todos,
                },
            ),
        ],
{
    event_types_call_for_what_they_name();
    lemma_root_event(s, parsed, out, opencode, "todo.updated"@, props);
}

/// An error of the root session is shown with the server's words and ends the
/// conversation's work, unless the server says that it can go on and where: then it is
/// shown as recovered, and the work goes on.
pub proof fn errors_are_shown(
    s: RemoteStateV,
    parsed: JsonV,
    out: OutsideV,
    opencode: bool,
    props: JsonV,
    data: JsonV,
    words: Seq<char>,
    message: Seq<char>,
    part: Seq<char>,
)
    requires
        is_event(parsed, "session.error"@, props),
        about_root(s, props),
        props.field("error"@) matches Some(e) && e.field("data"@) == Some(data),
        data.field_text("message"@) == Some(words),
        words.len() <= 500,
        props.field_text("messageID"@) == Some(message),
        props.field_text("partID"@) == Some(part),
        message.len() > 0,
        part.len() > 0,
    ensures
        ({
            let step = on_raw(s, parsed, out, opencode);
            let goes_on = props.field("recoverable"@) == Some(JsonV::Bool(true));
            &&& step.state == s
            &&& goes_on ==> step.effects.len() == 1 && (step.effects[0] matches EffectV::Emit(
                AgentStreamEventV::SessionErrorRecovered { message_id, part_id, error, recovery_action },
            ) && message_id == message && part_id == part && error.message == crate::events::redacted(words)
                && error.recoverable && recovery_action == match props.field("recoveryAction"@) {
                Some(JsonV::Str(a)) => a,
                Some(_) => "retry"@,
                None => match props.field_text("recovery_action"@) {
                    Some(a) => a,
                    None => "retry"@,
                },
            })
            &&& props.field("recoverable"@) == Some(JsonV::Bool(false)) ==> step.effects.len() == 2 && (
            step.effects[0] matches EffectV::Emit(
                AgentStreamEventV::Error { message: m, code, recoverable, .. },
            ) && m == crate::events::redacted(words) && code is None && recoverable == Some(false))
                && step.effects[1] == EffectV::TransitionTo(ConversationStatus::Finished)
        }),
{
    event_types_call_for_what_they_name();
    lemma_root_event(s, parsed, out, opencode, "session.error"@, props);
}

/// A switch of the model is remembered for the next prompt, and told with the provider
/// before the model.
#[verifier::rlimit(60)]
pub proof fn a_switched_model_is_told(
    s: RemoteStateV,
    parsed: JsonV,
    out: OutsideV,
    opencode: bool,
    props: JsonV,
    model: JsonV,
    provider: Seq<char>,
    id: Seq<char>,
    variant: Seq<char>,
)
    requires
        is_event(parsed, "session.next.model.switched"@, props),
        about_root(s, props),
        props.field("model"@) == Some(model),
        model.field_text("providerID"@) == Some(provider),
        model.field_text("id"@) == Some(id),
        model.field_text("variant"@) == Some(variant),
    ensures
        ({
            let step = on_raw(s, parsed, out, opencode);
            &&& step.state == (RemoteStateV { desired_model: step.state.desired_model, ..s })
            &&& step.state.desired_model matches Some(d) && d.field_text("modelID"@) == Some(id)
                && d.field_text("providerID"@) == Some(provider) && d.field_text("variant"@) == Some(variant)
            &&& step.effects.len() == 1
            &&& step.effects[0] matches EffectV::Emit(AgentStreamEventV::AcpModelInfo(told))
                && told.field_text("current_model_id"@) == Some(id) && told.field_text(
                "current_model_label"@,
            ) == Some(provider + "/"@ + id)
        }),
{
    event_types_call_for_what_they_name();
    lemma_root_event(s, parsed, out, opencode, "session.next.model.switched"@, props);
    let step = on_raw(s, parsed, out, opencode);
    reveal_with_fuel(crate::json::lookup, 4);
    reveal_strlit("modelID");
    reveal_strlit("providerID");
    reveal_strlit("variant");
    reveal_strlit("current_model_id");
    reveal_strlit("current_model_label");
    assert("modelID"@.len() == 7 && "providerID"@.len() == 10 && "variant"@.len() == 7
        && "current_model_id"@.len() == 16 && "current_model_label"@.len() == 19);
    assert("modelID"@[0] != "variant"@[0]);
    let d = step.state.desired_model->0->Object_0;
    assert(d.drop_first()[0] == d[1]);
    assert(d.drop_first().drop_first()[0] == d[2]);
    let told = step.effects[0]->Emit_0->AcpModelInfo_0->Object_0;
    assert(told.drop_first()[0] == told[1]);
}

/// A switch of the agent is remembered for the next prompt and told as the mode.
pub proof fn a_switched_agent_is_told(
    s: RemoteStateV,
    parsed: JsonV,
    out: OutsideV,
    opencode: bool,
    props: JsonV,
    agent: Seq<char>,
)
    requires
        is_event(parsed, "session.next.agent.switched"@, props),
        about_root(s, props),
        props.field_text("agent"@) == Some(agent),
    ensures
        on_raw(s, parsed, out, opencode).state == (RemoteStateV { desired_agent: Some(agent), ..s }),
        on_raw(s, parsed, out, opencode).effects == seq![
            EffectV::Emit(
                AgentStreamEventV::AcpModeInfo(JsonV::Object(seq![("mode"@, JsonV::Str(agent))])),
            ),
        ],
{
    event_types_call_for_what_they_name();
    lemma_root_event(s, parsed, out, opencode, "session.next.agent.switched"@, props);
}

/// The model that writes a message is told the first time that the message names it, with
/// the message, the provider and the model each in its place.
pub proof fn the_writing_model_is_told(
    s: RemoteStateV,
    parsed: JsonV,
    out: OutsideV,
    opencode: bool,
    props: JsonV,
    info: JsonV,
    message: Seq<char>,
    model: Seq<char>,
    provider: Seq<char>,
)
    requires
        is_event(parsed, "message.updated"@, props),
        about_root(s, props),
        props.field("info"@) == Some(info),
        info.field_text("role"@) == Some("assistant"@),
        info.field_text("finish"@) != Some("stop"@),
        info.field_text("id"@) == Some(message),
        info.field_text("modelID"@) == Some(model),
        info.field_text("providerID"@) == Some(provider),
    ensures
        on_raw(s, parsed, out, opencode).effects == if s.model_info_emitted.contains(message) {
            Seq::empty()
        } else {
            seq![
                EffectV::Emit(
                    AgentStreamEventV::AssistantModelInfo {
                        message_id: message,
                        provider_id: provider,
                        model_id: model,
                    },
                ),
            ]
        },
        on_raw(s, parsed, out, opencode).state.model_info_emitted.contains(message),
{
    event_types_call_for_what_they_name();
    lemma_root_event(s, parsed, out, opencode, "message.updated"@, props);
    lemma_with_member(s.model_info_emitted, message, message);
}

/// What the user or the system wrote is not shown again: only an assistant's message does
/// anything.
pub proof fn only_an_assistant_writes(
    s: RemoteStateV,
    parsed: JsonV,
    out: OutsideV,
    opencode: bool,
    props: JsonV,
    info: JsonV,
)
    requires
        is_event(parsed, "message.updated"@, props),
        about_root(s, props),
        props.field("info"@) == Some(info),
        info.field_text("role"@) != Some("assistant"@),
    ensures
        on_raw(s, parsed, out, opencode).state == s,
        on_raw(s, parsed, out, opencode).effects.len() == 0,
{
    event_types_call_for_what_they_name();
    lemma_root_event(s, parsed, out, opencode, "message.updated"@, props);
}

/// The count under a name, nothing where there is none.
pub open spec fn counted(v: JsonV, key: Seq<char>) -> nat {
    match v.field(key) {
        Some(JsonV::Number(NumberV::Unsigned(n))) => n as nat,
        _ => 0,
    }
}

/// A finished message tells how full the window is: all the tokens that it counts, beside
/// the window of its model.
#[verifier::rlimit(60)]
pub proof fn the_window_is_told(
    s: RemoteStateV,
    parsed: JsonV,
    out: OutsideV,
    opencode: bool,
    props: JsonV,
    info: JsonV,
    tokens: JsonV,
    cache: JsonV,
    model: Seq<char>,
    limits: Seq<(Seq<char>, u64)>,
    size: u64,
)
    requires
        is_event(parsed, "message.updated"@, props),
        about_root(s, props),
        props.field("info"@) == Some(info),
        info.field_text("role"@) == Some("assistant"@),
        info.field_text("finish"@) == Some("stop"@),
        info.field("tokens"@) == Some(tokens),
        tokens.field("cache"@) == Some(cache),
        info.field_text("modelID"@) == Some(model),
        s.model_context_limits == Some(limits) || (s.model_context_limits is None && out.context_limits
            == limits),
        assoc(limits, model) == Some(size),
        0 < counted(tokens, "input"@) + counted(tokens, "output"@) + counted(tokens, "reasoning"@) + counted(
            cache,
            "read"@,
        ) + counted(cache, "write"@) <= u64::MAX,
    ensures
        on_raw(s, parsed, out, opencode).state.model_context_limits == Some(limits),
        exists|i: int|
            0 <= i < on_raw(s, parsed, out, opencode).effects.len() && #[trigger] on_raw(
                s,
                parsed,
                out,
                opencode,
            ).effects[i] == EffectV::Emit(
                AgentStreamEventV::AcpContextUsage(
                    JsonV::Object(
                        seq![
                            (
                                "used"@,
                                JsonV::Number(
                                    NumberV::Unsigned(
                                        (counted(tokens, "input"@) + counted(tokens, "output"@) + counted(
                                            tokens,
                                            "reasoning"@,
                                        ) + counted(cache, "read"@) + counted(cache, "write"@)) as u64,
                                    ),
                                ),
                            ),
                            ("size"@, JsonV::Number(NumberV::Unsigned(size))),
                        ],
                    ),
                ),
            ),
{
    event_types_call_for_what_they_name();
    lemma_root_event(s, parsed, out, opencode, "message.updated"@, props);
    let a = model_info(s, info);
    let b = context_usage(a.state, info, out);
    let used = (counted(tokens, "input"@) + counted(tokens, "output"@) + counted(tokens, "reasoning"@)
        + counted(cache, "read"@) + counted(cache, "write"@)) as u64;
    assert(crate::models::tokens_used(tokens) == used);
    let fx = on_raw(s, parsed, out, opencode).effects;
    let n = a.effects.len() as int;
    assert(b.effects.len() == 1);
    let told = b.effects[0]->Emit_0->AcpContextUsage_0->Object_0;
    assert(told =~= seq![
        ("used"@, JsonV::Number(NumberV::Unsigned(used))),
        ("size"@, JsonV::Number(NumberV::Unsigned(size))),
    ]);
    assert(fx[n] == b.effects[0]);
}

// ---- Tools at work, retries, summaries ----

/// The phase that a tool-input event names by the end of its type.
pub open spec fn names_phase(t: Seq<char>, phase: ToolInputPhase) -> bool {
    ||| phase is Started && (t == "session.next.tool.input.started"@ || t
        == "session.next.tool_input.started"@ || t == "message.next.tool.input.started"@)
    ||| phase is Delta && (t == "session.next.tool.input.delta"@ || t == "session.next.tool_input.delta"@
        || t == "message.next.tool.input.delta"@)
    ||| phase is Ended && (t == "session.next.tool.input.ended"@ || t == "session.next.tool_input.ended"@
        || t == "message.next.tool.input.ended"@)
}

proof fn lemma_phases(t: Seq<char>, phase: ToolInputPhase)
    requires
        names_phase(t, phase),
    ensures
        crate::stream::phase_of(t) == Some(phase),
        kind_of(t) is ToolInput,
        t != "session.created"@,
{
    event_types_call_for_what_they_name();
    reveal_strlit("session.created");
    reveal_strlit("session.next.tool.input.started");
    reveal_strlit("session.next.tool_input.started");
    reveal_strlit("message.next.tool.input.started");
    reveal_strlit("session.next.tool.input.delta");
    reveal_strlit("session.next.tool_input.delta");
    reveal_strlit("message.next.tool.input.delta");
    reveal_strlit("session.next.tool.input.ended");
    reveal_strlit("session.next.tool_input.ended");
    reveal_strlit("message.next.tool.input.ended");
    assert("session.created"@.len() == 15);
    assert("session.next.tool.input.started"@.len() == 31 && "session.next.tool_input.started"@.len() == 31
        && "message.next.tool.input.started"@.len() == 31);
    assert("session.next.tool.input.delta"@.len() == 29 && "session.next.tool_input.delta"@.len() == 29
        && "message.next.tool.input.delta"@.len() == 29);
    assert("session.next.tool.input.ended"@.len() == 29 && "session.next.tool_input.ended"@.len() == 29
        && "message.next.tool.input.ended"@.len() == 29);
    assert("session.next.tool.input.delta"@[24] == 'd' && "session.next.tool_input.delta"@[24] == 'd'
        && "message.next.tool.input.delta"@[24] == 'd');
    assert("session.next.tool.input.ended"@[24] == 'e' && "session.next.tool_input.ended"@[24] == 'e'
        && "message.next.tool.input.ended"@[24] == 'e');
}

/// A tool's arguments are told under the session, the message and the part that they
/// belong to, in the phase that the event names; a sub-agent's with its parent.
pub proof fn tool_arguments_are_told(
    s: RemoteStateV,
    parsed: JsonV,
    out: OutsideV,
    opencode: bool,
    t: Seq<char>,
    phase: ToolInputPhase,
    props: JsonV,
    root: Seq<char>,
    session: Seq<char>,
    message: Seq<char>,
    part: Seq<char>,
)
    requires
        is_event(parsed, t, props),
        names_phase(t, phase),
        s.opencode_session_id == Some(root),
        props.field_text("sessionID"@) == Some(session),
        session == root || assoc(s.child_sessions, session) is Some,
        props.field_text("messageID"@) == Some(message),
        props.field_text("partID"@) == Some(part),
    ensures
        on_raw(s, parsed, out, opencode).state == s,
        on_raw(s, parsed, out, opencode).effects.len() == 1,
        on_raw(s, parsed, out, opencode).effects[0] matches EffectV::Emit(AgentStreamEventV::ToolInput(d))
            && d.session_id == session && d.parent_session_id == (if session == root {
            None
        } else {
            Some(root)
        }) && d.message_id == message && d.part_id == part && d.phase == phase && (
        props.field("toolName"@) is Some ==> d.tool_name == props.field_text("toolName"@)) && (
        props.field("inputDelta"@) is Some ==> d.input_delta == props.field_text("inputDelta"@)) && (
        props.field("finalInput"@) is Some ==> d.final_input == props.field("finalInput"@)) && (
        props.field("startedAt"@) matches Some(JsonV::Number(NumberV::Negative(n))) ==> d.started_at == Some(
            n,
        )) && (props.field("completedAt"@) matches Some(JsonV::Number(NumberV::Negative(n)))
            ==> d.completed_at == Some(n)) && (props.field("startedAt"@) matches Some(
            JsonV::Number(NumberV::Unsigned(n)),
        ) ==> n <= i64::MAX ==> d.started_at == Some(n as i64)) && (props.field("completedAt"@) matches Some(
            JsonV::Number(NumberV::Unsigned(n)),
        ) ==> n <= i64::MAX ==> d.completed_at == Some(n as i64)),
{
    lemma_phases(t, phase);
    if session == root {
        lemma_root_event(s, parsed, out, opencode, t, props);
    } else {
        lemma_child_event(s, parsed, out, opencode, t, props, root, session);
    }
}

/// A tool's progress is told under the session, the message and the part that it belongs
/// to, as listeners take it, with the server's time or else the present one.
pub proof fn tool_progress_is_told(
    s: RemoteStateV,
    parsed: JsonV,
    out: OutsideV,
    opencode: bool,
    props: JsonV,
    session: Seq<char>,
    message: Seq<char>,
    part: Seq<char>,
    tool: Seq<char>,
)
    requires
        is_event(parsed, "session.next.tool.progress"@, props),
        s.opencode_session_id == Some(session),
        props.field_text("sessionID"@) == Some(session),
        props.field_text("messageID"@) == Some(message),
        props.field_text("partID"@) == Some(part),
        props.field_text("toolName"@) == Some(tool),
        props.field("at"@) is None,
    ensures
        on_raw(s, parsed, out, opencode).effects == seq![
            EffectV::Emit(
                AgentStreamEventV::ToolProgress(
                    ToolProgressEventDataV {
                        session_id: session,
                        parent_session_id: None,
                        message_id: message,
                        part_id: part,
                        tool_name: tool,
                        progress: out.progress,
                        at: out.now,
                    },
                ),
            ),
        ],
{
    event_types_call_for_what_they_name();
    lemma_root_event(s, parsed, out, opencode, "session.next.tool.progress"@, props);
}

/// A request to the model that is tried again is told with the attempt and the reason
/// that the server gives.
pub proof fn retries_are_told(
    s: RemoteStateV,
    parsed: JsonV,
    out: OutsideV,
    opencode: bool,
    props: JsonV,
    message: Seq<char>,
    part: Seq<char>,
    attempt: u64,
    reason: Seq<char>,
)
    requires
        is_event(parsed, "session.next.retried"@, props),
        about_root(s, props),
        props.field_text("messageID"@) == Some(message),
        props.field_text("partID"@) == Some(part),
        message.len() > 0,
        part.len() > 0,
        props.field("attempt"@) == Some(JsonV::Number(NumberV::Unsigned(attempt))),
        props.field_text("reason"@) == Some(reason),
        reason == "rate_limit"@ || reason == "transient"@ || reason == "tool_error"@ || reason
            == "provider_error"@ || reason == "context_overflow"@,
    ensures
        on_raw(s, parsed, out, opencode).state == s,
        on_raw(s, parsed, out, opencode).effects.len() == 1,
        on_raw(s, parsed, out, opencode).effects[0] matches EffectV::Emit(
            AgentStreamEventV::Retry { message_id, part_id, attempt: a, reason: r, retry_after, provider_hint },
        ) && message_id == message && part_id == part && a == attempt && r == reason && (
        props.field("retryAfter"@) matches Some(JsonV::Number(NumberV::Unsigned(n))) ==> retry_after == Some(
            n,
        )) && (props.field_text("providerHint"@) matches Some(h) ==> provider_hint == Some(h)),
{
    event_types_call_for_what_they_name();
    lemma_root_event(s, parsed, out, opencode, "session.next.retried"@, props);
}

/// A summary of the session's history is told with what it replaced.
pub proof fn summaries_are_told(
    s: RemoteStateV,
    parsed: JsonV,
    out: OutsideV,
    opencode: bool,
    props: JsonV,
    summary: Seq<char>,
    tokens: u64,
    range: JsonV,
    start: Seq<char>,
    end: Seq<char>,
)
    requires
        is_event(parsed, "session.compacted"@, props),
        about_root(s, props),
        props.field_text("summary"@) == Some(summary),
        props.field("tokensReclaimed"@) == Some(JsonV::Number(NumberV::Unsigned(tokens))),
        props.field("originalRange"@) == Some(range),
        range.field_text("startMessageId"@) == Some(start),
        range.field_text("endMessageId"@) == Some(end),
    ensures
        on_raw(s, parsed, out, opencode).state == s,
        on_raw(s, parsed, out, opencode).effects == seq![
            EffectV::Emit(
                AgentStreamEventV::OpencodeSessionCompacted {
                    summary,
                    tokens_reclaimed: tokens,
                    original_start_message_id: start,
                    original_end_message_id: end,
                },
            ),
        ],
{
    event_types_call_for_what_they_name();
    lemma_root_event(s, parsed, out, opencode, "session.compacted"@, props);
}

/// What the server may have changed is asked for anew: the windows of the models after a
/// change of the catalogue, the skills after a change of them. Nothing else is forgotten.
pub proof fn changed_lists_are_asked_for_anew(
    s: RemoteStateV,
    parsed: JsonV,
    out: OutsideV,
    opencode: bool,
    t: Seq<char>,
    props: JsonV,
)
    requires
        is_event(parsed, t, props),
        about_root(s, props),
        t == "models-dev.refreshed"@ || t == "catalog.model.updated"@ || t == "skill.updated"@,
    ensures
        on_raw(s, parsed, out, opencode).effects.len() == 0,
        t == "skill.updated"@ ==> on_raw(s, parsed, out, opencode).state == (RemoteStateV {
            opencode_skills: None,
            ..s
        }),
        t != "skill.updated"@ ==> on_raw(s, parsed, out, opencode).state == (RemoteStateV {
            model_context_limits: None,
            ..s
        }),
{
    event_types_call_for_what_they_name();
    lemma_root_event(s, parsed, out, opencode, t, props);
}

/// An event that is known to call for nothing does nothing; one that nobody knows is
/// noted by its type.
pub proof fn unknown_events_are_noted(
    s: RemoteStateV,
    parsed: JsonV,
    out: OutsideV,
    opencode: bool,
    t: Seq<char>,
    props: JsonV,
)
    requires
        is_event(parsed, t, props),
        about_root(s, props),
        kind_of(t) is Other,
    ensures
        on_raw(s, parsed, out, opencode).state == s,
        crate::events::known_ignored(t) ==> on_raw(s, parsed, out, opencode).effects.len() == 0,
        !crate::events::known_ignored(t) ==> on_raw(s, parsed, out, opencode).effects.len() == 1 && (on_raw(
            s,
            parsed,
            out,
            opencode,
        ).effects[0] matches EffectV::NoteUnhandled { event_type, .. } && event_type == t),
{
}

} // verus!

//! What holds of every run of events: a turn ends once, and only what concerns the
//! conversation has an effect on it.
use vstd::prelude::*;

use crate::collections::assoc;
use crate::dispatch::{
    after, already_allowed, card_effects, complete_child, context_usage, finish_root, flushed,
    gate_of, metadata_of, model_info, on_data, on_error, on_event, on_idle, on_message_updated,
    on_part_updated, on_permission_asked, on_question_asked, on_raw, on_status, rest, stay,
    status_type_of, tool_part, GateV, OutsideV, Passage, StepV,
};
use crate::events::{kind_of, unwrapped, EventKind};
use crate::json::{parsed_text, JsonV};
use crate::question::question_request_of;
use crate::state::{
    delta_at, delta_effect, delta_effects, has_request, initial_state, with_delta, PendingDeltaV,
    RemoteStateV,
};
use crate::types::{AgentStreamEventV, EffectV};

verus! {

/// Whether an effect tells listeners that the turn has ended.
pub open spec fn is_finish(e: EffectV) -> bool {
    e matches EffectV::Emit(AgentStreamEventV::Finish { .. })
}

/// How often listeners are told that a turn has ended.
pub open spec fn finishes(fx: Seq<EffectV>) -> nat
    decreases fx.len(),
{
    if fx.len() == 0 {
        0
    } else {
        finishes(fx.drop_last()) + if is_finish(fx.last()) {
            1nat
        } else {
            0nat
        }
    }
}

/// How many turns can still end before the user's next prompt.
pub open spec fn turns_left(s: RemoteStateV) -> nat {
    if s.root_turn_active || !s.finished_current_user_turn {
        1
    } else {
        0
    }
}

proof fn lemma_no_finish(fx: Seq<EffectV>)
    requires
        forall|i: int| 0 <= i < fx.len() ==> !is_finish(#[trigger] fx[i]),
    ensures
        finishes(fx) == 0,
    decreases fx.len(),
{
    if fx.len() > 0 {
        lemma_no_finish(fx.drop_last());
    }
}

proof fn lemma_finishes_add(a: Seq<EffectV>, b: Seq<EffectV>)
    ensures
        finishes(a + b) == finishes(a) + finishes(b),
    decreases b.len(),
{
    if b.len() == 0 {
        assert(a + b =~= a);
    } else {
        assert((a + b).drop_last() =~= a + b.drop_last());
        lemma_finishes_add(a, b.drop_last());
    }
}

proof fn lemma_deltas_do_not_finish(d: Seq<PendingDeltaV>)
    ensures
        finishes(delta_effects(d)) == 0,
{
    let fx = delta_effects(d);
    assert forall|i: int| 0 <= i < fx.len() implies !is_finish(#[trigger] fx[i]) by {
        assert(fx[i] == delta_effect(d[i]));
    }
    lemma_no_finish(fx);
}

proof fn lemma_finish_root(s: RemoteStateV, session: Option<Seq<char>>)
    ensures
        finishes(finish_root(s, session).effects) == if s.root_turn_active {
            1nat
        } else {
            0nat
        },
        turns_left(finish_root(s, session).state) + finishes(finish_root(s, session).effects)
            <= turns_left(s),
{
    if s.root_turn_active {
        lemma_deltas_do_not_finish(s.pending_deltas);
        let d = delta_effects(s.pending_deltas);
        let fx = finish_root(s, session).effects;
        let a = fx.drop_last();
        let b = a.drop_last();
        assert(b.drop_last() =~= d);
        assert(finishes(b) == 1);
        assert(finishes(a) == 1);
    }
}

/// An event tells listeners that a turn has ended at most as often as turns are
/// left, and uses them up.
pub proof fn an_event_ends_at_most_one_turn(
    s: RemoteStateV,
    parsed: JsonV,
    out: OutsideV,
    opencode: bool,
)
    ensures
        finishes(on_raw(s, parsed, out, opencode).effects) + turns_left(
            on_raw(s, parsed, out, opencode).state,
        ) <= turns_left(s),
{
    let raw = unwrapped(parsed);
    match (raw.field_text("type"@), raw.field("properties"@)) {
        (Some(t), Some(props)) => match gate_of(s, t, props, out) {
            Passage::Pass(g) => {
                lemma_event_turns(s, t, props, g, out, opencode);
            },
            _ => {
                lemma_no_finish(on_raw(s, parsed, out, opencode).effects);
            },
        },
        _ => {},
    }
}

#[verifier::rlimit(60)]
#[verifier::spinoff_prover]
proof fn lemma_event_turns(
    s: RemoteStateV,
    t: Seq<char>,
    props: JsonV,
    g: GateV,
    out: OutsideV,
    opencode: bool,
)
    ensures
        finishes(on_event(s, t, props, g, out, opencode).effects) + turns_left(
            on_event(s, t, props, g, out, opencode).state,
        ) <= turns_left(s),
        g.is_child ==> finishes(on_event(s, t, props, g, out, opencode).effects) == 0,
        g.is_child ==> on_event(s, t, props, g, out, opencode).state.root_turn_active
            == s.root_turn_active,
        g.is_child ==> on_event(s, t, props, g, out, opencode).state.finished_current_user_turn
            == s.finished_current_user_turn,
{
    let step = on_event(s, t, props, g, out, opencode);
    match kind_of(t) {
        EventKind::SessionStatus => {
            lemma_status_turns(s, props, g);
        },
        EventKind::SessionIdle => {
            lemma_idle_turns(s, props, g, out.now);
        },
        EventKind::SessionError => {
            lemma_no_finish(on_error(s, props, g).effects);
        },
        EventKind::PermissionAsked => {
            lemma_no_finish(on_permission_asked(s, props, g, out.now, opencode).effects);
        },
        EventKind::PartUpdated => {
            lemma_part_updated_turns(s, props, g, out);
        },
        EventKind::MessageUpdated => {
            lemma_message_updated_turns(s, props, g, out);
        },
        EventKind::QuestionAsked => {
            lemma_question_turns(s, props);
        },
        _ => {
            lemma_no_finish(step.effects);
        },
    }
}

proof fn lemma_status_turns(s: RemoteStateV, props: JsonV, g: GateV)
    ensures
        finishes(on_status(s, props, g).effects) + turns_left(on_status(s, props, g).state)
            <= turns_left(s),
        g.is_child ==> finishes(on_status(s, props, g).effects) == 0,
        g.is_child ==> on_status(s, props, g).state.root_turn_active == s.root_turn_active,
        g.is_child ==> on_status(s, props, g).state.finished_current_user_turn
            == s.finished_current_user_turn,
{
    let step = on_status(s, props, g);
    if status_type_of(props) == Some("busy"@) {
        lemma_no_finish(step.effects);
    } else if status_type_of(props) == Some("idle"@) {
        let r = rest(s, g);
        lemma_rest(s, g);
        let told = step.effects.take(step.effects.len() - r.effects.len());
        assert(step.effects =~= told + r.effects);
        lemma_no_finish(told);
        lemma_finishes_add(told, r.effects);
    } else {
        lemma_no_finish(step.effects);
    }
}

proof fn lemma_idle_turns(s: RemoteStateV, props: JsonV, g: GateV, now: i64)
    ensures
        finishes(on_idle(s, props, g, now).effects) + turns_left(on_idle(s, props, g, now).state)
            <= turns_left(s),
        g.is_child ==> finishes(on_idle(s, props, g, now).effects) == 0,
        g.is_child ==> on_idle(s, props, g, now).state == s,
{
    let step = on_idle(s, props, g, now);
    let r = rest(s, g);
    lemma_rest(s, g);
    let told = step.effects.take(step.effects.len() - r.effects.len());
    assert(step.effects =~= told + r.effects);
    lemma_no_finish(told);
    lemma_finishes_add(told, r.effects);
}

proof fn lemma_rest(s: RemoteStateV, g: GateV)
    ensures
        finishes(rest(s, g).effects) + turns_left(rest(s, g).state) <= turns_left(s),
        g.is_child ==> finishes(rest(s, g).effects) == 0 && rest(s, g).state == s,
{
    if g.is_child {
        lemma_no_finish(complete_child(g, false, None));
    } else {
        lemma_finish_root(s, g.session_id);
    }
}

proof fn lemma_question_turns(s: RemoteStateV, props: JsonV)
    ensures
        finishes(on_question_asked(s, props).effects) == 0,
        turns_left(on_question_asked(s, props).state) == turns_left(s),
        on_question_asked(s, props).state.root_turn_active == s.root_turn_active,
        on_question_asked(s, props).state.finished_current_user_turn
            == s.finished_current_user_turn,
{
    match question_request_of(props) {
        Some(req) => {
            let fx = on_question_asked(s, props).effects;
            assert forall|i: int| 0 <= i < fx.len() implies !is_finish(#[trigger] fx[i]) by {
                let cards = crate::question::cards_of(req);
                assert(fx == card_effects(cards) || fx == Seq::<EffectV>::empty());
            }
            lemma_no_finish(fx);
        },
        None => {},
    }
}

proof fn lemma_part_updated_turns(s: RemoteStateV, props: JsonV, g: GateV, out: OutsideV)
    ensures
        finishes(on_part_updated(s, props, g, out).effects) == 0,
        on_part_updated(s, props, g, out).state.root_turn_active == s.root_turn_active,
        on_part_updated(s, props, g, out).state.finished_current_user_turn
            == s.finished_current_user_turn,
{
    match props.field("part"@) {
        None => {},
        Some(part) => {
            let f = flushed(s, part);
            match part.field_text("id"@) {
                Some(id) => {
                    lemma_deltas_do_not_finish(s.pending_deltas.filter(crate::state::of_part(id)));
                },
                None => {},
            }
            if part.field_text("type"@) == Some("tool"@) && part.field_text("type"@) != Some(
                "reasoning"@,
            ) {
                let t = tool_part(f.state, g, out);
                lemma_no_finish(t.effects);
                lemma_finishes_add(f.effects, t.effects);
            }
        },
    }
}

proof fn lemma_message_updated_turns(s: RemoteStateV, props: JsonV, g: GateV, out: OutsideV)
    ensures
        finishes(on_message_updated(s, props, g, out).effects) + turns_left(
            on_message_updated(s, props, g, out).state,
        ) <= turns_left(s),
        g.is_child ==> finishes(on_message_updated(s, props, g, out).effects) == 0,
        g.is_child ==> on_message_updated(s, props, g, out).state.root_turn_active
            == s.root_turn_active,
        g.is_child ==> on_message_updated(s, props, g, out).state.finished_current_user_turn
            == s.finished_current_user_turn,
{
    match props.field("info"@) {
        None => {},
        Some(info) => {
            let a = model_info(s, info);
            lemma_no_finish(a.effects);
            let b = context_usage(a.state, info, out);
            lemma_no_finish(b.effects);
            let c = finish_root(b.state, g.session_id);
            lemma_finish_root(b.state, g.session_id);
            lemma_finishes_add(a.effects, b.effects);
            lemma_finishes_add(a.effects + b.effects, c.effects);
        },
    }
}

/// The events of a sub-agent neither start nor end the turn of the root session.
pub proof fn sub_agents_leave_the_turn_alone(
    s: RemoteStateV,
    t: Seq<char>,
    props: JsonV,
    g: GateV,
    out: OutsideV,
    opencode: bool,
)
    requires
        g.is_child,
    ensures
        finishes(on_event(s, t, props, g, out, opencode).effects) == 0,
        on_event(s, t, props, g, out, opencode).state.root_turn_active == s.root_turn_active,
        on_event(s, t, props, g, out, opencode).state.finished_current_user_turn
            == s.finished_current_user_turn,
{
    lemma_event_turns(s, t, props, g, out, opencode);
}

/// A run of events, each as it came in.
pub open spec fn run(
    s: RemoteStateV,
    events: Seq<(Seq<char>, OutsideV)>,
    opencode: bool,
) -> StepV
    decreases events.len(),
{
    if events.len() == 0 {
        stay(s)
    } else {
        let before = run(s, events.drop_last(), opencode);
        after(
            before.effects,
            on_data(before.state, events.last().0, events.last().1, opencode),
        )
    }
}

/// Between two prompts listeners are told at most once that the turn has ended,
/// whatever events come, and never where it had ended before.
pub proof fn a_turn_ends_at_most_once(
    s: RemoteStateV,
    events: Seq<(Seq<char>, OutsideV)>,
    opencode: bool,
)
    ensures
        finishes(run(s, events, opencode).effects) + turns_left(run(s, events, opencode).state)
            <= turns_left(s) <= 1,
    decreases events.len(),
{
    if events.len() > 0 {
        let before = run(s, events.drop_last(), opencode);
        a_turn_ends_at_most_once(s, events.drop_last(), opencode);
        let (data, out) = events.last();
        match parsed_text(data) {
            Some(parsed) => {
                an_event_ends_at_most_one_turn(before.state, parsed, out, opencode);
            },
            None => {},
        }
        let step = on_data(before.state, data, out, opencode);
        lemma_finishes_add(before.effects, step.effects);
    }
}

/// Whether an event says that the root session, and not a sub-agent's, is busy.
pub open spec fn says_root_is_busy(s: RemoteStateV, data: Seq<char>, out: OutsideV) -> bool {
    match parsed_text(data) {
        Some(parsed) => match (
            unwrapped(parsed).field_text("type"@),
            unwrapped(parsed).field("properties"@),
        ) {
            (Some(t), Some(props)) => {
                &&& gate_of(s, t, props, out) matches Passage::Pass(g) && !g.is_child
                &&& kind_of(t) is SessionStatus
                &&& status_type_of(props) == Some("busy"@)
            },
            _ => false,
        },
        None => false,
    }
}

proof fn lemma_message_arms_nothing(s: RemoteStateV, props: JsonV, g: GateV, out: OutsideV)
    ensures
        on_message_updated(s, props, g, out).state.root_turn_active ==> s.root_turn_active,
{
    match props.field("info"@) {
        None => {},
        Some(info) => {
            let a = model_info(s, info);
            assert(a.state.root_turn_active == s.root_turn_active);
            let b = context_usage(a.state, info, out);
            assert(b.state.root_turn_active == a.state.root_turn_active);
        },
    }
}

/// A turn comes under way only by an event that says that the root session is busy.
pub proof fn only_a_busy_root_starts_a_turn(
    s: RemoteStateV,
    data: Seq<char>,
    out: OutsideV,
    opencode: bool,
)
    requires
        !s.root_turn_active,
        on_data(s, data, out, opencode).state.root_turn_active,
    ensures
        says_root_is_busy(s, data, out),
{
    let parsed = parsed_text(data)->0;
    let raw = unwrapped(parsed);
    match (raw.field_text("type"@), raw.field("properties"@)) {
        (Some(t), Some(props)) => match gate_of(s, t, props, out) {
            Passage::Pass(g) => {
                match kind_of(t) {
                    EventKind::PartUpdated => {
                        lemma_part_updated_turns(s, props, g, out);
                    },
                    EventKind::MessageUpdated => {
                        lemma_message_arms_nothing(s, props, g, out);
                    },
                    EventKind::QuestionAsked => {
                        lemma_question_turns(s, props);
                    },
                    _ => {},
                }
            },
            _ => {},
        },
        _ => {},
    }
}

/// An event that says that the root session is busy brings a turn under way, unless the
/// turn of the user's prompt has ended.
pub proof fn a_busy_root_starts_a_turn(
    s: RemoteStateV,
    data: Seq<char>,
    out: OutsideV,
    opencode: bool,
)
    requires
        says_root_is_busy(s, data, out),
    ensures
        on_data(s, data, out, opencode).state.root_turn_active == (s.root_turn_active
            || !s.finished_current_user_turn),
        finishes(on_data(s, data, out, opencode).effects) == 0,
{
    let raw = unwrapped(parsed_text(data)->0);
    let props = raw.field("properties"@)->0;
    match gate_of(s, raw.field_text("type"@)->0, props, out) {
        Passage::Pass(g) => {
            reveal_strlit("busy");
            reveal_strlit("idle");
            assert("busy"@[0] != "idle"@[0]);
            lemma_no_finish(on_status(s, props, g).effects);
        },
        _ => {},
    }
}

/// Whether one of the first `n` events of a run said, when it came, that the root session
/// is busy.
pub open spec fn was_busy(
    s: RemoteStateV,
    events: Seq<(Seq<char>, OutsideV)>,
    opencode: bool,
    n: int,
) -> bool {
    exists|k: int|
        0 <= k < n && #[trigger] says_root_is_busy(
            run(s, events.take(k), opencode).state,
            events[k].0,
            events[k].1,
        )
}

proof fn lemma_under_way_was_busy(
    s: RemoteStateV,
    events: Seq<(Seq<char>, OutsideV)>,
    opencode: bool,
    n: int,
)
    requires
        !s.root_turn_active,
        0 <= n <= events.len(),
        run(s, events.take(n), opencode).state.root_turn_active,
    ensures
        was_busy(s, events, opencode, n),
    decreases n,
{
    if n > 0 {
        let before = run(s, events.take(n - 1), opencode).state;
        assert(events.take(n).drop_last() =~= events.take(n - 1));
        assert(events.take(n).last() == events[n - 1]);
        if before.root_turn_active {
            lemma_under_way_was_busy(s, events, opencode, n - 1);
            let k = choose|k: int|
                0 <= k < n - 1 && #[trigger] says_root_is_busy(
                    run(s, events.take(k), opencode).state,
                    events[k].0,
                    events[k].1,
                );
            assert(0 <= k < n);
        } else {
            only_a_busy_root_starts_a_turn(
                before,
                events[n - 1].0,
                events[n - 1].1,
                opencode,
            );
            assert(says_root_is_busy(
                run(s, events.take(n - 1), opencode).state,
                events[n - 1].0,
                events[n - 1].1,
            ));
        }
    } else {
        assert(events.take(0) =~= Seq::<(Seq<char>, OutsideV)>::empty());
    }
}

/// In a run that finds the root session at rest, listeners are told of an end only after
/// an event said that the root session is busy.
pub proof fn an_end_follows_a_start(
    s: RemoteStateV,
    events: Seq<(Seq<char>, OutsideV)>,
    opencode: bool,
    n: int,
)
    requires
        !s.root_turn_active,
        0 <= n < events.len(),
        finishes(
            on_data(
                run(s, events.take(n), opencode).state,
                events[n].0,
                events[n].1,
                opencode,
            ).effects,
        ) > 0,
    ensures
        was_busy(s, events, opencode, n),
{
    let before = run(s, events.take(n), opencode).state;
    if !before.root_turn_active {
        match parsed_text(events[n].0) {
            Some(parsed) => {
                only_a_started_turn_ends(before, parsed, events[n].1, opencode);
            },
            None => {},
        }
    }
    lemma_under_way_was_busy(s, events, opencode, n);
}

proof fn lemma_last_event_ends(
    s: RemoteStateV,
    events: Seq<(Seq<char>, OutsideV)>,
    opencode: bool,
)
    requires
        !s.root_turn_active,
        events.len() > 0,
        finishes(run(s, events, opencode).effects) > 0,
        finishes(run(s, events.drop_last(), opencode).effects) == 0,
    ensures
        was_busy(s, events, opencode, events.len() - 1),
{
    let n = events.len() - 1;
    assert(events.take(n) =~= events.drop_last());
    let before = run(s, events.drop_last(), opencode);
    let step = on_data(before.state, events.last().0, events.last().1, opencode);
    lemma_finishes_add(before.effects, step.effects);
    an_end_follows_a_start(s, events, opencode, n);
}

proof fn lemma_busy_earlier(
    s: RemoteStateV,
    events: Seq<(Seq<char>, OutsideV)>,
    opencode: bool,
)
    requires
        events.len() > 0,
        was_busy(s, events.drop_last(), opencode, events.len() - 2),
    ensures
        was_busy(s, events, opencode, events.len() - 1),
{
    let n = events.len() - 1;
    let earlier = events.drop_last();
    let k = choose|k: int|
        0 <= k < n - 1 && #[trigger] says_root_is_busy(
            run(s, earlier.take(k), opencode).state,
            earlier[k].0,
            earlier[k].1,
        );
    assert(earlier.take(k) =~= events.take(k));
    assert(says_root_is_busy(run(s, events.take(k), opencode).state, events[k].0, events[k].1));
}

/// In a run that finds the root session at rest, at most one end is told, and only after
/// an event said that the root session is busy.
pub proof fn a_run_ends_one_turn_that_it_started(
    s: RemoteStateV,
    events: Seq<(Seq<char>, OutsideV)>,
    opencode: bool,
)
    requires
        !s.root_turn_active,
    ensures
        finishes(run(s, events, opencode).effects) <= 1,
        finishes(run(s, events, opencode).effects) == 1 ==> was_busy(
            s,
            events,
            opencode,
            events.len() - 1,
        ),
    decreases events.len(),
{
    a_turn_ends_at_most_once(s, events, opencode);
    if events.len() > 0 {
        a_run_ends_one_turn_that_it_started(s, events.drop_last(), opencode);
        if finishes(run(s, events, opencode).effects) == 1 {
            if finishes(run(s, events.drop_last(), opencode).effects) == 0 {
                lemma_last_event_ends(s, events, opencode);
            } else {
                lemma_busy_earlier(s, events, opencode);
            }
        }
    }
}

/// A new agent is at rest: whatever events come, at most one end is told of it before the
/// user's first prompt, and only after an event said that the root session is busy.
pub proof fn a_new_agent_ends_one_turn_that_it_started(
    workspace: Seq<char>,
    resume: Option<Seq<char>>,
    events: Seq<(Seq<char>, OutsideV)>,
    opencode: bool,
)
    ensures
        finishes(run(initial_state(workspace, resume), events, opencode).effects) <= 1,
        finishes(run(initial_state(workspace, resume), events, opencode).effects) == 1 ==> was_busy(
            initial_state(workspace, resume),
            events,
            opencode,
            events.len() - 1,
        ),
{
    a_run_ends_one_turn_that_it_started(initial_state(workspace, resume), events, opencode);
}

/// While no turn is under way, nothing ends: an event that finds the root session at
/// rest tells of no end.
pub proof fn only_a_started_turn_ends(
    s: RemoteStateV,
    parsed: JsonV,
    out: OutsideV,
    opencode: bool,
)
    requires
        !s.root_turn_active,
    ensures
        finishes(on_raw(s, parsed, out, opencode).effects) == 0,
{
    let done = RemoteStateV { finished_current_user_turn: true, ..s };
    let raw = unwrapped(parsed);
    match (raw.field_text("type"@), raw.field("properties"@)) {
        (Some(t), Some(props)) => match gate_of(s, t, props, out) {
            Passage::Pass(g) => {
                lemma_event_turns(done, t, props, g, out, opencode);
                assert(turns_left(done) == 0);
                assert(on_event(s, t, props, g, out, opencode).effects == on_event(
                    done,
                    t,
                    props,
                    g,
                    out,
                    opencode,
                ).effects);
            },
            _ => {
                lemma_no_finish(on_raw(s, parsed, out, opencode).effects);
            },
        },
        _ => {},
    }
}

/// An event of a session that is neither the root session nor one of its sub-agents
/// changes nothing and asks for nothing, unless it tells of a new sub-agent of the root
/// session.
pub proof fn foreign_events_are_ignored(
    s: RemoteStateV,
    parsed: JsonV,
    out: OutsideV,
    opencode: bool,
    session: Seq<char>,
)
    requires
        unwrapped(parsed).field("properties"@) matches Some(p) && p.field_text("sessionID"@)
            == Some(session),
        s.opencode_session_id != Some(session),
        assoc(s.child_sessions, session) is None,
        !(unwrapped(parsed).field_text("type"@) == Some("session.created"@)
            && s.opencode_session_id is Some && out.child_registered),
    ensures
        on_raw(s, parsed, out, opencode) == stay(s),
{
}

/// When a turn ends, the text that was still pending has been told before, in the
/// order in which it came, and none is left.
pub proof fn pending_text_is_told_before_the_end(s: RemoteStateV, session: Option<Seq<char>>)
    requires
        s.root_turn_active,
    ensures
        finish_root(s, session).state.pending_deltas.len() == 0,
        finish_root(s, session).effects.len() == s.pending_deltas.len() + 3,
        forall|i: int|
            0 <= i < s.pending_deltas.len() ==> #[trigger] finish_root(s, session).effects[i]
                == delta_effect(s.pending_deltas[i]),
        is_finish(finish_root(s, session).effects[s.pending_deltas.len() as int]),
{
    let fx = finish_root(s, session).effects;
    assert forall|i: int| 0 <= i < s.pending_deltas.len() implies #[trigger] fx[i] == delta_effect(
        s.pending_deltas[i],
    ) by {
        assert(fx[i] == delta_effects(s.pending_deltas)[i]);
    }
}

/// The text of a part that has not been told yet.
pub open spec fn pending_text(d: Seq<PendingDeltaV>, message: Seq<char>, part: Seq<char>) -> Seq<char> {
    if delta_at(d, message, part) < d.len() {
        d[delta_at(d, message, part)].content
    } else {
        Seq::empty()
    }
}

proof fn lemma_delta_at(d: Seq<PendingDeltaV>, message: Seq<char>, part: Seq<char>)
    ensures
        0 <= delta_at(d, message, part) <= d.len(),
        delta_at(d, message, part) < d.len() ==> d[delta_at(d, message, part)].message_id == message
            && d[delta_at(d, message, part)].part_id == part,
        forall|i: int|
            0 <= i < delta_at(d, message, part) ==> !((#[trigger] d[i]).message_id == message
                && d[i].part_id == part),
    decreases d.len(),
{
    if d.len() > 0 && !(d[0].message_id == message && d[0].part_id == part) {
        let e = d.drop_first();
        lemma_delta_at(e, message, part);
        assert forall|i: int| 0 <= i < delta_at(d, message, part) implies !((
        #[trigger] d[i]).message_id == message && d[i].part_id == part) by {
            if i > 0 {
                assert(e[i - 1] == d[i]);
            }
        }
    }
}

proof fn lemma_delta_at_is(d: Seq<PendingDeltaV>, message: Seq<char>, part: Seq<char>, k: int)
    requires
        0 <= k <= d.len(),
        k < d.len() ==> d[k].message_id == message && d[k].part_id == part,
        forall|i: int|
            0 <= i < k ==> !((#[trigger] d[i]).message_id == message && d[i].part_id == part),
    ensures
        delta_at(d, message, part) == k,
{
    lemma_delta_at(d, message, part);
    let a = delta_at(d, message, part);
    if a < k {
        assert(!(d[a].message_id == message && d[a].part_id == part));
    }
    if k < a {
        assert(!(d[k].message_id == message && d[k].part_id == part));
    }
}

/// Streamed text is gathered part by part: what comes is appended to what is pending
/// of its part, and the pending text of other parts stays as it is.
pub proof fn streamed_text_is_gathered(
    d: Seq<PendingDeltaV>,
    message: Seq<char>,
    part: Seq<char>,
    text: Seq<char>,
    reasoning: bool,
    other_message: Seq<char>,
    other_part: Seq<char>,
)
    ensures
        pending_text(with_delta(d, message, part, text, reasoning), message, part) == pending_text(
            d,
            message,
            part,
        ) + text,
        (other_message != message || other_part != part) ==> pending_text(
            with_delta(d, message, part, text, reasoning),
            other_message,
            other_part,
        ) == pending_text(d, other_message, other_part),
{
    let n = with_delta(d, message, part, text, reasoning);
    let k = delta_at(d, message, part);
    lemma_delta_at(d, message, part);
    assert forall|i: int| 0 <= i < k implies !((#[trigger] n[i]).message_id == message
        && n[i].part_id == part) by {
        assert(n[i] == d[i]);
    }
    lemma_delta_at_is(n, message, part, k);
    assert(pending_text(n, message, part) =~= pending_text(d, message, part) + text);
    if other_message != message || other_part != part {
        let j = delta_at(d, other_message, other_part);
        lemma_delta_at(d, other_message, other_part);
        assert forall|i: int| 0 <= i < j implies !((#[trigger] n[i]).message_id == other_message
            && n[i].part_id == other_part) by {
            if i != k {
                assert(n[i] == d[i]);
            } else {
                assert(n[i].message_id == message && n[i].part_id == part);
            }
        }
        if j < d.len() {
            assert(n[j] == d[j]);
            lemma_delta_at_is(n, other_message, other_part, j);
        } else {
            assert forall|i: int| 0 <= i < n.len() implies !((
            #[trigger] n[i]).message_id == other_message && n[i].part_id == other_part) by {
                if i != k {
                    assert(n[i] == d[i]);
                } else {
                    assert(n[i].message_id == message && n[i].part_id == part);
                }
            }
            lemma_delta_at_is(n, other_message, other_part, n.len() as int);
        }
    }
}

/// The model of a message is told once: the first time, and then never again.
pub proof fn a_model_is_told_once(s: RemoteStateV, info: JsonV, later: RemoteStateV, again: JsonV)
    requires
        info.field_text("id"@) is Some,
        again.field_text("id"@) == info.field_text("id"@),
        info.field_text("modelID"@) is Some,
        info.field_text("providerID"@) is Some,
        forall|m: Seq<char>| #[trigger]
            model_info(s, info).state.model_info_emitted.contains(m)
                ==> later.model_info_emitted.contains(m),
    ensures
        !s.model_info_emitted.contains(info.field_text("id"@)->0) ==> model_info(
            s,
            info,
        ).effects.len() == 1,
        model_info(later, again) == stay(later),
{
    let id = info.field_text("id"@)->0;
    if !s.model_info_emitted.contains(id) {
        let m = model_info(s, info).state.model_info_emitted;
        assert(m[m.len() - 1] == id);
    }
    assert(model_info(s, info).state.model_info_emitted.contains(id));
}

/// What the user has already allowed is not asked: the queue stays as it is, and the
/// server has its answer at once.
pub proof fn allowed_requests_are_not_asked(
    s: RemoteStateV,
    props: JsonV,
    g: GateV,
    now: i64,
    id: Seq<char>,
)
    requires
        props.field_text("id"@) == Some(id),
        already_allowed(s, metadata_of(props), g.session_id),
    ensures
        on_permission_asked(s, props, g, now, true).state.confirmations == s.confirmations,
        on_permission_asked(s, props, g, now, true).effects == seq![
            EffectV::ReplyPermission {
                request_id: id,
                session_id: g.session_id,
                reply: "once"@,
                by_user: false,
            },
        ],
{
}

/// A question is put to the user once: while it is pending, asking again changes
/// nothing.
pub proof fn a_question_is_asked_once(s: RemoteStateV, props: JsonV, later: RemoteStateV)
    requires
        question_request_of(props) is Some,
        later.pending_questions == on_question_asked(s, props).state.pending_questions,
        later.recently_replied_questions == s.recently_replied_questions,
    ensures
        on_question_asked(later, props) == stay(later),
{
    let req = question_request_of(props)->0;
    if !(assoc(s.recently_replied_questions, req.request_id) is Some) && !has_request(
        s.pending_questions,
        req.request_id,
    ) {
        lemma_request_pushed(s.pending_questions, crate::question::unanswered(req));
    }
}

proof fn lemma_request_pushed(
    q: Seq<crate::question::PendingQuestionV>,
    p: crate::question::PendingQuestionV,
)
    ensures
        has_request(q.push(p), p.request_id),
    decreases q.len(),
{
    if q.len() > 0 && q[0].request_id != p.request_id {
        assert(q.push(p).drop_first() =~= q.drop_first().push(p));
        lemma_request_pushed(q.drop_first(), p);
    }
}

} // verus!

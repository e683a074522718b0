//! What holds of the user's answers, and of every state that events and answers lead
//! to.
use vstd::prelude::*;

use crate::collections::{
    age, distinct, entry_keeps_keys_distinct, filter_keeps_distinct, filter_keeps_images_distinct,
    filter_keeps_keys_distinct, filter_members, fresh, key_has_value, keys, member_keeps_distinct,
    other_member, pruned, pruning_caps, pruning_keeps_keys_distinct, pruning_keeps_the_last_entry,
    with_entry, with_member, without_key, younger,
};
use crate::confirm::{
    all_rejected, blesses, card_of, choices, confirm_permission, confirm_question, confirm_shell,
    confirmed, covered, covered_by, current_stamps, drained, extra_text, from_server,
    not_covered_by, nothing_waits, permission_settled, questions_current, questions_stamped,
    refuse_elicitations, refuse_permissions, refuse_questions, refuse_shells, reply_of, shell_asked,
    shell_key, elicitation_asked, stamped_all, REPLY_DEDUP_CAP, REPLY_DEDUP_TTL_MS,
};
use crate::dispatch::{
    already_allowed, on_event, on_part_updated, on_question_asked, on_raw, question_closed, stay,
    target_path_of, gate_of, Passage, GateV, OutsideV, QUESTION_DEDUP_CAP,
};
use crate::events::{kind_of, unwrapped, EventKind};
use crate::json::JsonV;
use crate::question::{
    call_id_parts, cards_of, question_request_of, unanswered, PendingQuestionV,
    QUESTION_REJECT_VALUE,
};
use crate::state::{
    covers, delta_at, descends, has_request, initial_state, lemma_request_at, of_other_part, other_call,
    other_request, queued, queued_all, request_at, with_delta, without_call, without_pending,
    ApprovalKeyV, PendingDeltaV, RemoteStateV,
};
use crate::text::without_suffix_char;
use crate::types::{ConfirmationV, EffectV, ShellApproval};

verus! {

/// The ids of confirmations.
pub open spec fn call_ids(q: Seq<ConfirmationV>) -> Seq<Seq<char>> {
    q.map_values(|c: ConfirmationV| c.call_id)
}

/// The ids of requests.
pub open spec fn request_ids(q: Seq<PendingQuestionV>) -> Seq<Seq<char>> {
    q.map_values(|p: PendingQuestionV| p.request_id)
}

/// The parts of pending text, each with its message.
pub open spec fn delta_parts(d: Seq<PendingDeltaV>) -> Seq<(Seq<char>, Seq<char>)> {
    d.map_values(|x: PendingDeltaV| (x.message_id, x.part_id))
}

/// Whether a state is in order: no confirmation, question or part of pending text is
/// there twice, the sets have no member and the maps no key twice.
pub open spec fn well_formed(s: RemoteStateV) -> bool {
    &&& distinct(call_ids(s.confirmations))
    &&& distinct(s.approval_memory)
    &&& distinct(s.reasoning_parts)
    &&& distinct(s.model_info_emitted)
    &&& distinct(s.pending_shell_approvals)
    &&& distinct(s.pending_elicitations)
    &&& distinct(keys(s.recently_replied_permissions))
    &&& distinct(s.auto_accept_paths)
    &&& distinct(s.auto_accept_sessions)
    &&& distinct(s.opencode_tool_call_ids)
    &&& distinct(keys(s.child_sessions))
    &&& distinct(keys(s.last_subtask_progress_ms))
    &&& distinct(request_ids(s.pending_questions))
    &&& distinct(keys(s.recently_replied_questions))
    &&& distinct(delta_parts(s.pending_deltas))
}

proof fn lemma_drop_keeps(q: Seq<ConfirmationV>, p: spec_fn(ConfirmationV) -> bool)
    requires
        distinct(call_ids(q)),
    ensures
        distinct(call_ids(q.filter(p))),
{
    filter_keeps_images_distinct(q, p, |c: ConfirmationV| c.call_id);
}

proof fn lemma_queued_keeps(q: Seq<ConfirmationV>, c: ConfirmationV)
    requires
        distinct(call_ids(q)),
    ensures
        distinct(call_ids(queued(q, c))),
{
    let p = other_call(c.call_id);
    lemma_drop_keeps(q, p);
    filter_members(q, p);
    let w = without_call(q, c.call_id);
    let n = queued(q, c);
    assert forall|i: int, j: int| 0 <= i < j < call_ids(n).len() implies call_ids(n)[i] != call_ids(
        n,
    )[j] by {
        if j < w.len() {
            assert(call_ids(n)[i] == call_ids(w)[i] && call_ids(n)[j] == call_ids(w)[j]);
        } else {
            assert(p(w[i]));
            assert(n[i] == w[i]);
        }
    }
}

proof fn lemma_queued_all_keeps(q: Seq<ConfirmationV>, cs: Seq<ConfirmationV>)
    requires
        distinct(call_ids(q)),
    ensures
        distinct(call_ids(queued_all(q, cs))),
    decreases cs.len(),
{
    if cs.len() > 0 {
        lemma_queued_all_keeps(q, cs.drop_last());
        lemma_queued_keeps(queued_all(q, cs.drop_last()), cs.last());
    }
}

proof fn lemma_remove_keeps(q: Seq<PendingQuestionV>, id: Seq<char>)
    requires
        distinct(request_ids(q)),
    ensures
        distinct(request_ids(without_pending(q, id))),
{
    lemma_request_at(q, id);
    if has_request(q, id) {
        let o = request_at(q, id);
        let r = q.remove(o);
        assert forall|i: int, j: int|
            0 <= i < j < request_ids(r).len() implies request_ids(r)[i] != request_ids(r)[j] by {
            let i1 = if i < o {
                i
            } else {
                i + 1
            };
            let j1 = if j < o {
                j
            } else {
                j + 1
            };
            assert(request_ids(r)[i] == request_ids(q)[i1]);
            assert(request_ids(r)[j] == request_ids(q)[j1]);
        }
    }
}

proof fn lemma_absent(q: Seq<PendingQuestionV>, id: Seq<char>, i: int)
    requires
        !has_request(q, id),
        0 <= i < q.len(),
    ensures
        q[i].request_id != id,
    decreases q.len(),
{
    lemma_request_at(q, id);
    if q[0].request_id != id && i > 0 {
        lemma_absent(q.drop_first(), id, i - 1);
    }
}

proof fn lemma_push_keeps(q: Seq<PendingQuestionV>, p: PendingQuestionV)
    requires
        distinct(request_ids(q)),
        !has_request(q, p.request_id),
    ensures
        distinct(request_ids(q.push(p))),
{
    let n = q.push(p);
    assert forall|i: int, j: int| 0 <= i < j < request_ids(n).len() implies request_ids(n)[i]
        != request_ids(n)[j] by {
        if j < q.len() {
            assert(request_ids(n)[i] == request_ids(q)[i]);
            assert(request_ids(n)[j] == request_ids(q)[j]);
        } else {
            lemma_absent(q, p.request_id, i);
        }
    }
}

proof fn lemma_update_keeps(q: Seq<PendingQuestionV>, at: int, p: PendingQuestionV)
    requires
        distinct(request_ids(q)),
        0 <= at < q.len(),
        p.request_id == q[at].request_id,
    ensures
        distinct(request_ids(q.update(at, p))),
{
    assert(request_ids(q.update(at, p)) =~= request_ids(q));
}

proof fn lemma_delta_place(d: Seq<PendingDeltaV>, message: Seq<char>, part: Seq<char>)
    ensures
        0 <= delta_at(d, message, part) <= d.len(),
        delta_at(d, message, part) < d.len() ==> delta_parts(d)[delta_at(d, message, part)] == (
            message,
            part,
        ),
        delta_at(d, message, part) == d.len() ==> forall|i: int|
            0 <= i < d.len() ==> #[trigger] delta_parts(d)[i] != (message, part),
    decreases d.len(),
{
    if d.len() > 0 && !(d[0].message_id == message && d[0].part_id == part) {
        let e = d.drop_first();
        lemma_delta_place(e, message, part);
        assert forall|i: int| 0 <= i < e.len() implies #[trigger] delta_parts(e)[i] == delta_parts(
            d,
        )[i + 1] by {}
        if delta_at(d, message, part) == d.len() {
            assert forall|i: int| 0 <= i < d.len() implies #[trigger] delta_parts(d)[i] != (
                message,
                part,
            ) by {
                if i > 0 {
                    assert(delta_parts(e)[i - 1] == delta_parts(d)[i]);
                }
            }
        }
    }
}

proof fn lemma_delta_keeps(
    d: Seq<PendingDeltaV>,
    message: Seq<char>,
    part: Seq<char>,
    text: Seq<char>,
    reasoning: bool,
)
    requires
        distinct(delta_parts(d)),
    ensures
        distinct(delta_parts(with_delta(d, message, part, text, reasoning))),
{
    lemma_delta_place(d, message, part);
    let n = with_delta(d, message, part, text, reasoning);
    let k = delta_at(d, message, part);
    if k < d.len() {
        assert(delta_parts(n) =~= delta_parts(d));
    } else {
        assert forall|i: int, j: int| 0 <= i < j < delta_parts(n).len() implies delta_parts(n)[i]
            != delta_parts(n)[j] by {
            assert(delta_parts(n)[i] == delta_parts(d)[i]);
            if j < d.len() {
                assert(delta_parts(n)[j] == delta_parts(d)[j]);
            }
        }
    }
}

/// A state before anything has happened is in order.
pub proof fn first_states_are_well_formed(workspace: Seq<char>, resume: Option<Seq<char>>)
    ensures
        well_formed(initial_state(workspace, resume)),
{
}

proof fn lemma_part_updated_keeps(s: RemoteStateV, props: JsonV, g: GateV, out: OutsideV)
    requires
        well_formed(s),
    ensures
        well_formed(on_part_updated(s, props, g, out).state),
{
    match props.field("part"@) {
        None => {},
        Some(part) => {
            match part.field_text("id"@) {
                Some(id) => {
                    filter_keeps_images_distinct(
                        s.pending_deltas,
                        of_other_part(id),
                        |x: PendingDeltaV| (x.message_id, x.part_id),
                    );
                    member_keeps_distinct(s.reasoning_parts, id);
                },
                None => {},
            }
            match out.tool_call {
                Some(call) => {
                    member_keeps_distinct(s.opencode_tool_call_ids, call.tool_call_id);
                },
                None => {},
            }
            match g.session_id {
                Some(child) => {
                    entry_keeps_keys_distinct(s.last_subtask_progress_ms, child, out.now);
                },
                None => {},
            }
        },
    }
}

proof fn lemma_closed_keeps(s: RemoteStateV, id: Seq<char>, now: i64)
    requires
        well_formed(s),
    ensures
        well_formed(question_closed(s, id, now)),
{
    lemma_remove_keeps(s.pending_questions, id);
    lemma_drop_keeps(s.confirmations, other_request(id));
    entry_keeps_keys_distinct(s.recently_replied_questions, id, now);
    pruning_keeps_keys_distinct(
        with_entry(s.recently_replied_questions, id, now),
        QUESTION_DEDUP_CAP as nat,
    );
}

/// An event leads from a state in order to a state in order.
#[verifier::rlimit(60)]
#[verifier::spinoff_prover]
pub proof fn events_keep_states_well_formed(
    s: RemoteStateV,
    parsed: JsonV,
    out: OutsideV,
    opencode: bool,
)
    requires
        well_formed(s),
    ensures
        well_formed(on_raw(s, parsed, out, opencode).state),
{
    let raw = unwrapped(parsed);
    match (raw.field_text("type"@), raw.field("properties"@)) {
        (Some(t), Some(props)) => match gate_of(s, t, props, out) {
            Passage::Pass(g) => {
                lemma_event_keeps(s, t, props, g, out, opencode);
            },
            Passage::Registered { child, parent } => {
                entry_keeps_keys_distinct(s.child_sessions, child, parent);
            },
            Passage::Drop => {},
        },
        _ => {},
    }
}

#[verifier::rlimit(60)]
#[verifier::spinoff_prover]
proof fn lemma_event_keeps(
    s: RemoteStateV,
    t: Seq<char>,
    props: JsonV,
    g: GateV,
    out: OutsideV,
    opencode: bool,
)
    requires
        well_formed(s),
    ensures
        well_formed(on_event(s, t, props, g, out, opencode).state),
{
    match kind_of(t) {
        EventKind::PartDelta => {
            let message = crate::events::text_or(props.field_text("messageID"@), ""@);
            let part = crate::events::text_or(props.field_text("partID"@), ""@);
            match props.field_text("delta"@) {
                Some(delta) => {
                    lemma_delta_keeps(
                        s.pending_deltas,
                        message,
                        part,
                        delta,
                        s.reasoning_parts.contains(part),
                    );
                },
                None => {},
            }
        },
        EventKind::PartUpdated => {
            lemma_part_updated_keeps(s, props, g, out);
        },
        EventKind::MessageUpdated => {
            match props.field("info"@) {
                Some(info) => match info.field_text("id"@) {
                    Some(id) => {
                        member_keeps_distinct(s.model_info_emitted, id);
                    },
                    None => {},
                },
                None => {},
            }
        },
        EventKind::PermissionAsked => {
            match props.field_text("id"@) {
                Some(id) => {
                    entry_keeps_keys_distinct(s.recently_replied_permissions, id, out.now);
                    lemma_queued_keeps(
                        s.confirmations,
                        crate::dispatch::permission_card(id, props, g),
                    );
                },
                None => {},
            }
        },
        EventKind::QuestionAsked => {
            match question_request_of(props) {
                Some(req) => {
                    lemma_queued_all_keeps(s.confirmations, cards_of(req));
                    if !has_request(s.pending_questions, req.request_id) {
                        lemma_push_keeps(s.pending_questions, unanswered(req));
                    }
                },
                None => {},
            }
        },
        EventKind::QuestionClosed => {
            match crate::dispatch::answered_request(props) {
                Some(id) => {
                    lemma_closed_keeps(s, id, out.now);
                },
                None => {},
            }
        },
        EventKind::PermissionReplied => {
            match crate::dispatch::answered_request(props) {
                Some(id) => {
                    lemma_drop_keeps(s.confirmations, other_call(id));
                    entry_keeps_keys_distinct(s.recently_replied_permissions, id, out.now);
                },
                None => {},
            }
        },
        _ => {},
    }
}

proof fn lemma_stamped_keeps(m: Seq<(Seq<char>, i64)>, cs: Seq<ConfirmationV>, now: i64)
    requires
        distinct(keys(m)),
    ensures
        distinct(keys(stamped_all(m, cs, now))),
    decreases cs.len(),
{
    if cs.len() > 0 {
        lemma_stamped_keeps(m, cs.drop_last(), now);
        entry_keeps_keys_distinct(
            stamped_all(m, cs.drop_last(), now),
            cs.last().call_id,
            now,
        );
    }
}

proof fn lemma_questions_stamped_keeps(
    m: Seq<(Seq<char>, i64)>,
    ps: Seq<PendingQuestionV>,
    now: i64,
)
    requires
        distinct(keys(m)),
    ensures
        distinct(keys(questions_stamped(m, ps, now))),
    decreases ps.len(),
{
    if ps.len() > 0 {
        lemma_questions_stamped_keeps(m, ps.drop_last(), now);
        entry_keeps_keys_distinct(
            questions_stamped(m, ps.drop_last(), now),
            ps.last().request_id,
            now,
        );
    }
}

proof fn lemma_settled_keeps(s: RemoteStateV, call_id: Seq<char>, data: JsonV, reply: Seq<char>)
    requires
        well_formed(s),
    ensures
        well_formed(permission_settled(s, call_id, data, reply)),
{
    match card_of(s.confirmations, call_id) {
        Some(c) => {
            member_keeps_distinct(
                s.approval_memory,
                ApprovalKeyV { action: c.action, command_type: c.command_type },
            );
        },
        None => {},
    }
    lemma_drop_keeps(s.confirmations, other_call(call_id));
    match extra_text(data, "path"@) {
        Some(p) => {
            member_keeps_distinct(s.auto_accept_paths, without_suffix_char(p, '/'));
        },
        None => {},
    }
    match extra_text(data, "sessionID"@) {
        Some(sid) => {
            member_keeps_distinct(s.auto_accept_sessions, sid);
        },
        None => {},
    }
}

proof fn lemma_permission_keeps(
    s: RemoteStateV,
    call_id: Seq<char>,
    data: JsonV,
    reply: Seq<char>,
    now: i64,
    opencode: bool,
)
    requires
        well_formed(s),
    ensures
        well_formed(confirm_permission(s, call_id, data, reply, now, opencode).state),
{
    let settled = permission_settled(s, call_id, data, reply);
    lemma_settled_keeps(s, call_id, data, reply);
    lemma_drop_keeps(settled.confirmations, not_covered_by(settled));
    lemma_stamped_keeps(
        settled.recently_replied_permissions,
        settled.confirmations.filter(covered_by(settled)),
        now,
    );
    let s2 = if blesses(reply) {
        drained(settled, now)
    } else {
        settled
    };
    let m = s2.recently_replied_permissions;
    filter_keeps_keys_distinct(m, younger(now, REPLY_DEDUP_TTL_MS as int));
    let f = fresh(m, now, REPLY_DEDUP_TTL_MS as int);
    pruning_keeps_keys_distinct(f, REPLY_DEDUP_CAP as nat);
    entry_keeps_keys_distinct(current_stamps(m, now), call_id, now);
}

proof fn lemma_question_keeps(
    s: RemoteStateV,
    call_id: Seq<char>,
    request_id: Seq<char>,
    index: int,
    chosen: Seq<Seq<char>>,
    now: i64,
    opencode: bool,
)
    requires
        well_formed(s),
    ensures
        well_formed(confirm_question(s, call_id, request_id, index, chosen, now, opencode).state),
{
    lemma_drop_keeps(s.confirmations, other_call(call_id));
    let s1 = RemoteStateV { confirmations: without_call(s.confirmations, call_id), ..s };
    let s2 = questions_current(s1, now);
    filter_keeps_keys_distinct(
        s1.recently_replied_questions,
        younger(now, REPLY_DEDUP_TTL_MS as int),
    );
    lemma_closed_keeps(s2, request_id, now);
    lemma_request_at(s1.pending_questions, request_id);
    if has_request(s1.pending_questions, request_id) {
        let at = request_at(s1.pending_questions, request_id);
        let p = s1.pending_questions[at];
        lemma_update_keeps(s1.pending_questions, at, p.recorded(index, p.answer_for(index, chosen)));
    }
}

/// An answer leads from a state in order to a state in order.
pub proof fn answers_keep_states_well_formed(
    s: RemoteStateV,
    call_id: Seq<char>,
    data: JsonV,
    always_allow: bool,
    now: i64,
    opencode: bool,
)
    requires
        well_formed(s),
    ensures
        well_formed(confirmed(s, call_id, data, always_allow, now, opencode).state),
{
    let reply = reply_of(data, always_allow);
    lemma_drop_keeps(s.confirmations, other_call(call_id));
    member_keeps_distinct(s.approval_memory, shell_key());
    filter_keeps_distinct(s.pending_shell_approvals, other_member(call_id));
    filter_keeps_distinct(s.pending_elicitations, other_member(call_id));
    match call_id_parts(call_id) {
        Some(p) => {
            lemma_question_keeps(s, call_id, p.0, p.1 as int, choices(data), now, opencode);
        },
        None => {
            lemma_permission_keeps(s, call_id, data, reply, now, opencode);
        },
    }
}

/// Asking the user, and refusing everything that waits, keep states in order.
pub proof fn asking_and_refusing_keep_states_well_formed(
    s: RemoteStateV,
    card: ConfirmationV,
    now: i64,
    opencode: bool,
)
    requires
        well_formed(s),
    ensures
        well_formed(shell_asked(s, card).state),
        well_formed(elicitation_asked(s, card).state),
        well_formed(all_rejected(s, now, opencode).state),
{
    lemma_queued_keeps(s.confirmations, card);
    member_keeps_distinct(s.pending_shell_approvals, card.call_id);
    member_keeps_distinct(s.pending_elicitations, card.call_id);
    lemma_questions_stamped_keeps(s.recently_replied_questions, s.pending_questions, now);
    pruning_keeps_keys_distinct(
        questions_stamped(s.recently_replied_questions, s.pending_questions, now),
        QUESTION_DEDUP_CAP as nat,
    );
}

/// Whether a confirmation with an id waits.
pub open spec fn waits(q: Seq<ConfirmationV>, call_id: Seq<char>) -> bool {
    exists|i: int| 0 <= i < q.len() && (#[trigger] q[i]).call_id == call_id
}

proof fn lemma_filter_adds_none(
    q: Seq<ConfirmationV>,
    p: spec_fn(ConfirmationV) -> bool,
    call_id: Seq<char>,
)
    requires
        !waits(q, call_id),
    ensures
        !waits(q.filter(p), call_id),
{
    filter_members(q, p);
    let f = q.filter(p);
    if waits(f, call_id) {
        let i = choose|i: int| 0 <= i < f.len() && (#[trigger] f[i]).call_id == call_id;
        assert(f.contains(f[i]));
        let k = choose|k: int| 0 <= k < q.len() && q[k] == f[i];
        assert(q[k].call_id == call_id);
    }
}

proof fn lemma_dropped(q: Seq<ConfirmationV>, call_id: Seq<char>)
    ensures
        !waits(without_call(q, call_id), call_id),
{
    let p = other_call(call_id);
    filter_members(q, p);
    let f = q.filter(p);
    assert forall|i: int| 0 <= i < f.len() implies (#[trigger] f[i]).call_id != call_id by {
        assert(p(f[i]));
    }
}

/// A confirmation that the user answered no longer waits, whatever the answer.
pub proof fn an_answered_card_is_gone(
    s: RemoteStateV,
    call_id: Seq<char>,
    data: JsonV,
    always_allow: bool,
    now: i64,
    opencode: bool,
)
    ensures
        !waits(
            confirmed(s, call_id, data, always_allow, now, opencode).state.confirmations,
            call_id,
        ),
{
    let reply = reply_of(data, always_allow);
    lemma_dropped(s.confirmations, call_id);
    let w = without_call(s.confirmations, call_id);
    match call_id_parts(call_id) {
        Some(p) => {
            lemma_filter_adds_none(w, other_request(p.0), call_id);
        },
        None => {
            let settled = permission_settled(s, call_id, data, reply);
            lemma_filter_adds_none(w, not_covered_by(settled), call_id);
        },
    }
}

/// Refusing everything leaves nothing that waits.
pub proof fn refusing_leaves_nothing(s: RemoteStateV, now: i64, opencode: bool)
    ensures
        nothing_waits(all_rejected(s, now, opencode).state),
{
}

/// Refusing everything twice is refusing it once.
pub proof fn refusing_again_does_nothing(
    s: RemoteStateV,
    now: i64,
    opencode: bool,
    later: i64,
    opencode_later: bool,
)
    ensures
        all_rejected(all_rejected(s, now, opencode).state, later, opencode_later) == stay(
            all_rejected(s, now, opencode).state,
        ),
{
}

/// Refusing everything wakes every tool that waits, each with a refusal, and refuses
/// every permission request and every question at the server.
pub proof fn refusing_answers_everything(s: RemoteStateV, now: i64, i: int)
    requires
        !nothing_waits(s),
    ensures
        0 <= i < s.pending_shell_approvals.len() ==> all_rejected(s, now, true).effects.contains(
            EffectV::ResolveShell {
                call_id: s.pending_shell_approvals[i],
                approval: ShellApproval::Reject,
            },
        ),
        0 <= i < s.pending_elicitations.len() ==> all_rejected(s, now, true).effects.contains(
            EffectV::ResolveElicitation { call_id: s.pending_elicitations[i], payload: None },
        ),
        0 <= i < s.pending_questions.len() ==> all_rejected(s, now, true).effects.contains(
            EffectV::RejectQuestion { request_id: s.pending_questions[i].request_id },
        ),
        0 <= i < s.confirmations.len() && from_server(s)(s.confirmations[i]) ==> all_rejected(
            s,
            now,
            true,
        ).effects.contains(
            EffectV::ReplyPermission {
                request_id: s.confirmations[i].call_id,
                session_id: s.confirmations[i].session_id,
                reply: "reject"@,
                by_user: false,
            },
        ),
{
    let q = refuse_questions(s.pending_questions);
    let h = refuse_shells(s.pending_shell_approvals);
    let e = refuse_elicitations(s.pending_elicitations);
    let f = s.confirmations.filter(from_server(s));
    let p = refuse_permissions(f);
    let fx = all_rejected(s, now, true).effects;
    assert(fx =~= q + h + e + p);
    if 0 <= i < s.pending_questions.len() {
        assert(fx[i] == q[i]);
    }
    if 0 <= i < s.pending_shell_approvals.len() {
        assert(fx[q.len() + i] == h[i]);
    }
    if 0 <= i < s.pending_elicitations.len() {
        assert(fx[q.len() + h.len() + i] == e[i]);
    }
    if 0 <= i < s.confirmations.len() && from_server(s)(s.confirmations[i]) {
        filter_members(s.confirmations, from_server(s));
        assert(s.confirmations.contains(s.confirmations[i]));
        assert(f.contains(s.confirmations[i]));
        let k = choose|k: int| 0 <= k < f.len() && f[k] == s.confirmations[i];
        assert(fx[q.len() + h.len() + e.len() + k] == p[k]);
    }
}

proof fn lemma_stamp_stays(
    m: Seq<(Seq<char>, i64)>,
    cs: Seq<ConfirmationV>,
    now: i64,
    e: (Seq<char>, i64),
)
    requires
        m.contains(e),
        !waits(cs, e.0),
    ensures
        stamped_all(m, cs, now).contains(e),
    decreases cs.len(),
{
    if cs.len() > 0 {
        let d = cs.drop_last();
        if waits(d, e.0) {
            let i = choose|i: int| 0 <= i < d.len() && (#[trigger] d[i]).call_id == e.0;
            assert(cs[i].call_id == e.0);
        }
        lemma_stamp_stays(m, d, now, e);
        let before = stamped_all(m, d, now);
        let key = cs.last().call_id;
        assert(cs[cs.len() - 1].call_id != e.0);
        filter_members(before, crate::collections::other_key::<i64>(key));
        assert(without_key(before, key).contains(e));
        let k = choose|k: int| 0 <= k < without_key(before, key).len() && without_key(
            before,
            key,
        )[k] == e;
        assert(stamped_all(m, cs, now)[k] == e);
    }
}

/// The stamps of answered requests at the time of an answer.
pub open spec fn stamps_at(s: RemoteStateV, call_id: Seq<char>, data: JsonV, reply: Seq<char>, now: i64) -> Seq<
    (Seq<char>, i64),
> {
    let settled = permission_settled(s, call_id, data, reply);
    if blesses(reply) {
        drained(settled, now).recently_replied_permissions
    } else {
        settled.recently_replied_permissions
    }
}

/// An answer that was given to a permission request a short while ago is not sent
/// again, as long as no more requests were answered in between than are remembered.
pub proof fn a_second_answer_is_not_sent(
    s: RemoteStateV,
    call_id: Seq<char>,
    data: JsonV,
    reply: Seq<char>,
    now: i64,
    then: i64,
)
    requires
        s.recently_replied_permissions.contains((call_id, then)),
        age(now, then) < REPLY_DEDUP_TTL_MS,
        fresh(stamps_at(s, call_id, data, reply, now), now, REPLY_DEDUP_TTL_MS as int).len()
            <= REPLY_DEDUP_CAP,
    ensures
        confirm_permission(s, call_id, data, reply, now, true).effects.len() == 0,
{
    let settled = permission_settled(s, call_id, data, reply);
    let m = stamps_at(s, call_id, data, reply, now);
    let e = (call_id, then);
    lemma_dropped(s.confirmations, call_id);
    if blesses(reply) {
        let cs = settled.confirmations.filter(covered_by(settled));
        lemma_filter_adds_none(settled.confirmations, covered_by(settled), call_id);
        lemma_stamp_stays(settled.recently_replied_permissions, cs, now, e);
    }
    assert(m.contains(e));
    let p = younger(now, REPLY_DEDUP_TTL_MS as int);
    filter_members(m, p);
    let f = fresh(m, now, REPLY_DEDUP_TTL_MS as int);
    assert(p(e));
    assert(f.contains(e));
    pruning_caps(f, REPLY_DEDUP_CAP as nat);
    let k = choose|k: int| 0 <= k < f.len() && f[k] == e;
    assert(current_stamps(m, now)[k].0 == call_id);
    key_has_value(current_stamps(m, now), call_id);
}

/// An answer that is sent is remembered with its time.
pub proof fn a_sent_answer_is_remembered(
    s: RemoteStateV,
    call_id: Seq<char>,
    data: JsonV,
    reply: Seq<char>,
    now: i64,
)
    requires
        confirm_permission(s, call_id, data, reply, now, true).effects.len() > 0,
    ensures
        confirm_permission(
            s,
            call_id,
            data,
            reply,
            now,
            true,
        ).state.recently_replied_permissions.contains((call_id, now)),
{
    let m = confirm_permission(
        s,
        call_id,
        data,
        reply,
        now,
        true,
    ).state.recently_replied_permissions;
    assert(m[m.len() - 1] == (call_id, now));
}

/// Never more answered requests are remembered than the cap and the last one.
pub proof fn remembered_answers_are_bounded(
    s: RemoteStateV,
    call_id: Seq<char>,
    data: JsonV,
    reply: Seq<char>,
    now: i64,
)
    ensures
        confirm_permission(
            s,
            call_id,
            data,
            reply,
            now,
            true,
        ).state.recently_replied_permissions.len() <= REPLY_DEDUP_CAP + 1,
{
    let m = stamps_at(s, call_id, data, reply, now);
    let f = fresh(m, now, REPLY_DEDUP_TTL_MS as int);
    pruning_caps(f, REPLY_DEDUP_CAP as nat);
    reveal(Seq::filter);
    let c = current_stamps(m, now);
    assert(c.len() <= REPLY_DEDUP_CAP);
    let p = crate::collections::other_key::<i64>(call_id);
    c.lemma_filter_len(p);
}

/// Once the user has allowed a directory tree, nothing in it is asked any more.
pub proof fn an_allowed_tree_is_not_asked_again(
    s: RemoteStateV,
    call_id: Seq<char>,
    data: JsonV,
    now: i64,
    opencode: bool,
    dir: Seq<char>,
    metadata: JsonV,
    target: Seq<char>,
    session: Option<Seq<char>>,
)
    requires
        extra_text(data, "path"@) == Some(dir),
        target_path_of(metadata) == Some(target),
        covers(dir, target),
    ensures
        already_allowed(
            confirm_permission(s, call_id, data, "allow_dir"@, now, opencode).state,
            metadata,
            session,
        ),
{
    let after = confirm_permission(s, call_id, data, "allow_dir"@, now, opencode).state;
    let d = without_suffix_char(dir, '/');
    lemma_member(s.auto_accept_paths, d);
    assert(after.auto_accept_paths == with_member(s.auto_accept_paths, d));
    let k = choose|k: int|
        0 <= k < after.auto_accept_paths.len() && after.auto_accept_paths[k] == d;
    lemma_trim_twice(dir);
    assert(covers(after.auto_accept_paths[k], target));
}

proof fn lemma_member<T>(s: Seq<T>, x: T)
    ensures
        with_member(s, x).contains(x),
{
    if !s.contains(x) {
        assert(s.push(x)[s.len() as int] == x);
    }
}

proof fn lemma_trim_twice(s: Seq<char>)
    ensures
        without_suffix_char(without_suffix_char(s, '/'), '/') == without_suffix_char(s, '/'),
    decreases s.len(),
{
    if s.len() > 0 && s.last() == '/' {
        lemma_trim_twice(s.drop_last());
    }
}

/// Once the user has allowed the rest of a sub-agent, nothing that it or any sub-agent
/// that descends from it wants is asked any more.
pub proof fn an_allowed_session_is_not_asked_again(
    s: RemoteStateV,
    call_id: Seq<char>,
    data: JsonV,
    now: i64,
    opencode: bool,
    session: Seq<char>,
    child: Seq<char>,
    metadata: JsonV,
)
    requires
        extra_text(data, "sessionID"@) == Some(session),
        descends(child, session, s.child_sessions),
    ensures
        already_allowed(
            confirm_permission(s, call_id, data, "allow_session"@, now, opencode).state,
            metadata,
            Some(child),
        ),
{
    reveal_strlit("allow_dir");
    reveal_strlit("allow_session");
    assert("allow_dir"@.len() != "allow_session"@.len());
    let after = confirm_permission(s, call_id, data, "allow_session"@, now, opencode).state;
    lemma_member(s.auto_accept_sessions, session);
    crate::state::blessing_reaches_descendants(
        child,
        session,
        after.auto_accept_sessions,
        after.child_sessions,
    );
}

/// A blessing settles everything in the queue that it covers: nothing covered is
/// left.
pub proof fn a_blessing_settles_what_it_covers(
    s: RemoteStateV,
    call_id: Seq<char>,
    data: JsonV,
    reply: Seq<char>,
    now: i64,
    opencode: bool,
)
    requires
        blesses(reply),
    ensures
        forall|i: int|
            0 <= i < confirm_permission(
                s,
                call_id,
                data,
                reply,
                now,
                opencode,
            ).state.confirmations.len() ==> !covered(
                confirm_permission(s, call_id, data, reply, now, opencode).state,
                #[trigger] confirm_permission(
                    s,
                    call_id,
                    data,
                    reply,
                    now,
                    opencode,
                ).state.confirmations[i],
            ),
{
    let settled = permission_settled(s, call_id, data, reply);
    let after = confirm_permission(s, call_id, data, reply, now, opencode).state;
    let p = not_covered_by(settled);
    filter_members(settled.confirmations, p);
    assert forall|i: int| 0 <= i < after.confirmations.len() implies !covered(
        after,
        #[trigger] after.confirmations[i],
    ) by {
        assert(p(after.confirmations[i]));
    }
}

/// What the user approved once and for all stays approved.
pub proof fn an_always_is_remembered(
    s: RemoteStateV,
    call_id: Seq<char>,
    data: JsonV,
    now: i64,
    opencode: bool,
    card: ConfirmationV,
)
    requires
        card_of(s.confirmations, call_id) == Some(card),
    ensures
        confirm_shell(s, call_id, "always"@).state.approval_memory.contains(shell_key()),
        confirm_permission(
            s,
            call_id,
            data,
            "always"@,
            now,
            opencode,
        ).state.approval_memory.contains(
            ApprovalKeyV { action: card.action, command_type: card.command_type },
        ),
{
    lemma_member(s.approval_memory, shell_key());
    lemma_member(
        s.approval_memory,
        ApprovalKeyV { action: card.action, command_type: card.command_type },
    );
}

/// A question that the user refused is not asked again while it is remembered. It is
/// remembered where there is room, and where nothing was answered after it.
pub proof fn a_refused_question_is_not_asked_again(
    s: RemoteStateV,
    call_id: Seq<char>,
    index: int,
    chosen: Seq<Seq<char>>,
    now: i64,
    opencode: bool,
    props: JsonV,
    req: crate::question::ParsedQuestionRequestV,
)
    requires
        question_request_of(props) == Some(req),
        chosen.contains(QUESTION_REJECT_VALUE@),
        s.recently_replied_questions.len() < QUESTION_DEDUP_CAP || forall|i: int|
            0 <= i < s.recently_replied_questions.len() ==> (
            #[trigger] s.recently_replied_questions[i]).1 <= now,
    ensures
        on_question_asked(
            confirm_question(
                s,
                call_id,
                req.request_id,
                index,
                chosen,
                now,
                opencode,
            ).state,
            props,
        ) == stay(
            confirm_question(
                s,
                call_id,
                req.request_id,
                index,
                chosen,
                now,
                opencode,
            ).state,
        ),
{
    let f = fresh(s.recently_replied_questions, now, REPLY_DEDUP_TTL_MS as int);
    let m = with_entry(f, req.request_id, now);
    s.recently_replied_questions.lemma_filter_len(younger(now, REPLY_DEDUP_TTL_MS as int));
    f.lemma_filter_len(crate::collections::other_key::<i64>(req.request_id));
    pruning_caps(m, QUESTION_DEDUP_CAP as nat);
    assert(m[m.len() - 1].0 == req.request_id);
    if s.recently_replied_questions.len() >= QUESTION_DEDUP_CAP {
        let other = crate::collections::other_key::<i64>(req.request_id);
        filter_members(s.recently_replied_questions, younger(now, REPLY_DEDUP_TTL_MS as int));
        filter_members(f, other);
        assert forall|i: int| 0 <= i < m.len() implies (#[trigger] m[i]).1 <= m.last().1 by {
            if i < m.len() - 1 {
                assert(f.filter(other)[i] == m[i]);
                assert(f.filter(other).contains(m[i]));
                assert(f.contains(m[i]));
                assert(s.recently_replied_questions.contains(m[i]));
            }
        }
        pruning_keeps_the_last_entry(m, QUESTION_DEDUP_CAP as nat);
    }
    let p = pruned(m, QUESTION_DEDUP_CAP as nat);
    assert(p[p.len() - 1].0 == req.request_id);
    key_has_value(p, req.request_id);
}

} // verus!

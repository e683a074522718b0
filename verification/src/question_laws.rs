//! What holds of the user's answers to the questions of a request: nothing is sent until
//! each question has one, then all of them at once, and nothing after that.
use vstd::prelude::*;

use crate::answer_laws::{answers_keep_states_well_formed, request_ids, well_formed};
use crate::confirm::{choices, confirm_question, confirmed};
use crate::dispatch::{after, stay, StepV};
use crate::json::JsonV;
use crate::question::{call_id_of, call_id_round_trip, PendingQuestionV, QUESTION_REJECT_VALUE};
use crate::state::{has_request, lemma_request_at, request_at, without_pending, RemoteStateV};
use crate::text::begins;
use crate::types::EffectV;

verus! {

/// An answer of the user to the card of one question.
pub struct PickV {
    pub index: nat,
    pub data: JsonV,
    pub always_allow: bool,
    pub now: i64,
}

/// A run of answers to the cards of a request.
pub open spec fn answered(s: RemoteStateV, request_id: Seq<char>, picks: Seq<PickV>) -> StepV
    decreases picks.len(),
{
    if picks.len() == 0 {
        stay(s)
    } else {
        let before = answered(s, request_id, picks.drop_last());
        let pick = picks.last();
        after(
            before.effects,
            confirmed(
                before.state,
                call_id_of(request_id, pick.index),
                pick.data,
                pick.always_allow,
                pick.now,
                true,
            ),
        )
    }
}

/// What the user picked last for a question; `None` where nothing was.
pub open spec fn last_pick(picks: Seq<PickV>, index: int) -> Option<Seq<Seq<char>>>
    decreases picks.len(),
{
    if picks.len() == 0 {
        None
    } else if picks.last().index == index {
        Some(choices(picks.last().data))
    } else {
        last_pick(picks.drop_last(), index)
    }
}

/// The answer to a question after a run of answers: to what the user picked last, else
/// what it was before.
pub open spec fn answer_after(p: PendingQuestionV, picks: Seq<PickV>, index: int) -> Option<
    Seq<Seq<char>>,
> {
    match last_pick(picks, index) {
        Some(c) => Some(p.answer_for(index, c)),
        None => p.answers[index],
    }
}

/// A request after a run of answers.
pub open spec fn request_after(p: PendingQuestionV, picks: Seq<PickV>) -> PendingQuestionV {
    PendingQuestionV {
        answers: Seq::new(p.answers.len(), |i: int| answer_after(p, picks, i)),
        ..p
    }
}

/// Whether answers are about questions of a request, and none refuses it.
pub open spec fn answers_to(p: PendingQuestionV, picks: Seq<PickV>) -> bool {
    forall|k: int|
        0 <= k < picks.len() ==> (#[trigger] picks[k]).index < p.answers.len() && !choices(
            picks[k].data,
        ).contains(QUESTION_REJECT_VALUE@)
}

/// Whether no local tool waits for an answer under the id of one of the cards.
pub open spec fn cards_are_questions(s: RemoteStateV, request_id: Seq<char>) -> bool {
    forall|i: nat|
        !s.pending_shell_approvals.contains(#[trigger] call_id_of(request_id, i))
            && !s.pending_elicitations.contains(call_id_of(request_id, i))
}

/// The ids under which local tools wait are none of cards of questions.
pub proof fn local_tools_wait_under_other_ids(s: RemoteStateV, request_id: Seq<char>)
    requires
        forall|i: int|
            0 <= i < s.pending_shell_approvals.len() ==> begins(
                #[trigger] s.pending_shell_approvals[i],
                "shell-"@,
            ),
        forall|i: int|
            0 <= i < s.pending_elicitations.len() ==> begins(
                #[trigger] s.pending_elicitations[i],
                "elicit-"@,
            ),
    ensures
        cards_are_questions(s, request_id),
{
    reveal_strlit("question-");
    reveal_strlit("shell-");
    reveal_strlit("elicit-");
    assert forall|i: nat|
        !s.pending_shell_approvals.contains(#[trigger] call_id_of(request_id, i))
            && !s.pending_elicitations.contains(call_id_of(request_id, i)) by {
        let id = call_id_of(request_id, i);
        assert(id[0] == 'q');
        if begins(id, "shell-"@) {
            assert(id.take(6)[0] == 's');
        }
        if begins(id, "elicit-"@) {
            assert(id.take(7)[0] == 'e');
        }
    }
}

/// Whether a request waits for answers in a state that is in order.
pub open spec fn awaits(s: RemoteStateV, p: PendingQuestionV) -> bool {
    &&& well_formed(s)
    &&& has_request(s.pending_questions, p.request_id)
    &&& s.pending_questions[request_at(s.pending_questions, p.request_id)] == p
    &&& cards_are_questions(s, p.request_id)
    &&& p.request_id.len() > 0
    &&& p.answers.len() <= usize::MAX
}

proof fn lemma_first_request(q: Seq<PendingQuestionV>, id: Seq<char>)
    ensures
        forall|j: int| 0 <= j < request_at(q, id) ==> (#[trigger] q[j]).request_id != id,
    decreases q.len(),
{
    lemma_request_at(q, id);
    if q.len() > 0 && q[0].request_id != id {
        let t = q.drop_first();
        lemma_first_request(t, id);
        assert forall|j: int| 0 <= j < request_at(q, id) implies (#[trigger] q[j]).request_id
            != id by {
            if j > 0 {
                assert(q[j] == t[j - 1]);
            }
        }
    }
}

proof fn lemma_request_is_at(q: Seq<PendingQuestionV>, id: Seq<char>, at: int)
    requires
        0 <= at <= q.len(),
        forall|j: int| 0 <= j < at ==> (#[trigger] q[j]).request_id != id,
        at < q.len() ==> q[at].request_id == id,
    ensures
        request_at(q, id) == at,
    decreases q.len(),
{
    if at > 0 {
        let t = q.drop_first();
        assert(q[0].request_id != id);
        assert forall|j: int| 0 <= j < at - 1 implies (#[trigger] t[j]).request_id != id by {
            assert(t[j] == q[j + 1]);
        }
        lemma_request_is_at(t, id, at - 1);
    }
}

proof fn lemma_request_leaves(q: Seq<PendingQuestionV>, id: Seq<char>)
    requires
        crate::collections::distinct(request_ids(q)),
    ensures
        !has_request(without_pending(q, id), id),
{
    lemma_request_at(q, id);
    lemma_first_request(q, id);
    if has_request(q, id) {
        let at = request_at(q, id);
        let r = q.remove(at);
        assert forall|j: int| 0 <= j < r.len() implies (#[trigger] r[j]).request_id != id by {
            if j >= at {
                assert(r[j] == q[j + 1]);
                assert(request_ids(q)[at] != request_ids(q)[j + 1]);
            } else {
                assert(r[j] == q[j]);
            }
        }
        lemma_request_is_at(r, id, r.len() as int);
    }
}

proof fn lemma_one_answer(s: RemoteStateV, p: PendingQuestionV, pick: PickV)
    requires
        awaits(s, p),
        pick.index < p.answers.len(),
        !choices(pick.data).contains(QUESTION_REJECT_VALUE@),
    ensures
        ({
            let n = p.recorded(pick.index as int, p.answer_for(pick.index as int, choices(pick.data)));
            let step = confirmed(
                s,
                call_id_of(p.request_id, pick.index),
                pick.data,
                pick.always_allow,
                pick.now,
                true,
            );
            &&& !n.complete() ==> step.effects == Seq::<EffectV>::empty() && awaits(step.state, n)
            &&& n.complete() ==> step.effects == seq![
                EffectV::ReplyQuestion { request_id: p.request_id, answers: n.matrix() },
            ] && !has_request(step.state.pending_questions, p.request_id)
            &&& cards_are_questions(step.state, p.request_id)
        }),
{
    let id = call_id_of(p.request_id, pick.index);
    call_id_round_trip(p.request_id, pick.index);
    let step = confirmed(s, id, pick.data, pick.always_allow, pick.now, true);
    assert(step == confirm_question(
        s,
        id,
        p.request_id,
        pick.index as int,
        choices(pick.data),
        pick.now,
        true,
    ));
    answers_keep_states_well_formed(s, id, pick.data, pick.always_allow, pick.now, true);
    let q = s.pending_questions;
    lemma_request_at(q, p.request_id);
    lemma_first_request(q, p.request_id);
    let at = request_at(q, p.request_id);
    let n = p.recorded(pick.index as int, p.answer_for(pick.index as int, choices(pick.data)));
    if n.complete() {
        lemma_request_leaves(q, p.request_id);
    } else {
        let u = q.update(at, n);
        assert forall|j: int| 0 <= j < at implies (#[trigger] u[j]).request_id
            != p.request_id by {
            assert(u[j] == q[j]);
        }
        lemma_request_is_at(u, p.request_id, at);
    }
}

proof fn lemma_request_after_one(p: PendingQuestionV, picks: Seq<PickV>)
    requires
        picks.len() > 0,
        picks.last().index < p.answers.len(),
    ensures
        ({
            let b = request_after(p, picks.drop_last());
            let i = picks.last().index as int;
            request_after(p, picks) == b.recorded(i, b.answer_for(i, choices(picks.last().data)))
        }),
{
    let b = request_after(p, picks.drop_last());
    let i = picks.last().index as int;
    let n = b.recorded(i, b.answer_for(i, choices(picks.last().data)));
    assert(request_after(p, picks).answers =~= n.answers);
}

/// As long as a question of a request has no answer, answers to its other questions send
/// nothing. They are kept with the request, of each question the last one.
pub proof fn nothing_is_sent_before_the_last_answer(
    s: RemoteStateV,
    p: PendingQuestionV,
    picks: Seq<PickV>,
    open: int,
)
    requires
        awaits(s, p),
        answers_to(p, picks),
        0 <= open < p.answers.len(),
        answer_after(p, picks, open) is None,
    ensures
        answered(s, p.request_id, picks).effects == Seq::<EffectV>::empty(),
        awaits(answered(s, p.request_id, picks).state, request_after(p, picks)),
    decreases picks.len(),
{
    if picks.len() == 0 {
        assert(request_after(p, picks).answers =~= p.answers);
        assert(request_after(p, picks) == p);
    } else {
        let earlier = picks.drop_last();
        assert(picks.last() == picks[picks.len() - 1]);
        assert forall|k: int| 0 <= k < earlier.len() implies (#[trigger] earlier[k]).index
            < p.answers.len() && !choices(earlier[k].data).contains(QUESTION_REJECT_VALUE@) by {
            assert(earlier[k] == picks[k]);
        }
        nothing_is_sent_before_the_last_answer(s, p, earlier, open);
        let before = answered(s, p.request_id, earlier);
        lemma_one_answer(before.state, request_after(p, earlier), picks.last());
        lemma_request_after_one(p, picks);
        assert(request_after(p, picks).answers[open] is None);
        assert(!request_after(p, picks).complete());
        assert(answered(s, p.request_id, picks).effects =~= Seq::<EffectV>::empty());
    }
}

/// The answer to the last open question of a request sends the answers to all of them,
/// once: for each question to what the user picked last, else what was there before.
/// The request then waits no longer.
pub proof fn the_last_answer_sends_them_all(
    s: RemoteStateV,
    p: PendingQuestionV,
    picks: Seq<PickV>,
    pick: PickV,
)
    requires
        awaits(s, p),
        answers_to(p, picks.push(pick)),
        answer_after(p, picks, pick.index as int) is None,
        forall|i: int|
            0 <= i < p.answers.len() && i != pick.index ==> (#[trigger] answer_after(p, picks, i))
                is Some,
    ensures
        answered(s, p.request_id, picks.push(pick)).effects.len() == 1,
        answered(s, p.request_id, picks.push(pick)).effects[0] matches EffectV::ReplyQuestion {
            request_id,
            answers,
        } && request_id == p.request_id && answers.len() == p.answers.len() && forall|i: int|
            0 <= i < p.answers.len() ==> Some(#[trigger] answers[i]) == answer_after(
                p,
                picks.push(pick),
                i,
            ),
        !has_request(answered(s, p.request_id, picks.push(pick)).state.pending_questions, p.request_id),
{
    let all = picks.push(pick);
    assert(all.drop_last() =~= picks);
    assert(all[picks.len() as int] == pick);
    assert forall|k: int| 0 <= k < picks.len() implies (#[trigger] picks[k]).index
        < p.answers.len() && !choices(picks[k].data).contains(QUESTION_REJECT_VALUE@) by {
        assert(picks[k] == all[k]);
    }
    nothing_is_sent_before_the_last_answer(s, p, picks, pick.index as int);
    let before = answered(s, p.request_id, picks);
    lemma_one_answer(before.state, request_after(p, picks), pick);
    lemma_request_after_one(p, all);
    let n = request_after(p, all);
    assert forall|i: int| 0 <= i < n.answers.len() implies (#[trigger] n.answers[i]) is Some by {
        assert(n.answers[i] == answer_after(p, all, i));
        if i != pick.index {
            assert(answer_after(p, picks, i) is Some);
        }
    }
    assert(n.complete());
    let step = answered(s, p.request_id, all);
    assert(step.effects =~= seq![
        EffectV::ReplyQuestion { request_id: p.request_id, answers: n.matrix() },
    ]);
    assert forall|i: int| 0 <= i < p.answers.len() implies Some(#[trigger] n.matrix()[i])
        == answer_after(p, all, i) by {
        assert(n.answers[i] == answer_after(p, all, i));
        assert(n.answers[i] is Some);
    }
}

/// Answers to a request that waits no longer send nothing.
pub proof fn nothing_is_sent_after_the_last_answer(
    s: RemoteStateV,
    request_id: Seq<char>,
    picks: Seq<PickV>,
)
    requires
        !has_request(s.pending_questions, request_id),
        cards_are_questions(s, request_id),
        request_id.len() > 0,
        forall|k: int|
            0 <= k < picks.len() ==> (#[trigger] picks[k]).index <= usize::MAX && !choices(
                picks[k].data,
            ).contains(QUESTION_REJECT_VALUE@),
    ensures
        answered(s, request_id, picks).effects == Seq::<EffectV>::empty(),
        !has_request(answered(s, request_id, picks).state.pending_questions, request_id),
        cards_are_questions(answered(s, request_id, picks).state, request_id),
    decreases picks.len(),
{
    if picks.len() > 0 {
        let earlier = picks.drop_last();
        let pick = picks.last();
        assert(pick == picks[picks.len() - 1]);
        assert forall|k: int| 0 <= k < earlier.len() implies (#[trigger] earlier[k]).index
            <= usize::MAX && !choices(earlier[k].data).contains(QUESTION_REJECT_VALUE@) by {
            assert(earlier[k] == picks[k]);
        }
        nothing_is_sent_after_the_last_answer(s, request_id, earlier);
        call_id_round_trip(request_id, pick.index);
        assert(answered(s, request_id, picks).effects =~= Seq::<EffectV>::empty());
    }
}

/// A label that the user picks, alone or as a value, is the one choice.
pub proof fn a_label_is_one_choice(label: Seq<char>)
    ensures
        choices(JsonV::Str(label)) == seq![label],
        choices(JsonV::Object(seq![("value"@, JsonV::Str(label))])) == seq![label],
{
    let o = seq![("value"@, JsonV::Str(label))];
    assert(o[0].0 == "value"@);
    assert(crate::json::lookup(o, "value"@) == Some(JsonV::Str(label)));
}

} // verus!

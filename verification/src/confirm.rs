//! The user's answers: to permission requests, to questions, to shell commands that
//! wait for approval and to tools that ask for input.
use vstd::prelude::*;

use crate::collections::{
    assoc, filter_start, filter_step, fresh, map_has, map_keep_fresh, map_put, map_remove, prune_replied_map,
    pruned, set_add, set_has, set_remove, with_entry, with_member, without_key, without_member,
};
use crate::dispatch::{question_closed, stay, StepV, QUESTION_DEDUP_CAP};
use crate::json::{json_text, opt_str, Json, JsonV};
use crate::models::{collect_texts, texts_of};
use crate::question::{
    call_id_parts, is_question_call_id, make_choice, make_choice_with, parse_question_call_id, plain_choice,
    choice_with, PendingQuestion, PendingQuestionV, QUESTION_REJECT_VALUE,
};
use crate::ids::random_id;
use crate::shell::{
    ElicitationOutcome, ElicitationOutcomeV, ElicitationRequest, ElicitationRequestV, McpRequestContext,
    McpRequestContextV,
};
use crate::state::{
    blessed_line, drop_call, enqueue, find_request, has_request, no_effects, path_is_under_blessed,
    queued, request_at, session_or_ancestor_blessed, then_do, under_blessed, without_call, without_pending,
    ApprovalKey, ApprovalKeyV, RemoteState, RemoteStateV,
};
use crate::text::{begins, cat, cat5, str_eq, trim_end_char, without_suffix_char};
use crate::types::{
    copy_confirmations, copy_opt, AgentStreamEvent, AgentStreamEventV, Confirmation, ConfirmationV, Effect,
    EffectV, ShellApproval,
};

verus! {

/// How long an answered request is remembered, in milliseconds.
pub const REPLY_DEDUP_TTL_MS: i64 = 60_000;

/// How many answered permission requests are remembered.
pub const REPLY_DEDUP_CAP: usize = 1024;

/// What the user chose, word for word.
pub open spec fn raw_choice(data: JsonV) -> Option<Seq<char>> {
    match data.text() {
        Some(t) => Some(t),
        None => data.field_text("value"@),
    }
}

fn get_raw_choice(data: &Json) -> (r: Option<&str>)
    ensures
        opt_str(r) == raw_choice(data@),
{
    match data.as_str() {
        Some(t) => Some(t),
        None => data.get_str("value"),
    }
}

/// The texts of the list that a choice is, or that it holds.
pub open spec fn listed(data: JsonV) -> Seq<Seq<char>> {
    match data.items() {
        Some(a) => texts_of(a),
        None => match data.field("value"@) {
            Some(v) => match v.items() {
                Some(a) => texts_of(a),
                None => Seq::empty(),
            },
            None => Seq::empty(),
        },
    }
}

/// What the user chose for a question: the values of a list that holds any, and one
/// value otherwise, empty where nothing was said.
pub open spec fn choices(data: JsonV) -> Seq<Seq<char>> {
    if listed(data).len() > 0 {
        listed(data)
    } else {
        match raw_choice(data) {
            Some(t) => seq![t],
            None => seq![Seq::empty()],
        }
    }
}

fn get_listed(data: &Json) -> (r: Vec<String>)
    ensures
        r.deep_view() == listed(data@),
{
    match data.as_array() {
        Some(a) => {
            return collect_texts(a);
        },
        None => {},
    }
    match data.get("value") {
        Some(v) => match v.as_array() {
            Some(a) => {
                return collect_texts(a);
            },
            None => {},
        },
        None => {},
    }
    let none: Vec<String> = Vec::new();
    assert(none.deep_view() =~= Seq::<Seq<char>>::empty());
    none
}

fn get_choices(data: &Json) -> (r: Vec<String>)
    ensures
        r.deep_view() == choices(data@),
{
    let list = get_listed(data);
    if list.len() > 0 {
        return list;
    }
    let one = match get_raw_choice(data) {
        Some(t) => t,
        None => "",
    };
    proof {
        reveal_strlit("");
        assert(""@ =~= Seq::<char>::empty());
    }
    let mut out: Vec<String> = Vec::new();
    out.push(one.to_owned());
    assert(out.deep_view() =~= seq![one@]);
    out
}

/// Whether a choice is one of the replies to a permission request.
pub open spec fn is_reply(r: Seq<char>) -> bool {
    r == "once"@ || r == "always"@ || r == "reject"@ || r == "allow_dir"@ || r == "allow_session"@
}

/// The reply that a choice stands for.
pub open spec fn reply_of(data: JsonV, always_allow: bool) -> Seq<char> {
    match raw_choice(data) {
        Some(r) if is_reply(r) => r,
        _ => if always_allow {
            "always"@
        } else {
            "once"@
        },
    }
}

fn get_reply(data: &Json, always_allow: bool) -> (r: &str)
    ensures
        r@ == reply_of(data@, always_allow),
{
    match get_raw_choice(data) {
        Some(t) => {
            if str_eq(t, "once") || str_eq(t, "always") || str_eq(t, "reject") || str_eq(
                t,
                "allow_dir",
            ) || str_eq(t, "allow_session") {
                return t;
            }
        },
        None => {},
    }
    if always_allow {
        "always"
    } else {
        "once"
    }
}

/// What a choice says on top: a text among its parameters or beside them.
pub open spec fn extra_text(data: JsonV, key: Seq<char>) -> Option<Seq<char>> {
    let param = match data.field("params"@) {
        Some(p) => p.field(key),
        None => None,
    };
    let found = match param {
        Some(v) => Some(v),
        None => data.field(key),
    };
    match found {
        Some(v) => v.text(),
        None => None,
    }
}

fn get_extra<'a>(data: &'a Json, key: &str) -> (r: Option<&'a str>)
    ensures
        opt_str(r) == extra_text(data@, key@),
{
    let param = match data.get("params") {
        Some(p) => p.get(key),
        None => None,
    };
    let found = match param {
        Some(v) => Some(v),
        None => data.get(key),
    };
    match found {
        Some(v) => v.as_str(),
        None => None,
    }
}

/// What an "always" to a shell command is remembered under.
pub open spec fn shell_key() -> ApprovalKeyV {
    ApprovalKeyV { action: Some("run_shell"@), command_type: Some("run_shell"@) }
}

/// What an "always" to a shell command is remembered under.
pub fn shell_approval_key() -> (r: ApprovalKey)
    ensures
        r@ == shell_key(),
{
    ApprovalKey { action: Some("run_shell".to_owned()), command_type: Some("run_shell".to_owned()) }
}

fn same_text(a: &Option<String>, b: &Option<String>) -> (r: bool)
    ensures
        r == (a.deep_view() == b.deep_view()),
{
    match (a, b) {
        (Some(x), Some(y)) => str_eq(x.as_str(), y.as_str()),
        (None, None) => true,
        _ => false,
    }
}

fn has_approval(memory: &Vec<ApprovalKey>, key: &ApprovalKey) -> (r: bool)
    ensures
        r == memory.deep_view().contains(key@),
{
    let ghost mv = memory.deep_view();
    let mut i: usize = 0;
    while i < memory.len()
        invariant
            i <= memory.len(),
            mv == memory.deep_view(),
            forall|k: int| 0 <= k < i ==> mv[k] != key@,
        decreases memory.len() - i,
    {
        if same_text(&memory[i].action, &key.action) && same_text(
            &memory[i].command_type,
            &key.command_type,
        ) {
            assert(mv[i as int] == key@);
            return true;
        }
        assert(mv[i as int] != key@);
        i += 1;
    }
    false
}

fn add_approval(memory: &mut Vec<ApprovalKey>, key: ApprovalKey)
    ensures
        final(memory).deep_view() == with_member(old(memory).deep_view(), key@),
{
    if !has_approval(memory, &key) {
        let ghost before = memory.deep_view();
        memory.push(key);
        assert(memory.deep_view() =~= before.push(key@));
    }
}

/// The first confirmation with an id.
pub open spec fn card_of(q: Seq<ConfirmationV>, call_id: Seq<char>) -> Option<ConfirmationV>
    decreases q.len(),
{
    if q.len() == 0 {
        None
    } else if q[0].call_id == call_id {
        Some(q[0])
    } else {
        card_of(q.drop_first(), call_id)
    }
}

fn find_card<'a>(q: &'a Vec<Confirmation>, call_id: &str) -> (r: Option<&'a Confirmation>)
    ensures
        match r {
            Some(c) => card_of(q.deep_view(), call_id@) == Some(c@),
            None => card_of(q.deep_view(), call_id@) is None,
        },
{
    let ghost qv = q.deep_view();
    let mut i: usize = 0;
    assert(qv.skip(0) =~= qv);
    while i < q.len()
        invariant
            i <= q.len(),
            qv == q.deep_view(),
            card_of(qv, call_id@) == card_of(qv.skip(i as int), call_id@),
        decreases q.len() - i,
    {
        assert(qv.skip(i as int)[0] == q@[i as int]@);
        if str_eq(q[i].call_id.as_str(), call_id) {
            return Some(&q[i]);
        }
        assert(qv.skip(i as int).drop_first() =~= qv.skip(i as int + 1));
        i += 1;
    }
    None
}

/// An answer to a shell command that waits for approval.
pub open spec fn confirm_shell(s: RemoteStateV, call_id: Seq<char>, reply: Seq<char>) -> StepV {
    StepV {
        state: RemoteStateV {
            pending_shell_approvals: without_member(s.pending_shell_approvals, call_id),
            approval_memory: if reply == "always"@ {
                with_member(s.approval_memory, shell_key())
            } else {
                s.approval_memory
            },
            confirmations: without_call(s.confirmations, call_id),
            ..s
        },
        effects: seq![
            EffectV::ResolveShell {
                call_id,
                approval: if reply == "reject"@ {
                    ShellApproval::Reject
                } else {
                    ShellApproval::Allow
                },
            },
        ],
    }
}

/// What a tool that asked for input gets: nothing where the user declines, else the
/// `payload` of the answer or the whole of it.
pub open spec fn elicited(data: JsonV, reply: Seq<char>) -> Option<JsonV> {
    if reply == "reject"@ || raw_choice(data) == Some("cancel"@) {
        None
    } else {
        match data.field("payload"@) {
            Some(p) => Some(p),
            None => Some(data),
        }
    }
}

/// An answer to a tool that asked for input.
pub open spec fn confirm_elicitation(
    s: RemoteStateV,
    call_id: Seq<char>,
    data: JsonV,
    reply: Seq<char>,
) -> StepV {
    StepV {
        state: RemoteStateV {
            pending_elicitations: without_member(s.pending_elicitations, call_id),
            confirmations: without_call(s.confirmations, call_id),
            ..s
        },
        effects: seq![EffectV::ResolveElicitation { call_id, payload: elicited(data, reply) }],
    }
}

/// The state without the questions that were answered too long ago to count.
pub open spec fn questions_current(s: RemoteStateV, now: i64) -> RemoteStateV {
    RemoteStateV {
        recently_replied_questions: fresh(
            s.recently_replied_questions,
            now,
            REPLY_DEDUP_TTL_MS as int,
        ),
        ..s
    }
}

/// The stamps with one more question.
pub open spec fn question_stamped(s: RemoteStateV, id: Seq<char>, now: i64) -> Seq<(Seq<char>, i64)> {
    pruned(with_entry(s.recently_replied_questions, id, now), QUESTION_DEDUP_CAP as nat)
}

/// An answer to one question of a request. A refusal closes the whole request; the
/// answers are sent when each question has one.
pub open spec fn confirm_question(
    s: RemoteStateV,
    call_id: Seq<char>,
    request_id: Seq<char>,
    index: int,
    chosen: Seq<Seq<char>>,
    now: i64,
    opencode: bool,
) -> StepV {
    let s = RemoteStateV { confirmations: without_call(s.confirmations, call_id), ..s };
    if chosen.contains(QUESTION_REJECT_VALUE@) {
        StepV {
            state: question_closed(questions_current(s, now), request_id, now),
            effects: if opencode {
                seq![EffectV::RejectQuestion { request_id }]
            } else {
                Seq::empty()
            },
        }
    } else if !has_request(s.pending_questions, request_id) {
        stay(s)
    } else {
        let at = request_at(s.pending_questions, request_id);
        let p = s.pending_questions[at];
        let p = p.recorded(index, p.answer_for(index, chosen));
        if p.complete() {
            StepV {
                state: RemoteStateV {
                    pending_questions: without_pending(s.pending_questions, request_id),
                    recently_replied_questions: question_stamped(
                        questions_current(s, now),
                        request_id,
                        now,
                    ),
                    ..s
                },
                effects: if opencode {
                    seq![EffectV::ReplyQuestion { request_id, answers: p.matrix() }]
                } else {
                    Seq::empty()
                },
            }
        } else {
            stay(RemoteStateV { pending_questions: s.pending_questions.update(at, p), ..s })
        }
    }
}

/// Whether what the user blessed covers a confirmation.
pub open spec fn covered(s: RemoteStateV, c: ConfirmationV) -> bool {
    under_blessed(c.description, s.auto_accept_paths) || match c.session_id {
        Some(sid) => blessed_line(
            sid,
            s.auto_accept_sessions,
            s.child_sessions,
            s.child_sessions.len(),
        ),
        None => false,
    }
}

/// Passes the confirmations that a blessing covers.
pub open spec fn covered_by(s: RemoteStateV) -> spec_fn(ConfirmationV) -> bool {
    |c: ConfirmationV| covered(s, c)
}

/// Passes the confirmations that no blessing covers.
pub open spec fn not_covered_by(s: RemoteStateV) -> spec_fn(ConfirmationV) -> bool {
    |c: ConfirmationV| !covered(s, c)
}

/// The stamps with one more for each confirmation.
pub open spec fn stamped_all(m: Seq<(Seq<char>, i64)>, cs: Seq<ConfirmationV>, now: i64) -> Seq<
    (Seq<char>, i64),
>
    decreases cs.len(),
{
    if cs.len() == 0 {
        m
    } else {
        with_entry(stamped_all(m, cs.drop_last(), now), cs.last().call_id, now)
    }
}

/// The state once the user has blessed a directory tree or a session.
pub open spec fn blessed(s: RemoteStateV, data: JsonV, reply: Seq<char>) -> RemoteStateV {
    if reply == "allow_dir"@ {
        match extra_text(data, "path"@) {
            Some(p) => RemoteStateV {
                auto_accept_paths: with_member(s.auto_accept_paths, without_suffix_char(p, '/')),
                ..s
            },
            None => s,
        }
    } else if reply == "allow_session"@ {
        match extra_text(data, "sessionID"@) {
            Some(sid) => RemoteStateV {
                auto_accept_sessions: with_member(s.auto_accept_sessions, sid),
                ..s
            },
            None => s,
        }
    } else {
        s
    }
}

/// Whether a reply blesses something.
pub open spec fn blesses(reply: Seq<char>) -> bool {
    reply == "allow_dir"@ || reply == "allow_session"@
}

/// The state once the confirmations that a blessing covers have left the queue.
pub open spec fn drained(s: RemoteStateV, now: i64) -> RemoteStateV {
    RemoteStateV {
        confirmations: s.confirmations.filter(not_covered_by(s)),
        recently_replied_permissions: stamped_all(
            s.recently_replied_permissions,
            s.confirmations.filter(covered_by(s)),
            now,
        ),
        ..s
    }
}

/// The answer that goes to the server.
pub open spec fn wire_reply(reply: Seq<char>) -> Seq<char> {
    if blesses(reply) {
        "once"@
    } else {
        reply
    }
}

/// The effect that allows a confirmation without asking.
pub open spec fn allow_once(c: ConfirmationV) -> EffectV {
    EffectV::ReplyPermission {
        request_id: c.call_id,
        session_id: c.session_id,
        reply: "once"@,
        by_user: false,
    }
}

/// The effects that allow several confirmations without asking.
pub open spec fn allow_all(cs: Seq<ConfirmationV>) -> Seq<EffectV> {
    cs.map_values(|c: ConfirmationV| allow_once(c))
}

/// The stamps that still count.
pub open spec fn current_stamps(m: Seq<(Seq<char>, i64)>, now: i64) -> Seq<(Seq<char>, i64)> {
    pruned(fresh(m, now, REPLY_DEDUP_TTL_MS as int), REPLY_DEDUP_CAP as nat)
}

/// What an answer to a permission request changes before anything is sent.
pub open spec fn permission_settled(
    s: RemoteStateV,
    call_id: Seq<char>,
    data: JsonV,
    reply: Seq<char>,
) -> RemoteStateV {
    let card = card_of(s.confirmations, call_id);
    let s = RemoteStateV {
        approval_memory: match card {
            Some(c) if reply == "always"@ => with_member(
                s.approval_memory,
                ApprovalKeyV { action: c.action, command_type: c.command_type },
            ),
            _ => s.approval_memory,
        },
        confirmations: without_call(s.confirmations, call_id),
        ..s
    };
    blessed(s, data, reply)
}

/// An answer to a permission request of the server.
pub open spec fn confirm_permission(
    s: RemoteStateV,
    call_id: Seq<char>,
    data: JsonV,
    reply: Seq<char>,
    now: i64,
    opencode: bool,
) -> StepV {
    let session_id = match card_of(s.confirmations, call_id) {
        Some(c) => c.session_id,
        None => None,
    };
    let settled = permission_settled(s, call_id, data, reply);
    let out = if blesses(reply) {
        settled.confirmations.filter(covered_by(settled))
    } else {
        Seq::empty()
    };
    let s = if blesses(reply) {
        drained(settled, now)
    } else {
        settled
    };
    if !opencode {
        stay(s)
    } else {
        let stamps = current_stamps(s.recently_replied_permissions, now);
        if assoc(stamps, call_id) is Some {
            stay(RemoteStateV { recently_replied_permissions: stamps, ..s })
        } else {
            StepV {
                state: RemoteStateV {
                    recently_replied_permissions: with_entry(stamps, call_id, now),
                    ..s
                },
                effects: allow_all(out).push(
                    EffectV::ReplyPermission {
                        request_id: call_id,
                        session_id,
                        reply: wire_reply(reply),
                        by_user: true,
                    },
                ),
            }
        }
    }
}

/// An answer of the user to the confirmation `call_id`.
pub open spec fn confirmed(
    s: RemoteStateV,
    call_id: Seq<char>,
    data: JsonV,
    always_allow: bool,
    now: i64,
    opencode: bool,
) -> StepV {
    let reply = reply_of(data, always_allow);
    if s.pending_shell_approvals.contains(call_id) {
        confirm_shell(s, call_id, reply)
    } else if s.pending_elicitations.contains(call_id) {
        confirm_elicitation(s, call_id, data, reply)
    } else {
        match call_id_parts(call_id) {
            Some(p) => confirm_question(
                s,
                call_id,
                p.0,
                p.1 as int,
                choices(data),
                now,
                opencode,
            ),
            None => confirm_permission(s, call_id, data, reply, now, opencode),
        }
    }
}

/// Splits a queue by what is blessed: first what stays, then what leaves.
fn split_covered(s: &RemoteState) -> (r: (Vec<Confirmation>, Vec<Confirmation>))
    ensures
        r.0.deep_view() == s@.confirmations.filter(not_covered_by(s@)),
        r.1.deep_view() == s@.confirmations.filter(covered_by(s@)),
{
    let ghost qv = s@.confirmations;
    let ghost yes = covered_by(s@);
    let ghost no = not_covered_by(s@);
    let mut keep: Vec<Confirmation> = Vec::new();
    let mut leave: Vec<Confirmation> = Vec::new();
    let mut i: usize = 0;
    proof {
        filter_start(qv, yes);
        filter_start(qv, no);
        assert(keep.deep_view() =~= Seq::<ConfirmationV>::empty());
        assert(leave.deep_view() =~= Seq::<ConfirmationV>::empty());
    }
    while i < s.confirmations.len()
        invariant
            i <= s.confirmations.len(),
            qv == s@.confirmations,
            yes == covered_by(s@),
            no == not_covered_by(s@),
            keep.deep_view() == qv.take(i as int).filter(no),
            leave.deep_view() == qv.take(i as int).filter(yes),
        decreases s.confirmations.len() - i,
    {
        let ghost kv = keep.deep_view();
        let ghost lv = leave.deep_view();
        proof {
            filter_step(qv, i as int, yes);
            filter_step(qv, i as int, no);
        }
        let c = &s.confirmations[i];
        assert(qv[i as int] == c@);
        let path_hit = path_is_under_blessed(c.description.as_str(), &s.auto_accept_paths);
        let session_hit = match &c.session_id {
            Some(sid) => session_or_ancestor_blessed(
                sid.as_str(),
                &s.auto_accept_sessions,
                &s.child_sessions,
            ),
            None => false,
        };
        if path_hit || session_hit {
            leave.push(c.copy());
            assert(leave.deep_view() =~= lv.push(qv[i as int]));
        } else {
            keep.push(c.copy());
            assert(keep.deep_view() =~= kv.push(qv[i as int]));
        }
        i += 1;
    }
    assert(qv.take(qv.len() as int) =~= qv);
    (keep, leave)
}

fn stamp_all(m: &mut Vec<(String, i64)>, cs: &Vec<Confirmation>, now: i64)
    ensures
        final(m).deep_view() == stamped_all(old(m).deep_view(), cs.deep_view(), now),
{
    let ghost mv = m.deep_view();
    let ghost cv = cs.deep_view();
    let mut i: usize = 0;
    assert(stamped_all(mv, cv.take(0), now) == mv);
    while i < cs.len()
        invariant
            i <= cs.len(),
            cv == cs.deep_view(),
            m.deep_view() == stamped_all(mv, cv.take(i as int), now),
        decreases cs.len() - i,
    {
        assert(cv.take(i as int + 1).drop_last() =~= cv.take(i as int));
        assert(cv.take(i as int + 1).last() == cs@[i as int]@);
        map_put(m, cs[i].call_id.as_str(), now);
        i += 1;
    }
    assert(cv.take(cv.len() as int) =~= cv);
}

impl RemoteState {
    fn answer_shell(&mut self, call_id: &str, reply: &str) -> (fx: Vec<Effect>)
        ensures
            final(self)@ == confirm_shell(old(self)@, call_id@, reply@).state,
            fx.deep_view() == confirm_shell(old(self)@, call_id@, reply@).effects,
    {
        let mut fx = no_effects();
        let _ = set_remove(&mut self.pending_shell_approvals, call_id);
        if str_eq(reply, "always") {
            add_approval(&mut self.approval_memory, shell_approval_key());
        }
        drop_call(&mut self.confirmations, call_id);
        let approval = if str_eq(reply, "reject") {
            ShellApproval::Reject
        } else {
            ShellApproval::Allow
        };
        then_do(&mut fx, Effect::ResolveShell { call_id: call_id.to_owned(), approval });
        fx
    }

    fn answer_elicitation(&mut self, call_id: &str, data: &Json, reply: &str) -> (fx: Vec<Effect>)
        ensures
            final(self)@ == confirm_elicitation(old(self)@, call_id@, data@, reply@).state,
            fx.deep_view() == confirm_elicitation(old(self)@, call_id@, data@, reply@).effects,
    {
        let mut fx = no_effects();
        let _ = set_remove(&mut self.pending_elicitations, call_id);
        drop_call(&mut self.confirmations, call_id);
        let cancelled = match get_raw_choice(data) {
            Some(t) => str_eq(t, "cancel"),
            None => false,
        };
        let payload = if cancelled || str_eq(reply, "reject") {
            None
        } else {
            match data.get("payload") {
                Some(p) => Some(p.copy()),
                None => Some(data.copy()),
            }
        };
        then_do(&mut fx, Effect::ResolveElicitation { call_id: call_id.to_owned(), payload });
        fx
    }

    fn answer_question(
        &mut self,
        call_id: &str,
        request_id: &str,
        index: usize,
        chosen: &Vec<String>,
        now: i64,
        opencode: bool,
    ) -> (fx: Vec<Effect>)
        ensures
            final(self)@ == confirm_question(
                old(self)@,
                call_id@,
                request_id@,
                index as int,
                chosen.deep_view(),
                now,
                opencode,
            ).state,
            fx.deep_view() == confirm_question(
                old(self)@,
                call_id@,
                request_id@,
                index as int,
                chosen.deep_view(),
                now,
                opencode,
            ).effects,
    {
        let mut fx = no_effects();
        drop_call(&mut self.confirmations, call_id);
        if set_has(chosen, QUESTION_REJECT_VALUE) {
            map_keep_fresh(&mut self.recently_replied_questions, now, REPLY_DEDUP_TTL_MS);
            self.close_question(request_id, now);
            if opencode {
                then_do(&mut fx, Effect::RejectQuestion { request_id: request_id.to_owned() });
            }
            return fx;
        }
        let ghost pv = self@.pending_questions;
        let at: usize = match find_request(&self.pending_questions, request_id) {
            Some(i) => i,
            None => {
                return fx;
            },
        };
        let answer = self.pending_questions[at].answer(index, chosen);
        let mut p = self.pending_questions.remove(at);
        assert(self@.pending_questions =~= pv.remove(at as int));
        let _ = p.record(index, answer);
        let ghost done = p@;
        if p.is_complete() {
            let answers = p.collected();
            map_keep_fresh(&mut self.recently_replied_questions, now, REPLY_DEDUP_TTL_MS);
            map_put(&mut self.recently_replied_questions, request_id, now);
            prune_replied_map(&mut self.recently_replied_questions, QUESTION_DEDUP_CAP);
            if opencode {
                then_do(
                    &mut fx,
                    Effect::ReplyQuestion { request_id: request_id.to_owned(), answers },
                );
            }
        } else {
            self.pending_questions.insert(at, p);
            assert(self@.pending_questions =~= pv.update(at as int, done));
        }
        fx
    }

    fn bless(&mut self, data: &Json, reply: &str)
        ensures
            final(self)@ == blessed(old(self)@, data@, reply@),
    {
        if str_eq(reply, "allow_dir") {
            match get_extra(data, "path") {
                Some(p) => {
                    let dir = trim_end_char(p, '/');
                    let _ = set_add(&mut self.auto_accept_paths, dir.as_str());
                },
                None => {},
            }
        } else if str_eq(reply, "allow_session") {
            match get_extra(data, "sessionID") {
                Some(sid) => {
                    let _ = set_add(&mut self.auto_accept_sessions, sid);
                },
                None => {},
            }
        }
    }

    fn answer_permission(
        &mut self,
        call_id: &str,
        data: &Json,
        reply: &str,
        now: i64,
        opencode: bool,
    ) -> (fx: Vec<Effect>)
        ensures
            final(self)@ == confirm_permission(
                old(self)@,
                call_id@,
                data@,
                reply@,
                now,
                opencode,
            ).state,
            fx.deep_view() == confirm_permission(
                old(self)@,
                call_id@,
                data@,
                reply@,
                now,
                opencode,
            ).effects,
    {
        let mut fx = no_effects();
        let (key, session_id) = match find_card(&self.confirmations, call_id) {
            Some(c) => (
                Some(
                    ApprovalKey {
                        action: copy_opt(&c.action),
                        command_type: copy_opt(&c.command_type),
                    },
                ),
                copy_opt(&c.session_id),
            ),
            None => (None, None),
        };
        match key {
            Some(k) => {
                if str_eq(reply, "always") {
                    add_approval(&mut self.approval_memory, k);
                }
            },
            None => {},
        }
        drop_call(&mut self.confirmations, call_id);
        self.bless(data, reply);
        let ghost settled = permission_settled(old(self)@, call_id@, data@, reply@);
        assert(self@ == settled);
        let blessing = str_eq(reply, "allow_dir") || str_eq(reply, "allow_session");
        let mut leave: Vec<Confirmation> = Vec::new();
        assert(leave.deep_view() =~= Seq::<ConfirmationV>::empty());
        if blessing {
            let (keep, covered) = split_covered(self);
            self.confirmations = keep;
            stamp_all(&mut self.recently_replied_permissions, &covered, now);
            leave = covered;
            assert(self@ == drained(settled, now));
        }
        if !opencode {
            return fx;
        }
        map_keep_fresh(&mut self.recently_replied_permissions, now, REPLY_DEDUP_TTL_MS);
        prune_replied_map(&mut self.recently_replied_permissions, REPLY_DEDUP_CAP);
        if map_has(&self.recently_replied_permissions, call_id) {
            return fx;
        }
        map_put(&mut self.recently_replied_permissions, call_id, now);
        allow_each(&leave, &mut fx);
        let wire = if blessing {
            "once"
        } else {
            reply
        };
        then_do(
            &mut fx,
            Effect::ReplyPermission {
                request_id: call_id.to_owned(),
                session_id,
                reply: wire.to_owned(),
                by_user: true,
            },
        );
        fx
    }

    /// Takes an answer of the user to the confirmation `call_id`.
    pub fn confirm(
        &mut self,
        call_id: &str,
        data: &Json,
        always_allow: bool,
        now: i64,
        opencode: bool,
    ) -> (fx: Vec<Effect>)
        ensures
            final(self)@ == confirmed(
                old(self)@,
                call_id@,
                data@,
                always_allow,
                now,
                opencode,
            ).state,
            fx.deep_view() == confirmed(
                old(self)@,
                call_id@,
                data@,
                always_allow,
                now,
                opencode,
            ).effects,
    {
        let reply = get_reply(data, always_allow);
        if set_has(&self.pending_shell_approvals, call_id) {
            return self.answer_shell(call_id, reply);
        }
        if set_has(&self.pending_elicitations, call_id) {
            return self.answer_elicitation(call_id, data, reply);
        }
        match parse_question_call_id(call_id) {
            Some((request_id, index)) => {
                let chosen = get_choices(data);
                self.answer_question(call_id, request_id.as_str(), index, &chosen, now, opencode)
            },
            None => self.answer_permission(call_id, data, reply, now, opencode),
        }
    }

    /// Notes that the server took the user's answer, so that the same request can be
    /// answered again.
    pub fn permission_reply_sent(&mut self, call_id: &str)
        ensures
            final(self)@ == (RemoteStateV {
                recently_replied_permissions: without_key(
                    old(self)@.recently_replied_permissions,
                    call_id@,
                ),
                ..old(self)@
            }),
    {
        map_remove(&mut self.recently_replied_permissions, call_id);
    }

    /// Whether the user approved an action for the rest of the session.
    pub fn check_approval(&self, action: &str, command_type: &Option<String>) -> (r: bool)
        ensures
            r == self@.approval_memory.contains(
                ApprovalKeyV { action: Some(action@), command_type: command_type.deep_view() },
            ),
    {
        let key = ApprovalKey { action: Some(action.to_owned()), command_type: copy_opt(command_type) };
        has_approval(&self.approval_memory, &key)
    }

    /// The confirmations that wait for the user.
    pub fn get_confirmations(&self) -> (r: Vec<Confirmation>)
        ensures
            r.deep_view() == self@.confirmations,
    {
        copy_confirmations(&self.confirmations)
    }
}

fn allow_each(cs: &Vec<Confirmation>, fx: &mut Vec<Effect>)
    ensures
        final(fx).deep_view() == old(fx).deep_view() + allow_all(cs.deep_view()),
{
    let ghost before = fx.deep_view();
    let ghost cv = cs.deep_view();
    let mut i: usize = 0;
    assert(before + allow_all(cv.take(0)) =~= before);
    while i < cs.len()
        invariant
            i <= cs.len(),
            cv == cs.deep_view(),
            fx.deep_view() == before + allow_all(cv.take(i as int)),
        decreases cs.len() - i,
    {
        then_do(
            fx,
            Effect::ReplyPermission {
                request_id: cs[i].call_id.clone(),
                session_id: copy_opt(&cs[i].session_id),
                reply: "once".to_owned(),
                by_user: false,
            },
        );
        assert(cv[i as int] == cs@[i as int]@);
        assert(before + allow_all(cv.take(i as int + 1)) =~= (before + allow_all(
            cv.take(i as int),
        )).push(allow_once(cv[i as int])));
        i += 1;
    }
    assert(cv.take(cv.len() as int) =~= cv);
}

/// The confirmation that asks for approval of a shell command.
pub open spec fn shell_card(
    call_id: Seq<char>,
    command: Seq<char>,
    cwd: Seq<char>,
    hint: Seq<char>,
    context: McpRequestContextV,
) -> ConfirmationV {
    ConfirmationV {
        id: call_id,
        call_id,
        title: Some("Run a command on your machine?"@),
        action: Some("run_shell"@),
        description: hint + " — "@ + cwd + "\n\n$ "@ + command,
        command_type: Some("run_shell"@),
        options: seq![
            plain_choice("Allow once"@, "once"@),
            plain_choice("Skip shell prompts (this session)"@, "always"@),
            plain_choice("Reject"@, "reject"@),
        ],
        session_id: context.session_id,
        parent_session_id: context.parent_session_id,
    }
}

/// The effect that shows a confirmation.
pub open spec fn show(card: ConfirmationV) -> EffectV {
    EffectV::Emit(AgentStreamEventV::AcpPermission(card))
}

/// A shell command that asks for approval under the id `call_id`.
pub open spec fn shell_asked(s: RemoteStateV, card: ConfirmationV) -> StepV {
    StepV {
        state: RemoteStateV {
            confirmations: queued(s.confirmations, card),
            pending_shell_approvals: with_member(s.pending_shell_approvals, card.call_id),
            ..s
        },
        effects: seq![show(card)],
    }
}

/// The confirmation that asks the user for input.
pub open spec fn elicitation_card(
    call_id: Seq<char>,
    request: ElicitationRequestV,
    context: McpRequestContextV,
) -> ConfirmationV {
    ConfirmationV {
        id: call_id,
        call_id,
        title: Some(request.tool_name + ": input required"@),
        action: Some("mcp_elicitation"@),
        description: request.message,
        command_type: Some("mcp_elicitation"@),
        options: seq![
            match request.requested_schema {
                Some(schema) => choice_with("Submit"@, "submit"@, "schema"@, json_text(schema)),
                None => plain_choice("Submit"@, "submit"@),
            },
            plain_choice("Cancel"@, "cancel"@),
        ],
        session_id: context.session_id,
        parent_session_id: context.parent_session_id,
    }
}

/// A tool that asks the user for input.
pub open spec fn elicitation_asked(s: RemoteStateV, card: ConfirmationV) -> StepV {
    StepV {
        state: RemoteStateV {
            confirmations: queued(s.confirmations, card),
            pending_elicitations: with_member(s.pending_elicitations, card.call_id),
            ..s
        },
        effects: seq![show(card)],
    }
}

/// Whether nothing waits for the user.
pub open spec fn nothing_waits(s: RemoteStateV) -> bool {
    s.confirmations.len() == 0 && s.pending_shell_approvals.len() == 0
        && s.pending_elicitations.len() == 0
}

/// Passes the confirmations of permission requests: those that neither a local tool
/// nor a question put there.
pub open spec fn from_server(s: RemoteStateV) -> spec_fn(ConfirmationV) -> bool {
    |c: ConfirmationV|
        !s.pending_shell_approvals.contains(c.call_id) && !s.pending_elicitations.contains(
            c.call_id,
        ) && !begins(c.call_id, "question-"@)
}

/// The stamps with one more for each pending question.
pub open spec fn questions_stamped(
    m: Seq<(Seq<char>, i64)>,
    ps: Seq<PendingQuestionV>,
    now: i64,
) -> Seq<(Seq<char>, i64)>
    decreases ps.len(),
{
    if ps.len() == 0 {
        m
    } else {
        with_entry(questions_stamped(m, ps.drop_last(), now), ps.last().request_id, now)
    }
}

/// The effects that refuse questions.
pub open spec fn refuse_questions(ps: Seq<PendingQuestionV>) -> Seq<EffectV> {
    ps.map_values(|p: PendingQuestionV| EffectV::RejectQuestion { request_id: p.request_id })
}

/// The effects that refuse shell commands.
pub open spec fn refuse_shells(ids: Seq<Seq<char>>) -> Seq<EffectV> {
    ids.map_values(
        |id: Seq<char>| EffectV::ResolveShell { call_id: id, approval: ShellApproval::Reject },
    )
}

/// The effects that decline requests for input.
pub open spec fn refuse_elicitations(ids: Seq<Seq<char>>) -> Seq<EffectV> {
    ids.map_values(|id: Seq<char>| EffectV::ResolveElicitation { call_id: id, payload: None })
}

/// The effects that refuse permission requests.
pub open spec fn refuse_permissions(cs: Seq<ConfirmationV>) -> Seq<EffectV> {
    cs.map_values(
        |c: ConfirmationV|
            EffectV::ReplyPermission {
                request_id: c.call_id,
                session_id: c.session_id,
                reply: "reject"@,
                by_user: false,
            },
    )
}

/// Everything that waits for the user is refused.
pub open spec fn all_rejected(s: RemoteStateV, now: i64, opencode: bool) -> StepV {
    if nothing_waits(s) {
        stay(s)
    } else {
        StepV {
            state: RemoteStateV {
                confirmations: Seq::empty(),
                pending_shell_approvals: Seq::empty(),
                pending_elicitations: Seq::empty(),
                pending_questions: Seq::empty(),
                recently_replied_questions: pruned(
                    questions_stamped(s.recently_replied_questions, s.pending_questions, now),
                    QUESTION_DEDUP_CAP as nat,
                ),
                ..s
            },
            effects: (if opencode {
                refuse_questions(s.pending_questions)
            } else {
                Seq::empty()
            }) + refuse_shells(s.pending_shell_approvals) + refuse_elicitations(s.pending_elicitations) + (if opencode {
                refuse_permissions(s.confirmations.filter(from_server(s)))
            } else {
                Seq::empty()
            }),
        }
    }
}

impl RemoteState {
    fn ask_shell(
        &mut self,
        call_id: &str,
        command: &str,
        cwd: &str,
        hint: &str,
        context: &McpRequestContext,
    ) -> (fx: Vec<Effect>)
        ensures
            final(self)@ == shell_asked(
                old(self)@,
                shell_card(call_id@, command@, cwd@, hint@, context@),
            ).state,
            fx.deep_view() == shell_asked(
                old(self)@,
                shell_card(call_id@, command@, cwd@, hint@, context@),
            ).effects,
    {
        let options = vec![
            make_choice("Allow once", "once"),
            make_choice("Skip shell prompts (this session)", "always"),
            make_choice("Reject", "reject"),
        ];
        let card = Confirmation {
            id: call_id.to_owned(),
            call_id: call_id.to_owned(),
            title: Some("Run a command on your machine?".to_owned()),
            action: Some("run_shell".to_owned()),
            description: cat5(hint, " — ", cwd, "\n\n$ ", command),
            command_type: Some("run_shell".to_owned()),
            options,
            session_id: copy_opt(&context.session_id),
            parent_session_id: copy_opt(&context.parent_session_id),
        };
        assert(card@.options =~= shell_card(call_id@, command@, cwd@, hint@, context@).options);
        let shown = card.copy();
        enqueue(&mut self.confirmations, card);
        let _ = set_add(&mut self.pending_shell_approvals, call_id);
        let mut fx = no_effects();
        then_do(&mut fx, Effect::Emit(AgentStreamEvent::AcpPermission(shown)));
        fx
    }

    /// Asks the user for approval of a shell command, under a given random id. Where
    /// the user skipped such prompts for the session, the answer is there at once;
    /// otherwise the command waits for [`RemoteState::confirm`].
    pub fn request_shell_approval(
        &mut self,
        random_id: &str,
        command: &str,
        cwd: &str,
        hint: &str,
        context: &McpRequestContext,
    ) -> (r: (Option<ShellApproval>, Vec<Effect>))
        ensures
            old(self)@.approval_memory.contains(shell_key()) ==> r.0 == Some(ShellApproval::Allow)
                && final(self)@ == old(self)@ && r.1.deep_view() == Seq::<EffectV>::empty(),
            !old(self)@.approval_memory.contains(shell_key()) ==> {
                let card = shell_card("shell-"@ + random_id@, command@, cwd@, hint@, context@);
                r.0 is None && final(self)@ == shell_asked(old(self)@, card).state
                    && r.1.deep_view() == shell_asked(old(self)@, card).effects
            },
    {
        if has_approval(&self.approval_memory, &shell_approval_key()) {
            return (Some(ShellApproval::Allow), no_effects());
        }
        let call_id = cat("shell-", random_id);
        let fx = self.ask_shell(call_id.as_str(), command, cwd, hint, context);
        (None, fx)
    }

    /// Asks the user for approval of a shell command, as
    /// [`RemoteState::request_shell_approval`] does, under a random id.
    pub fn approve_shell_with_context(
        &mut self,
        command: &str,
        cwd: &str,
        hint: &str,
        context: &McpRequestContext,
    ) -> (r: (Option<ShellApproval>, Vec<Effect>))
        ensures
            old(self)@.approval_memory.contains(shell_key()) ==> r.0 == Some(ShellApproval::Allow)
                && final(self)@ == old(self)@ && r.1.deep_view() == Seq::<EffectV>::empty(),
            !old(self)@.approval_memory.contains(shell_key()) ==> r.0 is None && exists|
                id: Seq<char>,
            |
                {
                    let card = #[trigger] shell_card(
                        "shell-"@ + id,
                        command@,
                        cwd@,
                        hint@,
                        context@,
                    );
                    id.len() == 36 && final(self)@ == shell_asked(old(self)@, card).state
                        && r.1.deep_view() == shell_asked(old(self)@, card).effects
                },
    {
        let id = random_id();
        let r = self.request_shell_approval(id.as_str(), command, cwd, hint, context);
        proof {
            let card = shell_card("shell-"@ + id@, command@, cwd@, hint@, context@);
            assert(card == card);
        }
        r
    }

    /// Takes a shell command back that is no longer waited for; it counts as refused.
    pub fn abandon_shell(&mut self, call_id: &str) -> (r: ShellApproval)
        ensures
            r == ShellApproval::Reject,
            final(self)@ == (RemoteStateV {
                pending_shell_approvals: without_member(
                    old(self)@.pending_shell_approvals,
                    call_id@,
                ),
                confirmations: without_call(old(self)@.confirmations, call_id@),
                ..old(self)@
            }),
    {
        let _ = set_remove(&mut self.pending_shell_approvals, call_id);
        drop_call(&mut self.confirmations, call_id);
        ShellApproval::Reject
    }

    /// Asks the user for input, under a given random id.
    pub fn ask_elicitation(
        &mut self,
        random_id: &str,
        request: &ElicitationRequest,
        context: &McpRequestContext,
    ) -> (fx: Vec<Effect>)
        ensures
            final(self)@ == elicitation_asked(
                old(self)@,
                elicitation_card("elicit-"@ + random_id@, request@, context@),
            ).state,
            fx.deep_view() == elicitation_asked(
                old(self)@,
                elicitation_card("elicit-"@ + random_id@, request@, context@),
            ).effects,
    {
        let call_id = cat("elicit-", random_id);
        let submit = match &request.requested_schema {
            Some(schema) => {
                let text = schema.to_text();
                make_choice_with("Submit", "submit", "schema", text.as_str())
            },
            None => make_choice("Submit", "submit"),
        };
        let options = vec![submit, make_choice("Cancel", "cancel")];
        let card = Confirmation {
            id: call_id.clone(),
            call_id: call_id.clone(),
            title: Some(cat(request.tool_name.as_str(), ": input required")),
            action: Some("mcp_elicitation".to_owned()),
            description: request.message.clone(),
            command_type: Some("mcp_elicitation".to_owned()),
            options,
            session_id: copy_opt(&context.session_id),
            parent_session_id: copy_opt(&context.parent_session_id),
        };
        assert(card@.options =~= elicitation_card(call_id@, request@, context@).options);
        let shown = card.copy();
        enqueue(&mut self.confirmations, card);
        let _ = set_add(&mut self.pending_elicitations, call_id.as_str());
        let mut fx = no_effects();
        then_do(&mut fx, Effect::Emit(AgentStreamEvent::AcpPermission(shown)));
        fx
    }

    /// Asks the user for input, as [`RemoteState::ask_elicitation`] does, under a
    /// random id.
    pub fn request_elicitation(
        &mut self,
        request: &ElicitationRequest,
        context: &McpRequestContext,
    ) -> (fx: Vec<Effect>)
        ensures
            exists|id: Seq<char>|
                {
                    let card = #[trigger] elicitation_card("elicit-"@ + id, request@, context@);
                    id.len() == 36 && final(self)@ == elicitation_asked(old(self)@, card).state
                        && fx.deep_view() == elicitation_asked(old(self)@, card).effects
                },
    {
        let id = random_id();
        let fx = self.ask_elicitation(id.as_str(), request, context);
        proof {
            let card = elicitation_card("elicit-"@ + id@, request@, context@);
            assert(card == card);
        }
        fx
    }

    /// What a tool gets that asked for input: `None` also stands for a prompt that
    /// was taken away. What declines leaves nothing behind.
    pub fn settle_elicitation(&mut self, call_id: &str, payload: Option<Json>) -> (r: ElicitationOutcome)
        ensures
            match payload {
                Some(p) => r@ == ElicitationOutcomeV::Accepted(p@) && final(self)@ == old(self)@,
                None => r@ == ElicitationOutcomeV::Declined && final(self)@ == (RemoteStateV {
                    pending_elicitations: without_member(old(self)@.pending_elicitations, call_id@),
                    confirmations: without_call(old(self)@.confirmations, call_id@),
                    ..old(self)@
                }),
            },
    {
        match payload {
            Some(p) => ElicitationOutcome::Accepted(p),
            None => {
                let _ = set_remove(&mut self.pending_elicitations, call_id);
                drop_call(&mut self.confirmations, call_id);
                ElicitationOutcome::Declined
            },
        }
    }

    fn requests_of_server(&self) -> (r: Vec<Confirmation>)
        ensures
            r.deep_view() == self@.confirmations.filter(from_server(self@)),
    {
        let ghost qv = self@.confirmations;
        let ghost p = from_server(self@);
        let mut out: Vec<Confirmation> = Vec::new();
        let mut i: usize = 0;
        proof {
            filter_start(qv, p);
            assert(out.deep_view() =~= Seq::<ConfirmationV>::empty());
        }
        while i < self.confirmations.len()
            invariant
                i <= self.confirmations.len(),
                qv == self@.confirmations,
                p == from_server(self@),
                out.deep_view() == qv.take(i as int).filter(p),
            decreases self.confirmations.len() - i,
        {
            let ghost ov = out.deep_view();
            proof {
                filter_step(qv, i as int, p);
            }
            let c = &self.confirmations[i];
            assert(qv[i as int] == c@);
            if !set_has(&self.pending_shell_approvals, c.call_id.as_str()) && !set_has(
                &self.pending_elicitations,
                c.call_id.as_str(),
            ) && !is_question_call_id(c.call_id.as_str()) {
                out.push(c.copy());
                assert(out.deep_view() =~= ov.push(qv[i as int]));
            }
            i += 1;
        }
        assert(qv.take(qv.len() as int) =~= qv);
        out
    }

    /// Refuses everything that waits for the user: at a cancellation, and when a new
    /// prompt comes while the last turn still waits.
    pub fn reject_pending_confirmations(&mut self, now: i64, opencode: bool) -> (fx: Vec<Effect>)
        ensures
            final(self)@ == all_rejected(old(self)@, now, opencode).state,
            fx.deep_view() == all_rejected(old(self)@, now, opencode).effects,
    {
        let mut fx = no_effects();
        if self.confirmations.len() == 0 && self.pending_shell_approvals.len() == 0
            && self.pending_elicitations.len() == 0 {
            return fx;
        }
        let ghost s = self@;
        let server = self.requests_of_server();
        stamp_each_question(&self.pending_questions, &mut self.recently_replied_questions, now);
        if opencode {
            refuse_each_question(&self.pending_questions, &mut fx);
        }
        prune_replied_map(&mut self.recently_replied_questions, QUESTION_DEDUP_CAP);
        refuse_each_shell(&self.pending_shell_approvals, &mut fx);
        refuse_each_elicitation(&self.pending_elicitations, &mut fx);
        if opencode {
            refuse_each_permission(&server, &mut fx);
        }
        self.confirmations = Vec::new();
        self.pending_shell_approvals = Vec::new();
        self.pending_elicitations = Vec::new();
        self.pending_questions = Vec::new();
        assert(self@.confirmations =~= Seq::<ConfirmationV>::empty());
        assert(self@.pending_shell_approvals =~= Seq::<Seq<char>>::empty());
        assert(self@.pending_elicitations =~= Seq::<Seq<char>>::empty());
        assert(self@.pending_questions =~= Seq::<PendingQuestionV>::empty());
        assert(fx.deep_view() =~= all_rejected(s, now, opencode).effects);
        fx
    }
}

fn stamp_each_question(ps: &Vec<PendingQuestion>, stamps: &mut Vec<(String, i64)>, now: i64)
    ensures
        final(stamps).deep_view() == questions_stamped(
            old(stamps).deep_view(),
            ps.deep_view(),
            now,
        ),
{
    let ghost mv = stamps.deep_view();
    let ghost pv = ps.deep_view();
    let mut i: usize = 0;
    assert(questions_stamped(mv, pv.take(0), now) == mv);
    while i < ps.len()
        invariant
            i <= ps.len(),
            pv == ps.deep_view(),
            stamps.deep_view() == questions_stamped(mv, pv.take(i as int), now),
        decreases ps.len() - i,
    {
        assert(pv.take(i as int + 1).drop_last() =~= pv.take(i as int));
        assert(pv.take(i as int + 1).last() == ps@[i as int]@);
        map_put(stamps, ps[i].request_id.as_str(), now);
        i += 1;
    }
    assert(pv.take(pv.len() as int) =~= pv);
}

fn refuse_each_question(ps: &Vec<PendingQuestion>, fx: &mut Vec<Effect>)
    ensures
        final(fx).deep_view() == old(fx).deep_view() + refuse_questions(ps.deep_view()),
{
    let ghost before = fx.deep_view();
    let ghost pv = ps.deep_view();
    let mut i: usize = 0;
    assert(before + refuse_questions(pv.take(0)) =~= before);
    while i < ps.len()
        invariant
            i <= ps.len(),
            pv == ps.deep_view(),
            fx.deep_view() == before + refuse_questions(pv.take(i as int)),
        decreases ps.len() - i,
    {
        assert(pv[i as int] == ps@[i as int]@);
        then_do(fx, Effect::RejectQuestion { request_id: ps[i].request_id.clone() });
        assert(fx.deep_view() =~= before + refuse_questions(pv.take(i as int + 1)));
        i += 1;
    }
    assert(pv.take(pv.len() as int) =~= pv);
}

pub(crate) fn refuse_each_shell(ids: &Vec<String>, fx: &mut Vec<Effect>)
    ensures
        final(fx).deep_view() == old(fx).deep_view() + refuse_shells(ids.deep_view()),
{
    let ghost before = fx.deep_view();
    let ghost iv = ids.deep_view();
    let mut i: usize = 0;
    assert(before + refuse_shells(iv.take(0)) =~= before);
    while i < ids.len()
        invariant
            i <= ids.len(),
            iv == ids.deep_view(),
            fx.deep_view() == before + refuse_shells(iv.take(i as int)),
        decreases ids.len() - i,
    {
        then_do(
            fx,
            Effect::ResolveShell { call_id: ids[i].clone(), approval: ShellApproval::Reject },
        );
        assert(fx.deep_view() =~= before + refuse_shells(iv.take(i as int + 1)));
        i += 1;
    }
    assert(iv.take(iv.len() as int) =~= iv);
}

pub(crate) fn refuse_each_elicitation(ids: &Vec<String>, fx: &mut Vec<Effect>)
    ensures
        final(fx).deep_view() == old(fx).deep_view() + refuse_elicitations(ids.deep_view()),
{
    let ghost before = fx.deep_view();
    let ghost iv = ids.deep_view();
    let mut i: usize = 0;
    assert(before + refuse_elicitations(iv.take(0)) =~= before);
    while i < ids.len()
        invariant
            i <= ids.len(),
            iv == ids.deep_view(),
            fx.deep_view() == before + refuse_elicitations(iv.take(i as int)),
        decreases ids.len() - i,
    {
        then_do(fx, Effect::ResolveElicitation { call_id: ids[i].clone(), payload: None });
        assert(fx.deep_view() =~= before + refuse_elicitations(iv.take(i as int + 1)));
        i += 1;
    }
    assert(iv.take(iv.len() as int) =~= iv);
}

fn refuse_each_permission(cs: &Vec<Confirmation>, fx: &mut Vec<Effect>)
    ensures
        final(fx).deep_view() == old(fx).deep_view() + refuse_permissions(cs.deep_view()),
{
    let ghost before = fx.deep_view();
    let ghost cv = cs.deep_view();
    let mut i: usize = 0;
    assert(before + refuse_permissions(cv.take(0)) =~= before);
    while i < cs.len()
        invariant
            i <= cs.len(),
            cv == cs.deep_view(),
            fx.deep_view() == before + refuse_permissions(cv.take(i as int)),
        decreases cs.len() - i,
    {
        then_do(
            fx,
            Effect::ReplyPermission {
                request_id: cs[i].call_id.clone(),
                session_id: copy_opt(&cs[i].session_id),
                reply: "reject".to_owned(),
                by_user: false,
            },
        );
        assert(cv[i as int] == cs@[i as int]@);
        assert(fx.deep_view() =~= before + refuse_permissions(cv.take(i as int + 1)));
        i += 1;
    }
    assert(cv.take(cv.len() as int) =~= cv);
}

} // verus!

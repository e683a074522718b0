//! What the cards that are put to the user mean: which choices they offer, and what is
//! sent where one is picked.
use vstd::prelude::*;

use crate::collections::{
    assoc, filter_members, fresh, key_has_value, lemma_pruned_within, other_key, pruned, with_entry,
    younger,
};
use crate::confirm::{
    card_of, choices, confirmed, covered_by, current_stamps, drained, elicitation_asked,
    elicitation_card, permission_settled, shell_asked, shell_card, shell_key, stamped_all,
    REPLY_DEDUP_CAP, REPLY_DEDUP_TTL_MS,
};
use crate::dispatch::{
    already_allowed, metadata_of, on_permission_asked, on_raw, permission_card, GateV, OutsideV,
    QUESTION_DEDUP_CAP,
};
use crate::event_laws::{about_child, about_root, is_event, lemma_child_event, lemma_root_event};
use crate::events::event_types_call_for_what_they_name;
use crate::json::JsonV;
use crate::question::{
    call_id_parts, call_id_round_trip, cards_of, options_of, question_request_of, unanswered,
    ParsedQuestionRequestV, ParsedQuestionV, PendingQuestionV, QUESTION_ALL_VALUE,
    QUESTION_FREEFORM_VALUE, QUESTION_REJECT_VALUE,
};
use crate::shell::{ElicitationRequestV, McpRequestContextV};
use crate::state::{
    has_request, other_call, other_request, queued, request_at, without_call, RemoteStateV,
};
use crate::text::begins;
use crate::types::{AgentStreamEventV, ConfirmationOptionV, ConfirmationV, EffectV, ShellApproval};

verus! {

/// Whether an answer picks a choice: it is the choice's value, alone or under `value`.
pub open spec fn picks(data: JsonV, choice: ConfirmationOptionV) -> bool {
    data == choice.value || (data.text() is None && data.field("value"@) == Some(choice.value))
}

/// The answer that goes to the server for a choice of a permission card.
pub open spec fn answer_of_label(label: Seq<char>) -> Seq<char> {
    if label == "Allow always"@ {
        "always"@
    } else if label == "Reject"@ {
        "reject"@
    } else {
        "once"@
    }
}

proof fn lemma_card_found(q: Seq<ConfirmationV>, card: ConfirmationV)
    requires
        forall|i: int| 0 <= i < q.len() ==> (#[trigger] q[i]).call_id != card.call_id,
    ensures
        card_of(q.push(card), card.call_id) == Some(card),
    decreases q.len(),
{
    if q.len() > 0 {
        let d = q.drop_first();
        assert forall|i: int| 0 <= i < d.len() implies (#[trigger] d[i]).call_id != card.call_id by {
            assert(d[i] == q[i + 1]);
        }
        lemma_card_found(d, card);
        assert(q.push(card).drop_first() =~= d.push(card));
        assert(q.push(card)[0] == q[0]);
    } else {
        assert(q.push(card)[0] == card);
    }
}

proof fn lemma_queued_card_found(q: Seq<ConfirmationV>, card: ConfirmationV)
    ensures
        card_of(queued(q, card), card.call_id) == Some(card),
        queued(q, card).contains(card),
{
    filter_members(q, other_call(card.call_id));
    let w = without_call(q, card.call_id);
    assert forall|i: int| 0 <= i < w.len() implies (#[trigger] w[i]).call_id != card.call_id by {
        assert(other_call(card.call_id)(w[i]));
    }
    lemma_card_found(w, card);
    assert(w.push(card)[w.len() as int] == card);
}

/// Whether no entry of a list of stamps has a key.
spec fn unstamped(m: Seq<(Seq<char>, i64)>, id: Seq<char>) -> bool {
    forall|i: int| 0 <= i < m.len() ==> (#[trigger] m[i]).0 != id
}

proof fn lemma_still_unstamped(m: Seq<(Seq<char>, i64)>, id: Seq<char>, now: i64)
    requires
        unstamped(m, id),
    ensures
        assoc(current_stamps(m, now), id) is None,
{
    let f = fresh(m, now, REPLY_DEDUP_TTL_MS as int);
    filter_members(m, younger(now, REPLY_DEDUP_TTL_MS as int));
    lemma_pruned_within(f, REPLY_DEDUP_CAP as nat);
    let p = pruned(f, REPLY_DEDUP_CAP as nat);
    key_has_value(p, id);
    assert forall|i: int| 0 <= i < p.len() implies (#[trigger] p[i]).0 != id by {
        assert(f.contains(p[i]));
        assert(m.contains(p[i]));
    }
}

proof fn lemma_stamping_others(m: Seq<(Seq<char>, i64)>, cs: Seq<ConfirmationV>, now: i64, id: Seq<char>)
    requires
        unstamped(m, id),
        forall|i: int| 0 <= i < cs.len() ==> (#[trigger] cs[i]).call_id != id,
    ensures
        unstamped(stamped_all(m, cs, now), id),
    decreases cs.len(),
{
    if cs.len() > 0 {
        let d = cs.drop_last();
        assert forall|i: int| 0 <= i < d.len() implies (#[trigger] d[i]).call_id != id by {
            assert(d[i] == cs[i]);
        }
        lemma_stamping_others(m, d, now, id);
        let b = stamped_all(m, d, now);
        let key = cs.last().call_id;
        assert(cs[cs.len() - 1].call_id != id);
        let w = with_entry(b, key, now);
        filter_members(b, other_key::<i64>(key));
        let f = b.filter(other_key::<i64>(key));
        assert forall|i: int| 0 <= i < w.len() implies (#[trigger] w[i]).0 != id by {
            if i < f.len() {
                assert(f[i] == w[i]);
                assert(f.contains(w[i]));
                assert(b.contains(w[i]));
            }
        }
    }
}

proof fn lemma_permission_words()
    ensures
        "once"@ != "always"@,
        "once"@ != "reject"@,
        "once"@ != "allow_dir"@,
        "once"@ != "allow_session"@,
        "always"@ != "reject"@,
        "always"@ != "allow_dir"@,
        "always"@ != "allow_session"@,
        "reject"@ != "allow_dir"@,
        "reject"@ != "allow_session"@,
        "allow_dir"@ != "allow_session"@,
        "Allow once"@ != "Allow always"@,
        "Allow once"@ != "Reject"@,
        "Allow always"@ != "Reject"@,
        "Allow this directory tree (session)"@ != "Allow once"@,
        "Allow this directory tree (session)"@ != "Allow always"@,
        "Allow this directory tree (session)"@ != "Reject"@,
        "Allow rest of this sub-agent"@ != "Allow once"@,
        "Allow rest of this sub-agent"@ != "Allow always"@,
        "Allow rest of this sub-agent"@ != "Reject"@,
        "Allow rest of this sub-agent"@ != "Allow this directory tree (session)"@,
{
    reveal_strlit("once");
    reveal_strlit("always");
    reveal_strlit("reject");
    reveal_strlit("allow_dir");
    reveal_strlit("allow_session");
    reveal_strlit("Allow once");
    reveal_strlit("Allow always");
    reveal_strlit("Reject");
    reveal_strlit("Allow this directory tree (session)");
    reveal_strlit("Allow rest of this sub-agent");
    assert("once"@.len() == 4 && "always"@.len() == 6 && "reject"@.len() == 6 && "allow_dir"@.len() == 9
        && "allow_session"@.len() == 13);
    assert("always"@[0] != "reject"@[0]);
    assert("Allow once"@.len() == 10 && "Allow always"@.len() == 12 && "Reject"@.len() == 6);
    assert("Allow this directory tree (session)"@.len() == 35 && "Allow rest of this sub-agent"@.len() == 28);
}

proof fn lemma_reply_to_card(
    s: RemoteStateV,
    card: ConfirmationV,
    data: JsonV,
    always_allow: bool,
    now: i64,
    word: Seq<char>,
)
    requires
        s.confirmations.contains(card),
        card_of(s.confirmations, card.call_id) == Some(card),
        !s.pending_shell_approvals.contains(card.call_id),
        !s.pending_elicitations.contains(card.call_id),
        !begins(card.call_id, "question-"@),
        unstamped(s.recently_replied_permissions, card.call_id),
        crate::confirm::raw_choice(data) == Some(word),
        crate::confirm::is_reply(word),
    ensures
        confirmed(s, card.call_id, data, always_allow, now, true).effects.len() > 0,
        confirmed(s, card.call_id, data, always_allow, now, true).effects.last()
            == (EffectV::ReplyPermission {
            request_id: card.call_id,
            session_id: card.session_id,
            reply: if word == "allow_dir"@ || word == "allow_session"@ {
                "once"@
            } else {
                word
            },
            by_user: true,
        }),
{
    let id = card.call_id;
    let settled = permission_settled(s, id, data, word);
    lemma_still_unstamped(settled.recently_replied_permissions, id, now);
    let cs = settled.confirmations.filter(covered_by(settled));
    filter_members(s.confirmations, other_call(id));
    filter_members(settled.confirmations, covered_by(settled));
    assert forall|i: int| 0 <= i < cs.len() implies (#[trigger] cs[i]).call_id != id by {
        assert(cs.contains(cs[i]));
        assert(settled.confirmations.contains(cs[i]));
        assert(other_call(id)(cs[i]));
    }
    lemma_stamping_others(settled.recently_replied_permissions, cs, now, id);
    lemma_still_unstamped(drained(settled, now).recently_replied_permissions, id, now);
}

/// What a permission request is asked about, and how: its card stands under the request's
/// id, names the session, and offers to allow it once, to allow it always and to reject
/// it; a tree of directories where the request names a place, and the rest of the
/// sub-agent where one asks. No two choices have the same value.
pub open spec fn is_permission_card(
    card: ConfirmationV,
    id: Seq<char>,
    session: Option<Seq<char>>,
    parent: Option<Seq<char>>,
) -> bool {
    let n = card.options.len();
    &&& card.id == id
    &&& card.call_id == id
    &&& card.session_id == session
    &&& card.parent_session_id == parent
    &&& n >= 3
    &&& card.options[0].label == "Allow once"@
    &&& card.options[n - 2].label == "Allow always"@
    &&& card.options[n - 1].label == "Reject"@
    &&& forall|i: int, j: int|
        0 <= i < j < n ==> (#[trigger] card.options[i]).value != (#[trigger] card.options[j]).value
    &&& forall|i: int|
        0 <= i < n && (#[trigger] card.options[i]).label == "Allow rest of this sub-agent"@ ==> session is Some
            && parent is Some && card.options[i].params == Some(seq![("sessionID"@, session->0)])
    &&& session is Some && parent is Some ==> exists|i: int|
        0 <= i < n && (#[trigger] card.options[i]).label == "Allow rest of this sub-agent"@
}

#[verifier::rlimit(60)]
proof fn lemma_permission_card(
    s: RemoteStateV,
    props: JsonV,
    g: GateV,
    now: i64,
    id: Seq<char>,
    data: JsonV,
    always_allow: bool,
    then: i64,
    i: int,
)
    requires
        props.field_text("id"@) == Some(id),
        !already_allowed(s, metadata_of(props), g.session_id),
        !s.pending_shell_approvals.contains(id),
        !s.pending_elicitations.contains(id),
        !begins(id, "question-"@),
        assoc(s.recently_replied_permissions, id) is None,
    ensures
        ({
            let asked = on_permission_asked(s, props, g, now, true);
            &&& asked.effects.len() == 1
            &&& asked.effects[0] matches EffectV::Emit(AgentStreamEventV::AcpPermission(card))
                && is_permission_card(card, id, g.session_id, g.parent)
                && asked.state.confirmations.contains(card) && (0 <= i < card.options.len() && picks(
                data,
                card.options[i],
            ) ==> confirmed(asked.state, id, data, always_allow, then, true).effects.len() > 0 && confirmed(
                asked.state,
                id,
                data,
                always_allow,
                then,
                true,
            ).effects.last() == (EffectV::ReplyPermission {
                request_id: id,
                session_id: g.session_id,
                reply: answer_of_label(card.options[i].label),
                by_user: true,
            }))
        }),
{
    let asked = on_permission_asked(s, props, g, now, true);
    let card = permission_card(id, props, g);
    lemma_permission_words();
    lemma_queued_card_found(s.confirmations, card);
    key_has_value(s.recently_replied_permissions, id);
    assert(unstamped(s.recently_replied_permissions, id));
    let n = card.options.len();
    if g.session_id is Some && g.parent is Some {
        assert(card.options[n - 3].label == "Allow rest of this sub-agent"@);
    }
    if 0 <= i < n && picks(data, card.options[i]) {
        let word = card.options[i].value->Str_0;
        lemma_reply_to_card(asked.state, card, data, always_allow, then, word);
    }
}

/// A permission request of the root session is put to the user, and the answer that the
/// user picks is the one that the server gets: once for "Allow once", always for "Allow
/// always", a refusal for "Reject".
pub proof fn a_permission_is_answered_as_picked(
    s: RemoteStateV,
    parsed: JsonV,
    out: OutsideV,
    props: JsonV,
    id: Seq<char>,
    data: JsonV,
    always_allow: bool,
    then: i64,
    i: int,
)
    requires
        is_event(parsed, "permission.asked"@, props),
        about_root(s, props),
        props.field_text("id"@) == Some(id),
        !already_allowed(s, metadata_of(props), props.field_text("sessionID"@)),
        !s.pending_shell_approvals.contains(id),
        !s.pending_elicitations.contains(id),
        !begins(id, "question-"@),
        assoc(s.recently_replied_permissions, id) is None,
    ensures
        ({
            let asked = on_raw(s, parsed, out, true);
            &&& asked.effects.len() == 1
            &&& asked.effects[0] matches EffectV::Emit(AgentStreamEventV::AcpPermission(card))
                && is_permission_card(card, id, props.field_text("sessionID"@), None)
                && asked.state.confirmations.contains(card) && (0 <= i < card.options.len() && picks(
                data,
                card.options[i],
            ) ==> confirmed(asked.state, id, data, always_allow, then, true).effects.len() > 0 && confirmed(
                asked.state,
                id,
                data,
                always_allow,
                then,
                true,
            ).effects.last() == (EffectV::ReplyPermission {
                request_id: id,
                session_id: props.field_text("sessionID"@),
                reply: answer_of_label(card.options[i].label),
                by_user: true,
            }))
        }),
{
    event_types_call_for_what_they_name();
    lemma_root_event(s, parsed, out, true, "permission.asked"@, props);
    let g = GateV { session_id: props.field_text("sessionID"@), is_child: false, parent: None };
    lemma_permission_card(s, props, g, out.now, id, data, always_allow, then, i);
}

/// A permission request of a sub-agent is put to the user under both sessions, and
/// answered as the user picks.
pub proof fn a_sub_agents_permission_is_answered_as_picked(
    s: RemoteStateV,
    parsed: JsonV,
    out: OutsideV,
    props: JsonV,
    root: Seq<char>,
    child: Seq<char>,
    id: Seq<char>,
    data: JsonV,
    always_allow: bool,
    then: i64,
    i: int,
)
    requires
        is_event(parsed, "permission.asked"@, props),
        about_child(s, props, root, child),
        props.field_text("id"@) == Some(id),
        !already_allowed(s, metadata_of(props), Some(child)),
        !s.pending_shell_approvals.contains(id),
        !s.pending_elicitations.contains(id),
        !begins(id, "question-"@),
        assoc(s.recently_replied_permissions, id) is None,
    ensures
        ({
            let asked = on_raw(s, parsed, out, true);
            &&& asked.effects.len() == 1
            &&& asked.effects[0] matches EffectV::Emit(AgentStreamEventV::AcpPermission(card))
                && is_permission_card(card, id, Some(child), Some(root))
                && asked.state.confirmations.contains(card) && (0 <= i < card.options.len() && picks(
                data,
                card.options[i],
            ) ==> confirmed(asked.state, id, data, always_allow, then, true).effects.len() > 0 && confirmed(
                asked.state,
                id,
                data,
                always_allow,
                then,
                true,
            ).effects.last() == (EffectV::ReplyPermission {
                request_id: id,
                session_id: Some(child),
                reply: answer_of_label(card.options[i].label),
                by_user: true,
            }))
        }),
{
    event_types_call_for_what_they_name();
    reveal_strlit("session.created");
    reveal_strlit("permission.asked");
    assert("session.created"@.len() != "permission.asked"@.len());
    lemma_child_event(s, parsed, out, true, "permission.asked"@, props, root, child);
    let g = GateV { session_id: Some(child), is_child: true, parent: Some(root) };
    lemma_permission_card(s, props, g, out.now, id, data, always_allow, then, i);
}

/// The card of a permission request says what is asked: its title names the permission,
/// and its text is the command where there is one, else the description, else the file,
/// else the place.
pub proof fn permission_cards_say_what_is_asked(
    id: Seq<char>,
    props: JsonV,
    g: GateV,
    permission: Seq<char>,
    details: JsonV,
)
    requires
        props.field_text("permission"@) == Some(permission),
        permission.len() > 0,
        props.field("metadata"@) == Some(details),
    ensures
        ({
            let card = permission_card(id, props, g);
            &&& card.title == Some("OpenCode wants to: "@ + permission)
            &&& card.action == Some(permission)
            &&& card.command_type == Some(permission)
            &&& details.field_text("command"@) matches Some(t) ==> card.description == t
            &&& details.field_text("command"@) is None ==> (details.field_text("description"@) matches Some(t)
                ==> card.description == t)
            &&& details.field_text("command"@) is None && details.field_text("description"@) is None ==> (
            details.field_text("filePath"@) matches Some(t) ==> card.description == t)
            &&& details.field_text("command"@) is None && details.field_text("description"@) is None
                && details.field_text("filePath"@) is None ==> (details.field_text("filepath"@) matches Some(t)
                ==> t.len() > 0 ==> card.description == t)
            &&& details.field_text("filepath"@) matches Some(t) ==> t.len() > 0 ==> card.options[1]
                == (ConfirmationOptionV {
                label: "Allow this directory tree (session)"@,
                value: JsonV::Str("allow_dir"@),
                params: Some(seq![("path"@, t)]),
            })
        }),
{
}

/// A request that the user need not be asked about any more leaves the queue: one that
/// was answered elsewhere.
pub proof fn a_request_answered_elsewhere_is_not_asked(
    s: RemoteStateV,
    parsed: JsonV,
    out: OutsideV,
    opencode: bool,
    props: JsonV,
    id: Seq<char>,
    card: ConfirmationV,
)
    requires
        is_event(parsed, "permission.replied"@, props),
        about_root(s, props),
        props.field_text("requestID"@) == Some(id),
        s.confirmations.contains(card),
    ensures
        on_raw(s, parsed, out, opencode).effects.len() == 0,
        on_raw(s, parsed, out, opencode).state.confirmations.contains(card) <==> card.call_id != id,
        assoc(on_raw(s, parsed, out, opencode).state.recently_replied_permissions, id) == Some(out.now),
{
    event_types_call_for_what_they_name();
    lemma_root_event(s, parsed, out, opencode, "permission.replied"@, props);
    filter_members(s.confirmations, other_call(id));
    crate::collections::entry_reads_back(s.recently_replied_permissions, id, out.now);
}

/// A command that waits for approval is shown as it would run, where it would run, and
/// the user's choice decides: "Reject" refuses it, every other choice lets it run, and
/// "Skip shell prompts" lets every later one run unasked.
pub proof fn a_command_runs_as_picked(
    s: RemoteStateV,
    call_id: Seq<char>,
    command: Seq<char>,
    cwd: Seq<char>,
    hint: Seq<char>,
    context: McpRequestContextV,
    data: JsonV,
    always_allow: bool,
    now: i64,
    opencode: bool,
    i: int,
)
    requires
        0 <= i < 3,
        picks(data, shell_card(call_id, command, cwd, hint, context).options[i]),
    ensures
        ({
            let card = shell_card(call_id, command, cwd, hint, context);
            let asked = shell_asked(s, card);
            let answered = confirmed(asked.state, call_id, data, always_allow, now, opencode);
            &&& card.call_id == call_id
            &&& card.description == hint + " — "@ + cwd + "\n\n$ "@ + command
            &&& card.session_id == context.session_id
            &&& card.parent_session_id == context.parent_session_id
            &&& card.options.len() == 3
            &&& card.options[0].label == "Allow once"@
            &&& card.options[1].label == "Skip shell prompts (this session)"@
            &&& card.options[2].label == "Reject"@
            &&& asked.effects == seq![EffectV::Emit(AgentStreamEventV::AcpPermission(card))]
            &&& asked.state.confirmations.contains(card)
            &&& answered.effects == seq![
                EffectV::ResolveShell {
                    call_id,
                    approval: if i == 2 {
                        ShellApproval::Reject
                    } else {
                        ShellApproval::Allow
                    },
                },
            ]
            &&& i == 1 ==> answered.state.approval_memory.contains(shell_key())
            &&& i != 1 ==> answered.state.approval_memory == s.approval_memory
        }),
{
    lemma_permission_words();
    let card = shell_card(call_id, command, cwd, hint, context);
    lemma_queued_card_found(s.confirmations, card);
    let p = shell_asked(s, card).state.pending_shell_approvals;
    if !s.pending_shell_approvals.contains(call_id) {
        assert(p[p.len() - 1] == call_id);
    }
    assert(p.contains(call_id));
    if i == 1 {
        let m = crate::collections::with_member(s.approval_memory, shell_key());
        if !s.approval_memory.contains(shell_key()) {
            assert(m[m.len() - 1] == shell_key());
        }
        assert(m.contains(shell_key()));
    }
}

/// A tool that asks for input is shown with its words, gets what the user entered, and
/// gets nothing where the user cancels.
pub proof fn a_tool_gets_what_the_user_entered(
    s: RemoteStateV,
    call_id: Seq<char>,
    request: ElicitationRequestV,
    context: McpRequestContextV,
    data: JsonV,
    entered: JsonV,
    always_allow: bool,
    now: i64,
    opencode: bool,
    i: int,
)
    requires
        0 <= i < 2,
        data.text() is None,
        picks(data, elicitation_card(call_id, request, context).options[i]),
        data.field("payload"@) == Some(entered),
        !s.pending_shell_approvals.contains(call_id),
    ensures
        ({
            let card = elicitation_card(call_id, request, context);
            let asked = elicitation_asked(s, card);
            &&& card.call_id == call_id
            &&& card.title == Some(request.tool_name + ": input required"@)
            &&& card.description == request.message
            &&& card.session_id == context.session_id
            &&& card.parent_session_id == context.parent_session_id
            &&& card.options.len() == 2
            &&& card.options[0].label == "Submit"@
            &&& card.options[1].label == "Cancel"@
            &&& asked.effects == seq![EffectV::Emit(AgentStreamEventV::AcpPermission(card))]
            &&& asked.state.confirmations.contains(card)
            &&& confirmed(asked.state, call_id, data, always_allow, now, opencode).effects == seq![
                EffectV::ResolveElicitation {
                    call_id,
                    payload: if i == 0 {
                        Some(entered)
                    } else {
                        None
                    },
                },
            ]
        }),
{
    lemma_permission_words();
    reveal_strlit("submit");
    reveal_strlit("cancel");
    reveal_strlit("once");
    reveal_strlit("always");
    reveal_strlit("reject");
    assert("submit"@.len() == 6 && "cancel"@.len() == 6 && "reject"@.len() == 6);
    assert("submit"@[0] != "cancel"@[0]);
    assert("submit"@[0] != "reject"@[0]);
    assert("cancel"@[0] != "reject"@[0]);
    let card = elicitation_card(call_id, request, context);
    lemma_queued_card_found(s.confirmations, card);
    let p = elicitation_asked(s, card).state.pending_elicitations;
    if !s.pending_elicitations.contains(call_id) {
        assert(p[p.len() - 1] == call_id);
    }
    assert(p.contains(call_id));
}

// ---- Questions ----

proof fn lemma_options_in_order(a: Seq<JsonV>, k: int)
    requires
        forall|j: int| 0 <= j < a.len() ==> (#[trigger] a[j]).field_text("label"@) is Some,
        0 <= k < a.len(),
    ensures
        options_of(a).len() == a.len(),
        options_of(a)[k].0 == a[k].field_text("label"@)->0,
        options_of(a)[k].1 == match a[k].field_text("description"@) {
            Some(d) => d,
            None => ""@,
        },
    decreases a.len(),
{
    let d = a.drop_last();
    assert forall|j: int| 0 <= j < d.len() implies (#[trigger] d[j]).field_text("label"@) is Some by {
        assert(d[j] == a[j]);
    }
    assert(a.last() == a[a.len() - 1]);
    if d.len() > 0 {
        lemma_options_in_order(d, 0);
        if k < d.len() {
            lemma_options_in_order(d, k);
            assert(options_of(a)[k] == options_of(d)[k]);
        }
    } else {
        assert(options_of(d).len() == 0);
    }
}

/// A question is put to the user in the server's words: under an id that names the
/// request and the question, with a choice for each label in order, whose value is the
/// label, and a choice to reject it at the end. A typed answer is offered where the
/// server takes one, and all labels at once where it takes several.
#[verifier::rlimit(60)]
pub proof fn questions_are_asked_in_the_servers_words(
    s: RemoteStateV,
    parsed: JsonV,
    out: OutsideV,
    opencode: bool,
    props: JsonV,
    id: Seq<char>,
    qs: Seq<JsonV>,
    i: int,
    options: Seq<JsonV>,
    k: int,
)
    requires
        is_event(parsed, "question.asked"@, props),
        about_root(s, props),
        props.field_text("id"@) == Some(id),
        props.field("questions"@) == Some(JsonV::Array(qs)),
        assoc(s.recently_replied_questions, id) is None,
        !has_request(s.pending_questions, id),
        0 <= i < qs.len(),
        qs[i].field("options"@) == Some(JsonV::Array(options)),
        forall|j: int| 0 <= j < options.len() ==> (#[trigger] options[j]).field_text("label"@) is Some,
        0 <= k < options.len(),
    ensures
        on_raw(s, parsed, out, opencode).effects.len() == qs.len(),
        on_raw(s, parsed, out, opencode).effects[i] matches EffectV::Emit(AgentStreamEventV::AcpPermission(card))
            && ({
            let n = card.options.len();
            let custom = qs[i].field("custom"@) == Some(JsonV::Bool(true));
            let several = qs[i].field("multiple"@) == Some(JsonV::Bool(true));
            &&& card.call_id == "question-"@ + id + "-"@ + crate::text::dec(i as nat)
            &&& card.session_id == props.field_text("sessionID"@)
            &&& qs[i].field_text("header"@) matches Some(h) ==> h.len() > 0 ==> card.title == Some(h)
            &&& qs[i].field_text("question"@) matches Some(q) ==> begins(card.description, q)
            &&& n == options.len() + (if custom {
                1int
            } else {
                0int
            }) + (if several {
                1int
            } else {
                0int
            }) + 1
            &&& card.options[k].label == options[k].field_text("label"@)->0
            &&& card.options[k].value == JsonV::Str(options[k].field_text("label"@)->0)
            &&& card.options[n - 1].label == "Reject"@
            &&& card.options[n - 1].value == JsonV::Str(QUESTION_REJECT_VALUE@)
            &&& several ==> card.options[n - 2].label == "All of the above"@ && card.options[n - 2].value
                == JsonV::Str(QUESTION_ALL_VALUE@)
            &&& custom ==> card.options[options.len() as int].value == JsonV::Str(QUESTION_FREEFORM_VALUE@)
        }),
{
    event_types_call_for_what_they_name();
    lemma_root_event(s, parsed, out, opencode, "question.asked"@, props);
    let req = question_request_of(props)->0;
    let q = req.questions[i];
    lemma_options_in_order(options, k);
    assert(q.options == options_of(options));
    let card = cards_of(req)[i];
    assert(on_raw(s, parsed, out, opencode).effects[i] == EffectV::Emit(
        AgentStreamEventV::AcpPermission(card),
    ));
    assert(crate::question::labels_of(q)[k] == q.options[k].0);
    lemma_card_text_begins(q);
}

proof fn lemma_card_text_begins(q: ParsedQuestionV)
    ensures
        begins(crate::question::card_text(q), q.question),
{
    let t = crate::question::card_text(q);
    assert(t.take(q.question.len() as int) =~= q.question);
}

proof fn lemma_request_is_last(q: Seq<PendingQuestionV>, p: PendingQuestionV)
    requires
        !has_request(q, p.request_id),
    ensures
        request_at(q.push(p), p.request_id) == q.len(),
    decreases q.len(),
{
    if q.len() > 0 {
        assert(q.push(p).drop_first() =~= q.drop_first().push(p));
        assert(q.push(p)[0] == q[0]);
        lemma_request_is_last(q.drop_first(), p);
    } else {
        assert(q.push(p)[0] == p);
    }
}

/// The answer to a request of one question is what the user picked: the label of the
/// choice, every label for "All of the above", and a refusal for "Reject". It is sent at
/// once, under the request's id.
#[verifier::rlimit(60)]
pub proof fn a_question_is_answered_as_picked(
    s: RemoteStateV,
    parsed: JsonV,
    out: OutsideV,
    props: JsonV,
    req: ParsedQuestionRequestV,
    data: JsonV,
    always_allow: bool,
    then: i64,
    k: int,
)
    requires
        is_event(parsed, "question.asked"@, props),
        about_root(s, props),
        question_request_of(props) == Some(req),
        req.questions.len() == 1,
        req.request_id.len() > 0,
        assoc(s.recently_replied_questions, req.request_id) is None,
        !has_request(s.pending_questions, req.request_id),
        !s.pending_shell_approvals.contains(cards_of(req)[0].call_id),
        !s.pending_elicitations.contains(cards_of(req)[0].call_id),
        0 <= k < cards_of(req)[0].options.len(),
        picks(data, cards_of(req)[0].options[k]),
        forall|j: int|
            0 <= j < req.questions[0].options.len() ==> (#[trigger] req.questions[0].options[j]).0
                != QUESTION_REJECT_VALUE@ && req.questions[0].options[j].0 != QUESTION_ALL_VALUE@,
    ensures
        ({
            let q = req.questions[0];
            let card = cards_of(req)[0];
            let asked = on_raw(s, parsed, out, true);
            let answered = confirmed(asked.state, card.call_id, data, always_allow, then, true);
            &&& asked.effects == seq![EffectV::Emit(AgentStreamEventV::AcpPermission(card))]
            &&& k < q.options.len() ==> answered.effects == seq![
                EffectV::ReplyQuestion { request_id: req.request_id, answers: seq![seq![q.options[k].0]] },
            ]
            &&& card.options[k].label == "Reject"@ && k >= q.options.len() ==> answered.effects == seq![
                EffectV::RejectQuestion { request_id: req.request_id },
            ]
            &&& card.options[k].label == "All of the above"@ && k >= q.options.len() ==> answered.effects
                == seq![
                EffectV::ReplyQuestion {
                    request_id: req.request_id,
                    answers: seq![Seq::new(q.options.len(), |j: int| q.options[j].0)],
                },
            ]
        }),
{
    event_types_call_for_what_they_name();
    lemma_root_event(s, parsed, out, true, "question.asked"@, props);
    let q = req.questions[0];
    let card = cards_of(req)[0];
    let asked = on_raw(s, parsed, out, true);
    assert(asked.effects =~= seq![EffectV::Emit(AgentStreamEventV::AcpPermission(card))]);
    call_id_round_trip(req.request_id, 0);
    let p = unanswered(req);
    lemma_request_is_last(s.pending_questions, p);
    let word = card.options[k].value->Str_0;
    assert(choices(data) =~= seq![word]);
    assert(choices(data)[0] == word);
    reveal_strlit("__question_reject__");
    reveal_strlit("__question_all__");
    reveal_strlit("__question_freeform__");
    assert(QUESTION_REJECT_VALUE@.len() == 19 && QUESTION_ALL_VALUE@.len() == 16);
    assert(QUESTION_FREEFORM_VALUE@.len() == 21);
    reveal_strlit("Reject");
    reveal_strlit("All of the above");
    reveal_strlit("Type a custom answer");
    assert("Reject"@.len() == 6 && "All of the above"@.len() == 16 && "Type a custom answer"@.len() == 20);
    let labels = crate::question::labels_of(q);
    assert(labels =~= Seq::new(q.options.len(), |j: int| q.options[j].0));
    if k < q.options.len() {
        assert(word == q.options[k].0);
    }
    let a = p.answer_for(0, choices(data));
    let r = p.recorded(0, a);
    assert(r.answers[0] == Some(a));
    assert(r.complete());
    assert(r.matrix() =~= seq![a]);
    if word != QUESTION_REJECT_VALUE@ {
        assert(!choices(data).contains(QUESTION_REJECT_VALUE@));
        assert(choices(data).contains(QUESTION_ALL_VALUE@) <==> word == QUESTION_ALL_VALUE@);
    }
}

/// A question that was answered or refused elsewhere is not asked any more, and is
/// remembered as answered.
pub proof fn a_question_answered_elsewhere_is_not_asked(
    s: RemoteStateV,
    parsed: JsonV,
    out: OutsideV,
    opencode: bool,
    t: Seq<char>,
    props: JsonV,
    id: Seq<char>,
    card: ConfirmationV,
)
    requires
        is_event(parsed, t, props),
        t == "question.replied"@ || t == "question.rejected"@,
        about_root(s, props),
        props.field_text("requestID"@) == Some(id),
        s.confirmations.contains(card),
    ensures
        on_raw(s, parsed, out, opencode).effects.len() == 0,
        (call_id_parts(card.call_id) matches Some(p) && p.0 == id) ==> !on_raw(
            s,
            parsed,
            out,
            opencode,
        ).state.confirmations.contains(card),
        call_id_parts(card.call_id) is None ==> on_raw(s, parsed, out, opencode).state.confirmations.contains(
            card,
        ),
        s.recently_replied_questions.len() < QUESTION_DEDUP_CAP ==> assoc(
            on_raw(s, parsed, out, opencode).state.recently_replied_questions,
            id,
        ) == Some(out.now),
{
    event_types_call_for_what_they_name();
    lemma_root_event(s, parsed, out, opencode, t, props);
    filter_members(s.confirmations, other_request(id));
    let m = with_entry(s.recently_replied_questions, id, out.now);
    s.recently_replied_questions.lemma_filter_len(other_key::<i64>(id));
    crate::collections::pruning_caps(m, QUESTION_DEDUP_CAP as nat);
    crate::collections::entry_reads_back(s.recently_replied_questions, id, out.now);
}

} // verus!

//! What holds of the work beside a conversation: making the local tools known, keeping
//! snapshots of what they change, describing the project and forwarding logs; and of what
//! comes over a WebSocket and what a server answers.
use vstd::prelude::*;
use vstd::relations::sorted_by;

use crate::fs_tools::{settled, ToolRequestV};
use crate::http::{json_answer, HttpMethod, HttpReplyV};
use crate::json::{fields, json_text, lemma_lookup_push, lookup, parse_result, strings_v, JsonV};
use crate::log_forwarder::{
    log_request_v, routed, FieldVisitorV, LogEntryV, LogLevel, OpenCodeLogLayerV,
};
use crate::manager::RemoteAgentManagerV;
use crate::mcp::{
    registration_advanced, registration_begun, registration_body, registration_failure,
    start_failure, CandidateV, RegistrationActionV, RegistrationEventV, RegistrationOutcome,
    RegistrationPhaseV, RegistrationV,
};
use crate::order::{by_text, sorted, sorting_orders, sorting_rearranges, texts_are_ordered};
use crate::project_tree::{cap_of, named, project_description, shown_paths, tree_text};
use crate::send::{absorbed, backfilled, message_begun, with_card};
use crate::snapshot::{ledger_advanced, ledger_begun, LedgerActionV, LedgerEventV, LedgerPhase};
use crate::state::RemoteStateV;
use crate::text::{dec, joined, trimmed};
use crate::tool_laws::lemma_three;
use crate::types::{AgentStreamEventV, AppErrorV, ConfirmationV, ConversationStatus, EffectV};

verus! {

// ---- Making the tools known ----

/// The tools are registered as an enabled remote server under the given name, at the
/// given address, with the token that they ask for.
pub proof fn tools_are_registered_with_their_address(name: Seq<char>, url: Seq<char>, token: Seq<char>)
    ensures
        registration_body(name, url, token).field_text("name"@) == Some(name),
        registration_body(name, url, token).field("config"@) matches Some(config) && config.field_text("type"@)
            == Some("remote"@) && config.field_text("url"@) == Some(url) && config.field("enabled"@) == Some(
            JsonV::Bool(true),
        ) && (config.field("headers"@) matches Some(headers) && headers.field_text("Authorization"@) == Some(
            "Bearer "@ + token,
        )),
{
    reveal_strlit("name");
    reveal_strlit("config");
    reveal_strlit("type");
    reveal_strlit("url");
    reveal_strlit("enabled");
    reveal_strlit("oauth");
    reveal_strlit("headers");
    reveal_strlit("timeout");
    assert("name"@.len() == 4 && "config"@.len() == 6 && "type"@.len() == 4 && "url"@.len() == 3
        && "enabled"@.len() == 7 && "oauth"@.len() == 5 && "headers"@.len() == 7 && "timeout"@.len() == 7);
    assert("enabled"@[0] != "headers"@[0]);
    assert("enabled"@[0] != "timeout"@[0]);
    assert("headers"@[0] != "timeout"@[0]);
    let b = registration_body(name, url, token)->Object_0;
    lemma_lookup_push(fields(), b[0], "name"@);
    lemma_lookup_push(fields(), b[0], "config"@);
    lemma_lookup_push(fields().push(b[0]), b[1], "name"@);
    lemma_lookup_push(fields().push(b[0]), b[1], "config"@);
    assert(b =~= fields().push(b[0]).push(b[1]));
    let c = b[1].1->Object_0;
    let c3 = fields().push(c[0]).push(c[1]).push(c[2]);
    let c4 = c3.push(c[3]);
    let c5 = c4.push(c[4]);
    assert(c =~= c5.push(c[5]));
    lemma_three(c[0], c[1], c[2]);
    assert forall|key: Seq<char>| key == "type"@ || key == "url"@ || key == "enabled"@ || key == "headers"@ implies lookup(
        c,
        key,
    ) == #[trigger] lookup(c5, key) by {
        lemma_lookup_push(c5, c[5], key);
    }
    assert forall|key: Seq<char>| key == "type"@ || key == "url"@ || key == "enabled"@ implies #[trigger] lookup(
        c5,
        key,
    ) == lookup(c3, key) by {
        lemma_lookup_push(c3, c[3], key);
        lemma_lookup_push(c4, c[4], key);
    }
    lemma_lookup_push(c3, c[3], "headers"@);
    lemma_lookup_push(c4, c[4], "headers"@);
    assert(lookup(c5, "type"@) == lookup(c, "type"@));
    assert(lookup(c5, "url"@) == lookup(c, "url"@));
    assert(lookup(c5, "enabled"@) == lookup(c, "enabled"@));
    assert(lookup(c5, "headers"@) == lookup(c, "headers"@));
    let h = c[4].1->Object_0;
    lemma_lookup_push(fields(), h[0], "Authorization"@);
    assert(h =~= fields().push(h[0]));
}

/// The addresses are tried one after the other: an address that the server does not take,
/// or does not reach, gives way to the next one, after it was taken back; one that it
/// reaches is kept. After the last one the first is tried once more.
pub proof fn addresses_are_tried_in_order(candidates: Seq<CandidateV>, index: usize)
    requires
        index < candidates.len() <= usize::MAX,
    ensures
        ({
            let adding = RegistrationV { candidates, phase: RegistrationPhaseV::Adding { index } };
            let taken = registration_advanced(adding, RegistrationEventV::Added { ok: true });
            let refused = registration_advanced(adding, RegistrationEventV::Added { ok: false });
            let reached = registration_advanced(taken.0, RegistrationEventV::Verified { contacted: true });
            let missed = registration_advanced(taken.0, RegistrationEventV::Verified { contacted: false });
            let back = registration_advanced(missed.0, RegistrationEventV::Removed);
            let next = RegistrationActionV::Add {
                url: if index + 1 < candidates.len() {
                    candidates[index + 1].public_url
                } else {
                    candidates[0].public_url
                },
            };
            &&& taken.1 is Verify
            &&& refused.1 == next
            &&& reached.0.phase == RegistrationPhaseV::Done(RegistrationOutcome::Verified)
            &&& reached.1 is Nothing
            &&& missed.1 is Remove
            &&& back.1 == next
            &&& index + 1 < candidates.len() ==> back.0.phase == (RegistrationPhaseV::Adding {
                index: (index + 1) as usize,
            })
        }),
        registration_begun(candidates).1 == (RegistrationActionV::Add { url: candidates[0].public_url }),
{
}

/// A registration failed where it could not be sent or the server refused it, with the
/// server's words, and not otherwise.
pub proof fn refused_registrations_are_told(e: Seq<char>, status: Seq<char>, body: Seq<char>, text: Seq<char>)
    ensures
        registration_failure(HttpReplyV::Answered(text)) is None,
        registration_failure(HttpReplyV::Unsent(e)) == Some("OpenCode mcp.add request failed: "@ + e),
        registration_failure(HttpReplyV::Refused { status, body }) == Some(
            "OpenCode mcp.add returned "@ + status + ": "@ + body,
        ),
        start_failure(None, RegistrationOutcome::Verified) is None,
        start_failure(None, RegistrationOutcome::Unverified) is None,
        start_failure(None, RegistrationOutcome::Failed) is Some,
        start_failure(Some(e), RegistrationOutcome::Verified) is Some,
{
}

// ---- Snapshots ----

/// What a call changed is committed under the call's id with all the files, noted with the
/// commit's id, and then counts as kept; whatever fails is told with what failed, and
/// nothing counts as kept.
pub proof fn changes_are_committed_and_noted(
    call: Seq<char>,
    conversation: Seq<char>,
    files: Seq<Seq<char>>,
    sha: Seq<char>,
    now: i64,
    e: Seq<char>,
)
    requires
        0 < files.len() <= usize::MAX,
    ensures
        ({
            let (begun, first) = ledger_begun(call, conversation, files, true);
            let (committed, second) = ledger_advanced(begun, LedgerEventV::Committed { sha, now });
            let (kept, third) = ledger_advanced(committed, LedgerEventV::Inserted { failed: None });
            let (uncommitted, _) = ledger_advanced(begun, LedgerEventV::CommitFailed { why: e });
            let (unnoted, _) = ledger_advanced(committed, LedgerEventV::Inserted { failed: Some(e) });
            &&& first == (LedgerActionV::Commit { tool_call_id: call, files })
            &&& second matches LedgerActionV::Insert(row) && row.tool_call_id == call && row.conversation_id
                == conversation && row.commit_sha == sha && row.created_at == now && row.files_changed_json
                == json_text(strings_v(files))
            &&& third is Nothing
            &&& kept.phase == LedgerPhase::Finished
            &&& kept.outcome.success
            &&& kept.outcome.commit_sha == Some(sha)
            &&& kept.outcome.tool_call_id == call
            &&& kept.outcome.conversation_id == conversation
            &&& kept.outcome.files_count == files.len()
            &&& kept.outcome.stage == "complete"@
            &&& !uncommitted.outcome.success
            &&& uncommitted.outcome.error == Some("commit_tool_snapshot failed: "@ + e)
            &&& !unnoted.outcome.success
            &&& unnoted.outcome.error == Some("insert opencode_tool_snapshots ledger row: "@ + e)
        }),
{
}

/// Where the keeper is not ready it is made ready first, and the changes are committed
/// then; where nothing changed there is nothing to keep.
pub proof fn the_keeper_is_made_ready_first(
    call: Seq<char>,
    conversation: Seq<char>,
    files: Seq<Seq<char>>,
    e: Seq<char>,
)
    ensures
        files.len() > 0 ==> ({
            let (begun, first) = ledger_begun(call, conversation, files, false);
            let (_, second) = ledger_advanced(begun, LedgerEventV::Initialised { failed: None });
            let (unready, third) = ledger_advanced(begun, LedgerEventV::Initialised { failed: Some(e) });
            &&& first is Initialise
            &&& second == (LedgerActionV::Commit { tool_call_id: call, files })
            &&& third is Nothing
            &&& unready.outcome.error == Some("snapshot service init failed: "@ + e)
        }),
        ledger_begun(call, conversation, Seq::empty(), true).1 is Nothing,
        ledger_begun(call, conversation, Seq::empty(), true).0.outcome.success,
{
}

// ---- The project ----

/// The description of a project names every file and directory once, from the root, in
/// order, one to a line; of more than it may name it names the first and says so.
pub proof fn projects_are_described_line_by_line(rels: Seq<Seq<char>>, max: nat)
    requires
        0 < rels.len() <= max,
        forall|i: int| 0 <= i < rels.len() ==> (#[trigger] rels[i]).len() > 0,
    ensures
        exists|lines: Seq<Seq<char>>|
            tree_text(rels, max) == #[trigger] joined(lines, "\n"@) && lines.len() == rels.len() && sorted_by(
                lines,
                by_text(),
            ) && lines.to_multiset() == rels.map_values(|r: Seq<char>| "./"@ + r).to_multiset(),
        tree_text(Seq::empty(), max) == "(project is empty)"@,
        project_description(None) == "(failed to enumerate project)"@,
        project_description(Some(rels)) == tree_text(rels, 400),
{
    lemma_all_named(rels);
    let shown = shown_paths(rels);
    assert(shown == rels.map_values(|r: Seq<char>| "./"@ + r));
    let lines = sorted(shown, by_text());
    texts_are_ordered();
    sorting_orders(shown, by_text());
    sorting_rearranges(shown, by_text());
    assert(tree_text(rels, max) == joined(lines, "\n"@));
    let none = Seq::<Seq<char>>::empty();
    lemma_all_named(none);
    assert(shown_paths(none) =~= none);
}

proof fn lemma_all_named(rels: Seq<Seq<char>>)
    requires
        forall|i: int| 0 <= i < rels.len() ==> (#[trigger] rels[i]).len() > 0,
    ensures
        rels.filter(named()) == rels,
    decreases rels.len(),
{
    reveal(Seq::filter);
    if rels.len() > 0 {
        let d = rels.drop_last();
        assert forall|i: int| 0 <= i < d.len() implies (#[trigger] d[i]).len() > 0 by {
            assert(d[i] == rels[i]);
        }
        lemma_all_named(d);
        assert(rels[rels.len() - 1].len() > 0);
        assert(d.push(rels.last()) =~= rels);
    } else {
        assert(rels.filter(named()) =~= rels);
    }
}

/// Lines are joined in order, with the separator between each two and nowhere else.
pub proof fn lines_are_joined_in_order(lines: Seq<Seq<char>>, last: Seq<char>, separator: Seq<char>)
    ensures
        joined(Seq::empty(), separator) == Seq::<char>::empty(),
        joined(seq![last], separator) == last,
        lines.len() > 0 ==> joined(lines.push(last), separator) == joined(lines, separator) + separator + last,
{
    assert(lines.push(last).drop_last() =~= lines);
}

// ---- Logs ----

/// What is forwarded of an event: its level, its words or else where it comes from, and
/// its fields, to the server's log, under the conversation.
pub proof fn logs_are_forwarded_as_they_are(
    layer: OpenCodeLogLayerV,
    level: LogLevel,
    target: Seq<char>,
    event: FieldVisitorV,
    id: Seq<char>,
    queue: i64,
    base: Seq<char>,
    auth: Option<Seq<char>>,
    entry: LogEntryV,
)
    requires
        event.conversation_id == Some(id),
        crate::collections::assoc(layer.queues, id) == Some(queue),
    ensures
        level is Error || level is Warn || level is Info ==> (routed(layer, level, target, event) matches Some(
            (q, e),
        ) && q == queue && e.target == target && e.extra == event.extra && e.message == (match event.message {
            Some(m) => m,
            None => target,
        }) && (level is Error ==> e.level == "error"@) && (level is Warn ==> e.level == "warn"@) && (level is Info
            ==> e.level == "info"@)),
        level is Debug || level is Trace ==> routed(layer, level, target, event) is None,
        log_request_v(base, auth, id, entry).method == HttpMethod::Post,
        log_request_v(base, auth, id, entry).auth == auth,
        base.len() == 0 || base.last() != '/' ==> log_request_v(base, auth, id, entry).url == base + "/log"@,
{
    reveal_with_fuel(crate::text::without_suffix_char, 1);
}

/// A snapshot is taken of the files that a call changed: the one that was written or
/// deleted, and both names of one that was renamed.
pub proof fn snapshots_hold_what_was_changed(path: Seq<char>, content: Seq<char>, to: Seq<char>, text: Seq<char>)
    ensures
        settled(ToolRequestV::Write { path, content }, Ok((text, false)), true, true).snapshot == Some(seq![path]),
        settled(ToolRequestV::Delete { path }, Ok((text, false)), true, true).snapshot == Some(seq![path]),
        settled(ToolRequestV::Rename { from: path, to }, Ok((text, false)), true, true).snapshot == Some(
            seq![path, to],
        ),
{
    assert(seq![path] =~= Seq::empty().push(path));
    assert(seq![path, to] =~= Seq::empty().push(path).push(to));
}

// ---- What comes over a WebSocket ----

/// A start or an end that names its session is remembered, and the conversation runs or
/// is at its end; an error ends it too.
pub proof fn listened_events_move_the_conversation(s: RemoteStateV, key: Seq<char>, event: AgentStreamEventV)
    ensures
        absorbed(s, AgentStreamEventV::Start { session_id: Some(key) }).state == (RemoteStateV {
            session_key: Some(key),
            ..s
        }),
        absorbed(s, AgentStreamEventV::Start { session_id: None }).state == s,
        absorbed(s, AgentStreamEventV::Start { session_id: Some(key) }).effects == seq![
            EffectV::TransitionTo(ConversationStatus::Running),
        ],
        absorbed(s, AgentStreamEventV::Finish { session_id: Some(key) }).state == (RemoteStateV {
            session_key: Some(key),
            ..s
        }),
        absorbed(s, AgentStreamEventV::Finish { session_id: None }).state == s,
        absorbed(s, AgentStreamEventV::Finish { session_id: Some(key) }).effects == seq![
            EffectV::TransitionTo(ConversationStatus::Finished),
        ],
        event is Error ==> absorbed(s, event).state == s && absorbed(s, event).effects == seq![
            EffectV::TransitionTo(ConversationStatus::Finished),
        ],
        event is Text ==> absorbed(s, event).state == s && absorbed(s, event).effects.len() == 0,
{
}

/// A card that comes in waits: in place of the one of its call, else behind the others,
/// and no other card is touched.
pub proof fn cards_that_come_in_wait(s: RemoteStateV, card: ConfirmationV, i: int)
    ensures
        ({
            let after = absorbed(s, AgentStreamEventV::AcpPermission(card));
            let q = s.confirmations;
            &&& after.effects.len() == 0
            &&& after.state.confirmations.contains(card)
            &&& (forall|k: int| 0 <= k < q.len() ==> (#[trigger] q[k]).call_id != card.call_id)
                ==> after.state.confirmations == q.push(card)
            &&& 0 <= i < q.len() && q[i].call_id == card.call_id ==> after.state.confirmations.len() == q.len()
            &&& 0 <= i < q.len() && q[i].call_id != card.call_id ==> after.state.confirmations[i] == q[i]
        }),
{
    lemma_card(s.confirmations, card, i);
}

proof fn lemma_card(q: Seq<ConfirmationV>, c: ConfirmationV, i: int)
    ensures
        with_card(q, c).contains(c),
        with_card(q, c).len() == q.len() || with_card(q, c).len() == q.len() + 1,
        (forall|k: int| 0 <= k < q.len() ==> (#[trigger] q[k]).call_id != c.call_id) ==> with_card(q, c) == q.push(c),
        0 <= i < q.len() && q[i].call_id == c.call_id ==> with_card(q, c).len() == q.len(),
        0 <= i < q.len() && q[i].call_id != c.call_id ==> with_card(q, c)[i] == q[i],
    decreases q.len(),
{
    let w = with_card(q, c);
    if q.len() == 0 {
        assert(w[0] == c);
        assert(w =~= q.push(c));
    } else if q[0].call_id == c.call_id {
        assert(w[0] == c);
        if 0 < i < q.len() {
            assert(w[i] == q.drop_first()[i - 1]);
        }
    } else {
        let d = q.drop_first();
        lemma_card(d, c, i - 1);
        let v = with_card(d, c);
        let k = choose|k: int| 0 <= k < v.len() && v[k] == c;
        assert(w[k + 1] == c);
        assert forall|k: int| 0 <= k < d.len() implies (#[trigger] d[k]).call_id == q[k + 1].call_id by {}
        if forall|k: int| 0 <= k < q.len() ==> (#[trigger] q[k]).call_id != c.call_id {
            assert forall|k: int| 0 <= k < d.len() implies (#[trigger] d[k]).call_id != c.call_id by {
                assert(q[k + 1].call_id != c.call_id);
            }
            assert(w =~= q.push(c));
        }
        if 0 < i < q.len() {
            assert(w[i] == v[i - 1]);
            assert(q[i] == d[i - 1]);
        }
    }
}

/// The sub-agents that are found again belong to the session, and each is announced once
/// in the order in which they were found.
pub proof fn found_sub_agents_are_taken_on(s: RemoteStateV, parent: Seq<char>, found: Seq<Seq<char>>, child: Seq<char>)
    requires
        s.opencode_session_id == Some(parent),
    ensures
        backfilled(s, Seq::empty()).state == s,
        backfilled(s, Seq::empty()).effects.len() == 0,
        backfilled(s, found.push(child)).effects == backfilled(s, found).effects.push(
            EffectV::StartChild { parent_id: parent, child_id: child },
        ),
        crate::collections::assoc(backfilled(s, found.push(child)).state.child_sessions, child) == Some(parent),
{
    assert(found.push(child).drop_last() =~= found);
    crate::collections::entry_reads_back(backfilled(s, found).state.child_sessions, child, parent);
}

/// A prompt makes the conversation run, after what still waited was refused.
pub proof fn a_prompt_makes_the_conversation_run(s: RemoteStateV, now: i64, opencode: bool)
    ensures
        message_begun(s, now, opencode).effects.first() == EffectV::BumpActivity,
        message_begun(s, now, opencode).effects.last() == EffectV::TransitionTo(ConversationStatus::Running),
        message_begun(s, now, opencode).state.has_messages,
        !message_begun(s, now, opencode).state.finished_current_user_turn,
{
}

/// Of a project with more files than are listed, the first ones in order are listed, and
/// how many they are is said below them.
pub proof fn long_listings_say_so(rels: Seq<Seq<char>>, max: nat)
    requires
        0 < max < rels.len() <= 4 * max,
        forall|i: int| 0 <= i < rels.len() ==> (#[trigger] rels[i]).len() > 0,
    ensures
        exists|lines: Seq<Seq<char>>|
            tree_text(rels, max) == #[trigger] joined(lines.take(max as int), "\n"@) + "\n… (listing truncated at "@
                + dec(max) + " entries; use list_dir for deeper subtrees)"@ && lines.len() == rels.len() && sorted_by(
                lines,
                by_text(),
            ) && lines.to_multiset() == rels.map_values(|r: Seq<char>| "./"@ + r).to_multiset(),
        cap_of(0) == 1,
        forall|n: usize| n > 0 ==> #[trigger] cap_of(n) == n,
{
    lemma_all_named(rels);
    let shown = shown_paths(rels);
    assert(shown == rels.map_values(|r: Seq<char>| "./"@ + r));
    let lines = sorted(shown, by_text());
    texts_are_ordered();
    sorting_orders(shown, by_text());
    sorting_rearranges(shown, by_text());
    assert(tree_text(rels, max) == joined(lines.take(max as int), "\n"@) + "\n… (listing truncated at "@ + dec(max)
        + " entries; use list_dir for deeper subtrees)"@);
}

// ---- Answers of the server ----

/// What a server answers is the tree that its text stands for; a blank answer is nothing
/// where that is allowed; what went wrong is told with what was asked, as a problem of
/// the connection or of this side.
pub proof fn answers_are_what_their_text_stands_for(
    text: Seq<char>,
    tree: JsonV,
    e: Seq<char>,
    status: Seq<char>,
    body: Seq<char>,
    blank: bool,
    what: Seq<char>,
    response: Seq<char>,
)
    ensures
        parse_result(text) == Ok::<JsonV, Seq<char>>(tree) && trimmed(text).len() > 0 ==> json_answer(
            HttpReplyV::Answered(text),
            blank,
            true,
            what,
            response,
        ) == Ok::<JsonV, AppErrorV>(tree),
        parse_result(text) == Err::<JsonV, Seq<char>>(e) && trimmed(text).len() > 0 ==> json_answer(
            HttpReplyV::Answered(text),
            blank,
            true,
            what,
            response,
        ) == Err::<JsonV, AppErrorV>(AppErrorV::BadGateway(response + " was not JSON: "@ + e)),
        parse_result(text) == Err::<JsonV, Seq<char>>(e) ==> json_answer(
            HttpReplyV::Answered(text),
            false,
            false,
            what,
            response,
        ) == Err::<JsonV, AppErrorV>(AppErrorV::Internal(response + " was not JSON: "@ + e)),
        trimmed(text).len() == 0 ==> json_answer(HttpReplyV::Answered(text), true, true, what, response) == Ok::<
            JsonV,
            AppErrorV,
        >(JsonV::Null),
        json_answer(HttpReplyV::Refused { status, body }, blank, true, what, response) == Err::<JsonV, AppErrorV>(
            AppErrorV::BadGateway(what + " returned "@ + status + ": "@ + body),
        ),
        json_answer(HttpReplyV::Refused { status, body }, blank, false, what, response) == Err::<JsonV, AppErrorV>(
            AppErrorV::Internal(what + " returned "@ + status + ": "@ + body),
        ),
        json_answer(HttpReplyV::Unsent(e), blank, true, what, response) == Err::<JsonV, AppErrorV>(
            AppErrorV::BadGateway(what + " failed: "@ + e),
        ),
{
}

/// An answer may take ten seconds to arrive, and a refusal that the user did not make
/// themselves five; other protocols get none.
pub proof fn answers_have_their_time(
    m: RemoteAgentManagerV,
    id: Seq<char>,
    session: Option<Seq<char>>,
    word: Seq<char>,
    answers: Seq<Seq<Seq<char>>>,
)
    ensures
        m.remote_config.is_opencode() ==> {
            &&& m.reply(
                EffectV::ReplyPermission { request_id: id, session_id: session, reply: word, by_user: true },
            ) matches Some(q) && q.timeout_secs == 10
            &&& m.reply(
                EffectV::ReplyPermission { request_id: id, session_id: session, reply: "reject"@, by_user: false },
            ) matches Some(q) && q.timeout_secs == 5
            &&& word != "reject"@ ==> (m.reply(
                EffectV::ReplyPermission { request_id: id, session_id: session, reply: word, by_user: false },
            ) matches Some(q) && q.timeout_secs == 10)
            &&& m.reply(EffectV::ReplyQuestion { request_id: id, answers }) matches Some(q) && q.timeout_secs == 10
            &&& m.reply(EffectV::RejectQuestion { request_id: id }) matches Some(q) && q.timeout_secs == 10
            &&& m.reply(EffectV::BumpActivity) is None
        },
        !m.remote_config.is_opencode() ==> m.reply(EffectV::RejectQuestion { request_id: id }) is None,
{
}

} // verus!

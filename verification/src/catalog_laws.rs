//! What holds of the catalogs of a server, of the servers that run here, and of what is
//! asked and told around a conversation.
use vstd::prelude::*;

use crate::agent_task::{entries_of, WorkspaceEntryV};
use crate::aionrs::{
    decision_of, message_outcome, session_mode, turn_ended, EngineRunV, RuntimeCallV, SessionMode,
    ToolDecisionV,
};
use crate::collections::entry_reads_back;
use crate::config::RemoteAgentConfigV;
use crate::connector::{
    cancel_steps_v, turn_of, CancelStepV, ConnectorErrorV, StopReasonV, TurnSummaryV,
};
use crate::factory::{settings, stored_agent, RemoteAgentRowV};
use crate::fs_requests::content_body;
use crate::fs_tools::{listing_of, ListEntryV, ListFailureV};
use crate::http::{HttpMethod, HttpReplyV};
use crate::json::{fields, json_text, lemma_lookup_push, strings_v, JsonV, NumberV};
use crate::local_opencode::{
    agents_up, config_v, kept, leading_digits, looked_after, port_in, restart_begun, spawn_advanced,
    start_advanced, start_begun, from_first, place_of, summary_v, ChildState, LocalOpenCodeManagerV,
    LocalOpenCodeStatus, OpenCodeInstanceV, SpawnEventV, SpawnStepV, StartActionV, StartEventV,
};
use crate::manager::RemoteAgentManagerV;
use crate::models::{
    agent_modes_of, catalog_models, default_modes, label_in, limit_in, limits_of, mode_ids,
    modes_after, provider_entries, providers_entries, skill_names, skills_of, texts_of, with_limits,
    AgentModeOptionV, ModelInfoEntryV,
};
use crate::payloads::history_json;
use crate::provider_auth::{
    answered, callback_body, deletion_of, is_legacy, legacy_callback, oauth_body,
};
use crate::rpc::RpcFault;
use crate::send::session_noted;
use crate::text::{all_digits, begins, dec, decimal_round_trip, is_digit, last_index, trimmed};
use crate::types::{AgentStreamEventV, AppErrorV, EffectV};

verus! {

// ---- Catalogs ----

/// Whether an entry stands for the model at a place of a catalog: under the ids of its
/// provider and of itself, with the provider in brackets before its name, or else its id.
pub open spec fn stands_for(e: ModelInfoEntryV, provider: JsonV, j: int) -> bool {
    provider.field_text("id"@) matches Some(id) && (provider.field("models"@) matches Some(JsonV::Object(models))
        && 0 <= j < models.len() && e.id == id + "::"@ + models[j].0 && e.label == "["@ + id + "] "@ + (
    match models[j].1.field_text("name"@) {
        Some(name) => name,
        None => models[j].0,
    }))
}

/// Whether a catalog says that a provider is connected.
pub open spec fn says_connected(connected: Seq<JsonV>, provider: JsonV) -> bool {
    provider.field_text("id"@) matches Some(id) && connected.contains(JsonV::Str(id))
}

/// The models of the providers that are connected are listed, each under its provider, and
/// no others.
pub proof fn connected_models_are_listed(
    body: JsonV,
    all: Seq<JsonV>,
    connected: Seq<JsonV>,
    all_if_none: bool,
    e: ModelInfoEntryV,
)
    requires
        body.field_items("all"@) == Some(all),
        body.field_items("connected"@) == Some(connected),
        exists|k: int| 0 <= k < connected.len() && (#[trigger] connected[k]) is Str,
    ensures
        catalog_models(body, all_if_none).contains(e) <==> exists|i: int, j: int|
            0 <= i < all.len() && says_connected(connected, all[i]) && #[trigger] stands_for(e, all[i], j),
{
    let ids = texts_of(connected);
    lemma_texts(connected);
    let k = choose|k: int| 0 <= k < connected.len() && (#[trigger] connected[k]) is Str;
    let t = connected[k]->Str_0;
    assert(connected.contains(JsonV::Str(t)));
    assert(ids.contains(t));
    lemma_providers(all, ids, all_if_none, e);
    assert forall|i: int, j: int|
        0 <= i < all.len() && says_connected(connected, all[i]) && #[trigger] stands_for(e, all[i], j) implies catalog_models(
        body,
        all_if_none,
    ).contains(e) by {
        assert(all[i].field_text("id"@) matches Some(id) && ids.contains(id));
    }
    if catalog_models(body, all_if_none).contains(e) {
        let (i, j) = choose|i: int, j: int|
            0 <= i < all.len() && (all[i].field_text("id"@) matches Some(id) && ids.contains(id))
                && #[trigger] stands_for(e, all[i], j);
        assert(says_connected(connected, all[i]) && stands_for(e, all[i], j));
    }
}

proof fn lemma_texts(a: Seq<JsonV>)
    ensures
        forall|t: Seq<char>| #[trigger] texts_of(a).contains(t) <==> a.contains(JsonV::Str(t)),
    decreases a.len(),
{
    if a.len() > 0 {
        let d = a.drop_last();
        lemma_texts(d);
        assert forall|t: Seq<char>| #[trigger] texts_of(a).contains(t) <==> a.contains(JsonV::Str(t)) by {
            assert(texts_of(d).contains(t) <==> d.contains(JsonV::Str(t)));
            if d.contains(JsonV::Str(t)) {
                let k = choose|k: int| 0 <= k < d.len() && d[k] == JsonV::Str(t);
                assert(a[k] == JsonV::Str(t));
                let m = choose|m: int| 0 <= m < texts_of(d).len() && texts_of(d)[m] == t;
                assert(texts_of(a)[m] == t);
            }
            if a.last() == JsonV::Str(t) {
                assert(texts_of(a).last() == t);
                assert(a[a.len() - 1] == JsonV::Str(t));
            }
            if a.contains(JsonV::Str(t)) {
                let k = choose|k: int| 0 <= k < a.len() && a[k] == JsonV::Str(t);
                if k < d.len() {
                    assert(d[k] == JsonV::Str(t));
                }
            }
            if texts_of(a).contains(t) {
                let m = choose|m: int| 0 <= m < texts_of(a).len() && texts_of(a)[m] == t;
                if m < texts_of(d).len() {
                    assert(texts_of(d)[m] == t);
                }
            }
        }
    }
}

proof fn lemma_provider(provider: JsonV, ids: Seq<Seq<char>>, all_if_none: bool, e: ModelInfoEntryV)
    requires
        ids.len() > 0,
    ensures
        provider_entries(provider, ids, all_if_none).contains(e) <==> (provider.field_text("id"@) matches Some(id)
            && ids.contains(id)) && exists|j: int| #[trigger] stands_for(e, provider, j),
{
    let out = provider_entries(provider, ids, all_if_none);
    if out.contains(e) {
        let j = choose|j: int| 0 <= j < out.len() && out[j] == e;
        assert(stands_for(e, provider, j));
    }
    assert forall|j: int| #[trigger] stands_for(e, provider, j) && (provider.field_text("id"@) matches Some(id)
        && ids.contains(id)) implies out.contains(e) by {
        assert(out[j] == e);
    }
}

proof fn lemma_providers(all: Seq<JsonV>, ids: Seq<Seq<char>>, all_if_none: bool, e: ModelInfoEntryV)
    requires
        ids.len() > 0,
    ensures
        providers_entries(all, ids, all_if_none).contains(e) <==> exists|i: int, j: int|
            0 <= i < all.len() && (all[i].field_text("id"@) matches Some(id) && ids.contains(id))
                && #[trigger] stands_for(e, all[i], j),
    decreases all.len(),
{
    if all.len() > 0 {
        let d = all.drop_last();
        lemma_providers(d, ids, all_if_none, e);
        lemma_provider(all.last(), ids, all_if_none, e);
        let x = providers_entries(d, ids, all_if_none);
        let y = provider_entries(all.last(), ids, all_if_none);
        let out = x + y;
        assert(out == providers_entries(all, ids, all_if_none));
        if x.contains(e) {
            let k = choose|k: int| 0 <= k < x.len() && x[k] == e;
            assert(out[k] == e);
            let (i, j) = choose|i: int, j: int|
                0 <= i < d.len() && (d[i].field_text("id"@) matches Some(id) && ids.contains(id))
                    && #[trigger] stands_for(e, d[i], j);
            assert(stands_for(e, all[i], j));
        }
        if y.contains(e) {
            let k = choose|k: int| 0 <= k < y.len() && y[k] == e;
            assert(out[x.len() + k] == e);
            let j = choose|j: int| #[trigger] stands_for(e, all.last(), j);
            assert(stands_for(e, all[all.len() - 1], j));
        }
        if out.contains(e) {
            let k = choose|k: int| 0 <= k < out.len() && out[k] == e;
            if k < x.len() {
                assert(x[k] == e);
            } else {
                assert(y[k - x.len()] == e);
            }
        }
        assert forall|i: int, j: int|
            0 <= i < all.len() && (all[i].field_text("id"@) matches Some(id) && ids.contains(id))
                && #[trigger] stands_for(e, all[i], j) implies out.contains(e) by {
            if i < d.len() {
                assert(stands_for(e, d[i], j));
            } else {
                assert(stands_for(e, all.last(), j));
            }
        }
    }
}

/// Where no provider is connected, a catalog lists nothing, unless all are asked for.
pub proof fn without_a_connection_nothing_is_listed(body: JsonV, all: Seq<JsonV>)
    requires
        body.field_items("all"@) == Some(all),
        body.field_items("connected"@) is None,
    ensures
        catalog_models(body, false).len() == 0,
        forall|i: int, j: int, e: ModelInfoEntryV|
            0 <= i < all.len() && #[trigger] stands_for(e, all[i], j) ==> catalog_models(body, true).contains(e),
{
    lemma_none(all);
    assert forall|i: int, j: int, e: ModelInfoEntryV|
        0 <= i < all.len() && #[trigger] stands_for(e, all[i], j) implies catalog_models(body, true).contains(e) by {
        lemma_all(all, i, j, e);
    }
}

proof fn lemma_none(all: Seq<JsonV>)
    ensures
        providers_entries(all, Seq::empty(), false).len() == 0,
    decreases all.len(),
{
    if all.len() > 0 {
        lemma_none(all.drop_last());
    }
}

proof fn lemma_all(all: Seq<JsonV>, i: int, j: int, e: ModelInfoEntryV)
    requires
        0 <= i < all.len(),
        stands_for(e, all[i], j),
    ensures
        providers_entries(all, Seq::empty(), true).contains(e),
    decreases all.len(),
{
    let d = all.drop_last();
    let x = providers_entries(d, Seq::empty(), true);
    let y = provider_entries(all.last(), Seq::empty(), true);
    let out = providers_entries(all, Seq::empty(), true);
    assert(out == x + y);
    if i < d.len() {
        lemma_all(d, i, j, e);
        let k = choose|k: int| 0 <= k < x.len() && x[k] == e;
        assert(out[k] == e);
    } else {
        assert(y[j] == e);
        assert(out[x.len() + j] == e);
    }
}

/// The window of a model is the one that the catalog states last for it, where it is
/// positive; one that states none is passed over.
pub proof fn windows_are_those_that_are_stated(
    providers: Seq<JsonV>,
    provider: JsonV,
    models: Seq<(Seq<char>, JsonV)>,
    model: Seq<char>,
    entry: JsonV,
    limit: JsonV,
    n: u64,
)
    requires
        provider.field("models"@) == Some(JsonV::Object(models.push((model, entry)))),
        entry.field("limit"@) == Some(limit),
        limit.field("context"@) == Some(JsonV::Number(NumberV::Unsigned(n))),
    ensures
        n > 0 ==> limit_in(limits_of(providers.push(provider)), model) == n,
        n == 0 ==> limits_of(providers.push(provider)) == with_limits(limits_of(providers), models),
        limit_in(limits_of(Seq::empty()), model) == 0,
{
    let before = limits_of(providers);
    assert(providers.push(provider).drop_last() =~= providers);
    let all = models.push((model, entry));
    assert(all.drop_last() =~= models);
    entry_reads_back(with_limits(before, models), model, n);
}

/// Whether an item of a catalog is an agent that a user can work in.
pub open spec fn is_open_agent(item: JsonV, name: Seq<char>) -> bool {
    &&& item.field_text("name"@) == Some(name)
    &&& name.len() > 0
    &&& item.field("hidden"@) != Some(JsonV::Bool(true))
    &&& item.field_text("mode"@) == Some("primary"@) || item.field_text("mode"@) == Some("all"@)
}

/// The modes are building, planning, and the agents of the catalog that a user can work
/// in; no others.
pub proof fn agents_are_offered_as_modes(body: JsonV, items: Seq<JsonV>, name: Seq<char>)
    requires
        body == JsonV::Array(items),
    ensures
        mode_ids(agent_modes_of(body)).contains(name) <==> name == "build"@ || name == "plan"@ || exists|i: int|
            0 <= i < items.len() && is_open_agent(#[trigger] items[i], name),
        agent_modes_of(body)[0].id == "build"@,
        agent_modes_of(body)[1].id == "plan"@,
{
    lemma_modes(items, name);
}

proof fn lemma_modes(items: Seq<JsonV>, name: Seq<char>)
    ensures
        mode_ids(modes_after(default_modes(), items)).contains(name) <==> name == "build"@ || name == "plan"@
            || exists|i: int| 0 <= i < items.len() && is_open_agent(#[trigger] items[i], name),
        modes_after(default_modes(), items).len() >= 2,
        modes_after(default_modes(), items)[0].id == "build"@,
        modes_after(default_modes(), items)[1].id == "plan"@,
    decreases items.len(),
{
    let ids = mode_ids(modes_after(default_modes(), items));
    if items.len() == 0 {
        assert(ids[0] == "build"@);
        assert(ids[1] == "plan"@);
        if ids.contains(name) {
            let k = choose|k: int| 0 <= k < ids.len() && ids[k] == name;
            assert(k == 0 || k == 1);
        }
    } else {
        let d = items.drop_last();
        lemma_modes(d, name);
        let before = modes_after(default_modes(), d);
        let was = mode_ids(before);
        if was.contains(name) {
            let k = choose|k: int| 0 <= k < was.len() && was[k] == name;
            assert(ids[k] == name);
        }
        if ids.contains(name) && !was.contains(name) {
            let k = choose|k: int| 0 <= k < ids.len() && ids[k] == name;
            if k < was.len() {
                assert(was[k] == name);
            }
            assert(is_open_agent(items[items.len() - 1], name));
        }
        if is_open_agent(items.last(), name) && !was.contains(name) {
            assert(ids[was.len() as int] == name);
        }
        assert forall|i: int| 0 <= i < items.len() && is_open_agent(#[trigger] items[i], name) implies ids.contains(
            name,
        ) by {
            if i < d.len() {
                assert(is_open_agent(d[i], name));
            }
        }
        if exists|i: int| 0 <= i < d.len() && is_open_agent(#[trigger] d[i], name) {
            let i = choose|i: int| 0 <= i < d.len() && is_open_agent(#[trigger] d[i], name);
            assert(is_open_agent(items[i], name));
        }
    }
}

/// The skills are those of the catalog that have a name, each once, with the words that
/// the catalog first has for it.
pub proof fn skills_are_listed_once(items: Seq<JsonV>, item: JsonV, name: Seq<char>)
    requires
        item.field_text("name"@) == Some(name),
        name.len() > 0,
    ensures
        skills_of(Seq::empty()).len() == 0,
        skill_names(skills_of(items.push(item))).contains(name),
        !skill_names(skills_of(items)).contains(name) ==> skills_of(items.push(item)).last().name == name
            && skills_of(items.push(item)).last().description == item.field_text("description"@)
            && skills_of(items.push(item)).drop_last() == skills_of(items),
        skill_names(skills_of(items)).contains(name) ==> skills_of(items.push(item)) == skills_of(items),
{
    let after = skills_of(items.push(item));
    assert(items.push(item).drop_last() =~= items);
    if !skill_names(skills_of(items)).contains(name) {
        assert(skill_names(after)[after.len() - 1] == name);
        assert(after.drop_last() =~= skills_of(items));
    }
}

/// A model is told by the label of its entry, or by its id where it has none.
pub proof fn models_are_told_by_their_labels(available: Seq<ModelInfoEntryV>, id: Seq<char>, i: int)
    ensures
        0 <= i < available.len() && available[i].id == id && (forall|k: int|
            0 <= k < i ==> (#[trigger] available[k]).id != id) ==> label_in(available, id) == available[i].label,
        (forall|k: int| 0 <= k < available.len() ==> (#[trigger] available[k]).id != id) ==> label_in(available, id)
            == id,
    decreases available.len(),
{
    if available.len() > 0 && available[0].id != id {
        let rest = available.drop_first();
        models_are_told_by_their_labels(rest, id, i - 1);
        assert forall|k: int| 0 <= k < rest.len() implies (#[trigger] rest[k]).id == available[k + 1].id by {}
    }
}

// ---- What a conversation works with ----

/// A selected model is the one that the session is summarized with.
pub proof fn sessions_are_summarized_with_the_selected_model(
    m: RemoteAgentManagerV,
    session: Seq<char>,
    model: JsonV,
    provider_id: Seq<char>,
    model_id: Seq<char>,
)
    requires
        m.remote_config.is_opencode(),
        m.state.opencode_session_id == Some(session),
        m.state.desired_model == Some(model),
        model.field("modelID"@) == Some(JsonV::Str(model_id)),
        model.field_text("providerID"@) == Some(provider_id),
    ensures
        m.summary_request() matches Ok(q) && q.method == HttpMethod::Post && q.url == m.base_url() + ("/session/"@
            + session + "/summarize"@) && q.auth == m.remote_config.auth_header() && (q.body matches Some(b)
            && b.field_text("providerID"@) == Some(provider_id) && b.field_text("modelID"@) == Some(model_id)),
        m.compaction(Ok(())) == Ok::<Option<crate::http::HttpRequestV>, AppErrorV>(None),
{
    reveal_strlit("providerID");
    reveal_strlit("modelID");
    assert("providerID"@.len() != "modelID"@.len());
    let b = m.summary_request()->Ok_0.body->Some_0->Object_0;
    lemma_two(b[0], b[1]);
    assert(b =~= fields().push(b[0]).push(b[1]));
}

proof fn lemma_two(a: (Seq<char>, JsonV), b: (Seq<char>, JsonV))
    requires
        a.0 != b.0,
    ensures
        crate::json::lookup(fields().push(a).push(b), a.0) == Some(a.1),
        crate::json::lookup(fields().push(a).push(b), b.0) == Some(b.1),
        crate::json::lookup(fields().push(a), a.0) == Some(a.1),
        crate::json::lookup(fields().push(a), b.0) is None,
{
    lemma_lookup_push(fields(), a, a.0);
    lemma_lookup_push(fields(), a, b.0);
    lemma_lookup_push(fields().push(a), b, a.0);
    lemma_lookup_push(fields().push(a), b, b.0);
}

/// A mode that is offered is selected and told; another is refused by its name.
pub proof fn offered_modes_are_told(m: RemoteAgentManagerV, available: Seq<AgentModeOptionV>, mode: Seq<char>, i: int)
    requires
        m.remote_config.is_opencode(),
    ensures
        0 <= i < available.len() && available[i].id == trimmed(mode) ==> m.mode_choice(mode, available) == Ok::<
            Seq<EffectV>,
            AppErrorV,
        >(
            seq![
                EffectV::Emit(
                    AgentStreamEventV::AcpModeInfo(JsonV::Object(seq![("mode"@, JsonV::Str(trimmed(mode)))])),
                ),
            ],
        ),
        (forall|k: int| 0 <= k < available.len() ==> (#[trigger] available[k]).id != trimmed(mode)) ==> m.mode_choice(
            mode,
            available,
        ) == Err::<Seq<EffectV>, AppErrorV>(
            AppErrorV::BadRequest("Unsupported OpenCode mode '"@ + trimmed(mode) + "'"@),
        ),
{
}

/// The settings of an agent are those that are stored of it, with its token. An agent that
/// is not stored is reported by its id.
pub proof fn agents_are_made_as_they_are_stored(
    row: RemoteAgentRowV,
    token: Option<Seq<char>>,
    id: Seq<char>,
    e: Seq<char>,
)
    ensures
        settings(row, token).remote_agent_id == row.id,
        settings(row, token).protocol == row.protocol,
        settings(row, token).url == row.url,
        settings(row, token).auth_type == row.auth_type,
        settings(row, token).auth_token == token,
        settings(row, token).allow_insecure == row.allow_insecure,
        settings(row, token).tool_host == row.tool_host,
        stored_agent(id, Ok(Some(row))) == Ok::<RemoteAgentRowV, AppErrorV>(row),
        stored_agent(id, Ok(None)) == Err::<RemoteAgentRowV, AppErrorV>(
            AppErrorV::NotFound("Remote agent '"@ + id + "' not found"@),
        ),
        stored_agent(id, Err(e)) == Err::<RemoteAgentRowV, AppErrorV>(
            AppErrorV::Internal("Failed to load remote agent config: "@ + e),
        ),
{
}

/// The entries of a listing are those that have a name, under it; where nothing is
/// searched for, all of them.
pub proof fn named_nodes_are_listed(nodes: Seq<JsonV>, node: JsonV, name: Seq<char>)
    requires
        node.field_text("name"@) == Some(name),
    ensures
        name.len() > 0 ==> entries_of(nodes.push(node), None) == entries_of(nodes, None).push(
            (WorkspaceEntryV {
                name,
                entry_type: match node.field_text("type"@) {
                    Some(t) => t,
                    None => "file"@,
                },
            }),
        ),
        name.len() == 0 ==> entries_of(nodes.push(node), None) == entries_of(nodes, None),
        entries_of(Seq::empty(), None).len() == 0,
{
    assert(nodes.push(node).drop_last() =~= nodes);
}

/// What is asked of a file names its path, and the part that is wanted.
pub proof fn files_are_asked_for_by_path(path: Seq<char>, start: u64, end: u64)
    ensures
        content_body(path, None, None).field_text("path"@) == Some(path),
        content_body(path, None, None).field("start"@) is None,
        content_body(path, None, None).field("end"@) is None,
        content_body(path, Some(start), Some(end)).field_text("path"@) == Some(path),
        content_body(path, Some(start), Some(end)).field("start"@) == Some(JsonV::Number(NumberV::Unsigned(start))),
        content_body(path, Some(start), Some(end)).field("end"@) == Some(JsonV::Number(NumberV::Unsigned(end))),
{
    reveal_strlit("path");
    reveal_strlit("start");
    reveal_strlit("end");
    assert("path"@.len() == 4 && "start"@.len() == 5 && "end"@.len() == 3);
    let a = ("path"@, JsonV::Str(path));
    let b = ("start"@, JsonV::Number(NumberV::Unsigned(start)));
    let c = ("end"@, JsonV::Number(NumberV::Unsigned(end)));
    lemma_two(a, b);
    lemma_two(a, c);
    crate::tool_laws::lemma_three(a, b, c);
}

// ---- Credentials ----

/// An authorisation names its method, and carries what the user filled in and the code
/// that came back.
pub proof fn authorisations_carry_what_was_entered(
    method: u32,
    inputs: Seq<(Seq<char>, JsonV)>,
    code: Seq<char>,
    cfg: RemoteAgentConfigV,
    provider: Seq<char>,
)
    requires
        inputs.len() > 0,
        code.len() > 0,
    ensures
        oauth_body(method, inputs).field("method"@) == Some(JsonV::Number(NumberV::Unsigned(method as u64))),
        oauth_body(method, inputs).field("inputs"@) == Some(JsonV::Object(inputs)),
        callback_body(method, Some(code)).field("method"@) == Some(JsonV::Number(NumberV::Unsigned(method as u64))),
        callback_body(method, Some(code)).field_text("code"@) == Some(code),
        callback_body(method, None).field("code"@) is None,
        legacy_callback(cfg, provider, None) == Err::<crate::http::HttpRequestV, AppErrorV>(
            AppErrorV::BadRequest("OAuth authorization code is required"@),
        ),
        legacy_callback(cfg, provider, Some(code)) matches Ok(q) && q.method == HttpMethod::Get && q.auth
            == cfg.auth_header() && q.url == cfg.base_url() + ("/provider/"@ + provider + "/oauth/callback?code="@
            + crate::config::encoded(code)),
        is_legacy(404) && is_legacy(405) && !is_legacy(200) && !is_legacy(400) && !is_legacy(401) && !is_legacy(500),
{
    reveal_strlit("method");
    reveal_strlit("inputs");
    reveal_strlit("code");
    assert("method"@[0] == 'm' && "inputs"@[0] == 'i');
    assert("method"@.len() == 6 && "code"@.len() == 4);
    let a = ("method"@, JsonV::Number(NumberV::Unsigned(method as u64)));
    lemma_two(a, ("inputs"@, JsonV::Object(inputs)));
    lemma_two(a, ("code"@, JsonV::Str(code)));
}

/// What goes wrong with credentials is told in the server's words; an accepted deletion
/// is no error.
pub proof fn refused_credentials_are_told(
    e: Seq<char>,
    status: Seq<char>,
    body: Seq<char>,
    sent: Seq<char>,
    label: Seq<char>,
)
    ensures
        deletion_of(HttpReplyV::Answered(body)) is None,
        deletion_of(HttpReplyV::Unsent(e)) == Some(AppErrorV::BadGateway("OpenCode DELETE /auth failed: "@ + e)),
        deletion_of(HttpReplyV::Refused { status, body }) == Some(
            AppErrorV::BadGateway("OpenCode DELETE /auth returned "@ + status + ": "@ + body),
        ),
        answered(HttpReplyV::Unsent(e), sent, label) == Err::<JsonV, AppErrorV>(
            AppErrorV::BadGateway("OpenCode "@ + sent + " failed: "@ + e),
        ),
        answered(HttpReplyV::Refused { status, body }, sent, label) is Err,
{
}

// ---- Agents in this process ----

/// A mode goes by its name, and any other name is the mode that asks.
pub proof fn modes_go_by_their_names(name: Seq<char>)
    ensures
        session_mode("auto_edit"@) == SessionMode::AutoEdit,
        session_mode("yolo"@) == SessionMode::Yolo,
        session_mode("default"@) == SessionMode::Default,
        name != "auto_edit"@ && name != "yolo"@ ==> session_mode(name) == SessionMode::Default,
{
    reveal_strlit("auto_edit");
    reveal_strlit("yolo");
    reveal_strlit("default");
    assert("auto_edit"@.len() == 9 && "yolo"@.len() == 4 && "default"@.len() == 7);
}

/// A tool runs where the user approved it: anything but a cancellation approves, and no
/// answer does not.
pub proof fn tools_run_where_they_are_approved(data: JsonV, answer: Seq<char>, always: bool)
    ensures
        data.field_text("value"@) == Some("cancel"@) ==> decision_of(data, always) is Deny,
        data.field_text("value"@) is None ==> decision_of(data, always) is Deny,
        data.field_text("value"@) == Some(answer) && answer != "cancel"@ ==> decision_of(data, always) == (
        ToolDecisionV::Approve { always }),
{
}

/// A turn is told as it went: an error in its words, a stop as one, and one that came to
/// its end without an error.
pub proof fn turns_are_told_as_they_went(e: Seq<char>, told: Seq<char>, session: Option<Seq<char>>)
    ensures
        turn_ended(EngineRunV::Completed).0 matches Ok(t) && t.stop_reason == Some(StopReasonV::EndTurn),
        turn_ended(EngineRunV::Completed).1 == seq![RuntimeCallV::BumpActivity, RuntimeCallV::EmitFinish],
        turn_ended(EngineRunV::Stopped).0 matches Ok(t) && t.stop_reason == Some(StopReasonV::Cancelled),
        turn_ended(EngineRunV::Stopped).1.contains(RuntimeCallV::EmitError { message: "Stopped by user"@ }),
        turn_ended(EngineRunV::Failed(e)).0 == Err::<TurnSummaryV, ConnectorErrorV>(
            ConnectorErrorV::Protocol("Aionrs agent error: "@ + e),
        ),
        turn_ended(EngineRunV::Failed(e)).1.contains(
            RuntimeCallV::EmitError { message: "Aionrs agent error: "@ + e },
        ),
        message_outcome(turn_ended(EngineRunV::Completed).0, told) is None,
        message_outcome(turn_ended(EngineRunV::Stopped).0, told) is None,
        message_outcome(turn_ended(EngineRunV::Failed(e)).0, told) == Some(
            AppErrorV::Internal("Aionrs agent error: "@ + e),
        ),
        message_outcome(Err(ConnectorErrorV::Busy), told) is Some,
        turn_of(None, told, session) == Ok::<TurnSummaryV, ConnectorErrorV>(
            TurnSummaryV { session_id: session, stop_reason: Some(StopReasonV::EndTurn) },
        ),
        turn_of(Some(AppErrorV::Conflict(e)), told, session) == Err::<TurnSummaryV, ConnectorErrorV>(
            ConnectorErrorV::Busy,
        ),
        turn_of(Some(AppErrorV::Internal(e)), told, session) == Err::<TurnSummaryV, ConnectorErrorV>(
            ConnectorErrorV::Protocol(told),
        ),
{
    assert(turn_ended(EngineRunV::Completed).1 =~= seq![RuntimeCallV::BumpActivity, RuntimeCallV::EmitFinish]);
    assert(turn_ended(EngineRunV::Stopped).1[2] == (RuntimeCallV::EmitError { message: "Stopped by user"@ }));
    assert(turn_ended(EngineRunV::Failed(e)).1[1] == (RuntimeCallV::EmitError {
        message: "Aionrs agent error: "@ + e,
    }));
}

/// A turn is stopped in its own session, and what it asked is refused before the wait.
pub proof fn turns_are_stopped_in_their_session(id: Seq<char>)
    ensures
        cancel_steps_v(None).len() == 0,
        cancel_steps_v(Some(id))[0] == (CancelStepV::Notify { session_id: id }),
        cancel_steps_v(Some(id))[1] == CancelStepV::RefusePermissions,
        cancel_steps_v(Some(id))[2] is AwaitAck,
        cancel_steps_v(Some(id)).last() == CancelStepV::EmitFinish,
{
}

// ---- Servers that run here ----

/// A server listens on the port in the address that it prints: behind the last colon, up
/// to what is no digit.
pub proof fn servers_listen_where_they_say(
    i: OpenCodeInstanceV,
    before: Seq<char>,
    host: Seq<char>,
    port: u16,
    after: Seq<char>,
)
    requires
        !before.contains(':'),
        !after.contains(':'),
        after.len() == 0 || !is_digit(after[0]),
    ensures
        ({
            let line = before + "http://"@ + host + ":"@ + dec(port as nat) + after;
            &&& port_in(line) == Some(port as nat)
            &&& spawn_advanced(i, SpawnEventV::Line(line)).1 == (SpawnStepV::Listening { port })
            &&& spawn_advanced(i, SpawnEventV::Line(line)).0 == (OpenCodeInstanceV {
                port: Some(port),
                status: LocalOpenCodeStatus::Running,
                ..i
            })
        }),
        spawn_advanced(i, SpawnEventV::Line(before)) == (i, SpawnStepV::Read),
{
    reveal_strlit("http://");
    reveal_strlit(":");
    assert("http://"@.len() == 7 && ":"@.len() == 1);
    assert("http://"@[0] == 'h' && "http://"@[1] == 't' && "http://"@[2] == 't' && "http://"@[3] == 'p'
        && "http://"@[4] == ':' && ":"@[0] == ':');
    let digits = dec(port as nat);
    decimal_round_trip(port as nat);
    let url = "http://"@ + host + ":"@ + digits + after;
    let line = before + "http://"@ + host + ":"@ + digits + after;
    assert(line =~= before + url);
    assert(url.take(7) =~= "http://"@);
    lemma_from_first(before, url);
    let at: int = 7 + host.len() as int;
    assert(url[at] == ':');
    assert forall|k: int| at < k < url.len() implies url[k] != ':' by {
        if k < at + 1 + digits.len() {
            assert(url[k] == digits[k - at - 1]);
            assert(is_digit(digits[k - at - 1]));
        } else {
            assert(url[k] == after[k - at - 1 - digits.len()]);
        }
    }
    lemma_last(url, ':', at);
    let rest = url.skip(at + 1);
    assert(rest =~= digits + after);
    lemma_leading_digits(digits, after);
    assert(digits[0] != '+') by {
        assert(is_digit(digits[0]));
    }
    lemma_no_address(before);
}

proof fn lemma_no_address(s: Seq<char>)
    requires
        !s.contains(':'),
    ensures
        from_first(s, "http://"@) is None,
    decreases s.len(),
{
    reveal_strlit("http://");
    assert("http://"@.len() == 7 && "http://"@[4] == ':');
    if begins(s, "http://"@) {
        assert(s.take(7)[4] == "http://"@[4]);
        assert(s[4] == ':');
    }
    if s.len() > 0 {
        let d = s.drop_first();
        if d.contains(':') {
            let k = choose|k: int| 0 <= k < d.len() && d[k] == ':';
            assert(s[k + 1] == ':');
        }
        lemma_no_address(d);
    }
}

proof fn lemma_from_first(before: Seq<char>, url: Seq<char>)
    requires
        !before.contains(':'),
        url.len() >= 7,
        url.take(7) == "http://"@,
    ensures
        from_first(before + url, "http://"@) == Some(url),
    decreases before.len(),
{
    reveal_strlit("http://");
    let w = "http://"@;
    assert(w.len() == 7 && w[0] == 'h' && w[1] == 't' && w[2] == 't' && w[3] == 'p' && w[4] == ':');
    let s = before + url;
    if before.len() == 0 {
        assert(s =~= url);
    } else {
        if begins(s, w) {
            assert(s.take(7)[4] == w[4]);
            assert(s[4] == ':');
            if before.len() > 4 {
                assert(before[4] == ':');
            } else {
                assert(s[4] == url[4 - before.len()]);
                assert(url[4 - before.len()] == url.take(7)[4 - before.len()]);
            }
        }
        let d = before.drop_first();
        assert(s.drop_first() =~= d + url);
        if d.contains(':') {
            let k = choose|k: int| 0 <= k < d.len() && d[k] == ':';
            assert(before[k + 1] == ':');
        }
        lemma_from_first(d, url);
    }
}

proof fn lemma_last(s: Seq<char>, c: char, at: int)
    requires
        0 <= at < s.len(),
        s[at] == c,
        forall|k: int| at < k < s.len() ==> #[trigger] s[k] != c,
    ensures
        last_index(s, c) == Some(at),
    decreases s.len(),
{
    if at < s.len() - 1 {
        assert(s[s.len() - 1] != c);
        lemma_last(s.drop_last(), c, at);
    }
}

proof fn lemma_leading_digits(digits: Seq<char>, after: Seq<char>)
    requires
        all_digits(digits),
        after.len() == 0 || !is_digit(after[0]),
    ensures
        leading_digits(digits + after) == digits,
    decreases digits.len(),
{
    let s = digits + after;
    if digits.len() == 0 {
        assert(s =~= after);
        assert(leading_digits(s) =~= digits);
    } else {
        assert(is_digit(digits[0]));
        assert(s[0] == digits[0]);
        let d = digits.drop_first();
        assert(s.drop_first() =~= d + after);
        assert forall|k: int| 0 <= k < d.len() implies is_digit(#[trigger] d[k]) by {
            assert(is_digit(digits[k + 1]));
        }
        lemma_leading_digits(d, after);
        assert(leading_digits(s) =~= digits);
    }
}

/// A server whose process failed has crashed; one whose process ended well has stopped;
/// one that still runs is as it was.
pub proof fn ended_processes_are_noticed(i: OpenCodeInstanceV)
    ensures
        looked_after(i, ChildState::Failed).1,
        looked_after(i, ChildState::Failed).0.status == LocalOpenCodeStatus::Crashed,
        looked_after(i, ChildState::Failed).0.pid is None,
        !looked_after(i, ChildState::Succeeded).1,
        looked_after(i, ChildState::Succeeded).0.status == LocalOpenCodeStatus::Stopped,
        looked_after(i, ChildState::Succeeded).0.pid is None,
        looked_after(i, ChildState::Alive) == (i, false),
        looked_after(i, ChildState::Absent) == (i, false),
        looked_after(i, ChildState::Unknown) == (i, false),
{
}

/// A start registers its agent, runs the server with the endpoint and the token in a
/// directory of the agent's own, publishes the port, and keeps the server.
pub proof fn starts_lead_to_a_server(
    m: LocalOpenCodeManagerV,
    name: Option<Seq<char>>,
    dir: Option<Seq<char>>,
    home: Option<Seq<char>>,
    token: Seq<char>,
    root: Seq<char>,
    endpoint: Seq<char>,
    agent: Seq<char>,
    port: u16,
    why: Seq<char>,
)
    requires
        m.data_dir == Some(root),
        m.has_repo,
    ensures
        ({
            let begun = start_begun(m, name, dir, home, token)->Ok_0;
            let first = start_advanced(begun, StartEventV::EndpointReady(endpoint));
            let second = start_advanced(first.0, StartEventV::Registered(agent));
            let third = start_advanced(second.0, StartEventV::Spawned { port });
            let fourth = start_advanced(third.0, StartEventV::Published);
            &&& start_begun(m, name, dir, home, token) is Ok
            &&& begun.name == (match name {
                Some(n) => n,
                None => "Local OpenCode"@,
            })
            &&& dir matches Some(d) ==> begun.working_dir == d
            &&& dir is None && home is Some ==> Some(begun.working_dir) == home
            &&& first.1 == (StartActionV::Register { name: begun.name, plugin_token: token })
            &&& second.1 == (StartActionV::Spawn {
                config: json_text(config_v(endpoint, token)),
                data_dir: seq![root, "local-opencode"@, agent],
            })
            &&& third.1 == (StartActionV::Publish { agent_id: agent, port })
            &&& fourth.1 is Keep
            &&& start_advanced(begun, StartEventV::EndpointFailed(why)).1 == (StartActionV::Fail { why })
            &&& start_advanced(first.0, StartEventV::RegisterFailed(why)).1 == (StartActionV::Fail { why })
            &&& start_advanced(second.0, StartEventV::SpawnFailed(why)).1 == (StartActionV::Undo {
                stop: false,
                agent_id: agent,
                why,
            })
            &&& start_advanced(third.0, StartEventV::PublishFailed(why)).1 == (StartActionV::Undo {
                stop: true,
                agent_id: agent,
                why,
            })
        }),
{
    let begun = start_begun(m, name, dir, home, token)->Ok_0;
    let first = start_advanced(begun, StartEventV::EndpointReady(endpoint));
    let second = start_advanced(first.0, StartEventV::Registered(agent));
    assert(crate::local_opencode::start_dir(second.0) =~= seq![root, "local-opencode"@, agent]);
}

/// A server is kept once under its id: it takes the place of what was kept, and no other
/// is touched.
pub proof fn servers_are_kept_under_their_ids(instances: Seq<OpenCodeInstanceV>, i: OpenCodeInstanceV, k: int)
    ensures
        kept(instances, i).contains(i),
        (forall|j: int| 0 <= j < instances.len() ==> (#[trigger] instances[j]).id != i.id) ==> kept(instances, i)
            == instances.push(i),
        0 <= k < instances.len() && instances[k].id != i.id ==> kept(instances, i)[k] == instances[k],
        0 <= k < instances.len() && instances[k].id == i.id ==> kept(instances, i).len() == instances.len(),
{
    lemma_place(instances, i.id);
    match place_of(instances, i.id) {
        Some(p) => {
            assert(kept(instances, i)[p] == i);
        },
        None => {
            assert(kept(instances, i)[instances.len() as int] == i);
        },
    }
}

proof fn lemma_place(instances: Seq<OpenCodeInstanceV>, id: Seq<char>)
    ensures
        match place_of(instances, id) {
            Some(p) => 0 <= p < instances.len() && instances[p].id == id,
            None => forall|j: int| 0 <= j < instances.len() ==> (#[trigger] instances[j]).id != id,
        },
    decreases instances.len(),
{
    if instances.len() > 0 && instances.last().id != id {
        lemma_place(instances.drop_last(), id);
        if place_of(instances, id) is None {
            assert forall|j: int| 0 <= j < instances.len() implies (#[trigger] instances[j]).id != id by {
                if j < instances.len() - 1 {
                    assert(instances.drop_last()[j].id != id);
                }
            }
        }
    }
}

/// A server is started again with its own token at the endpoint, at most three times in
/// five minutes, and no other server is touched; an unknown one is reported by its id.
pub proof fn servers_are_started_again(
    m: LocalOpenCodeManagerV,
    k: int,
    url: Seq<char>,
    now: u64,
    other: Seq<char>,
)
    requires
        m.has_repo,
        0 <= k < m.instances.len(),
        forall|j: int| 0 <= j < m.instances.len() && j != k ==> (#[trigger] m.instances[j]).id != m.instances[k].id,
        forall|j: int| 0 <= j < m.instances.len() ==> (#[trigger] m.instances[j]).id != other,
    ensures
        ({
            let i = m.instances[k];
            let fresh = i.restart_count < 3 || now - i.restart_window_start > 300000;
            let (after, r) = restart_begun(m, i.id, Ok(url), now);
            &&& fresh ==> r == Ok::<Seq<char>, Seq<char>>(json_text(config_v(url, i.plugin_token)))
            &&& fresh ==> after.instances[k].status == LocalOpenCodeStatus::Stopped && after.instances[k].pid is None
            &&& !fresh ==> r is Err && after == m
            &&& after.instances.len() == m.instances.len()
            &&& after.instances[k].id == i.id
            &&& forall|j: int|
                0 <= j < m.instances.len() && j != k ==> #[trigger] after.instances[j] == m.instances[j]
            &&& restart_begun(m, other, Ok(url), now) == (
                m,
                Err::<Seq<char>, Seq<char>>("instance '"@ + other + "' not found"@),
            )
        }),
{
    let i = m.instances[k];
    lemma_place(m.instances, i.id);
    lemma_place(m.instances, other);
    assert(place_of(m.instances, i.id) == Some(k));
    assert(m.instances.update(k, i) =~= m.instances);
}

/// What is told of the servers that run is what they are, and those that are up are
/// those whose agents are ended with the rest.
pub proof fn running_servers_are_told(instances: Seq<OpenCodeInstanceV>, i: OpenCodeInstanceV, port: u16)
    ensures
        summary_v(i, port).id == i.id,
        summary_v(i, port).name == i.name,
        summary_v(i, port).port == port,
        summary_v(i, port).status == i.status,
        summary_v(i, port).pid == i.pid,
        summary_v(i, port).agent_id == i.agent_id,
        summary_v(i, port).working_dir == i.working_dir,
        summary_v(i, port).created_at == i.created_at,
        agents_up(Seq::empty()).len() == 0,
        i.status == LocalOpenCodeStatus::Running || i.status == LocalOpenCodeStatus::Starting ==> agents_up(
            instances.push(i),
        ) == agents_up(instances).push(i.agent_id),
        i.status == LocalOpenCodeStatus::Stopped || i.status == LocalOpenCodeStatus::Crashed ==> agents_up(
            instances.push(i),
        ) == agents_up(instances),
{
    assert(instances.push(i).drop_last() =~= instances);
}

// ---- What is asked and sent ----

/// What is asked of a server about the project names the directory where the tools run
/// there, and nothing where they run here; other protocols have no such feature.
pub proof fn projects_are_asked_for_by_their_directory(m: RemoteAgentManagerV, feature: Seq<char>, path: Seq<char>)
    ensures
        m.remote_config.is_opencode() && !m.remote_config.server_tools() ==> (m.on_project(feature, path) matches Ok(
            q,
        ) && q.method == HttpMethod::Get && q.url == m.base_url() + path && q.auth == m.remote_config.auth_header()
            && q.body is None),
        m.remote_config.is_opencode() && m.remote_config.server_tools() && trimmed(m.workspace).len() > 0 ==> (
        m.on_project(feature, path) matches Ok(q) && q.url == crate::config::with_param(
            m.base_url() + path,
            "directory"@,
            trimmed(m.workspace),
        )),
        !m.remote_config.is_opencode() ==> m.on_project(feature, path) == Err::<crate::http::HttpRequestV, AppErrorV>(
            AppErrorV::BadRequest(feature + " is only available for OpenCode remote connections"@),
        ),
{
    crate::text::trimming_twice_is_trimming(m.workspace);
}

/// The mode of the next prompts is the one that was selected, and building before that.
pub proof fn the_selected_mode_is_told(m: RemoteAgentManagerV, available: Seq<AgentModeOptionV>, mode: Seq<char>)
    ensures
        m.state.desired_agent == Some(mode) ==> m.current_mode(available).mode == mode && m.current_mode(
            available,
        ).initialized,
        m.state.desired_agent is None ==> m.current_mode(available).mode == "build"@ && !m.current_mode(
            available,
        ).initialized,
        m.current_mode(available).available_modes == Some(available),
{
}

/// The first prompt over a WebSocket begins a session for the conversation; the later
/// ones are messages of the session. Each carries its words and its id.
pub proof fn prompts_carry_their_words(
    m: RemoteAgentManagerV,
    content: Seq<char>,
    msg_id: Seq<char>,
    files: Seq<Seq<char>>,
    key: Seq<char>,
)
    requires
        m.state.session_key == Some(key),
        files.len() > 0,
    ensures
        m.ws_prompt(true, content, msg_id, files).field_text("type"@) == Some("sessionsReset"@),
        m.ws_prompt(true, content, msg_id, files).field("data"@) matches Some(d) && d.field_text("conversationId"@)
            == Some(m.conversation_id) && d.field_text("message"@) == Some(content) && d.field_text("msgId"@)
            == Some(msg_id),
        m.ws_prompt(false, content, msg_id, files).field_text("type"@) == Some("sendMessage"@),
        m.ws_prompt(false, content, msg_id, files).field("data"@) matches Some(d) && d.field_text("message"@)
            == Some(content) && d.field_text("msgId"@) == Some(msg_id) && d.field_text("sessionKey"@) == Some(key)
            && d.field("files"@) == Some(strings_v(files)),
{
    reveal_strlit("type");
    reveal_strlit("data");
    reveal_strlit("conversationId");
    reveal_strlit("message");
    reveal_strlit("msgId");
    reveal_strlit("sessionKey");
    reveal_strlit("files");
    assert("type"@[0] == 't' && "data"@[0] == 'd');
    assert("conversationId"@.len() == 14 && "message"@.len() == 7 && "msgId"@.len() == 5 && "sessionKey"@.len() == 10
        && "files"@.len() == 5);
    assert("msgId"@[0] == 'm' && "files"@[0] == 'f');
    let a = m.ws_prompt(true, content, msg_id, files)->Object_0;
    lemma_two(a[0], a[1]);
    assert(a =~= fields().push(a[0]).push(a[1]));
    let d = a[1].1->Object_0;
    crate::tool_laws::lemma_three(d[0], d[1], d[2]);
    assert(d =~= fields().push(d[0]).push(d[1]).push(d[2]));
    let b = m.ws_prompt(false, content, msg_id, files)->Object_0;
    lemma_two(b[0], b[1]);
    assert(b =~= fields().push(b[0]).push(b[1]));
    let e = b[1].1->Object_0;
    let e3 = fields().push(e[0]).push(e[1]).push(e[2]);
    crate::tool_laws::lemma_three(e[0], e[1], e[2]);
    lemma_lookup_push(e3, e[3], "message"@);
    lemma_lookup_push(e3, e[3], "msgId"@);
    lemma_lookup_push(e3, e[3], "sessionKey"@);
    lemma_lookup_push(e3, e[3], "files"@);
    assert(e =~= e3.push(e[3]));
}

/// A session is noted among what is kept of a conversation, and nothing else of it
/// changes.
pub proof fn a_session_is_noted_beside_the_rest(
    extra: Seq<(Seq<char>, JsonV)>,
    key: Seq<char>,
    other: Seq<char>,
)
    requires
        JsonV::Object(extra).field_text("sessionKey"@) != Some(key),
        other != "sessionKey"@,
    ensures
        session_noted(JsonV::Object(extra), key) matches Some(noted) && noted.field_text("sessionKey"@) == Some(key)
            && noted.field(other) == JsonV::Object(extra).field(other) && session_noted(noted, key) is None,
{
    crate::json::field_reads_back(extra, "sessionKey"@, JsonV::Str(key), other);
}

/// What followed is asked for by the sessions that are known and how far each is known.
pub proof fn history_is_asked_for_by_session(known: Seq<(Seq<char>, u64)>, i: int)
    requires
        0 <= i < known.len(),
    ensures
        history_json(known) matches JsonV::Object(o) && o.len() == known.len() && o[i] == (
            known[i].0,
            JsonV::Number(NumberV::Unsigned(known[i].1)),
        ),
{
}

/// A listing that cannot be made is told with what failed.
pub proof fn failed_listings_are_told(rel: Seq<char>, e: Seq<char>)
    ensures
        listing_of(rel, Err(ListFailureV::Entries(e))) == Err::<Seq<char>, Seq<char>>("readdir failed: "@ + e),
        listing_of(rel, Err(ListFailureV::Kind(e))) == Err::<Seq<char>, Seq<char>>("file_type failed: "@ + e),
        forall|entries: Seq<ListEntryV>| (#[trigger] listing_of(rel, Ok(entries))) is Ok,
{
}

/// The faults of a call are numbered as the protocol numbers them.
pub proof fn faults_have_their_numbers()
    ensures
        RpcFault::MethodNotFound.number() == -32601,
        RpcFault::InvalidParams.number() == -32602,
        RpcFault::Internal.number() == -32603,
{
}

} // verus!

//! Catalogs that a server offers: models, agents and skills.
use vstd::prelude::*;

use crate::collections::{distinct, set_add, set_has};
use crate::events::{field_truth, get_bool, str_or, text_or};
use crate::json::{entries, trees, Json, JsonV};
use crate::text::{cat3, cat4, str_eq};
use crate::types::{copy_opt, own_opt};

verus! {

/// A model that can be picked.
#[derive(Debug, PartialEq, Eq)]
pub struct ModelInfoEntry {
    pub id: String,
    pub label: String,
}

/// Model of [`ModelInfoEntry`].
pub struct ModelInfoEntryV {
    pub id: Seq<char>,
    pub label: Seq<char>,
}

impl View for ModelInfoEntry {
    type V = ModelInfoEntryV;

    open spec fn view(&self) -> ModelInfoEntryV {
        ModelInfoEntryV {
            id: self.id.deep_view(),
            label: self.label.deep_view(),
        }
    }
}

impl DeepView for ModelInfoEntry {
    type V = ModelInfoEntryV;

    open spec fn deep_view(&self) -> ModelInfoEntryV {
        self@
    }
}

impl ModelInfoEntry {
    /// An equal value.
    pub fn copy(&self) -> (r: ModelInfoEntry)
        ensures
            r@ == self@,
    {
        ModelInfoEntry {
            id: self.id.clone(),
            label: self.label.clone(),
        }
    }
}

/// Equal values, in the same order.
pub fn copy_model_info_entrys(v: &Vec<ModelInfoEntry>) -> (r: Vec<ModelInfoEntry>)
    ensures
        r.deep_view() == v.deep_view(),
{
    let mut out: Vec<ModelInfoEntry> = Vec::new();
    let mut i: usize = 0;
    while i < v.len()
        invariant
            i <= v.len(),
            out.len() == i,
            forall|k: int| 0 <= k < i ==> (#[trigger] out@[k]).deep_view() == v@[k].deep_view(),
        decreases v.len() - i,
    {
        out.push(v[i].copy());
        i += 1;
    }
    assert(out.deep_view() =~= v.deep_view());
    out
}

/// The model in use and those that can be picked.
#[derive(Debug, PartialEq, Eq)]
pub struct ModelInfoPayload {
    pub current_model_id: Option<String>,
    pub current_model_label: Option<String>,
    pub available_models: Vec<ModelInfoEntry>,
}

/// Model of [`ModelInfoPayload`].
pub struct ModelInfoPayloadV {
    pub current_model_id: Option<Seq<char>>,
    pub current_model_label: Option<Seq<char>>,
    pub available_models: Seq<ModelInfoEntryV>,
}

impl View for ModelInfoPayload {
    type V = ModelInfoPayloadV;

    open spec fn view(&self) -> ModelInfoPayloadV {
        ModelInfoPayloadV {
            current_model_id: self.current_model_id.deep_view(),
            current_model_label: self.current_model_label.deep_view(),
            available_models: self.available_models.deep_view(),
        }
    }
}

impl DeepView for ModelInfoPayload {
    type V = ModelInfoPayloadV;

    open spec fn deep_view(&self) -> ModelInfoPayloadV {
        self@
    }
}

impl ModelInfoPayload {
    /// An equal value.
    pub fn copy(&self) -> (r: ModelInfoPayload)
        ensures
            r@ == self@,
    {
        ModelInfoPayload {
            current_model_id: copy_opt(&self.current_model_id),
            current_model_label: copy_opt(&self.current_model_label),
            available_models: copy_model_info_entrys(&self.available_models),
        }
    }
}

/// An agent that can be picked as a session's mode.
#[derive(Debug, PartialEq, Eq)]
pub struct AgentModeOption {
    pub id: String,
    pub name: Option<String>,
    pub description: Option<String>,
}

/// Model of [`AgentModeOption`].
pub struct AgentModeOptionV {
    pub id: Seq<char>,
    pub name: Option<Seq<char>>,
    pub description: Option<Seq<char>>,
}

impl View for AgentModeOption {
    type V = AgentModeOptionV;

    open spec fn view(&self) -> AgentModeOptionV {
        AgentModeOptionV {
            id: self.id.deep_view(),
            name: self.name.deep_view(),
            description: self.description.deep_view(),
        }
    }
}

impl DeepView for AgentModeOption {
    type V = AgentModeOptionV;

    open spec fn deep_view(&self) -> AgentModeOptionV {
        self@
    }
}

/// The mode of a session.
#[derive(Debug, PartialEq, Eq)]
pub struct AgentModeResponse {
    pub mode: String,
    /// Whether it was ever selected.
    pub initialized: bool,
    /// The modes that there are; `None` where the agent has none to choose from.
    pub available_modes: Option<Vec<AgentModeOption>>,
}

/// Model of [`AgentModeResponse`].
pub struct AgentModeResponseV {
    pub mode: Seq<char>,
    pub initialized: bool,
    pub available_modes: Option<Seq<AgentModeOptionV>>,
}

impl View for AgentModeResponse {
    type V = AgentModeResponseV;

    open spec fn view(&self) -> AgentModeResponseV {
        AgentModeResponseV {
            mode: self.mode.deep_view(),
            initialized: self.initialized.deep_view(),
            available_modes: self.available_modes.deep_view(),
        }
    }
}

impl DeepView for AgentModeResponse {
    type V = AgentModeResponseV;

    open spec fn deep_view(&self) -> AgentModeResponseV {
        self@
    }
}

impl AgentModeOption {
    /// An equal value.
    pub fn copy(&self) -> (r: AgentModeOption)
        ensures
            r@ == self@,
    {
        AgentModeOption {
            id: self.id.clone(),
            name: copy_opt(&self.name),
            description: copy_opt(&self.description),
        }
    }
}

/// Equal values, in the same order.
pub fn copy_agent_mode_options(v: &Vec<AgentModeOption>) -> (r: Vec<AgentModeOption>)
    ensures
        r.deep_view() == v.deep_view(),
{
    let mut out: Vec<AgentModeOption> = Vec::new();
    let mut i: usize = 0;
    while i < v.len()
        invariant
            i <= v.len(),
            out.len() == i,
            forall|k: int| 0 <= k < i ==> (#[trigger] out@[k]).deep_view() == v@[k].deep_view(),
        decreases v.len() - i,
    {
        out.push(v[i].copy());
        i += 1;
    }
    assert(out.deep_view() =~= v.deep_view());
    out
}

/// A skill that the server offers.
#[derive(Debug, PartialEq, Eq)]
pub struct RemoteSkillInfo {
    pub name: String,
    pub description: Option<String>,
}

/// Model of [`RemoteSkillInfo`].
pub struct RemoteSkillInfoV {
    pub name: Seq<char>,
    pub description: Option<Seq<char>>,
}

impl View for RemoteSkillInfo {
    type V = RemoteSkillInfoV;

    open spec fn view(&self) -> RemoteSkillInfoV {
        RemoteSkillInfoV {
            name: self.name.deep_view(),
            description: self.description.deep_view(),
        }
    }
}

impl DeepView for RemoteSkillInfo {
    type V = RemoteSkillInfoV;

    open spec fn deep_view(&self) -> RemoteSkillInfoV {
        self@
    }
}

impl RemoteSkillInfo {
    /// An equal value.
    pub fn copy(&self) -> (r: RemoteSkillInfo)
        ensures
            r@ == self@,
    {
        RemoteSkillInfo {
            name: self.name.clone(),
            description: copy_opt(&self.description),
        }
    }
}

/// Equal values, in the same order.
pub fn copy_remote_skill_infos(v: &Vec<RemoteSkillInfo>) -> (r: Vec<RemoteSkillInfo>)
    ensures
        r.deep_view() == v.deep_view(),
{
    let mut out: Vec<RemoteSkillInfo> = Vec::new();
    let mut i: usize = 0;
    while i < v.len()
        invariant
            i <= v.len(),
            out.len() == i,
            forall|k: int| 0 <= k < i ==> (#[trigger] out@[k]).deep_view() == v@[k].deep_view(),
        decreases v.len() - i,
    {
        out.push(v[i].copy());
        i += 1;
    }
    assert(out.deep_view() =~= v.deep_view());
    out
}

/// The texts of a list, without what is no text.
pub open spec fn texts_of(a: Seq<JsonV>) -> Seq<Seq<char>>
    decreases a.len(),
{
    if a.len() == 0 {
        Seq::empty()
    } else {
        match a.last().text() {
            Some(t) => texts_of(a.drop_last()).push(t),
            None => texts_of(a.drop_last()),
        }
    }
}

/// The texts of a list.
pub fn collect_texts(a: &Vec<Json>) -> (r: Vec<String>)
    ensures
        r.deep_view() == texts_of(trees(a@)),
{
    let ghost av = trees(a@);
    let mut out: Vec<String> = Vec::new();
    let mut i: usize = 0;
    proof {
        assert(av.take(0) =~= Seq::<JsonV>::empty());
        assert(out.deep_view() =~= Seq::<Seq<char>>::empty());
    }
    while i < a.len()
        invariant
            i <= a.len(),
            av == trees(a@),
            out.deep_view() == texts_of(av.take(i as int)),
        decreases a.len() - i,
    {
        let ghost ov = out.deep_view();
        assert(av.take(i as int + 1).drop_last() =~= av.take(i as int));
        assert(av.take(i as int + 1).last() == a@[i as int]@);
        match a[i].as_str() {
            Some(t) => {
                out.push(t.to_owned());
                assert(out.deep_view() =~= ov.push(t@));
            },
            None => {},
        }
        i += 1;
    }
    assert(av.take(av.len() as int) =~= av);
    out
}

/// The texts of the list under a key; none where there is no list.
pub open spec fn field_texts(v: JsonV, key: Seq<char>) -> Seq<Seq<char>> {
    match v.field_items(key) {
        Some(a) => texts_of(a),
        None => Seq::empty(),
    }
}

/// The texts of the list under a key.
pub fn get_texts(v: &Json, key: &str) -> (r: Vec<String>)
    ensures
        r.deep_view() == field_texts(v@, key@),
{
    match v.get_array(key) {
        Some(a) => collect_texts(a),
        None => {
            let none: Vec<String> = Vec::new();
            assert(none.deep_view() =~= Seq::<Seq<char>>::empty());
            none
        },
    }
}

/// The entry for one model of a provider.
pub open spec fn model_entry(provider: Seq<char>, model: (Seq<char>, JsonV)) -> ModelInfoEntryV {
    ModelInfoEntryV {
        id: provider + "::"@ + model.0,
        label: "["@ + provider + "] "@ + text_or(model.1.field_text("name"@), model.0),
    }
}

/// The entries for the models of a provider.
pub open spec fn model_entries(provider: Seq<char>, models: Seq<(Seq<char>, JsonV)>) -> Seq<
    ModelInfoEntryV,
> {
    models.map_values(|m: (Seq<char>, JsonV)| model_entry(provider, m))
}

/// The entries that one provider of a catalog adds.
pub open spec fn provider_entries(provider: JsonV, connected: Seq<Seq<char>>, all_if_none: bool) -> Seq<
    ModelInfoEntryV,
> {
    match (provider.field_text("id"@), provider.field("models"@)) {
        (Some(id), Some(JsonV::Object(models))) => if connected.contains(id) || (all_if_none
            && connected.len() == 0) {
            model_entries(id, models)
        } else {
            Seq::empty()
        },
        _ => Seq::empty(),
    }
}

/// The entries that the providers of a catalog add, in order.
pub open spec fn providers_entries(
    providers: Seq<JsonV>,
    connected: Seq<Seq<char>>,
    all_if_none: bool,
) -> Seq<ModelInfoEntryV>
    decreases providers.len(),
{
    if providers.len() == 0 {
        Seq::empty()
    } else {
        providers_entries(providers.drop_last(), connected, all_if_none) + provider_entries(
            providers.last(),
            connected,
            all_if_none,
        )
    }
}

/// The models of a provider catalog. Providers that are not connected are left
/// out; where none is connected, all are shown if `all_if_none`, else none.
pub open spec fn catalog_models(body: JsonV, all_if_none: bool) -> Seq<ModelInfoEntryV> {
    match body.field_items("all"@) {
        Some(all) => providers_entries(all, field_texts(body, "connected"@), all_if_none),
        None => Seq::empty(),
    }
}

fn push_provider(
    out: &mut Vec<ModelInfoEntry>,
    provider: &Json,
    connected: &Vec<String>,
    all_if_none: bool,
)
    ensures
        final(out).deep_view() == old(out).deep_view() + provider_entries(
            provider@,
            connected.deep_view(),
            all_if_none,
        ),
{
    let ghost before = out.deep_view();
    let ghost none = Seq::<ModelInfoEntryV>::empty();
    let id = match provider.get_str("id") {
        Some(id) => id,
        None => {
            assert(before + none =~= before);
            return;
        },
    };
    if !(set_has(connected, id) || (all_if_none && connected.len() == 0)) {
        assert(before + none =~= before);
        return;
    }
    let models = match provider.get("models") {
        Some(m) => m.as_object(),
        None => None,
    };
    match models {
        Some(o) => {
            let ghost ov = entries(o@);
            let mut i: usize = 0;
            assert(before + model_entries(id@, ov.take(0)) =~= before);
            while i < o.len()
                invariant
                    i <= o.len(),
                    ov == entries(o@),
                    out.deep_view() == before + model_entries(id@, ov.take(i as int)),
                decreases o.len() - i,
            {
                let ghost ob = out.deep_view();
                let name = str_or(o[i].1.get_str("name"), o[i].0.as_str());
                let entry = ModelInfoEntry {
                    id: cat3(id, "::", o[i].0.as_str()),
                    label: cat4("[", id, "] ", name),
                };
                assert(entry@ == model_entry(id@, ov[i as int]));
                out.push(entry);
                proof {
                    assert(out.deep_view() =~= ob.push(model_entry(id@, ov[i as int])));
                    assert(model_entries(id@, ov.take(i as int + 1)) =~= model_entries(
                        id@,
                        ov.take(i as int),
                    ).push(model_entry(id@, ov[i as int])));
                }
                i += 1;
            }
            assert(ov.take(ov.len() as int) =~= ov);
        },
        None => {
            assert(before + none =~= before);
        },
    }
}

fn list_models(body: &Json, all_if_none: bool) -> (r: Vec<ModelInfoEntry>)
    ensures
        r.deep_view() == catalog_models(body@, all_if_none),
{
    let connected = get_texts(body, "connected");
    let mut out: Vec<ModelInfoEntry> = Vec::new();
    assert(out.deep_view() =~= Seq::<ModelInfoEntryV>::empty());
    match body.get_array("all") {
        Some(all) => {
            let ghost av = trees(all@);
            let ghost cv = connected.deep_view();
            let mut i: usize = 0;
            assert(av.take(0) =~= Seq::<JsonV>::empty());
            while i < all.len()
                invariant
                    i <= all.len(),
                    av == trees(all@),
                    cv == connected.deep_view(),
                    out.deep_view() == providers_entries(av.take(i as int), cv, all_if_none),
                decreases all.len() - i,
            {
                proof {
                    assert(av.take(i as int + 1).drop_last() =~= av.take(i as int));
                    assert(av.take(i as int + 1).last() == all@[i as int]@);
                }
                push_provider(&mut out, &all[i], &connected, all_if_none);
                i += 1;
            }
            assert(av.take(av.len() as int) =~= av);
        },
        None => {},
    }
    out
}

/// The models of a provider catalog: those of connected providers, or all of them
/// where the server reports no connected provider.
pub fn parse_provider_model_entries(body: &Json) -> (r: Vec<ModelInfoEntry>)
    ensures
        r.deep_view() == catalog_models(body@, true),
{
    list_models(body, true)
}

/// The models that a conversation can switch to: those of connected providers.
pub fn selectable_models(body: &Json) -> (r: Vec<ModelInfoEntry>)
    ensures
        r.deep_view() == catalog_models(body@, false),
{
    list_models(body, false)
}

/// The context window that a model's entry states, where it is positive.
pub open spec fn context_of(model: JsonV) -> Option<u64> {
    match model.field("limit"@) {
        Some(l) => match l.field("context"@) {
            Some(c) => match c.unsigned() {
                Some(n) => if n > 0 {
                    Some(n)
                } else {
                    None
                },
                None => None,
            },
            None => None,
        },
        None => None,
    }
}

/// The map from model id to context window after one more model.
pub open spec fn with_limit(m: Seq<(Seq<char>, u64)>, model: (Seq<char>, JsonV)) -> Seq<
    (Seq<char>, u64),
> {
    match context_of(model.1) {
        Some(n) => crate::collections::with_entry(m, model.0, n),
        None => m,
    }
}

/// The map after the models of an object.
pub open spec fn with_limits(m: Seq<(Seq<char>, u64)>, models: Seq<(Seq<char>, JsonV)>) -> Seq<
    (Seq<char>, u64),
>
    decreases models.len(),
{
    if models.len() == 0 {
        m
    } else {
        with_limit(with_limits(m, models.drop_last()), models.last())
    }
}

/// The map after the providers of a list.
pub open spec fn limits_of(providers: Seq<JsonV>) -> Seq<(Seq<char>, u64)>
    decreases providers.len(),
{
    if providers.len() == 0 {
        Seq::empty()
    } else {
        let before = limits_of(providers.drop_last());
        match providers.last().field("models"@) {
            Some(JsonV::Object(models)) => with_limits(before, models),
            _ => before,
        }
    }
}

/// The context windows that a provider configuration states.
pub open spec fn context_limits_of(body: JsonV) -> Seq<(Seq<char>, u64)> {
    match body.field_items("providers"@) {
        Some(p) => limits_of(p),
        None => Seq::empty(),
    }
}

fn put_limit(m: &mut Vec<(String, u64)>, key: &str, n: u64)
    ensures
        final(m).deep_view() == crate::collections::with_entry(old(m).deep_view(), key@, n),
{
    let ghost mv = m.deep_view();
    let ghost p = crate::collections::other_key::<u64>(key@);
    let mut out: Vec<(String, u64)> = Vec::new();
    let mut i: usize = 0;
    proof {
        crate::collections::filter_start(mv, p);
        assert(out.deep_view() =~= Seq::<(Seq<char>, u64)>::empty());
    }
    while i < m.len()
        invariant
            i <= m.len(),
            mv == m.deep_view(),
            p == crate::collections::other_key::<u64>(key@),
            out.deep_view() == mv.take(i as int).filter(p),
        decreases m.len() - i,
    {
        let ghost ov = out.deep_view();
        proof {
            crate::collections::filter_step(mv, i as int, p);
        }
        if !str_eq(m[i].0.as_str(), key) {
            out.push((m[i].0.clone(), m[i].1));
            assert(out.deep_view() =~= ov.push(mv[i as int]));
        }
        i += 1;
    }
    assert(mv.take(mv.len() as int) =~= mv);
    let ghost ov = out.deep_view();
    out.push((key.to_owned(), n));
    assert(out.deep_view() =~= ov.push((key@, n)));
    *m = out;
}

fn context_window(model: &Json) -> (r: Option<u64>)
    ensures
        r == context_of(model@),
{
    match model.get("limit") {
        Some(l) => match l.get("context") {
            Some(c) => match c.as_u64() {
                Some(n) => if n > 0 {
                    Some(n)
                } else {
                    None
                },
                None => None,
            },
            None => None,
        },
        None => None,
    }
}

/// Reads the context windows out of a provider configuration. Models without a
/// positive window are left out.
pub fn parse_context_limits(body: &Json) -> (r: Vec<(String, u64)>)
    ensures
        r.deep_view() == context_limits_of(body@),
{
    let mut out: Vec<(String, u64)> = Vec::new();
    assert(out.deep_view() =~= Seq::<(Seq<char>, u64)>::empty());
    match body.get_array("providers") {
        Some(providers) => {
            let ghost pv = trees(providers@);
            let mut i: usize = 0;
            assert(pv.take(0) =~= Seq::<JsonV>::empty());
            while i < providers.len()
                invariant
                    i <= providers.len(),
                    pv == trees(providers@),
                    out.deep_view() == limits_of(pv.take(i as int)),
                decreases providers.len() - i,
            {
                proof {
                    assert(pv.take(i as int + 1).drop_last() =~= pv.take(i as int));
                    assert(pv.take(i as int + 1).last() == providers@[i as int]@);
                }
                let models = match providers[i].get("models") {
                    Some(m) => m.as_object(),
                    None => None,
                };
                match models {
                    Some(o) => {
                        let ghost ov = entries(o@);
                        let ghost before = out.deep_view();
                        let mut j: usize = 0;
                        assert(ov.take(0) =~= Seq::<(Seq<char>, JsonV)>::empty());
                        while j < o.len()
                            invariant
                                j <= o.len(),
                                ov == entries(o@),
                                out.deep_view() == with_limits(before, ov.take(j as int)),
                            decreases o.len() - j,
                        {
                            proof {
                                assert(ov.take(j as int + 1).drop_last() =~= ov.take(j as int));
                                assert(ov.take(j as int + 1).last() == ov[j as int]);
                            }
                            match context_window(&o[j].1) {
                                Some(n) => {
                                    put_limit(&mut out, o[j].0.as_str(), n);
                                },
                                None => {},
                            }
                            j += 1;
                        }
                        assert(ov.take(ov.len() as int) =~= ov);
                    },
                    None => {},
                }
                i += 1;
            }
            assert(pv.take(pv.len() as int) =~= pv);
        },
        None => {},
    }
    out
}

/// The window of a model: `0` where it is unknown.
pub open spec fn limit_in(m: Seq<(Seq<char>, u64)>, model: Seq<char>) -> u64 {
    match crate::collections::assoc(m, model) {
        Some(n) => n,
        None => 0,
    }
}

/// The window of a model.
pub fn find_limit(m: &Vec<(String, u64)>, model: &str) -> (r: u64)
    ensures
        r == limit_in(m.deep_view(), model@),
{
    let ghost mv = m.deep_view();
    let mut i: usize = 0;
    assert(mv.skip(0) =~= mv);
    while i < m.len()
        invariant
            i <= m.len(),
            mv == m.deep_view(),
            crate::collections::assoc(mv, model@) == crate::collections::assoc(mv.skip(i as int), model@),
        decreases m.len() - i,
    {
        assert(mv.skip(i as int)[0] == mv[i as int]);
        if str_eq(m[i].0.as_str(), model) {
            return m[i].1;
        }
        assert(mv.skip(i as int).drop_first() =~= mv.skip(i as int + 1));
        i += 1;
    }
    0
}

/// The number under a key, `0` where there is none.
pub open spec fn count_at(v: JsonV, key: Seq<char>) -> nat {
    match v.field(key) {
        Some(x) => match x.unsigned() {
            Some(n) => n as nat,
            None => 0,
        },
        None => 0,
    }
}

/// The number under two nested keys, `0` where there is none.
pub open spec fn count_under(v: JsonV, outer: Seq<char>, key: Seq<char>) -> nat {
    match v.field(outer) {
        Some(x) => count_at(x, key),
        None => 0,
    }
}

/// The tokens that a message holds in the context window: prompt, answer and
/// reasoning, and what the cache read and wrote.
pub open spec fn tokens_used(tokens: JsonV) -> nat {
    count_at(tokens, "input"@) + count_at(tokens, "output"@) + count_at(tokens, "reasoning"@)
        + count_under(tokens, "cache"@, "read"@) + count_under(tokens, "cache"@, "write"@)
}

fn number_at(v: &Json, key: &str) -> (r: u64)
    ensures
        r == count_at(v@, key@),
{
    match v.get(key) {
        Some(x) => match x.as_u64() {
            Some(n) => n,
            None => 0,
        },
        None => 0,
    }
}

fn number_under(v: &Json, outer: &str, key: &str) -> (r: u64)
    ensures
        r == count_under(v@, outer@, key@),
{
    match v.get(outer) {
        Some(x) => number_at(x, key),
        None => 0,
    }
}

/// The tokens in the context window; `None` where the sum exceeds `u64`.
pub fn checked_tokens_used(tokens: &Json) -> (r: Option<u64>)
    ensures
        r == (if tokens_used(tokens@) <= u64::MAX {
            Some(tokens_used(tokens@) as u64)
        } else {
            None
        }),
{
    let total: u128 = number_at(tokens, "input") as u128 + number_at(tokens, "output") as u128
        + number_at(tokens, "reasoning") as u128 + number_under(tokens, "cache", "read") as u128
        + number_under(tokens, "cache", "write") as u128;
    if total <= u64::MAX as u128 {
        Some(total as u64)
    } else {
        None
    }
}

/// The tokens in the context window. The sum has to fit.
pub fn context_tokens_used(tokens: &Json) -> (r: u64)
    requires
        tokens_used(tokens@) <= u64::MAX,
    ensures
        r == tokens_used(tokens@),
{
    match checked_tokens_used(tokens) {
        Some(n) => n,
        None => 0,
    }
}

/// The agents that every server offers as modes.
pub open spec fn default_modes() -> Seq<AgentModeOptionV> {
    seq![
        AgentModeOptionV { id: "build"@, name: Some("Build"@), description: None },
        AgentModeOptionV { id: "plan"@, name: Some("Plan"@), description: None },
    ]
}

/// The agents that every server offers as modes.
pub fn default_opencode_agent_modes() -> (r: Vec<AgentModeOption>)
    ensures
        r.deep_view() == default_modes(),
{
    let mut out: Vec<AgentModeOption> = Vec::new();
    out.push(
        AgentModeOption {
            id: "build".to_owned(),
            name: Some("Build".to_owned()),
            description: None,
        },
    );
    out.push(
        AgentModeOption { id: "plan".to_owned(), name: Some("Plan".to_owned()), description: None },
    );
    assert(out.deep_view() =~= default_modes());
    out
}

/// The name under `name`, where there is one that is not empty.
pub open spec fn name_of(item: JsonV) -> Option<Seq<char>> {
    match item.field_text("name"@) {
        Some(n) => if n.len() > 0 {
            Some(n)
        } else {
            None
        },
        None => None,
    }
}

/// The mode that a catalog item stands for: none for a hidden agent, one that only
/// other agents call, or one without a name.
pub open spec fn mode_of(item: JsonV) -> Option<AgentModeOptionV> {
    if field_truth(item, "hidden"@) == Some(true) {
        None
    } else if item.field_text("mode"@) != Some("primary"@) && item.field_text("mode"@) != Some(
        "all"@,
    ) {
        None
    } else {
        match name_of(item) {
            Some(n) => Some(
                AgentModeOptionV {
                    id: n,
                    name: Some(n),
                    description: item.field_text("description"@),
                },
            ),
            None => None,
        }
    }
}

/// The ids of modes.
pub open spec fn mode_ids(m: Seq<AgentModeOptionV>) -> Seq<Seq<char>> {
    m.map_values(|x: AgentModeOptionV| x.id)
}

/// The modes after the items of a catalog; an id is taken once.
pub open spec fn modes_after(m: Seq<AgentModeOptionV>, items: Seq<JsonV>) -> Seq<AgentModeOptionV>
    decreases items.len(),
{
    if items.len() == 0 {
        m
    } else {
        let before = modes_after(m, items.drop_last());
        match mode_of(items.last()) {
            Some(x) => if mode_ids(before).contains(x.id) {
                before
            } else {
                before.push(x)
            },
            None => before,
        }
    }
}

/// The modes that a server's agent catalog offers besides the built-in ones.
pub open spec fn agent_modes_of(body: JsonV) -> Seq<AgentModeOptionV> {
    match body.items() {
        Some(items) => modes_after(default_modes(), items),
        None => default_modes(),
    }
}

/// No mode is offered twice.
pub proof fn modes_are_distinct(body: JsonV)
    ensures
        distinct(mode_ids(agent_modes_of(body))),
{
    reveal_strlit("build");
    reveal_strlit("plan");
    assert("build"@.len() != "plan"@.len());
    assert(distinct(mode_ids(default_modes()))) by {
        assert(mode_ids(default_modes())[0] == "build"@);
        assert(mode_ids(default_modes())[1] == "plan"@);
    }
    match body.items() {
        Some(items) => {
            lemma_modes_distinct(default_modes(), items);
        },
        None => {},
    }
}

proof fn lemma_modes_distinct(m: Seq<AgentModeOptionV>, items: Seq<JsonV>)
    requires
        distinct(mode_ids(m)),
    ensures
        distinct(mode_ids(modes_after(m, items))),
    decreases items.len(),
{
    if items.len() > 0 {
        let before = modes_after(m, items.drop_last());
        lemma_modes_distinct(m, items.drop_last());
        match mode_of(items.last()) {
            Some(x) => {
                if !mode_ids(before).contains(x.id) {
                    assert(mode_ids(before.push(x)) =~= mode_ids(before).push(x.id));
                }
            },
            None => {},
        }
    }
}

fn has_mode(m: &Vec<AgentModeOption>, id: &str) -> (r: bool)
    ensures
        r == mode_ids(m.deep_view()).contains(id@),
{
    let ghost ids = mode_ids(m.deep_view());
    let mut i: usize = 0;
    while i < m.len()
        invariant
            i <= m.len(),
            ids == mode_ids(m.deep_view()),
            forall|k: int| 0 <= k < i ==> ids[k] != id@,
        decreases m.len() - i,
    {
        assert(ids[i as int] == m@[i as int].id@);
        if str_eq(m[i].id.as_str(), id) {
            return true;
        }
        i += 1;
    }
    false
}

fn parse_mode(item: &Json) -> (r: Option<AgentModeOption>)
    ensures
        r.deep_view() == mode_of(item@),
{
    match get_bool(item, "hidden") {
        Some(b) => {
            if b {
                return None;
            }
        },
        None => {},
    }
    let primary = match item.get_str("mode") {
        Some(m) => str_eq(m, "primary") || str_eq(m, "all"),
        None => false,
    };
    if !primary {
        return None;
    }
    match item.get_str("name") {
        Some(n) => if n.is_empty() {
            None
        } else {
            Some(
                AgentModeOption {
                    id: n.to_owned(),
                    name: Some(n.to_owned()),
                    description: own_opt(item.get_str("description")),
                },
            )
        },
        None => None,
    }
}

/// Reads the modes out of a server's agent catalog.
pub fn parse_opencode_agent_modes(body: &Json) -> (r: Vec<AgentModeOption>)
    ensures
        r.deep_view() == agent_modes_of(body@),
{
    let mut out = default_opencode_agent_modes();
    match body.as_array() {
        Some(items) => {
            let ghost iv = trees(items@);
            let mut i: usize = 0;
            assert(iv.take(0) =~= Seq::<JsonV>::empty());
            while i < items.len()
                invariant
                    i <= items.len(),
                    iv == trees(items@),
                    out.deep_view() == modes_after(default_modes(), iv.take(i as int)),
                decreases items.len() - i,
            {
                let ghost before = out.deep_view();
                proof {
                    assert(iv.take(i as int + 1).drop_last() =~= iv.take(i as int));
                    assert(iv.take(i as int + 1).last() == items@[i as int]@);
                }
                match parse_mode(&items[i]) {
                    Some(x) => {
                        if !has_mode(&out, x.id.as_str()) {
                            out.push(x);
                            assert(out.deep_view() =~= before.push(x@));
                        }
                    },
                    None => {},
                }
                i += 1;
            }
            assert(iv.take(iv.len() as int) =~= iv);
        },
        None => {},
    }
    out
}

/// The names of skills.
pub open spec fn skill_names(m: Seq<RemoteSkillInfoV>) -> Seq<Seq<char>> {
    m.map_values(|x: RemoteSkillInfoV| x.name)
}

/// The skills that the items of a catalog stand for; a name is taken once, an
/// item without a name not at all.
pub open spec fn skills_of(items: Seq<JsonV>) -> Seq<RemoteSkillInfoV>
    decreases items.len(),
{
    if items.len() == 0 {
        Seq::empty()
    } else {
        let before = skills_of(items.drop_last());
        match name_of(items.last()) {
            Some(n) => if skill_names(before).contains(n) {
                before
            } else {
                before.push(
                    RemoteSkillInfoV {
                        name: n,
                        description: items.last().field_text("description"@),
                    },
                )
            },
            None => before,
        }
    }
}

/// Reads a server's skill catalog.
pub fn parse_opencode_skills(body: &Json) -> (r: Vec<RemoteSkillInfo>)
    ensures
        r.deep_view() == (match body@.items() {
            Some(items) => skills_of(items),
            None => Seq::empty(),
        }),
{
    let mut out: Vec<RemoteSkillInfo> = Vec::new();
    let mut seen: Vec<String> = Vec::new();
    assert(out.deep_view() =~= Seq::<RemoteSkillInfoV>::empty());
    match body.as_array() {
        Some(items) => {
            let ghost iv = trees(items@);
            let mut i: usize = 0;
            assert(iv.take(0) =~= Seq::<JsonV>::empty());
            assert(seen.deep_view() =~= skill_names(out.deep_view()));
            while i < items.len()
                invariant
                    i <= items.len(),
                    iv == trees(items@),
                    out.deep_view() == skills_of(iv.take(i as int)),
                    seen.deep_view() == skill_names(out.deep_view()),
                decreases items.len() - i,
            {
                let ghost before = out.deep_view();
                proof {
                    assert(iv.take(i as int + 1).drop_last() =~= iv.take(i as int));
                    assert(iv.take(i as int + 1).last() == items@[i as int]@);
                }
                match items[i].get_str("name") {
                    Some(n) => {
                        if !n.is_empty() {
                            if set_add(&mut seen, n) {
                                let skill = RemoteSkillInfo {
                                    name: n.to_owned(),
                                    description: own_opt(items[i].get_str("description")),
                                };
                                out.push(skill);
                                proof {
                                    assert(out.deep_view() =~= before.push(skill@));
                                    assert(skill_names(out.deep_view()) =~= skill_names(before).push(
                                        n@,
                                    ));
                                }
                            }
                        }
                    },
                    None => {},
                }
                i += 1;
            }
            assert(iv.take(iv.len() as int) =~= iv);
        },
        None => {},
    }
    out
}

/// The ids of the messages of a transcript, without what has none.
pub open spec fn message_ids(a: Seq<JsonV>) -> Seq<Seq<char>>
    decreases a.len(),
{
    if a.len() == 0 {
        Seq::empty()
    } else {
        match message_id_of(a.last()) {
            Some(id) => message_ids(a.drop_last()).push(id),
            None => message_ids(a.drop_last()),
        }
    }
}

/// The id of a message of a transcript.
pub open spec fn message_id_of(m: JsonV) -> Option<Seq<char>> {
    match m.field("info"@) {
        Some(i) => i.field_text("id"@),
        None => None,
    }
}

/// The element behind the first occurrence of `x`.
pub open spec fn successor(ids: Seq<Seq<char>>, x: Seq<char>) -> Option<Seq<char>>
    decreases ids.len(),
{
    if ids.len() == 0 {
        None
    } else if ids[0] == x {
        if ids.len() > 1 {
            Some(ids[1])
        } else {
            None
        }
    } else {
        successor(ids.drop_first(), x)
    }
}

/// The id of the message that follows `message_id` in a transcript; `None` where
/// it is the last one or is not there.
pub fn next_opencode_message_id(messages: &Json, message_id: &str) -> (r: Option<String>)
    ensures
        r.deep_view() == (match messages@.items() {
            Some(a) => successor(message_ids(a), message_id@),
            None => None,
        }),
{
    let a = match messages.as_array() {
        Some(a) => a,
        None => {
            return None;
        },
    };
    let ghost av = trees(a@);
    let mut ids: Vec<String> = Vec::new();
    let mut i: usize = 0;
    proof {
        assert(av.take(0) =~= Seq::<JsonV>::empty());
        assert(ids.deep_view() =~= Seq::<Seq<char>>::empty());
    }
    while i < a.len()
        invariant
            i <= a.len(),
            av == trees(a@),
            ids.deep_view() == message_ids(av.take(i as int)),
        decreases a.len() - i,
    {
        let ghost before = ids.deep_view();
        proof {
            assert(av.take(i as int + 1).drop_last() =~= av.take(i as int));
            assert(av.take(i as int + 1).last() == a@[i as int]@);
        }
        let id = match a[i].get("info") {
            Some(info) => info.get_str("id"),
            None => None,
        };
        match id {
            Some(id) => {
                ids.push(id.to_owned());
                assert(ids.deep_view() =~= before.push(id@));
            },
            None => {},
        }
        i += 1;
    }
    assert(av.take(av.len() as int) =~= av);
    let ghost iv = ids.deep_view();
    let mut k: usize = 0;
    assert(iv.skip(0) =~= iv);
    while k < ids.len()
        invariant
            k <= ids.len(),
            iv == ids.deep_view(),
            messages@.items() == Some(av),
            iv == message_ids(av),
            successor(iv, message_id@) == successor(iv.skip(k as int), message_id@),
        decreases ids.len() - k,
    {
        assert(iv.skip(k as int)[0] == iv[k as int]);
        if str_eq(ids[k].as_str(), message_id) {
            if k + 1 < ids.len() {
                assert(iv.skip(k as int)[1] == iv[k as int + 1]);
                return Some(ids[k + 1].clone());
            }
            return None;
        }
        assert(iv.skip(k as int).drop_first() =~= iv.skip(k as int + 1));
        k += 1;
    }
    None
}

/// The model info to show: the session's own where there is one.
pub fn merge_model_info(
    sdk_info: Option<ModelInfoPayload>,
    cc_switch_info: Option<ModelInfoPayload>,
) -> (r: Option<ModelInfoPayload>)
    ensures
        r == (if sdk_info is Some {
            sdk_info
        } else {
            cc_switch_info
        }),
{
    match sdk_info {
        Some(i) => Some(i),
        None => cc_switch_info,
    }
}

/// The label of the first entry with an id, or the id itself.
pub open spec fn label_in(available: Seq<ModelInfoEntryV>, id: Seq<char>) -> Seq<char>
    decreases available.len(),
{
    if available.len() == 0 {
        id
    } else if available[0].id == id {
        available[0].label
    } else {
        label_in(available.drop_first(), id)
    }
}

/// The model info of a session: the current model by its label, and all that are
/// available.
pub fn map_sdk_model_to_payload(current_id: String, available: Vec<ModelInfoEntry>) -> (r: ModelInfoPayload)
    ensures
        r@.current_model_id == Some(current_id@),
        r@.current_model_label == Some(label_in(available.deep_view(), current_id@)),
        r@.available_models == available.deep_view(),
{
    let ghost av = available.deep_view();
    let mut label = current_id.clone();
    let mut i: usize = 0;
    let mut found: bool = false;
    assert(av.skip(0) =~= av);
    while i < available.len() && !found
        invariant
            i <= available.len(),
            av == available.deep_view(),
            found ==> label@ == label_in(av, current_id@),
            !found ==> label@ == current_id@,
            !found ==> label_in(av, current_id@) == label_in(av.skip(i as int), current_id@),
        decreases available.len() - i,
    {
        proof {
            assert(av.skip(i as int)[0] == available@[i as int]@);
            assert(av.skip(i as int).drop_first() =~= av.skip(i as int + 1));
        }
        if str_eq(available[i].id.as_str(), current_id.as_str()) {
            label = available[i].label.clone();
            found = true;
        }
        i += 1;
    }
    ModelInfoPayload {
        current_model_id: Some(current_id),
        current_model_label: Some(label),
        available_models: available,
    }
}

} // verus!

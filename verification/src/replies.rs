//! The requests that carry an agent's answers to its server, and those that ask the
//! server for what it knows.
use vstd::prelude::*;

use crate::config::{
    auth, build_permission_reply_request, normalize_base_url,
};
use crate::http::{HttpMethod, HttpRequest, HttpRequestV};
use crate::json::{opt_tree, trees, Json, JsonV};
use crate::manager::{RemoteAgentManager, RemoteAgentManagerV};
use crate::question::{build_question_reject_url, build_question_reply_request, matrix_json};
use crate::send::{prompting, SendActionV, SendingV};
use crate::text::{cat, cat3, str_eq};
use crate::types::{copy_jsons, Effect, EffectV};

verus! {

impl RemoteAgentManagerV {
    /// A request that answers the server.
    pub open spec fn answer(self, path: Seq<char>, body: Option<JsonV>, timeout_secs: u64) -> HttpRequestV {
        self.request(HttpMethod::Post, path, body, timeout_secs)
    }

    /// The request that carries an answer to the server; none with another protocol.
    /// What the user did not refuse themselves is refused in less time.
    pub open spec fn reply(self, effect: EffectV) -> Option<HttpRequestV> {
        if !self.remote_config.is_opencode() {
            None
        } else {
            match effect {
                EffectV::ReplyPermission { request_id, reply, by_user, .. } => Some(
                    self.answer(
                        "/permission/"@ + request_id + "/reply"@,
                        Some(JsonV::Object(seq![("reply"@, JsonV::Str(reply))])),
                        if !by_user && reply == "reject"@ {
                            5
                        } else {
                            10
                        },
                    ),
                ),
                EffectV::ReplyQuestion { request_id, answers } => Some(
                    self.answer(
                        "/question/"@ + request_id + "/reply"@,
                        Some(JsonV::Object(seq![("answers"@, matrix_json(answers))])),
                        10,
                    ),
                ),
                EffectV::RejectQuestion { request_id } => Some(
                    self.answer("/question/"@ + request_id + "/reject"@, None, 10),
                ),
                _ => None,
            }
        }
    }
}

impl RemoteAgentManager {
    fn lookup(&self, path: &str, timeout_secs: u64) -> (r: HttpRequest)
        ensures
            r@ == self@.request(HttpMethod::Get, path@, None, timeout_secs),
    {
        let base = normalize_base_url(self.remote_config.url.as_str());
        HttpRequest {
            method: HttpMethod::Get,
            url: cat(base.as_str(), path),
            auth: auth(&self.remote_config),
            body: None,
            timeout_secs,
        }
    }

    fn post(&self, url: String, body: Option<Json>, timeout_secs: u64) -> (r: HttpRequest)
        ensures
            r@ == (HttpRequestV {
                method: HttpMethod::Post,
                url: url@,
                auth: self@.remote_config.auth_header(),
                body: body.deep_view(),
                timeout_secs,
            }),
    {
        HttpRequest {
            method: HttpMethod::Post,
            url,
            auth: auth(&self.remote_config),
            body,
            timeout_secs,
        }
    }

    /// The request that carries an answer to the server; `None` where the effect is no
    /// answer, or the server takes none.
    pub fn reply_request(&self, effect: &Effect) -> (r: Option<HttpRequest>)
        ensures
            r.deep_view() == self@.reply(effect@),
    {
        if !self.is_opencode() {
            return None;
        }
        let base = normalize_base_url(self.remote_config.url.as_str());
        let ghost root = self@.base_url();
        match effect {
            Effect::ReplyPermission { request_id, reply, by_user, .. } => {
                let (url, body) = build_permission_reply_request(
                    base.as_str(),
                    request_id.as_str(),
                    reply.as_str(),
                );
                assert(url@ =~= root + ("/permission/"@ + request_id@ + "/reply"@));
                let timeout_secs: u64 = if !*by_user && str_eq(reply.as_str(), "reject") {
                    5
                } else {
                    10
                };
                Some(self.post(url, Some(body), timeout_secs))
            },
            Effect::ReplyQuestion { request_id, answers } => {
                let (url, body) = build_question_reply_request(
                    base.as_str(),
                    request_id.as_str(),
                    answers,
                );
                assert(url@ =~= root + ("/question/"@ + request_id@ + "/reply"@));
                Some(self.post(url, Some(body), 10))
            },
            Effect::RejectQuestion { request_id } => {
                let url = build_question_reject_url(base.as_str(), request_id.as_str());
                assert(url@ =~= root + ("/question/"@ + request_id@ + "/reject"@));
                Some(self.post(url, None, 10))
            },
            _ => None,
        }
    }

    /// The request for the sub-agent sessions of a session.
    pub fn children_request(&self, parent_session_id: &str) -> (r: HttpRequest)
        ensures
            r@ == self@.request(
                HttpMethod::Get,
                "/session/"@ + parent_session_id@ + "/children"@,
                None,
                10,
            ),
    {
        let path = cat3("/session/", parent_session_id, "/children");
        self.lookup(path.as_str(), 10)
    }

    /// The request for the providers and their models.
    pub fn models_request(&self) -> (r: HttpRequest)
        ensures
            r@ == self@.request(HttpMethod::Get, "/provider"@, None, 10),
    {
        self.lookup("/provider", 10)
    }

    /// The request for the limits of the models.
    pub fn limits_request(&self) -> (r: HttpRequest)
        ensures
            r@ == self@.request(HttpMethod::Get, "/config/providers"@, None, 10),
    {
        self.lookup("/config/providers", 10)
    }

    /// The request for the modes.
    pub fn agents_request(&self) -> (r: HttpRequest)
        ensures
            r@ == self@.request(HttpMethod::Get, "/agent"@, None, 10),
    {
        self.lookup("/agent", 10)
    }

    /// The request for the skills.
    pub fn skills_request(&self) -> (r: HttpRequest)
        ensures
            r@ == self@.request(HttpMethod::Get, "/skill"@, None, 10),
    {
        self.lookup("/skill", 10)
    }
}

/// The sub-agent sessions in an answer; none where there is no answer, or it is no list.
pub fn fetch_child_sessions(answer: Option<&Json>) -> (r: Vec<Json>)
    ensures
        trees(r@) == (match opt_tree(answer) {
            Some(j) => match j.items() {
                Some(a) => a,
                None => Seq::empty(),
            },
            None => Seq::empty(),
        }),
{
    let none: Vec<Json> = Vec::new();
    assert(trees(none@) =~= Seq::<JsonV>::empty());
    match answer {
        Some(j) => match j.as_array() {
            Some(a) => {
                let out = copy_jsons(a);
                assert(trees(out@) =~= trees(a@)) by {
                    assert(out.deep_view() =~= a.deep_view());
                    assert forall|i: int| 0 <= i < a@.len() implies out@[i]@ == a@[i]@ by {
                        assert(out.deep_view()[i] == a.deep_view()[i]);
                    }
                }
                out
            },
            None => none,
        },
        None => none,
    }
}

/// Where an answer goes, under the server's address.
pub open spec fn answer_path(effect: EffectV) -> Seq<char> {
    match effect {
        EffectV::ReplyPermission { request_id, .. } => "/permission/"@ + request_id + "/reply"@,
        EffectV::ReplyQuestion { request_id, .. } => "/question/"@ + request_id + "/reply"@,
        EffectV::RejectQuestion { request_id } => "/question/"@ + request_id + "/reject"@,
        _ => Seq::empty(),
    }
}

/// An answer goes to the instance of the server that asked: it is addressed as the
/// prompt was that led to the request, with a path and without a directory, and shows
/// the same credentials.
pub proof fn answers_go_where_prompts_go(m: RemoteAgentManagerV, effect: EffectV, d: SendingV)
    requires
        m.reply(effect) is Some,
        m.state.opencode_session_id is Some,
    ensures
        m.reply(effect)->0.url == m.base_url() + answer_path(effect),
        prompting(m, d).actions.len() == 1,
        prompting(m, d).actions[0] matches SendActionV::Request(q) && q.url == m.base_url() + (
        "/session/"@ + m.state.opencode_session_id->0 + "/prompt_async"@) && q.auth == m.reply(
            effect,
        )->0.auth,
{
}

/// With another protocol no answer goes to the server.
pub proof fn other_protocols_get_no_answer(m: RemoteAgentManagerV, effect: EffectV)
    requires
        !m.remote_config.is_opencode(),
    ensures
        m.reply(effect) is None,
{
}

} // verus!

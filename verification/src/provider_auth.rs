//! Requests about the credentials that a remote server holds for its providers.
use vstd::prelude::*;

use crate::config::{auth, encode_query_value, encoded, normalize_base_url, RemoteAgentConfig, RemoteAgentConfigV};
use crate::http::{json_answer, read_json_answer, HttpMethod, HttpReply, HttpReplyV, HttpRequest, HttpRequestV};
use crate::json::{fields, opt_str, Json, JsonV, NumberV, Obj};
use crate::text::{cat, cat3, cat4};
use crate::types::{outcome, AppError, AppErrorV};

verus! {

/// The URL of a path on the server.
pub fn provider_url(base_url: &str, path: &str) -> (r: String)
    ensures
        r@ == base_url@ + path@,
{
    cat(base_url, path)
}

/// A request about credentials.
pub open spec fn about(
    cfg: RemoteAgentConfigV,
    method: HttpMethod,
    path: Seq<char>,
    body: Option<JsonV>,
    timeout_secs: u64,
) -> HttpRequestV {
    HttpRequestV { method, url: cfg.base_url() + path, auth: cfg.auth_header(), body, timeout_secs }
}

fn ask(cfg: &RemoteAgentConfig, method: HttpMethod, path: &str, body: Option<Json>, timeout_secs: u64) -> (r:
    HttpRequest)
    ensures
        r@ == about(cfg@, method, path@, body.deep_view(), timeout_secs),
{
    let base = normalize_base_url(cfg.url.as_str());
    HttpRequest {
        method,
        url: provider_url(base.as_str(), path),
        auth: auth(cfg),
        body,
        timeout_secs,
    }
}

/// The request that sets credentials.
pub fn set_provider_auth(cfg: &RemoteAgentConfig, provider_id: &str, payload: Json) -> (r: HttpRequest)
    ensures
        r@ == about(cfg@, HttpMethod::Put, "/auth/"@ + provider_id@, Some(payload@), 15),
{
    let path = cat("/auth/", provider_id);
    ask(cfg, HttpMethod::Put, path.as_str(), Some(payload), 15)
}

/// The request that sets an API key.
pub fn set_api_key(cfg: &RemoteAgentConfig, provider_id: &str, api_key: &str) -> (r: HttpRequest)
    ensures
        r@ == about(
            cfg@,
            HttpMethod::Put,
            "/auth/"@ + provider_id@,
            Some(
                JsonV::Object(
                    fields().push(("type"@, JsonV::Str("api"@))).push(("key"@, JsonV::Str(api_key@))),
                ),
            ),
            15,
        ),
{
    let payload = Obj::new().put_str("type", "api").put_str("key", api_key).build();
    set_provider_auth(cfg, provider_id, payload)
}

/// The request that sets credentials of a well-known kind.
pub fn set_wellknown_auth(cfg: &RemoteAgentConfig, provider_id: &str, key: &str, token: &str) -> (r: HttpRequest)
    ensures
        r@ == about(
            cfg@,
            HttpMethod::Put,
            "/auth/"@ + provider_id@,
            Some(
                JsonV::Object(
                    fields().push(("type"@, JsonV::Str("wellknown"@))).push(
                        ("key"@, JsonV::Str(key@)),
                    ).push(("token"@, JsonV::Str(token@))),
                ),
            ),
            15,
        ),
{
    let payload = Obj::new().put_str("type", "wellknown").put_str("key", key).put_str("token", token).build();
    set_provider_auth(cfg, provider_id, payload)
}

/// The request that clears credentials.
pub fn delete_provider_auth(cfg: &RemoteAgentConfig, provider_id: &str) -> (r: HttpRequest)
    ensures
        r@ == about(cfg@, HttpMethod::Delete, "/auth/"@ + provider_id@, None, 15),
{
    let path = cat("/auth/", provider_id);
    ask(cfg, HttpMethod::Delete, path.as_str(), None, 15)
}

/// What the clearing of credentials comes to: only whether it was accepted counts.
pub open spec fn deletion_of(reply: HttpReplyV) -> Option<AppErrorV> {
    match reply {
        HttpReplyV::Unsent(e) => Some(AppErrorV::BadGateway("OpenCode DELETE /auth failed: "@ + e)),
        HttpReplyV::Refused { status, body } => Some(
            AppErrorV::BadGateway("OpenCode DELETE /auth returned "@ + status + ": "@ + body),
        ),
        _ => None,
    }
}

/// What went wrong with the clearing of credentials; `None` where nothing did.
pub fn read_deletion(reply: &HttpReply) -> (r: Option<AppError>)
    ensures
        r.deep_view() == deletion_of(reply@),
{
    match reply {
        HttpReply::Unsent(e) => Some(
            AppError::BadGateway(cat("OpenCode DELETE /auth failed: ", e.as_str())),
        ),
        HttpReply::Refused { status, body } => Some(
            AppError::BadGateway(
                cat4("OpenCode DELETE /auth returned ", status.as_str(), ": ", body.as_str()),
            ),
        ),
        _ => None,
    }
}

/// What a request is answered. `sent` names it where it did not arrive, `label` where it
/// did. An empty answer is `null`.
pub open spec fn answered(reply: HttpReplyV, sent: Seq<char>, label: Seq<char>) -> Result<
    JsonV,
    AppErrorV,
> {
    match reply {
        HttpReplyV::Unsent(e) => Err(AppErrorV::BadGateway("OpenCode "@ + sent + " failed: "@ + e)),
        _ => json_answer(
            reply,
            true,
            true,
            "OpenCode "@ + label,
            "OpenCode "@ + label + " response"@,
        ),
    }
}

/// What a request is answered.
pub fn read_provider_reply(reply: &HttpReply, sent: &str, label: &str) -> (r: Result<Json, AppError>)
    ensures
        outcome(r) == answered(reply@, sent@, label@),
{
    match reply {
        HttpReply::Unsent(e) => Err(
            AppError::BadGateway(cat4("OpenCode ", sent, " failed: ", e.as_str())),
        ),
        _ => {
            let what = cat("OpenCode ", label);
            let response = cat(what.as_str(), " response");
            read_json_answer(reply, true, true, what.as_str(), response.as_str())
        },
    }
}

/// Whether a server is too old for a request, going by the status of its answer.
pub open spec fn is_legacy(status: u16) -> bool {
    status == 404 || status == 405
}

/// Whether a server is too old for a request.
pub fn needs_legacy(status: u16) -> (r: bool)
    ensures
        r == is_legacy(status),
{
    status == 404 || status == 405
}

/// What begins an authorisation: the number of the method, and what the user filled in.
pub open spec fn oauth_body(method_index: u32, inputs: Seq<(Seq<char>, JsonV)>) -> JsonV {
    let o = fields().push(("method"@, JsonV::Number(NumberV::Unsigned(method_index as u64))));
    JsonV::Object(
        if inputs.len() > 0 {
            o.push(("inputs"@, JsonV::Object(inputs)))
        } else {
            o
        },
    )
}

/// What the user filled in, as a model.
pub open spec fn inputs_v(inputs: Seq<(Seq<char>, Seq<char>)>) -> Seq<(Seq<char>, JsonV)> {
    Seq::new(inputs.len(), |i: int| (inputs[i].0, JsonV::Str(inputs[i].1)))
}

fn put_inputs(inputs: &Vec<(String, String)>) -> (r: Obj)
    ensures
        r@ == inputs_v(inputs.deep_view()),
{
    let ghost iv = inputs.deep_view();
    let mut o = Obj::new();
    let mut i: usize = 0;
    assert(o@ =~= inputs_v(iv.take(0)));
    while i < inputs.len()
        invariant
            i <= inputs.len(),
            iv == inputs.deep_view(),
            o@ == inputs_v(iv.take(i as int)),
        decreases inputs.len() - i,
    {
        o = o.put_str(inputs[i].0.as_str(), inputs[i].1.as_str());
        assert(o@ =~= inputs_v(iv.take(i as int + 1)));
        i += 1;
    }
    assert(iv.take(iv.len() as int) =~= iv);
    o
}

/// The request that begins an authorisation.
pub fn start_provider_oauth(
    cfg: &RemoteAgentConfig,
    provider_id: &str,
    method_index: u32,
    inputs: &Vec<(String, String)>,
) -> (r: HttpRequest)
    ensures
        r@ == about(
            cfg@,
            HttpMethod::Post,
            "/provider/"@ + provider_id@ + "/oauth/authorize"@,
            Some(oauth_body(method_index, inputs_v(inputs.deep_view()))),
            15,
        ),
{
    let path = cat3("/provider/", provider_id, "/oauth/authorize");
    let mut o = Obj::new().put("method", Json::number(method_index as u64));
    if inputs.len() > 0 {
        let filled = put_inputs(inputs);
        o = o.put("inputs", filled.build());
    }
    ask(cfg, HttpMethod::Post, path.as_str(), Some(o.build()), 15)
}

/// The request that begins an authorisation on a server that knows no other way.
pub fn start_provider_oauth_legacy(cfg: &RemoteAgentConfig, provider_id: &str) -> (r: HttpRequest)
    ensures
        r@ == about(
            cfg@,
            HttpMethod::Get,
            "/provider/"@ + provider_id@ + "/oauth/authorize"@,
            None,
            15,
        ),
{
    let path = cat3("/provider/", provider_id, "/oauth/authorize");
    ask(cfg, HttpMethod::Get, path.as_str(), None, 15)
}

/// The request that begins an authorisation again, where the status of the first answer
/// shows that the server is too old for the first request.
pub fn restart_provider_oauth(cfg: &RemoteAgentConfig, provider_id: &str, status: u16) -> (r: Option<HttpRequest>)
    ensures
        r.deep_view() == (if is_legacy(status) {
            Some(
                about(
                    cfg@,
                    HttpMethod::Get,
                    "/provider/"@ + provider_id@ + "/oauth/authorize"@,
                    None,
                    15,
                ),
            )
        } else {
            None
        }),
{
    if needs_legacy(status) {
        Some(start_provider_oauth_legacy(cfg, provider_id))
    } else {
        None
    }
}

/// What completes an authorisation: the number of the method, and the code where there
/// is one.
pub open spec fn callback_body(method_index: u32, code: Option<Seq<char>>) -> JsonV {
    let o = fields().push(("method"@, JsonV::Number(NumberV::Unsigned(method_index as u64))));
    JsonV::Object(
        match code {
            Some(c) => if c.len() > 0 {
                o.push(("code"@, JsonV::Str(c)))
            } else {
                o
            },
            None => o,
        },
    )
}

/// The request that completes an authorisation.
pub fn complete_provider_oauth(
    cfg: &RemoteAgentConfig,
    provider_id: &str,
    method_index: u32,
    code: Option<&str>,
) -> (r: HttpRequest)
    ensures
        r@ == about(
            cfg@,
            HttpMethod::Post,
            "/provider/"@ + provider_id@ + "/oauth/callback"@,
            Some(callback_body(method_index, opt_str(code))),
            30,
        ),
{
    let path = cat3("/provider/", provider_id, "/oauth/callback");
    let mut o = Obj::new().put("method", Json::number(method_index as u64));
    match code {
        Some(c) => {
            if !c.is_empty() {
                o = o.put_str("code", c);
            }
        },
        None => {},
    }
    ask(cfg, HttpMethod::Post, path.as_str(), Some(o.build()), 30)
}

/// The request that completes an authorisation on a server that knows no other way. It
/// needs a code.
pub open spec fn legacy_callback(cfg: RemoteAgentConfigV, provider_id: Seq<char>, code: Option<Seq<char>>) -> Result<
    HttpRequestV,
    AppErrorV,
> {
    match code {
        Some(c) => Ok(
            about(
                cfg,
                HttpMethod::Get,
                "/provider/"@ + provider_id + "/oauth/callback?code="@ + encoded(c),
                None,
                30,
            ),
        ),
        None => Err(AppErrorV::BadRequest("OAuth authorization code is required"@)),
    }
}

/// The request that completes an authorisation on a server that knows no other way.
pub fn complete_provider_oauth_legacy(cfg: &RemoteAgentConfig, provider_id: &str, code: Option<&str>) -> (r:
    Result<HttpRequest, AppError>)
    ensures
        outcome(r) == legacy_callback(cfg@, provider_id@, opt_str(code)),
{
    match code {
        Some(c) => {
            let enc = encode_query_value(c);
            let path = cat4("/provider/", provider_id, "/oauth/callback?code=", enc.as_str());
            Ok(ask(cfg, HttpMethod::Get, path.as_str(), None, 30))
        },
        None => Err(AppError::BadRequest("OAuth authorization code is required".to_owned())),
    }
}

/// The request that completes an authorisation again, or why it cannot be made, where
/// the status of the first answer shows that the server is too old for the first request.
pub fn recomplete_provider_oauth(
    cfg: &RemoteAgentConfig,
    provider_id: &str,
    code: Option<&str>,
    status: u16,
) -> (r: Option<Result<HttpRequest, AppError>>)
    ensures
        r is Some == is_legacy(status),
        r is Some ==> outcome(r->0) == legacy_callback(cfg@, provider_id@, opt_str(code)),
{
    if needs_legacy(status) {
        Some(complete_provider_oauth_legacy(cfg, provider_id, code))
    } else {
        None
    }
}

/// The request for the providers and their models.
pub fn list_providers(cfg: &RemoteAgentConfig) -> (r: HttpRequest)
    ensures
        r@ == about(cfg@, HttpMethod::Get, "/provider"@, None, 15),
{
    ask(cfg, HttpMethod::Get, "/provider", None, 15)
}

/// The request for the ways in which providers can be authorised.
pub fn list_provider_auth_methods(cfg: &RemoteAgentConfig) -> (r: HttpRequest)
    ensures
        r@ == about(cfg@, HttpMethod::Get, "/provider/auth"@, None, 15),
{
    ask(cfg, HttpMethod::Get, "/provider/auth", None, 15)
}

} // verus!

//! Requests for the files of a remote server's working tree.
use vstd::prelude::*;

use crate::config::{
    add_param, append_v1_directory, auth, normalize_base_url, server_directory_of, with_directory, with_param,
    RemoteAgentConfig, RemoteAgentConfigV,
};
use crate::http::{json_answer, read_json_answer, HttpMethod, HttpReply, HttpRequest, HttpRequestV};
use crate::json::{fields, Json, JsonV, NumberV, Obj};
use crate::text::{cat, cat3, dec, u64_dec};
use crate::types::{outcome, AppError};

verus! {

/// The URL of a route of the server, for the directory that is worked in.
pub open spec fn tree_url(cfg: RemoteAgentConfigV, workspace: Seq<char>, route: Seq<char>) -> Seq<char> {
    with_directory(cfg.base_url() + route, server_directory_of(cfg, workspace))
}

fn tree_url_of(cfg: &RemoteAgentConfig, workspace: &str, route: &str) -> (r: String)
    ensures
        r@ == tree_url(cfg@, workspace@, route@),
{
    let base = normalize_base_url(cfg.url.as_str());
    let url = cat(base.as_str(), route);
    append_v1_directory(url.as_str(), cfg, workspace)
}

/// A request for something to look at.
pub open spec fn looking(cfg: RemoteAgentConfigV, url: Seq<char>, timeout_secs: u64) -> HttpRequestV {
    HttpRequestV { method: HttpMethod::Get, url, auth: cfg.auth_header(), body: None, timeout_secs }
}

fn authed_get(cfg: &RemoteAgentConfig, url: String, timeout_secs: u64) -> (r: HttpRequest)
    ensures
        r@ == looking(cfg@, url@, timeout_secs),
{
    HttpRequest { method: HttpMethod::Get, url, auth: auth(cfg), body: None, timeout_secs }
}

/// A URL with a limit, where there is one.
pub open spec fn with_limit(url: Seq<char>, limit: Option<u32>) -> Seq<char> {
    match limit {
        Some(l) => url + "&limit="@ + dec(l as nat),
        None => url,
    }
}

fn add_limit(url: String, limit: Option<u32>) -> (r: String)
    ensures
        r@ == with_limit(url@, limit),
{
    match limit {
        Some(l) => {
            let n = u64_dec(l as u64);
            cat3(url.as_str(), "&limit=", n.as_str())
        },
        None => url,
    }
}

/// The request for what the server knows of its workspace.
pub fn fetch_path(cfg: &RemoteAgentConfig, workspace: &str) -> (r: HttpRequest)
    ensures
        r@ == looking(cfg@, tree_url(cfg@, workspace@, "/path"@), 15),
{
    let url = tree_url_of(cfg, workspace, "/path");
    authed_get(cfg, url, 15)
}

/// The request for the files below a path.
pub fn list_files(cfg: &RemoteAgentConfig, workspace: &str, path: &str) -> (r: HttpRequest)
    ensures
        r@ == looking(
            cfg@,
            with_param(tree_url(cfg@, workspace@, "/file"@), "path"@, path@),
            30,
        ),
{
    let url = tree_url_of(cfg, workspace, "/file");
    let url = add_param(url.as_str(), "path", path);
    authed_get(cfg, url, 30)
}

/// What asks for a file, or for a part of it.
pub open spec fn content_body(path: Seq<char>, start: Option<u64>, end: Option<u64>) -> JsonV {
    let o = fields().push(("path"@, JsonV::Str(path)));
    let o = match start {
        Some(n) => o.push(("start"@, JsonV::Number(NumberV::Unsigned(n)))),
        None => o,
    };
    let o = match end {
        Some(n) => o.push(("end"@, JsonV::Number(NumberV::Unsigned(n)))),
        None => o,
    };
    JsonV::Object(o)
}

/// The request for a file, or for a part of it.
pub fn read_file_content(
    cfg: &RemoteAgentConfig,
    workspace: &str,
    path: &str,
    start: Option<u64>,
    end: Option<u64>,
) -> (r: HttpRequest)
    ensures
        r@ == (HttpRequestV {
            method: HttpMethod::Post,
            url: tree_url(cfg@, workspace@, "/file/content"@),
            auth: cfg@.auth_header(),
            body: Some(content_body(path@, start, end)),
            timeout_secs: 30,
        }),
{
    let mut o = Obj::new().put_str("path", path);
    match start {
        Some(n) => {
            o = o.put("start", Json::number(n));
        },
        None => {},
    }
    match end {
        Some(n) => {
            o = o.put("end", Json::number(n));
        },
        None => {},
    }
    HttpRequest {
        method: HttpMethod::Post,
        url: tree_url_of(cfg, workspace, "/file/content"),
        auth: auth(cfg),
        body: Some(o.build()),
        timeout_secs: 30,
    }
}

/// The request for files by name.
pub fn find_files(cfg: &RemoteAgentConfig, workspace: &str, query: &str, limit: Option<u32>) -> (r: HttpRequest)
    ensures
        r@ == looking(
            cfg@,
            with_limit(
                with_param(tree_url(cfg@, workspace@, "/find/file"@), "query"@, query@),
                limit,
            ),
            30,
        ),
{
    let url = tree_url_of(cfg, workspace, "/find/file");
    let url = add_param(url.as_str(), "query", query);
    let url = add_limit(url, limit);
    authed_get(cfg, url, 30)
}

/// The request for the places of a text.
pub fn find_text(cfg: &RemoteAgentConfig, workspace: &str, pattern: &str, limit: Option<u32>) -> (r: HttpRequest)
    ensures
        r@ == looking(
            cfg@,
            with_limit(
                with_param(tree_url(cfg@, workspace@, "/find"@), "pattern"@, pattern@),
                limit,
            ),
            60,
        ),
{
    let url = tree_url_of(cfg, workspace, "/find");
    let url = add_param(url.as_str(), "pattern", pattern);
    let url = add_limit(url, limit);
    authed_get(cfg, url, 60)
}

/// The request for symbols by name.
pub fn find_symbols(cfg: &RemoteAgentConfig, workspace: &str, query: &str) -> (r: HttpRequest)
    ensures
        r@ == looking(
            cfg@,
            with_param(tree_url(cfg@, workspace@, "/find/symbol"@), "query"@, query@),
            30,
        ),
{
    let url = tree_url_of(cfg, workspace, "/find/symbol");
    let url = add_param(url.as_str(), "query", query);
    authed_get(cfg, url, 30)
}

/// The request for the formatters.
pub fn list_formatters(cfg: &RemoteAgentConfig, workspace: &str) -> (r: HttpRequest)
    ensures
        r@ == looking(cfg@, tree_url(cfg@, workspace@, "/formatter"@), 15),
{
    let url = tree_url_of(cfg, workspace, "/formatter");
    authed_get(cfg, url, 15)
}

/// What a request of this kind is answered. `label` names it, as in `GET /path`.
pub fn read_tree_reply(reply: &HttpReply, label: &str) -> (r: Result<Json, AppError>)
    ensures
        outcome(r) == json_answer(
            reply@,
            false,
            true,
            "OpenCode "@ + label@,
            "OpenCode "@ + label@ + " response"@,
        ),
{
    let what = cat("OpenCode ", label);
    let response = cat(what.as_str(), " response");
    read_json_answer(reply, false, true, what.as_str(), response.as_str())
}

} // verus!

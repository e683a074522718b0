//! Requests to a server, and what is made of the answers.
use vstd::prelude::*;

use crate::json::{parse_result, Json, JsonV};
use crate::text::{cat3, cat5, is_blank, trimmed};
use crate::types::{outcome, AppError, AppErrorV};

verus! {

/// The method of a request.
#[derive(Debug, Clone, Copy, PartialEq, Eq, Structural)]
pub enum HttpMethod {
    Get,
    Post,
    Put,
    Patch,
    Delete,
}

impl View for HttpMethod {
    type V = HttpMethod;

    open spec fn view(&self) -> HttpMethod {
        *self
    }
}

impl DeepView for HttpMethod {
    type V = HttpMethod;

    open spec fn deep_view(&self) -> HttpMethod {
        *self
    }
}

/// A request to a server.
#[derive(Debug, PartialEq, Eq)]
pub struct HttpRequest {
    pub method: HttpMethod,
    pub url: String,
    /// The value of the `Authorization` header.
    pub auth: Option<String>,
    pub body: Option<Json>,
    pub timeout_secs: u64,
}

/// Model of [`HttpRequest`].
pub struct HttpRequestV {
    pub method: HttpMethod,
    pub url: Seq<char>,
    pub auth: Option<Seq<char>>,
    pub body: Option<JsonV>,
    pub timeout_secs: u64,
}

impl View for HttpRequest {
    type V = HttpRequestV;

    open spec fn view(&self) -> HttpRequestV {
        HttpRequestV {
            method: self.method.deep_view(),
            url: self.url.deep_view(),
            auth: self.auth.deep_view(),
            body: self.body.deep_view(),
            timeout_secs: self.timeout_secs.deep_view(),
        }
    }
}

impl DeepView for HttpRequest {
    type V = HttpRequestV;

    open spec fn deep_view(&self) -> HttpRequestV {
        self@
    }
}

/// What became of a request.
#[derive(Debug, PartialEq, Eq)]
pub enum HttpReply {
    /// It did not reach the server.
    Unsent(String),
    /// The server refused it.
    Refused { status: String, body: String },
    /// The answer could not be decoded.
    Undecoded(String),
    /// The server answered.
    Answered(String),
}

/// Model of [`HttpReply`].
pub enum HttpReplyV {
    Unsent(Seq<char>),
    Refused { status: Seq<char>, body: Seq<char> },
    Undecoded(Seq<char>),
    Answered(Seq<char>),
}

impl View for HttpReply {
    type V = HttpReplyV;

    open spec fn view(&self) -> HttpReplyV {
        match self {
            HttpReply::Unsent(x) => HttpReplyV::Unsent(x.deep_view()),
            HttpReply::Refused { status, body } => HttpReplyV::Refused { status: status.deep_view(), body: body.deep_view() },
            HttpReply::Undecoded(x) => HttpReplyV::Undecoded(x.deep_view()),
            HttpReply::Answered(x) => HttpReplyV::Answered(x.deep_view()),
        }
    }
}

impl DeepView for HttpReply {
    type V = HttpReplyV;

    open spec fn deep_view(&self) -> HttpReplyV {
        self@
    }
}

/// A problem with a server: of the connection to it, or within.
pub open spec fn problem(gateway: bool, text: Seq<char>) -> AppErrorV {
    if gateway {
        AppErrorV::BadGateway(text)
    } else {
        AppErrorV::Internal(text)
    }
}

fn make_problem(gateway: bool, text: String) -> (r: AppError)
    ensures
        r@ == problem(gateway, text@),
{
    if gateway {
        AppError::BadGateway(text)
    } else {
        AppError::Internal(text)
    }
}

/// The text that a server answered, or what went wrong; `what` names the request. An
/// answer that could not be decoded counts as empty.
pub open spec fn answer_of(reply: HttpReplyV, gateway: bool, what: Seq<char>) -> Result<
    Seq<char>,
    AppErrorV,
> {
    match reply {
        HttpReplyV::Unsent(e) => Err(problem(gateway, what + " failed: "@ + e)),
        HttpReplyV::Refused { status, body } => Err(
            problem(gateway, what + " returned "@ + status + ": "@ + body),
        ),
        HttpReplyV::Undecoded(_) => Ok(Seq::empty()),
        HttpReplyV::Answered(t) => Ok(t),
    }
}

/// The text that a server answered, or what went wrong.
pub fn read_answer(reply: &HttpReply, gateway: bool, what: &str) -> (r: Result<String, AppError>)
    ensures
        outcome(r) == answer_of(reply@, gateway, what@),
{
    match reply {
        HttpReply::Unsent(e) => Err(make_problem(gateway, cat3(what, " failed: ", e.as_str()))),
        HttpReply::Refused { status, body } => Err(
            make_problem(gateway, cat5(what, " returned ", status.as_str(), ": ", body.as_str())),
        ),
        HttpReply::Undecoded(_) => {
            let none = String::new();
            assert(none@ =~= Seq::<char>::empty());
            Ok(none)
        },
        HttpReply::Answered(t) => Ok(t.clone()),
    }
}

/// Whether a server took a request, or what went wrong.
pub fn read_acceptance(reply: &HttpReply, gateway: bool, what: &str) -> (r: Result<(), AppError>)
    ensures
        r is Ok == answer_of(reply@, gateway, what@) is Ok,
        r is Err ==> answer_of(reply@, gateway, what@) == Err::<Seq<char>, AppErrorV>(r->Err_0@),
{
    match read_answer(reply, gateway, what) {
        Ok(_) => Ok(()),
        Err(e) => Err(e),
    }
}

/// The tree of an answer, given what its text stands for; `response` names the answer.
/// An empty answer is `null` where that is allowed.
pub open spec fn tree_of_answer(
    text: Seq<char>,
    parsed: Result<JsonV, Seq<char>>,
    may_be_empty: bool,
    gateway: bool,
    response: Seq<char>,
) -> Result<JsonV, AppErrorV> {
    if may_be_empty && trimmed(text).len() == 0 {
        Ok(JsonV::Null)
    } else {
        match parsed {
            Ok(v) => Ok(v),
            Err(e) => Err(problem(gateway, response + " was not JSON: "@ + e)),
        }
    }
}

/// The tree of an answer, given what its text stands for.
pub fn read_tree(
    text: &str,
    parsed: Result<Json, String>,
    may_be_empty: bool,
    gateway: bool,
    response: &str,
) -> (r: Result<Json, AppError>)
    ensures
        outcome(r) == tree_of_answer(text@, outcome(parsed), may_be_empty, gateway, response@),
{
    if may_be_empty && is_blank(text) {
        return Ok(Json::Null);
    }
    match parsed {
        Ok(v) => Ok(v),
        Err(e) => Err(make_problem(gateway, cat3(response, " was not JSON: ", e.as_str()))),
    }
}

/// The tree that a server answered, or what went wrong. An answer that could not be
/// decoded counts as empty where it may be empty.
pub open spec fn json_answer(
    reply: HttpReplyV,
    may_be_empty: bool,
    gateway: bool,
    what: Seq<char>,
    response: Seq<char>,
) -> Result<JsonV, AppErrorV> {
    match (reply, answer_of(reply, gateway, what)) {
        (_, Err(e)) => Err(e),
        (HttpReplyV::Undecoded(e), _) => tree_of_answer(
            Seq::empty(),
            Err(e),
            may_be_empty,
            gateway,
            response,
        ),
        (_, Ok(t)) => tree_of_answer(t, parse_result(t), may_be_empty, gateway, response),
    }
}

/// The tree that a server answered, or what went wrong.
pub fn read_json_answer(
    reply: &HttpReply,
    may_be_empty: bool,
    gateway: bool,
    what: &str,
    response: &str,
) -> (r: Result<Json, AppError>)
    ensures
        outcome(r) == json_answer(reply@, may_be_empty, gateway, what@, response@),
{
    match read_answer(reply, gateway, what) {
        Ok(t) => {
            let parsed = match reply {
                HttpReply::Undecoded(e) => Err(e.clone()),
                _ => Json::parse(t.as_str()),
            };
            read_tree(t.as_str(), parsed, may_be_empty, gateway, response)
        },
        Err(e) => Err(e),
    }
}

} // verus!

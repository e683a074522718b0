//! The server through which a remote model reaches the user's files: who may call it,
//! what it answers, and which calls become tool calls.
use vstd::prelude::*;

use crate::descriptors::{tool_descriptors_for_state, tools_v, usable, ToolDescriptor, ToolDescriptorV};
use crate::json::{fields, json_text, opt_tree, trees, Json, JsonNumber, JsonV, NumberV, Obj};
use crate::shell::{McpRequestContext, McpRequestContextV};
use crate::text::{begins, cat, cat3, dec, i64_dec, signed_dec, starts_with, str_eq, strip_prefix, u64_dec};

verus! {

/// Why a request is refused.
#[derive(Debug, Clone, Copy, PartialEq, Eq, Structural)]
pub enum RpcFault {
    MethodNotFound,
    InvalidParams,
    Internal,
}

impl View for RpcFault {
    type V = RpcFault;

    open spec fn view(&self) -> RpcFault {
        *self
    }
}

impl DeepView for RpcFault {
    type V = RpcFault;

    open spec fn deep_view(&self) -> RpcFault {
        *self
    }
}

/// A request.
#[derive(Debug, PartialEq, Eq)]
pub struct RpcRequest {
    pub id: Option<Json>,
    pub method: String,
    pub params: Option<Json>,
}

/// Model of [`RpcRequest`].
pub struct RpcRequestV {
    pub id: Option<JsonV>,
    pub method: Seq<char>,
    pub params: Option<JsonV>,
}

impl View for RpcRequest {
    type V = RpcRequestV;

    open spec fn view(&self) -> RpcRequestV {
        RpcRequestV {
            id: self.id.deep_view(),
            method: self.method.deep_view(),
            params: self.params.deep_view(),
        }
    }
}

impl DeepView for RpcRequest {
    type V = RpcRequestV;

    open spec fn deep_view(&self) -> RpcRequestV {
        self@
    }
}

/// The headers of a request that matter.
#[derive(Debug, PartialEq, Eq)]
pub struct RpcHeaders {
    pub authorization: Option<String>,
    /// The session that a tool call comes from.
    pub session_id: Option<String>,
    pub parent_session_id: Option<String>,
}

/// Model of [`RpcHeaders`].
pub struct RpcHeadersV {
    pub authorization: Option<Seq<char>>,
    pub session_id: Option<Seq<char>>,
    pub parent_session_id: Option<Seq<char>>,
}

impl View for RpcHeaders {
    type V = RpcHeadersV;

    open spec fn view(&self) -> RpcHeadersV {
        RpcHeadersV {
            authorization: self.authorization.deep_view(),
            session_id: self.session_id.deep_view(),
            parent_session_id: self.parent_session_id.deep_view(),
        }
    }
}

impl DeepView for RpcHeaders {
    type V = RpcHeadersV;

    open spec fn deep_view(&self) -> RpcHeadersV {
        self@
    }
}

/// What the server says of itself.
#[derive(Debug, PartialEq, Eq)]
pub struct ServerIdentity {
    pub protocol_version: String,
    pub name: String,
    pub version: String,
}

/// Model of [`ServerIdentity`].
pub struct ServerIdentityV {
    pub protocol_version: Seq<char>,
    pub name: Seq<char>,
    pub version: Seq<char>,
}

impl View for ServerIdentity {
    type V = ServerIdentityV;

    open spec fn view(&self) -> ServerIdentityV {
        ServerIdentityV {
            protocol_version: self.protocol_version.deep_view(),
            name: self.name.deep_view(),
            version: self.version.deep_view(),
        }
    }
}

impl DeepView for ServerIdentity {
    type V = ServerIdentityV;

    open spec fn deep_view(&self) -> ServerIdentityV {
        self@
    }
}

/// An answer.
#[allow(inconsistent_fields)]
#[derive(Debug, PartialEq, Eq)]
pub enum RpcReply {
    /// What was asked for.
    Success { id: Option<Json>, result: Json },
    /// Why there is none.
    Failure { id: Option<Json>, fault: RpcFault, message: String },
}

/// Model of [`RpcReply`].
#[allow(inconsistent_fields)]
pub enum RpcReplyV {
    Success { id: Option<JsonV>, result: JsonV },
    Failure { id: Option<JsonV>, fault: RpcFault, message: Seq<char> },
}

impl View for RpcReply {
    type V = RpcReplyV;

    open spec fn view(&self) -> RpcReplyV {
        match self {
            RpcReply::Success { id, result } => RpcReplyV::Success { id: id.deep_view(), result: result.deep_view() },
            RpcReply::Failure { id, fault, message } => RpcReplyV::Failure { id: id.deep_view(), fault: fault.deep_view(), message: message.deep_view() },
        }
    }
}

impl DeepView for RpcReply {
    type V = RpcReplyV;

    open spec fn deep_view(&self) -> RpcReplyV {
        self@
    }
}

/// What a request leads to.
#[derive(Debug)]
pub enum RpcStep {
    /// An answer, with the status of the response.
    Answer { status: u16, reply: RpcReply },
    /// A tool call, to be answered when it is done.
    Call { tool: String, arguments: Json, context: McpRequestContext, tool_call_id: Option<String> },
}

/// Model of [`RpcStep`].
pub enum RpcStepV {
    Answer { status: u16, reply: RpcReplyV },
    Call { tool: Seq<char>, arguments: JsonV, context: McpRequestContextV, tool_call_id: Option<Seq<char>> },
}

impl View for RpcStep {
    type V = RpcStepV;

    open spec fn view(&self) -> RpcStepV {
        match self {
            RpcStep::Answer { status, reply } => RpcStepV::Answer { status: status.deep_view(), reply: reply.deep_view() },
            RpcStep::Call { tool, arguments, context, tool_call_id } => RpcStepV::Call { tool: tool.deep_view(), arguments: arguments.deep_view(), context: context.deep_view(), tool_call_id: tool_call_id.deep_view() },
        }
    }
}

impl DeepView for RpcStep {
    type V = RpcStepV;

    open spec fn deep_view(&self) -> RpcStepV {
        self@
    }
}

/// Whether anyone has reached the server.
#[derive(Debug, PartialEq, Eq)]
pub struct ContactProbe {
    pub contacted: bool,
}

/// Model of [`ContactProbe`].
pub struct ContactProbeV {
    pub contacted: bool,
}

impl View for ContactProbe {
    type V = ContactProbeV;

    open spec fn view(&self) -> ContactProbeV {
        ContactProbeV {
            contacted: self.contacted.deep_view(),
        }
    }
}

impl DeepView for ContactProbe {
    type V = ContactProbeV;

    open spec fn deep_view(&self) -> ContactProbeV {
        self@
    }
}

impl RpcFault {
    /// The number that stands for it.
    pub open spec fn number(self) -> int {
        match self {
            RpcFault::MethodNotFound => -32601,
            RpcFault::InvalidParams => -32602,
            RpcFault::Internal => -32603,
        }
    }

    /// The number that stands for it.
    pub fn code(self) -> (r: i64)
        ensures
            r == self.number(),
    {
        match self {
            RpcFault::MethodNotFound => -32601,
            RpcFault::InvalidParams => -32602,
            RpcFault::Internal => -32603,
        }
    }
}

impl ContactProbe {
    /// A probe of a server that nobody has reached.
    pub fn new() -> (r: ContactProbe)
        ensures
            !r@.contacted,
    {
        ContactProbe { contacted: false }
    }

    /// Whether anyone has reached the server since the last reset.
    pub fn was_contacted(&self) -> (r: bool)
        ensures
            r == self@.contacted,
    {
        self.contacted
    }

    /// Forgets who has reached the server.
    pub fn reset(&mut self)
        ensures
            !final(self)@.contacted,
    {
        self.contacted = false;
    }

    /// Records that someone reached the server; true where it is the first time.
    pub fn record(&mut self) -> (r: bool)
        ensures
            final(self)@.contacted,
            r == !old(self)@.contacted,
    {
        let first = !self.contacted;
        self.contacted = true;
        first
    }
}

/// Whether two texts of bytes are the same. It looks at every byte, whichever differ.
pub fn constant_time_eq(a: &[u8], b: &[u8]) -> (r: bool)
    ensures
        r == (a@ == b@),
{
    if a.len() != b.len() {
        return false;
    }
    let mut diff: u8 = 0;
    let mut i: usize = 0;
    while i < a.len()
        invariant
            i <= a.len(),
            a.len() == b.len(),
            diff == 0 <==> (forall|k: int| 0 <= k < i ==> a@[k] == b@[k]),
        decreases a.len() - i,
    {
        let x: u8 = a[i];
        let y: u8 = b[i];
        let d: u8 = diff;
        proof {
            lemma_no_difference(d, x, y);
        }
        diff = d | (x ^ y);
        i += 1;
    }
    if diff == 0 {
        assert(a@ =~= b@);
    }
    diff == 0
}

proof fn lemma_no_difference(d: u8, x: u8, y: u8)
    ensures
        (d | (x ^ y)) == 0 <==> (d == 0 && x == y),
{
    assert((d | (x ^ y)) == 0 <==> (d == 0 && x == y)) by (bit_vector);
}

/// Whether a header carries the token.
pub open spec fn token_fits(authorization: Option<Seq<char>>, expected: Seq<char>) -> bool {
    match authorization {
        Some(v) => v == "Bearer "@ + expected,
        None => false,
    }
}

/// Whether a header carries the token.
pub fn auth_ok(authorization: &Option<String>, expected: &str) -> (r: bool)
    ensures
        r == token_fits(authorization.deep_view(), expected@),
{
    match authorization {
        Some(v) => match strip_prefix(v.as_str(), "Bearer ") {
            Some(token) => {
                let same = constant_time_eq(token.as_str().as_bytes(), expected.as_bytes());
                proof {
                    let p = "Bearer "@;
                    assert(v@ =~= p + token@);
                    if same {
                        vstd::utf8::encode_utf8_decode_utf8(token@);
                        vstd::utf8::encode_utf8_decode_utf8(expected@);
                    } else if v@ == p + expected@ {
                        assert(token@ =~= v@.skip(p.len() as int));
                        assert((p + expected@).skip(p.len() as int) =~= expected@);
                    }
                }
                same
            },
            None => {
                proof {
                    let p = "Bearer "@;
                    if v@ == p + expected@ {
                        assert(v@.take(p.len() as int) =~= p);
                    }
                }
                false
            },
        },
        None => false,
    }
}

/// Whether anyone may send a request: to begin, and to notify.
pub open spec fn open_to_all(method: Seq<char>) -> bool {
    method == "initialize"@ || begins(method, "notifications/"@)
}

/// A header that says something.
pub open spec fn telling(v: Option<Seq<char>>) -> Option<Seq<char>> {
    match v {
        Some(s) => if s.len() > 0 {
            Some(s)
        } else {
            None
        },
        None => None,
    }
}

fn keep_telling(v: &Option<String>) -> (r: Option<String>)
    ensures
        r.deep_view() == telling(v.deep_view()),
{
    match v {
        Some(s) => {
            if s.as_str().is_empty() {
                None
            } else {
                Some(s.clone())
            }
        },
        None => None,
    }
}

/// The sessions that a request says it comes from.
pub open spec fn context_of(headers: RpcHeadersV) -> McpRequestContextV {
    McpRequestContextV {
        session_id: telling(headers.session_id),
        parent_session_id: telling(headers.parent_session_id),
    }
}

/// The sessions that a request says it comes from.
pub fn extract_request_context(headers: &RpcHeaders) -> (r: McpRequestContext)
    ensures
        r@ == context_of(headers@),
{
    McpRequestContext {
        session_id: keep_telling(&headers.session_id),
        parent_session_id: keep_telling(&headers.parent_session_id),
    }
}

/// The text of a request's id: of a string the string itself, of a number its digits,
/// of anything else its JSON.
pub open spec fn id_text(id: JsonV) -> Seq<char> {
    match id {
        JsonV::Str(s) => s,
        JsonV::Number(NumberV::Unsigned(n)) => dec(n as nat),
        JsonV::Number(NumberV::Negative(n)) => signed_dec(n as int),
        JsonV::Number(NumberV::Float(t)) => t,
        JsonV::Null => Seq::empty(),
        other => json_text(other),
    }
}

/// The text of a request's id.
pub fn jsonrpc_id_to_string(id: &Json) -> (r: String)
    ensures
        r@ == id_text(id@),
{
    match id {
        Json::Str(s) => s.clone(),
        Json::Number(JsonNumber::Unsigned(n)) => u64_dec(*n),
        Json::Number(JsonNumber::Negative(n)) => i64_dec(*n),
        Json::Number(JsonNumber::Float(t)) => t.clone(),
        Json::Null => {
            proof {
                reveal_strlit("");
                assert(""@ =~= Seq::<char>::empty());
            }
            "".to_owned()
        },
        Json::Bool(_) => id.to_text(),
        Json::Array(_) => id.to_text(),
        Json::Object(_) => id.to_text(),
    }
}

/// What the server says of itself.
pub open spec fn identity_v(who: ServerIdentityV) -> JsonV {
    JsonV::Object(
        fields().push(
            ("capabilities"@, JsonV::Object(fields().push(("tools"@, JsonV::Object(fields()))))),
        ).push(("protocolVersion"@, JsonV::Str(who.protocol_version))).push(
            (
                "serverInfo"@,
                JsonV::Object(
                    fields().push(("name"@, JsonV::Str(who.name))).push(
                        ("version"@, JsonV::Str(who.version)),
                    ),
                ),
            ),
        ),
    )
}

fn identity_json(who: &ServerIdentity) -> (r: Json)
    ensures
        r@ == identity_v(who@),
{
    Obj::new().put("capabilities", Obj::new().put("tools", Obj::new().build()).build()).put_str(
        "protocolVersion",
        who.protocol_version.as_str(),
    ).put(
        "serverInfo",
        Obj::new().put_str("name", who.name.as_str()).put_str("version", who.version.as_str()).build(),
    ).build()
}

/// A tool, as it is listed.
pub open spec fn listed_tool(d: ToolDescriptorV) -> JsonV {
    JsonV::Object(
        fields().push(("name"@, JsonV::Str(d.name))).push(("description"@, JsonV::Str(d.description))).push(
            ("inputSchema"@, d.input_schema),
        ),
    )
}

/// The tools, as they are listed.
pub open spec fn listed_tools(tools: Seq<ToolDescriptorV>) -> JsonV {
    JsonV::Object(
        fields().push(
            ("tools"@, JsonV::Array(Seq::new(tools.len(), |i: int| listed_tool(tools[i])))),
        ),
    )
}

fn list_tools(tools: &Vec<ToolDescriptor>) -> (r: Json)
    ensures
        r@ == listed_tools(tools.deep_view()),
{
    let mut all: Vec<Json> = Vec::new();
    let mut i: usize = 0;
    while i < tools.len()
        invariant
            i <= tools.len(),
            all.len() == i,
            forall|k: int| 0 <= k < i ==> (#[trigger] all@[k])@ == listed_tool(tools@[k]@),
        decreases tools.len() - i,
    {
        let d = &tools[i];
        all.push(
            Obj::new().put_str("name", d.name.as_str()).put_str("description", d.description.as_str()).put(
                "inputSchema",
                d.input_schema.copy(),
            ).build(),
        );
        i += 1;
    }
    proof {
        let tv = tools.deep_view();
        assert(trees(all@) =~= Seq::new(tv.len(), |i: int| listed_tool(tv[i])));
    }
    Obj::new().put("tools", Json::array(all)).build()
}

/// What a tool call is answered.
pub open spec fn tool_result(text: Seq<char>, is_error: bool) -> JsonV {
    JsonV::Object(
        fields().push(
            (
                "content"@,
                JsonV::Array(
                    Seq::empty().push(
                        JsonV::Object(
                            fields().push(("type"@, JsonV::Str("text"@))).push(
                                ("text"@, JsonV::Str(text)),
                            ),
                        ),
                    ),
                ),
            ),
        ).push(("isError"@, JsonV::Bool(is_error))),
    )
}

/// The answer to a tool call.
pub fn tool_reply(id: &Option<Json>, text: &str, is_error: bool) -> (r: RpcReply)
    ensures
        r@ == (RpcReplyV::Success { id: id.deep_view(), result: tool_result(text@, is_error) }),
{
    let mut content: Vec<Json> = Vec::new();
    content.push(Obj::new().put_str("type", "text").put_str("text", text).build());
    proof {
        assert(trees(content@) =~= Seq::empty().push(
            JsonV::Object(
                fields().push(("type"@, JsonV::Str("text"@))).push(("text"@, JsonV::Str(text@))),
            ),
        ));
    }
    let result = Obj::new().put("content", Json::array(content)).put_bool("isError", is_error).build();
    RpcReply::Success { id: copy_id(id), result }
}

fn copy_id(id: &Option<Json>) -> (r: Option<Json>)
    ensures
        r.deep_view() == id.deep_view(),
{
    match id {
        Some(j) => Some(j.copy()),
        None => None,
    }
}

/// What the parameters of a request hold under a name.
pub open spec fn param(params: Option<JsonV>, key: Seq<char>) -> Option<JsonV> {
    match params {
        Some(p) => p.field(key),
        None => None,
    }
}

/// The tool that a request names; empty where it names none.
pub open spec fn tool_of(params: Option<JsonV>) -> Seq<char> {
    match param(params, "name"@) {
        Some(j) => match j.text() {
            Some(t) => t,
            None => Seq::empty(),
        },
        None => Seq::empty(),
    }
}

/// The call that a request names itself with; none where it names nothing.
pub open spec fn call_id_of(id: Option<JsonV>) -> Option<Seq<char>> {
    match id {
        Some(j) => telling(Some(id_text(j))),
        None => None,
    }
}

/// What a request leads to. Without the token only what is open to all goes through.
pub open spec fn handled(
    req: RpcRequestV,
    headers: RpcHeadersV,
    token: Seq<char>,
    who: ServerIdentityV,
    has_approver: bool,
) -> RpcStepV {
    if !open_to_all(req.method) && !token_fits(headers.authorization, token) {
        RpcStepV::Answer {
            status: 401,
            reply: RpcReplyV::Failure {
                id: req.id,
                fault: RpcFault::Internal,
                message: "missing or invalid bearer token"@,
            },
        }
    } else if req.method == "initialize"@ {
        RpcStepV::Answer {
            status: 200,
            reply: RpcReplyV::Success { id: req.id, result: identity_v(who) },
        }
    } else if req.method == "notifications/initialized"@ || req.method
        == "notifications/cancelled"@ {
        RpcStepV::Answer {
            status: 204,
            reply: RpcReplyV::Success { id: req.id, result: JsonV::Null },
        }
    } else if req.method == "tools/list"@ {
        RpcStepV::Answer {
            status: 200,
            reply: RpcReplyV::Success {
                id: req.id,
                result: listed_tools(tools_v().filter(usable(has_approver))),
            },
        }
    } else if req.method == "tools/call"@ {
        if tool_of(req.params).len() == 0 {
            RpcStepV::Answer {
                status: 200,
                reply: RpcReplyV::Failure {
                    id: req.id,
                    fault: RpcFault::InvalidParams,
                    message: "missing tool name"@,
                },
            }
        } else {
            RpcStepV::Call {
                tool: tool_of(req.params),
                arguments: match param(req.params, "arguments"@) {
                    Some(a) => a,
                    None => JsonV::Object(fields()),
                },
                context: context_of(headers),
                tool_call_id: call_id_of(req.id),
            }
        }
    } else if req.method == "ping"@ {
        RpcStepV::Answer {
            status: 200,
            reply: RpcReplyV::Success { id: req.id, result: JsonV::Object(fields()) },
        }
    } else {
        RpcStepV::Answer {
            status: 200,
            reply: RpcReplyV::Failure {
                id: req.id,
                fault: RpcFault::MethodNotFound,
                message: "method not found: "@ + req.method,
            },
        }
    }
}

fn answer(status: u16, id: &Option<Json>, result: Json) -> (r: RpcStep)
    ensures
        r@ == (RpcStepV::Answer {
            status,
            reply: RpcReplyV::Success { id: id.deep_view(), result: result@ },
        }),
{
    RpcStep::Answer { status, reply: RpcReply::Success { id: copy_id(id), result } }
}

fn refuse(status: u16, id: &Option<Json>, fault: RpcFault, message: String) -> (r: RpcStep)
    ensures
        r@ == (RpcStepV::Answer {
            status,
            reply: RpcReplyV::Failure { id: id.deep_view(), fault, message: message@ },
        }),
{
    RpcStep::Answer { status, reply: RpcReply::Failure { id: copy_id(id), fault, message } }
}

fn get_param<'a>(params: &'a Option<Json>, key: &str) -> (r: Option<&'a Json>)
    ensures
        opt_tree(r) == param(params.deep_view(), key@),
{
    match params {
        Some(p) => p.get(key),
        None => None,
    }
}

/// What a request leads to.
pub fn handle_rpc(
    req: &RpcRequest,
    headers: &RpcHeaders,
    token: &str,
    who: &ServerIdentity,
    has_approver: bool,
) -> (r: RpcStep)
    ensures
        r@ == handled(req@, headers@, token@, who@, has_approver),
{
    let method = req.method.as_str();
    let free = str_eq(method, "initialize") || starts_with(method, "notifications/");
    if !free && !auth_ok(&headers.authorization, token) {
        return refuse(
            401,
            &req.id,
            RpcFault::Internal,
            "missing or invalid bearer token".to_owned(),
        );
    }
    if str_eq(method, "initialize") {
        answer(200, &req.id, identity_json(who))
    } else if str_eq(method, "notifications/initialized") || str_eq(method, "notifications/cancelled") {
        answer(204, &req.id, Json::Null)
    } else if str_eq(method, "tools/list") {
        let tools = tool_descriptors_for_state(has_approver);
        answer(200, &req.id, list_tools(&tools))
    } else if str_eq(method, "tools/call") {
        let tool = match get_param(&req.params, "name") {
            Some(j) => match j.as_str() {
                Some(t) => t,
                None => "",
            },
            None => "",
        };
        proof {
            reveal_strlit("");
            assert(""@ =~= Seq::<char>::empty());
        }
        if tool.is_empty() {
            refuse(200, &req.id, RpcFault::InvalidParams, "missing tool name".to_owned())
        } else {
            let arguments = match get_param(&req.params, "arguments") {
                Some(a) => a.copy(),
                None => Obj::new().build(),
            };
            let tool_call_id = match &req.id {
                Some(j) => keep_telling(&Some(jsonrpc_id_to_string(j))),
                None => None,
            };
            RpcStep::Call {
                tool: tool.to_owned(),
                arguments,
                context: extract_request_context(headers),
                tool_call_id,
            }
        }
    } else if str_eq(method, "ping") {
        answer(200, &req.id, Obj::new().build())
    } else {
        refuse(200, &req.id, RpcFault::MethodNotFound, cat("method not found: ", method))
    }
}

/// Where a server at an address is reached from its own machine.
pub fn local_url(addr: &str) -> (r: String)
    ensures
        r@ == "http://"@ + addr@ + "/"@,
{
    cat3("http://", addr, "/")
}

/// Without the token no tool is called and no tool is listed: every such request is
/// turned away.
pub proof fn tools_need_the_token(
    req: RpcRequestV,
    headers: RpcHeadersV,
    token: Seq<char>,
    who: ServerIdentityV,
    has_approver: bool,
)
    requires
        !token_fits(headers.authorization, token),
    ensures
        handled(req, headers, token, who, has_approver) !is Call,
        !open_to_all(req.method) ==> (handled(req, headers, token, who, has_approver) matches RpcStepV::Answer {
            status,
            reply,
        } && status == 401 && reply is Failure),
{
    reveal_strlit("tools/call");
    reveal_strlit("initialize");
    reveal_strlit("notifications/");
    if req.method == "tools/call"@ {
        assert(req.method[0] == 't');
        assert("initialize"@[0] == 'i');
        if begins(req.method, "notifications/"@) {
            assert(req.method.take(14)[0] == 't');
            assert("notifications/"@[0] == 'n');
        }
        assert(!open_to_all(req.method));
    }
}

/// To begin needs no token: the answer is the same with and without it.
pub proof fn beginning_is_open(
    req: RpcRequestV,
    headers: RpcHeadersV,
    token: Seq<char>,
    who: ServerIdentityV,
    has_approver: bool,
)
    requires
        req.method == "initialize"@,
    ensures
        handled(req, headers, token, who, has_approver) == (RpcStepV::Answer {
            status: 200,
            reply: RpcReplyV::Success { id: req.id, result: identity_v(who) },
        }),
{
}

/// An answer carries the id of its request.
pub proof fn answers_carry_the_id(
    req: RpcRequestV,
    headers: RpcHeadersV,
    token: Seq<char>,
    who: ServerIdentityV,
    has_approver: bool,
)
    ensures
        handled(req, headers, token, who, has_approver) matches RpcStepV::Answer { reply, .. } ==> (
        match reply {
            RpcReplyV::Success { id, .. } => id == req.id,
            RpcReplyV::Failure { id, .. } => id == req.id,
        }),
{
}

} // verus!

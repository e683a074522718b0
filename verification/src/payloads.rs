//! Bodies of the requests that are sent to an OpenCode server.
//!
//! Each body is a struct, and `to_json` gives the document that goes over the
//! wire. Fields without a value are left out rather than sent as `null`, empty
//! lists too where the server expects none, and acronyms keep their capitals
//! (`messageID`, `providerID`).
use vstd::prelude::*;

use crate::json::{
    fields, put_opt_v, strings_v, trees, Json, JsonV, NumberV, Obj,
};
use crate::question::{answers_json, matrix_json};
use crate::text::cat;

verus! {

/// The entries with a member that holds a document, where there is one.
pub open spec fn put_json_v(
    o: Seq<(Seq<char>, JsonV)>,
    key: Seq<char>,
    value: Option<JsonV>,
) -> Seq<(Seq<char>, JsonV)> {
    match value {
        Some(v) => o.push((key, v)),
        None => o,
    }
}

fn put_json(o: Obj, key: &str, value: &Option<Json>) -> (r: Obj)
    ensures
        r@ == put_json_v(o@, key@, value.deep_view()),
{
    match value {
        Some(v) => o.put(key, v.copy()),
        None => o,
    }
}

/// The entries with a member that holds a list, unless the list is empty.
pub open spec fn put_list_v(
    o: Seq<(Seq<char>, JsonV)>,
    key: Seq<char>,
    list: JsonV,
) -> Seq<(Seq<char>, JsonV)> {
    if list == JsonV::Array(Seq::empty()) {
        o
    } else {
        o.push((key, list))
    }
}

fn put_list(o: Obj, key: &str, list: Json) -> (r: Obj)
    ensures
        r@ == put_list_v(o@, key@, list@),
{
    let empty = match list.as_array() {
        Some(a) => {
            assert(list@ == JsonV::Array(trees(a@)));
            assert(a@.len() == 0 ==> trees(a@) =~= Seq::<JsonV>::empty());
            assert(a@.len() == trees(a@).len());
            a.len() == 0
        },
        None => false,
    };
    if empty {
        o
    } else {
        o.put(key, list)
    }
}

/// A map of texts as an object.
pub open spec fn pairs_v(m: Seq<(Seq<char>, Seq<char>)>) -> JsonV {
    JsonV::Object(m.map_values(|e: (Seq<char>, Seq<char>)| (e.0, JsonV::Str(e.1))))
}

fn pairs_json(m: &Vec<(String, String)>) -> (r: Json)
    ensures
        r@ == pairs_v(m.deep_view()),
{
    let mut o = Obj::new();
    let mut i: usize = 0;
    let ghost f = |e: (Seq<char>, Seq<char>)| (e.0, JsonV::Str(e.1));
    assert(o@ =~= m.deep_view().take(0).map_values(f));
    while i < m.len()
        invariant
            i <= m.len(),
            f == (|e: (Seq<char>, Seq<char>)| (e.0, JsonV::Str(e.1))),
            o@ == m.deep_view().take(i as int).map_values(f),
        decreases m.len() - i,
    {
        o = o.put_str(m[i].0.as_str(), m[i].1.as_str());
        assert(o@ =~= m.deep_view().take(i as int + 1).map_values(f));
        i += 1;
    }
    assert(m.deep_view().take(i as int) =~= m.deep_view());
    o.build()
}

/// One part of a prompt.
#[derive(Debug, PartialEq, Eq)]
pub enum PromptPart {
    /// Words.
    Text { text: String },
    /// A part of another type.
    Other,
}

/// Model of [`PromptPart`].
pub enum PromptPartV {
    Text { text: Seq<char> },
    Other,
}

impl View for PromptPart {
    type V = PromptPartV;

    open spec fn view(&self) -> PromptPartV {
        match self {
            PromptPart::Text { text } => PromptPartV::Text { text: text.deep_view() },
            PromptPart::Other => PromptPartV::Other,
        }
    }
}

impl DeepView for PromptPart {
    type V = PromptPartV;

    open spec fn deep_view(&self) -> PromptPartV {
        self@
    }
}

impl PromptPartV {
    /// The document that is sent.
    pub open spec fn json(self) -> JsonV {
        match self {
            PromptPartV::Text { text } => JsonV::Object(
                fields().push(("type"@, JsonV::Str("text"@))).push(("text"@, JsonV::Str(text))),
            ),
            PromptPartV::Other => JsonV::Object(fields().push(("type"@, JsonV::Str("other"@)))),
        }
    }
}

impl PromptPart {
    /// A part that holds words.
    pub fn text(text: &str) -> (r: PromptPart)
        ensures
            r@ == (PromptPartV::Text { text: text@ }),
    {
        PromptPart::Text { text: text.to_owned() }
    }

    /// The document that is sent.
    pub fn to_json(&self) -> (r: Json)
        ensures
            r@ == self@.json(),
    {
        match self {
            PromptPart::Text { text } => Obj::new().put_str("type", "text").put_str(
                "text",
                text.as_str(),
            ).build(),
            PromptPart::Other => Obj::new().put_str("type", "other").build(),
        }
    }
}

/// The documents of a list.
pub open spec fn parts_v(v: Seq<PromptPartV>) -> JsonV {
    JsonV::Array(v.map_values(|x: PromptPartV| x.json()))
}

fn parts_json(v: &Vec<PromptPart>) -> (r: Json)
    ensures
        r@ == parts_v(v.deep_view()),
{
    let mut out: Vec<Json> = Vec::new();
    let mut i: usize = 0;
    while i < v.len()
        invariant
            i <= v.len(),
            out.len() == i,
            forall|k: int| 0 <= k < i ==> (#[trigger] out@[k])@ == v@[k]@.json(),
        decreases v.len() - i,
    {
        out.push(v[i].to_json());
        i += 1;
    }
    assert(trees(out@) =~= parts_v(v.deep_view())->Array_0);
    Json::array(out)
}

/// The model of one prompt.
#[derive(Debug, PartialEq, Eq)]
pub struct PromptModel {
    pub provider_id: String,
    pub model_id: String,
}

/// Model of [`PromptModel`].
pub struct PromptModelV {
    pub provider_id: Seq<char>,
    pub model_id: Seq<char>,
}

impl View for PromptModel {
    type V = PromptModelV;

    open spec fn view(&self) -> PromptModelV {
        PromptModelV {
            provider_id: self.provider_id.deep_view(),
            model_id: self.model_id.deep_view(),
        }
    }
}

impl DeepView for PromptModel {
    type V = PromptModelV;

    open spec fn deep_view(&self) -> PromptModelV {
        self@
    }
}

impl PromptModelV {
    /// The document that is sent.
    pub open spec fn json(self) -> JsonV {
        let o = fields();
        let o = o.push(("providerID"@, JsonV::Str(self.provider_id)));
        let o = o.push(("modelID"@, JsonV::Str(self.model_id)));
        JsonV::Object(o)
    }
}

impl PromptModel {
    /// The document that is sent.
    pub fn to_json(&self) -> (r: Json)
        ensures
            r@ == self@.json(),
    {
        let o = Obj::new();
        let o = o.put_str("providerID", self.provider_id.as_str());
        let o = o.put_str("modelID", self.model_id.as_str());
        o.build()
    }
}

/// Body of `POST /session/{id}/prompt_async`.
#[derive(Debug, PartialEq, Eq)]
pub struct OpencodePromptRequest {
    pub parts: Vec<PromptPart>,
    /// Only valid on a session that was just created.
    pub message_id: Option<String>,
    /// A hint on the local file tools; none where the server runs the tools.
    pub system: Option<String>,
    pub model: Option<PromptModel>,
    pub agent: Option<String>,
    /// Skills to surface; left out where there are none.
    pub skills: Vec<String>,
}

/// Model of [`OpencodePromptRequest`].
pub struct OpencodePromptRequestV {
    pub parts: Seq<PromptPartV>,
    pub message_id: Option<Seq<char>>,
    pub system: Option<Seq<char>>,
    pub model: Option<PromptModelV>,
    pub agent: Option<Seq<char>>,
    pub skills: Seq<Seq<char>>,
}

impl View for OpencodePromptRequest {
    type V = OpencodePromptRequestV;

    open spec fn view(&self) -> OpencodePromptRequestV {
        OpencodePromptRequestV {
            parts: self.parts.deep_view(),
            message_id: self.message_id.deep_view(),
            system: self.system.deep_view(),
            model: self.model.deep_view(),
            agent: self.agent.deep_view(),
            skills: self.skills.deep_view(),
        }
    }
}

impl DeepView for OpencodePromptRequest {
    type V = OpencodePromptRequestV;

    open spec fn deep_view(&self) -> OpencodePromptRequestV {
        self@
    }
}

impl OpencodePromptRequestV {
    /// The document that is sent.
    pub open spec fn json(self) -> JsonV {
        let o = fields();
        let o = o.push(("parts"@, parts_v(self.parts)));
        let o = put_opt_v(o, "messageID"@, self.message_id);
        let o = put_opt_v(o, "system"@, self.system);
        let o = match self.model {
            Some(x) => o.push(("model"@, x.json())),
            None => o,
        };
        let o = put_opt_v(o, "agent"@, self.agent);
        let o = put_list_v(o, "skills"@, strings_v(self.skills));
        JsonV::Object(o)
    }
}

impl OpencodePromptRequest {
    /// The document that is sent.
    pub fn to_json(&self) -> (r: Json)
        ensures
            r@ == self@.json(),
    {
        let o = Obj::new();
        let o = o.put("parts", parts_json(&self.parts));
        let o = o.put_opt("messageID", &self.message_id);
        let o = o.put_opt("system", &self.system);
        let o = match &self.model {
            Some(x) => o.put("model", x.to_json()),
            None => o,
        };
        let o = o.put_opt("agent", &self.agent);
        let o = put_list(o, "skills", Json::strings(&self.skills));
        o.build()
    }

    /// A prompt of words alone.
    pub fn text(text: &str) -> (r: OpencodePromptRequest)
        ensures
            r@ == prompt_of(text@),
    {
        let part = PromptPart::text(text);
        let ghost pv = part@;
        let parts = vec![part];
        assert(parts.deep_view() =~= seq![pv]);
        let skills: Vec<String> = Vec::new();
        assert(skills.deep_view() =~= Seq::<Seq<char>>::empty());
        OpencodePromptRequest {
            parts,
            message_id: None,
            system: None,
            model: None,
            agent: None,
            skills,
        }
    }
}

/// A prompt of words alone.
pub open spec fn prompt_of(text: Seq<char>) -> OpencodePromptRequestV {
    OpencodePromptRequestV {
        parts: seq![PromptPartV::Text { text }],
        message_id: None,
        system: None,
        model: None,
        agent: None,
        skills: Seq::empty(),
    }
}

/// One rule on what a session may do.
#[derive(Debug, PartialEq, Eq)]
pub struct PermissionRule {
    pub permission: String,
    pub pattern: String,
    pub action: String,
}

/// Model of [`PermissionRule`].
pub struct PermissionRuleV {
    pub permission: Seq<char>,
    pub pattern: Seq<char>,
    pub action: Seq<char>,
}

impl View for PermissionRule {
    type V = PermissionRuleV;

    open spec fn view(&self) -> PermissionRuleV {
        PermissionRuleV {
            permission: self.permission.deep_view(),
            pattern: self.pattern.deep_view(),
            action: self.action.deep_view(),
        }
    }
}

impl DeepView for PermissionRule {
    type V = PermissionRuleV;

    open spec fn deep_view(&self) -> PermissionRuleV {
        self@
    }
}

impl PermissionRuleV {
    /// The document that is sent.
    pub open spec fn json(self) -> JsonV {
        let o = fields();
        let o = o.push(("permission"@, JsonV::Str(self.permission)));
        let o = o.push(("pattern"@, JsonV::Str(self.pattern)));
        let o = o.push(("action"@, JsonV::Str(self.action)));
        JsonV::Object(o)
    }
}

impl PermissionRule {
    /// The document that is sent.
    pub fn to_json(&self) -> (r: Json)
        ensures
            r@ == self@.json(),
    {
        let o = Obj::new();
        let o = o.put_str("permission", self.permission.as_str());
        let o = o.put_str("pattern", self.pattern.as_str());
        let o = o.put_str("action", self.action.as_str());
        o.build()
    }

    /// Denies a tool altogether.
    pub fn deny(tool: &str) -> (r: PermissionRule)
        ensures
            r@ == denied(tool@),
    {
        PermissionRule {
            permission: tool.to_owned(),
            pattern: "*".to_owned(),
            action: "deny".to_owned(),
        }
    }
}

/// The rule that denies a tool altogether.
pub open spec fn denied(tool: Seq<char>) -> PermissionRuleV {
    PermissionRuleV { permission: tool, pattern: "*"@, action: "deny"@ }
}

/// The documents of a list.
pub open spec fn rules_v(v: Seq<PermissionRuleV>) -> JsonV {
    JsonV::Array(v.map_values(|x: PermissionRuleV| x.json()))
}

fn rules_json(v: &Vec<PermissionRule>) -> (r: Json)
    ensures
        r@ == rules_v(v.deep_view()),
{
    let mut out: Vec<Json> = Vec::new();
    let mut i: usize = 0;
    while i < v.len()
        invariant
            i <= v.len(),
            out.len() == i,
            forall|k: int| 0 <= k < i ==> (#[trigger] out@[k])@ == v@[k]@.json(),
        decreases v.len() - i,
    {
        out.push(v[i].to_json());
        i += 1;
    }
    assert(trees(out@) =~= rules_v(v.deep_view())->Array_0);
    Json::array(out)
}

/// Body of `POST /session`.
#[derive(Debug, PartialEq, Eq)]
pub struct OpencodeSessionCreate {
    /// Rules on the server's own tools; left out where there are none.
    pub permission: Vec<PermissionRule>,
}

/// Model of [`OpencodeSessionCreate`].
pub struct OpencodeSessionCreateV {
    pub permission: Seq<PermissionRuleV>,
}

impl View for OpencodeSessionCreate {
    type V = OpencodeSessionCreateV;

    open spec fn view(&self) -> OpencodeSessionCreateV {
        OpencodeSessionCreateV {
            permission: self.permission.deep_view(),
        }
    }
}

impl DeepView for OpencodeSessionCreate {
    type V = OpencodeSessionCreateV;

    open spec fn deep_view(&self) -> OpencodeSessionCreateV {
        self@
    }
}

impl OpencodeSessionCreateV {
    /// The document that is sent.
    pub open spec fn json(self) -> JsonV {
        let o = fields();
        let o = put_list_v(o, "permission"@, rules_v(self.permission));
        JsonV::Object(o)
    }
}

impl OpencodeSessionCreate {
    /// The document that is sent.
    pub fn to_json(&self) -> (r: Json)
        ensures
            r@ == self@.json(),
    {
        let o = Obj::new();
        let o = put_list(o, "permission", rules_json(&self.permission));
        o.build()
    }

    /// Denies the server's own tools, so that only the local file tools are left.
    pub fn deny_builtin_tools() -> (r: OpencodeSessionCreate)
        ensures
            r@.permission == builtin_denials(),
    {
        let permission = vec![
            PermissionRule::deny("bash"),
            PermissionRule::deny("read"),
            PermissionRule::deny("edit"),
            PermissionRule::deny("glob"),
            PermissionRule::deny("grep"),
        ];
        assert(permission.deep_view() =~= builtin_denials());
        OpencodeSessionCreate { permission }
    }
}

/// The rules that deny the server's own tools.
pub open spec fn builtin_denials() -> Seq<PermissionRuleV> {
    seq![denied("bash"@), denied("read"@), denied("edit"@), denied("glob"@), denied("grep"@)]
}

impl Default for OpencodeSessionCreate {
    /// A session without rules.
    fn default() -> (r: OpencodeSessionCreate)
        ensures
            r@.permission == Seq::<PermissionRuleV>::empty(),
    {
        let permission: Vec<PermissionRule> = Vec::new();
        assert(permission.deep_view() =~= Seq::<PermissionRuleV>::empty());
        OpencodeSessionCreate { permission }
    }
}

/// Body of `POST /session/{id}/fork`. The fork holds the messages strictly before
/// the given one, or all of them.
#[derive(Debug, PartialEq, Eq)]
pub struct OpencodeForkRequest {
    pub message_id: Option<String>,
}

/// Model of [`OpencodeForkRequest`].
pub struct OpencodeForkRequestV {
    pub message_id: Option<Seq<char>>,
}

impl View for OpencodeForkRequest {
    type V = OpencodeForkRequestV;

    open spec fn view(&self) -> OpencodeForkRequestV {
        OpencodeForkRequestV {
            message_id: self.message_id.deep_view(),
        }
    }
}

impl DeepView for OpencodeForkRequest {
    type V = OpencodeForkRequestV;

    open spec fn deep_view(&self) -> OpencodeForkRequestV {
        self@
    }
}

impl OpencodeForkRequestV {
    /// The document that is sent.
    pub open spec fn json(self) -> JsonV {
        let o = fields();
        let o = put_opt_v(o, "messageID"@, self.message_id);
        JsonV::Object(o)
    }
}

impl OpencodeForkRequest {
    /// The document that is sent.
    pub fn to_json(&self) -> (r: Json)
        ensures
            r@ == self@.json(),
    {
        let o = Obj::new();
        let o = o.put_opt("messageID", &self.message_id);
        o.build()
    }
}

impl Default for OpencodeForkRequest {
    /// A body without values.
    fn default() -> (r: OpencodeForkRequest)
        ensures
            r@.message_id == None::<Seq<char>>,
    {
        OpencodeForkRequest { message_id: None }
    }
}

/// Body of `POST /session/{id}/revert`.
#[derive(Debug, PartialEq, Eq)]
pub struct OpencodeRevertRequest {
    pub message_id: String,
    pub part_id: Option<String>,
}

/// Model of [`OpencodeRevertRequest`].
pub struct OpencodeRevertRequestV {
    pub message_id: Seq<char>,
    pub part_id: Option<Seq<char>>,
}

impl View for OpencodeRevertRequest {
    type V = OpencodeRevertRequestV;

    open spec fn view(&self) -> OpencodeRevertRequestV {
        OpencodeRevertRequestV {
            message_id: self.message_id.deep_view(),
            part_id: self.part_id.deep_view(),
        }
    }
}

impl DeepView for OpencodeRevertRequest {
    type V = OpencodeRevertRequestV;

    open spec fn deep_view(&self) -> OpencodeRevertRequestV {
        self@
    }
}

impl OpencodeRevertRequestV {
    /// The document that is sent.
    pub open spec fn json(self) -> JsonV {
        let o = fields();
        let o = o.push(("messageID"@, JsonV::Str(self.message_id)));
        let o = put_opt_v(o, "partID"@, self.part_id);
        JsonV::Object(o)
    }
}

impl OpencodeRevertRequest {
    /// The document that is sent.
    pub fn to_json(&self) -> (r: Json)
        ensures
            r@ == self@.json(),
    {
        let o = Obj::new();
        let o = o.put_str("messageID", self.message_id.as_str());
        let o = o.put_opt("partID", &self.part_id);
        o.build()
    }
}

/// Body of `POST /session/{id}/summarize`.
#[derive(Debug, PartialEq, Eq)]
pub struct OpencodeSummarizeRequest {
    pub provider_id: String,
    pub model_id: String,
}

/// Model of [`OpencodeSummarizeRequest`].
pub struct OpencodeSummarizeRequestV {
    pub provider_id: Seq<char>,
    pub model_id: Seq<char>,
}

impl View for OpencodeSummarizeRequest {
    type V = OpencodeSummarizeRequestV;

    open spec fn view(&self) -> OpencodeSummarizeRequestV {
        OpencodeSummarizeRequestV {
            provider_id: self.provider_id.deep_view(),
            model_id: self.model_id.deep_view(),
        }
    }
}

impl DeepView for OpencodeSummarizeRequest {
    type V = OpencodeSummarizeRequestV;

    open spec fn deep_view(&self) -> OpencodeSummarizeRequestV {
        self@
    }
}

impl OpencodeSummarizeRequestV {
    /// The document that is sent.
    pub open spec fn json(self) -> JsonV {
        let o = fields();
        let o = o.push(("providerID"@, JsonV::Str(self.provider_id)));
        let o = o.push(("modelID"@, JsonV::Str(self.model_id)));
        JsonV::Object(o)
    }
}

impl OpencodeSummarizeRequest {
    /// The document that is sent.
    pub fn to_json(&self) -> (r: Json)
        ensures
            r@ == self@.json(),
    {
        let o = Obj::new();
        let o = o.put_str("providerID", self.provider_id.as_str());
        let o = o.put_str("modelID", self.model_id.as_str());
        o.build()
    }
}

/// Body of `POST /permission/{id}/reply`: `once`, `always` or `reject`.
#[derive(Debug, PartialEq, Eq)]
pub struct OpencodePermissionReply {
    pub reply: String,
}

/// Model of [`OpencodePermissionReply`].
pub struct OpencodePermissionReplyV {
    pub reply: Seq<char>,
}

impl View for OpencodePermissionReply {
    type V = OpencodePermissionReplyV;

    open spec fn view(&self) -> OpencodePermissionReplyV {
        OpencodePermissionReplyV {
            reply: self.reply.deep_view(),
        }
    }
}

impl DeepView for OpencodePermissionReply {
    type V = OpencodePermissionReplyV;

    open spec fn deep_view(&self) -> OpencodePermissionReplyV {
        self@
    }
}

impl OpencodePermissionReplyV {
    /// The document that is sent.
    pub open spec fn json(self) -> JsonV {
        let o = fields();
        let o = o.push(("reply"@, JsonV::Str(self.reply)));
        JsonV::Object(o)
    }
}

impl OpencodePermissionReply {
    /// The document that is sent.
    pub fn to_json(&self) -> (r: Json)
        ensures
            r@ == self@.json(),
    {
        let o = Obj::new();
        let o = o.put_str("reply", self.reply.as_str());
        o.build()
    }

    /// The body with a reply.
    pub fn new(reply: &str) -> (r: OpencodePermissionReply)
        ensures
            r@.reply == reply@,
    {
        OpencodePermissionReply { reply: reply.to_owned() }
    }
}

/// Body of `POST /question/{id}/reply`: for each question the chosen labels.
#[derive(Debug, PartialEq, Eq)]
pub struct OpencodeQuestionReply {
    pub answers: Vec<Vec<String>>,
}

/// Model of [`OpencodeQuestionReply`].
pub struct OpencodeQuestionReplyV {
    pub answers: Seq<Seq<Seq<char>>>,
}

impl View for OpencodeQuestionReply {
    type V = OpencodeQuestionReplyV;

    open spec fn view(&self) -> OpencodeQuestionReplyV {
        OpencodeQuestionReplyV {
            answers: self.answers.deep_view(),
        }
    }
}

impl DeepView for OpencodeQuestionReply {
    type V = OpencodeQuestionReplyV;

    open spec fn deep_view(&self) -> OpencodeQuestionReplyV {
        self@
    }
}

impl OpencodeQuestionReplyV {
    /// The document that is sent.
    pub open spec fn json(self) -> JsonV {
        let o = fields();
        let o = o.push(("answers"@, matrix_json(self.answers)));
        JsonV::Object(o)
    }
}

impl OpencodeQuestionReply {
    /// The document that is sent.
    pub fn to_json(&self) -> (r: Json)
        ensures
            r@ == self@.json(),
    {
        let o = Obj::new();
        let o = o.put("answers", answers_json(&self.answers));
        o.build()
    }
}

/// Body of `POST /session/{id}/command`.
#[derive(Debug, PartialEq, Eq)]
pub struct OpencodeCommandRequest {
    pub command: String,
    pub agent: Option<String>,
    pub model: Option<String>,
}

/// Model of [`OpencodeCommandRequest`].
pub struct OpencodeCommandRequestV {
    pub command: Seq<char>,
    pub agent: Option<Seq<char>>,
    pub model: Option<Seq<char>>,
}

impl View for OpencodeCommandRequest {
    type V = OpencodeCommandRequestV;

    open spec fn view(&self) -> OpencodeCommandRequestV {
        OpencodeCommandRequestV {
            command: self.command.deep_view(),
            agent: self.agent.deep_view(),
            model: self.model.deep_view(),
        }
    }
}

impl DeepView for OpencodeCommandRequest {
    type V = OpencodeCommandRequestV;

    open spec fn deep_view(&self) -> OpencodeCommandRequestV {
        self@
    }
}

impl OpencodeCommandRequestV {
    /// The document that is sent.
    pub open spec fn json(self) -> JsonV {
        let o = fields();
        let o = o.push(("command"@, JsonV::Str(self.command)));
        let o = put_opt_v(o, "agent"@, self.agent);
        let o = put_opt_v(o, "model"@, self.model);
        JsonV::Object(o)
    }
}

impl OpencodeCommandRequest {
    /// The document that is sent.
    pub fn to_json(&self) -> (r: Json)
        ensures
            r@ == self@.json(),
    {
        let o = Obj::new();
        let o = o.put_str("command", self.command.as_str());
        let o = o.put_opt("agent", &self.agent);
        let o = o.put_opt("model", &self.model);
        o.build()
    }
}

/// The words of a prompt.
#[derive(Debug, PartialEq, Eq)]
pub struct OpencodeV2PromptText {
    pub text: String,
    pub files: Vec<String>,
    pub agent: Option<String>,
    pub reference: Option<Json>,
}

/// Model of [`OpencodeV2PromptText`].
pub struct OpencodeV2PromptTextV {
    pub text: Seq<char>,
    pub files: Seq<Seq<char>>,
    pub agent: Option<Seq<char>>,
    pub reference: Option<JsonV>,
}

impl View for OpencodeV2PromptText {
    type V = OpencodeV2PromptTextV;

    open spec fn view(&self) -> OpencodeV2PromptTextV {
        OpencodeV2PromptTextV {
            text: self.text.deep_view(),
            files: self.files.deep_view(),
            agent: self.agent.deep_view(),
            reference: self.reference.deep_view(),
        }
    }
}

impl DeepView for OpencodeV2PromptText {
    type V = OpencodeV2PromptTextV;

    open spec fn deep_view(&self) -> OpencodeV2PromptTextV {
        self@
    }
}

impl OpencodeV2PromptTextV {
    /// The document that is sent.
    pub open spec fn json(self) -> JsonV {
        let o = fields();
        let o = o.push(("text"@, JsonV::Str(self.text)));
        let o = put_list_v(o, "files"@, strings_v(self.files));
        let o = put_opt_v(o, "agent"@, self.agent);
        let o = put_json_v(o, "reference"@, self.reference);
        JsonV::Object(o)
    }
}

impl OpencodeV2PromptText {
    /// The document that is sent.
    pub fn to_json(&self) -> (r: Json)
        ensures
            r@ == self@.json(),
    {
        let o = Obj::new();
        let o = o.put_str("text", self.text.as_str());
        let o = put_list(o, "files", Json::strings(&self.files));
        let o = o.put_opt("agent", &self.agent);
        let o = put_json(o, "reference", &self.reference);
        o.build()
    }
}

/// Body of `POST /api/session/{id}/prompt`.
#[derive(Debug, PartialEq, Eq)]
pub struct OpencodeV2PromptRequest {
    pub prompt: OpencodeV2PromptText,
    /// `immediate` or `deferred`.
    pub delivery: Option<String>,
}

/// Model of [`OpencodeV2PromptRequest`].
pub struct OpencodeV2PromptRequestV {
    pub prompt: OpencodeV2PromptTextV,
    pub delivery: Option<Seq<char>>,
}

impl View for OpencodeV2PromptRequest {
    type V = OpencodeV2PromptRequestV;

    open spec fn view(&self) -> OpencodeV2PromptRequestV {
        OpencodeV2PromptRequestV {
            prompt: self.prompt.deep_view(),
            delivery: self.delivery.deep_view(),
        }
    }
}

impl DeepView for OpencodeV2PromptRequest {
    type V = OpencodeV2PromptRequestV;

    open spec fn deep_view(&self) -> OpencodeV2PromptRequestV {
        self@
    }
}

impl OpencodeV2PromptRequestV {
    /// The document that is sent.
    pub open spec fn json(self) -> JsonV {
        let o = fields();
        let o = o.push(("prompt"@, self.prompt.json()));
        let o = put_opt_v(o, "delivery"@, self.delivery);
        JsonV::Object(o)
    }
}

impl OpencodeV2PromptRequest {
    /// The document that is sent.
    pub fn to_json(&self) -> (r: Json)
        ensures
            r@ == self@.json(),
    {
        let o = Obj::new();
        let o = o.put("prompt", self.prompt.to_json());
        let o = o.put_opt("delivery", &self.delivery);
        o.build()
    }
}

/// Body of `POST /api/session/{id}/compact`.
#[derive(Debug, PartialEq, Eq)]
pub struct OpencodeV2CompactRequest {
    pub instructions: Option<String>,
}

/// Model of [`OpencodeV2CompactRequest`].
pub struct OpencodeV2CompactRequestV {
    pub instructions: Option<Seq<char>>,
}

impl View for OpencodeV2CompactRequest {
    type V = OpencodeV2CompactRequestV;

    open spec fn view(&self) -> OpencodeV2CompactRequestV {
        OpencodeV2CompactRequestV {
            instructions: self.instructions.deep_view(),
        }
    }
}

impl DeepView for OpencodeV2CompactRequest {
    type V = OpencodeV2CompactRequestV;

    open spec fn deep_view(&self) -> OpencodeV2CompactRequestV {
        self@
    }
}

impl OpencodeV2CompactRequestV {
    /// The document that is sent.
    pub open spec fn json(self) -> JsonV {
        let o = fields();
        let o = put_opt_v(o, "instructions"@, self.instructions);
        JsonV::Object(o)
    }
}

impl OpencodeV2CompactRequest {
    /// The document that is sent.
    pub fn to_json(&self) -> (r: Json)
        ensures
            r@ == self@.json(),
    {
        let o = Obj::new();
        let o = o.put_opt("instructions", &self.instructions);
        o.build()
    }
}

impl Default for OpencodeV2CompactRequest {
    /// A body without values.
    fn default() -> (r: OpencodeV2CompactRequest)
        ensures
            r@.instructions == None::<Seq<char>>,
    {
        OpencodeV2CompactRequest { instructions: None }
    }
}

/// How the server reaches a tool host.
#[derive(Debug, PartialEq, Eq)]
pub struct OpencodeMcpRemoteConfig {
    pub transport_type: String,
    pub url: String,
    pub enabled: bool,
    pub oauth: bool,
    pub headers: Vec<(String, String)>,
    /// In milliseconds.
    pub timeout: u64,
}

/// Model of [`OpencodeMcpRemoteConfig`].
pub struct OpencodeMcpRemoteConfigV {
    pub transport_type: Seq<char>,
    pub url: Seq<char>,
    pub enabled: bool,
    pub oauth: bool,
    pub headers: Seq<(Seq<char>, Seq<char>)>,
    pub timeout: u64,
}

impl View for OpencodeMcpRemoteConfig {
    type V = OpencodeMcpRemoteConfigV;

    open spec fn view(&self) -> OpencodeMcpRemoteConfigV {
        OpencodeMcpRemoteConfigV {
            transport_type: self.transport_type.deep_view(),
            url: self.url.deep_view(),
            enabled: self.enabled.deep_view(),
            oauth: self.oauth.deep_view(),
            headers: self.headers.deep_view(),
            timeout: self.timeout.deep_view(),
        }
    }
}

impl DeepView for OpencodeMcpRemoteConfig {
    type V = OpencodeMcpRemoteConfigV;

    open spec fn deep_view(&self) -> OpencodeMcpRemoteConfigV {
        self@
    }
}

impl OpencodeMcpRemoteConfigV {
    /// The document that is sent.
    pub open spec fn json(self) -> JsonV {
        let o = fields();
        let o = o.push(("type"@, JsonV::Str(self.transport_type)));
        let o = o.push(("url"@, JsonV::Str(self.url)));
        let o = o.push(("enabled"@, JsonV::Bool(self.enabled)));
        let o = o.push(("oauth"@, JsonV::Bool(self.oauth)));
        let o = o.push(("headers"@, pairs_v(self.headers)));
        let o = o.push(("timeout"@, JsonV::Number(NumberV::Unsigned(self.timeout))));
        JsonV::Object(o)
    }
}

impl OpencodeMcpRemoteConfig {
    /// The document that is sent.
    pub fn to_json(&self) -> (r: Json)
        ensures
            r@ == self@.json(),
    {
        let o = Obj::new();
        let o = o.put_str("type", self.transport_type.as_str());
        let o = o.put_str("url", self.url.as_str());
        let o = o.put_bool("enabled", self.enabled);
        let o = o.put_bool("oauth", self.oauth);
        let o = o.put("headers", pairs_json(&self.headers));
        let o = o.put("timeout", Json::number(self.timeout));
        o.build()
    }

    /// A host that is reached by URL, with a bearer token.
    pub fn remote(url: &str, bearer_token: &str, timeout_ms: u64) -> (r: OpencodeMcpRemoteConfig)
        ensures
            r@ == remote_host(url@, bearer_token@, timeout_ms),
    {
        let headers = vec![("Authorization".to_owned(), cat("Bearer ", bearer_token))];
        assert(headers.deep_view() =~= seq![("Authorization"@, "Bearer "@ + bearer_token@)]);
        OpencodeMcpRemoteConfig {
            transport_type: "remote".to_owned(),
            url: url.to_owned(),
            enabled: true,
            oauth: false,
            headers,
            timeout: timeout_ms,
        }
    }
}

/// A host that is reached by URL, with a bearer token.
pub open spec fn remote_host(url: Seq<char>, token: Seq<char>, timeout: u64) -> OpencodeMcpRemoteConfigV {
    OpencodeMcpRemoteConfigV {
        transport_type: "remote"@,
        url,
        enabled: true,
        oauth: false,
        headers: seq![("Authorization"@, "Bearer "@ + token)],
        timeout,
    }
}

/// Body of `POST /mcp`.
#[derive(Debug, PartialEq, Eq)]
pub struct OpencodeMcpAddRequest {
    pub name: String,
    pub config: OpencodeMcpRemoteConfig,
}

/// Model of [`OpencodeMcpAddRequest`].
pub struct OpencodeMcpAddRequestV {
    pub name: Seq<char>,
    pub config: OpencodeMcpRemoteConfigV,
}

impl View for OpencodeMcpAddRequest {
    type V = OpencodeMcpAddRequestV;

    open spec fn view(&self) -> OpencodeMcpAddRequestV {
        OpencodeMcpAddRequestV {
            name: self.name.deep_view(),
            config: self.config.deep_view(),
        }
    }
}

impl DeepView for OpencodeMcpAddRequest {
    type V = OpencodeMcpAddRequestV;

    open spec fn deep_view(&self) -> OpencodeMcpAddRequestV {
        self@
    }
}

impl OpencodeMcpAddRequestV {
    /// The document that is sent.
    pub open spec fn json(self) -> JsonV {
        let o = fields();
        let o = o.push(("name"@, JsonV::Str(self.name)));
        let o = o.push(("config"@, self.config.json()));
        JsonV::Object(o)
    }
}

impl OpencodeMcpAddRequest {
    /// The document that is sent.
    pub fn to_json(&self) -> (r: Json)
        ensures
            r@ == self@.json(),
    {
        let o = Obj::new();
        let o = o.put_str("name", self.name.as_str());
        let o = o.put("config", self.config.to_json());
        o.build()
    }
}

/// Body of `PUT /auth/{providerID}`.
#[derive(Debug, PartialEq, Eq)]
pub enum OpencodeAuthBody {
    /// A key.
    Api { key: String },
    /// A key with a token.
    WellKnown { key: String, token: String },
    /// Anything else, as it is.
    Other(Json),
}

/// Model of [`OpencodeAuthBody`].
pub enum OpencodeAuthBodyV {
    Api { key: Seq<char> },
    WellKnown { key: Seq<char>, token: Seq<char> },
    Other(JsonV),
}

impl View for OpencodeAuthBody {
    type V = OpencodeAuthBodyV;

    open spec fn view(&self) -> OpencodeAuthBodyV {
        match self {
            OpencodeAuthBody::Api { key } => OpencodeAuthBodyV::Api { key: key.deep_view() },
            OpencodeAuthBody::WellKnown { key, token } => OpencodeAuthBodyV::WellKnown { key: key.deep_view(), token: token.deep_view() },
            OpencodeAuthBody::Other(x) => OpencodeAuthBodyV::Other(x.deep_view()),
        }
    }
}

impl DeepView for OpencodeAuthBody {
    type V = OpencodeAuthBodyV;

    open spec fn deep_view(&self) -> OpencodeAuthBodyV {
        self@
    }
}

impl OpencodeAuthBodyV {
    /// The document that is sent.
    pub open spec fn json(self) -> JsonV {
        match self {
            OpencodeAuthBodyV::Api { key } => JsonV::Object(
                fields().push(("type"@, JsonV::Str("api"@))).push(("key"@, JsonV::Str(key))),
            ),
            OpencodeAuthBodyV::WellKnown { key, token } => JsonV::Object(
                fields().push(("type"@, JsonV::Str("wellknown"@))).push(
                    ("key"@, JsonV::Str(key)),
                ).push(("token"@, JsonV::Str(token))),
            ),
            OpencodeAuthBodyV::Other(v) => v,
        }
    }
}

impl OpencodeAuthBody {
    /// A key.
    pub fn api(key: &str) -> (r: OpencodeAuthBody)
        ensures
            r@ == (OpencodeAuthBodyV::Api { key: key@ }),
    {
        OpencodeAuthBody::Api { key: key.to_owned() }
    }

    /// A key with a token.
    pub fn wellknown(key: &str, token: &str) -> (r: OpencodeAuthBody)
        ensures
            r@ == (OpencodeAuthBodyV::WellKnown { key: key@, token: token@ }),
    {
        OpencodeAuthBody::WellKnown { key: key.to_owned(), token: token.to_owned() }
    }

    /// The document that is sent.
    pub fn to_json(&self) -> (r: Json)
        ensures
            r@ == self@.json(),
    {
        match self {
            OpencodeAuthBody::Api { key } => Obj::new().put_str("type", "api").put_str(
                "key",
                key.as_str(),
            ).build(),
            OpencodeAuthBody::WellKnown { key, token } => Obj::new().put_str(
                "type",
                "wellknown",
            ).put_str("key", key.as_str()).put_str("token", token.as_str()).build(),
            OpencodeAuthBody::Other(v) => v.copy(),
        }
    }
}

/// Body of `POST /provider/{providerID}/oauth/authorize`.
#[derive(Debug, PartialEq, Eq)]
pub struct OpencodeOAuthAuthorizeRequest {
    /// Which of the provider's methods.
    pub method: u32,
    /// What the method asks for.
    pub inputs: Option<Vec<(String, String)>>,
}

/// Model of [`OpencodeOAuthAuthorizeRequest`].
pub struct OpencodeOAuthAuthorizeRequestV {
    pub method: u32,
    pub inputs: Option<Seq<(Seq<char>, Seq<char>)>>,
}

impl View for OpencodeOAuthAuthorizeRequest {
    type V = OpencodeOAuthAuthorizeRequestV;

    open spec fn view(&self) -> OpencodeOAuthAuthorizeRequestV {
        OpencodeOAuthAuthorizeRequestV {
            method: self.method.deep_view(),
            inputs: self.inputs.deep_view(),
        }
    }
}

impl DeepView for OpencodeOAuthAuthorizeRequest {
    type V = OpencodeOAuthAuthorizeRequestV;

    open spec fn deep_view(&self) -> OpencodeOAuthAuthorizeRequestV {
        self@
    }
}

impl OpencodeOAuthAuthorizeRequestV {
    /// The document that is sent.
    pub open spec fn json(self) -> JsonV {
        let o = fields();
        let o = o.push(("method"@, JsonV::Number(NumberV::Unsigned(self.method as u64))));
        let o = match self.inputs {
            Some(x) => o.push(("inputs"@, pairs_v(x))),
            None => o,
        };
        JsonV::Object(o)
    }
}

impl OpencodeOAuthAuthorizeRequest {
    /// The document that is sent.
    pub fn to_json(&self) -> (r: Json)
        ensures
            r@ == self@.json(),
    {
        let o = Obj::new();
        let o = o.put("method", Json::number(self.method as u64));
        let o = match &self.inputs {
            Some(x) => o.put("inputs", pairs_json(x)),
            None => o,
        };
        o.build()
    }
}

impl Default for OpencodeOAuthAuthorizeRequest {
    /// A body without values.
    fn default() -> (r: OpencodeOAuthAuthorizeRequest)
        ensures
            r@.method == 0,
            r@.inputs == None::<Seq<(Seq<char>, Seq<char>)>>,
    {
        OpencodeOAuthAuthorizeRequest { method: 0, inputs: None }
    }
}

/// Body of `POST /provider/{providerID}/oauth/callback`.
#[derive(Debug, PartialEq, Eq)]
pub struct OpencodeOAuthCallbackRequest {
    pub method: u32,
    pub code: Option<String>,
}

/// Model of [`OpencodeOAuthCallbackRequest`].
pub struct OpencodeOAuthCallbackRequestV {
    pub method: u32,
    pub code: Option<Seq<char>>,
}

impl View for OpencodeOAuthCallbackRequest {
    type V = OpencodeOAuthCallbackRequestV;

    open spec fn view(&self) -> OpencodeOAuthCallbackRequestV {
        OpencodeOAuthCallbackRequestV {
            method: self.method.deep_view(),
            code: self.code.deep_view(),
        }
    }
}

impl DeepView for OpencodeOAuthCallbackRequest {
    type V = OpencodeOAuthCallbackRequestV;

    open spec fn deep_view(&self) -> OpencodeOAuthCallbackRequestV {
        self@
    }
}

impl OpencodeOAuthCallbackRequestV {
    /// The document that is sent.
    pub open spec fn json(self) -> JsonV {
        let o = fields();
        let o = o.push(("method"@, JsonV::Number(NumberV::Unsigned(self.method as u64))));
        let o = put_opt_v(o, "code"@, self.code);
        JsonV::Object(o)
    }
}

impl OpencodeOAuthCallbackRequest {
    /// The document that is sent.
    pub fn to_json(&self) -> (r: Json)
        ensures
            r@ == self@.json(),
    {
        let o = Obj::new();
        let o = o.put("method", Json::number(self.method as u64));
        let o = o.put_opt("code", &self.code);
        o.build()
    }
}

impl Default for OpencodeOAuthCallbackRequest {
    /// A body without values.
    fn default() -> (r: OpencodeOAuthCallbackRequest)
        ensures
            r@.method == 0,
            r@.code == None::<Seq<char>>,
    {
        OpencodeOAuthCallbackRequest { method: 0, code: None }
    }
}

/// Body of `POST /sync/steal`.
#[derive(Debug, PartialEq, Eq)]
pub struct OpencodeSyncStealRequest {
    pub session_id: String,
}

/// Model of [`OpencodeSyncStealRequest`].
pub struct OpencodeSyncStealRequestV {
    pub session_id: Seq<char>,
}

impl View for OpencodeSyncStealRequest {
    type V = OpencodeSyncStealRequestV;

    open spec fn view(&self) -> OpencodeSyncStealRequestV {
        OpencodeSyncStealRequestV {
            session_id: self.session_id.deep_view(),
        }
    }
}

impl DeepView for OpencodeSyncStealRequest {
    type V = OpencodeSyncStealRequestV;

    open spec fn deep_view(&self) -> OpencodeSyncStealRequestV {
        self@
    }
}

impl OpencodeSyncStealRequestV {
    /// The document that is sent.
    pub open spec fn json(self) -> JsonV {
        let o = fields();
        let o = o.push(("sessionID"@, JsonV::Str(self.session_id)));
        JsonV::Object(o)
    }
}

impl OpencodeSyncStealRequest {
    /// The document that is sent.
    pub fn to_json(&self) -> (r: Json)
        ensures
            r@ == self@.json(),
    {
        let o = Obj::new();
        let o = o.put_str("sessionID", self.session_id.as_str());
        o.build()
    }
}

/// Body of `POST /sync/history`: for each aggregate the last number that is known.
#[derive(Debug, PartialEq, Eq)]
pub struct OpencodeSyncHistoryRequest(pub Vec<(String, u64)>);

impl View for OpencodeSyncHistoryRequest {
    type V = Seq<(Seq<char>, u64)>;

    open spec fn view(&self) -> Seq<(Seq<char>, u64)> {
        self.0.deep_view()
    }
}

impl Default for OpencodeSyncHistoryRequest {
    /// Nothing is known.
    fn default() -> (r: OpencodeSyncHistoryRequest)
        ensures
            r@ == Seq::<(Seq<char>, u64)>::empty(),
    {
        let r = OpencodeSyncHistoryRequest(Vec::new());
        assert(r@ =~= Seq::<(Seq<char>, u64)>::empty());
        r
    }
}

/// The document that asks for what followed.
pub open spec fn history_json(known: Seq<(Seq<char>, u64)>) -> JsonV {
    JsonV::Object(
        known.map_values(
            |e: (Seq<char>, u64)| (e.0, JsonV::Number(NumberV::Unsigned(e.1))),
        ),
    )
}

impl OpencodeSyncHistoryRequest {
    /// The document that is sent.
    pub fn to_json(&self) -> (r: Json)
        ensures
            r@ == history_json(self@),
    {
        let mut o = Obj::new();
        let mut i: usize = 0;
        let ghost f = |e: (Seq<char>, u64)| (e.0, JsonV::Number(NumberV::Unsigned(e.1)));
        assert(o@ =~= self@.take(0).map_values(f));
        while i < self.0.len()
            invariant
                i <= self.0.len(),
                f == (|e: (Seq<char>, u64)| (e.0, JsonV::Number(NumberV::Unsigned(e.1)))),
                o@ == self@.take(i as int).map_values(f),
            decreases self.0.len() - i,
        {
            o = o.put(self.0[i].0.as_str(), Json::number(self.0[i].1));
            assert(o@ =~= self@.take(i as int + 1).map_values(f));
            i += 1;
        }
        assert(self@.take(i as int) =~= self@);
        o.build()
    }
}

/// Body of `POST /log`.
#[derive(Debug, PartialEq, Eq)]
pub struct OpencodeLogEntry {
    pub service: String,
    pub level: String,
    pub message: String,
    pub extra: Json,
}

/// Model of [`OpencodeLogEntry`].
pub struct OpencodeLogEntryV {
    pub service: Seq<char>,
    pub level: Seq<char>,
    pub message: Seq<char>,
    pub extra: JsonV,
}

impl View for OpencodeLogEntry {
    type V = OpencodeLogEntryV;

    open spec fn view(&self) -> OpencodeLogEntryV {
        OpencodeLogEntryV {
            service: self.service.deep_view(),
            level: self.level.deep_view(),
            message: self.message.deep_view(),
            extra: self.extra.deep_view(),
        }
    }
}

impl DeepView for OpencodeLogEntry {
    type V = OpencodeLogEntryV;

    open spec fn deep_view(&self) -> OpencodeLogEntryV {
        self@
    }
}

impl OpencodeLogEntryV {
    /// The document that is sent.
    pub open spec fn json(self) -> JsonV {
        let o = fields();
        let o = o.push(("service"@, JsonV::Str(self.service)));
        let o = o.push(("level"@, JsonV::Str(self.level)));
        let o = o.push(("message"@, JsonV::Str(self.message)));
        let o = o.push(("extra"@, self.extra));
        JsonV::Object(o)
    }
}

impl OpencodeLogEntry {
    /// The document that is sent.
    pub fn to_json(&self) -> (r: Json)
        ensures
            r@ == self@.json(),
    {
        let o = Obj::new();
        let o = o.put_str("service", self.service.as_str());
        let o = o.put_str("level", self.level.as_str());
        let o = o.put_str("message", self.message.as_str());
        let o = o.put("extra", self.extra.copy());
        o.build()
    }
}

/// The model that the next prompt goes to.
#[derive(Debug, PartialEq, Eq)]
pub struct DesiredModel {
    pub model_id: String,
    pub provider_id: String,
    pub variant: String,
}

/// Model of [`DesiredModel`].
pub struct DesiredModelV {
    pub model_id: Seq<char>,
    pub provider_id: Seq<char>,
    pub variant: Seq<char>,
}

impl View for DesiredModel {
    type V = DesiredModelV;

    open spec fn view(&self) -> DesiredModelV {
        DesiredModelV {
            model_id: self.model_id.deep_view(),
            provider_id: self.provider_id.deep_view(),
            variant: self.variant.deep_view(),
        }
    }
}

impl DeepView for DesiredModel {
    type V = DesiredModelV;

    open spec fn deep_view(&self) -> DesiredModelV {
        self@
    }
}

impl DesiredModelV {
    /// The document that is sent.
    pub open spec fn json(self) -> JsonV {
        let o = fields();
        let o = o.push(("modelID"@, JsonV::Str(self.model_id)));
        let o = o.push(("providerID"@, JsonV::Str(self.provider_id)));
        let o = o.push(("variant"@, JsonV::Str(self.variant)));
        JsonV::Object(o)
    }
}

impl DesiredModel {
    /// The document that is sent.
    pub fn to_json(&self) -> (r: Json)
        ensures
            r@ == self@.json(),
    {
        let o = Obj::new();
        let o = o.put_str("modelID", self.model_id.as_str());
        let o = o.put_str("providerID", self.provider_id.as_str());
        let o = o.put_str("variant", self.variant.as_str());
        o.build()
    }

    /// A model in its default variant.
    pub fn new(provider_id: &str, model_id: &str) -> (r: DesiredModel)
        ensures
            r@ == (DesiredModelV { model_id: model_id@, provider_id: provider_id@, variant: "default"@ }),
    {
        DesiredModel {
            model_id: model_id.to_owned(),
            provider_id: provider_id.to_owned(),
            variant: default_variant(),
        }
    }

    fn from_list(a: &Vec<Json>) -> (r: Option<DesiredModel>)
        ensures
            r.deep_view() == desired_in(trees(a@)),
    {
        if a.len() < 2 || a.len() > 3 {
            return None;
        }
        let model_id = match a[0].as_str() {
            Some(s) => s,
            None => {
                return None;
            },
        };
        let provider_id = match a[1].as_str() {
            Some(s) => s,
            None => {
                return None;
            },
        };
        let variant = if a.len() == 3 {
            match a[2].as_str() {
                Some(s) => s.to_owned(),
                None => {
                    return None;
                },
            }
        } else {
            default_variant()
        };
        Some(
            DesiredModel {
                model_id: model_id.to_owned(),
                provider_id: provider_id.to_owned(),
                variant,
            },
        )
    }

    /// Reads a model back from an object, or from a list of its texts.
    pub fn from_json(v: &Json) -> (r: Option<DesiredModel>)
        ensures
            r.deep_view() == desired_of(v@),
    {
        match v.as_array() {
            Some(a) => {
                return DesiredModel::from_list(a);
            },
            None => {},
        }
        let model_id = match v.get_str("modelID") {
            Some(s) => s,
            None => {
                return None;
            },
        };
        let provider_id = match v.get_str("providerID") {
            Some(s) => s,
            None => {
                return None;
            },
        };
        let variant = match v.get("variant") {
            None => default_variant(),
            Some(x) => match x.as_str() {
                Some(s) => s.to_owned(),
                None => {
                    return None;
                },
            },
        };
        Some(
            DesiredModel {
                model_id: model_id.to_owned(),
                provider_id: provider_id.to_owned(),
                variant,
            },
        )
    }
}

/// The model that a list names: its texts are the two names and, where it is given, the
/// variant, in this order and with nothing behind them.
pub open spec fn desired_in(a: Seq<JsonV>) -> Option<DesiredModelV> {
    if a.len() < 2 || a.len() > 3 {
        None
    } else {
        let variant = if a.len() == 3 {
            a[2].text()
        } else {
            Some("default"@)
        };
        match (a[0].text(), a[1].text(), variant) {
            (Some(model_id), Some(provider_id), Some(variant)) => Some(
                DesiredModelV { model_id, provider_id, variant },
            ),
            _ => None,
        }
    }
}

/// The model that a document names: an object in which both names are there, and in
/// which the variant, where it is given, is a text; or a list of the texts.
pub open spec fn desired_of(v: JsonV) -> Option<DesiredModelV> {
    match v.items() {
        Some(a) => desired_in(a),
        None => desired_in_object(v),
    }
}

/// The model that an object names.
pub open spec fn desired_in_object(v: JsonV) -> Option<DesiredModelV> {
    match (v.field_text("modelID"@), v.field_text("providerID"@)) {
        (Some(model_id), Some(provider_id)) => match v.field("variant"@) {
            None => Some(DesiredModelV { model_id, provider_id, variant: "default"@ }),
            Some(x) => match x.text() {
                Some(variant) => Some(DesiredModelV { model_id, provider_id, variant }),
                None => None,
            },
        },
        _ => None,
    }
}

/// The variant of a model that names none.
pub fn default_variant() -> (r: String)
    ensures
        r@ == "default"@,
{
    "default".to_owned()
}

/// A model that is written down reads back as it was.
pub proof fn desired_model_round_trip(m: DesiredModelV)
    ensures
        desired_of(m.json()) == Some(m),
{
    reveal_strlit("modelID");
    reveal_strlit("providerID");
    reveal_strlit("variant");
    let e0 = fields();
    let e1 = e0.push(("modelID"@, JsonV::Str(m.model_id)));
    let e2 = e1.push(("providerID"@, JsonV::Str(m.provider_id)));
    let e3 = e2.push(("variant"@, JsonV::Str(m.variant)));
    assert("modelID"@.len() != "providerID"@.len());
    assert("modelID"@[0] != "variant"@[0]);
    crate::json::lemma_lookup_push(e2, ("variant"@, JsonV::Str(m.variant)), "variant"@);
    crate::json::lemma_lookup_push(e2, ("variant"@, JsonV::Str(m.variant)), "providerID"@);
    crate::json::lemma_lookup_push(e2, ("variant"@, JsonV::Str(m.variant)), "modelID"@);
    crate::json::lemma_lookup_push(e1, ("providerID"@, JsonV::Str(m.provider_id)), "variant"@);
    crate::json::lemma_lookup_push(e1, ("providerID"@, JsonV::Str(m.provider_id)), "providerID"@);
    crate::json::lemma_lookup_push(e1, ("providerID"@, JsonV::Str(m.provider_id)), "modelID"@);
    crate::json::lemma_lookup_push(e0, ("modelID"@, JsonV::Str(m.model_id)), "modelID"@);
    crate::json::lemma_lookup_push(e0, ("modelID"@, JsonV::Str(m.model_id)), "providerID"@);
    crate::json::lemma_lookup_push(e0, ("modelID"@, JsonV::Str(m.model_id)), "variant"@);
}

} // verus!

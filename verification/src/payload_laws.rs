//! What holds of the documents that are sent: each carries what it was made of, under the
//! names that the server reads.
use vstd::prelude::*;

use crate::json::{lookup, named_once, strings_v, JsonV, NumberV};
use crate::log_forwarder::{log_request_v, recorded, FieldVisitorV, LogEntryV};
use crate::payloads::{
    OpencodeAuthBodyV, OpencodeCommandRequestV, OpencodeForkRequestV, OpencodeMcpRemoteConfigV,
    OpencodeOAuthAuthorizeRequestV, OpencodeOAuthCallbackRequestV, OpencodePermissionReplyV,
    OpencodePromptRequestV, OpencodeRevertRequestV, OpencodeSyncStealRequestV,
    OpencodeV2CompactRequestV, OpencodeV2PromptRequestV, OpencodeV2PromptTextV, PermissionRuleV,
    PromptModelV, PromptPartV,
};

verus! {

/// Where no two entries have the same name, each is found under its own.
pub proof fn entries_are_found_by_name(o: Seq<(Seq<char>, JsonV)>)
    requires
        named_once(o),
    ensures
        forall|i: int| 0 <= i < o.len() ==> lookup(o, (#[trigger] o[i]).0) == Some(o[i].1),
    decreases o.len(),
{
    if o.len() > 0 {
        let d = o.drop_first();
        assert forall|i: int, j: int| 0 <= i < j < d.len() implies (#[trigger] d[i]).0 != (#[trigger] d[j]).0 by {
            assert(d[i] == o[i + 1] && d[j] == o[j + 1]);
        }
        entries_are_found_by_name(d);
        assert forall|i: int| 0 <= i < o.len() implies lookup(o, (#[trigger] o[i]).0) == Some(o[i].1) by {
            if i > 0 {
                assert(o[0].0 != o[i].0);
                assert(d[i - 1] == o[i]);
            }
        }
    }
}

/// A fork names the message that it begins before, a return the message and the part that
/// it goes back to.
pub proof fn forks_and_returns_name_their_message(message: Seq<char>, part: Seq<char>)
    ensures
        (OpencodeForkRequestV { message_id: Some(message) }).json().field_text("messageID"@) == Some(message),
        (OpencodeForkRequestV { message_id: None }).json().field("messageID"@) is None,
        (OpencodeRevertRequestV { message_id: message, part_id: Some(part) }).json().field_text("messageID"@) == Some(
            message,
        ),
        (OpencodeRevertRequestV { message_id: message, part_id: Some(part) }).json().field_text("partID"@) == Some(
            part,
        ),
{
    reveal_strlit("messageID");
    reveal_strlit("partID");
    assert("messageID"@.len() == 9 && "partID"@.len() == 6);
    let f = (OpencodeForkRequestV { message_id: Some(message) }).json()->Object_0;
    assert(f[0] == ("messageID"@, JsonV::Str(message)));
    entries_are_found_by_name(f);
    let r = (OpencodeRevertRequestV { message_id: message, part_id: Some(part) }).json()->Object_0;
    assert(r[0] == ("messageID"@, JsonV::Str(message)));
    assert(r[1] == ("partID"@, JsonV::Str(part)));
    entries_are_found_by_name(r);
}

/// An answer to a permission carries the answer; a rule names what it is about, where it
/// holds, and what it does.
pub proof fn permissions_carry_their_words(reply: Seq<char>, rule: PermissionRuleV)
    ensures
        (OpencodePermissionReplyV { reply }).json().field_text("reply"@) == Some(reply),
        rule.json().field_text("permission"@) == Some(rule.permission),
        rule.json().field_text("pattern"@) == Some(rule.pattern),
        rule.json().field_text("action"@) == Some(rule.action),
{
    reveal_strlit("permission");
    reveal_strlit("pattern");
    reveal_strlit("action");
    assert("permission"@.len() == 10 && "pattern"@.len() == 7 && "action"@.len() == 6);
    let p = (OpencodePermissionReplyV { reply }).json()->Object_0;
    assert(p[0] == ("reply"@, JsonV::Str(reply)));
    entries_are_found_by_name(p);
    let r = rule.json()->Object_0;
    assert(r[0] == ("permission"@, JsonV::Str(rule.permission)));
    assert(r[1] == ("pattern"@, JsonV::Str(rule.pattern)));
    assert(r[2] == ("action"@, JsonV::Str(rule.action)));
    entries_are_found_by_name(r);
}

/// A prompt carries its parts, its id, the hint, the model, the agent and the skills.
pub proof fn prompts_carry_what_they_hold(
    p: OpencodePromptRequestV,
    message: Seq<char>,
    system: Seq<char>,
    model: PromptModelV,
    agent: Seq<char>,
    text: Seq<char>,
)
    requires
        p.message_id == Some(message),
        p.system == Some(system),
        p.model == Some(model),
        p.agent == Some(agent),
        p.skills.len() > 0,
    ensures
        p.json().field_items("parts"@) matches Some(parts) && parts.len() == p.parts.len() && forall|i: int|
            0 <= i < parts.len() ==> #[trigger] parts[i] == p.parts[i].json(),
        p.json().field_text("messageID"@) == Some(message),
        p.json().field_text("system"@) == Some(system),
        p.json().field("model"@) matches Some(m) && m.field_text("providerID"@) == Some(model.provider_id)
            && m.field_text("modelID"@) == Some(model.model_id),
        p.json().field_text("agent"@) == Some(agent),
        p.json().field("skills"@) == Some(strings_v(p.skills)),
        (PromptPartV::Text { text }).json().field_text("type"@) == Some("text"@),
        (PromptPartV::Text { text }).json().field_text("text"@) == Some(text),
{
    reveal_strlit("parts");
    reveal_strlit("messageID");
    reveal_strlit("system");
    reveal_strlit("model");
    reveal_strlit("agent");
    reveal_strlit("skills");
    reveal_strlit("providerID");
    reveal_strlit("modelID");
    reveal_strlit("type");
    reveal_strlit("text");
    assert("parts"@.len() == 5 && "messageID"@.len() == 9 && "system"@.len() == 6 && "model"@.len() == 5
        && "agent"@.len() == 5 && "skills"@.len() == 6 && "providerID"@.len() == 10 && "modelID"@.len() == 7);
    assert("parts"@[0] == 'p' && "model"@[0] == 'm' && "agent"@[0] == 'a');
    assert("system"@[1] == 'y' && "skills"@[1] == 'k');
    assert("type"@[1] == 'y' && "text"@[1] == 'e');
    assert(strings_v(p.skills)->Array_0.len() > 0);
    assert(strings_v(p.skills) != JsonV::Array(Seq::empty()));
    let o = p.json()->Object_0;
    assert(o.len() == 6);
    assert(o[0].0 == "parts"@ && o[1].0 == "messageID"@ && o[2].0 == "system"@ && o[3].0 == "model"@ && o[4].0
        == "agent"@ && o[5].0 == "skills"@);
    assert(named_once(o));
    entries_are_found_by_name(o);
    assert(lookup(o, o[0].0) == Some(o[0].1));
    assert(lookup(o, o[1].0) == Some(o[1].1));
    assert(lookup(o, o[2].0) == Some(o[2].1));
    assert(lookup(o, o[3].0) == Some(o[3].1));
    assert(lookup(o, o[4].0) == Some(o[4].1));
    assert(lookup(o, o[5].0) == Some(o[5].1));
    let m = model.json()->Object_0;
    assert(m[0] == ("providerID"@, JsonV::Str(model.provider_id)));
    assert(m[1] == ("modelID"@, JsonV::Str(model.model_id)));
    entries_are_found_by_name(m);
    let t = (PromptPartV::Text { text }).json()->Object_0;
    assert(t[0] == ("type"@, JsonV::Str("text"@)));
    assert(t[1] == ("text"@, JsonV::Str(text)));
    entries_are_found_by_name(t);
}

/// A command carries its words, its agent and its model.
pub proof fn commands_carry_what_they_hold(command: Seq<char>, agent: Seq<char>, model: Seq<char>)
    ensures
        ({
            let sent = (OpencodeCommandRequestV { command, agent: Some(agent), model: Some(model) }).json();
            &&& sent.field_text("command"@) == Some(command)
            &&& sent.field_text("agent"@) == Some(agent)
            &&& sent.field_text("model"@) == Some(model)
        }),
{
    reveal_strlit("command");
    reveal_strlit("agent");
    reveal_strlit("model");
    assert("command"@.len() == 7 && "agent"@.len() == 5 && "model"@.len() == 5);
    assert("agent"@[0] == 'a' && "model"@[0] == 'm');
    let o = (OpencodeCommandRequestV { command, agent: Some(agent), model: Some(model) }).json()->Object_0;
    assert(o[0] == ("command"@, JsonV::Str(command)));
    assert(o[1] == ("agent"@, JsonV::Str(agent)));
    assert(o[2] == ("model"@, JsonV::Str(model)));
    entries_are_found_by_name(o);
}

/// A prompt of the newer kind carries its words, its files and its agent, and how it is
/// delivered; a compaction its instructions; a takeover its session.
pub proof fn newer_requests_carry_what_they_hold(
    p: OpencodeV2PromptTextV,
    agent: Seq<char>,
    reference: JsonV,
    delivery: Seq<char>,
    words: Seq<char>,
)
    requires
        p.agent == Some(agent),
        p.reference == Some(reference),
        p.files.len() > 0,
    ensures
        (OpencodeV2PromptRequestV { prompt: p, delivery: Some(delivery) }).json().field("prompt"@) == Some(p.json()),
        (OpencodeV2PromptRequestV { prompt: p, delivery: Some(delivery) }).json().field_text("delivery"@) == Some(
            delivery,
        ),
        p.json().field_text("text"@) == Some(p.text),
        p.json().field("files"@) == Some(strings_v(p.files)),
        p.json().field_text("agent"@) == Some(agent),
        p.json().field("reference"@) == Some(reference),
        (OpencodeV2CompactRequestV { instructions: Some(words) }).json().field_text("instructions"@) == Some(words),
        (OpencodeSyncStealRequestV { session_id: words }).json().field_text("sessionID"@) == Some(words),
{
    reveal_strlit("prompt");
    reveal_strlit("delivery");
    reveal_strlit("text");
    reveal_strlit("files");
    reveal_strlit("agent");
    reveal_strlit("reference");
    assert("prompt"@.len() == 6 && "delivery"@.len() == 8 && "text"@.len() == 4 && "files"@.len() == 5
        && "agent"@.len() == 5 && "reference"@.len() == 9);
    assert("files"@[0] == 'f' && "agent"@[0] == 'a');
    assert(strings_v(p.files)->Array_0.len() > 0);
    assert(strings_v(p.files) != JsonV::Array(Seq::empty()));
    let r = (OpencodeV2PromptRequestV { prompt: p, delivery: Some(delivery) }).json()->Object_0;
    assert(r[0] == ("prompt"@, p.json()));
    assert(r[1] == ("delivery"@, JsonV::Str(delivery)));
    entries_are_found_by_name(r);
    let o = p.json()->Object_0;
    assert(o[0] == ("text"@, JsonV::Str(p.text)));
    assert(o[1] == ("files"@, strings_v(p.files)));
    assert(o[2] == ("agent"@, JsonV::Str(agent)));
    assert(o[3] == ("reference"@, reference));
    entries_are_found_by_name(o);
    let c = (OpencodeV2CompactRequestV { instructions: Some(words) }).json()->Object_0;
    assert(c[0] == ("instructions"@, JsonV::Str(words)));
    entries_are_found_by_name(c);
    let t = (OpencodeSyncStealRequestV { session_id: words }).json()->Object_0;
    assert(t[0] == ("sessionID"@, JsonV::Str(words)));
    entries_are_found_by_name(t);
}

/// The settings of a tool host carry how and where it is reached and how long it may
/// take.
pub proof fn hosts_carry_their_settings(c: OpencodeMcpRemoteConfigV, i: int)
    requires
        0 <= i < c.headers.len(),
    ensures
        c.json().field_text("type"@) == Some(c.transport_type),
        c.json().field_text("url"@) == Some(c.url),
        c.json().field("enabled"@) == Some(JsonV::Bool(c.enabled)),
        c.json().field("oauth"@) == Some(JsonV::Bool(c.oauth)),
        c.json().field("timeout"@) == Some(JsonV::Number(NumberV::Unsigned(c.timeout))),
        c.json().field("headers"@) matches Some(JsonV::Object(h)) && h.len() == c.headers.len() && h[i] == (
            c.headers[i].0,
            JsonV::Str(c.headers[i].1),
        ),
{
    reveal_strlit("type");
    reveal_strlit("url");
    reveal_strlit("enabled");
    reveal_strlit("oauth");
    reveal_strlit("headers");
    reveal_strlit("timeout");
    assert("type"@.len() == 4 && "url"@.len() == 3 && "enabled"@.len() == 7 && "oauth"@.len() == 5 && "headers"@.len()
        == 7 && "timeout"@.len() == 7);
    assert("enabled"@[0] == 'e' && "headers"@[0] == 'h' && "timeout"@[0] == 't');
    let o = c.json()->Object_0;
    assert(o.len() == 6);
    assert(o[0] == ("type"@, JsonV::Str(c.transport_type)));
    assert(o[1] == ("url"@, JsonV::Str(c.url)));
    assert(o[2] == ("enabled"@, JsonV::Bool(c.enabled)));
    assert(o[3] == ("oauth"@, JsonV::Bool(c.oauth)));
    assert(o[4].0 == "headers"@);
    assert(o[5] == ("timeout"@, JsonV::Number(NumberV::Unsigned(c.timeout))));
    assert(named_once(o));
    entries_are_found_by_name(o);
    assert(lookup(o, o[4].0) == Some(o[4].1));
}

/// Credentials carry their kind and their key, and those that the server knows how to
/// find also their token; an authorisation its method, its inputs and its code.
pub proof fn credentials_carry_what_they_hold(
    key: Seq<char>,
    token: Seq<char>,
    method: u32,
    code: Seq<char>,
    inputs: Seq<(Seq<char>, Seq<char>)>,
    i: int,
)
    requires
        0 <= i < inputs.len(),
    ensures
        (OpencodeAuthBodyV::Api { key }).json().field_text("type"@) == Some("api"@),
        (OpencodeAuthBodyV::Api { key }).json().field_text("key"@) == Some(key),
        (OpencodeAuthBodyV::WellKnown { key, token }).json().field_text("type"@) == Some("wellknown"@),
        (OpencodeAuthBodyV::WellKnown { key, token }).json().field_text("key"@) == Some(key),
        (OpencodeAuthBodyV::WellKnown { key, token }).json().field_text("token"@) == Some(token),
        (OpencodeOAuthAuthorizeRequestV { method, inputs: Some(inputs) }).json().field("method"@) == Some(
            JsonV::Number(NumberV::Unsigned(method as u64)),
        ),
        (OpencodeOAuthAuthorizeRequestV { method, inputs: Some(inputs) }).json().field("inputs"@) matches Some(
            JsonV::Object(x),
        ) && x[i] == (inputs[i].0, JsonV::Str(inputs[i].1)),
        (OpencodeOAuthCallbackRequestV { method, code: Some(code) }).json().field("method"@) == Some(
            JsonV::Number(NumberV::Unsigned(method as u64)),
        ),
        (OpencodeOAuthCallbackRequestV { method, code: Some(code) }).json().field_text("code"@) == Some(code),
{
    reveal_strlit("type");
    reveal_strlit("key");
    reveal_strlit("token");
    reveal_strlit("method");
    reveal_strlit("inputs");
    reveal_strlit("code");
    assert("type"@.len() == 4 && "key"@.len() == 3 && "token"@.len() == 5 && "method"@.len() == 6 && "inputs"@.len()
        == 6 && "code"@.len() == 4);
    assert("method"@[0] == 'm' && "inputs"@[0] == 'i');
    let a = (OpencodeAuthBodyV::Api { key }).json()->Object_0;
    assert(a[0] == ("type"@, JsonV::Str("api"@)));
    assert(a[1] == ("key"@, JsonV::Str(key)));
    entries_are_found_by_name(a);
    let w = (OpencodeAuthBodyV::WellKnown { key, token }).json()->Object_0;
    assert(w[0] == ("type"@, JsonV::Str("wellknown"@)));
    assert(w[1] == ("key"@, JsonV::Str(key)));
    assert(w[2] == ("token"@, JsonV::Str(token)));
    entries_are_found_by_name(w);
    let m = ("method"@, JsonV::Number(NumberV::Unsigned(method as u64)));
    let o = (OpencodeOAuthAuthorizeRequestV { method, inputs: Some(inputs) }).json()->Object_0;
    assert(o[0] == m);
    assert(o[1].0 == "inputs"@);
    entries_are_found_by_name(o);
    assert(lookup(o, o[1].0) == Some(o[1].1));
    let c = (OpencodeOAuthCallbackRequestV { method, code: Some(code) }).json()->Object_0;
    assert(c[0] == m);
    assert(c[1] == ("code"@, JsonV::Str(code)));
    entries_are_found_by_name(c);
}

/// A forwarded entry carries its level and its words, and beside them the conversation,
/// where it comes from, and its fields.
pub proof fn forwarded_entries_carry_what_they_hold(
    base: Seq<char>,
    auth: Option<Seq<char>>,
    id: Seq<char>,
    entry: LogEntryV,
)
    ensures
        log_request_v(base, auth, id, entry).body matches Some(sent) && sent.field_text("service"@) == Some("aionui"@)
            && sent.field_text("level"@) == Some(entry.level) && sent.field_text("message"@) == Some(entry.message) && (
        sent.field("extra"@) matches Some(x) && x.field_text("conversation_id"@) == Some(id) && x.field_text("target"@)
            == Some(entry.target) && x.field("fields"@) == Some(entry.extra)),
{
    reveal_strlit("service");
    reveal_strlit("level");
    reveal_strlit("message");
    reveal_strlit("extra");
    reveal_strlit("conversation_id");
    reveal_strlit("target");
    reveal_strlit("fields");
    assert("service"@.len() == 7 && "level"@.len() == 5 && "message"@.len() == 7 && "extra"@.len() == 5
        && "conversation_id"@.len() == 15 && "target"@.len() == 6 && "fields"@.len() == 6);
    assert("service"@[0] == 's' && "message"@[0] == 'm' && "level"@[0] == 'l' && "extra"@[0] == 'e' && "target"@[0]
        == 't' && "fields"@[0] == 'f');
    let o = log_request_v(base, auth, id, entry).body->Some_0->Object_0;
    assert(o[0] == ("service"@, JsonV::Str("aionui"@)));
    assert(o[1] == ("level"@, JsonV::Str(entry.level)));
    assert(o[2] == ("message"@, JsonV::Str(entry.message)));
    assert(o[3].0 == "extra"@);
    entries_are_found_by_name(o);
    assert(lookup(o, o[3].0) == Some(o[3].1));
    let x = o[3].1->Object_0;
    assert(x[0] == ("conversation_id"@, JsonV::Str(id)));
    assert(x[1] == ("target"@, JsonV::Str(entry.target)));
    assert(x[2] == ("fields"@, entry.extra));
    entries_are_found_by_name(x);
}

/// Of the fields of an event, the conversation and the words are kept apart, and the rest
/// under their names.
pub proof fn fields_are_kept_under_their_names(
    v: FieldVisitorV,
    extra: Seq<(Seq<char>, JsonV)>,
    name: Seq<char>,
    value: JsonV,
    text: Seq<char>,
)
    requires
        v.extra == JsonV::Object(extra),
        name != "conversation_id"@,
        name != "message"@,
    ensures
        recorded(v, "conversation_id"@, JsonV::Str(text)).conversation_id == Some(text),
        recorded(v, "conversation_id"@, JsonV::Str(text)).extra == v.extra,
        recorded(v, "message"@, JsonV::Str(text)).message == Some(text),
        recorded(v, "message"@, JsonV::Str(text)).extra == v.extra,
        recorded(v, name, value).extra.field(name) == Some(value),
        recorded(v, name, value).message == v.message,
        recorded(v, name, value).conversation_id == v.conversation_id,
{
    reveal_strlit("conversation_id");
    reveal_strlit("message");
    assert("conversation_id"@.len() != "message"@.len());
    crate::json::field_reads_back(extra, name, value, name);
}

} // verus!

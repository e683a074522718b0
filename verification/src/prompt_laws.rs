//! What a prompt tells the server: the words, the session, the model, the agent, the
//! skills and the place of the project, each where the server looks for it.
use vstd::prelude::*;

use crate::config::{auth_header_of, base64_of, base_url_of};
use crate::http::{HttpMethod, HttpReplyV, HttpRequestV};
use crate::json::{fields, lemma_lookup_push, lookup, parse_result, put_opt_v, strings_v, JsonV};
use crate::manager::{model_parts, RemoteAgentManagerV};
use crate::send::{
    command_model, hint_of, prompt_body, prompt_text, recalled, resolved, row_line_of, send_step, sent_model,
    transcript_lines, PromptV, ResolvedPromptV, SendActionV, SendEventV, SendPhase, SendingV, TranscriptRowV,
    HINT_BEFORE_SHELL, HINT_BEFORE_TREE, RECALL_AFTER, RECALL_BEFORE,
};
use crate::state::{OpenCodeCommandV, RemoteStateV};
use crate::text::{begins, joined, trimmed, without_suffix_char};
use crate::types::{AppErrorV, EffectV};

verus! {

// ---- Where the server is reached ----

/// An address without blanks round it and without a slash at its end is used as it is;
/// a slash at the end makes no difference.
pub proof fn addresses_are_used_as_they_are(url: Seq<char>)
    requires
        url.len() > 0,
        trimmed(url) == url,
        url.last() != '/',
        trimmed(url.push('/')) == url.push('/'),
    ensures
        base_url_of(url) == url,
        base_url_of(url.push('/')) == url,
{
    assert(url.push('/').drop_last() =~= url);
    reveal_with_fuel(without_suffix_char, 2);
}

/// A token is shown as the kind of authentication asks: as it is behind `Bearer`, and
/// encoded behind `Basic`, with the server's user before a password. Without a token, or
/// of another kind, nothing is shown.
pub proof fn tokens_are_shown_as_asked(kind: Seq<char>, token: Seq<char>)
    requires
        token.len() > 0,
    ensures
        kind == "bearer"@ || kind == "Bearer"@ ==> auth_header_of(kind, Some(token)) == Some(
            "Bearer "@ + token,
        ),
        kind == "basic"@ || kind == "Basic"@ ==> auth_header_of(kind, Some(token)) == Some(
            "Basic "@ + base64_of(vstd::utf8::encode_utf8(token)),
        ),
        kind == "password"@ || kind == "Password"@ ==> auth_header_of(kind, Some(token)) == Some(
            "Basic "@ + base64_of(vstd::utf8::encode_utf8("opencode:"@ + token)),
        ),
        kind == "none"@ ==> auth_header_of(kind, Some(token)) is None,
        auth_header_of(kind, None) is None,
{
    reveal_strlit("bearer");
    reveal_strlit("Bearer");
    reveal_strlit("basic");
    reveal_strlit("Basic");
    reveal_strlit("password");
    reveal_strlit("Password");
    reveal_strlit("none");
    assert("bearer"@.len() == 6 && "Bearer"@.len() == 6 && "basic"@.len() == 5 && "Basic"@.len() == 5
        && "password"@.len() == 8 && "Password"@.len() == 8 && "none"@.len() == 4);
}

// ---- The hint ----

/// The hint names the project's place as the place of the project, the shell behind the
/// words that lead up to it, and ends with the layout of the project.
pub proof fn the_hint_names_the_project_and_the_shell(
    workspace: Seq<char>,
    shell: Seq<char>,
    tree: Seq<char>,
)
    ensures
        begins(hint_of(workspace, shell, tree), "The user's project is located at "@ + workspace),
        begins(
            hint_of(workspace, shell, tree).skip(
                ("The user's project is located at "@ + workspace).len() as int,
            ),
            HINT_BEFORE_SHELL@ + shell + HINT_BEFORE_TREE@,
        ),
        hint_of(workspace, shell, tree).skip(hint_of(workspace, shell, tree).len() - tree.len()) == tree,
{
    let h = hint_of(workspace, shell, tree);
    let w = "The user's project is located at "@ + workspace;
    assert(h.take(w.len() as int) =~= w);
    let rest = h.skip(w.len() as int);
    let b = HINT_BEFORE_SHELL@ + shell + HINT_BEFORE_TREE@;
    assert(rest.take(b.len() as int) =~= b);
    assert(h.skip(h.len() - tree.len()) =~= tree);
}

// ---- The body of a prompt ----

proof fn lemma_prompt_keys()
    ensures
        "parts"@ != "messageID"@,
        "parts"@ != "system"@,
        "parts"@ != "model"@,
        "parts"@ != "agent"@,
        "parts"@ != "skills"@,
        "messageID"@ != "system"@,
        "messageID"@ != "model"@,
        "messageID"@ != "agent"@,
        "messageID"@ != "skills"@,
        "system"@ != "model"@,
        "system"@ != "agent"@,
        "system"@ != "skills"@,
        "model"@ != "agent"@,
        "model"@ != "skills"@,
        "agent"@ != "skills"@,
        "type"@ != "text"@,
        "providerID"@ != "modelID"@,
        "providerID"@ != "variant"@,
        "modelID"@ != "variant"@,
        "providerID"@ != "id"@,
        "id"@ != "variant"@,
{
    reveal_strlit("parts");
    reveal_strlit("messageID");
    reveal_strlit("system");
    reveal_strlit("model");
    reveal_strlit("agent");
    reveal_strlit("skills");
    reveal_strlit("type");
    reveal_strlit("text");
    reveal_strlit("providerID");
    reveal_strlit("modelID");
    reveal_strlit("variant");
    reveal_strlit("id");
    assert("parts"@.len() == 5 && "messageID"@.len() == 9 && "system"@.len() == 6 && "model"@.len() == 5
        && "agent"@.len() == 5 && "skills"@.len() == 6 && "providerID"@.len() == 10 && "modelID"@.len() == 7
        && "variant"@.len() == 7 && "id"@.len() == 2);
    assert("parts"@[0] != "model"@[0]);
    assert("parts"@[0] != "agent"@[0]);
    assert("model"@[0] != "agent"@[0]);
    assert("system"@[1] != "skills"@[1]);
    assert("type"@[1] != "text"@[1]);
    assert("modelID"@[0] != "variant"@[0]);
}

/// The server finds in a prompt what it was made of: the words, behind what is recalled;
/// the hint, the agent, the skills and the model under their names, and nothing under a
/// name that there is nothing for.
pub proof fn a_prompt_carries_what_it_was_made_of(p: PromptV)
    ensures
        prompt_body(p).field("parts"@) matches Some(JsonV::Array(parts)) && parts.len() == 1
            && parts[0].field_text("type"@) == Some("text"@) && parts[0].field_text("text"@) == Some(
            match p.prefix {
                Some(recalled) => if recalled.len() > 0 {
                    recalled + "\n\n"@ + p.content
                } else {
                    p.content
                },
                None => p.content,
            },
        ),
        prompt_body(p).field_text("system"@) == p.system,
        prompt_body(p).field_text("agent"@) == p.agent,
        prompt_body(p).field("skills"@) == if p.skills.len() > 0 {
            Some(JsonV::Array(p.skills.map_values(|s: Seq<char>| JsonV::Str(s))))
        } else {
            None
        },
        p.model is None ==> prompt_body(p).field("model"@) is None,
        p.model matches Some(m) ==> m.field("id"@) is None ==> prompt_body(p).field("model"@) == Some(m),
        p.model matches Some(m) ==> m.field("id"@) is Some ==> (prompt_body(p).field("model"@) matches Some(s)
            && s.field("modelID"@) == m.field("id"@) && (m.field_text("providerID"@) matches Some(x)
            ==> s.field_text("providerID"@) == Some(x)) && (m.field_text("variant"@) matches Some(x)
            ==> s.field_text("variant"@) == Some(x))),
        p.fresh_session && (p.message_id matches Some(id) && begins(id, "msg"@)) ==> prompt_body(p).field_text(
            "messageID"@,
        ) == p.message_id,
        !p.fresh_session ==> prompt_body(p).field("messageID"@) is None,
{
    lemma_prompt_keys();
    let part = fields().push(("type"@, JsonV::Str("text"@)));
    let text = JsonV::Str(prompt_text(p.prefix, p.content));
    lemma_lookup_push(fields(), ("type"@, JsonV::Str("text"@)), "type"@);
    lemma_lookup_push(fields(), ("type"@, JsonV::Str("text"@)), "text"@);
    lemma_lookup_push(part, ("text"@, text), "type"@);
    lemma_lookup_push(part, ("text"@, text), "text"@);
    let o0 = fields();
    let e1 = ("parts"@, JsonV::Array(seq![JsonV::Object(part.push(("text"@, text)))]));
    let o1 = o0.push(e1);
    let id = if p.fresh_session {
        crate::manager::if_begins(p.message_id, "msg"@)
    } else {
        None
    };
    let o2 = put_opt_v(o1, "messageID"@, id);
    let o3 = put_opt_v(o2, "system"@, p.system);
    let o4 = match p.model {
        Some(m) => o3.push(("model"@, sent_model(m))),
        None => o3,
    };
    let o5 = put_opt_v(o4, "agent"@, p.agent);
    let o6 = if p.skills.len() > 0 {
        o5.push(("skills"@, strings_v(p.skills)))
    } else {
        o5
    };
    assert(prompt_body(p) == JsonV::Object(o6));
    assert forall|key: Seq<char>| #[trigger] lookup(o6, key) == (if key == "parts"@ {
        Some(e1.1)
    } else if key == "messageID"@ && id is Some {
        Some(JsonV::Str(id->0))
    } else if key == "system"@ && p.system is Some {
        Some(JsonV::Str(p.system->0))
    } else if key == "model"@ && p.model is Some {
        Some(sent_model(p.model->0))
    } else if key == "agent"@ && p.agent is Some {
        Some(JsonV::Str(p.agent->0))
    } else if key == "skills"@ && p.skills.len() > 0 {
        Some(strings_v(p.skills))
    } else {
        None
    }) by {
        lemma_lookup_push(o0, e1, key);
        if id is Some {
            lemma_lookup_push(o1, ("messageID"@, JsonV::Str(id->0)), key);
        }
        if p.system is Some {
            lemma_lookup_push(o2, ("system"@, JsonV::Str(p.system->0)), key);
        }
        if p.model is Some {
            lemma_lookup_push(o3, ("model"@, sent_model(p.model->0)), key);
        }
        if p.agent is Some {
            lemma_lookup_push(o4, ("agent"@, JsonV::Str(p.agent->0)), key);
        }
        if p.skills.len() > 0 {
            lemma_lookup_push(o5, ("skills"@, strings_v(p.skills)), key);
        }
    }
    assert(strings_v(p.skills)->Array_0 =~= p.skills.map_values(|s: Seq<char>| JsonV::Str(s)));
    if let Some(m) = p.model {
        if let Some(x) = m.field("id"@) {
            let provider = JsonV::Str(crate::events::text_or(m.field_text("providerID"@), "opencode-go"@));
            let variant = JsonV::Str(crate::events::text_or(m.field_text("variant"@), "default"@));
            let a = fields().push(("providerID"@, provider));
            let b = a.push(("modelID"@, x));
            assert forall|key: Seq<char>| #[trigger] lookup(b.push(("variant"@, variant)), key) == (if key
                == "providerID"@ {
                Some(provider)
            } else if key == "modelID"@ {
                Some(x)
            } else if key == "variant"@ {
                Some(variant)
            } else {
                None
            }) by {
                lemma_lookup_push(fields(), ("providerID"@, provider), key);
                lemma_lookup_push(a, ("modelID"@, x), key);
                lemma_lookup_push(b, ("variant"@, variant), key);
            }
        }
    }
}

/// A prompt whose command is resolved goes out to the session of the conversation, with
/// the words, the agent and the model that the command asks for, or else those that the
/// user selected. With local tools the project is listed before.
pub proof fn a_resolved_prompt_goes_to_its_session(
    m: RemoteAgentManagerV,
    d: SendingV,
    r: ResolvedPromptV,
    session: Seq<char>,
)
    requires
        d.phase == SendPhase::Resolving,
        m.state.opencode_session_id == Some(session),
    ensures
        ({
            let step = send_step(m, d, SendEventV::CommandResolved(r));
            let p = step.sending.prompt;
            &&& step.manager == m
            &&& p.content == r.content
            &&& p.agent == (if r.agent is Some {
                r.agent
            } else {
                m.state.desired_agent
            })
            &&& r.model is None ==> p.model == m.state.desired_model
            &&& r.model matches Some(x) ==> p.model == Some(command_model(x))
            &&& p.prefix == d.prompt.prefix
            &&& p.skills == d.prompt.skills
            &&& p.message_id == d.prompt.message_id
            &&& p.fresh_session == d.prompt.fresh_session
            &&& p.system == d.prompt.system
            &&& m.remote_config.protocol == "opencode"@ && m.remote_config.tool_host == "server"@
                ==> step.actions == seq![
                SendActionV::Request(
                    HttpRequestV {
                        method: HttpMethod::Post,
                        url: base_url_of(m.remote_config.url) + "/session/"@ + session + "/prompt_async"@,
                        auth: auth_header_of(m.remote_config.auth_type, m.remote_config.auth_token),
                        body: Some(prompt_body(p)),
                        timeout_secs: 120,
                    },
                ),
            ]
            &&& m.remote_config.tool_host != "server"@ ==> step.actions == seq![SendActionV::ListProject]
                && step.sending.phase == SendPhase::Listing
        }),
{
    let p = send_step(m, d, SendEventV::CommandResolved(r)).sending.prompt;
    assert(base_url_of(m.remote_config.url) + "/session/"@ + session + "/prompt_async"@
        =~= base_url_of(m.remote_config.url) + ("/session/"@ + session + "/prompt_async"@));
}

/// Once the project is listed, the prompt goes out to the session with the hint on the
/// project and nothing else changed.
pub proof fn a_listed_project_is_told(
    m: RemoteAgentManagerV,
    d: SendingV,
    tree: Seq<char>,
    shell: Seq<char>,
    session: Seq<char>,
)
    requires
        d.phase == SendPhase::Listing,
        m.state.opencode_session_id == Some(session),
    ensures
        ({
            let step = send_step(m, d, SendEventV::ProjectListed { tree, shell });
            let p = PromptV { system: Some(hint_of(m.workspace, shell, tree)), ..d.prompt };
            &&& step.manager == m
            &&& step.sending.prompt == p
            &&& step.actions == seq![
                SendActionV::Request(
                    HttpRequestV {
                        method: HttpMethod::Post,
                        url: base_url_of(m.remote_config.url) + "/session/"@ + session + "/prompt_async"@,
                        auth: auth_header_of(m.remote_config.auth_type, m.remote_config.auth_token),
                        body: Some(prompt_body(p)),
                        timeout_secs: 120,
                    },
                ),
            ]
        }),
{
    assert(base_url_of(m.remote_config.url) + "/session/"@ + session + "/prompt_async"@
        =~= base_url_of(m.remote_config.url) + ("/session/"@ + session + "/prompt_async"@));
}

/// A conversation that has a session keeps it: nothing is created, and the command in the
/// prompt is resolved next. One that has none creates one.
pub proof fn a_session_is_kept_or_created(m: RemoteAgentManagerV, d: SendingV)
    requires
        d.phase == SendPhase::Acquiring,
    ensures
        ({
            let step = send_step(m, d, SendEventV::TurnAcquired);
            &&& step.manager == m
            &&& m.state.opencode_session_id is Some ==> step.actions.last() == (SendActionV::ResolveCommand {
                content: d.prompt.content,
            }) && forall|i: int| 0 <= i < step.actions.len() ==> !((#[trigger] step.actions[i]) is Request)
            &&& m.state.opencode_session_id is None ==> (step.actions.last() matches SendActionV::Request(q)
                && q.method == HttpMethod::Post && q.url == base_url_of(m.remote_config.url) + "/session"@
                && q.auth == auth_header_of(m.remote_config.auth_type, m.remote_config.auth_token))
            &&& step.actions.contains(SendActionV::EnsureLocalTools) <==> !(m.remote_config.protocol
                == "opencode"@ && m.remote_config.tool_host == "server"@)
        }),
{
    let step = send_step(m, d, SendEventV::TurnAcquired);
    if !m.remote_config.server_tools() {
        assert(step.actions[0] is EnsureLocalTools);
    }
}

/// A session that the server created is the session of the conversation from then on, and
/// is noted; what was said before is looked up for it. Where the server refused, the turn
/// is given back with the server's words.
pub proof fn a_created_session_is_noted(
    m: RemoteAgentManagerV,
    d: SendingV,
    text: Seq<char>,
    id: Seq<char>,
    status: Seq<char>,
    body: Seq<char>,
)
    requires
        d.phase == SendPhase::Creating,
        parse_result(text) matches Ok(v) && v.field_text("id"@) == Some(id),
    ensures
        ({
            let made = send_step(m, d, SendEventV::SessionAnswered(HttpReplyV::Answered(text)));
            let refused = send_step(m, d, SendEventV::SessionAnswered(HttpReplyV::Refused { status, body }));
            &&& made.manager == (RemoteAgentManagerV {
                state: RemoteStateV { opencode_session_id: Some(id), ..m.state },
                ..m
            })
            &&& made.actions == seq![
                SendActionV::PersistSessionKey { session_id: id },
                SendActionV::ReadTranscript,
            ]
            &&& made.sending.prompt == (PromptV { fresh_session: true, ..d.prompt })
            &&& refused.manager == m
            &&& refused.actions == seq![
                SendActionV::ReleaseTurn,
                SendActionV::Fail(
                    AppErrorV::Internal("OpenCode create session"@ + " returned "@ + status + ": "@ + body),
                ),
            ]
        }),
{
    let made = send_step(m, d, SendEventV::SessionAnswered(HttpReplyV::Answered(text)));
    assert(made.actions =~= seq![
        SendActionV::PersistSessionKey { session_id: id },
        SendActionV::ReadTranscript,
    ]);
    let refused = send_step(m, d, SendEventV::SessionAnswered(HttpReplyV::Refused { status, body }));
    assert(refused.actions =~= seq![
        SendActionV::ReleaseTurn,
        SendActionV::Fail(
            AppErrorV::Internal("OpenCode create session"@ + " returned "@ + status + ": "@ + body),
        ),
    ]);
}

/// A prompt that the server took is done; one that it did not take fails with the
/// server's words, and the turn is given back.
pub proof fn a_prompt_is_done_when_the_server_takes_it(
    m: RemoteAgentManagerV,
    d: SendingV,
    text: Seq<char>,
    status: Seq<char>,
    body: Seq<char>,
)
    requires
        d.phase == SendPhase::Prompting,
    ensures
        send_step(m, d, SendEventV::PromptAnswered(HttpReplyV::Answered(text))).actions == seq![
            SendActionV::Done,
        ],
        send_step(m, d, SendEventV::PromptAnswered(HttpReplyV::Refused { status, body })).actions == seq![
            SendActionV::ReleaseTurn,
            SendActionV::Fail(
                AppErrorV::Internal("OpenCode prompt_async"@ + " returned "@ + status + ": "@ + body),
            ),
        ],
{
    assert(send_step(m, d, SendEventV::PromptAnswered(HttpReplyV::Refused { status, body })).actions
        =~= seq![
        SendActionV::ReleaseTurn,
        SendActionV::Fail(
            AppErrorV::Internal("OpenCode prompt_async"@ + " returned "@ + status + ": "@ + body),
        ),
    ]);
}

/// A session that works with local tools is created with the server's own tools denied;
/// with the server's tools nothing is denied.
pub proof fn the_servers_own_tools_are_denied_to_local_sessions(m: RemoteAgentManagerV, tool: Seq<char>)
    requires
        tool == "bash"@ || tool == "read"@ || tool == "edit"@ || tool == "glob"@ || tool == "grep"@,
    ensures
        m.remote_config.tool_host != "server"@ ==> (m.creation().body matches Some(b) && (b.field("permission"@)
            matches Some(JsonV::Array(rules)) && exists|i: int|
            0 <= i < rules.len() && (#[trigger] rules[i]).field_text("permission"@) == Some(tool)
                && rules[i].field_text("action"@) == Some("deny"@))),
        m.remote_config.protocol == "opencode"@ && m.remote_config.tool_host == "server"@ ==> (m.creation().body
            matches Some(b) && b.field("permission"@) is None),
{
    lemma_rule_reads_back("bash"@);
    lemma_rule_reads_back("read"@);
    lemma_rule_reads_back("edit"@);
    lemma_rule_reads_back("glob"@);
    lemma_rule_reads_back("grep"@);
    let rules = crate::payloads::rules_v(crate::payloads::builtin_denials());
    lemma_lookup_push(fields(), ("permission"@, rules), "permission"@);
    let all = rules->Array_0;
    assert(all.len() == 5);
    assert(rules != JsonV::Array(Seq::empty()));
    let none = crate::payloads::rules_v(Seq::empty());
    assert(none->Array_0 =~= Seq::<JsonV>::empty());
    assert(none == JsonV::Array(Seq::empty()));
    assert(all[0] == crate::payloads::denied("bash"@).json());
    assert(all[1] == crate::payloads::denied("read"@).json());
    assert(all[2] == crate::payloads::denied("edit"@).json());
    assert(all[3] == crate::payloads::denied("glob"@).json());
    assert(all[4] == crate::payloads::denied("grep"@).json());
}

proof fn lemma_rule_reads_back(tool: Seq<char>)
    ensures
        crate::payloads::denied(tool).json().field_text("permission"@) == Some(tool),
        crate::payloads::denied(tool).json().field_text("action"@) == Some("deny"@),
{
    reveal_strlit("permission");
    reveal_strlit("pattern");
    reveal_strlit("action");
    assert("permission"@.len() == 10 && "pattern"@.len() == 7 && "action"@.len() == 6);
    let a = fields().push(("permission"@, JsonV::Str(tool)));
    let b = a.push(("pattern"@, JsonV::Str("*"@)));
    lemma_lookup_push(fields(), ("permission"@, JsonV::Str(tool)), "permission"@);
    lemma_lookup_push(a, ("pattern"@, JsonV::Str("*"@)), "permission"@);
    lemma_lookup_push(b, ("action"@, JsonV::Str("deny"@)), "permission"@);
    lemma_lookup_push(fields(), ("permission"@, JsonV::Str(tool)), "action"@);
    lemma_lookup_push(a, ("pattern"@, JsonV::Str("*"@)), "action"@);
    lemma_lookup_push(b, ("action"@, JsonV::Str("deny"@)), "action"@);
}

// ---- What is recalled ----

/// A message becomes a line that says who said it: what the user said, what the assistant
/// said, which tool it used. What was said by nobody leaves no line.
pub proof fn messages_become_lines(position: Option<Seq<char>>, kind: Seq<char>, content: JsonV, words: Seq<char>)
    requires
        content.field_text("content"@) == Some(words),
        trimmed(words).len() > 0,
    ensures
        position == Some("right"@) && kind == "text"@ ==> row_line_of(position, kind, Some(content)) == Some(
            "[USER]: "@ + trimmed(words),
        ),
        position == Some("left"@) && kind == "text"@ ==> row_line_of(position, kind, Some(content)) == Some(
            "[ASSISTANT]: "@ + trimmed(words),
        ),
        position == Some("left"@) && kind == "tool_call"@ ==> (content.field_text("name"@) matches Some(tool)
            ==> row_line_of(position, kind, Some(content)) == Some("[ASSISTANT][used tool: "@ + tool + "]"@)),
        position == Some("left"@) && kind == "thinking"@ ==> row_line_of(position, kind, Some(content))
            == Some("[ASSISTANT][thinking]"@),
        position is None ==> row_line_of(position, kind, Some(content)) is None,
{
    reveal_strlit("right");
    reveal_strlit("left");
    reveal_strlit("text");
    reveal_strlit("tool_call");
    reveal_strlit("thinking");
    reveal_strlit("");
    reveal_strlit("[USER]");
    reveal_strlit("[ASSISTANT]");
    reveal_strlit(": ");
    reveal_strlit("[USER]: ");
    reveal_strlit("[ASSISTANT]: ");
    assert("right"@.len() == 5 && "left"@.len() == 4 && "text"@.len() == 4 && "tool_call"@.len() == 9
        && "thinking"@.len() == 8 && ""@.len() == 0);
    assert("[USER]"@ + ": "@ =~= "[USER]: "@);
    assert("[ASSISTANT]"@ + ": "@ =~= "[ASSISTANT]: "@);
}

/// A fresh session is told the conversation so far line by line, in order, between the
/// words that frame it, and without the prompt itself, which stands at its end.
pub proof fn the_conversation_is_recalled_in_order(lines: Seq<Seq<char>>, prompt: Seq<char>)
    requires
        lines.len() > 0,
        begins(prompt, "[USER]:"@),
        !begins(lines.last(), "[USER]:"@),
    ensures
        recalled(lines.push(prompt)) == recalled(lines),
        recalled(lines) == Some(RECALL_BEFORE@ + joined(lines, "\n"@) + RECALL_AFTER@),
        recalled(seq![prompt]) is None,
        recalled(Seq::empty()) is None,
{
    assert(lines.push(prompt).drop_last() =~= lines);
}

/// The lines of a conversation stand in the order of its messages.
pub proof fn lines_stand_in_order(rows: Seq<TranscriptRowV>, row: TranscriptRowV, line: Seq<char>)
    requires
        row_line_of(row.position, row.kind, crate::json::parsed_text(row.content)) == Some(line),
    ensures
        transcript_lines(rows.push(row)) == transcript_lines(rows).push(line),
        transcript_lines(Seq::empty()) == Seq::<Seq<char>>::empty(),
{
    assert(rows.push(row).drop_last() =~= rows);
}

// ---- Commands ----

/// A known command stands for its template with the arguments filled in, or for the
/// arguments where it has no template, and brings its agent and its model. A prompt that
/// names no known command stands for itself.
pub proof fn commands_stand_for_their_words(
    content: Seq<char>,
    name: Seq<char>,
    args: Seq<char>,
    commands: Seq<OpenCodeCommandV>,
    expanded: Seq<char>,
    i: int,
)
    ensures
        0 <= i < commands.len() && commands[i].name == name && (forall|j: int|
            0 <= j < i ==> (#[trigger] commands[j]).name != name) ==> resolved(
            content,
            Some((name, args)),
            commands,
            expanded,
        ) == (ResolvedPromptV {
            content: if commands[i].template is Some {
                expanded
            } else if args.len() > 0 {
                args
            } else {
                name
            },
            agent: commands[i].agent,
            model: commands[i].model,
        }),
        (forall|j: int| 0 <= j < commands.len() ==> (#[trigger] commands[j]).name != name) ==> resolved(
            content,
            Some((name, args)),
            commands,
            expanded,
        ) == (ResolvedPromptV { content, agent: None, model: None }),
        resolved(content, None, commands, expanded) == (ResolvedPromptV { content, agent: None, model: None }),
{
    if 0 <= i < commands.len() && commands[i].name == name && (forall|j: int|
        0 <= j < i ==> (#[trigger] commands[j]).name != name) {
        lemma_command_found(commands, name, i);
    }
    if forall|j: int| 0 <= j < commands.len() ==> (#[trigger] commands[j]).name != name {
        lemma_command_unknown(commands, name);
    }
}

proof fn lemma_command_found(commands: Seq<OpenCodeCommandV>, name: Seq<char>, i: int)
    requires
        0 <= i < commands.len(),
        commands[i].name == name,
        forall|j: int| 0 <= j < i ==> (#[trigger] commands[j]).name != name,
    ensures
        crate::send::command_named(commands, name) == Some(commands[i]),
    decreases i,
{
    if i > 0 {
        let d = commands.drop_first();
        assert(commands[0].name != name);
        assert forall|j: int| 0 <= j < i - 1 implies (#[trigger] d[j]).name != name by {
            assert(d[j] == commands[j + 1]);
        }
        assert(d[i - 1] == commands[i]);
        lemma_command_found(d, name, i - 1);
    }
}

proof fn lemma_command_unknown(commands: Seq<OpenCodeCommandV>, name: Seq<char>)
    requires
        forall|j: int| 0 <= j < commands.len() ==> (#[trigger] commands[j]).name != name,
    ensures
        crate::send::command_named(commands, name) is None,
    decreases commands.len(),
{
    if commands.len() > 0 {
        let d = commands.drop_first();
        assert(commands[0].name != name);
        assert forall|j: int| 0 <= j < d.len() implies (#[trigger] d[j]).name != name by {
            assert(d[j] == commands[j + 1]);
        }
        lemma_command_unknown(d, name);
    }
}

/// The model that a command asks for is sent as the provider and the model that it names;
/// one without a provider is the default provider's.
pub proof fn a_commands_model_is_sent(m: Seq<char>, provider: Seq<char>, model: Seq<char>)
    ensures
        model_parts(m) == Some((provider, model)) ==> sent_model(command_model(m)).field_text("modelID"@)
            == Some(model) && sent_model(command_model(m)).field_text("providerID"@) == Some(provider),
        model_parts(m) is None ==> sent_model(command_model(m)).field_text("modelID"@) == Some(m)
            && sent_model(command_model(m)).field_text("providerID"@) == Some("opencode-go"@),
{
    lemma_prompt_keys();
    let (p, n) = match model_parts(m) {
        Some(x) => x,
        None => ("opencode-go"@, m),
    };
    let a = fields().push(("providerID"@, JsonV::Str(p)));
    let b = a.push(("id"@, JsonV::Str(n)));
    let c = b.push(("variant"@, JsonV::Str("default"@)));
    assert forall|key: Seq<char>| #[trigger] lookup(c, key) == (if key == "providerID"@ {
        Some(JsonV::Str(p))
    } else if key == "id"@ {
        Some(JsonV::Str(n))
    } else if key == "variant"@ {
        Some(JsonV::Str("default"@))
    } else {
        None
    }) by {
        lemma_lookup_push(fields(), ("providerID"@, JsonV::Str(p)), key);
        lemma_lookup_push(a, ("id"@, JsonV::Str(n)), key);
        lemma_lookup_push(b, ("variant"@, JsonV::Str("default"@)), key);
    }
    let model = command_model(m);
    assert(model == JsonV::Object(c));
    let prompt = PromptV {
        prefix: None,
        content: Seq::empty(),
        fresh_session: false,
        message_id: None,
        system: None,
        model: Some(model),
        agent: None,
        skills: Seq::empty(),
    };
    a_prompt_carries_what_it_was_made_of(prompt);
    let o1 = fields().push(("parts"@, JsonV::Array(
        seq![
            JsonV::Object(
                fields().push(("type"@, JsonV::Str("text"@))).push(
                    ("text"@, JsonV::Str(prompt_text(None, Seq::empty()))),
                ),
            ),
        ],
    )));
    lemma_lookup_push(fields(), o1[0], "model"@);
    lemma_lookup_push(o1, ("model"@, sent_model(model)), "model"@);
    assert(prompt_body(prompt) == JsonV::Object(o1.push(("model"@, sent_model(model)))));
}

// ---- Answers ----

/// The user's answers reach the request that they answer: the word for a permission, the
/// picked labels for a question, and no body for a refused question.
pub proof fn answers_reach_their_request(
    m: RemoteAgentManagerV,
    id: Seq<char>,
    session: Option<Seq<char>>,
    word: Seq<char>,
    by_user: bool,
    answers: Seq<Seq<Seq<char>>>,
)
    requires
        m.remote_config.protocol == "opencode"@,
    ensures
        m.reply(EffectV::ReplyPermission { request_id: id, session_id: session, reply: word, by_user }) matches Some(
            q,
        ) && q.method == HttpMethod::Post && q.url == base_url_of(m.remote_config.url) + ("/permission/"@ + id
            + "/reply"@) && (q.body matches Some(b) && b.field_text("reply"@) == Some(word)) && q.auth
            == auth_header_of(m.remote_config.auth_type, m.remote_config.auth_token),
        m.reply(EffectV::ReplyQuestion { request_id: id, answers }) matches Some(q) && q.method
            == HttpMethod::Post && q.url == base_url_of(m.remote_config.url) + ("/question/"@ + id + "/reply"@)
            && (q.body matches Some(b) && (b.field("answers"@) matches Some(JsonV::Array(rows)) && rows.len()
            == answers.len() && forall|i: int|
            0 <= i < answers.len() ==> #[trigger] rows[i] == JsonV::Array(
                answers[i].map_values(|s: Seq<char>| JsonV::Str(s)),
            ))) && q.auth == auth_header_of(m.remote_config.auth_type, m.remote_config.auth_token),
        m.reply(EffectV::RejectQuestion { request_id: id }) matches Some(q) && q.method == HttpMethod::Post
            && q.url == base_url_of(m.remote_config.url) + ("/question/"@ + id + "/reject"@) && q.body is None
            && q.auth == auth_header_of(m.remote_config.auth_type, m.remote_config.auth_token),
{
    let o = seq![("reply"@, JsonV::Str(word))];
    assert(lookup(o, "reply"@) == Some(JsonV::Str(word)));
    let matrix = crate::question::matrix_json(answers);
    let a = seq![("answers"@, matrix)];
    assert(lookup(a, "answers"@) == Some(matrix));
    let rows = matrix->Array_0;
    assert forall|i: int| 0 <= i < answers.len() implies #[trigger] rows[i] == JsonV::Array(
        answers[i].map_values(|s: Seq<char>| JsonV::Str(s)),
    ) by {
        assert(rows[i]->Array_0 =~= answers[i].map_values(|s: Seq<char>| JsonV::Str(s)));
    }
}

} // verus!

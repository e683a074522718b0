//! Prompts: how one is built and sent, what comes before and after it, and how a turn
//! is stopped.
use vstd::prelude::*;

use crate::collections::with_entry;
use crate::config::{auth, is_server_tool_host, normalize_base_url};
use crate::confirm::{
    all_rejected, nothing_waits, refuse_each_elicitation, refuse_each_shell, refuse_elicitations, refuse_shells,
};
use crate::dispatch::{put_pair, stay, StepV};
use crate::events::{str_or, text_or};
use crate::http::{answer_of, read_answer, HttpMethod, HttpReply, HttpReplyV, HttpRequest, HttpRequestV};
use crate::json::{
    field_reads_back, fields, json_text, lemma_plain_with_field, lookup, opt_str, opt_tree, parse_result,
    parsed_text, plain, put_opt_v, read_depth, reserved_name, same_tree, strings_v, trees, with_field_v, Json,
    JsonV, Obj,
};
use crate::manager::{
    creation_result, if_begins, model_parts, read_creation_reply, split_model, RemoteAgentManager,
    RemoteAgentManagerV,
};
use crate::models::{
    agent_modes_of, copy_agent_mode_options, copy_remote_skill_infos, default_modes, default_opencode_agent_modes,
    parse_opencode_agent_modes, parse_opencode_skills, skills_of, AgentModeOption, AgentModeOptionV, ModelInfoEntry,
    ModelInfoEntryV, RemoteSkillInfo, RemoteSkillInfoV,
};
use crate::question::PendingQuestionV;
use crate::state::{copy_open_code_commands, no_effects, then_do, OpenCodeCommand, OpenCodeCommandV, RemoteStateV};
use crate::text::{begins, cat, cat3, cat5, join, joined, starts_with, str_eq, trim, trimmed};
use crate::turn_laws::turns_left;
use crate::types::{
    copy_opt, copy_opt_json, outcome, AgentStreamEvent, AgentStreamEventV, AppError, AppErrorV, Confirmation,
    ConfirmationV, ConversationStatus, Effect, EffectV, RemoteAgentStatus,
};

verus! {

/// The hint to the model, up to the place of the project.
pub const HINT_BEFORE_WORKSPACE: &'static str = "The user's project is located at ";

/// The hint to the model, between the place of the project and the shell.
pub const HINT_BEFORE_SHELL: &'static str = " on their local machine. Use ONLY the aionui-local-fs_* tools for all file operations (aionui-local-fs_read_file, aionui-local-fs_list_dir, aionui-local-fs_write_file, aionui-local-fs_grep_dir, aionui-local-fs_run_shell, etc.). These tools operate on the user's actual project files. All file paths should be relative to the project root (e.g. \"src/main.rs\"), not absolute. Before claiming a file or directory does not exist, ALWAYS call aionui-local-fs_list_dir or aionui-local-fs_read_file on it — do not rely on memory of prior turns. To run terminal commands — build, test, lint, git, anything you need to verify your work — you MUST use the aionui-local-fs_run_shell tool; your own built-in shell runs on a different machine and cannot see this project. Commands execute on the user's machine (";

/// The hint to the model, between the shell and the listing of the project.
pub const HINT_BEFORE_TREE: &'static str = "), in the project root, and each one requires the user to approve it first, so write commands in that shell's syntax and prefer one combined command over many. The current project layout (gitignore-respecting; may be truncated) is:\n\n";

/// What comes before the transcript that a fresh session is told.
pub const RECALL_BEFORE: &'static str = "<chisl-context>\nThe OpenCode session backing this conversation was reset, so the server has no memory of the prior turns. The conversation so far on the user's machine was:\n\n";

/// What comes behind the transcript that a fresh session is told.
pub const RECALL_AFTER: &'static str = "\n</chisl-context>\n\nContinue from this context. The next message is the user's new prompt.";

/// A prompt, with all that is sent with it.
#[derive(Debug, PartialEq, Eq)]
pub struct Prompt {
    /// What is recalled of an earlier session.
    pub prefix: Option<String>,
    pub content: String,
    /// Whether the session was created for this prompt.
    pub fresh_session: bool,
    pub message_id: Option<String>,
    pub system: Option<String>,
    pub model: Option<Json>,
    pub agent: Option<String>,
    pub skills: Vec<String>,
}

/// Model of [`Prompt`].
pub struct PromptV {
    pub prefix: Option<Seq<char>>,
    pub content: Seq<char>,
    pub fresh_session: bool,
    pub message_id: Option<Seq<char>>,
    pub system: Option<Seq<char>>,
    pub model: Option<JsonV>,
    pub agent: Option<Seq<char>>,
    pub skills: Seq<Seq<char>>,
}

impl View for Prompt {
    type V = PromptV;

    open spec fn view(&self) -> PromptV {
        PromptV {
            prefix: self.prefix.deep_view(),
            content: self.content.deep_view(),
            fresh_session: self.fresh_session.deep_view(),
            message_id: self.message_id.deep_view(),
            system: self.system.deep_view(),
            model: self.model.deep_view(),
            agent: self.agent.deep_view(),
            skills: self.skills.deep_view(),
        }
    }
}

impl DeepView for Prompt {
    type V = PromptV;

    open spec fn deep_view(&self) -> PromptV {
        self@
    }
}

/// What a prompt stands for, with the agent and the model that its command asks for.
#[derive(Debug, PartialEq, Eq)]
pub struct ResolvedPrompt {
    pub content: String,
    pub agent: Option<String>,
    pub model: Option<String>,
}

/// Model of [`ResolvedPrompt`].
pub struct ResolvedPromptV {
    pub content: Seq<char>,
    pub agent: Option<Seq<char>>,
    pub model: Option<Seq<char>>,
}

impl View for ResolvedPrompt {
    type V = ResolvedPromptV;

    open spec fn view(&self) -> ResolvedPromptV {
        ResolvedPromptV {
            content: self.content.deep_view(),
            agent: self.agent.deep_view(),
            model: self.model.deep_view(),
        }
    }
}

impl DeepView for ResolvedPrompt {
    type V = ResolvedPromptV;

    open spec fn deep_view(&self) -> ResolvedPromptV {
        self@
    }
}

/// A message of the conversation so far.
#[derive(Debug, PartialEq, Eq)]
pub struct TranscriptRow {
    /// `right` for the user, `left` for the agent.
    pub position: Option<String>,
    pub kind: String,
    pub content: String,
}

/// Model of [`TranscriptRow`].
pub struct TranscriptRowV {
    pub position: Option<Seq<char>>,
    pub kind: Seq<char>,
    pub content: Seq<char>,
}

impl View for TranscriptRow {
    type V = TranscriptRowV;

    open spec fn view(&self) -> TranscriptRowV {
        TranscriptRowV {
            position: self.position.deep_view(),
            kind: self.kind.deep_view(),
            content: self.content.deep_view(),
        }
    }
}

impl DeepView for TranscriptRow {
    type V = TranscriptRowV;

    open spec fn deep_view(&self) -> TranscriptRowV {
        self@
    }
}

/// How far a sending has come.
#[derive(Debug, Clone, Copy, PartialEq, Eq, Structural)]
pub enum SendPhase {
    /// It has not begun.
    Idle,
    /// It waits for its turn.
    Acquiring,
    /// A session is being created.
    Creating,
    /// The transcript is being read.
    Recalling,
    /// The command is being resolved.
    Resolving,
    /// The project is being listed.
    Listing,
    /// The prompt is out.
    Prompting,
    /// It is over.
    Ended,
}

impl View for SendPhase {
    type V = SendPhase;

    open spec fn view(&self) -> SendPhase {
        *self
    }
}

impl DeepView for SendPhase {
    type V = SendPhase;

    open spec fn deep_view(&self) -> SendPhase {
        *self
    }
}

/// What happened to a sending.
#[derive(Debug, PartialEq, Eq)]
pub enum SendEvent {
    /// It is to begin.
    Begin,
    /// It has its turn.
    TurnAcquired,
    /// The server answered the creation of a session.
    SessionAnswered(HttpReply),
    /// The transcript was read, or could not be.
    TranscriptRead(Option<Vec<TranscriptRow>>),
    /// What the prompt stands for.
    CommandResolved(ResolvedPrompt),
    /// The project was listed.
    ProjectListed { tree: String, shell: String },
    /// The server answered the prompt.
    PromptAnswered(HttpReply),
}

/// Model of [`SendEvent`].
pub enum SendEventV {
    Begin,
    TurnAcquired,
    SessionAnswered(HttpReplyV),
    TranscriptRead(Option<Seq<TranscriptRowV>>),
    CommandResolved(ResolvedPromptV),
    ProjectListed { tree: Seq<char>, shell: Seq<char> },
    PromptAnswered(HttpReplyV),
}

impl View for SendEvent {
    type V = SendEventV;

    open spec fn view(&self) -> SendEventV {
        match self {
            SendEvent::Begin => SendEventV::Begin,
            SendEvent::TurnAcquired => SendEventV::TurnAcquired,
            SendEvent::SessionAnswered(x) => SendEventV::SessionAnswered(x.deep_view()),
            SendEvent::TranscriptRead(x) => SendEventV::TranscriptRead(x.deep_view()),
            SendEvent::CommandResolved(x) => SendEventV::CommandResolved(x.deep_view()),
            SendEvent::ProjectListed { tree, shell } => SendEventV::ProjectListed { tree: tree.deep_view(), shell: shell.deep_view() },
            SendEvent::PromptAnswered(x) => SendEventV::PromptAnswered(x.deep_view()),
        }
    }
}

impl DeepView for SendEvent {
    type V = SendEventV;

    open spec fn deep_view(&self) -> SendEventV {
        self@
    }
}

/// What a sending asks for.
#[derive(Debug, PartialEq, Eq)]
pub enum SendAction {
    /// Wait for the turn.
    AcquireTurn,
    /// Register the local file tools.
    EnsureLocalTools,
    /// Make a request.
    Request(HttpRequest),
    /// Note the session in the conversation.
    PersistSessionKey { session_id: String },
    /// Read the conversation so far.
    ReadTranscript,
    /// Resolve the command in the prompt.
    ResolveCommand { content: String },
    /// List the project.
    ListProject,
    /// Give the turn back.
    ReleaseTurn,
    /// The prompt is sent.
    Done,
    /// The prompt could not be sent.
    Fail(AppError),
}

/// Model of [`SendAction`].
pub enum SendActionV {
    AcquireTurn,
    EnsureLocalTools,
    Request(HttpRequestV),
    PersistSessionKey { session_id: Seq<char> },
    ReadTranscript,
    ResolveCommand { content: Seq<char> },
    ListProject,
    ReleaseTurn,
    Done,
    Fail(AppErrorV),
}

impl View for SendAction {
    type V = SendActionV;

    open spec fn view(&self) -> SendActionV {
        match self {
            SendAction::AcquireTurn => SendActionV::AcquireTurn,
            SendAction::EnsureLocalTools => SendActionV::EnsureLocalTools,
            SendAction::Request(x) => SendActionV::Request(x.deep_view()),
            SendAction::PersistSessionKey { session_id } => SendActionV::PersistSessionKey { session_id: session_id.deep_view() },
            SendAction::ReadTranscript => SendActionV::ReadTranscript,
            SendAction::ResolveCommand { content } => SendActionV::ResolveCommand { content: content.deep_view() },
            SendAction::ListProject => SendActionV::ListProject,
            SendAction::ReleaseTurn => SendActionV::ReleaseTurn,
            SendAction::Done => SendActionV::Done,
            SendAction::Fail(x) => SendActionV::Fail(x.deep_view()),
        }
    }
}

impl DeepView for SendAction {
    type V = SendActionV;

    open spec fn deep_view(&self) -> SendActionV {
        self@
    }
}

/// A prompt on its way.
#[derive(Debug, PartialEq, Eq)]
pub struct Sending {
    pub phase: SendPhase,
    pub prompt: Prompt,
}

/// Model of [`Sending`].
pub struct SendingV {
    pub phase: SendPhase,
    pub prompt: PromptV,
}

impl View for Sending {
    type V = SendingV;

    open spec fn view(&self) -> SendingV {
        SendingV {
            phase: self.phase.deep_view(),
            prompt: self.prompt.deep_view(),
        }
    }
}

impl DeepView for Sending {
    type V = SendingV;

    open spec fn deep_view(&self) -> SendingV {
        self@
    }
}

/// The prompt's text: what is recalled of an earlier session, then the words.
pub open spec fn prompt_text(prefix: Option<Seq<char>>, content: Seq<char>) -> Seq<char> {
    match prefix {
        Some(p) if p.len() > 0 => p + "\n\n"@ + content,
        _ => content,
    }
}

/// The model of a prompt as it is sent. A model under `id` is sent under `modelID`,
/// with what is missing filled in.
pub open spec fn sent_model(m: JsonV) -> JsonV {
    match m.field("id"@) {
        Some(id) => JsonV::Object(
            fields().push(
                (
                    "providerID"@,
                    JsonV::Str(text_or(m.field_text("providerID"@), "opencode-go"@)),
                ),
            ).push(("modelID"@, id)).push(
                ("variant"@, JsonV::Str(text_or(m.field_text("variant"@), "default"@))),
            ),
        ),
        None => m,
    }
}

/// The model of a prompt as it is sent.
pub fn send_model(m: &Json) -> (r: Json)
    ensures
        r@ == sent_model(m@),
{
    match m.get("id") {
        Some(id) => Obj::new().put_str(
            "providerID",
            str_or(m.get_str("providerID"), "opencode-go"),
        ).put("modelID", id.copy()).put_str(
            "variant",
            str_or(m.get_str("variant"), "default"),
        ).build(),
        None => m.copy(),
    }
}

/// The body of a prompt.
pub open spec fn prompt_body(p: PromptV) -> JsonV {
    let o = fields().push(
        (
            "parts"@,
            JsonV::Array(
                seq![
                    JsonV::Object(
                        fields().push(("type"@, JsonV::Str("text"@))).push(
                            ("text"@, JsonV::Str(prompt_text(p.prefix, p.content))),
                        ),
                    ),
                ],
            ),
        ),
    );
    let o = put_opt_v(
        o,
        "messageID"@,
        if p.fresh_session {
            if_begins(p.message_id, "msg"@)
        } else {
            None
        },
    );
    let o = put_opt_v(o, "system"@, p.system);
    let o = match p.model {
        Some(m) => o.push(("model"@, sent_model(m))),
        None => o,
    };
    let o = put_opt_v(o, "agent"@, p.agent);
    let o = if p.skills.len() > 0 {
        o.push(("skills"@, strings_v(p.skills)))
    } else {
        o
    };
    JsonV::Object(o)
}

/// The body of a prompt.
pub fn build_prompt_body(p: &Prompt) -> (r: Json)
    ensures
        r@ == prompt_body(p@),
{
    let text = match &p.prefix {
        Some(prefix) => if prefix.as_str().is_empty() {
            p.content.clone()
        } else {
            cat3(prefix.as_str(), "\n\n", p.content.as_str())
        },
        None => p.content.clone(),
    };
    let part = Obj::new().put_str("type", "text").put_str("text", text.as_str()).build();
    let ghost part_v = part@;
    let parts = vec![part];
    assert(trees(parts@) =~= seq![part_v]);
    let o = Obj::new().put("parts", Json::array(parts));
    let message_id = if p.fresh_session {
        match &p.message_id {
            Some(m) => if starts_with(m.as_str(), "msg") {
                Some(m.clone())
            } else {
                None
            },
            None => None,
        }
    } else {
        None
    };
    let o = o.put_opt("messageID", &message_id);
    let o = o.put_opt("system", &p.system);
    let o = match &p.model {
        Some(m) => o.put("model", send_model(m)),
        None => o,
    };
    let o = o.put_opt("agent", &p.agent);
    let o = if p.skills.len() > 0 {
        o.put("skills", Json::strings(&p.skills))
    } else {
        o
    };
    o.build()
}

/// The hint that tells the model where the project is and which tools reach it.
pub open spec fn hint_of(workspace: Seq<char>, shell: Seq<char>, tree: Seq<char>) -> Seq<char> {
    HINT_BEFORE_WORKSPACE@ + workspace + HINT_BEFORE_SHELL@ + shell + HINT_BEFORE_TREE@ + tree
}

/// The hint that tells the model where the project is and which tools reach it.
pub fn system_hint(workspace: &str, shell: &str, tree: &str) -> (r: String)
    ensures
        r@ == hint_of(workspace@, shell@, tree@),
{
    let head = cat5(HINT_BEFORE_WORKSPACE, workspace, HINT_BEFORE_SHELL, shell, HINT_BEFORE_TREE);
    cat(head.as_str(), tree)
}

/// The model that a command asks for.
pub open spec fn command_model(m: Seq<char>) -> JsonV {
    let (provider, model) = match model_parts(m) {
        Some(p) => p,
        None => ("opencode-go"@, m),
    };
    JsonV::Object(
        fields().push(("providerID"@, JsonV::Str(provider))).push(("id"@, JsonV::Str(model))).push(
            ("variant"@, JsonV::Str("default"@)),
        ),
    )
}

fn make_command_model(m: &str) -> (r: Json)
    ensures
        r@ == command_model(m@),
{
    let (provider, model) = match split_model(m) {
        Some((p, q)) => (p, q),
        None => ("opencode-go".to_owned(), m.to_owned()),
    };
    Obj::new().put_str("providerID", provider.as_str()).put_str("id", model.as_str()).put_str(
        "variant",
        "default",
    ).build()
}

/// The words that a command stands for: its template with the arguments filled in;
/// without a template the arguments, or its name where there are none.
pub open spec fn command_words(c: OpenCodeCommandV, args: Seq<char>, expanded: Seq<char>) -> Seq<char> {
    if c.template is Some {
        expanded
    } else if args.len() == 0 {
        c.name
    } else {
        args
    }
}

/// What a prompt is resolved to: a known command to its words with the agent and the
/// model that it asks for, anything else to itself.
pub open spec fn resolved(
    content: Seq<char>,
    invocation: Option<(Seq<char>, Seq<char>)>,
    commands: Seq<OpenCodeCommandV>,
    expanded: Seq<char>,
) -> ResolvedPromptV {
    match invocation {
        Some(i) => match command_named(commands, i.0) {
            Some(c) => ResolvedPromptV {
                content: command_words(c, i.1, expanded),
                agent: c.agent,
                model: c.model,
            },
            None => ResolvedPromptV { content, agent: None, model: None },
        },
        None => ResolvedPromptV { content, agent: None, model: None },
    }
}

/// The first command with a name.
pub open spec fn command_named(commands: Seq<OpenCodeCommandV>, name: Seq<char>) -> Option<
    OpenCodeCommandV,
>
    decreases commands.len(),
{
    if commands.len() == 0 {
        None
    } else if commands[0].name == name {
        Some(commands[0])
    } else {
        command_named(commands.drop_first(), name)
    }
}

/// The first command with a name.
pub fn find_command<'a>(commands: &'a Vec<OpenCodeCommand>, name: &str) -> (r: Option<
    &'a OpenCodeCommand,
>)
    ensures
        match r {
            Some(c) => command_named(commands.deep_view(), name@) == Some(c@),
            None => command_named(commands.deep_view(), name@) is None,
        },
{
    let ghost cv = commands.deep_view();
    let mut i: usize = 0;
    assert(cv.skip(0) =~= cv);
    while i < commands.len()
        invariant
            i <= commands.len(),
            cv == commands.deep_view(),
            command_named(cv, name@) == command_named(cv.skip(i as int), name@),
        decreases commands.len() - i,
    {
        assert(cv.skip(i as int)[0] == commands@[i as int]@);
        if str_eq(commands[i].name.as_str(), name) {
            return Some(&commands[i]);
        }
        assert(cv.skip(i as int).drop_first() =~= cv.skip(i as int + 1));
        i += 1;
    }
    None
}

/// What a prompt is resolved to. `invocation` is the command and the arguments that
/// the prompt names, `expanded` the command's template with the arguments filled in.
pub fn resolve_prompt(
    content: &str,
    invocation: &Option<(String, String)>,
    commands: &Vec<OpenCodeCommand>,
    expanded: &str,
) -> (r: ResolvedPrompt)
    ensures
        r@ == resolved(content@, invocation.deep_view(), commands.deep_view(), expanded@),
{
    match invocation {
        Some(i) => {
            match find_command(commands, i.0.as_str()) {
                Some(c) => {
                    let words = if c.template.is_some() {
                        expanded.to_owned()
                    } else if i.1.as_str().is_empty() {
                        c.name.clone()
                    } else {
                        i.1.clone()
                    };
                    return ResolvedPrompt {
                        content: words,
                        agent: copy_opt(&c.agent),
                        model: copy_opt(&c.model),
                    };
                },
                None => {},
            }
        },
        None => {},
    }
    ResolvedPrompt { content: content.to_owned(), agent: None, model: None }
}

/// The line that a message of the transcript becomes, given what its content stands
/// for; none for what is of no use as context.
pub open spec fn row_line_of(
    position: Option<Seq<char>>,
    kind: Seq<char>,
    content: Option<JsonV>,
) -> Option<Seq<char>> {
    let side = text_or(position, ""@);
    if side == "left"@ && kind == "thinking"@ {
        Some("[ASSISTANT][thinking]"@)
    } else if side == "left"@ && kind == "tool_call"@ {
        let tool = match content {
            Some(v) => text_or(v.field_text("name"@), "tool"@),
            None => "tool"@,
        };
        Some("[ASSISTANT][used tool: "@ + tool + "]"@)
    } else if (side == "right"@ || side == "left"@) && kind == "text"@ {
        match content {
            Some(v) => {
                let text = trimmed(text_or(v.field_text("content"@), ""@));
                let speaker = if side == "right"@ {
                    "[USER]"@
                } else {
                    "[ASSISTANT]"@
                };
                if text.len() == 0 {
                    None
                } else {
                    Some(speaker + ": "@ + text)
                }
            },
            None => None,
        }
    } else {
        None
    }
}

/// The line that a message of the transcript becomes, given what its content stands
/// for.
pub fn row_line(position: &Option<String>, kind: &str, content: Option<&Json>) -> (r: Option<String>)
    ensures
        r.deep_view() == row_line_of(position.deep_view(), kind@, opt_tree(content)),
{
    proof {
        reveal_strlit("left");
        reveal_strlit("right");
        reveal_strlit("text");
        reveal_strlit("thinking");
        reveal_strlit("tool_call");
        assert("left"@.len() != "right"@.len());
        assert("text"@.len() != "thinking"@.len());
        assert("text"@.len() != "tool_call"@.len());
        assert("thinking"@.len() != "tool_call"@.len());
    }
    let side = match position {
        Some(p) => p.as_str(),
        None => "",
    };
    let left = str_eq(side, "left");
    if left && str_eq(kind, "thinking") {
        return Some("[ASSISTANT][thinking]".to_owned());
    }
    if left && str_eq(kind, "tool_call") {
        let tool = match content {
            Some(v) => str_or(v.get_str("name"), "tool"),
            None => "tool",
        };
        return Some(cat3("[ASSISTANT][used tool: ", tool, "]"));
    }
    let right = str_eq(side, "right");
    if (right || left) && str_eq(kind, "text") {
        let v = match content {
            Some(v) => v,
            None => {
                return None;
            },
        };
        let text = trim(str_or(v.get_str("content"), ""));
        if text.as_str().is_empty() {
            return None;
        }
        let speaker = if right {
            "[USER]"
        } else {
            "[ASSISTANT]"
        };
        return Some(cat3(speaker, ": ", text.as_str()));
    }
    None
}

/// The line that a message of the transcript becomes.
pub open spec fn line_of_row(row: TranscriptRowV) -> Option<Seq<char>> {
    row_line_of(row.position, row.kind, parsed_text(row.content))
}

/// The lines of a transcript.
pub open spec fn transcript_lines(rows: Seq<TranscriptRowV>) -> Seq<Seq<char>>
    decreases rows.len(),
{
    if rows.len() == 0 {
        Seq::empty()
    } else {
        let before = transcript_lines(rows.drop_last());
        match line_of_row(rows.last()) {
            Some(l) => before.push(l),
            None => before,
        }
    }
}

/// The lines without the prompt at their end, which is sent on its own.
pub open spec fn without_prompt(lines: Seq<Seq<char>>) -> Seq<Seq<char>> {
    if lines.len() > 0 && begins(lines.last(), "[USER]:"@) {
        lines.drop_last()
    } else {
        lines
    }
}

/// What a fresh session is told of the conversation so far; nothing where there is
/// nothing to tell.
pub open spec fn recalled(lines: Seq<Seq<char>>) -> Option<Seq<char>> {
    let lines = without_prompt(lines);
    if lines.len() == 0 {
        None
    } else {
        Some(RECALL_BEFORE@ + joined(lines, "\n"@) + RECALL_AFTER@)
    }
}

/// What a fresh session is told of the conversation so far, given its lines.
pub fn frame_transcript(lines: Vec<String>) -> (r: Option<String>)
    ensures
        r.deep_view() == recalled(lines.deep_view()),
{
    let ghost lv = lines.deep_view();
    let mut lines = lines;
    if lines.len() > 0 && starts_with(lines[lines.len() - 1].as_str(), "[USER]:") {
        let _ = lines.pop();
        assert(lines.deep_view() =~= lv.drop_last());
    }
    if lines.len() == 0 {
        return None;
    }
    let text = join(&lines, "\n");
    Some(cat3(RECALL_BEFORE, text.as_str(), RECALL_AFTER))
}

/// What a fresh session is told of the conversation so far.
pub fn build_context_transcript_prefix(rows: &Vec<TranscriptRow>) -> (r: Option<String>)
    ensures
        r.deep_view() == recalled(transcript_lines(rows.deep_view())),
{
    let ghost rv = rows.deep_view();
    let mut lines: Vec<String> = Vec::new();
    let mut i: usize = 0;
    assert(rv.take(0) =~= Seq::<TranscriptRowV>::empty());
    assert(lines.deep_view() =~= Seq::<Seq<char>>::empty());
    while i < rows.len()
        invariant
            i <= rows.len(),
            rv == rows.deep_view(),
            lines.deep_view() == transcript_lines(rv.take(i as int)),
        decreases rows.len() - i,
    {
        let ghost before = lines.deep_view();
        assert(rv.take(i as int + 1).drop_last() =~= rv.take(i as int));
        assert(rv.take(i as int + 1).last() == rows@[i as int]@);
        let parsed = Json::from_text(rows[i].content.as_str());
        let line = match &parsed {
            Some(v) => row_line(&rows[i].position, rows[i].kind.as_str(), Some(v)),
            None => row_line(&rows[i].position, rows[i].kind.as_str(), None),
        };
        match line {
            Some(l) => {
                lines.push(l);
                assert(lines.deep_view() =~= before.push(l@));
            },
            None => {},
        }
        i += 1;
    }
    assert(rv.take(rv.len() as int) =~= rv);
    frame_transcript(lines)
}

/// The extras of a conversation with the session noted; `None` where it is noted
/// already.
pub open spec fn session_noted(extra: JsonV, key: Seq<char>) -> Option<JsonV> {
    if extra.field_text("sessionKey"@) == Some(key) {
        None
    } else {
        Some(
            JsonV::Object(
                with_field_v(
                    match extra {
                        JsonV::Object(o) => o,
                        _ => Seq::empty(),
                    },
                    "sessionKey"@,
                    JsonV::Str(key),
                ),
            ),
        )
    }
}

/// The extras of a conversation with the session noted.
pub fn note_session(extra: &Json, key: &str) -> (r: Option<Json>)
    requires
        extra@ is Object || extra@ is Null,
    ensures
        r.deep_view() == session_noted(extra@, key@),
{
    let same = match extra.get_str("sessionKey") {
        Some(k) => str_eq(k, key),
        None => false,
    };
    if same {
        None
    } else {
        Some(extra.with_field("sessionKey", Json::string(key)))
    }
}

/// The extras that a text stands for: those of a text that is no JSON are empty.
pub open spec fn extras_of(text: Seq<char>) -> JsonV {
    match parsed_text(text) {
        Some(v) => v,
        None => JsonV::Object(fields()),
    }
}

/// A session that is noted in plain extras is in what is read back of them.
proof fn lemma_session_reads_back(extra: JsonV, key: Seq<char>, read: Result<JsonV, Seq<char>>)
    requires
        extra is Object || extra is Null,
        plain(extra, read_depth()),
        session_noted(extra, key) is Some,
        plain(session_noted(extra, key)->0, read_depth()) ==> read is Ok && same_tree(
            read->Ok_0,
            session_noted(extra, key)->0,
            read_depth(),
        ),
    ensures
        read is Ok,
        read->Ok_0.field_text("sessionKey"@) == Some(key),
{
    let o = match extra {
        JsonV::Object(o) => o,
        _ => Seq::empty(),
    };
    assert(plain(JsonV::Object(o), read_depth()));
    reveal_strlit("sessionKey");
    reveal_strlit("$serde_json::private::RawValue");
    assert("sessionKey"@.len() != reserved_name().len());
    lemma_plain_with_field(o, "sessionKey"@, JsonV::Str(key), read_depth());
    field_reads_back(o, "sessionKey"@, JsonV::Str(key), "sessionKey"@);
    let n = with_field_v(o, "sessionKey"@, JsonV::Str(key));
    assert(lookup(n, "sessionKey"@) == Some(JsonV::Str(key)));
    let got = lookup(read->Ok_0->Object_0, "sessionKey"@);
    assert(got is Some);
    assert(same_tree(got->0, JsonV::Str(key), (read_depth() - 1) as nat));
}

/// The text to store so that a session is noted in a conversation's extras. `None`
/// where it is noted already, and where the extras are neither an object nor `null`,
/// in which case nothing can be noted. Where the extras are plain, the session is read
/// back from the text.
pub fn persist_session_key(extra_text: &str, key: &str) -> (r: Option<String>)
    ensures
        r is Some && plain(extras_of(extra_text@), read_depth()) ==> parsed_text(r->0@) is Some
            && parsed_text(r->0@)->0.field_text("sessionKey"@) == Some(key@),
        r.deep_view() == (if extras_of(extra_text@) is Object || extras_of(extra_text@) is Null {
            match session_noted(extras_of(extra_text@), key@) {
                Some(v) => Some(json_text(v)),
                None => None,
            }
        } else {
            None
        }),
{
    let extra = match Json::from_text(extra_text) {
        Some(v) => v,
        None => Obj::new().build(),
    };
    let fits = match &extra {
        Json::Null => true,
        _ => extra.as_object().is_some(),
    };
    if !fits {
        return None;
    }
    match note_session(&extra, key) {
        Some(v) => {
            let text = v.to_text();
            proof {
                if plain(extra@, read_depth()) {
                    lemma_session_reads_back(extra@, key@, parse_result(text@));
                }
            }
            Some(text)
        },
        None => None,
    }
}

/// A manager, a sending and the actions after an event.
pub struct SendStepV {
    pub manager: RemoteAgentManagerV,
    pub sending: SendingV,
    pub actions: Seq<SendActionV>,
}

/// The command in the prompt is to be resolved.
pub open spec fn resolving(m: RemoteAgentManagerV, d: SendingV) -> SendStepV {
    SendStepV {
        manager: m,
        sending: SendingV { phase: SendPhase::Resolving, ..d },
        actions: seq![SendActionV::ResolveCommand { content: d.prompt.content }],
    }
}

/// The turn is ours: the local tools are registered, and a session is created where
/// there is none.
pub open spec fn on_turn(m: RemoteAgentManagerV, d: SendingV) -> SendStepV {
    let tools: Seq<SendActionV> = if m.remote_config.server_tools() {
        Seq::empty()
    } else {
        seq![SendActionV::EnsureLocalTools]
    };
    if m.state.opencode_session_id is None {
        SendStepV {
            manager: m,
            sending: SendingV { phase: SendPhase::Creating, ..d },
            actions: (tools + tools).push(SendActionV::Request(m.creation())),
        }
    } else {
        let r = resolving(m, d);
        SendStepV { actions: tools + r.actions, ..r }
    }
}

/// The sending fails: the turn is given back.
pub open spec fn send_failed(m: RemoteAgentManagerV, d: SendingV, e: AppErrorV) -> SendStepV {
    SendStepV {
        manager: m,
        sending: SendingV { phase: SendPhase::Ended, ..d },
        actions: Seq::<SendActionV>::empty().push(SendActionV::ReleaseTurn).push(
            SendActionV::Fail(e),
        ),
    }
}

/// The answer to the creation of a session.
pub open spec fn on_created(m: RemoteAgentManagerV, d: SendingV, reply: HttpReplyV) -> SendStepV {
    match creation_result(reply) {
        Err(e) => send_failed(m, d, e),
        Ok(id) => SendStepV {
            manager: RemoteAgentManagerV {
                state: RemoteStateV { opencode_session_id: Some(id), ..m.state },
                ..m
            },
            sending: SendingV {
                phase: SendPhase::Recalling,
                prompt: PromptV { fresh_session: true, ..d.prompt },
            },
            actions: Seq::<SendActionV>::empty().push(
                SendActionV::PersistSessionKey { session_id: id },
            ).push(SendActionV::ReadTranscript),
        },
    }
}

/// The prompt goes out.
pub open spec fn prompting(m: RemoteAgentManagerV, d: SendingV) -> SendStepV {
    let session = match m.state.opencode_session_id {
        Some(id) => id,
        None => Seq::empty(),
    };
    SendStepV {
        manager: m,
        sending: SendingV { phase: SendPhase::Prompting, ..d },
        actions: seq![
            SendActionV::Request(
                m.request(
                    HttpMethod::Post,
                    "/session/"@ + session + "/prompt_async"@,
                    Some(prompt_body(d.prompt)),
                    120,
                ),
            ),
        ],
    }
}

/// What the prompt stands for is known. What a command asks for goes before what the
/// user selected.
pub open spec fn on_resolved(m: RemoteAgentManagerV, d: SendingV, r: ResolvedPromptV) -> SendStepV {
    let d = SendingV {
        prompt: PromptV {
            content: r.content,
            model: match r.model {
                Some(x) => Some(command_model(x)),
                None => m.state.desired_model,
            },
            agent: match r.agent {
                Some(a) => Some(a),
                None => m.state.desired_agent,
            },
            ..d.prompt
        },
        ..d
    };
    if m.remote_config.server_tools() {
        prompting(m, d)
    } else {
        SendStepV {
            manager: m,
            sending: SendingV { phase: SendPhase::Listing, ..d },
            actions: seq![SendActionV::ListProject],
        }
    }
}

/// The answer to the prompt.
pub open spec fn on_prompted(m: RemoteAgentManagerV, d: SendingV, reply: HttpReplyV) -> SendStepV {
    match answer_of(reply, false, "OpenCode prompt_async"@) {
        Ok(_) => SendStepV {
            manager: m,
            sending: SendingV { phase: SendPhase::Ended, ..d },
            actions: seq![SendActionV::Done],
        },
        Err(e) => send_failed(m, d, e),
    }
}

/// How a sending goes on. An event that does not belong to its phase changes nothing.
pub open spec fn send_step(m: RemoteAgentManagerV, d: SendingV, e: SendEventV) -> SendStepV {
    match (d.phase, e) {
        (SendPhase::Idle, SendEventV::Begin) => SendStepV {
            manager: m,
            sending: SendingV { phase: SendPhase::Acquiring, ..d },
            actions: seq![SendActionV::AcquireTurn],
        },
        (SendPhase::Acquiring, SendEventV::TurnAcquired) => on_turn(m, d),
        (SendPhase::Creating, SendEventV::SessionAnswered(reply)) => on_created(m, d, reply),
        (SendPhase::Recalling, SendEventV::TranscriptRead(rows)) => resolving(
            m,
            SendingV {
                prompt: PromptV {
                    prefix: match rows {
                        Some(r) => recalled(transcript_lines(r)),
                        None => None,
                    },
                    ..d.prompt
                },
                ..d
            },
        ),
        (SendPhase::Resolving, SendEventV::CommandResolved(r)) => on_resolved(m, d, r),
        (SendPhase::Listing, SendEventV::ProjectListed { tree, shell }) => prompting(
            m,
            SendingV {
                prompt: PromptV { system: Some(hint_of(m.workspace, shell, tree)), ..d.prompt },
                ..d
            },
        ),
        (SendPhase::Prompting, SendEventV::PromptAnswered(reply)) => on_prompted(m, d, reply),
        _ => SendStepV { manager: m, sending: d, actions: Seq::empty() },
    }
}

fn act(actions: &mut Vec<SendAction>, a: SendAction)
    ensures
        final(actions).deep_view() == old(actions).deep_view().push(a@),
{
    let ghost before = actions.deep_view();
    actions.push(a);
    assert(actions.deep_view() =~= before.push(a@));
}

impl Sending {
    /// A sending that has not begun.
    pub fn new(content: &str, message_id: Option<String>, skills: Vec<String>) -> (r: Sending)
        ensures
            r@ == first_sending(content@, message_id.deep_view(), skills.deep_view()),
    {
        Sending {
            phase: SendPhase::Idle,
            prompt: Prompt {
                prefix: None,
                content: content.to_owned(),
                fresh_session: false,
                message_id,
                system: None,
                model: None,
                agent: None,
                skills,
            },
        }
    }

    fn fail(&mut self, e: AppError, actions: &mut Vec<SendAction>)
        ensures
            final(self)@ == (SendingV { phase: SendPhase::Ended, ..old(self)@ }),
            final(actions).deep_view() == old(actions).deep_view().push(
                SendActionV::ReleaseTurn,
            ).push(SendActionV::Fail(e@)),
    {
        self.phase = SendPhase::Ended;
        act(actions, SendAction::ReleaseTurn);
        act(actions, SendAction::Fail(e));
    }

    fn post_prompt(&mut self, m: &RemoteAgentManager, actions: &mut Vec<SendAction>)
        ensures
            final(self)@ == prompting(m@, old(self)@).sending,
            final(actions).deep_view() == old(actions).deep_view() + prompting(
                m@,
                old(self)@,
            ).actions,
    {
        let ghost before = actions.deep_view();
        self.phase = SendPhase::Prompting;
        let session = match &m.state.opencode_session_id {
            Some(id) => id.clone(),
            None => String::new(),
        };
        assert(m@.state.opencode_session_id is None ==> session@ =~= Seq::<char>::empty());
        let path = cat3("/session/", session.as_str(), "/prompt_async");
        let body = build_prompt_body(&self.prompt);
        let base = normalize_base_url(m.remote_config.url.as_str());
        act(
            actions,
            SendAction::Request(
                HttpRequest {
                    method: HttpMethod::Post,
                    url: cat(base.as_str(), path.as_str()),
                    auth: auth(&m.remote_config),
                    body: Some(body),
                    timeout_secs: 120,
                },
            ),
        );
        assert(actions.deep_view() =~= before + prompting(m@, old(self)@).actions);
    }

    /// Goes on with a sending: takes what happened, and says what to do next.
    pub fn advance(&mut self, m: &mut RemoteAgentManager, event: SendEvent) -> (r: Vec<SendAction>)
        ensures
            final(self)@ == send_step(old(m)@, old(self)@, event@).sending,
            final(m)@ == send_step(old(m)@, old(self)@, event@).manager,
            r.deep_view() == send_step(old(m)@, old(self)@, event@).actions,
    {
        let mut actions: Vec<SendAction> = Vec::new();
        assert(actions.deep_view() =~= Seq::<SendActionV>::empty());
        let ghost step = send_step(m@, self@, event@);
        match (self.phase, event) {
            (SendPhase::Idle, SendEvent::Begin) => {
                self.phase = SendPhase::Acquiring;
                act(&mut actions, SendAction::AcquireTurn);
            },
            (SendPhase::Acquiring, SendEvent::TurnAcquired) => {
                let local = !is_server_tool_host(&m.remote_config);
                if local {
                    act(&mut actions, SendAction::EnsureLocalTools);
                }
                if m.state.opencode_session_id.is_none() {
                    if local {
                        act(&mut actions, SendAction::EnsureLocalTools);
                    }
                    act(&mut actions, SendAction::Request(m.opencode_create_session()));
                    self.phase = SendPhase::Creating;
                } else {
                    act(
                        &mut actions,
                        SendAction::ResolveCommand { content: self.prompt.content.clone() },
                    );
                    self.phase = SendPhase::Resolving;
                }
                assert(actions.deep_view() =~= step.actions);
            },
            (SendPhase::Creating, SendEvent::SessionAnswered(reply)) => {
                match read_creation_reply(&reply) {
                    Ok(id) => {
                        act(
                            &mut actions,
                            SendAction::PersistSessionKey { session_id: id.clone() },
                        );
                        act(&mut actions, SendAction::ReadTranscript);
                        m.state.opencode_session_id = Some(id);
                        self.prompt.fresh_session = true;
                        self.phase = SendPhase::Recalling;
                    },
                    Err(e) => {
                        self.fail(e, &mut actions);
                    },
                }
            },
            (SendPhase::Recalling, SendEvent::TranscriptRead(rows)) => {
                self.prompt.prefix = match &rows {
                    Some(r) => build_context_transcript_prefix(r),
                    None => None,
                };
                act(
                    &mut actions,
                    SendAction::ResolveCommand { content: self.prompt.content.clone() },
                );
                self.phase = SendPhase::Resolving;
            },
            (SendPhase::Resolving, SendEvent::CommandResolved(r)) => {
                self.prompt.model = match &r.model {
                    Some(x) => Some(make_command_model(x.as_str())),
                    None => copy_opt_json(&m.state.desired_model),
                };
                self.prompt.agent = match r.agent {
                    Some(a) => Some(a),
                    None => copy_opt(&m.state.desired_agent),
                };
                self.prompt.content = r.content;
                if is_server_tool_host(&m.remote_config) {
                    self.post_prompt(m, &mut actions);
                    assert(actions.deep_view() =~= step.actions);
                } else {
                    act(&mut actions, SendAction::ListProject);
                    self.phase = SendPhase::Listing;
                }
            },
            (SendPhase::Listing, SendEvent::ProjectListed { tree, shell }) => {
                self.prompt.system = Some(
                    system_hint(m.workspace.as_str(), shell.as_str(), tree.as_str()),
                );
                self.post_prompt(m, &mut actions);
                assert(actions.deep_view() =~= step.actions);
            },
            (SendPhase::Prompting, SendEvent::PromptAnswered(reply)) => {
                match read_answer(&reply, false, "OpenCode prompt_async") {
                    Ok(_) => {
                        self.phase = SendPhase::Ended;
                        act(&mut actions, SendAction::Done);
                    },
                    Err(e) => {
                        self.fail(e, &mut actions);
                    },
                }
            },
            _ => {},
        }
        actions
    }
}

/// A sending that has not begun.
pub open spec fn first_sending(
    content: Seq<char>,
    message_id: Option<Seq<char>>,
    skills: Seq<Seq<char>>,
) -> SendingV {
    SendingV {
        phase: SendPhase::Idle,
        prompt: PromptV {
            prefix: None,
            content,
            fresh_session: false,
            message_id,
            system: None,
            model: None,
            agent: None,
            skills,
        },
    }
}

/// A sending that fails gives the turn back before it reports the failure; one that
/// succeeds keeps the turn, which ends with the answer.
pub proof fn a_failed_sending_gives_the_turn_back(
    m: RemoteAgentManagerV,
    d: SendingV,
    e: SendEventV,
    i: int,
)
    requires
        0 <= i < send_step(m, d, e).actions.len(),
        send_step(m, d, e).actions[i] is Fail,
    ensures
        i > 0,
        send_step(m, d, e).actions[i - 1] is ReleaseTurn,
        send_step(m, d, e).sending.phase == SendPhase::Ended,
{
}

/// A session is created only where there is none, and what is created is kept.
pub proof fn a_session_is_created_once(m: RemoteAgentManagerV, d: SendingV, e: SendEventV)
    requires
        send_step(m, d, e).sending.phase == SendPhase::Creating,
        d.phase != SendPhase::Creating,
    ensures
        m.state.opencode_session_id is None,
        send_step(m, d, e).manager == m,
{
}

/// The id of a message is sent with the first prompt of a fresh session alone: the
/// server skips the answer to a later prompt that carries one.
pub proof fn only_fresh_sessions_get_message_ids(p: PromptV)
    requires
        !p.fresh_session,
    ensures
        prompt_body(p) == prompt_body(PromptV { message_id: None, ..p }),
{
}

/// A run of events of a sending.
pub open spec fn sent(m: RemoteAgentManagerV, d: SendingV, events: Seq<SendEventV>) -> SendStepV
    decreases events.len(),
{
    if events.len() == 0 {
        SendStepV { manager: m, sending: d, actions: Seq::empty() }
    } else {
        let before = sent(m, d, events.drop_last());
        let step = send_step(before.manager, before.sending, events.last());
        SendStepV { actions: before.actions + step.actions, ..step }
    }
}

proof fn lemma_sent(m: RemoteAgentManagerV, d: SendingV, events: Seq<SendEventV>, e: SendEventV)
    ensures
        sent(m, d, events.push(e)).manager == send_step(
            sent(m, d, events).manager,
            sent(m, d, events).sending,
            e,
        ).manager,
        sent(m, d, events.push(e)).sending == send_step(
            sent(m, d, events).manager,
            sent(m, d, events).sending,
            e,
        ).sending,
        sent(m, d, events.push(e)).actions == sent(m, d, events).actions + send_step(
            sent(m, d, events).manager,
            sent(m, d, events).sending,
            e,
        ).actions,
{
    assert(events.push(e).drop_last() =~= events);
}

/// The prompt that a sending without a session comes to.
pub open spec fn first_prompt(
    m: RemoteAgentManagerV,
    message_id: Option<Seq<char>>,
    skills: Seq<Seq<char>>,
    rows: Option<Seq<TranscriptRowV>>,
    resolved: ResolvedPromptV,
    system: Option<Seq<char>>,
) -> PromptV {
    PromptV {
        prefix: match rows {
            Some(r) => recalled(transcript_lines(r)),
            None => None,
        },
        content: resolved.content,
        fresh_session: true,
        message_id,
        system,
        model: match resolved.model {
            Some(x) => Some(command_model(x)),
            None => m.state.desired_model,
        },
        agent: match resolved.agent {
            Some(a) => Some(a),
            None => m.state.desired_agent,
        },
        skills,
    }
}

/// What happens in a sending without a session, up to what the prompt stands for.
pub open spec fn first_events(
    reply: HttpReplyV,
    rows: Option<Seq<TranscriptRowV>>,
    resolved: ResolvedPromptV,
) -> Seq<SendEventV> {
    Seq::<SendEventV>::empty().push(SendEventV::Begin).push(SendEventV::TurnAcquired).push(
        SendEventV::SessionAnswered(reply),
    ).push(SendEventV::TranscriptRead(rows)).push(SendEventV::CommandResolved(resolved))
}

/// What a sending without a session does, up to what the prompt stands for.
pub open spec fn first_actions(
    m: RemoteAgentManagerV,
    content: Seq<char>,
    session_id: Seq<char>,
    tools: Seq<SendActionV>,
) -> Seq<SendActionV> {
    (seq![SendActionV::AcquireTurn] + tools + tools).push(SendActionV::Request(m.creation())).push(
        SendActionV::PersistSessionKey { session_id },
    ).push(SendActionV::ReadTranscript).push(SendActionV::ResolveCommand { content })
}

/// The request of a prompt.
pub open spec fn prompt_request(m: RemoteAgentManagerV, session_id: Seq<char>, p: PromptV) -> SendActionV {
    SendActionV::Request(
        m.request(
            HttpMethod::Post,
            "/session/"@ + session_id + "/prompt_async"@,
            Some(prompt_body(p)),
            120,
        ),
    )
}

proof fn lemma_first_prompt(
    m: RemoteAgentManagerV,
    content: Seq<char>,
    message_id: Option<Seq<char>>,
    skills: Seq<Seq<char>>,
    reply: HttpReplyV,
    rows: Option<Seq<TranscriptRowV>>,
    resolved: ResolvedPromptV,
)
    requires
        m.state.opencode_session_id is None,
        creation_result(reply) is Ok,
    ensures
        ({
            let id = creation_result(reply)->Ok_0;
            let d = first_sending(content, message_id, skills);
            let before = sent(m, d, first_events(reply, rows, resolved).drop_last());
            let tools: Seq<SendActionV> = if m.remote_config.server_tools() {
                Seq::empty()
            } else {
                seq![SendActionV::EnsureLocalTools]
            };
            &&& before.manager == (RemoteAgentManagerV {
                state: RemoteStateV { opencode_session_id: Some(id), ..m.state },
                ..m
            })
            &&& before.sending == (SendingV {
                phase: SendPhase::Resolving,
                prompt: PromptV {
                    prefix: match rows {
                        Some(r) => recalled(transcript_lines(r)),
                        None => None,
                    },
                    fresh_session: true,
                    ..d.prompt
                },
            })
            &&& before.actions == first_actions(m, content, id, tools)
        }),
{
    let d = first_sending(content, message_id, skills);
    let id = creation_result(reply)->Ok_0;
    let tools: Seq<SendActionV> = if m.remote_config.server_tools() {
        Seq::empty()
    } else {
        seq![SendActionV::EnsureLocalTools]
    };
    let e0 = Seq::<SendEventV>::empty();
    let e1 = e0.push(SendEventV::Begin);
    let e2 = e1.push(SendEventV::TurnAcquired);
    let e3 = e2.push(SendEventV::SessionAnswered(reply));
    let e4 = e3.push(SendEventV::TranscriptRead(rows));
    assert(first_events(reply, rows, resolved).drop_last() =~= e4);
    lemma_sent(m, d, e0, SendEventV::Begin);
    lemma_sent(m, d, e1, SendEventV::TurnAcquired);
    lemma_sent(m, d, e2, SendEventV::SessionAnswered(reply));
    lemma_sent(m, d, e3, SendEventV::TranscriptRead(rows));
    let a1 = seq![SendActionV::AcquireTurn];
    assert(sent(m, d, e1).actions =~= a1);
    let a2 = (a1 + tools + tools).push(SendActionV::Request(m.creation()));
    assert(sent(m, d, e2).actions =~= a2);
    let a3 = a2.push(SendActionV::PersistSessionKey { session_id: id }).push(
        SendActionV::ReadTranscript,
    );
    assert(sent(m, d, e3).actions =~= a3);
    assert(sent(m, d, e4).actions =~= a3.push(SendActionV::ResolveCommand { content }));
}

/// Where the server runs the tools, the first prompt of a conversation creates its
/// session, keeps the session's id, and carries what is recalled of earlier sessions and
/// the id of the message, but no word of the user's machine.
pub proof fn the_first_prompt_with_server_tools(
    m: RemoteAgentManagerV,
    content: Seq<char>,
    message_id: Option<Seq<char>>,
    skills: Seq<Seq<char>>,
    reply: HttpReplyV,
    rows: Option<Seq<TranscriptRowV>>,
    resolved: ResolvedPromptV,
)
    requires
        m.state.opencode_session_id is None,
        m.remote_config.server_tools(),
        creation_result(reply) is Ok,
    ensures
        ({
            let id = creation_result(reply)->Ok_0;
            let step = sent(
                m,
                first_sending(content, message_id, skills),
                first_events(reply, rows, resolved),
            );
            &&& step.manager.state.opencode_session_id == Some(id)
            &&& step.sending.phase == SendPhase::Prompting
            &&& step.actions == first_actions(m, content, id, Seq::empty()).push(
                prompt_request(
                    m,
                    id,
                    first_prompt(m, message_id, skills, rows, resolved, None),
                ),
            )
        }),
{
    let d = first_sending(content, message_id, skills);
    let id = creation_result(reply)->Ok_0;
    let all = first_events(reply, rows, resolved);
    lemma_first_prompt(m, content, message_id, skills, reply, rows, resolved);
    assert(all =~= all.drop_last().push(SendEventV::CommandResolved(resolved)));
    lemma_sent(m, d, all.drop_last(), SendEventV::CommandResolved(resolved));
    assert(sent(m, d, all).actions =~= first_actions(m, content, id, Seq::empty()).push(
        sent(m, d, all).actions.last(),
    ));
}

/// Where the tools run on the user's machine, the first prompt of a conversation also
/// registers them, before its session is created and before it is sent, and tells the
/// server of the project and the shell.
pub proof fn the_first_prompt_with_local_tools(
    m: RemoteAgentManagerV,
    content: Seq<char>,
    message_id: Option<Seq<char>>,
    skills: Seq<Seq<char>>,
    reply: HttpReplyV,
    rows: Option<Seq<TranscriptRowV>>,
    resolved: ResolvedPromptV,
    tree: Seq<char>,
    shell: Seq<char>,
)
    requires
        m.state.opencode_session_id is None,
        !m.remote_config.server_tools(),
        creation_result(reply) is Ok,
    ensures
        ({
            let id = creation_result(reply)->Ok_0;
            let step = sent(
                m,
                first_sending(content, message_id, skills),
                first_events(reply, rows, resolved).push(SendEventV::ProjectListed { tree, shell }),
            );
            &&& step.manager.state.opencode_session_id == Some(id)
            &&& step.sending.phase == SendPhase::Prompting
            &&& step.actions == first_actions(
                m,
                content,
                id,
                seq![SendActionV::EnsureLocalTools],
            ).push(SendActionV::ListProject).push(
                prompt_request(
                    m,
                    id,
                    first_prompt(
                        m,
                        message_id,
                        skills,
                        rows,
                        resolved,
                        Some(hint_of(m.workspace, shell, tree)),
                    ),
                ),
            )
        }),
{
    let d = first_sending(content, message_id, skills);
    let id = creation_result(reply)->Ok_0;
    let most = first_events(reply, rows, resolved);
    let listed = SendEventV::ProjectListed { tree, shell };
    lemma_first_prompt(m, content, message_id, skills, reply, rows, resolved);
    assert(most =~= most.drop_last().push(SendEventV::CommandResolved(resolved)));
    lemma_sent(m, d, most.drop_last(), SendEventV::CommandResolved(resolved));
    lemma_sent(m, d, most, listed);
    let a = first_actions(m, content, id, seq![SendActionV::EnsureLocalTools]);
    assert(sent(m, d, most).actions =~= a.push(SendActionV::ListProject));
    assert(sent(m, d, most.push(listed)).actions =~= a.push(SendActionV::ListProject).push(
        sent(m, d, most.push(listed)).actions.last(),
    ));
}

/// Where the server runs the tools, nothing is asked of the user's machine: the local
/// tools are not registered, and the project is not listed.
pub proof fn server_tools_leave_the_machine_alone(
    m: RemoteAgentManagerV,
    d: SendingV,
    e: SendEventV,
    i: int,
)
    requires
        m.remote_config.server_tools(),
        0 <= i < send_step(m, d, e).actions.len(),
    ensures
        !(send_step(m, d, e).actions[i] is EnsureLocalTools),
        !(send_step(m, d, e).actions[i] is ListProject),
{
}

impl RemoteAgentManager {
    /// Takes a new prompt: what still waits is refused, and the next turn may start.
    /// Tells whether it is the first prompt of the conversation.
    pub fn begin_message(&mut self, now: i64) -> (r: (bool, Vec<Effect>))
        ensures
            r.0 == !old(self)@.state.has_messages,
            final(self)@ == (RemoteAgentManagerV {
                state: message_begun(
                    old(self)@.state,
                    now,
                    old(self)@.remote_config.is_opencode(),
                ).state,
                ..old(self)@
            }),
            r.1.deep_view() == message_begun(
                old(self)@.state,
                now,
                old(self)@.remote_config.is_opencode(),
            ).effects,
    {
        let opencode = self.is_opencode();
        let ghost s = self@.state;
        let mut fx = no_effects();
        then_do(&mut fx, Effect::BumpActivity);
        let mut refused = self.state.reject_pending_confirmations(now, opencode);
        let first = !self.state.has_messages;
        self.state.has_messages = true;
        self.state.finished_current_user_turn = false;
        let ghost bumped = fx.deep_view();
        let ghost rv = refused.deep_view();
        fx.append(&mut refused);
        assert(fx.deep_view() =~= bumped + rv);
        then_do(&mut fx, Effect::TransitionTo(ConversationStatus::Running));
        assert(fx.deep_view() =~= message_begun(s, now, opencode).effects);
        (first, fx)
    }

    /// What is sent over a WebSocket for a prompt.
    pub fn ws_message(&self, first: bool, content: &str, msg_id: &str, files: &Vec<String>) -> (r: Json)
        ensures
            r@ == self@.ws_prompt(first, content@, msg_id@, files.deep_view()),
    {
        if first {
            let data = Obj::new().put_str("conversationId", self.conversation_id.as_str()).put_str(
                "message",
                content,
            ).put_str("msgId", msg_id).build();
            Obj::new().put_str("type", "sessionsReset").put("data", data).build()
        } else {
            let data = Obj::new().put_str("message", content).put_str("msgId", msg_id);
            let data = data.put_opt("sessionKey", &self.state.session_key);
            let data = if files.len() > 0 {
                data.put("files", Json::strings(files))
            } else {
                data
            };
            Obj::new().put_str("type", "sendMessage").put("data", data.build()).build()
        }
    }

    /// Stops the turn of an OpenCode session: the request that aborts it, with what
    /// else is to be done; `None` where nothing has been started.
    pub fn cancel(&mut self, now: i64) -> (r: Option<(HttpRequest, Vec<Effect>)>)
        requires
            old(self)@.remote_config.is_opencode(),
        ensures
            match old(self)@.state.opencode_session_id {
                None => r is None && final(self)@ == old(self)@,
                Some(id) => {
                    &&& r matches Some(p)
                    &&& p.0@ == old(self)@.request(
                        HttpMethod::Post,
                        "/session/"@ + id + "/abort"@,
                        None,
                        10,
                    )
                    &&& p.1.deep_view() == all_rejected(
                        old(self)@.state,
                        now,
                        true,
                    ).effects.push(EffectV::ReleaseTurnSlot)
                    &&& final(self)@ == (RemoteAgentManagerV {
                        state: all_rejected(old(self)@.state, now, true).state,
                        ..old(self)@
                    })
                },
            },
    {
        let path = match &self.state.opencode_session_id {
            Some(id) => cat3("/session/", id.as_str(), "/abort"),
            None => {
                return None;
            },
        };
        let base = normalize_base_url(self.remote_config.url.as_str());
        let request = HttpRequest {
            method: HttpMethod::Post,
            url: cat(base.as_str(), path.as_str()),
            auth: auth(&self.remote_config),
            body: None,
            timeout_secs: 10,
        };
        let mut fx = self.state.reject_pending_confirmations(now, true);
        then_do(&mut fx, Effect::ReleaseTurnSlot);
        Some((request, fx))
    }

    /// What is sent over a WebSocket to stop the turn.
    pub fn ws_cancel(connected: bool) -> (r: Result<Json, AppError>)
        ensures
            outcome(r) == (if connected {
                Ok(
                    JsonV::Object(
                        fields().push(("type"@, JsonV::Str("session/cancel"@))).push(
                            ("data"@, JsonV::Object(fields())),
                        ),
                    ),
                )
            } else {
                Err(AppErrorV::Conflict("WebSocket not connected; nothing to cancel"@))
            }),
    {
        if !connected {
            return Err(
                AppError::Conflict("WebSocket not connected; nothing to cancel".to_owned()),
            );
        }
        Ok(
            Obj::new().put_str("type", "session/cancel").put("data", Obj::new().build()).build(),
        )
    }

    /// Ends the agent: nothing waits any more, every tool that waited is refused, and
    /// the turn slot is given back.
    pub fn kill(&mut self) -> (fx: Vec<Effect>)
        ensures
            final(self)@ == (RemoteAgentManagerV {
                state: RemoteStateV {
                    confirmations: Seq::empty(),
                    pending_shell_approvals: Seq::empty(),
                    pending_elicitations: Seq::empty(),
                    pending_questions: Seq::empty(),
                    ..old(self)@.state
                },
                ..old(self)@
            }),
            fx.deep_view() == (refuse_shells(old(self)@.state.pending_shell_approvals)
                + refuse_elicitations(old(self)@.state.pending_elicitations)).push(
                EffectV::ReleaseTurnSlot,
            ),
    {
        let ghost s = self@.state;
        let mut fx = no_effects();
        refuse_each_shell(&self.state.pending_shell_approvals, &mut fx);
        refuse_each_elicitation(&self.state.pending_elicitations, &mut fx);
        assert(fx.deep_view() =~= refuse_shells(s.pending_shell_approvals) + refuse_elicitations(
            s.pending_elicitations,
        ));
        then_do(&mut fx, Effect::ReleaseTurnSlot);
        self.state.confirmations = Vec::new();
        self.state.pending_shell_approvals = Vec::new();
        self.state.pending_elicitations = Vec::new();
        self.state.pending_questions = Vec::new();
        assert(self@.state.confirmations =~= Seq::<ConfirmationV>::empty());
        assert(self@.state.pending_shell_approvals =~= Seq::<Seq<char>>::empty());
        assert(self@.state.pending_elicitations =~= Seq::<Seq<char>>::empty());
        assert(self@.state.pending_questions =~= Seq::<PendingQuestionV>::empty());
        fx
    }

    /// Takes an event that came over a WebSocket.
    pub fn update_state_from_event(&mut self, event: &AgentStreamEvent) -> (fx: Vec<Effect>)
        ensures
            final(self)@ == (RemoteAgentManagerV {
                state: absorbed(old(self)@.state, event@).state,
                ..old(self)@
            }),
            fx.deep_view() == absorbed(old(self)@.state, event@).effects,
    {
        let mut fx = no_effects();
        match event {
            AgentStreamEvent::Start { session_id } => {
                then_do(&mut fx, Effect::TransitionTo(ConversationStatus::Running));
                if session_id.is_some() {
                    self.state.session_key = copy_opt(session_id);
                }
            },
            AgentStreamEvent::Finish { session_id } => {
                then_do(&mut fx, Effect::TransitionTo(ConversationStatus::Finished));
                if session_id.is_some() {
                    self.state.session_key = copy_opt(session_id);
                }
            },
            AgentStreamEvent::Error { .. } => {
                then_do(&mut fx, Effect::TransitionTo(ConversationStatus::Finished));
            },
            AgentStreamEvent::AcpPermission(card) => {
                replace_card(&mut self.state.confirmations, card.copy());
            },
            _ => {},
        }
        fx
    }

    /// Takes a message that came over a WebSocket, where it could be read.
    pub fn handle_raw_event(&mut self, event: Option<AgentStreamEvent>) -> (fx: Vec<Effect>)
        ensures
            match event.deep_view() {
                Some(e) => {
                    &&& final(self)@ == (RemoteAgentManagerV {
                        state: absorbed(old(self)@.state, e).state,
                        ..old(self)@
                    })
                    &&& fx.deep_view() == absorbed(old(self)@.state, e).effects.push(
                        EffectV::Emit(e),
                    )
                },
                None => final(self)@ == old(self)@ && fx.deep_view().len() == 0,
            },
    {
        match event {
            Some(e) => {
                let mut fx = self.update_state_from_event(&e);
                then_do(&mut fx, Effect::Emit(e));
                fx
            },
            None => no_effects(),
        }
    }

    /// The WebSocket is open, or could not be opened: why not.
    pub fn connect_ws(&mut self, failed: Option<&str>) -> (r: Option<AppError>)
        ensures
            match opt_str(failed) {
                Some(e) => {
                    &&& r.deep_view() == Some(
                        AppErrorV::Internal("WebSocket connection failed: "@ + e),
                    )
                    &&& final(self)@ == old(self)@
                },
                None => {
                    &&& r is None
                    &&& final(self)@ == (RemoteAgentManagerV {
                        state: RemoteStateV {
                            connection_status: RemoteAgentStatus::Connected,
                            ..old(self)@.state
                        },
                        ..old(self)@
                    })
                },
            },
    {
        match failed {
            Some(e) => Some(AppError::Internal(cat("WebSocket connection failed: ", e))),
            None => {
                self.state.connection_status = RemoteAgentStatus::Connected;
                None
            },
        }
    }

    /// What became of a message over a WebSocket.
    pub fn ws_send(connected: bool, failed: Option<&str>) -> (r: Result<(), AppError>)
        ensures
            r is Ok <==> connected && failed is None,
            r matches Err(e) ==> e@ == (if !connected {
                AppErrorV::Internal("WebSocket not connected"@)
            } else {
                AppErrorV::Internal("WebSocket send failed: "@ + opt_str(failed)->0)
            }),
    {
        if !connected {
            return Err(AppError::Internal("WebSocket not connected".to_owned()));
        }
        match failed {
            Some(e) => Err(AppError::Internal(cat("WebSocket send failed: ", e))),
            None => Ok(()),
        }
    }

    /// The WebSocket is closed: the connection is down, and a turn under way ends.
    pub fn ws_closed(&mut self, running: bool) -> (fx: Vec<Effect>)
        ensures
            final(self)@ == (RemoteAgentManagerV {
                state: RemoteStateV {
                    connection_status: RemoteAgentStatus::Error,
                    ..old(self)@.state
                },
                ..old(self)@
            }),
            fx.deep_view() == (if running {
                seq![EffectV::TransitionTo(ConversationStatus::Finished)]
            } else {
                Seq::empty()
            }),
    {
        self.state.connection_status = RemoteAgentStatus::Error;
        let mut fx = no_effects();
        if running {
            then_do(&mut fx, Effect::TransitionTo(ConversationStatus::Finished));
        }
        fx
    }

    /// Tells of the models that there are; nothing where there are none.
    pub fn emit_model_info(models: &Vec<ModelInfoEntry>) -> (fx: Vec<Effect>)
        ensures
            fx.deep_view() == (if models.deep_view().len() == 0 {
                Seq::empty()
            } else {
                seq![models_effect(models.deep_view())]
            }),
    {
        let mut fx = no_effects();
        if models.len() > 0 {
            let mut list: Vec<Json> = Vec::new();
            let mut i: usize = 0;
            while i < models.len()
                invariant
                    i <= models.len(),
                    list.len() == i,
                    forall|k: int|
                        0 <= k < i ==> (#[trigger] list@[k])@ == model_entry(models@[k]@),
                decreases models.len() - i,
            {
                list.push(
                    Obj::new().put_str("id", models[i].id.as_str()).put_str(
                        "label",
                        models[i].label.as_str(),
                    ).build(),
                );
                i += 1;
            }
            assert(trees(list@) =~= models.deep_view().map_values(
                |m: ModelInfoEntryV| model_entry(m),
            ));
            let info = Obj::new().put("current_model_id", Json::Null).put(
                "current_model_label",
                Json::Null,
            ).put("available_models", Json::array(list)).build();
            then_do(&mut fx, Effect::Emit(AgentStreamEvent::AcpModelInfo(info)));
        }
        fx
    }

    /// The modes that there are: those that are known, else those of the answer that
    /// was fetched, else the default ones.
    pub fn ensure_opencode_agents(&mut self, fetched: Option<&Json>) -> (r: Vec<AgentModeOption>)
        ensures
            r.deep_view() == old(self)@.modes(opt_tree(fetched)),
            final(self)@ == (RemoteAgentManagerV {
                state: RemoteStateV {
                    opencode_agents: Some(old(self)@.modes(opt_tree(fetched))),
                    ..old(self)@.state
                },
                ..old(self)@
            }),
    {
        match &self.state.opencode_agents {
            Some(a) => {
                return copy_agent_mode_options(a);
            },
            None => {},
        }
        let modes = match fetched {
            Some(body) => parse_opencode_agent_modes(body),
            None => default_opencode_agent_modes(),
        };
        self.state.opencode_agents = Some(copy_agent_mode_options(&modes));
        modes
    }

    /// The skills that there are: those that are known, else those of the answer that
    /// was fetched, else none.
    pub fn ensure_opencode_skills(&mut self, fetched: Option<&Json>) -> (r: Vec<RemoteSkillInfo>)
        ensures
            r.deep_view() == old(self)@.skills(opt_tree(fetched)),
            final(self)@ == (RemoteAgentManagerV {
                state: RemoteStateV {
                    opencode_skills: Some(old(self)@.skills(opt_tree(fetched))),
                    ..old(self)@.state
                },
                ..old(self)@
            }),
    {
        match &self.state.opencode_skills {
            Some(a) => {
                return copy_remote_skill_infos(a);
            },
            None => {},
        }
        let skills = match fetched {
            Some(body) => parse_opencode_skills(body),
            None => {
                let none: Vec<RemoteSkillInfo> = Vec::new();
                assert(none.deep_view() =~= Seq::<RemoteSkillInfoV>::empty());
                none
            },
        };
        self.state.opencode_skills = Some(copy_remote_skill_infos(&skills));
        skills
    }

    /// The commands that there are: those that are known, else those that were fetched.
    pub fn ensure_opencode_commands(&mut self, fetched: &Vec<OpenCodeCommand>) -> (r: Vec<OpenCodeCommand>)
        ensures
            r.deep_view() == old(self)@.commands(fetched.deep_view()),
            final(self)@ == (RemoteAgentManagerV {
                state: RemoteStateV {
                    opencode_commands: Some(old(self)@.commands(fetched.deep_view())),
                    ..old(self)@.state
                },
                ..old(self)@
            }),
    {
        match &self.state.opencode_commands {
            Some(a) => {
                return copy_open_code_commands(a);
            },
            None => {},
        }
        self.state.opencode_commands = Some(copy_open_code_commands(fetched));
        copy_open_code_commands(fetched)
    }

    /// The commands that are offered; none with another protocol.
    pub fn get_slash_commands_impl(&mut self, fetched: &Vec<OpenCodeCommand>) -> (r: Vec<OpenCodeCommand>)
        ensures
            old(self)@.remote_config.is_opencode() ==> {
                &&& r.deep_view() == old(self)@.commands(fetched.deep_view())
                &&& final(self)@ == (RemoteAgentManagerV {
                    state: RemoteStateV {
                        opencode_commands: Some(old(self)@.commands(fetched.deep_view())),
                        ..old(self)@.state
                    },
                    ..old(self)@
                })
            },
            !old(self)@.remote_config.is_opencode() ==> r.deep_view().len() == 0 && final(self)@ == old(self)@,
    {
        if !self.is_opencode() {
            return Vec::new();
        }
        self.ensure_opencode_commands(fetched)
    }

    /// The skills that are offered; none with another protocol.
    pub fn get_skills_impl(&mut self, fetched: Option<&Json>) -> (r: Vec<RemoteSkillInfo>)
        ensures
            old(self)@.remote_config.is_opencode() ==> {
                &&& r.deep_view() == old(self)@.skills(opt_tree(fetched))
                &&& final(self)@ == (RemoteAgentManagerV {
                    state: RemoteStateV {
                        opencode_skills: Some(old(self)@.skills(opt_tree(fetched))),
                        ..old(self)@.state
                    },
                    ..old(self)@
                })
            },
            !old(self)@.remote_config.is_opencode() ==> r.deep_view().len() == 0 && final(self)@ == old(self)@,
    {
        if !self.is_opencode() {
            return Vec::new();
        }
        self.ensure_opencode_skills(fetched)
    }

    /// Takes on the sub-agent sessions that the registry has just accepted; there are
    /// none with another protocol.
    pub fn backfill_child_sessions(&mut self, registered: &Vec<String>) -> (fx: Vec<Effect>)
        ensures
            old(self)@.remote_config.is_opencode() ==> {
                &&& final(self)@ == (RemoteAgentManagerV {
                    state: backfilled(old(self)@.state, registered.deep_view()).state,
                    ..old(self)@
                })
                &&& fx.deep_view() == backfilled(old(self)@.state, registered.deep_view()).effects
            },
            !old(self)@.remote_config.is_opencode() ==> final(self)@ == old(self)@
                && fx.deep_view().len() == 0,
    {
        let mut fx = no_effects();
        if !self.is_opencode() {
            return fx;
        }
        let parent = match &self.state.opencode_session_id {
            Some(p) => p.clone(),
            None => {
                return fx;
            },
        };
        let ghost s = self@.state;
        let ghost rv = registered.deep_view();
        let mut i: usize = 0;
        assert(rv.take(0) =~= Seq::<Seq<char>>::empty());
        assert(self@.state == backfilled(s, rv.take(0)).state);
        while i < registered.len()
            invariant
                i <= registered.len(),
                rv == registered.deep_view(),
                s.opencode_session_id == Some(parent@),
                self@ == (RemoteAgentManagerV {
                    state: backfilled(s, rv.take(i as int)).state,
                    ..old(self)@
                }),
                fx.deep_view() == backfilled(s, rv.take(i as int)).effects,
            decreases registered.len() - i,
        {
            assert(rv.take(i as int + 1).drop_last() =~= rv.take(i as int));
            assert(rv.take(i as int + 1).last() == rv[i as int]);
            put_pair(
                &mut self.state.child_sessions,
                registered[i].as_str(),
                parent.as_str(),
            );
            then_do(
                &mut fx,
                Effect::StartChild { parent_id: parent.clone(), child_id: registered[i].clone() },
            );
            i += 1;
        }
        assert(rv.take(rv.len() as int) =~= rv);
        fx
    }
}

impl RemoteAgentManagerV {
    /// The modes that there are.
    pub open spec fn modes(self, fetched: Option<JsonV>) -> Seq<AgentModeOptionV> {
        match self.state.opencode_agents {
            Some(a) => a,
            None => match fetched {
                Some(body) => agent_modes_of(body),
                None => default_modes(),
            },
        }
    }

    /// The commands that there are.
    pub open spec fn commands(self, fetched: Seq<OpenCodeCommandV>) -> Seq<OpenCodeCommandV> {
        match self.state.opencode_commands {
            Some(a) => a,
            None => fetched,
        }
    }

    /// The skills that there are.
    pub open spec fn skills(self, fetched: Option<JsonV>) -> Seq<RemoteSkillInfoV> {
        match self.state.opencode_skills {
            Some(a) => a,
            None => match fetched {
                Some(body) => match body.items() {
                    Some(items) => skills_of(items),
                    None => Seq::empty(),
                },
                None => Seq::empty(),
            },
        }
    }

    /// What is sent over a WebSocket for a prompt.
    pub open spec fn ws_prompt(
        self,
        first: bool,
        content: Seq<char>,
        msg_id: Seq<char>,
        files: Seq<Seq<char>>,
    ) -> JsonV {
        if first {
            JsonV::Object(
                fields().push(("type"@, JsonV::Str("sessionsReset"@))).push(
                    (
                        "data"@,
                        JsonV::Object(
                            fields().push(
                                ("conversationId"@, JsonV::Str(self.conversation_id)),
                            ).push(("message"@, JsonV::Str(content))).push(
                                ("msgId"@, JsonV::Str(msg_id)),
                            ),
                        ),
                    ),
                ),
            )
        } else {
            let o = fields().push(("message"@, JsonV::Str(content))).push(
                ("msgId"@, JsonV::Str(msg_id)),
            );
            let o = put_opt_v(o, "sessionKey"@, self.state.session_key);
            let o = if files.len() > 0 {
                o.push(("files"@, strings_v(files)))
            } else {
                o
            };
            JsonV::Object(
                fields().push(("type"@, JsonV::Str("sendMessage"@))).push(
                    ("data"@, JsonV::Object(o)),
                ),
            )
        }
    }
}

/// A model as listeners are told of it.
pub open spec fn model_entry(m: ModelInfoEntryV) -> JsonV {
    JsonV::Object(
        fields().push(("id"@, JsonV::Str(m.id))).push(("label"@, JsonV::Str(m.label))),
    )
}

/// How listeners are told of the models that there are.
pub open spec fn models_effect(models: Seq<ModelInfoEntryV>) -> EffectV {
    EffectV::Emit(
        AgentStreamEventV::AcpModelInfo(
            JsonV::Object(
                fields().push(("current_model_id"@, JsonV::Null)).push(
                    ("current_model_label"@, JsonV::Null),
                ).push(
                    (
                        "available_models"@,
                        JsonV::Array(models.map_values(|m: ModelInfoEntryV| model_entry(m))),
                    ),
                ),
            ),
        ),
    )
}

/// The sub-agent sessions that were accepted, taken on one after the other.
pub open spec fn backfilled(s: RemoteStateV, registered: Seq<Seq<char>>) -> StepV
    decreases registered.len(),
{
    match s.opencode_session_id {
        None => stay(s),
        Some(parent) => if registered.len() == 0 {
            stay(s)
        } else {
            let before = backfilled(s, registered.drop_last());
            StepV {
                state: RemoteStateV {
                    child_sessions: with_entry(
                        before.state.child_sessions,
                        registered.last(),
                        parent,
                    ),
                    ..before.state
                },
                effects: before.effects.push(
                    EffectV::StartChild { parent_id: parent, child_id: registered.last() },
                ),
            }
        },
    }
}

/// A new prompt: what still waits is refused, and the next turn may start.
pub open spec fn message_begun(s: RemoteStateV, now: i64, opencode: bool) -> StepV {
    let r = all_rejected(s, now, opencode);
    StepV {
        state: RemoteStateV { has_messages: true, finished_current_user_turn: false, ..r.state },
        effects: (seq![EffectV::BumpActivity] + r.effects).push(
            EffectV::TransitionTo(ConversationStatus::Running),
        ),
    }
}

/// The queue with a confirmation: in place of the first of its id, else at the end.
pub open spec fn with_card(q: Seq<ConfirmationV>, c: ConfirmationV) -> Seq<ConfirmationV>
    decreases q.len(),
{
    if q.len() == 0 {
        seq![c]
    } else if q[0].call_id == c.call_id {
        seq![c] + q.drop_first()
    } else {
        seq![q[0]] + with_card(q.drop_first(), c)
    }
}

fn replace_card(q: &mut Vec<Confirmation>, c: Confirmation)
    ensures
        final(q).deep_view() == with_card(old(q).deep_view(), c@),
{
    let ghost qv = q.deep_view();
    let mut i: usize = 0;
    assert(qv.skip(0) =~= qv);
    assert(qv.take(0) + with_card(qv, c@) =~= with_card(qv, c@));
    while i < q.len()
        invariant
            i <= q.len(),
            qv == q.deep_view(),
            qv == old(q).deep_view(),
            with_card(qv, c@) == qv.take(i as int) + with_card(qv.skip(i as int), c@),
        decreases q.len() - i,
    {
        let ghost rest = qv.skip(i as int);
        assert(rest[0] == q@[i as int]@);
        if str_eq(q[i].call_id.as_str(), c.call_id.as_str()) {
            assert(rest.drop_first() =~= qv.skip(i as int + 1));
            q.set(i, c);
            assert(q.deep_view() =~= with_card(qv, c@));
            return;
        }
        assert(rest.drop_first() =~= qv.skip(i as int + 1));
        assert(with_card(qv, c@) =~= qv.take(i as int + 1) + with_card(qv.skip(i as int + 1), c@));
        i += 1;
    }
    assert(qv.skip(i as int) =~= Seq::<ConfirmationV>::empty());
    q.push(c);
    assert(q.deep_view() =~= with_card(qv, c@));
}

/// An event that came over a WebSocket.
pub open spec fn absorbed(s: RemoteStateV, event: AgentStreamEventV) -> StepV {
    match event {
        AgentStreamEventV::Start { session_id } => StepV {
            state: RemoteStateV {
                session_key: if session_id is Some {
                    session_id
                } else {
                    s.session_key
                },
                ..s
            },
            effects: seq![EffectV::TransitionTo(ConversationStatus::Running)],
        },
        AgentStreamEventV::Finish { session_id } => StepV {
            state: RemoteStateV {
                session_key: if session_id is Some {
                    session_id
                } else {
                    s.session_key
                },
                ..s
            },
            effects: seq![EffectV::TransitionTo(ConversationStatus::Finished)],
        },
        AgentStreamEventV::Error { .. } => StepV {
            state: s,
            effects: seq![EffectV::TransitionTo(ConversationStatus::Finished)],
        },
        AgentStreamEventV::AcpPermission(card) => stay(
            RemoteStateV { confirmations: with_card(s.confirmations, card), ..s },
        ),
        _ => stay(s),
    }
}

/// A new prompt lets one more turn end, whatever came before, and leaves nothing that
/// waits.
pub proof fn a_prompt_opens_a_turn(s: RemoteStateV, now: i64, opencode: bool)
    ensures
        turns_left(message_begun(s, now, opencode).state) == 1,
        nothing_waits(message_begun(s, now, opencode).state),
{
}

} // verus!

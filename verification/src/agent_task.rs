//! The agents of a conversation behind one face: what each of them answers itself, and
//! what it does not support.
use vstd::prelude::*;

use crate::aionrs::{
    decision_of, of_other_calls, session_mode, AionrsAgentManager, AionrsAgentManagerV, ToolDecision, ToolDecisionV,
};
use crate::config::{is_server_tool_host, with_param};
use crate::confirm::confirmed;
use crate::events::{str_or, text_or};
use crate::fs_requests::{
    content_body, find_files, find_symbols, find_text, list_files, looking, read_file_content, tree_url, with_limit,
};
use crate::http::{HttpMethod, HttpRequest, HttpRequestV};
use crate::json::{opt_str, opt_tree, Json, JsonV};
use crate::manager::{if_begins, part_path, RemoteAgentManager, RemoteAgentManagerV};
use crate::models::{
    merge_model_info, AgentModeOption, AgentModeResponse, AgentModeResponseV, ModelInfoEntry, ModelInfoPayload,
    ModelInfoPayloadV, RemoteSkillInfo,
};
use crate::payloads::OpencodeRevertRequestV;
use crate::state::{ApprovalKeyV, OpenCodeCommand, RemoteStateV};
use crate::order::{lemma_inserted_at, sorted, str_leq, text_leq};
use crate::text::{begins, contains, is_blank, lowercased, occurs, str_eq, to_lowercase, trimmed};
use crate::types::{outcome, AgentType, AppError, AppErrorV, Confirmation, ConfirmationV, Effect, EffectV};

verus! {

/// An agent. Those whose managers run elsewhere are only named.
pub enum AgentInstance {
    Acp,
    Aionrs(AionrsAgentManager),
    OpenClaw,
    Nanobot,
    Remote(RemoteAgentManager),
}

/// Model of [`AgentInstance`].
pub enum AgentInstanceV {
    Acp,
    Aionrs(AionrsAgentManagerV),
    OpenClaw,
    Nanobot,
    Remote(RemoteAgentManagerV),
}

impl View for AgentInstance {
    type V = AgentInstanceV;

    open spec fn view(&self) -> AgentInstanceV {
        match self {
            AgentInstance::Acp => AgentInstanceV::Acp,
            AgentInstance::Aionrs(m) => AgentInstanceV::Aionrs(m@),
            AgentInstance::OpenClaw => AgentInstanceV::OpenClaw,
            AgentInstance::Nanobot => AgentInstanceV::Nanobot,
            AgentInstance::Remote(m) => AgentInstanceV::Remote(m@),
        }
    }
}

/// An answer: at hand, or to be had from the agent's own manager.
pub enum Answer<T> {
    Known(T),
    Manager,
}

/// The model of an answer.
pub open spec fn answer_v<T: DeepView>(a: Answer<T>) -> Answer<T::V> {
    match a {
        Answer::Known(x) => Answer::Known(x.deep_view()),
        Answer::Manager => Answer::Manager,
    }
}

/// An entry of a directory.
#[derive(Debug, PartialEq, Eq)]
pub struct WorkspaceEntry {
    pub name: String,
    pub entry_type: String,
}

/// Model of [`WorkspaceEntry`].
pub struct WorkspaceEntryV {
    pub name: Seq<char>,
    pub entry_type: Seq<char>,
}

impl View for WorkspaceEntry {
    type V = WorkspaceEntryV;

    open spec fn view(&self) -> WorkspaceEntryV {
        WorkspaceEntryV {
            name: self.name.deep_view(),
            entry_type: self.entry_type.deep_view(),
        }
    }
}

impl DeepView for WorkspaceEntry {
    type V = WorkspaceEntryV;

    open spec fn deep_view(&self) -> WorkspaceEntryV {
        self@
    }
}

impl WorkspaceEntry {
    /// An equal value.
    pub fn copy(&self) -> (r: WorkspaceEntry)
        ensures
            r@ == self@,
    {
        WorkspaceEntry {
            name: self.name.clone(),
            entry_type: self.entry_type.clone(),
        }
    }
}

/// What a side question is answered.
#[derive(Debug, PartialEq, Eq)]
pub struct SideQuestionResponse {
    pub status: String,
    pub answer: Option<String>,
}

/// Model of [`SideQuestionResponse`].
pub struct SideQuestionResponseV {
    pub status: Seq<char>,
    pub answer: Option<Seq<char>>,
}

impl View for SideQuestionResponse {
    type V = SideQuestionResponseV;

    open spec fn view(&self) -> SideQuestionResponseV {
        SideQuestionResponseV {
            status: self.status.deep_view(),
            answer: self.answer.deep_view(),
        }
    }
}

impl DeepView for SideQuestionResponse {
    type V = SideQuestionResponseV;

    open spec fn deep_view(&self) -> SideQuestionResponseV {
        self@
    }
}

/// What became of an answer of the user.
#[derive(Debug, PartialEq, Eq)]
pub enum Confirmed {
    /// It is taken up, and asks for this.
    Effects(Vec<Effect>),
    /// It decides on a tool of the engine.
    Decision(ToolDecision),
    /// It goes to the agent's own manager.
    Manager,
}

/// Model of [`Confirmed`].
pub enum ConfirmedV {
    Effects(Seq<EffectV>),
    Decision(ToolDecisionV),
    Manager,
}

impl View for Confirmed {
    type V = ConfirmedV;

    open spec fn view(&self) -> ConfirmedV {
        match self {
            Confirmed::Effects(x) => ConfirmedV::Effects(x.deep_view()),
            Confirmed::Decision(x) => ConfirmedV::Decision(x.deep_view()),
            Confirmed::Manager => ConfirmedV::Manager,
        }
    }
}

impl DeepView for Confirmed {
    type V = ConfirmedV;

    open spec fn deep_view(&self) -> ConfirmedV {
        self@
    }
}

impl AgentInstance {
    /// The conversation that the agent works for.
    pub fn conversation_id(&self) -> (r: Answer<String>)
        ensures
            answer_v(r) == (match self@ {
                AgentInstanceV::Aionrs(m) => Answer::<Seq<char>>::Known(m.conversation_id),
                AgentInstanceV::Remote(m) => Answer::Known(m.conversation_id),
                _ => Answer::Manager,
            }),
    {
        match self {
            AgentInstance::Aionrs(m) => Answer::Known(m.conversation_id().to_owned()),
            AgentInstance::Remote(m) => Answer::Known(m.conversation_id().to_owned()),
            _ => Answer::Manager,
        }
    }

    /// The directory that the agent works in.
    pub fn workspace(&self) -> (r: Answer<String>)
        ensures
            answer_v(r) == (match self@ {
                AgentInstanceV::Aionrs(m) => Answer::<Seq<char>>::Known(m.workspace),
                AgentInstanceV::Remote(m) => Answer::Known(m.workspace),
                _ => Answer::Manager,
            }),
    {
        match self {
            AgentInstance::Aionrs(m) => Answer::Known(m.workspace().to_owned()),
            AgentInstance::Remote(m) => Answer::Known(m.workspace().to_owned()),
            _ => Answer::Manager,
        }
    }

    /// Takes an answer of the user to the confirmation `call_id`.
    pub fn confirm(&mut self, call_id: &str, data: &Json, always_allow: bool, now: i64) -> (r: Confirmed)
        ensures
            match old(self)@ {
                AgentInstanceV::Aionrs(m) => {
                    &&& r@ == ConfirmedV::Decision(decision_of(data@, always_allow))
                    &&& final(self)@ == AgentInstanceV::Aionrs(
                        AionrsAgentManagerV {
                            confirmations: m.confirmations.filter(of_other_calls(call_id@)),
                            ..m
                        },
                    )
                },
                AgentInstanceV::Remote(m) => {
                    let step = confirmed(
                        m.state,
                        call_id@,
                        data@,
                        always_allow,
                        now,
                        m.remote_config.is_opencode(),
                    );
                    &&& r@ == ConfirmedV::Effects(step.effects)
                    &&& final(self)@ == AgentInstanceV::Remote(
                        RemoteAgentManagerV { state: step.state, ..m },
                    )
                },
                _ => r@ == ConfirmedV::Manager && final(self)@ == old(self)@,
            },
    {
        match self {
            AgentInstance::Aionrs(m) => Confirmed::Decision(m.confirm(call_id, data, always_allow)),
            AgentInstance::Remote(m) => Confirmed::Effects(m.confirm(call_id, data, always_allow, now)),
            _ => Confirmed::Manager,
        }
    }

    /// Whether the user approved an action for the rest of the session. Some agents
    /// keep that themselves, or never do.
    pub fn check_approval(&self, action: &str, command_type: &Option<String>) -> (r: Answer<bool>)
        ensures
            r == (match self@ {
                AgentInstanceV::Acp | AgentInstanceV::Nanobot => Answer::Known(false),
                AgentInstanceV::Remote(m) => Answer::Known(
                    m.state.approval_memory.contains(
                        ApprovalKeyV {
                            action: Some(action@),
                            command_type: command_type.deep_view(),
                        },
                    ),
                ),
                _ => Answer::Manager,
            }),
    {
        match self {
            AgentInstance::Acp => Answer::Known(false),
            AgentInstance::Aionrs(_) => Answer::Manager,
            AgentInstance::OpenClaw => Answer::Manager,
            AgentInstance::Nanobot => Answer::Known(false),
            AgentInstance::Remote(m) => Answer::Known(m.check_approval(action, command_type)),
        }
    }

    /// The type of the agent.
    pub fn agent_type(&self) -> (r: AgentType)
        ensures
            r == (match self@ {
                AgentInstanceV::Acp => AgentType::Acp,
                AgentInstanceV::Aionrs(_) => AgentType::Aionrs,
                AgentInstanceV::OpenClaw => AgentType::OpenclawGateway,
                AgentInstanceV::Nanobot => AgentType::Nanobot,
                AgentInstanceV::Remote(_) => AgentType::Remote,
            }),
    {
        match self {
            AgentInstance::Acp => AgentType::Acp,
            AgentInstance::Aionrs(m) => m.agent_type(),
            AgentInstance::OpenClaw => AgentType::OpenclawGateway,
            AgentInstance::Nanobot => AgentType::Nanobot,
            AgentInstance::Remote(m) => m.agent_type(),
        }
    }

    /// What the user is asked. Some agents ask elsewhere, or nothing.
    pub fn get_confirmations(&self) -> (r: Answer<Vec<Confirmation>>)
        ensures
            answer_v(r) == (match self@ {
                AgentInstanceV::Aionrs(m) => Answer::<Seq<ConfirmationV>>::Known(m.confirmations),
                AgentInstanceV::Remote(m) => Answer::Known(m.state.confirmations),
                AgentInstanceV::OpenClaw => Answer::Manager,
                _ => Answer::Known(Seq::empty()),
            }),
    {
        let none: Vec<Confirmation> = Vec::new();
        assert(none.deep_view() =~= Seq::<ConfirmationV>::empty());
        match self {
            AgentInstance::Acp => Answer::Known(none),
            AgentInstance::Aionrs(m) => Answer::Known(m.get_confirmations()),
            AgentInstance::OpenClaw => Answer::Manager,
            AgentInstance::Nanobot => Answer::Known(none),
            AgentInstance::Remote(m) => Answer::Known(m.get_confirmations()),
        }
    }

    /// The session that the agent can be taken up at again.
    pub fn get_session_key(&self) -> (r: Answer<Option<String>>)
        ensures
            answer_v(r) == (match self@ {
                AgentInstanceV::Remote(m) => Answer::<Option<Seq<char>>>::Known(
                    m.session_key(),
                ),
                AgentInstanceV::OpenClaw => Answer::Manager,
                _ => Answer::Known(None),
            }),
    {
        match self {
            AgentInstance::OpenClaw => Answer::Manager,
            AgentInstance::Remote(m) => Answer::Known(m.get_session_key()),
            _ => Answer::Known(None),
        }
    }

    /// The mode, and whether it was ever selected. Agents without modes have the
    /// default one. `available` are the modes that there are.
    pub fn get_mode(&self, available: Vec<AgentModeOption>) -> (r: Answer<AgentModeResponse>)
        ensures
            answer_v(r) == (match self@ {
                AgentInstanceV::Acp => Answer::<AgentModeResponseV>::Manager,
                AgentInstanceV::Aionrs(_) => Answer::Manager,
                AgentInstanceV::Remote(m) => Answer::Known(m.current_mode(available.deep_view())),
                _ => Answer::Known(
                    AgentModeResponseV {
                        mode: "default"@,
                        initialized: false,
                        available_modes: None,
                    },
                ),
            }),
    {
        match self {
            AgentInstance::Acp => Answer::Manager,
            AgentInstance::Aionrs(_) => Answer::Manager,
            AgentInstance::Remote(m) => Answer::Known(m.mode(available)),
            _ => Answer::Known(
                AgentModeResponse {
                    mode: "default".to_owned(),
                    initialized: false,
                    available_modes: None,
                },
            ),
        }
    }

    /// Selects a mode, one of those that there are. Some agents have none.
    pub fn set_mode(&mut self, mode: &str, available: &Vec<AgentModeOption>) -> (r: Result<
        Answer<Vec<Effect>>,
        AppError,
    >)
        ensures
            match old(self)@ {
                AgentInstanceV::Acp => r == Ok::<Answer<Vec<Effect>>, AppError>(Answer::Manager)
                    && final(self)@ == old(self)@,
                AgentInstanceV::Aionrs(m) => {
                    &&& r matches Ok(Answer::Known(fx)) && fx.deep_view().len() == 0
                    &&& final(self)@ == AgentInstanceV::Aionrs(
                        AionrsAgentManagerV { mode: session_mode(mode@), ..m },
                    )
                },
                AgentInstanceV::Remote(m) => match m.mode_choice(mode@, available.deep_view()) {
                    Ok(told) => {
                        &&& r matches Ok(Answer::Known(fx)) && fx.deep_view() == told
                        &&& final(self)@ == AgentInstanceV::Remote(
                            RemoteAgentManagerV {
                                state: RemoteStateV {
                                    desired_agent: Some(trimmed(mode@)),
                                    ..m.state
                                },
                                ..m
                            },
                        )
                    },
                    Err(e) => r matches Err(why) && why@ == e && final(self)@ == old(self)@,
                },
                _ => r matches Err(why) && why@ == AppErrorV::BadRequest(
                    "Mode switching is not supported for this agent type"@,
                ) && final(self)@ == old(self)@,
            },
    {
        match self {
            AgentInstance::Acp => Ok(Answer::Manager),
            AgentInstance::Aionrs(m) => {
                m.set_mode(mode);
                let none: Vec<Effect> = Vec::new();
                assert(none.deep_view().len() == 0);
                Ok(Answer::Known(none))
            },
            AgentInstance::Remote(m) => match m.set_mode(mode, available) {
                Ok(fx) => Ok(Answer::Known(fx)),
                Err(e) => Err(e),
            },
            _ => Err(
                AppError::BadRequest(
                    "Mode switching is not supported for this agent type".to_owned(),
                ),
            ),
        }
    }

    /// Selects a model. Some agents cannot change theirs.
    pub fn set_model(&mut self, model_id: &str) -> (r: Result<Answer<()>, AppError>)
        ensures
            if trimmed(model_id@).len() == 0 {
                r matches Err(why) && why@ == AppErrorV::BadRequest("model_id must not be empty"@)
                    && final(self)@ == old(self)@
            } else {
                match old(self)@ {
                    AgentInstanceV::Acp => r == Ok::<Answer<()>, AppError>(Answer::Manager)
                        && final(self)@ == old(self)@,
                    AgentInstanceV::Remote(m) => r == Ok::<Answer<()>, AppError>(Answer::Known(()))
                        && final(self)@ == AgentInstanceV::Remote(m.with_model(model_id@)),
                    _ => r matches Err(why) && why@ == AppErrorV::BadRequest(
                        "Model switching is not supported for this agent type"@,
                    ) && final(self)@ == old(self)@,
                }
            },
    {
        if is_blank(model_id) {
            return Err(AppError::BadRequest("model_id must not be empty".to_owned()));
        }
        match self {
            AgentInstance::Acp => Ok(Answer::Manager),
            AgentInstance::Remote(m) => {
                m.set_model(model_id);
                Ok(Answer::Known(()))
            },
            _ => Err(
                AppError::BadRequest(
                    "Model switching is not supported for this agent type".to_owned(),
                ),
            ),
        }
    }

    /// What is told of the model; `available` are the models that there are. An ACP
    /// agent's own manager knows, see [`acp_model_info`].
    pub fn get_model(&self, available: Vec<ModelInfoEntry>) -> (r: Answer<Option<ModelInfoPayload>>)
        ensures
            answer_v(r) == (match self@ {
                AgentInstanceV::Acp => Answer::<Option<ModelInfoPayloadV>>::Manager,
                AgentInstanceV::Remote(m) => Answer::Known(
                    Some(
                        ModelInfoPayloadV {
                            current_model_id: m.current_model(),
                            current_model_label: m.current_model(),
                            available_models: available.deep_view(),
                        },
                    ),
                ),
                _ => Answer::Known(None),
            }),
    {
        match self {
            AgentInstance::Acp => Answer::Manager,
            AgentInstance::Remote(m) => Answer::Known(Some(m.get_model(available))),
            _ => Answer::Known(None),
        }
    }

    /// The commands that are offered, given those that were fetched.
    pub fn get_slash_commands(&mut self, fetched: &Vec<OpenCodeCommand>) -> (r: Answer<
        Vec<OpenCodeCommand>,
    >)
        ensures
            match old(self)@ {
                AgentInstanceV::Acp | AgentInstanceV::Aionrs(_) => {
                    &&& r is Manager
                    &&& final(self)@ == old(self)@
                },
                AgentInstanceV::Remote(m) if m.remote_config.is_opencode() => {
                    &&& r matches Answer::Known(c) && c.deep_view() == m.commands(fetched.deep_view())
                    &&& final(self)@ == AgentInstanceV::Remote(
                        RemoteAgentManagerV {
                            state: RemoteStateV {
                                opencode_commands: Some(m.commands(fetched.deep_view())),
                                ..m.state
                            },
                            ..m
                        },
                    )
                },
                _ => {
                    &&& r matches Answer::Known(c) && c.deep_view().len() == 0
                    &&& final(self)@ == old(self)@
                },
            },
    {
        match self {
            AgentInstance::Acp => Answer::Manager,
            AgentInstance::Aionrs(_) => Answer::Manager,
            AgentInstance::Remote(m) => Answer::Known(m.get_slash_commands_impl(fetched)),
            _ => {
                let none: Vec<OpenCodeCommand> = Vec::new();
                assert(none.deep_view().len() == 0);
                Answer::Known(none)
            },
        }
    }

    /// The skills that are offered, given the answer that was fetched.
    pub fn get_skills(&mut self, fetched: Option<&Json>) -> (r: Vec<RemoteSkillInfo>)
        ensures
            match old(self)@ {
                AgentInstanceV::Remote(m) if m.remote_config.is_opencode() => {
                    &&& r.deep_view() == m.skills(opt_tree(fetched))
                    &&& final(self)@ == AgentInstanceV::Remote(
                        RemoteAgentManagerV {
                            state: RemoteStateV {
                                opencode_skills: Some(m.skills(opt_tree(fetched))),
                                ..m.state
                            },
                            ..m
                        },
                    )
                },
                _ => r.deep_view().len() == 0 && final(self)@ == old(self)@,
            },
    {
        match self {
            AgentInstance::Remote(m) => m.get_skills_impl(fetched),
            _ => {
                let none: Vec<RemoteSkillInfo> = Vec::new();
                assert(none.deep_view().len() == 0);
                none
            },
        }
    }

    /// What a side question is answered. `supported` tells whether an ACP agent takes
    /// such questions.
    pub fn handle_side_question(&self, question: &str, supported: bool) -> (r: Result<
        SideQuestionResponse,
        AppError,
    >)
        ensures
            outcome(r) == (if trimmed(question@).len() == 0 {
                Err::<SideQuestionResponseV, AppErrorV>(
                    AppErrorV::BadRequest("question must not be empty"@),
                )
            } else if self@ is Acp && supported {
                Ok(
                    SideQuestionResponseV {
                        status: "ok"@,
                        answer: Some(
                            "Side question support will be fully wired in app integration phase."@,
                        ),
                    },
                )
            } else {
                Ok(SideQuestionResponseV { status: "unsupported"@, answer: None })
            }),
    {
        if is_blank(question) {
            return Err(AppError::BadRequest("question must not be empty".to_owned()));
        }
        let takes = match self {
            AgentInstance::Acp => supported,
            _ => false,
        };
        if takes {
            Ok(
                SideQuestionResponse {
                    status: "ok".to_owned(),
                    answer: Some(
                        "Side question support will be fully wired in app integration phase.".to_owned(),
                    ),
                },
            )
        } else {
            Ok(SideQuestionResponse { status: "unsupported".to_owned(), answer: None })
        }
    }

    /// What is known of the agent's runtime: only one kind of agent tells.
    pub fn get_openclaw_runtime(&self) -> (r: Answer<Json>)
        ensures
            answer_v(r) == (if self@ is OpenClaw {
                Answer::<JsonV>::Manager
            } else {
                Answer::Known(JsonV::Null)
            }),
    {
        match self {
            AgentInstance::OpenClaw => Answer::Manager,
            _ => Answer::Known(Json::Null),
        }
    }

    /// How full the agent's context is: only one kind of agent knows.
    pub fn get_usage(&self) -> (r: Answer<Option<Json>>)
        ensures
            answer_v(r) == (if self@ is Acp {
                Answer::<Option<JsonV>>::Manager
            } else {
                Answer::Known(None)
            }),
    {
        match self {
            AgentInstance::Acp => Answer::Manager,
            _ => Answer::Known(None),
        }
    }

    /// The request for a directory of the server's working tree; `None` where the
    /// conversation works on the user's own machine.
    pub fn browse_remote_workspace(&self, path: &str) -> (r: Option<HttpRequest>)
        ensures
            r.deep_view() == (match self@ {
                AgentInstanceV::Remote(m) => if m.remote_config.server_tools() {
                    Some(
                        looking(
                            m.remote_config,
                            with_param(
                                tree_url(m.remote_config, m.workspace, "/file"@),
                                "path"@,
                                path@,
                            ),
                            30,
                        ),
                    )
                } else {
                    None
                },
                _ => None,
            }),
    {
        match self {
            AgentInstance::Remote(m) => {
                if is_server_tool_host(&m.remote_config) {
                    Some(list_files(&m.remote_config, m.workspace.as_str(), path))
                } else {
                    None
                }
            },
            _ => None,
        }
    }
}

/// The model of an ACP agent: what its protocol tells, else what is configured where
/// the configuration applies to it.
pub fn acp_model_info(
    sdk: Option<ModelInfoPayload>,
    configurable: bool,
    configured: Option<ModelInfoPayload>,
) -> (r: Option<ModelInfoPayload>)
    ensures
        r.deep_view() == (match sdk.deep_view() {
            Some(m) => Some(m),
            None => if configurable {
                configured.deep_view()
            } else {
                None
            },
        }),
{
    let other = if configurable {
        configured
    } else {
        None
    };
    merge_model_info(sdk, other)
}

/// The entry of a node, where it has a name that fits the search. `low_name` and
/// `low_search` are the name and the search in small letters.
pub open spec fn entry_if_found(
    node: JsonV,
    search: Option<Seq<char>>,
    low_name: Seq<char>,
    low_search: Seq<char>,
) -> Option<WorkspaceEntryV> {
    match node.field_text("name"@) {
        Some(name) => if name.len() == 0 {
            None
        } else if search matches Some(s) && s.len() > 0 && !occurs(low_name, low_search) {
            None
        } else {
            Some(
                WorkspaceEntryV {
                    name,
                    entry_type: match node.field_text("type"@) {
                        Some(t) => t,
                        None => "file"@,
                    },
                },
            )
        },
        None => None,
    }
}

/// The entry of a node, where it has a name that fits the search.
pub open spec fn entry_of(node: JsonV, search: Option<Seq<char>>) -> Option<WorkspaceEntryV> {
    entry_if_found(
        node,
        search,
        lowercased(text_or(node.field_text("name"@), ""@)),
        lowercased(text_or(search, ""@)),
    )
}

/// The entries of nodes, in their order.
pub open spec fn entries_of(nodes: Seq<JsonV>, search: Option<Seq<char>>) -> Seq<WorkspaceEntryV>
    decreases nodes.len(),
{
    if nodes.len() == 0 {
        Seq::empty()
    } else {
        let before = entries_of(nodes.drop_last(), search);
        match entry_of(nodes.last(), search) {
            Some(e) => before.push(e),
            None => before,
        }
    }
}

/// Whether an entry does not come after another: by type, then by name in small letters.
pub open spec fn in_order(
    a: WorkspaceEntryV,
    low_a: Seq<char>,
    b: WorkspaceEntryV,
    low_b: Seq<char>,
) -> bool {
    if a.entry_type == b.entry_type {
        text_leq(low_a, low_b)
    } else {
        text_leq(a.entry_type, b.entry_type)
    }
}

/// The order of entries: by type, then by name without regard to case.
pub open spec fn by_type_and_name() -> spec_fn(WorkspaceEntryV, WorkspaceEntryV) -> bool {
    |a: WorkspaceEntryV, b: WorkspaceEntryV|
        in_order(a, lowercased(a.name), b, lowercased(b.name))
}

/// The entry of a node, where it has a name that fits the search, given the name and the
/// search in small letters.
pub fn find_entry(node: &Json, search: Option<&str>, low_name: &str, low_search: &str) -> (r: Option<
    WorkspaceEntry,
>)
    ensures
        r.deep_view() == entry_if_found(node@, opt_str(search), low_name@, low_search@),
{
    let name = match node.get_str("name") {
        Some(n) => n,
        None => {
            return None;
        },
    };
    if name.is_empty() {
        return None;
    }
    match search {
        Some(s) => {
            if !s.is_empty() && !contains(low_name, low_search) {
                return None;
            }
        },
        None => {},
    }
    let entry_type = match node.get_str("type") {
        Some(t) => t,
        None => "file",
    };
    Some(WorkspaceEntry { name: name.to_owned(), entry_type: entry_type.to_owned() })
}

fn read_entry(node: &Json, search: Option<&str>) -> (r: Option<WorkspaceEntry>)
    ensures
        r.deep_view() == entry_of(node@, opt_str(search)),
{
    let low_name = to_lowercase(str_or(node.get_str("name"), ""));
    let low_search = to_lowercase(str_or(search, ""));
    find_entry(node, search, low_name.as_str(), low_search.as_str())
}

/// Whether an entry does not come after another, given their names in small letters.
pub fn entries_in_order(a: &WorkspaceEntry, low_a: &str, b: &WorkspaceEntry, low_b: &str) -> (r: bool)
    ensures
        r == in_order(a@, low_a@, b@, low_b@),
{
    if str_eq(a.entry_type.as_str(), b.entry_type.as_str()) {
        str_leq(low_a, low_b)
    } else {
        str_leq(a.entry_type.as_str(), b.entry_type.as_str())
    }
}

fn comes_first(a: &WorkspaceEntry, b: &WorkspaceEntry) -> (r: bool)
    ensures
        r == by_type_and_name()(a@, b@),
{
    let x = to_lowercase(a.name.as_str());
    let y = to_lowercase(b.name.as_str());
    entries_in_order(a, x.as_str(), b, y.as_str())
}

/// The entries that a server's answer lists, in order.
pub open spec fn listed(value: JsonV, search: Option<Seq<char>>) -> Seq<WorkspaceEntryV> {
    match value.items() {
        Some(nodes) => sorted(entries_of(nodes, search), by_type_and_name()),
        None => Seq::empty(),
    }
}

/// Entries can be put in order by type and name.
proof fn lemma_entries_compare()
    ensures
        crate::order::orders(by_type_and_name()),
{
    let leq = by_type_and_name();
    let text = crate::order::by_text();
    crate::order::texts_are_ordered();
    assert forall|a: WorkspaceEntryV| #[trigger] leq(a, a) by {
        assert(text(lowercased(a.name), lowercased(a.name)));
    }
    assert forall|a: WorkspaceEntryV, b: WorkspaceEntryV|
        #[trigger] leq(a, b) || #[trigger] leq(b, a) by {
        assert(text(lowercased(a.name), lowercased(b.name)) || text(
            lowercased(b.name),
            lowercased(a.name),
        ));
        assert(text(a.entry_type, b.entry_type) || text(b.entry_type, a.entry_type));
    }
    assert forall|a: WorkspaceEntryV, b: WorkspaceEntryV, c: WorkspaceEntryV|
        #[trigger] leq(a, b) && #[trigger] leq(b, c) implies leq(a, c) by {
        if a.entry_type == b.entry_type && b.entry_type == c.entry_type {
            assert(text(lowercased(a.name), lowercased(b.name)));
            assert(text(lowercased(b.name), lowercased(c.name)));
        } else if a.entry_type != b.entry_type && b.entry_type != c.entry_type {
            assert(text(a.entry_type, b.entry_type));
            assert(text(b.entry_type, c.entry_type));
        }
    }
}

/// The entries of a listing stand in order, by type and then by name without regard to
/// case, and are those that the answer holds.
pub proof fn listings_are_in_order(value: JsonV, search: Option<Seq<char>>)
    ensures
        vstd::relations::sorted_by(listed(value, search), by_type_and_name()),
        value.items() matches Some(nodes) ==> listed(value, search).to_multiset() == entries_of(
            nodes,
            search,
        ).to_multiset(),
{
    if let Some(nodes) = value.items() {
        lemma_entries_compare();
        crate::order::sorting_orders(entries_of(nodes, search), by_type_and_name());
        crate::order::sorting_rearranges(entries_of(nodes, search), by_type_and_name());
    }
}

/// The entries that a server's answer lists, in order. What has no name is left out, as
/// is what a search does not find in the name.
pub fn map_opencode_file_nodes(value: &Json, search: Option<&str>) -> (r: Vec<WorkspaceEntry>)
    ensures
        r.deep_view() == listed(value@, opt_str(search)),
        vstd::relations::sorted_by(r.deep_view(), by_type_and_name()),
{
    proof {
        listings_are_in_order(value@, opt_str(search));
    }
    let mut out: Vec<WorkspaceEntry> = Vec::new();
    assert(out.deep_view() =~= Seq::<WorkspaceEntryV>::empty());
    let nodes = match value.as_array() {
        Some(a) => a,
        None => {
            return out;
        },
    };
    let ghost nv = value@.items()->0;
    let ghost leq = by_type_and_name();
    let ghost sv = opt_str(search);
    let mut i: usize = 0;
    proof {
        assert(nv.take(0) =~= Seq::<JsonV>::empty());
    }
    while i < nodes.len()
        invariant
            i <= nodes.len(),
            nv == crate::json::trees(nodes@),
            sv == opt_str(search),
            leq == by_type_and_name(),
            out.deep_view() == sorted(entries_of(nv.take(i as int), sv), leq),
        decreases nodes.len() - i,
    {
        let ghost ov = out.deep_view();
        proof {
            assert(nv.take(i as int + 1).drop_last() =~= nv.take(i as int));
            assert(nv.take(i as int + 1).last() == nodes@[i as int]@);
        }
        match read_entry(&nodes[i], search) {
            Some(e) => {
                let ghost ev = e@;
                let mut at: usize = out.len();
                while at > 0 && !comes_first(&out[at - 1], &e)
                    invariant
                        at <= out.len(),
                        ov == out.deep_view(),
                        ev == e@,
                        leq == by_type_and_name(),
                        forall|k: int| at <= k < ov.len() ==> !leq(#[trigger] ov[k], ev),
                    decreases at,
                {
                    at -= 1;
                }
                proof {
                    let before = entries_of(nv.take(i as int), sv);
                    lemma_inserted_at(ov, ev, leq, at as int);
                    assert(before.push(ev).drop_last() =~= before);
                    assert(before.push(ev).last() == ev);
                }
                out.insert(at, e);
                assert(out.deep_view() =~= ov.insert(at as int, ev));
            },
            None => {},
        }
        i += 1;
    }
    assert(nv.take(nv.len() as int) =~= nv);
    out
}

impl AgentInstance {
    /// The request that deletes a message.
    pub fn delete_remote_message(&self, message_id: &str) -> (r: Result<HttpRequest, AppError>)
        ensures
            match self@ {
                AgentInstanceV::Remote(m) => outcome(r) == m.on_session(
                    HttpMethod::Delete,
                    "/message/"@ + message_id@,
                    None,
                    15,
                ),
                _ => outcome(r) == Err::<HttpRequestV, AppErrorV>(
                    AppErrorV::BadRequest("Message delete is only supported for OpenCode remote conversations"@),
                ),
            },
    {
        match self {
            AgentInstance::Remote(m) => m.opencode_delete_message(message_id),
            _ => Err(
                AppError::BadRequest(
                    "Message delete is only supported for OpenCode remote conversations".to_owned(),
                ),
            ),
        }
    }

    /// The request that deletes a part of a message.
    pub fn delete_remote_message_part(&self, message_id: &str, part_id: &str) -> (r: Result<HttpRequest, AppError>)
        ensures
            match self@ {
                AgentInstanceV::Remote(m) => outcome(r) == m.on_session(
                    HttpMethod::Delete,
                    part_path(message_id@, part_id@),
                    None,
                    15,
                ),
                _ => outcome(r) == Err::<HttpRequestV, AppErrorV>(
                    AppErrorV::BadRequest("Part delete is only supported for OpenCode remote conversations"@),
                ),
            },
    {
        match self {
            AgentInstance::Remote(m) => m.opencode_delete_message_part(message_id, part_id),
            _ => Err(
                AppError::BadRequest(
                    "Part delete is only supported for OpenCode remote conversations".to_owned(),
                ),
            ),
        }
    }

    /// The request for the message whose part is to be changed.
    pub fn edit_remote_message_part(&self, message_id: &str) -> (r: Result<HttpRequest, AppError>)
        ensures
            match self@ {
                AgentInstanceV::Remote(m) => outcome(r) == m.on_session(HttpMethod::Get, "/message/"@ + message_id@, None, 15),
                _ => outcome(r) == Err::<HttpRequestV, AppErrorV>(
                    AppErrorV::BadRequest("Part edit is only supported for OpenCode remote conversations"@),
                ),
            },
    {
        match self {
            AgentInstance::Remote(m) => m.opencode_edit_lookup(message_id),
            _ => Err(
                AppError::BadRequest(
                    "Part edit is only supported for OpenCode remote conversations".to_owned(),
                ),
            ),
        }
    }

    /// The request that goes back to a message.
    pub fn revert_remote_session(&self, message_id: &str, part_id: Option<&str>) -> (r: Result<HttpRequest, AppError>)
        ensures
            match self@ {
                AgentInstanceV::Remote(m) => outcome(r) == m.on_session(
                    HttpMethod::Post,
                    "/revert"@,
                    Some(
                        (OpencodeRevertRequestV {
                            message_id: message_id@,
                            part_id: if_begins(opt_str(part_id), "prt"@),
                        }).json(),
                    ),
                    30,
                ),
                _ => outcome(r) == Err::<HttpRequestV, AppErrorV>(
                    AppErrorV::BadRequest("Revert is only supported for OpenCode remote conversations"@),
                ),
            },
    {
        match self {
            AgentInstance::Remote(m) => m.opencode_revert(message_id, part_id),
            _ => Err(
                AppError::BadRequest(
                    "Revert is only supported for OpenCode remote conversations".to_owned(),
                ),
            ),
        }
    }

    /// The request that undoes the going back.
    pub fn unrevert_remote_session(&self) -> (r: Result<HttpRequest, AppError>)
        ensures
            match self@ {
                AgentInstanceV::Remote(m) => outcome(r) == m.on_session(HttpMethod::Post, "/unrevert"@, None, 30),
                _ => outcome(r) == Err::<HttpRequestV, AppErrorV>(
                    AppErrorV::BadRequest("Unrevert is only supported for OpenCode remote conversations"@),
                ),
            },
    {
        match self {
            AgentInstance::Remote(m) => m.opencode_unrevert(),
            _ => Err(
                AppError::BadRequest(
                    "Unrevert is only supported for OpenCode remote conversations".to_owned(),
                ),
            ),
        }
    }

    /// The request that summarises the session.
    pub fn summarize_remote_session(&self) -> (r: Result<HttpRequest, AppError>)
        ensures
            match self@ {
                AgentInstanceV::Remote(m) => outcome(r) == m.summary_request(),
                _ => outcome(r) == Err::<HttpRequestV, AppErrorV>(
                    AppErrorV::BadRequest("Summarize is only supported for OpenCode remote conversations"@),
                ),
            },
    {
        match self {
            AgentInstance::Remote(m) => m.opencode_summarize(),
            _ => Err(
                AppError::BadRequest(
                    "Summarize is only supported for OpenCode remote conversations".to_owned(),
                ),
            ),
        }
    }

    /// The request that shares the session.
    pub fn share_remote_session(&self) -> (r: Result<HttpRequest, AppError>)
        ensures
            match self@ {
                AgentInstanceV::Remote(m) => outcome(r) == m.on_session(HttpMethod::Post, "/share"@, None, 15),
                _ => outcome(r) == Err::<HttpRequestV, AppErrorV>(
                    AppErrorV::BadRequest("Share is only supported for OpenCode remote conversations"@),
                ),
            },
    {
        match self {
            AgentInstance::Remote(m) => m.opencode_share(),
            _ => Err(
                AppError::BadRequest(
                    "Share is only supported for OpenCode remote conversations".to_owned(),
                ),
            ),
        }
    }

    /// The request that shares the session no longer.
    pub fn unshare_remote_session(&self) -> (r: Result<HttpRequest, AppError>)
        ensures
            match self@ {
                AgentInstanceV::Remote(m) => outcome(r) == m.on_session(HttpMethod::Delete, "/share"@, None, 15),
                _ => outcome(r) == Err::<HttpRequestV, AppErrorV>(
                    AppErrorV::BadRequest("Unshare is only supported for OpenCode remote conversations"@),
                ),
            },
    {
        match self {
            AgentInstance::Remote(m) => m.opencode_unshare(),
            _ => Err(
                AppError::BadRequest(
                    "Unshare is only supported for OpenCode remote conversations".to_owned(),
                ),
            ),
        }
    }

    /// The request for what the session changed.
    pub fn remote_session_diff(&self, message_id: Option<&str>) -> (r: Result<HttpRequest, AppError>)
        ensures
            match self@ {
                AgentInstanceV::Remote(m) => outcome(r) == m.on_session(
                    HttpMethod::Get,
                    match if_begins(opt_str(message_id), "msg"@) {
                        Some(m) => "/diff?messageID="@ + m,
                        None => "/diff"@,
                    },
                    None,
                    30,
                ),
                _ => outcome(r) == Err::<HttpRequestV, AppErrorV>(
                    AppErrorV::BadRequest("Diff is only supported for OpenCode remote conversations"@),
                ),
            },
    {
        match self {
            AgentInstance::Remote(m) => m.opencode_session_diff(message_id),
            _ => Err(
                AppError::BadRequest(
                    "Diff is only supported for OpenCode remote conversations".to_owned(),
                ),
            ),
        }
    }

    /// The request for the configuration of the server.
    pub fn get_global_config(&self) -> (r: Result<HttpRequest, AppError>)
        ensures
            match self@ {
                AgentInstanceV::Remote(m) => outcome(r) == m.on_server(
                    "Global config"@,
                    HttpMethod::Get,
                    "/global/config"@,
                    None,
                ),
                _ => outcome(r) == Err::<HttpRequestV, AppErrorV>(
                    AppErrorV::BadRequest("Global config is only supported for OpenCode remote conversations"@),
                ),
            },
    {
        match self {
            AgentInstance::Remote(m) => m.opencode_get_global_config(),
            _ => Err(
                AppError::BadRequest(
                    "Global config is only supported for OpenCode remote conversations".to_owned(),
                ),
            ),
        }
    }

    /// The request that changes the configuration of the server.
    pub fn patch_global_config(&self, partial: Json) -> (r: Result<HttpRequest, AppError>)
        ensures
            match self@ {
                AgentInstanceV::Remote(m) => outcome(r) == match m.offered("Global config"@) {
                    Err(e) => Err(e),
                    Ok(_) => if !(partial@ is Object) {
                        Err(AppErrorV::BadRequest("Global config patch must be a JSON object"@))
                    } else {
                        m.on_server(
                            "Global config"@,
                            HttpMethod::Patch,
                            "/global/config"@,
                            Some(partial@),
                        )
                    },
                },
                _ => outcome(r) == Err::<HttpRequestV, AppErrorV>(
                    AppErrorV::BadRequest("Global config is only supported for OpenCode remote conversations"@),
                ),
            },
    {
        match self {
            AgentInstance::Remote(m) => m.opencode_patch_global_config(partial),
            _ => Err(
                AppError::BadRequest(
                    "Global config is only supported for OpenCode remote conversations".to_owned(),
                ),
            ),
        }
    }

    /// The request for the configuration that is in force.
    pub fn get_effective_config(&self) -> (r: Result<HttpRequest, AppError>)
        ensures
            match self@ {
                AgentInstanceV::Remote(m) => outcome(r) == m.on_project(
                    "Global config"@,
                    "/config"@,
                ),
                _ => outcome(r) == Err::<HttpRequestV, AppErrorV>(
                    AppErrorV::BadRequest("Global config is only supported for OpenCode remote conversations"@),
                ),
            },
    {
        match self {
            AgentInstance::Remote(m) => m.opencode_get_effective_config(),
            _ => Err(
                AppError::BadRequest(
                    "Global config is only supported for OpenCode remote conversations".to_owned(),
                ),
            ),
        }
    }

    /// The request for the language servers.
    pub fn get_lsp_status(&self) -> (r: Result<HttpRequest, AppError>)
        ensures
            match self@ {
                AgentInstanceV::Remote(m) => outcome(r) == m.on_server("LSP status"@, HttpMethod::Get, "/lsp"@, None),
                _ => outcome(r) == Err::<HttpRequestV, AppErrorV>(
                    AppErrorV::BadRequest("LSP status is only supported for OpenCode remote conversations"@),
                ),
            },
    {
        match self {
            AgentInstance::Remote(m) => m.opencode_get_lsp_status(),
            _ => Err(
                AppError::BadRequest(
                    "LSP status is only supported for OpenCode remote conversations".to_owned(),
                ),
            ),
        }
    }

    /// The request for the branches.
    pub fn get_vcs_info(&self) -> (r: Result<HttpRequest, AppError>)
        ensures
            match self@ {
                AgentInstanceV::Remote(m) => outcome(r) == m.on_project(
                    "VCS"@,
                    "/vcs"@,
                ),
                _ => outcome(r) == Err::<HttpRequestV, AppErrorV>(
                    AppErrorV::BadRequest("VCS is only supported for OpenCode remote conversations"@),
                ),
            },
    {
        match self {
            AgentInstance::Remote(m) => m.opencode_get_vcs_info(),
            _ => Err(
                AppError::BadRequest(
                    "VCS is only supported for OpenCode remote conversations".to_owned(),
                ),
            ),
        }
    }

    /// The request for the changed files.
    pub fn get_vcs_status(&self) -> (r: Result<HttpRequest, AppError>)
        ensures
            match self@ {
                AgentInstanceV::Remote(m) => outcome(r) == m.on_project(
                    "VCS"@,
                    "/vcs/status"@,
                ),
                _ => outcome(r) == Err::<HttpRequestV, AppErrorV>(
                    AppErrorV::BadRequest("VCS is only supported for OpenCode remote conversations"@),
                ),
            },
    {
        match self {
            AgentInstance::Remote(m) => m.opencode_get_vcs_status(),
            _ => Err(
                AppError::BadRequest(
                    "VCS is only supported for OpenCode remote conversations".to_owned(),
                ),
            ),
        }
    }

    /// The request for the changes.
    pub fn get_vcs_diff(&self, mode: &str) -> (r: Result<HttpRequest, AppError>)
        ensures
            match self@ {
                AgentInstanceV::Remote(m) => outcome(r) == m.on_project(
                    "VCS"@,
                    "/vcs/diff?mode="@ + if mode@ == "branch"@ {
                        "branch"@
                    } else {
                        "git"@
                    },
                ),
                _ => outcome(r) == Err::<HttpRequestV, AppErrorV>(
                    AppErrorV::BadRequest("VCS is only supported for OpenCode remote conversations"@),
                ),
            },
    {
        match self {
            AgentInstance::Remote(m) => m.opencode_get_vcs_diff(mode),
            _ => Err(
                AppError::BadRequest(
                    "VCS is only supported for OpenCode remote conversations".to_owned(),
                ),
            ),
        }
    }

    /// The request for the transcript that a fork at a message needs; `None` where the
    /// whole session is forked.
    pub fn fork_remote_session(&self, message_id: Option<&str>) -> (r: Result<
        Option<HttpRequest>,
        AppError,
    >)
        ensures
            outcome(r) == (match self@ {
                AgentInstanceV::Remote(m) => match opt_str(message_id) {
                    Some(id) if begins(id, "msg"@) => match m.on_session(
                        HttpMethod::Get,
                        "/message"@,
                        None,
                        30,
                    ) {
                        Ok(q) => Ok::<Option<HttpRequestV>, AppErrorV>(Some(q)),
                        Err(e) => Err(e),
                    },
                    _ => Ok(None),
                },
                _ => Err(
                    AppErrorV::BadRequest(
                        "Fork is only supported for OpenCode remote conversations"@,
                    ),
                ),
            }),
    {
        match self {
            AgentInstance::Remote(m) => m.opencode_fork_lookup(message_id),
            _ => Err(
                AppError::BadRequest(
                    "Fork is only supported for OpenCode remote conversations".to_owned(),
                ),
            ),
        }
    }

    /// What follows an attempt to compact the session by the newer route.
    pub fn compact_remote_session(&self, attempt: Result<(), AppError>) -> (r: Result<
        Option<HttpRequest>,
        AppError,
    >)
        ensures
            outcome(r) == (match self@ {
                AgentInstanceV::Remote(m) => m.compaction(
                    match attempt {
                        Ok(_) => Ok(()),
                        Err(e) => Err(e@),
                    },
                ),
                _ => Err(
                    AppErrorV::BadRequest(
                        "Compact is only supported for OpenCode remote conversations"@,
                    ),
                ),
            }),
    {
        match self {
            AgentInstance::Remote(m) => m.opencode_compact(attempt),
            _ => Err(
                AppError::BadRequest(
                    "Compact is only supported for OpenCode remote conversations".to_owned(),
                ),
            ),
        }
    }

    /// The session whose context is asked for.
    pub fn get_session_context(&self) -> (r: Result<String, AppError>)
        ensures
            match self@ {
                AgentInstanceV::Remote(m) => outcome(r) == m.offered_session("Context"@),
                _ => outcome(r) == Err::<Seq<char>, AppErrorV>(
                    AppErrorV::BadRequest("Context is only available for OpenCode remote conversations"@),
                ),
            },
    {
        match self {
            AgentInstance::Remote(m) => m.opencode_get_context(),
            _ => Err(
                AppError::BadRequest(
                    "Context is only available for OpenCode remote conversations".to_owned(),
                ),
            ),
        }
    }

    /// The session whose messages are asked for.
    pub fn get_v2_messages(&self) -> (r: Result<String, AppError>)
        ensures
            match self@ {
                AgentInstanceV::Remote(m) => outcome(r) == m.offered_session("V2 messages"@),
                _ => outcome(r) == Err::<Seq<char>, AppErrorV>(
                    AppErrorV::BadRequest("V2 messages is only available for OpenCode remote conversations"@),
                ),
            },
    {
        match self {
            AgentInstance::Remote(m) => m.opencode_v2_messages(),
            _ => Err(
                AppError::BadRequest(
                    "V2 messages is only available for OpenCode remote conversations".to_owned(),
                ),
            ),
        }
    }

    /// Why the models of the newer interface are not there; `None` where they are.
    pub fn fetch_v2_model_list(&self) -> (r: Option<AppError>)
        ensures
            r.deep_view() == (match self@ {
                AgentInstanceV::Remote(m) => match m.offered("V2 models"@) {
                    Ok(_) => None,
                    Err(e) => Some(e),
                },
                _ => Some(AppErrorV::BadRequest("V2 models is only available for OpenCode remote conversations"@)),
            }),
    {
        match self {
            AgentInstance::Remote(m) => m.fetch_v2_model_list(),
            _ => Some(
                AppError::BadRequest(
                    "V2 models is only available for OpenCode remote conversations".to_owned(),
                ),
            ),
        }
    }

    /// Why the providers of the newer interface are not there; `None` where they are.
    pub fn fetch_v2_provider_list(&self) -> (r: Option<AppError>)
        ensures
            r.deep_view() == (match self@ {
                AgentInstanceV::Remote(m) => match m.offered("V2 providers"@) {
                    Ok(_) => None,
                    Err(e) => Some(e),
                },
                _ => Some(AppErrorV::BadRequest("V2 providers is only available for OpenCode remote conversations"@)),
            }),
    {
        match self {
            AgentInstance::Remote(m) => m.fetch_v2_provider_list(),
            _ => Some(
                AppError::BadRequest(
                    "V2 providers is only available for OpenCode remote conversations".to_owned(),
                ),
            ),
        }
    }

    /// The request for the files below a path.
    pub fn remote_list_files(&self, path: &str) -> (r: Result<HttpRequest, AppError>)
        ensures
            match self@ {
                AgentInstanceV::Remote(m) => outcome(r) == Ok::<HttpRequestV, AppErrorV>(looking(m.remote_config, with_param(tree_url(m.remote_config, m.workspace, "/file"@), "path"@, path@), 30)),
                _ => outcome(r) == Err::<HttpRequestV, AppErrorV>(
                    AppErrorV::BadRequest("Remote file listing requires an OpenCode remote conversation"@),
                ),
            },
    {
        match self {
            AgentInstance::Remote(m) => Ok(list_files(&m.remote_config, m.workspace.as_str(), path)),
            _ => Err(
                AppError::BadRequest(
                    "Remote file listing requires an OpenCode remote conversation".to_owned(),
                ),
            ),
        }
    }

    /// The request for a file.
    pub fn remote_read_file(&self, path: &str) -> (r: Result<HttpRequest, AppError>)
        ensures
            match self@ {
                AgentInstanceV::Remote(m) => outcome(r) == Ok::<HttpRequestV, AppErrorV>((HttpRequestV { method: HttpMethod::Post, url: tree_url(m.remote_config, m.workspace, "/file/content"@), auth: m.remote_config.auth_header(), body: Some(content_body(path@, None, None)), timeout_secs: 30 })),
                _ => outcome(r) == Err::<HttpRequestV, AppErrorV>(
                    AppErrorV::BadRequest("Remote file read requires an OpenCode remote conversation"@),
                ),
            },
    {
        match self {
            AgentInstance::Remote(m) => Ok(read_file_content(&m.remote_config, m.workspace.as_str(), path, None, None)),
            _ => Err(
                AppError::BadRequest(
                    "Remote file read requires an OpenCode remote conversation".to_owned(),
                ),
            ),
        }
    }

    /// The request for files by name.
    pub fn remote_find_files(&self, query: &str, limit: Option<u32>) -> (r: Result<HttpRequest, AppError>)
        ensures
            match self@ {
                AgentInstanceV::Remote(m) => outcome(r) == Ok::<HttpRequestV, AppErrorV>(looking(m.remote_config, with_limit(with_param(tree_url(m.remote_config, m.workspace, "/find/file"@), "query"@, query@), limit), 30)),
                _ => outcome(r) == Err::<HttpRequestV, AppErrorV>(
                    AppErrorV::BadRequest("Remote file search requires an OpenCode remote conversation"@),
                ),
            },
    {
        match self {
            AgentInstance::Remote(m) => Ok(find_files(&m.remote_config, m.workspace.as_str(), query, limit)),
            _ => Err(
                AppError::BadRequest(
                    "Remote file search requires an OpenCode remote conversation".to_owned(),
                ),
            ),
        }
    }

    /// The request for the places of a text.
    pub fn remote_find_text(&self, pattern: &str, limit: Option<u32>) -> (r: Result<HttpRequest, AppError>)
        ensures
            match self@ {
                AgentInstanceV::Remote(m) => outcome(r) == Ok::<HttpRequestV, AppErrorV>(looking(m.remote_config, with_limit(with_param(tree_url(m.remote_config, m.workspace, "/find"@), "pattern"@, pattern@), limit), 60)),
                _ => outcome(r) == Err::<HttpRequestV, AppErrorV>(
                    AppErrorV::BadRequest("Remote text search requires an OpenCode remote conversation"@),
                ),
            },
    {
        match self {
            AgentInstance::Remote(m) => Ok(find_text(&m.remote_config, m.workspace.as_str(), pattern, limit)),
            _ => Err(
                AppError::BadRequest(
                    "Remote text search requires an OpenCode remote conversation".to_owned(),
                ),
            ),
        }
    }

    /// The request for symbols by name.
    pub fn remote_find_symbols(&self, query: &str) -> (r: Result<HttpRequest, AppError>)
        ensures
            match self@ {
                AgentInstanceV::Remote(m) => outcome(r) == Ok::<HttpRequestV, AppErrorV>(looking(m.remote_config, with_param(tree_url(m.remote_config, m.workspace, "/find/symbol"@), "query"@, query@), 30)),
                _ => outcome(r) == Err::<HttpRequestV, AppErrorV>(
                    AppErrorV::BadRequest("Remote symbol search requires an OpenCode remote conversation"@),
                ),
            },
    {
        match self {
            AgentInstance::Remote(m) => Ok(find_symbols(&m.remote_config, m.workspace.as_str(), query)),
            _ => Err(
                AppError::BadRequest(
                    "Remote symbol search requires an OpenCode remote conversation".to_owned(),
                ),
            ),
        }
    }

}

} // verus!

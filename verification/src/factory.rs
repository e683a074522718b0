//! How an agent is made for a conversation.
use vstd::prelude::*;

use crate::config::{RemoteAgentConfig, RemoteAgentConfigV};
use crate::json::opt_str;
use crate::manager::{RemoteAgentManager, RemoteAgentManagerV};
use crate::models::AgentModeOption;
use crate::state::{initial_state, no_effects, RemoteStateV};
use crate::text::{cat, cat3};
use crate::types::{copy_opt, outcome, AgentType, AppError, AppErrorV, Effect, EffectV};

verus! {

/// What is stored of a remote agent.
#[derive(Debug, PartialEq, Eq)]
pub struct RemoteAgentRow {
    pub id: String,
    pub protocol: String,
    pub url: String,
    pub auth_type: String,
    /// Encrypted.
    pub auth_token: Option<String>,
    pub allow_insecure: bool,
    pub tool_host: String,
}

/// Model of [`RemoteAgentRow`].
pub struct RemoteAgentRowV {
    pub id: Seq<char>,
    pub protocol: Seq<char>,
    pub url: Seq<char>,
    pub auth_type: Seq<char>,
    pub auth_token: Option<Seq<char>>,
    pub allow_insecure: bool,
    pub tool_host: Seq<char>,
}

impl View for RemoteAgentRow {
    type V = RemoteAgentRowV;

    open spec fn view(&self) -> RemoteAgentRowV {
        RemoteAgentRowV {
            id: self.id.deep_view(),
            protocol: self.protocol.deep_view(),
            url: self.url.deep_view(),
            auth_type: self.auth_type.deep_view(),
            auth_token: self.auth_token.deep_view(),
            allow_insecure: self.allow_insecure.deep_view(),
            tool_host: self.tool_host.deep_view(),
        }
    }
}

impl DeepView for RemoteAgentRow {
    type V = RemoteAgentRowV;

    open spec fn deep_view(&self) -> RemoteAgentRowV {
        self@
    }
}

/// What a conversation asks for of its remote agent.
#[derive(Debug, PartialEq, Eq)]
pub struct RemoteBuildExtra {
    pub remote_agent_id: String,
    /// The session to take up again.
    pub session_key: Option<String>,
    pub current_model_id: Option<String>,
    pub session_mode: Option<String>,
}

/// Model of [`RemoteBuildExtra`].
pub struct RemoteBuildExtraV {
    pub remote_agent_id: Seq<char>,
    pub session_key: Option<Seq<char>>,
    pub current_model_id: Option<Seq<char>>,
    pub session_mode: Option<Seq<char>>,
}

impl View for RemoteBuildExtra {
    type V = RemoteBuildExtraV;

    open spec fn view(&self) -> RemoteBuildExtraV {
        RemoteBuildExtraV {
            remote_agent_id: self.remote_agent_id.deep_view(),
            session_key: self.session_key.deep_view(),
            current_model_id: self.current_model_id.deep_view(),
            session_mode: self.session_mode.deep_view(),
        }
    }
}

impl DeepView for RemoteBuildExtra {
    type V = RemoteBuildExtraV;

    open spec fn deep_view(&self) -> RemoteBuildExtraV {
        self@
    }
}

/// Why no agent is made for a conversation of an old kind; `None` for the others.
pub fn build_agent(agent_type: AgentType) -> (r: Option<AppError>)
    ensures
        r.deep_view() == (if agent_type == AgentType::Gemini {
            Some(
                AppErrorV::ConversationArchived(
                    "This conversation was created with the legacy Gemini runtime, which has been removed. Please start a new conversation with the Gemini ACP backend to continue."@,
                ),
            )
        } else {
            None
        }),
{
    if agent_type == AgentType::Gemini {
        Some(
            AppError::ConversationArchived(
                "This conversation was created with the legacy Gemini runtime, which has been removed. Please start a new conversation with the Gemini ACP backend to continue.".to_owned(),
            ),
        )
    } else {
        None
    }
}

/// How options that cannot be read are reported.
pub fn refuse_options(why: &str) -> (r: AppError)
    ensures
        r@ == AppErrorV::BadRequest("Invalid Remote build options: "@ + why@),
{
    AppError::BadRequest(cat("Invalid Remote build options: ", why))
}

/// What is stored of an agent, given what the lookup of its id came to.
pub open spec fn stored_agent(
    id: Seq<char>,
    found: Result<Option<RemoteAgentRowV>, Seq<char>>,
) -> Result<RemoteAgentRowV, AppErrorV> {
    match found {
        Err(e) => Err(AppErrorV::Internal("Failed to load remote agent config: "@ + e)),
        Ok(None) => Err(AppErrorV::NotFound("Remote agent '"@ + id + "' not found"@)),
        Ok(Some(row)) => Ok(row),
    }
}

/// What is stored of an agent, given what the lookup of its id came to.
pub fn load_remote_agent(id: &str, found: Result<Option<RemoteAgentRow>, String>) -> (r: Result<
    RemoteAgentRow,
    AppError,
>)
    ensures
        outcome(r) == stored_agent(id@, outcome(found)),
{
    match found {
        Err(e) => Err(AppError::Internal(cat("Failed to load remote agent config: ", e.as_str()))),
        Ok(None) => Err(AppError::NotFound(cat3("Remote agent '", id, "' not found"))),
        Ok(Some(row)) => Ok(row),
    }
}

/// A text that says something.
pub open spec fn not_empty(s: Option<Seq<char>>) -> Option<Seq<char>> {
    match s {
        Some(t) => if t.len() > 0 {
            Some(t)
        } else {
            None
        },
        None => None,
    }
}

fn keep_not_empty(s: &Option<String>) -> (r: Option<&str>)
    ensures
        opt_str(r) == not_empty(s.deep_view()),
{
    match s {
        Some(t) => {
            if t.as_str().is_empty() {
                None
            } else {
                Some(t.as_str())
            }
        },
        None => None,
    }
}

/// The token that is to be decrypted; `None` where there is none.
pub fn token_to_decrypt(row: &RemoteAgentRow) -> (r: Option<String>)
    ensures
        r.deep_view() == not_empty(row@.auth_token),
{
    crate::types::own_opt(keep_not_empty(&row.auth_token))
}

/// The settings of an agent, with its decrypted token.
pub open spec fn settings(row: RemoteAgentRowV, token: Option<Seq<char>>) -> RemoteAgentConfigV {
    RemoteAgentConfigV {
        remote_agent_id: row.id,
        protocol: row.protocol,
        url: row.url,
        auth_type: row.auth_type,
        auth_token: token,
        allow_insecure: row.allow_insecure,
        tool_host: row.tool_host,
    }
}

/// Makes the agent. It comes back to the session that the conversation had.
pub fn build(
    row: &RemoteAgentRow,
    token: Option<String>,
    extra: &RemoteBuildExtra,
    conversation_id: &str,
    workspace: &str,
) -> (r: RemoteAgentManager)
    ensures
        r@ == (RemoteAgentManagerV {
            conversation_id: conversation_id@,
            workspace: workspace@,
            remote_config: settings(row@, token.deep_view()),
            state: initial_state(workspace@, extra@.session_key),
        }),
{
    let config = RemoteAgentConfig {
        remote_agent_id: row.id.clone(),
        protocol: row.protocol.clone(),
        url: row.url.clone(),
        auth_type: row.auth_type.clone(),
        auth_token: token,
        allow_insecure: row.allow_insecure,
        tool_host: row.tool_host.clone(),
    };
    RemoteAgentManager::new(
        conversation_id.to_owned(),
        workspace.to_owned(),
        config,
        copy_opt(&extra.session_key),
    )
}

/// The agent with the model that the user selected before it was made.
pub open spec fn with_first_model(m: RemoteAgentManagerV, extra: RemoteBuildExtraV) -> RemoteAgentManagerV {
    match not_empty(extra.current_model_id) {
        Some(id) => m.with_model(id),
        None => m,
    }
}

/// Selects the model and the mode that the user selected before the agent was made: what
/// is told of it, or why the mode could not be selected. The latter is no reason to go
/// without the agent.
pub fn seed(m: &mut RemoteAgentManager, extra: &RemoteBuildExtra, available: &Vec<AgentModeOption>) -> (r:
    Result<Vec<Effect>, AppError>)
    ensures
        match not_empty(extra@.session_mode) {
            None => {
                &&& outcome(r) == Ok::<Seq<EffectV>, AppErrorV>(Seq::empty())
                &&& final(m)@ == with_first_model(old(m)@, extra@)
            },
            Some(mode) => {
                let before = with_first_model(old(m)@, extra@);
                &&& outcome(r) == before.mode_choice(mode, available.deep_view())
                &&& final(m)@ == (RemoteAgentManagerV {
                    state: if r is Ok {
                        RemoteStateV {
                            desired_agent: Some(crate::text::trimmed(mode)),
                            ..before.state
                        }
                    } else {
                        before.state
                    },
                    ..before
                })
            },
        },
{
    match keep_not_empty(&extra.current_model_id) {
        Some(id) => {
            m.set_model(id);
        },
        None => {},
    }
    match keep_not_empty(&extra.session_mode) {
        Some(mode) => m.set_mode(mode, available),
        None => Ok(no_effects()),
    }
}

} // verus!

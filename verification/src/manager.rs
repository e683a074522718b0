//! A remote agent: its settings, its state, and the requests that its operations make.
use vstd::prelude::*;

use crate::config::{
    append_v1_directory, auth, base_url_of, is_opencode_protocol, is_server_tool_host, normalize_base_url,
    server_directory_of, with_directory, RemoteAgentConfig, RemoteAgentConfigV,
};
use crate::confirm::{all_rejected, confirmed};
use crate::dispatch::{make_model, mode_effect, model_json, nested_text, on_data, tell_mode, Outside};
use crate::events::{either_text, get_either_str, str_or, text_or};
use crate::http::{
    answer_of, json_answer, read_acceptance, read_json_answer, HttpMethod, HttpReply, HttpReplyV, HttpRequest,
    HttpRequestV,
};
use crate::json::{field_reads_back, json_text, opt_str, opt_tree, trees, with_field_v, Json, JsonV};
use crate::models::{
    message_ids, next_opencode_message_id, successor, AgentModeOption, AgentModeOptionV, AgentModeResponse,
    AgentModeResponseV, ModelInfoEntry, ModelInfoPayload, ModelInfoPayloadV,
};
use crate::payloads::{
    builtin_denials, OpencodeForkRequest, OpencodeForkRequestV, OpencodeRevertRequest, OpencodeRevertRequestV,
    OpencodeSessionCreate, OpencodeSessionCreateV, OpencodeSummarizeRequest, OpencodeSummarizeRequestV,
};
use crate::state::{initial_state, no_effects, then_do, ApprovalKeyV, RemoteState, RemoteStateV};
use crate::text::{
    begins, cat, cat3, cat4, cat5, chars_of, contains, occurs, starts_with, str_eq, string_between, trim, trimmed,
};
use crate::types::{
    copy_opt, outcome, own_opt, AgentType, AppError, AppErrorV, Confirmation, Effect, EffectV,
    RemoteAgentStatus,
};

verus! {

/// A remote agent of one conversation.
#[derive(Debug)]
pub struct RemoteAgentManager {
    pub conversation_id: String,
    pub workspace: String,
    pub remote_config: RemoteAgentConfig,
    pub state: RemoteState,
}

/// Model of [`RemoteAgentManager`].
pub struct RemoteAgentManagerV {
    pub conversation_id: Seq<char>,
    pub workspace: Seq<char>,
    pub remote_config: RemoteAgentConfigV,
    pub state: RemoteStateV,
}

impl View for RemoteAgentManager {
    type V = RemoteAgentManagerV;

    open spec fn view(&self) -> RemoteAgentManagerV {
        RemoteAgentManagerV {
            conversation_id: self.conversation_id.deep_view(),
            workspace: self.workspace.deep_view(),
            remote_config: self.remote_config.deep_view(),
            state: self.state.deep_view(),
        }
    }
}

impl DeepView for RemoteAgentManager {
    type V = RemoteAgentManagerV;

    open spec fn deep_view(&self) -> RemoteAgentManagerV {
        self@
    }
}

impl RemoteAgentManagerV {
    /// The address of the server.
    pub open spec fn base_url(self) -> Seq<char> {
        base_url_of(self.remote_config.url)
    }

    /// A request to the server.
    pub open spec fn request(
        self,
        method: HttpMethod,
        path: Seq<char>,
        body: Option<JsonV>,
        timeout_secs: u64,
    ) -> HttpRequestV {
        HttpRequestV {
            method,
            url: self.base_url() + path,
            auth: self.remote_config.auth_header(),
            body,
            timeout_secs,
        }
    }

    /// A request for the directory that the conversation works in, where the tools run
    /// at the server.
    pub open spec fn scoped(self, q: HttpRequestV) -> HttpRequestV {
        HttpRequestV {
            url: with_directory(q.url, server_directory_of(self.remote_config, self.workspace)),
            ..q
        }
    }

    /// The session to come back to. Only an OpenCode server has one.
    pub open spec fn session_key(self) -> Option<Seq<char>> {
        if self.remote_config.is_opencode() {
            self.state.opencode_session_id
        } else {
            None
        }
    }

    /// The session that edits and deletions are about.
    pub open spec fn session(self) -> Result<Seq<char>, AppErrorV> {
        if !self.remote_config.is_opencode() {
            Err(
                AppErrorV::BadRequest(
                    "Message edit/delete is only supported for OpenCode remote conversations"@,
                ),
            )
        } else {
            match self.state.opencode_session_id {
                Some(id) => Ok(id),
                None => Err(
                    AppErrorV::BadRequest("No active OpenCode session for this conversation"@),
                ),
            }
        }
    }

    /// A request about the session.
    pub open spec fn on_session(
        self,
        method: HttpMethod,
        subpath: Seq<char>,
        body: Option<JsonV>,
        timeout_secs: u64,
    ) -> Result<HttpRequestV, AppErrorV> {
        match self.session() {
            Ok(id) => Ok(
                self.request(method, "/session/"@ + id + subpath, body, timeout_secs),
            ),
            Err(e) => Err(e),
        }
    }

    /// The mode of the next prompts.
    pub open spec fn current_mode(self, available: Seq<AgentModeOptionV>) -> AgentModeResponseV {
        AgentModeResponseV {
            mode: match self.state.desired_agent {
                Some(m) => m,
                None => "build"@,
            },
            initialized: self.state.desired_agent is Some,
            available_modes: Some(available),
        }
    }

    /// What follows an attempt to compact the session by the newer route.
    pub open spec fn compaction(self, attempt: Result<(), AppErrorV>) -> Result<
        Option<HttpRequestV>,
        AppErrorV,
    > {
        match self.offered_session("Compact"@) {
            Err(e) => Err(e),
            Ok(_) => match attempt {
                Ok(_) => Ok(None),
                Err(AppErrorV::BadGateway(m)) if occurs(m, "404"@) => match self.summary_request() {
                    Ok(q) => Ok(Some(q)),
                    Err(e) => Err(e),
                },
                Err(e) => Err(e),
            },
        }
    }

    /// Whether a feature is there: only with an OpenCode server.
    pub open spec fn offered(self, feature: Seq<char>) -> Result<(), AppErrorV> {
        if self.remote_config.is_opencode() {
            Ok(())
        } else {
            Err(
                AppErrorV::BadRequest(
                    feature + " is only available for OpenCode remote connections"@,
                ),
            )
        }
    }

    /// A request about the server as a whole.
    pub open spec fn on_server(
        self,
        feature: Seq<char>,
        method: HttpMethod,
        path: Seq<char>,
        body: Option<JsonV>,
    ) -> Result<HttpRequestV, AppErrorV> {
        match self.offered(feature) {
            Ok(_) => Ok(self.request(method, path, body, 15)),
            Err(e) => Err(e),
        }
    }

    /// A request about the project that the server works on.
    pub open spec fn on_project(self, feature: Seq<char>, path: Seq<char>) -> Result<
        HttpRequestV,
        AppErrorV,
    > {
        match self.on_server(feature, HttpMethod::Get, path, None) {
            Ok(q) => Ok(self.scoped(q)),
            Err(e) => Err(e),
        }
    }

    /// The session that a feature is about.
    pub open spec fn offered_session(self, feature: Seq<char>) -> Result<Seq<char>, AppErrorV> {
        match self.offered(feature) {
            Ok(_) => self.session(),
            Err(e) => Err(e),
        }
    }
}

impl RemoteAgentManager {
    /// A manager that has not connected. A session to come back to is kept.
    pub fn new(
        conversation_id: String,
        workspace: String,
        remote_config: RemoteAgentConfig,
        resume_session_id: Option<String>,
    ) -> (r: RemoteAgentManager)
        ensures
            r@ == (RemoteAgentManagerV {
                conversation_id: conversation_id@,
                workspace: workspace@,
                remote_config: remote_config@,
                state: initial_state(workspace@, resume_session_id.deep_view()),
            }),
    {
        let state = RemoteState::new(workspace.as_str(), resume_session_id);
        RemoteAgentManager { conversation_id, workspace, remote_config, state }
    }

    /// The conversation that the agent works for.
    pub fn conversation_id(&self) -> (r: &str)
        ensures
            r@ == self@.conversation_id,
    {
        self.conversation_id.as_str()
    }

    /// The directory that the agent works in.
    pub fn workspace(&self) -> (r: &str)
        ensures
            r@ == self@.workspace,
    {
        self.workspace.as_str()
    }

    /// The type of the agent.
    pub fn agent_type(&self) -> (r: AgentType)
        ensures
            r == AgentType::Remote,
    {
        AgentType::Remote
    }

    /// Whether the server speaks the OpenCode protocol.
    pub fn is_opencode(&self) -> (r: bool)
        ensures
            r == self@.remote_config.is_opencode(),
    {
        is_opencode_protocol(self.remote_config.protocol.as_str())
    }

    /// How the connection stands.
    pub fn connection_status(&self) -> (r: RemoteAgentStatus)
        ensures
            r == self@.state.connection_status,
    {
        self.state.connection_status
    }

    fn make_request(
        &self,
        method: HttpMethod,
        path: &str,
        body: Option<Json>,
        timeout_secs: u64,
    ) -> (r: HttpRequest)
        ensures
            r@ == self@.request(method, path@, body.deep_view(), timeout_secs),
    {
        let base = normalize_base_url(self.remote_config.url.as_str());
        HttpRequest {
            method,
            url: cat(base.as_str(), path),
            auth: auth(&self.remote_config),
            body,
            timeout_secs,
        }
    }

    /// The session that edits and deletions are about.
    pub fn require_opencode_session(&self) -> (r: Result<String, AppError>)
        ensures
            outcome(r) == self@.session(),
    {
        if !self.is_opencode() {
            return Err(
                AppError::BadRequest(
                    "Message edit/delete is only supported for OpenCode remote conversations".to_owned(),
                ),
            );
        }
        match &self.state.opencode_session_id {
            Some(id) => Ok(id.clone()),
            None => Err(
                AppError::BadRequest("No active OpenCode session for this conversation".to_owned()),
            ),
        }
    }

    /// A request about the session.
    pub fn opencode_session_request(
        &self,
        method: HttpMethod,
        subpath: &str,
        body: Option<Json>,
        timeout_secs: u64,
    ) -> (r: Result<HttpRequest, AppError>)
        ensures
            outcome(r) == self@.on_session(method, subpath@, body.deep_view(), timeout_secs),
    {
        match self.require_opencode_session() {
            Ok(id) => {
                let path = cat3("/session/", id.as_str(), subpath);
                Ok(self.make_request(method, path.as_str(), body, timeout_secs))
            },
            Err(e) => Err(e),
        }
    }

    fn require_offered(&self, feature: &str) -> (r: Result<(), AppError>)
        ensures
            match r {
                Ok(_) => self@.offered(feature@) is Ok,
                Err(e) => self@.offered(feature@) == Err::<(), AppErrorV>(e@),
            },
    {
        if self.is_opencode() {
            Ok(())
        } else {
            Err(
                AppError::BadRequest(
                    cat(feature, " is only available for OpenCode remote connections"),
                ),
            )
        }
    }

    /// Why a feature is not there; `None` where it is.
    pub fn refuse_feature(&self, feature: &str) -> (r: Option<AppError>)
        ensures
            r.deep_view() == match self@.offered(feature@) {
                Ok(_) => None,
                Err(e) => Some(e),
            },
    {
        match self.require_offered(feature) {
            Ok(_) => None,
            Err(e) => Some(e),
        }
    }

    /// Why the models of the newer interface are not there; `None` where they are.
    pub fn fetch_v2_model_list(&self) -> (r: Option<AppError>)
        ensures
            r.deep_view() == match self@.offered("V2 models"@) {
                Ok(_) => None,
                Err(e) => Some(e),
            },
    {
        self.refuse_feature("V2 models")
    }

    /// Why the providers of the newer interface are not there; `None` where they are.
    pub fn fetch_v2_provider_list(&self) -> (r: Option<AppError>)
        ensures
            r.deep_view() == match self@.offered("V2 providers"@) {
                Ok(_) => None,
                Err(e) => Some(e),
            },
    {
        self.refuse_feature("V2 providers")
    }

    /// Why missed events cannot be had; `None` where they can.
    pub fn fetch_sync_history(&self) -> (r: Option<AppError>)
        ensures
            r.deep_view() == match self@.offered("Sync"@) {
                Ok(_) => None,
                Err(e) => Some(e),
            },
    {
        self.refuse_feature("Sync")
    }

    /// A request about the server as a whole.
    pub fn opencode_config_request(
        &self,
        feature: &str,
        method: HttpMethod,
        path: &str,
        body: Option<Json>,
    ) -> (r: Result<HttpRequest, AppError>)
        ensures
            outcome(r) == self@.on_server(feature@, method, path@, body.deep_view()),
    {
        match self.require_offered(feature) {
            Ok(_) => Ok(self.make_request(method, path, body, 15)),
            Err(e) => Err(e),
        }
    }

    /// A request for the directory that the conversation works in, where the tools run
    /// at the server.
    pub fn scope(&self, q: HttpRequest) -> (r: HttpRequest)
        ensures
            r@ == self@.scoped(q@),
    {
        HttpRequest {
            url: append_v1_directory(q.url.as_str(), &self.remote_config, self.workspace.as_str()),
            ..q
        }
    }

    fn project_request(&self, feature: &str, path: &str) -> (r: Result<HttpRequest, AppError>)
        ensures
            outcome(r) == self@.on_project(feature@, path@),
    {
        match self.opencode_config_request(feature, HttpMethod::Get, path, None) {
            Ok(q) => Ok(self.scope(q)),
            Err(e) => Err(e),
        }
    }

    /// The session whose compaction, context or messages are asked for.
    pub fn offered_session(&self, feature: &str) -> (r: Result<String, AppError>)
        ensures
            outcome(r) == self@.offered_session(feature@),
    {
        match self.require_offered(feature) {
            Ok(_) => self.require_opencode_session(),
            Err(e) => Err(e),
        }
    }

    /// The session whose context is asked for.
    pub fn opencode_get_context(&self) -> (r: Result<String, AppError>)
        ensures
            outcome(r) == self@.offered_session("Context"@),
    {
        self.offered_session("Context")
    }

    /// The session whose messages are asked for by the newer route.
    pub fn opencode_v2_messages(&self) -> (r: Result<String, AppError>)
        ensures
            outcome(r) == self@.offered_session("V2 messages"@),
    {
        self.offered_session("V2 messages")
    }

    /// The session that a prompt goes to by the newer route.
    pub fn opencode_send_v2(&self) -> (r: Result<String, AppError>)
        ensures
            outcome(r) == self@.session(),
    {
        self.require_opencode_session()
    }

    /// The request that deletes a message.
    pub fn opencode_delete_message(&self, message_id: &str) -> (r: Result<HttpRequest, AppError>)
        ensures
            outcome(r) == self@.on_session(
                HttpMethod::Delete,
                "/message/"@ + message_id@,
                None,
                15,
            ),
    {
        let sub = cat("/message/", message_id);
        self.opencode_session_request(HttpMethod::Delete, sub.as_str(), None, 15)
    }

    /// The request that deletes a part of a message.
    pub fn opencode_delete_message_part(&self, message_id: &str, part_id: &str) -> (r: Result<
        HttpRequest,
        AppError,
    >)
        ensures
            outcome(r) == self@.on_session(
                HttpMethod::Delete,
                part_path(message_id@, part_id@),
                None,
                15,
            ),
    {
        let sub = cat4("/message/", message_id, "/part/", part_id);
        self.opencode_session_request(HttpMethod::Delete, sub.as_str(), None, 15)
    }

    /// The request for the message whose part is edited.
    pub fn opencode_edit_lookup(&self, message_id: &str) -> (r: Result<HttpRequest, AppError>)
        ensures
            outcome(r) == self@.on_session(HttpMethod::Get, "/message/"@ + message_id@, None, 15),
    {
        let sub = cat("/message/", message_id);
        self.opencode_session_request(HttpMethod::Get, sub.as_str(), None, 15)
    }

    /// The request that gives a text part other words, given its message: the server
    /// wants the whole part.
    pub fn opencode_edit_message_part(
        &self,
        message: &Json,
        message_id: &str,
        part_id: &str,
        new_text: &str,
    ) -> (r: Result<HttpRequest, AppError>)
        ensures
            outcome(r) == match self@.session() {
                Ok(_) => match edited_part_of(message@, message_id@, part_id@, new_text@) {
                    Ok(part) => self@.on_session(
                        HttpMethod::Patch,
                        part_path(message_id@, part_id@),
                        Some(part),
                        15,
                    ),
                    Err(e) => Err(e),
                },
                Err(e) => Err(e),
            },
    {
        match self.require_opencode_session() {
            Ok(_) => {},
            Err(e) => {
                return Err(e);
            },
        }
        match edited_part(message, message_id, part_id, new_text) {
            Ok(part) => {
                let sub = cat4("/message/", message_id, "/part/", part_id);
                self.opencode_session_request(HttpMethod::Patch, sub.as_str(), Some(part), 15)
            },
            Err(e) => Err(e),
        }
    }

    /// The request for the transcript that a fork at a message needs; `None` where
    /// the whole session is forked.
    pub fn opencode_fork_lookup(&self, message_id: Option<&str>) -> (r: Result<
        Option<HttpRequest>,
        AppError,
    >)
        ensures
            outcome(r) == match opt_str(message_id) {
                Some(m) if begins(m, "msg"@) => match self@.on_session(
                    HttpMethod::Get,
                    "/message"@,
                    None,
                    30,
                ) {
                    Ok(q) => Ok(Some(q)),
                    Err(e) => Err(e),
                },
                _ => Ok(None),
            },
    {
        match message_id {
            Some(m) => if starts_with(m, "msg") {
                match self.opencode_session_request(HttpMethod::Get, "/message", None, 30) {
                    Ok(q) => Ok(Some(q)),
                    Err(e) => Err(e),
                }
            } else {
                Ok(None)
            },
            None => Ok(None),
        }
    }

    /// The request that forks the session: up to a message of its transcript and with
    /// it, or all of it.
    pub fn opencode_fork(&self, message_id: Option<&str>, transcript: &Json) -> (r: Result<
        HttpRequest,
        AppError,
    >)
        ensures
            outcome(r) == self@.on_session(
                HttpMethod::Post,
                "/fork"@,
                Some(
                    (OpencodeForkRequestV {
                        message_id: fork_point(opt_str(message_id), transcript@),
                    }).json(),
                ),
                30,
            ),
    {
        let fork_at = match message_id {
            Some(m) => if starts_with(m, "msg") {
                next_opencode_message_id(transcript, m)
            } else {
                None
            },
            None => None,
        };
        let body = OpencodeForkRequest { message_id: fork_at }.to_json();
        self.opencode_session_request(HttpMethod::Post, "/fork", Some(body), 30)
    }

    /// The request that takes the session back to a message, or to a part of it.
    pub fn opencode_revert(&self, message_id: &str, part_id: Option<&str>) -> (r: Result<
        HttpRequest,
        AppError,
    >)
        ensures
            outcome(r) == self@.on_session(
                HttpMethod::Post,
                "/revert"@,
                Some(
                    (OpencodeRevertRequestV {
                        message_id: message_id@,
                        part_id: if_begins(opt_str(part_id), "prt"@),
                    }).json(),
                ),
                30,
            ),
    {
        let part = match part_id {
            Some(p) => if starts_with(p, "prt") {
                Some(p.to_owned())
            } else {
                None
            },
            None => None,
        };
        let body = OpencodeRevertRequest {
            message_id: message_id.to_owned(),
            part_id: part,
        }.to_json();
        self.opencode_session_request(HttpMethod::Post, "/revert", Some(body), 30)
    }

    /// The request that restores what was reverted.
    pub fn opencode_unrevert(&self) -> (r: Result<HttpRequest, AppError>)
        ensures
            outcome(r) == self@.on_session(HttpMethod::Post, "/unrevert"@, None, 30),
    {
        self.opencode_session_request(HttpMethod::Post, "/unrevert", None, 30)
    }

    /// The request that summarizes the session with the model that is selected.
    pub fn opencode_summarize(&self) -> (r: Result<HttpRequest, AppError>)
        ensures
            outcome(r) == self@.summary_request(),
    {
        let m = match &self.state.desired_model {
            Some(m) => m,
            None => {
                return Err(AppError::BadRequest("Select a model before summarizing".to_owned()));
            },
        };
        let provider = str_or(m.get_str("providerID"), "opencode-go");
        let model = match get_either_str(m, "modelID", "id") {
            Some(s) => s,
            None => {
                return Err(AppError::BadRequest("Current model id is unavailable".to_owned()));
            },
        };
        let body = OpencodeSummarizeRequest {
            provider_id: provider.to_owned(),
            model_id: model.to_owned(),
        }.to_json();
        self.opencode_session_request(HttpMethod::Post, "/summarize", Some(body), 60)
    }

    /// What follows an attempt to compact the session by the newer route: where the
    /// server does not know that route, the session is summarized instead.
    pub fn opencode_compact(&self, attempt: Result<(), AppError>) -> (r: Result<
        Option<HttpRequest>,
        AppError,
    >)
        ensures
            outcome(r) == self@.compaction(
                match attempt {
                    Ok(_) => Ok(()),
                    Err(e) => Err(e@),
                },
            ),
    {
        match self.offered_session("Compact") {
            Ok(_) => {},
            Err(e) => {
                return Err(e);
            },
        }
        match attempt {
            Ok(_) => Ok(None),
            Err(AppError::BadGateway(m)) => {
                if contains(m.as_str(), "404") {
                    match self.opencode_summarize() {
                        Ok(q) => Ok(Some(q)),
                        Err(e) => Err(e),
                    }
                } else {
                    Err(AppError::BadGateway(m))
                }
            },
            Err(e) => Err(e),
        }
    }

    /// The request for a link that shares the session.
    pub fn opencode_share(&self) -> (r: Result<HttpRequest, AppError>)
        ensures
            outcome(r) == self@.on_session(HttpMethod::Post, "/share"@, None, 15),
    {
        self.opencode_session_request(HttpMethod::Post, "/share", None, 15)
    }

    /// The request that revokes the link.
    pub fn opencode_unshare(&self) -> (r: Result<HttpRequest, AppError>)
        ensures
            outcome(r) == self@.on_session(HttpMethod::Delete, "/share"@, None, 15),
    {
        self.opencode_session_request(HttpMethod::Delete, "/share", None, 15)
    }

    /// The request for the files that the session, or one message, changed.
    pub fn opencode_session_diff(&self, message_id: Option<&str>) -> (r: Result<
        HttpRequest,
        AppError,
    >)
        ensures
            outcome(r) == self@.on_session(
                HttpMethod::Get,
                match if_begins(opt_str(message_id), "msg"@) {
                    Some(m) => "/diff?messageID="@ + m,
                    None => "/diff"@,
                },
                None,
                30,
            ),
    {
        match message_id {
            Some(m) => {
                if starts_with(m, "msg") {
                    let sub = cat("/diff?messageID=", m);
                    return self.opencode_session_request(HttpMethod::Get, sub.as_str(), None, 30);
                }
            },
            None => {},
        }
        self.opencode_session_request(HttpMethod::Get, "/diff", None, 30)
    }

    /// The request for the configuration that all sessions share.
    pub fn opencode_get_global_config(&self) -> (r: Result<HttpRequest, AppError>)
        ensures
            outcome(r) == self@.on_server(
                "Global config"@,
                HttpMethod::Get,
                "/global/config"@,
                None,
            ),
    {
        self.opencode_config_request("Global config", HttpMethod::Get, "/global/config", None)
    }

    /// The request for the configuration in effect.
    pub fn opencode_get_effective_config(&self) -> (r: Result<HttpRequest, AppError>)
        ensures
            outcome(r) == self@.on_project("Global config"@, "/config"@),
    {
        self.project_request("Global config", "/config")
    }

    /// The request that merges a partial configuration into the shared one.
    pub fn opencode_patch_global_config(&self, partial: Json) -> (r: Result<HttpRequest, AppError>)
        ensures
            outcome(r) == match self@.offered("Global config"@) {
                Err(e) => Err(e),
                Ok(_) => if !(partial@ is Object) {
                    Err(AppErrorV::BadRequest("Global config patch must be a JSON object"@))
                } else {
                    self@.on_server(
                        "Global config"@,
                        HttpMethod::Patch,
                        "/global/config"@,
                        Some(partial@),
                    )
                },
            },
    {
        match self.require_offered("Global config") {
            Ok(_) => {},
            Err(e) => {
                return Err(e);
            },
        }
        if partial.as_object().is_none() {
            return Err(
                AppError::BadRequest("Global config patch must be a JSON object".to_owned()),
            );
        }
        self.opencode_config_request(
            "Global config",
            HttpMethod::Patch,
            "/global/config",
            Some(partial),
        )
    }

    /// The request for the state of the language servers.
    pub fn opencode_get_lsp_status(&self) -> (r: Result<HttpRequest, AppError>)
        ensures
            outcome(r) == self@.on_server("LSP status"@, HttpMethod::Get, "/lsp"@, None),
    {
        self.opencode_config_request("LSP status", HttpMethod::Get, "/lsp", None)
    }

    /// The request for the branches of the server's working tree.
    pub fn opencode_get_vcs_info(&self) -> (r: Result<HttpRequest, AppError>)
        ensures
            outcome(r) == self@.on_project("VCS"@, "/vcs"@),
    {
        self.project_request("VCS", "/vcs")
    }

    /// The request for the changed files of the server's working tree.
    pub fn opencode_get_vcs_status(&self) -> (r: Result<HttpRequest, AppError>)
        ensures
            outcome(r) == self@.on_project("VCS"@, "/vcs/status"@),
    {
        self.project_request("VCS", "/vcs/status")
    }

    /// The request for the changes of the server's working tree, against the last
    /// commit or against the default branch.
    pub fn opencode_get_vcs_diff(&self, mode: &str) -> (r: Result<HttpRequest, AppError>)
        ensures
            outcome(r) == self@.on_project(
                "VCS"@,
                "/vcs/diff?mode="@ + if mode@ == "branch"@ {
                    "branch"@
                } else {
                    "git"@
                },
            ),
    {
        let chosen = if str_eq(mode, "branch") {
            "branch"
        } else {
            "git"
        };
        let path = cat("/vcs/diff?mode=", chosen);
        self.project_request("VCS", path.as_str())
    }

    /// The request for a new session. Where tools run on the user's machine, the
    /// server's own tools are denied.
    pub fn opencode_create_session(&self) -> (r: HttpRequest)
        ensures
            r@ == self@.creation(),
    {
        let body = if is_server_tool_host(&self.remote_config) {
            OpencodeSessionCreate::default().to_json()
        } else {
            OpencodeSessionCreate::deny_builtin_tools().to_json()
        };
        self.make_request(HttpMethod::Post, "/session", Some(body), 10)
    }

    /// Selects the model of the next prompts: `provider::model`, or a model of the
    /// provider that was selected before.
    pub fn set_model(&mut self, model_id: &str)
        ensures
            final(self)@ == old(self)@.with_model(model_id@),
    {
        if !self.is_opencode() {
            return;
        }
        let (provider, model) = match split_model(model_id) {
            Some((p, m)) => (p, m),
            None => {
                let provider = match &self.state.desired_model {
                    Some(m) => str_or(m.get_str("providerID"), "opencode-go"),
                    None => "opencode-go",
                };
                (provider.to_owned(), model_id.to_owned())
            },
        };
        self.state.desired_model = Some(make_model(model.as_str(), provider.as_str(), "default"));
    }

    /// What is told of the model: the one that is selected, and those that there are.
    pub fn get_model(&self, available: Vec<ModelInfoEntry>) -> (r: ModelInfoPayload)
        ensures
            r@ == (ModelInfoPayloadV {
                current_model_id: self@.current_model(),
                current_model_label: self@.current_model(),
                available_models: available.deep_view(),
            }),
    {
        let current = match &self.state.desired_model {
            Some(m) => own_opt(m.get_str("modelID")),
            None => None,
        };
        ModelInfoPayload {
            current_model_id: copy_opt(&current),
            current_model_label: current,
            available_models: available,
        }
    }

    /// Selects the mode of the next prompts, one of those that there are.
    pub fn set_mode(&mut self, mode: &str, available: &Vec<AgentModeOption>) -> (r: Result<
        Vec<Effect>,
        AppError,
    >)
        ensures
            outcome(r) == old(self)@.mode_choice(mode@, available.deep_view()),
            final(self)@ == (RemoteAgentManagerV {
                state: if r is Ok {
                    RemoteStateV { desired_agent: Some(trimmed(mode@)), ..old(self)@.state }
                } else {
                    old(self)@.state
                },
                ..old(self)@
            }),
    {
        if !self.is_opencode() {
            return Err(
                AppError::BadRequest(
                    cat3(
                        "Mode switching is not supported for remote protocol '",
                        self.remote_config.protocol.as_str(),
                        "'",
                    ),
                ),
            );
        }
        let chosen = trim(mode);
        if !has_mode(available, chosen.as_str()) {
            return Err(
                AppError::BadRequest(cat3("Unsupported OpenCode mode '", chosen.as_str(), "'")),
            );
        }
        let mut fx = no_effects();
        then_do(&mut fx, tell_mode(chosen.as_str()));
        self.state.desired_agent = Some(chosen);
        Ok(fx)
    }

    /// The mode of the next prompts, and whether it was ever selected.
    pub fn mode(&self, available: Vec<AgentModeOption>) -> (r: AgentModeResponse)
        ensures
            r@ == self@.current_mode(available.deep_view()),
    {
        match &self.state.desired_agent {
            Some(m) => AgentModeResponse {
                mode: m.clone(),
                initialized: true,
                available_modes: Some(available),
            },
            None => AgentModeResponse {
                mode: "build".to_owned(),
                initialized: false,
                available_modes: Some(available),
            },
        }
    }
}

impl RemoteAgentManagerV {
    /// The request that summarizes the session.
    pub open spec fn summary_request(self) -> Result<HttpRequestV, AppErrorV> {
        match self.state.desired_model {
            None => Err(AppErrorV::BadRequest("Select a model before summarizing"@)),
            Some(m) => match either_text(m, "modelID"@, "id"@) {
                None => Err(AppErrorV::BadRequest("Current model id is unavailable"@)),
                Some(model_id) => self.on_session(
                    HttpMethod::Post,
                    "/summarize"@,
                    Some(
                        (OpencodeSummarizeRequestV {
                            provider_id: text_or(m.field_text("providerID"@), "opencode-go"@),
                            model_id,
                        }).json(),
                    ),
                    60,
                ),
            },
        }
    }

    /// The request for a new session.
    pub open spec fn creation(self) -> HttpRequestV {
        let permission = if self.remote_config.server_tools() {
            Seq::empty()
        } else {
            builtin_denials()
        };
        self.request(
            HttpMethod::Post,
            "/session"@,
            Some((OpencodeSessionCreateV { permission }).json()),
            10,
        )
    }

    /// The provider that is selected.
    pub open spec fn current_provider(self) -> Seq<char> {
        match self.state.desired_model {
            Some(m) => text_or(m.field_text("providerID"@), "opencode-go"@),
            None => "opencode-go"@,
        }
    }

    /// The model that is selected.
    pub open spec fn current_model(self) -> Option<Seq<char>> {
        match self.state.desired_model {
            Some(m) => m.field_text("modelID"@),
            None => None,
        }
    }

    /// The manager with a model selected.
    pub open spec fn with_model(self, model_id: Seq<char>) -> RemoteAgentManagerV {
        if !self.remote_config.is_opencode() {
            self
        } else {
            let chosen = match model_parts(model_id) {
                Some(p) => model_json(p.1, p.0, "default"@),
                None => model_json(model_id, self.current_provider(), "default"@),
            };
            RemoteAgentManagerV {
                state: RemoteStateV { desired_model: Some(chosen), ..self.state },
                ..self
            }
        }
    }

    /// What follows the choice of a mode.
    pub open spec fn mode_choice(self, mode: Seq<char>, available: Seq<AgentModeOptionV>) -> Result<
        Seq<EffectV>,
        AppErrorV,
    > {
        if !self.remote_config.is_opencode() {
            Err(
                AppErrorV::BadRequest(
                    "Mode switching is not supported for remote protocol '"@
                        + self.remote_config.protocol + "'"@,
                ),
            )
        } else if !offers_mode(available, trimmed(mode)) {
            Err(AppErrorV::BadRequest("Unsupported OpenCode mode '"@ + trimmed(mode) + "'"@))
        } else {
            Ok(seq![mode_effect(trimmed(mode))])
        }
    }
}

/// The path of a part of a message.
pub open spec fn part_path(message_id: Seq<char>, part_id: Seq<char>) -> Seq<char> {
    "/message/"@ + message_id + "/part/"@ + part_id
}

/// A text, where it is there and begins in a given way.
pub open spec fn if_begins(t: Option<Seq<char>>, prefix: Seq<char>) -> Option<Seq<char>> {
    match t {
        Some(s) if begins(s, prefix) => Some(s),
        _ => None,
    }
}

/// Whether a mode is among those that there are.
pub open spec fn offers_mode(available: Seq<AgentModeOptionV>, id: Seq<char>) -> bool {
    exists|i: int| 0 <= i < available.len() && (#[trigger] available[i]).id == id
}

fn has_mode(available: &Vec<AgentModeOption>, id: &str) -> (r: bool)
    ensures
        r == offers_mode(available.deep_view(), id@),
{
    let ghost av = available.deep_view();
    let mut i: usize = 0;
    while i < available.len()
        invariant
            i <= available.len(),
            av == available.deep_view(),
            forall|k: int| 0 <= k < i ==> (#[trigger] av[k]).id != id@,
        decreases available.len() - i,
    {
        assert(av[i as int] == available@[i as int]@);
        if str_eq(available[i].id.as_str(), id) {
            return true;
        }
        i += 1;
    }
    false
}

/// The provider and the model of `provider::model`, parted at the first `::`.
pub open spec fn model_parts(id: Seq<char>) -> Option<(Seq<char>, Seq<char>)> {
    let i = colons_at(id, 0);
    if 0 <= i && i + 1 < id.len() {
        Some((id.take(i), id.skip(i + 2)))
    } else {
        None
    }
}

/// The place of the first `::` at or behind `from`; the length where there is none.
pub open spec fn colons_at(s: Seq<char>, from: int) -> int
    decreases s.len() - from,
{
    if from + 1 >= s.len() {
        s.len() as int
    } else if s[from] == ':' && s[from + 1] == ':' {
        from
    } else {
        colons_at(s, from + 1)
    }
}

/// The provider and the model of `provider::model`.
pub fn split_model(id: &str) -> (r: Option<(String, String)>)
    ensures
        r.deep_view() == model_parts(id@),
{
    let v = chars_of(id);
    let mut i: usize = 0;
    while i < v.len() && i + 1 < v.len()
        invariant
            i <= v.len(),
            v@ == id@,
            colons_at(id@, 0) == colons_at(id@, i as int),
        decreases v.len() - i,
    {
        if v[i] == ':' && v[i + 1] == ':' {
            let p = string_between(&v, 0, i);
            let m = string_between(&v, i + 2, v.len());
            assert(p@ =~= id@.take(i as int));
            assert(m@ =~= id@.skip(i + 2));
            return Some((p, m));
        }
        i += 1;
    }
    None
}

/// The first part of a message with an id.
pub open spec fn part_with_id(parts: Seq<JsonV>, id: Seq<char>) -> Option<JsonV>
    decreases parts.len(),
{
    if parts.len() == 0 {
        None
    } else if parts[0].field_text("id"@) == Some(id) {
        Some(parts[0])
    } else {
        part_with_id(parts.drop_first(), id)
    }
}

/// A text part of a message with other words.
pub open spec fn edited_part_of(
    message: JsonV,
    message_id: Seq<char>,
    part_id: Seq<char>,
    new_text: Seq<char>,
) -> Result<JsonV, AppErrorV> {
    let parts = match message.field_items("parts"@) {
        Some(p) => p,
        None => Seq::empty(),
    };
    match part_with_id(parts, part_id) {
        None => Err(
            AppErrorV::NotFound("part '"@ + part_id + "' not found on message '"@ + message_id + "'"@),
        ),
        Some(part) => if part.field_text("type"@) != Some("text"@) {
            Err(AppErrorV::BadRequest("Only text parts can be edited"@))
        } else {
            match part {
                JsonV::Object(o) => Ok(
                    JsonV::Object(with_field_v(o, "text"@, JsonV::Str(new_text))),
                ),
                other => Ok(other),
            }
        },
    }
}

fn find_part<'a>(parts: &'a Vec<Json>, id: &str) -> (r: Option<&'a Json>)
    ensures
        opt_tree(r) == part_with_id(trees(parts@), id@),
{
    let ghost pv = trees(parts@);
    let mut i: usize = 0;
    assert(pv.skip(0) =~= pv);
    while i < parts.len()
        invariant
            i <= parts.len(),
            pv == trees(parts@),
            part_with_id(pv, id@) == part_with_id(pv.skip(i as int), id@),
        decreases parts.len() - i,
    {
        let ghost rest = pv.skip(i as int);
        assert(rest[0] == parts@[i as int]@);
        let hit = match parts[i].get_str("id") {
            Some(t) => str_eq(t, id),
            None => false,
        };
        if hit {
            return Some(&parts[i]);
        }
        assert(rest.drop_first() =~= pv.skip(i as int + 1));
        i += 1;
    }
    None
}

/// A text part of a message with other words.
pub fn edited_part(message: &Json, message_id: &str, part_id: &str, new_text: &str) -> (r: Result<
    Json,
    AppError,
>)
    ensures
        outcome(r) == edited_part_of(message@, message_id@, part_id@, new_text@),
{
    let found = match message.get_array("parts") {
        Some(parts) => find_part(parts, part_id),
        None => None,
    };
    match found {
        None => Err(
            AppError::NotFound(
                cat5("part '", part_id, "' not found on message '", message_id, "'"),
            ),
        ),
        Some(part) => {
            let is_text = match part.get_str("type") {
                Some(t) => str_eq(t, "text"),
                None => false,
            };
            if !is_text {
                return Err(AppError::BadRequest("Only text parts can be edited".to_owned()));
            }
            Ok(part.with_field("text", Json::string(new_text)))
        },
    }
}

/// What became of a deletion.
pub fn read_delete_reply(reply: &HttpReply, what: &str) -> (r: Result<(), AppError>)
    ensures
        r is Ok == answer_of(reply@, true, "OpenCode delete "@ + what@) is Ok,
        r is Err ==> answer_of(reply@, true, "OpenCode delete "@ + what@) == Err::<
            Seq<char>,
            AppErrorV,
        >(r->Err_0@),
{
    let name = cat("OpenCode delete ", what);
    read_acceptance(reply, true, name.as_str())
}

/// What became of a request about the session.
pub fn read_session_reply(reply: &HttpReply) -> (r: Result<Json, AppError>)
    ensures
        outcome(r) == json_answer(
            reply@,
            true,
            true,
            "OpenCode session request"@,
            "OpenCode session response"@,
        ),
{
    read_json_answer(
        reply,
        true,
        true,
        "OpenCode session request",
        "OpenCode session response",
    )
}

/// What became of a request about the server as a whole.
pub fn read_config_reply(reply: &HttpReply) -> (r: Result<Json, AppError>)
    ensures
        outcome(r) == json_answer(
            reply@,
            true,
            true,
            "OpenCode global-config request"@,
            "OpenCode global-config response"@,
        ),
{
    read_json_answer(
        reply,
        true,
        true,
        "OpenCode global-config request",
        "OpenCode global-config response",
    )
}

/// The message whose part is edited.
pub fn read_message_reply(reply: &HttpReply) -> (r: Result<Json, AppError>)
    ensures
        outcome(r) == match reply@ {
            HttpReplyV::Refused { status, body } => Err(
                AppErrorV::BadGateway("OpenCode get message returned "@ + status),
            ),
            _ => json_answer(
                reply@,
                false,
                true,
                "OpenCode get message"@,
                "OpenCode message response"@,
            ),
        },
{
    match reply {
        HttpReply::Refused { status, body: _ } => Err(
            AppError::BadGateway(cat("OpenCode get message returned ", status.as_str())),
        ),
        _ => read_json_answer(
            reply,
            false,
            true,
            "OpenCode get message",
            "OpenCode message response",
        ),
    }
}

/// What became of an edit.
pub fn read_patch_reply(reply: &HttpReply) -> (r: Result<(), AppError>)
    ensures
        r is Ok == answer_of(reply@, true, "OpenCode patch part"@) is Ok,
        r is Err ==> answer_of(reply@, true, "OpenCode patch part"@) == Err::<Seq<char>, AppErrorV>(
            r->Err_0@,
        ),
{
    read_acceptance(reply, true, "OpenCode patch part")
}

/// Where a session is forked: before the message that follows a given one, as the
/// server leaves out the message that it is told; nowhere where the whole session is
/// copied.
pub open spec fn fork_point(message_id: Option<Seq<char>>, transcript: JsonV) -> Option<Seq<char>> {
    match if_begins(message_id, "msg"@) {
        Some(m) => match transcript.items() {
            Some(a) => successor(message_ids(a), m),
            None => None,
        },
        None => None,
    }
}

proof fn lemma_successor(ids: Seq<Seq<char>>, x: Seq<char>) -> (i: int)
    requires
        successor(ids, x) is Some,
    ensures
        0 <= i < ids.len() - 1,
        ids[i] == x,
        forall|j: int| 0 <= j < i ==> ids[j] != x,
        successor(ids, x) == Some(ids[i + 1]),
    decreases ids.len(),
{
    if ids[0] == x {
        0
    } else {
        let k = lemma_successor(ids.drop_first(), x);
        assert forall|j: int| 0 <= j < k + 1 implies ids[j] != x by {
            if j > 0 {
                assert(ids.drop_first()[j - 1] == ids[j]);
            }
        }
        assert(ids.drop_first()[k] == ids[k + 1]);
        assert(ids.drop_first()[k + 1] == ids[k + 2]);
        k + 1
    }
}

/// A fork keeps the message that it is made at: the server is told the message right
/// behind it.
pub proof fn a_fork_keeps_its_message(message_id: Seq<char>, messages: Seq<JsonV>)
    requires
        begins(message_id, "msg"@),
        fork_point(Some(message_id), JsonV::Array(messages)) is Some,
    ensures
        exists|i: int|
            0 <= i < message_ids(messages).len() - 1 && #[trigger] message_ids(messages)[i]
                == message_id && fork_point(Some(message_id), JsonV::Array(messages)) == Some(
                message_ids(messages)[i + 1],
            ),
{
    let i = lemma_successor(message_ids(messages), message_id);
    assert(message_ids(messages)[i] == message_id);
}

proof fn lemma_no_successor(ids: Seq<Seq<char>>, x: Seq<char>)
    requires
        successor(ids, x) is None,
        ids.contains(x),
        ids.no_duplicates(),
    ensures
        ids.last() == x,
    decreases ids.len(),
{
    let at = choose|i: int| 0 <= i < ids.len() && ids[i] == x;
    assert(ids[at] == x);
    if ids[0] != x {
        let rest = ids.drop_first();
        assert(rest[at - 1] == x);
        assert forall|i: int, j: int| 0 <= i < rest.len() && 0 <= j < rest.len() && i != j implies rest[i]
            != rest[j] by {
            assert(rest[i] == ids[i + 1] && rest[j] == ids[j + 1]);
        }
        lemma_no_successor(rest, x);
        assert(rest.last() == ids.last());
    }
}

/// Nothing is cut off where the message is the last one, or is not there: then, and
/// only then, the whole session is copied.
pub proof fn a_fork_at_the_end_keeps_everything(message_id: Seq<char>, messages: Seq<JsonV>)
    requires
        begins(message_id, "msg"@),
        message_ids(messages).no_duplicates(),
    ensures
        fork_point(Some(message_id), JsonV::Array(messages)) is None <==> !message_ids(
            messages,
        ).contains(message_id) || message_ids(messages).last() == message_id,
{
    let ids = message_ids(messages);
    if successor(ids, message_id) is None {
        if ids.contains(message_id) {
            lemma_no_successor(ids, message_id);
        }
    } else {
        let i = lemma_successor(ids, message_id);
        assert(ids.contains(ids[i]));
        assert(ids[i] != ids[ids.len() - 1]);
    }
}

/// The session that a fork made.
pub fn forked_session(answer: &Json) -> (r: Result<String, AppError>)
    ensures
        outcome(r) == match answer@.field_text("id"@) {
            Some(id) => Ok(id),
            None => Err(
                AppErrorV::BadGateway("OpenCode fork response missing id: "@ + json_text(answer@)),
            ),
        },
{
    match answer.get_str("id") {
        Some(id) => Ok(id.to_owned()),
        None => {
            let text = answer.to_text();
            Err(AppError::BadGateway(cat("OpenCode fork response missing id: ", text.as_str())))
        },
    }
}

/// The link that shares a session.
pub fn shared_link(answer: &Json) -> (r: Result<String, AppError>)
    ensures
        outcome(r) == match nested_text(answer@, "share"@, "url"@) {
            Some(url) => Ok(url),
            None => Err(
                AppErrorV::BadGateway(
                    "OpenCode share response missing share.url: "@ + json_text(answer@),
                ),
            ),
        },
{
    let url = match answer.get("share") {
        Some(s) => s.get_str("url"),
        None => None,
    };
    match url {
        Some(u) => Ok(u.to_owned()),
        None => {
            let text = answer.to_text();
            Err(
                AppError::BadGateway(
                    cat("OpenCode share response missing share.url: ", text.as_str()),
                ),
            )
        },
    }
}

/// The session in the answer to a creation.
pub open spec fn created_session_of(answer: JsonV) -> Result<Seq<char>, AppErrorV> {
    match answer.field_text("id"@) {
        Some(id) => Ok(id),
        None => Err(
            AppErrorV::Internal("OpenCode create session response missing id: "@ + json_text(answer)),
        ),
    }
}

/// The session in the answer to a creation.
pub fn created_session(answer: &Json) -> (r: Result<String, AppError>)
    ensures
        outcome(r) == created_session_of(answer@),
{
    match answer.get_str("id") {
        Some(id) => Ok(id.to_owned()),
        None => {
            let text = answer.to_text();
            Err(
                AppError::Internal(
                    cat("OpenCode create session response missing id: ", text.as_str()),
                ),
            )
        },
    }
}

/// The session that a creation led to.
pub open spec fn creation_result(reply: HttpReplyV) -> Result<Seq<char>, AppErrorV> {
    match json_answer(
        reply,
        false,
        false,
        "OpenCode create session"@,
        "OpenCode create session response"@,
    ) {
        Ok(v) => created_session_of(v),
        Err(e) => Err(e),
    }
}

/// The session that a creation led to.
pub fn read_creation_reply(reply: &HttpReply) -> (r: Result<String, AppError>)
    ensures
        outcome(r) == creation_result(reply@),
{
    match read_json_answer(
        reply,
        false,
        false,
        "OpenCode create session",
        "OpenCode create session response",
    ) {
        Ok(v) => created_session(&v),
        Err(e) => Err(e),
    }
}

/// The model that was selected is the one that is told, and `provider::model` selects
/// both.
pub proof fn a_selected_model_reads_back(
    m: RemoteAgentManagerV,
    provider: Seq<char>,
    model: Seq<char>,
)
    requires
        m.remote_config.is_opencode(),
        colons_at(provider + "::"@, 0) == provider.len(),
    ensures
        m.with_model(provider + "::"@ + model).current_model() == Some(model),
        m.with_model(provider + "::"@ + model).current_provider() == provider,
{
    reveal_strlit("::");
    let head = provider + "::"@;
    let id = head + model;
    assert(id =~= provider + "::"@ + model);
    lemma_colons_at(head, model, 0);
    assert(id.take(provider.len() as int) =~= provider);
    assert(id.skip(provider.len() as int + 2) =~= model);
    lemma_model_fields(model, provider, "default"@);
}

proof fn lemma_colons_at(a: Seq<char>, b: Seq<char>, from: int)
    requires
        0 <= from,
        colons_at(a, from) + 1 < a.len(),
    ensures
        colons_at(a + b, from) == colons_at(a, from),
    decreases a.len() - from,
{
    let s = a + b;
    if from + 1 < a.len() {
        assert(s[from] == a[from] && s[from + 1] == a[from + 1]);
        if !(a[from] == ':' && a[from + 1] == ':') {
            lemma_colons_at(a, b, from + 1);
        }
    }
}

/// A model that is selected without its provider keeps the provider.
pub proof fn a_bare_model_keeps_the_provider(m: RemoteAgentManagerV, model: Seq<char>)
    requires
        m.remote_config.is_opencode(),
        model_parts(model) is None,
    ensures
        m.with_model(model).current_model() == Some(model),
        m.with_model(model).current_provider() == m.current_provider(),
{
    lemma_model_fields(model, m.current_provider(), "default"@);
}

proof fn lemma_model_fields(model: Seq<char>, provider: Seq<char>, variant: Seq<char>)
    ensures
        model_json(model, provider, variant).field_text("modelID"@) == Some(model),
        model_json(model, provider, variant).field_text("providerID"@) == Some(provider),
{
    crate::payloads::desired_model_round_trip(
        crate::payloads::DesiredModelV { model_id: model, provider_id: provider, variant },
    );
}

/// A part that is edited has the new words, and nothing else of it changes.
pub proof fn an_edit_changes_the_words_alone(
    message: JsonV,
    message_id: Seq<char>,
    part_id: Seq<char>,
    new_text: Seq<char>,
    key: Seq<char>,
    part: JsonV,
)
    requires
        message.field_items("parts"@) is Some,
        part_with_id(message.field_items("parts"@)->0, part_id) == Some(part),
        part.field_text("type"@) == Some("text"@),
    ensures
        edited_part_of(message, message_id, part_id, new_text) is Ok,
        ({
            let n = edited_part_of(message, message_id, part_id, new_text)->Ok_0;
            &&& n.field_text("text"@) == Some(new_text)
            &&& key != "text"@ ==> n.field(key) == part.field(key)
        }),
{
    match part {
        JsonV::Object(o) => {
            field_reads_back(o, "text"@, JsonV::Str(new_text), key);
        },
        _ => {},
    }
}

impl RemoteAgentManager {
    /// Deals with the text of an event.
    pub fn handle_opencode_sse_event(&mut self, data: &str, out: &Outside) -> (fx: Vec<Effect>)
        ensures
            final(self)@ == (RemoteAgentManagerV {
                state: on_data(
                    old(self)@.state,
                    data@,
                    out@,
                    old(self)@.remote_config.is_opencode(),
                ).state,
                ..old(self)@
            }),
            fx.deep_view() == on_data(
                old(self)@.state,
                data@,
                out@,
                old(self)@.remote_config.is_opencode(),
            ).effects,
    {
        let opencode = self.is_opencode();
        self.state.handle_opencode_sse_event(data, out, opencode)
    }

    /// Takes an answer of the user to the confirmation `call_id`.
    pub fn confirm(&mut self, call_id: &str, data: &Json, always_allow: bool, now: i64) -> (fx: Vec<
        Effect,
    >)
        ensures
            final(self)@ == (RemoteAgentManagerV {
                state: confirmed(
                    old(self)@.state,
                    call_id@,
                    data@,
                    always_allow,
                    now,
                    old(self)@.remote_config.is_opencode(),
                ).state,
                ..old(self)@
            }),
            fx.deep_view() == confirmed(
                old(self)@.state,
                call_id@,
                data@,
                always_allow,
                now,
                old(self)@.remote_config.is_opencode(),
            ).effects,
    {
        let opencode = self.is_opencode();
        self.state.confirm(call_id, data, always_allow, now, opencode)
    }

    /// Refuses everything that waits for the user.
    pub fn reject_pending_confirmations(&mut self, now: i64) -> (fx: Vec<Effect>)
        ensures
            final(self)@ == (RemoteAgentManagerV {
                state: all_rejected(
                    old(self)@.state,
                    now,
                    old(self)@.remote_config.is_opencode(),
                ).state,
                ..old(self)@
            }),
            fx.deep_view() == all_rejected(
                old(self)@.state,
                now,
                old(self)@.remote_config.is_opencode(),
            ).effects,
    {
        let opencode = self.is_opencode();
        self.state.reject_pending_confirmations(now, opencode)
    }

    /// The confirmations that wait for the user.
    pub fn get_confirmations(&self) -> (r: Vec<Confirmation>)
        ensures
            r.deep_view() == self@.state.confirmations,
    {
        self.state.get_confirmations()
    }

    /// The session to come back to; none with another protocol.
    pub fn get_session_key(&self) -> (r: Option<String>)
        ensures
            r.deep_view() == self@.session_key(),
    {
        if self.is_opencode() {
            copy_opt(&self.state.opencode_session_id)
        } else {
            None
        }
    }

    /// Whether the user approved an action for the rest of the session.
    pub fn check_approval(&self, action: &str, command_type: &Option<String>) -> (r: bool)
        ensures
            r == self@.state.approval_memory.contains(
                ApprovalKeyV { action: Some(action@), command_type: command_type.deep_view() },
            ),
    {
        self.state.check_approval(action, command_type)
    }
}

} // verus!

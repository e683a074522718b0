//! The vocabulary shared by the agent's parts: stream events, confirmations,
//! errors, and the effects that a decision asks for.
use vstd::prelude::*;

use crate::json::{trees, Json, JsonV};

verus! {

/// A copy of an optional string.
pub fn copy_opt(s: &Option<String>) -> (r: Option<String>)
    ensures
        r.deep_view() == s.deep_view(),
{
    match s {
        Some(t) => Some(t.clone()),
        None => None,
    }
}

/// An owned copy of an optional borrowed string.
pub fn own_opt(s: Option<&str>) -> (r: Option<String>)
    ensures
        r.deep_view() == crate::json::opt_str(s),
{
    match s {
        Some(t) => Some(t.to_owned()),
        None => None,
    }
}

/// A copy of a list of strings.
pub fn copy_strings(v: &Vec<String>) -> (r: Vec<String>)
    ensures
        r.deep_view() == v.deep_view(),
{
    let mut out: Vec<String> = Vec::new();
    let mut i: usize = 0;
    while i < v.len()
        invariant
            i <= v.len(),
            out.len() == i,
            forall|k: int| 0 <= k < i ==> (#[trigger] out@[k])@ == v@[k]@,
        decreases v.len() - i,
    {
        out.push(v[i].clone());
        i += 1;
    }
    assert(out.deep_view() =~= v.deep_view());
    out
}

/// A copy of a list of string pairs.
pub fn copy_pairs(v: &Vec<(String, String)>) -> (r: Vec<(String, String)>)
    ensures
        r.deep_view() == v.deep_view(),
{
    let mut out: Vec<(String, String)> = Vec::new();
    let mut i: usize = 0;
    while i < v.len()
        invariant
            i <= v.len(),
            out.len() == i,
            forall|k: int| 0 <= k < i ==> (#[trigger] out@[k]).deep_view() == v@[k].deep_view(),
        decreases v.len() - i,
    {
        out.push((v[i].0.clone(), v[i].1.clone()));
        i += 1;
    }
    assert(out.deep_view() =~= v.deep_view());
    out
}

/// A copy of an optional list of string pairs.
pub fn copy_opt_pairs(v: &Option<Vec<(String, String)>>) -> (r: Option<Vec<(String, String)>>)
    ensures
        r.deep_view() == v.deep_view(),
{
    match v {
        Some(p) => Some(copy_pairs(p)),
        None => None,
    }
}

/// A copy of an optional JSON value.
pub fn copy_opt_json(j: &Option<Json>) -> (r: Option<Json>)
    ensures
        r.deep_view() == j.deep_view(),
{
    match j {
        Some(v) => Some(v.copy()),
        None => None,
    }
}

/// A copy of a list of JSON values.
pub fn copy_jsons(v: &Vec<Json>) -> (r: Vec<Json>)
    ensures
        r.deep_view() == v.deep_view(),
        trees(r@) == trees(v@),
{
    let mut out: Vec<Json> = Vec::new();
    let mut i: usize = 0;
    while i < v.len()
        invariant
            i <= v.len(),
            out.len() == i,
            forall|k: int| 0 <= k < i ==> (#[trigger] out@[k])@ == v@[k]@,
        decreases v.len() - i,
    {
        out.push(v[i].copy());
        i += 1;
    }
    assert(out.deep_view() =~= v.deep_view());
    assert(trees(out@) =~= trees(v@));
    out
}

/// What a request to the agent can fail with.
#[derive(Debug, PartialEq, Eq)]
pub enum AppError {
    /// The request cannot be met as it was made.
    BadRequest(String),
    /// What the request names does not exist.
    NotFound(String),
    /// The request does not fit the present state.
    Conflict(String),
    /// The conversation can no longer be continued.
    ConversationArchived(String),
    /// The server behind the agent failed.
    BadGateway(String),
    /// The agent itself failed.
    Internal(String),
}

/// Model of [`AppError`].
pub enum AppErrorV {
    BadRequest(Seq<char>),
    NotFound(Seq<char>),
    Conflict(Seq<char>),
    ConversationArchived(Seq<char>),
    BadGateway(Seq<char>),
    Internal(Seq<char>),
}

impl View for AppError {
    type V = AppErrorV;

    open spec fn view(&self) -> AppErrorV {
        match self {
            AppError::BadRequest(x) => AppErrorV::BadRequest(x.deep_view()),
            AppError::NotFound(x) => AppErrorV::NotFound(x.deep_view()),
            AppError::Conflict(x) => AppErrorV::Conflict(x.deep_view()),
            AppError::ConversationArchived(x) => AppErrorV::ConversationArchived(x.deep_view()),
            AppError::BadGateway(x) => AppErrorV::BadGateway(x.deep_view()),
            AppError::Internal(x) => AppErrorV::Internal(x.deep_view()),
        }
    }
}

impl DeepView for AppError {
    type V = AppErrorV;

    open spec fn deep_view(&self) -> AppErrorV {
        self@
    }
}

impl AppError {
    /// An equal value.
    pub fn copy(&self) -> (r: AppError)
        ensures
            r@ == self@,
    {
        match self {
            AppError::BadRequest(x) => AppError::BadRequest(x.clone()),
            AppError::NotFound(x) => AppError::NotFound(x.clone()),
            AppError::Conflict(x) => AppError::Conflict(x.clone()),
            AppError::ConversationArchived(x) => AppError::ConversationArchived(x.clone()),
            AppError::BadGateway(x) => AppError::BadGateway(x.clone()),
            AppError::Internal(x) => AppError::Internal(x.clone()),
        }
    }
}

/// Where a conversation stands.
#[derive(Debug, Clone, Copy, PartialEq, Eq, Structural)]
pub enum ConversationStatus {
    Pending,
    Running,
    Finished,
}

impl View for ConversationStatus {
    type V = ConversationStatus;

    open spec fn view(&self) -> ConversationStatus {
        *self
    }
}

impl DeepView for ConversationStatus {
    type V = ConversationStatus;

    open spec fn deep_view(&self) -> ConversationStatus {
        *self
    }
}

/// State of the link to the remote server.
#[derive(Debug, Clone, Copy, PartialEq, Eq, Structural)]
pub enum RemoteAgentStatus {
    Unknown,
    Connected,
    Reconnecting,
    Error,
}

impl View for RemoteAgentStatus {
    type V = RemoteAgentStatus;

    open spec fn view(&self) -> RemoteAgentStatus {
        *self
    }
}

impl DeepView for RemoteAgentStatus {
    type V = RemoteAgentStatus;

    open spec fn deep_view(&self) -> RemoteAgentStatus {
        *self
    }
}

/// The user's decision for a single shell command.
#[derive(Debug, Clone, Copy, PartialEq, Eq, Structural)]
pub enum ShellApproval {
    Allow,
    Reject,
    TimedOut,
}

impl View for ShellApproval {
    type V = ShellApproval;

    open spec fn view(&self) -> ShellApproval {
        *self
    }
}

impl DeepView for ShellApproval {
    type V = ShellApproval;

    open spec fn deep_view(&self) -> ShellApproval {
        *self
    }
}

/// The kinds of agent.
#[derive(Debug, Clone, Copy, PartialEq, Eq, Structural)]
pub enum AgentType {
    Gemini,
    Acp,
    OpenclawGateway,
    Nanobot,
    Remote,
    Aionrs,
}

impl View for AgentType {
    type V = AgentType;

    open spec fn view(&self) -> AgentType {
        *self
    }
}

impl DeepView for AgentType {
    type V = AgentType;

    open spec fn deep_view(&self) -> AgentType {
        *self
    }
}

/// The phase of a streamed tool input.
#[derive(Debug, Clone, Copy, PartialEq, Eq, Structural)]
pub enum ToolInputPhase {
    Started,
    Delta,
    Ended,
}

impl View for ToolInputPhase {
    type V = ToolInputPhase;

    open spec fn view(&self) -> ToolInputPhase {
        *self
    }
}

impl DeepView for ToolInputPhase {
    type V = ToolInputPhase;

    open spec fn deep_view(&self) -> ToolInputPhase {
        *self
    }
}

/// One choice that a confirmation offers.
#[derive(Debug, PartialEq, Eq)]
pub struct ConfirmationOption {
    pub label: String,
    pub value: Json,
    pub params: Option<Vec<(String, String)>>,
}

/// Model of [`ConfirmationOption`].
pub struct ConfirmationOptionV {
    pub label: Seq<char>,
    pub value: JsonV,
    pub params: Option<Seq<(Seq<char>, Seq<char>)>>,
}

impl View for ConfirmationOption {
    type V = ConfirmationOptionV;

    open spec fn view(&self) -> ConfirmationOptionV {
        ConfirmationOptionV {
            label: self.label.deep_view(),
            value: self.value.deep_view(),
            params: self.params.deep_view(),
        }
    }
}

impl DeepView for ConfirmationOption {
    type V = ConfirmationOptionV;

    open spec fn deep_view(&self) -> ConfirmationOptionV {
        self@
    }
}

impl ConfirmationOption {
    /// An equal value.
    pub fn copy(&self) -> (r: ConfirmationOption)
        ensures
            r@ == self@,
    {
        ConfirmationOption {
            label: self.label.clone(),
            value: self.value.copy(),
            params: copy_opt_pairs(&self.params),
        }
    }
}

/// Equal values, in the same order.
pub fn copy_confirmation_options(v: &Vec<ConfirmationOption>) -> (r: Vec<ConfirmationOption>)
    ensures
        r.deep_view() == v.deep_view(),
{
    let mut out: Vec<ConfirmationOption> = Vec::new();
    let mut i: usize = 0;
    while i < v.len()
        invariant
            i <= v.len(),
            out.len() == i,
            forall|k: int| 0 <= k < i ==> (#[trigger] out@[k]).deep_view() == v@[k].deep_view(),
        decreases v.len() - i,
    {
        out.push(v[i].copy());
        i += 1;
    }
    assert(out.deep_view() =~= v.deep_view());
    out
}

/// A question to the user that blocks the agent until it is answered.
#[derive(Debug, PartialEq, Eq)]
pub struct Confirmation {
    pub id: String,
    pub call_id: String,
    pub title: Option<String>,
    pub action: Option<String>,
    pub description: String,
    pub command_type: Option<String>,
    pub options: Vec<ConfirmationOption>,
    pub session_id: Option<String>,
    pub parent_session_id: Option<String>,
}

/// Model of [`Confirmation`].
pub struct ConfirmationV {
    pub id: Seq<char>,
    pub call_id: Seq<char>,
    pub title: Option<Seq<char>>,
    pub action: Option<Seq<char>>,
    pub description: Seq<char>,
    pub command_type: Option<Seq<char>>,
    pub options: Seq<ConfirmationOptionV>,
    pub session_id: Option<Seq<char>>,
    pub parent_session_id: Option<Seq<char>>,
}

impl View for Confirmation {
    type V = ConfirmationV;

    open spec fn view(&self) -> ConfirmationV {
        ConfirmationV {
            id: self.id.deep_view(),
            call_id: self.call_id.deep_view(),
            title: self.title.deep_view(),
            action: self.action.deep_view(),
            description: self.description.deep_view(),
            command_type: self.command_type.deep_view(),
            options: self.options.deep_view(),
            session_id: self.session_id.deep_view(),
            parent_session_id: self.parent_session_id.deep_view(),
        }
    }
}

impl DeepView for Confirmation {
    type V = ConfirmationV;

    open spec fn deep_view(&self) -> ConfirmationV {
        self@
    }
}

impl Confirmation {
    /// An equal value.
    pub fn copy(&self) -> (r: Confirmation)
        ensures
            r@ == self@,
    {
        Confirmation {
            id: self.id.clone(),
            call_id: self.call_id.clone(),
            title: copy_opt(&self.title),
            action: copy_opt(&self.action),
            description: self.description.clone(),
            command_type: copy_opt(&self.command_type),
            options: copy_confirmation_options(&self.options),
            session_id: copy_opt(&self.session_id),
            parent_session_id: copy_opt(&self.parent_session_id),
        }
    }
}

/// Equal values, in the same order.
pub fn copy_confirmations(v: &Vec<Confirmation>) -> (r: Vec<Confirmation>)
    ensures
        r.deep_view() == v.deep_view(),
{
    let mut out: Vec<Confirmation> = Vec::new();
    let mut i: usize = 0;
    while i < v.len()
        invariant
            i <= v.len(),
            out.len() == i,
            forall|k: int| 0 <= k < i ==> (#[trigger] out@[k]).deep_view() == v@[k].deep_view(),
        decreases v.len() - i,
    {
        out.push(v[i].copy());
        i += 1;
    }
    assert(out.deep_view() =~= v.deep_view());
    out
}

/// A classified session error.
#[derive(Debug, PartialEq, Eq)]
pub struct TypedErrorData {
    pub message: String,
    pub kind: String,
    pub metadata: Option<Json>,
    pub recoverable: bool,
}

/// Model of [`TypedErrorData`].
pub struct TypedErrorDataV {
    pub message: Seq<char>,
    pub kind: Seq<char>,
    pub metadata: Option<JsonV>,
    pub recoverable: bool,
}

impl View for TypedErrorData {
    type V = TypedErrorDataV;

    open spec fn view(&self) -> TypedErrorDataV {
        TypedErrorDataV {
            message: self.message.deep_view(),
            kind: self.kind.deep_view(),
            metadata: self.metadata.deep_view(),
            recoverable: self.recoverable.deep_view(),
        }
    }
}

impl DeepView for TypedErrorData {
    type V = TypedErrorDataV;

    open spec fn deep_view(&self) -> TypedErrorDataV {
        self@
    }
}

impl TypedErrorData {
    /// An equal value.
    pub fn copy(&self) -> (r: TypedErrorData)
        ensures
            r@ == self@,
    {
        TypedErrorData {
            message: self.message.clone(),
            kind: self.kind.clone(),
            metadata: copy_opt_json(&self.metadata),
            recoverable: self.recoverable,
        }
    }
}

/// A tool's arguments as the model writes them.
#[derive(Debug, PartialEq, Eq)]
pub struct ToolInputEventData {
    pub session_id: String,
    pub parent_session_id: Option<String>,
    pub message_id: String,
    pub part_id: String,
    pub phase: ToolInputPhase,
    pub tool_name: Option<String>,
    pub input_delta: Option<String>,
    pub final_input: Option<Json>,
    pub started_at: Option<i64>,
    pub completed_at: Option<i64>,
}

/// Model of [`ToolInputEventData`].
pub struct ToolInputEventDataV {
    pub session_id: Seq<char>,
    pub parent_session_id: Option<Seq<char>>,
    pub message_id: Seq<char>,
    pub part_id: Seq<char>,
    pub phase: ToolInputPhase,
    pub tool_name: Option<Seq<char>>,
    pub input_delta: Option<Seq<char>>,
    pub final_input: Option<JsonV>,
    pub started_at: Option<i64>,
    pub completed_at: Option<i64>,
}

impl View for ToolInputEventData {
    type V = ToolInputEventDataV;

    open spec fn view(&self) -> ToolInputEventDataV {
        ToolInputEventDataV {
            session_id: self.session_id.deep_view(),
            parent_session_id: self.parent_session_id.deep_view(),
            message_id: self.message_id.deep_view(),
            part_id: self.part_id.deep_view(),
            phase: self.phase.deep_view(),
            tool_name: self.tool_name.deep_view(),
            input_delta: self.input_delta.deep_view(),
            final_input: self.final_input.deep_view(),
            started_at: self.started_at.deep_view(),
            completed_at: self.completed_at.deep_view(),
        }
    }
}

impl DeepView for ToolInputEventData {
    type V = ToolInputEventDataV;

    open spec fn deep_view(&self) -> ToolInputEventDataV {
        self@
    }
}

/// Progress of a running tool.
#[derive(Debug, PartialEq, Eq)]
pub struct ToolProgressEventData {
    pub session_id: String,
    pub parent_session_id: Option<String>,
    pub message_id: String,
    pub part_id: String,
    pub tool_name: String,
    pub progress: Json,
    pub at: i64,
}

/// Model of [`ToolProgressEventData`].
pub struct ToolProgressEventDataV {
    pub session_id: Seq<char>,
    pub parent_session_id: Option<Seq<char>>,
    pub message_id: Seq<char>,
    pub part_id: Seq<char>,
    pub tool_name: Seq<char>,
    pub progress: JsonV,
    pub at: i64,
}

impl View for ToolProgressEventData {
    type V = ToolProgressEventDataV;

    open spec fn view(&self) -> ToolProgressEventDataV {
        ToolProgressEventDataV {
            session_id: self.session_id.deep_view(),
            parent_session_id: self.parent_session_id.deep_view(),
            message_id: self.message_id.deep_view(),
            part_id: self.part_id.deep_view(),
            tool_name: self.tool_name.deep_view(),
            progress: self.progress.deep_view(),
            at: self.at.deep_view(),
        }
    }
}

impl DeepView for ToolProgressEventData {
    type V = ToolProgressEventDataV;

    open spec fn deep_view(&self) -> ToolProgressEventDataV {
        self@
    }
}

/// What an agent tells its listeners.
#[allow(inconsistent_fields)]
#[derive(Debug, PartialEq, Eq)]
pub enum AgentStreamEvent {
    /// A turn started.
    Start { session_id: Option<String> },
    /// The turn is over; nothing of it follows.
    Finish { session_id: Option<String> },
    /// Text of the answer.
    Text { content: String },
    /// Text of the reasoning.
    Thinking { content: String },
    /// The session failed.
    Error { message: String, code: Option<String>, kind: Option<String>, metadata: Option<Json>, recoverable: Option<bool> },
    /// The session changed its status.
    SessionStatus { session_id: String, status: String, reason: Option<String> },
    /// The session went idle.
    SessionIdle { session_id: String, reason: String, at: i64 },
    /// The session failed and went on.
    SessionErrorRecovered { message_id: String, part_id: String, error: TypedErrorData, recovery_action: String },
    /// A request to the model is tried again.
    Retry { message_id: String, part_id: String, attempt: u64, reason: String, retry_after: Option<u64>, provider_hint: Option<String> },
    /// The model in use.
    AcpModelInfo(Json),
    /// The mode in use.
    AcpModeInfo(Json),
    /// How full the context window is.
    AcpContextUsage(Json),
    /// The model that writes a message.
    AssistantModelInfo { message_id: String, provider_id: String, model_id: String },
    /// The agent's to-do list.
    Plan { session_id: Option<String>, entries: Vec<Json> },
    /// A confirmation to put to the user.
    AcpPermission(Confirmation),
    /// A tool's arguments.
    ToolInput(ToolInputEventData),
    /// A tool's progress.
    ToolProgress(ToolProgressEventData),
    /// A tool call: announced where `first`, updated otherwise.
    AcpToolCall { tool_call_id: String, first: bool, update: Json },
    /// The session's history was summarised.
    OpencodeSessionCompacted { summary: String, tokens_reclaimed: u64, original_start_message_id: String, original_end_message_id: String },
}

/// Model of [`AgentStreamEvent`].
#[allow(inconsistent_fields)]
pub enum AgentStreamEventV {
    Start { session_id: Option<Seq<char>> },
    Finish { session_id: Option<Seq<char>> },
    Text { content: Seq<char> },
    Thinking { content: Seq<char> },
    Error { message: Seq<char>, code: Option<Seq<char>>, kind: Option<Seq<char>>, metadata: Option<JsonV>, recoverable: Option<bool> },
    SessionStatus { session_id: Seq<char>, status: Seq<char>, reason: Option<Seq<char>> },
    SessionIdle { session_id: Seq<char>, reason: Seq<char>, at: i64 },
    SessionErrorRecovered { message_id: Seq<char>, part_id: Seq<char>, error: TypedErrorDataV, recovery_action: Seq<char> },
    Retry { message_id: Seq<char>, part_id: Seq<char>, attempt: u64, reason: Seq<char>, retry_after: Option<u64>, provider_hint: Option<Seq<char>> },
    AcpModelInfo(JsonV),
    AcpModeInfo(JsonV),
    AcpContextUsage(JsonV),
    AssistantModelInfo { message_id: Seq<char>, provider_id: Seq<char>, model_id: Seq<char> },
    Plan { session_id: Option<Seq<char>>, entries: Seq<JsonV> },
    AcpPermission(ConfirmationV),
    ToolInput(ToolInputEventDataV),
    ToolProgress(ToolProgressEventDataV),
    AcpToolCall { tool_call_id: Seq<char>, first: bool, update: JsonV },
    OpencodeSessionCompacted { summary: Seq<char>, tokens_reclaimed: u64, original_start_message_id: Seq<char>, original_end_message_id: Seq<char> },
}

impl View for AgentStreamEvent {
    type V = AgentStreamEventV;

    open spec fn view(&self) -> AgentStreamEventV {
        match self {
            AgentStreamEvent::Start { session_id } => AgentStreamEventV::Start { session_id: session_id.deep_view() },
            AgentStreamEvent::Finish { session_id } => AgentStreamEventV::Finish { session_id: session_id.deep_view() },
            AgentStreamEvent::Text { content } => AgentStreamEventV::Text { content: content.deep_view() },
            AgentStreamEvent::Thinking { content } => AgentStreamEventV::Thinking { content: content.deep_view() },
            AgentStreamEvent::Error { message, code, kind, metadata, recoverable } => AgentStreamEventV::Error { message: message.deep_view(), code: code.deep_view(), kind: kind.deep_view(), metadata: metadata.deep_view(), recoverable: recoverable.deep_view() },
            AgentStreamEvent::SessionStatus { session_id, status, reason } => AgentStreamEventV::SessionStatus { session_id: session_id.deep_view(), status: status.deep_view(), reason: reason.deep_view() },
            AgentStreamEvent::SessionIdle { session_id, reason, at } => AgentStreamEventV::SessionIdle { session_id: session_id.deep_view(), reason: reason.deep_view(), at: at.deep_view() },
            AgentStreamEvent::SessionErrorRecovered { message_id, part_id, error, recovery_action } => AgentStreamEventV::SessionErrorRecovered { message_id: message_id.deep_view(), part_id: part_id.deep_view(), error: error.deep_view(), recovery_action: recovery_action.deep_view() },
            AgentStreamEvent::Retry { message_id, part_id, attempt, reason, retry_after, provider_hint } => AgentStreamEventV::Retry { message_id: message_id.deep_view(), part_id: part_id.deep_view(), attempt: attempt.deep_view(), reason: reason.deep_view(), retry_after: retry_after.deep_view(), provider_hint: provider_hint.deep_view() },
            AgentStreamEvent::AcpModelInfo(x) => AgentStreamEventV::AcpModelInfo(x.deep_view()),
            AgentStreamEvent::AcpModeInfo(x) => AgentStreamEventV::AcpModeInfo(x.deep_view()),
            AgentStreamEvent::AcpContextUsage(x) => AgentStreamEventV::AcpContextUsage(x.deep_view()),
            AgentStreamEvent::AssistantModelInfo { message_id, provider_id, model_id } => AgentStreamEventV::AssistantModelInfo { message_id: message_id.deep_view(), provider_id: provider_id.deep_view(), model_id: model_id.deep_view() },
            AgentStreamEvent::Plan { session_id, entries } => AgentStreamEventV::Plan { session_id: session_id.deep_view(), entries: entries.deep_view() },
            AgentStreamEvent::AcpPermission(x) => AgentStreamEventV::AcpPermission(x.deep_view()),
            AgentStreamEvent::ToolInput(x) => AgentStreamEventV::ToolInput(x.deep_view()),
            AgentStreamEvent::ToolProgress(x) => AgentStreamEventV::ToolProgress(x.deep_view()),
            AgentStreamEvent::AcpToolCall { tool_call_id, first, update } => AgentStreamEventV::AcpToolCall { tool_call_id: tool_call_id.deep_view(), first: first.deep_view(), update: update.deep_view() },
            AgentStreamEvent::OpencodeSessionCompacted { summary, tokens_reclaimed, original_start_message_id, original_end_message_id } => AgentStreamEventV::OpencodeSessionCompacted { summary: summary.deep_view(), tokens_reclaimed: tokens_reclaimed.deep_view(), original_start_message_id: original_start_message_id.deep_view(), original_end_message_id: original_end_message_id.deep_view() },
        }
    }
}

impl DeepView for AgentStreamEvent {
    type V = AgentStreamEventV;

    open spec fn deep_view(&self) -> AgentStreamEventV {
        self@
    }
}

/// What a decision asks the surrounding program to do, in order.
#[derive(Debug, PartialEq, Eq)]
pub enum Effect {
    /// Tell the listeners.
    Emit(AgentStreamEvent),
    /// Note that the agent is alive.
    BumpActivity,
    /// Move the conversation to a status.
    TransitionTo(ConversationStatus),
    /// Let another conversation take the server's turn slot.
    ReleaseTurnSlot,
    /// Answer a permission request at the server. Where the user gave the answer,
    /// the server's consent is to be reported back.
    ReplyPermission { request_id: String, session_id: Option<String>, reply: String, by_user: bool },
    /// Answer a question at the server.
    ReplyQuestion { request_id: String, answers: Vec<Vec<String>> },
    /// Refuse a question at the server.
    RejectQuestion { request_id: String },
    /// Wake a parked shell command with the decision.
    ResolveShell { call_id: String, approval: ShellApproval },
    /// Wake a parked elicitation; `None` declines it.
    ResolveElicitation { call_id: String, payload: Option<Json> },
    /// Announce a sub-agent session.
    StartChild { parent_id: String, child_id: String },
    /// Close a sub-agent session.
    CompleteChild { parent_id: String, child_id: String, failed: bool, error: Option<String> },
    /// Announce a sub-agent's progress.
    ReportChildProgress { parent_id: String, child_id: String },
    /// Note an event of an unknown type.
    NoteUnhandled { event_type: String, fingerprint: String },
}

/// Model of [`Effect`].
pub enum EffectV {
    Emit(AgentStreamEventV),
    BumpActivity,
    TransitionTo(ConversationStatus),
    ReleaseTurnSlot,
    ReplyPermission { request_id: Seq<char>, session_id: Option<Seq<char>>, reply: Seq<char>, by_user: bool },
    ReplyQuestion { request_id: Seq<char>, answers: Seq<Seq<Seq<char>>> },
    RejectQuestion { request_id: Seq<char> },
    ResolveShell { call_id: Seq<char>, approval: ShellApproval },
    ResolveElicitation { call_id: Seq<char>, payload: Option<JsonV> },
    StartChild { parent_id: Seq<char>, child_id: Seq<char> },
    CompleteChild { parent_id: Seq<char>, child_id: Seq<char>, failed: bool, error: Option<Seq<char>> },
    ReportChildProgress { parent_id: Seq<char>, child_id: Seq<char> },
    NoteUnhandled { event_type: Seq<char>, fingerprint: Seq<char> },
}

impl View for Effect {
    type V = EffectV;

    open spec fn view(&self) -> EffectV {
        match self {
            Effect::Emit(x) => EffectV::Emit(x.deep_view()),
            Effect::BumpActivity => EffectV::BumpActivity,
            Effect::TransitionTo(x) => EffectV::TransitionTo(x.deep_view()),
            Effect::ReleaseTurnSlot => EffectV::ReleaseTurnSlot,
            Effect::ReplyPermission { request_id, session_id, reply, by_user } => EffectV::ReplyPermission { request_id: request_id.deep_view(), session_id: session_id.deep_view(), reply: reply.deep_view(), by_user: by_user.deep_view() },
            Effect::ReplyQuestion { request_id, answers } => EffectV::ReplyQuestion { request_id: request_id.deep_view(), answers: answers.deep_view() },
            Effect::RejectQuestion { request_id } => EffectV::RejectQuestion { request_id: request_id.deep_view() },
            Effect::ResolveShell { call_id, approval } => EffectV::ResolveShell { call_id: call_id.deep_view(), approval: approval.deep_view() },
            Effect::ResolveElicitation { call_id, payload } => EffectV::ResolveElicitation { call_id: call_id.deep_view(), payload: payload.deep_view() },
            Effect::StartChild { parent_id, child_id } => EffectV::StartChild { parent_id: parent_id.deep_view(), child_id: child_id.deep_view() },
            Effect::CompleteChild { parent_id, child_id, failed, error } => EffectV::CompleteChild { parent_id: parent_id.deep_view(), child_id: child_id.deep_view(), failed: failed.deep_view(), error: error.deep_view() },
            Effect::ReportChildProgress { parent_id, child_id } => EffectV::ReportChildProgress { parent_id: parent_id.deep_view(), child_id: child_id.deep_view() },
            Effect::NoteUnhandled { event_type, fingerprint } => EffectV::NoteUnhandled { event_type: event_type.deep_view(), fingerprint: fingerprint.deep_view() },
        }
    }
}

impl DeepView for Effect {
    type V = EffectV;

    open spec fn deep_view(&self) -> EffectV {
        self@
    }
}

/// The model of a result.
pub open spec fn outcome<T: DeepView, E: DeepView>(r: Result<T, E>) -> Result<T::V, E::V> {
    match r {
        Ok(v) => Ok(v.deep_view()),
        Err(e) => Err(e.deep_view()),
    }
}

} // verus!

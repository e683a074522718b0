//! The layer between a conversation and an agent's protocol: what a turn comes to, and
//! what is done to stop one.
use vstd::prelude::*;

use crate::json::opt_str;
use crate::text::cat;
use crate::types::{outcome, own_opt, AgentStreamEvent, AgentStreamEventV, AppError, AppErrorV};

verus! {

/// How long a stopped turn is waited for, in seconds.
pub const CANCEL_ACK_SECS: u64 = 5;

/// Why a turn ended.
#[derive(Debug, PartialEq, Eq)]
pub enum StopReason {
    /// The agent was done.
    EndTurn,
    /// The user stopped it.
    Cancelled,
    /// The answer grew too long.
    MaxTokens,
    /// It took too many steps.
    MaxTurns,
    /// The agent refused.
    Refusal,
    /// Something else.
    Other(String),
}

/// Model of [`StopReason`].
pub enum StopReasonV {
    EndTurn,
    Cancelled,
    MaxTokens,
    MaxTurns,
    Refusal,
    Other(Seq<char>),
}

impl View for StopReason {
    type V = StopReasonV;

    open spec fn view(&self) -> StopReasonV {
        match self {
            StopReason::EndTurn => StopReasonV::EndTurn,
            StopReason::Cancelled => StopReasonV::Cancelled,
            StopReason::MaxTokens => StopReasonV::MaxTokens,
            StopReason::MaxTurns => StopReasonV::MaxTurns,
            StopReason::Refusal => StopReasonV::Refusal,
            StopReason::Other(x) => StopReasonV::Other(x.deep_view()),
        }
    }
}

impl DeepView for StopReason {
    type V = StopReasonV;

    open spec fn deep_view(&self) -> StopReasonV {
        self@
    }
}

impl StopReason {
    /// An equal value.
    pub fn copy(&self) -> (r: StopReason)
        ensures
            r@ == self@,
    {
        match self {
            StopReason::EndTurn => StopReason::EndTurn,
            StopReason::Cancelled => StopReason::Cancelled,
            StopReason::MaxTokens => StopReason::MaxTokens,
            StopReason::MaxTurns => StopReason::MaxTurns,
            StopReason::Refusal => StopReason::Refusal,
            StopReason::Other(x) => StopReason::Other(x.clone()),
        }
    }
}

/// What a turn came to.
#[derive(Debug, PartialEq, Eq)]
pub struct TurnSummary {
    pub session_id: Option<String>,
    pub stop_reason: Option<StopReason>,
}

/// Model of [`TurnSummary`].
pub struct TurnSummaryV {
    pub session_id: Option<Seq<char>>,
    pub stop_reason: Option<StopReasonV>,
}

impl View for TurnSummary {
    type V = TurnSummaryV;

    open spec fn view(&self) -> TurnSummaryV {
        TurnSummaryV {
            session_id: self.session_id.deep_view(),
            stop_reason: self.stop_reason.deep_view(),
        }
    }
}

impl DeepView for TurnSummary {
    type V = TurnSummaryV;

    open spec fn deep_view(&self) -> TurnSummaryV {
        self@
    }
}

/// A piece of an answer.
#[derive(Debug, PartialEq, Eq)]
pub struct ChunkPayload {
    pub event: AgentStreamEvent,
}

/// Model of [`ChunkPayload`].
pub struct ChunkPayloadV {
    pub event: AgentStreamEventV,
}

impl View for ChunkPayload {
    type V = ChunkPayloadV;

    open spec fn view(&self) -> ChunkPayloadV {
        ChunkPayloadV {
            event: self.event.deep_view(),
        }
    }
}

impl DeepView for ChunkPayload {
    type V = ChunkPayloadV;

    open spec fn deep_view(&self) -> ChunkPayloadV {
        self@
    }
}

/// The use of a tool.
#[derive(Debug, PartialEq, Eq)]
pub struct ToolUsePayload {
    pub call_id: String,
    pub tool_name: String,
}

/// Model of [`ToolUsePayload`].
pub struct ToolUsePayloadV {
    pub call_id: Seq<char>,
    pub tool_name: Seq<char>,
}

impl View for ToolUsePayload {
    type V = ToolUsePayloadV;

    open spec fn view(&self) -> ToolUsePayloadV {
        ToolUsePayloadV {
            call_id: self.call_id.deep_view(),
            tool_name: self.tool_name.deep_view(),
        }
    }
}

impl DeepView for ToolUsePayload {
    type V = ToolUsePayloadV;

    open spec fn deep_view(&self) -> ToolUsePayloadV {
        self@
    }
}

/// How a process ended.
#[derive(Debug, PartialEq, Eq)]
pub struct ExitInfo {
    pub code: Option<i32>,
    pub signal: Option<String>,
}

/// Model of [`ExitInfo`].
pub struct ExitInfoV {
    pub code: Option<i32>,
    pub signal: Option<Seq<char>>,
}

impl View for ExitInfo {
    type V = ExitInfoV;

    open spec fn view(&self) -> ExitInfoV {
        ExitInfoV {
            code: self.code.deep_view(),
            signal: self.signal.deep_view(),
        }
    }
}

impl DeepView for ExitInfo {
    type V = ExitInfoV;

    open spec fn deep_view(&self) -> ExitInfoV {
        self@
    }
}

/// What an agent tells.
#[derive(Debug, PartialEq, Eq)]
pub enum ConnectorEvent {
    /// A piece of an answer.
    Chunk(ChunkPayload),
    /// The use of a tool.
    ToolUse(ToolUsePayload),
    /// The end of a turn.
    StopReason(StopReason),
    /// The end of its process.
    SubprocessDied(ExitInfo),
}

/// Model of [`ConnectorEvent`].
pub enum ConnectorEventV {
    Chunk(ChunkPayloadV),
    ToolUse(ToolUsePayloadV),
    StopReason(StopReasonV),
    SubprocessDied(ExitInfoV),
}

impl View for ConnectorEvent {
    type V = ConnectorEventV;

    open spec fn view(&self) -> ConnectorEventV {
        match self {
            ConnectorEvent::Chunk(x) => ConnectorEventV::Chunk(x.deep_view()),
            ConnectorEvent::ToolUse(x) => ConnectorEventV::ToolUse(x.deep_view()),
            ConnectorEvent::StopReason(x) => ConnectorEventV::StopReason(x.deep_view()),
            ConnectorEvent::SubprocessDied(x) => ConnectorEventV::SubprocessDied(x.deep_view()),
        }
    }
}

impl DeepView for ConnectorEvent {
    type V = ConnectorEventV;

    open spec fn deep_view(&self) -> ConnectorEventV {
        self@
    }
}

/// Why an agent did not do what it was asked for.
#[derive(Debug, PartialEq, Eq)]
pub enum ConnectorError {
    /// It is not open.
    NotOpen,
    /// It is in a turn.
    Busy,
    /// The user stopped it.
    Cancelled,
    /// The protocol failed.
    Protocol(String),
    /// Its process ended.
    SubprocessDied(String),
    /// Something else failed.
    Other(AppError),
}

/// Model of [`ConnectorError`].
pub enum ConnectorErrorV {
    NotOpen,
    Busy,
    Cancelled,
    Protocol(Seq<char>),
    SubprocessDied(Seq<char>),
    Other(AppErrorV),
}

impl View for ConnectorError {
    type V = ConnectorErrorV;

    open spec fn view(&self) -> ConnectorErrorV {
        match self {
            ConnectorError::NotOpen => ConnectorErrorV::NotOpen,
            ConnectorError::Busy => ConnectorErrorV::Busy,
            ConnectorError::Cancelled => ConnectorErrorV::Cancelled,
            ConnectorError::Protocol(x) => ConnectorErrorV::Protocol(x.deep_view()),
            ConnectorError::SubprocessDied(x) => ConnectorErrorV::SubprocessDied(x.deep_view()),
            ConnectorError::Other(x) => ConnectorErrorV::Other(x.deep_view()),
        }
    }
}

impl DeepView for ConnectorError {
    type V = ConnectorErrorV;

    open spec fn deep_view(&self) -> ConnectorErrorV {
        self@
    }
}

/// What is done to stop a turn.
#[derive(Debug, PartialEq, Eq)]
pub enum CancelStep {
    /// Tell the agent.
    Notify { session_id: String },
    /// Refuse what it asks for.
    RefusePermissions,
    /// Wait until it has stopped, but not for long.
    AwaitAck { max_secs: u64 },
    /// Note that the user stopped it.
    RecordUserCancel,
    /// Let the conversation be finished.
    ResetToFinished,
    /// Tell that the turn is over.
    EmitFinish,
}

/// Model of [`CancelStep`].
pub enum CancelStepV {
    Notify { session_id: Seq<char> },
    RefusePermissions,
    AwaitAck { max_secs: u64 },
    RecordUserCancel,
    ResetToFinished,
    EmitFinish,
}

impl View for CancelStep {
    type V = CancelStepV;

    open spec fn view(&self) -> CancelStepV {
        match self {
            CancelStep::Notify { session_id } => CancelStepV::Notify { session_id: session_id.deep_view() },
            CancelStep::RefusePermissions => CancelStepV::RefusePermissions,
            CancelStep::AwaitAck { max_secs } => CancelStepV::AwaitAck { max_secs: max_secs.deep_view() },
            CancelStep::RecordUserCancel => CancelStepV::RecordUserCancel,
            CancelStep::ResetToFinished => CancelStepV::ResetToFinished,
            CancelStep::EmitFinish => CancelStepV::EmitFinish,
        }
    }
}

impl DeepView for CancelStep {
    type V = CancelStepV;

    open spec fn deep_view(&self) -> CancelStepV {
        self@
    }
}

impl ConnectorError {
    /// What is told of it; where something else failed, that tells.
    pub open spec fn words(self) -> Option<Seq<char>> {
        match self {
            ConnectorError::NotOpen => Some("connector not open"@),
            ConnectorError::Busy => Some("turn already in flight"@),
            ConnectorError::Cancelled => Some("turn cancelled by user"@),
            ConnectorError::Protocol(e) => Some("protocol error: "@ + e@),
            ConnectorError::SubprocessDied(e) => Some("subprocess died: "@ + e@),
            ConnectorError::Other(_) => None,
        }
    }

    /// What is told of it; where something else failed, that tells.
    pub fn message(&self) -> (r: Option<String>)
        ensures
            r.deep_view() == self.words(),
    {
        match self {
            ConnectorError::NotOpen => Some("connector not open".to_owned()),
            ConnectorError::Busy => Some("turn already in flight".to_owned()),
            ConnectorError::Cancelled => Some("turn cancelled by user".to_owned()),
            ConnectorError::Protocol(e) => Some(cat("protocol error: ", e.as_str())),
            ConnectorError::SubprocessDied(e) => Some(cat("subprocess died: ", e.as_str())),
            ConnectorError::Other(_) => None,
        }
    }
}

/// What a turn came to, given what sending its message came to: `failed` is why it was
/// not sent, `told` what that tells.
pub open spec fn turn_of(
    failed: Option<AppErrorV>,
    told: Seq<char>,
    session_id: Option<Seq<char>>,
) -> Result<TurnSummaryV, ConnectorErrorV> {
    match failed {
        None => Ok(TurnSummaryV { session_id, stop_reason: Some(StopReasonV::EndTurn) }),
        Some(AppErrorV::Conflict(_)) => Err(ConnectorErrorV::Busy),
        Some(_) => Err(ConnectorErrorV::Protocol(told)),
    }
}

/// What a turn came to, given what sending its message came to.
pub fn run_turn(failed: Option<&AppError>, told: &str, session_id: Option<&str>) -> (r: Result<
    TurnSummary,
    ConnectorError,
>)
    ensures
        outcome(r) == turn_of(
            match failed {
                Some(e) => Some(e@),
                None => None,
            },
            told@,
            opt_str(session_id),
        ),
{
    match failed {
        None => Ok(
            TurnSummary {
                session_id: own_opt(session_id),
                stop_reason: Some(StopReason::EndTurn),
            },
        ),
        Some(AppError::Conflict(_)) => Err(ConnectorError::Busy),
        Some(_) => Err(ConnectorError::Protocol(told.to_owned())),
    }
}

/// What is done to stop a turn: nothing without a session.
pub open spec fn cancel_steps_v(session_id: Option<Seq<char>>) -> Seq<CancelStepV> {
    match session_id {
        None => Seq::empty(),
        Some(id) => Seq::empty().push(CancelStepV::Notify { session_id: id }).push(
            CancelStepV::RefusePermissions,
        ).push(CancelStepV::AwaitAck { max_secs: CANCEL_ACK_SECS }).push(
            CancelStepV::RecordUserCancel,
        ).push(CancelStepV::ResetToFinished).push(CancelStepV::EmitFinish),
    }
}

/// What is done to stop a turn, in order.
pub fn cancel_current_turn(session_id: Option<&str>) -> (r: Vec<CancelStep>)
    ensures
        r.deep_view() == cancel_steps_v(opt_str(session_id)),
{
    let mut steps: Vec<CancelStep> = Vec::new();
    match session_id {
        None => {},
        Some(id) => {
            steps.push(CancelStep::Notify { session_id: id.to_owned() });
            steps.push(CancelStep::RefusePermissions);
            steps.push(CancelStep::AwaitAck { max_secs: CANCEL_ACK_SECS });
            steps.push(CancelStep::RecordUserCancel);
            steps.push(CancelStep::ResetToFinished);
            steps.push(CancelStep::EmitFinish);
        },
    }
    assert(steps.deep_view() =~= cancel_steps_v(opt_str(session_id)));
    steps
}

/// A stream event, as a connector tells it.
pub fn chunk(event: AgentStreamEvent) -> (r: ConnectorEvent)
    ensures
        r@ == ConnectorEventV::Chunk(ChunkPayloadV { event: event@ }),
{
    ConnectorEvent::Chunk(ChunkPayload { event })
}

/// The end of a turn is told only after the agent has acknowledged, or had its time.
pub proof fn the_end_is_told_last(id: Seq<char>)
    ensures
        cancel_steps_v(Some(id)).last() == CancelStepV::EmitFinish,
        cancel_steps_v(Some(id))[2] is AwaitAck,
        forall|i: int|
            0 <= i < 5 ==> #[trigger] cancel_steps_v(Some(id))[i] != CancelStepV::EmitFinish,
{
}

} // verus!

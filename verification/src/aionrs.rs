//! The agent that runs in this process: one turn at a time, how a turn ends, and what
//! the user's answers mean for its tools.
use vstd::prelude::*;

use crate::collections::{filter_members, filter_start, filter_step};
use crate::connector::{
    ConnectorError, ConnectorErrorV, StopReason, StopReasonV, TurnSummary, TurnSummaryV,
};
use crate::json::{Json, JsonV};
use crate::text::{cat, str_eq};
use crate::types::{
    copy_confirmations, outcome, AgentType, AppError, AppErrorV, Confirmation, ConfirmationV, ConversationStatus,
};

verus! {

/// How much the agent may do without asking.
#[derive(Debug, Clone, Copy, PartialEq, Eq, Structural)]
pub enum SessionMode {
    Default,
    AutoEdit,
    Yolo,
}

impl View for SessionMode {
    type V = SessionMode;

    open spec fn view(&self) -> SessionMode {
        *self
    }
}

impl DeepView for SessionMode {
    type V = SessionMode;

    open spec fn deep_view(&self) -> SessionMode {
        *self
    }
}

/// What became of a turn.
#[derive(Debug, PartialEq, Eq)]
pub enum EngineRun {
    /// It ran to its end.
    Completed,
    /// It failed.
    Failed(String),
    /// The user stopped it.
    Stopped,
}

/// Model of [`EngineRun`].
pub enum EngineRunV {
    Completed,
    Failed(Seq<char>),
    Stopped,
}

impl View for EngineRun {
    type V = EngineRunV;

    open spec fn view(&self) -> EngineRunV {
        match self {
            EngineRun::Completed => EngineRunV::Completed,
            EngineRun::Failed(x) => EngineRunV::Failed(x.deep_view()),
            EngineRun::Stopped => EngineRunV::Stopped,
        }
    }
}

impl DeepView for EngineRun {
    type V = EngineRunV;

    open spec fn deep_view(&self) -> EngineRunV {
        self@
    }
}

/// What the conversation is told.
#[derive(Debug, PartialEq, Eq)]
pub enum RuntimeCall {
    /// The agent is alive.
    BumpActivity,
    /// A turn begins.
    ResetForNewTurn(ConversationStatus),
    /// What the turn had begun is given up.
    AbortTurn { reason: String },
    /// Something failed.
    EmitError { message: String },
    /// The turn is over.
    EmitFinish,
}

/// Model of [`RuntimeCall`].
pub enum RuntimeCallV {
    BumpActivity,
    ResetForNewTurn(ConversationStatus),
    AbortTurn { reason: Seq<char> },
    EmitError { message: Seq<char> },
    EmitFinish,
}

impl View for RuntimeCall {
    type V = RuntimeCallV;

    open spec fn view(&self) -> RuntimeCallV {
        match self {
            RuntimeCall::BumpActivity => RuntimeCallV::BumpActivity,
            RuntimeCall::ResetForNewTurn(x) => RuntimeCallV::ResetForNewTurn(x.deep_view()),
            RuntimeCall::AbortTurn { reason } => RuntimeCallV::AbortTurn { reason: reason.deep_view() },
            RuntimeCall::EmitError { message } => RuntimeCallV::EmitError { message: message.deep_view() },
            RuntimeCall::EmitFinish => RuntimeCallV::EmitFinish,
        }
    }
}

impl DeepView for RuntimeCall {
    type V = RuntimeCallV;

    open spec fn deep_view(&self) -> RuntimeCallV {
        self@
    }
}

/// What the user decided on a tool.
#[derive(Debug, PartialEq, Eq)]
pub enum ToolDecision {
    /// It may not be used.
    Deny { reason: String },
    /// It may be used, this once or always.
    Approve { always: bool },
}

/// Model of [`ToolDecision`].
pub enum ToolDecisionV {
    Deny { reason: Seq<char> },
    Approve { always: bool },
}

impl View for ToolDecision {
    type V = ToolDecisionV;

    open spec fn view(&self) -> ToolDecisionV {
        match self {
            ToolDecision::Deny { reason } => ToolDecisionV::Deny { reason: reason.deep_view() },
            ToolDecision::Approve { always } => ToolDecisionV::Approve { always: always.deep_view() },
        }
    }
}

impl DeepView for ToolDecision {
    type V = ToolDecisionV;

    open spec fn deep_view(&self) -> ToolDecisionV {
        self@
    }
}

/// The agent.
#[derive(Debug, PartialEq, Eq)]
pub struct AionrsAgentManager {
    pub conversation_id: String,
    pub workspace: String,
    /// Whether a turn is under way.
    pub in_turn: bool,
    pub mode: SessionMode,
    pub confirmations: Vec<Confirmation>,
}

/// Model of [`AionrsAgentManager`].
pub struct AionrsAgentManagerV {
    pub conversation_id: Seq<char>,
    pub workspace: Seq<char>,
    pub in_turn: bool,
    pub mode: SessionMode,
    pub confirmations: Seq<ConfirmationV>,
}

impl View for AionrsAgentManager {
    type V = AionrsAgentManagerV;

    open spec fn view(&self) -> AionrsAgentManagerV {
        AionrsAgentManagerV {
            conversation_id: self.conversation_id.deep_view(),
            workspace: self.workspace.deep_view(),
            in_turn: self.in_turn.deep_view(),
            mode: self.mode.deep_view(),
            confirmations: self.confirmations.deep_view(),
        }
    }
}

impl DeepView for AionrsAgentManager {
    type V = AionrsAgentManagerV;

    open spec fn deep_view(&self) -> AionrsAgentManagerV {
        self@
    }
}

/// The mode of a name.
pub open spec fn session_mode(s: Seq<char>) -> SessionMode {
    if s == "auto_edit"@ {
        SessionMode::AutoEdit
    } else if s == "yolo"@ {
        SessionMode::Yolo
    } else {
        SessionMode::Default
    }
}

/// The mode of a name.
pub fn parse_session_mode(s: &str) -> (r: SessionMode)
    ensures
        r == session_mode(s@),
{
    if str_eq(s, "auto_edit") {
        SessionMode::AutoEdit
    } else if str_eq(s, "yolo") {
        SessionMode::Yolo
    } else {
        SessionMode::Default
    }
}

/// Whether the agent may do everything without asking from the start.
pub fn auto_approves(mode: &Option<String>) -> (r: bool)
    ensures
        r == (mode.deep_view() == Some("yolo"@)),
{
    match mode {
        Some(m) => str_eq(m.as_str(), "yolo"),
        None => false,
    }
}

/// Passes the confirmations of other calls.
pub open spec fn of_other_calls(call_id: Seq<char>) -> spec_fn(ConfirmationV) -> bool {
    |c: ConfirmationV| c.call_id != call_id
}

/// What an answer means: anything but a refusal approves.
pub open spec fn decision_of(data: JsonV, always: bool) -> ToolDecisionV {
    match data.field_text("value"@) {
        Some(v) => if v == "cancel"@ {
            ToolDecisionV::Deny { reason: "User denied the tool request"@ }
        } else {
            ToolDecisionV::Approve { always }
        },
        None => ToolDecisionV::Deny { reason: "User denied the tool request"@ },
    }
}

/// What a turn came to, and what the conversation is told of it.
pub open spec fn turn_ended(run: EngineRunV) -> (
    Result<TurnSummaryV, ConnectorErrorV>,
    Seq<RuntimeCallV>,
) {
    match run {
        EngineRunV::Completed => (
            Ok(TurnSummaryV { session_id: None, stop_reason: Some(StopReasonV::EndTurn) }),
            Seq::empty().push(RuntimeCallV::BumpActivity).push(RuntimeCallV::EmitFinish),
        ),
        EngineRunV::Failed(e) => (
            Err(ConnectorErrorV::Protocol("Aionrs agent error: "@ + e)),
            Seq::empty().push(RuntimeCallV::BumpActivity).push(
                RuntimeCallV::EmitError { message: "Aionrs agent error: "@ + e },
            ).push(RuntimeCallV::EmitFinish),
        ),
        EngineRunV::Stopped => (
            Ok(TurnSummaryV { session_id: None, stop_reason: Some(StopReasonV::Cancelled) }),
            Seq::empty().push(
                RuntimeCallV::AbortTurn { reason: "Tool execution canceled by user"@ },
            ).push(RuntimeCallV::BumpActivity).push(
                RuntimeCallV::EmitError { message: "Stopped by user"@ },
            ).push(RuntimeCallV::EmitFinish),
        ),
    }
}

/// What sending a message comes to, given what its turn came to.
pub open spec fn message_outcome(turn: Result<TurnSummaryV, ConnectorErrorV>, told: Seq<char>) -> Option<
    AppErrorV,
> {
    match turn {
        Ok(_) => None,
        Err(ConnectorErrorV::Protocol(e)) => Some(AppErrorV::Internal(e)),
        Err(ConnectorErrorV::Busy) => Some(AppErrorV::Conflict("Aionrs turn already in flight"@)),
        Err(_) => Some(AppErrorV::Internal(told)),
    }
}

/// Why a message was not sent; `None` where it was. `told` is what the error tells.
pub fn send_outcome(turn: &Result<TurnSummary, ConnectorError>, told: &str) -> (r: Option<AppError>)
    ensures
        r.deep_view() == message_outcome(outcome(*turn), told@),
{
    match turn {
        Ok(_) => None,
        Err(ConnectorError::Protocol(e)) => Some(AppError::Internal(e.clone())),
        Err(ConnectorError::Busy) => Some(
            AppError::Conflict("Aionrs turn already in flight".to_owned()),
        ),
        Err(_) => Some(AppError::Internal(told.to_owned())),
    }
}

impl AionrsAgentManager {
    /// An agent for a conversation.
    pub fn new(conversation_id: &str, workspace: &str, mode: &Option<String>) -> (r: AionrsAgentManager)
        ensures
            r@ == (AionrsAgentManagerV {
                conversation_id: conversation_id@,
                workspace: workspace@,
                in_turn: false,
                mode: match mode.deep_view() {
                    Some(m) => session_mode(m),
                    None => SessionMode::Default,
                },
                confirmations: Seq::empty(),
            }),
    {
        let confirmations: Vec<Confirmation> = Vec::new();
        assert(confirmations.deep_view() =~= Seq::<ConfirmationV>::empty());
        let mode = match mode {
            Some(m) => parse_session_mode(m.as_str()),
            None => SessionMode::Default,
        };
        AionrsAgentManager {
            conversation_id: conversation_id.to_owned(),
            workspace: workspace.to_owned(),
            in_turn: false,
            mode,
            confirmations,
        }
    }

    /// The type of the agent.
    pub fn agent_type(&self) -> (r: AgentType)
        ensures
            r == AgentType::Aionrs,
    {
        AgentType::Aionrs
    }

    /// The conversation.
    pub fn conversation_id(&self) -> (r: &str)
        ensures
            r@ == self@.conversation_id,
    {
        self.conversation_id.as_str()
    }

    /// The directory that it works in.
    pub fn workspace(&self) -> (r: &str)
        ensures
            r@ == self@.workspace,
    {
        self.workspace.as_str()
    }

    /// Begins a turn, where none is under way: what the conversation is told of it.
    pub fn begin_turn(&mut self) -> (r: Option<Vec<RuntimeCall>>)
        ensures
            r.deep_view() == (if old(self)@.in_turn {
                None
            } else {
                Some(
                    Seq::empty().push(RuntimeCallV::BumpActivity).push(
                        RuntimeCallV::ResetForNewTurn(ConversationStatus::Running),
                    ),
                )
            }),
            final(self)@ == (AionrsAgentManagerV { in_turn: true, ..old(self)@ }),
    {
        if self.in_turn {
            return None;
        }
        self.in_turn = true;
        let mut calls: Vec<RuntimeCall> = Vec::new();
        calls.push(RuntimeCall::BumpActivity);
        calls.push(RuntimeCall::ResetForNewTurn(ConversationStatus::Running));
        assert(calls.deep_view() =~= Seq::empty().push(RuntimeCallV::BumpActivity).push(
            RuntimeCallV::ResetForNewTurn(ConversationStatus::Running),
        ));
        Some(calls)
    }

    /// Ends the turn: what it came to, and what the conversation is told of it.
    pub fn end_turn(&mut self, run: &EngineRun) -> (r: (
        Result<TurnSummary, ConnectorError>,
        Vec<RuntimeCall>,
    ))
        ensures
            (outcome(r.0), r.1.deep_view()) == turn_ended(run@),
            final(self)@ == (AionrsAgentManagerV { in_turn: false, ..old(self)@ }),
    {
        self.in_turn = false;
        let mut calls: Vec<RuntimeCall> = Vec::new();
        let summary = match run {
            EngineRun::Completed => {
                calls.push(RuntimeCall::BumpActivity);
                Ok(TurnSummary { session_id: None, stop_reason: Some(StopReason::EndTurn) })
            },
            EngineRun::Failed(e) => {
                let message = cat("Aionrs agent error: ", e.as_str());
                calls.push(RuntimeCall::BumpActivity);
                calls.push(RuntimeCall::EmitError { message: message.clone() });
                Err(ConnectorError::Protocol(message))
            },
            EngineRun::Stopped => {
                calls.push(
                    RuntimeCall::AbortTurn { reason: "Tool execution canceled by user".to_owned() },
                );
                calls.push(RuntimeCall::BumpActivity);
                calls.push(RuntimeCall::EmitError { message: "Stopped by user".to_owned() });
                Ok(TurnSummary { session_id: None, stop_reason: Some(StopReason::Cancelled) })
            },
        };
        calls.push(RuntimeCall::EmitFinish);
        assert(calls.deep_view() =~= turn_ended(run@).1);
        (summary, calls)
    }

    /// Asks for the turn to be stopped; true where there is one to wait for.
    pub fn cancel_current_turn(&mut self) -> (r: bool)
        ensures
            r == old(self)@.in_turn,
            final(self)@ == (AionrsAgentManagerV { confirmations: Seq::empty(), ..old(self)@ }),
    {
        let none: Vec<Confirmation> = Vec::new();
        assert(none.deep_view() =~= Seq::<ConfirmationV>::empty());
        self.confirmations = none;
        self.in_turn
    }

    /// Takes up an answer of the user.
    pub fn confirm(&mut self, call_id: &str, data: &Json, always_allow: bool) -> (r: ToolDecision)
        ensures
            r@ == decision_of(data@, always_allow),
            final(self)@ == (AionrsAgentManagerV {
                confirmations: old(self)@.confirmations.filter(of_other_calls(call_id@)),
                ..old(self)@
            }),
    {
        let ghost cv = self@.confirmations;
        let ghost p = of_other_calls(call_id@);
        let mut left: Vec<Confirmation> = Vec::new();
        let mut i: usize = 0;
        proof {
            filter_start(cv, p);
            assert(left.deep_view() =~= Seq::<ConfirmationV>::empty());
        }
        while i < self.confirmations.len()
            invariant
                i <= self.confirmations.len(),
                cv == self@.confirmations,
                self@ == old(self)@,
                p == of_other_calls(call_id@),
                left.deep_view() == cv.take(i as int).filter(p),
            decreases self.confirmations.len() - i,
        {
            let ghost lv = left.deep_view();
            proof {
                filter_step(cv, i as int, p);
            }
            if !str_eq(self.confirmations[i].call_id.as_str(), call_id) {
                left.push(self.confirmations[i].copy());
                assert(left.deep_view() =~= lv.push(cv[i as int]));
            }
            i += 1;
        }
        assert(cv.take(cv.len() as int) =~= cv);
        self.confirmations = left;
        let refused = match data.get_str("value") {
            Some(v) => str_eq(v, "cancel"),
            None => true,
        };
        if refused {
            ToolDecision::Deny { reason: "User denied the tool request".to_owned() }
        } else {
            ToolDecision::Approve { always: always_allow }
        }
    }

    /// What the user is asked.
    pub fn get_confirmations(&self) -> (r: Vec<Confirmation>)
        ensures
            r.deep_view() == self@.confirmations,
    {
        copy_confirmations(&self.confirmations)
    }

    /// Selects the mode.
    pub fn set_mode(&mut self, mode: &str)
        ensures
            final(self)@ == (AionrsAgentManagerV { mode: session_mode(mode@), ..old(self)@ }),
    {
        self.mode = parse_session_mode(mode);
    }
}

/// Every turn is told to be over exactly once, and last.
pub proof fn every_turn_is_told_to_be_over(run: EngineRunV)
    ensures
        turn_ended(run).1.last() == RuntimeCallV::EmitFinish,
        forall|i: int|
            0 <= i < turn_ended(run).1.len() - 1 ==> #[trigger] turn_ended(run).1[i]
                != RuntimeCallV::EmitFinish,
{
}

/// An answered confirmation is gone, and no other.
pub proof fn an_answer_settles_its_call(
    confirmations: Seq<ConfirmationV>,
    call_id: Seq<char>,
    c: ConfirmationV,
)
    ensures
        confirmations.filter(of_other_calls(call_id)).contains(c) <==> confirmations.contains(c)
            && c.call_id != call_id,
{
    filter_members(confirmations, of_other_calls(call_id));
}

} // verus!

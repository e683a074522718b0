use aionui_ai_agent::aionrs::{
    auto_approves, parse_session_mode, send_outcome, AionrsAgentManager, EngineRun, RuntimeCall, SessionMode,
    ToolDecision,
};
use aionui_ai_agent::connector::{ConnectorError, StopReason};
use aionui_ai_agent::json::Json;
use aionui_ai_agent::types::{AgentType, AppError, Confirmation, ConversationStatus};

fn agent(id: &str) -> AionrsAgentManager {
    AionrsAgentManager::new(id, "/project", &None)
}

fn card(call_id: &str) -> Confirmation {
    Confirmation {
        id: call_id.to_string(),
        call_id: call_id.to_string(),
        title: None,
        action: None,
        description: String::new(),
        command_type: None,
        options: vec![],
        session_id: None,
        parent_session_id: None,
    }
}

#[test]
fn aionrs_agent_returns_correct_type() {
    let agent = agent("conv-1");
    assert_eq!(agent.agent_type(), AgentType::Aionrs);
    assert_eq!(agent.workspace(), "/project");
    assert_eq!(agent.conversation_id(), "conv-1");
}

#[test]
fn aionrs_agent_confirmations_initially_empty() {
    assert!(agent("conv-1").get_confirmations().is_empty());
}

#[test]
fn stop_only_signals_in_flight_run() {
    let mut agent = agent("conv-stop");
    assert!(!agent.cancel_current_turn(), "there is no turn to wait for");
    assert!(!agent.in_turn);
}

#[test]
fn iagent_connector_basics() {
    let agent = agent("conv-c");
    assert_eq!(agent.agent_type(), AgentType::Aionrs);
    assert_eq!(agent.conversation_id(), "conv-c");
    assert_eq!(agent.workspace(), "/project");
}

#[test]
fn iagent_connector_concurrent_run_turn_serializes() {
    let mut agent = agent("conv-s");
    assert!(agent.begin_turn().is_some());
    assert!(agent.begin_turn().is_none(), "the slot is taken");
    let busy = Err(ConnectorError::Busy);
    assert_eq!(
        send_outcome(&busy, ""),
        Some(AppError::Conflict("Aionrs turn already in flight".to_string()))
    );
}

#[test]
fn cancel_waits_for_in_flight_run_to_drop() {
    let mut agent = agent("conv-cancel");
    agent.begin_turn().expect("turn slot free");
    assert!(agent.cancel_current_turn(), "cancel returned before the in-flight turn dropped");
    agent.end_turn(&EngineRun::Stopped);
    assert!(!agent.cancel_current_turn());
    assert!(agent.begin_turn().is_some(), "an ended turn leaves the slot free");
}

#[test]
fn turns_begin_by_waking_the_conversation() {
    let mut agent = agent("c");
    assert_eq!(
        agent.begin_turn().unwrap(),
        vec![RuntimeCall::BumpActivity, RuntimeCall::ResetForNewTurn(ConversationStatus::Running)]
    );
}

#[test]
fn turns_end_in_three_ways() {
    let mut agent = agent("c");
    let (done, calls) = agent.end_turn(&EngineRun::Completed);
    assert_eq!(done.unwrap().stop_reason, Some(StopReason::EndTurn));
    assert_eq!(calls, vec![RuntimeCall::BumpActivity, RuntimeCall::EmitFinish]);

    let (failed, calls) = agent.end_turn(&EngineRun::Failed("no key".to_string()));
    assert!(calls.contains(&RuntimeCall::EmitError { message: "Aionrs agent error: no key".to_string() }));
    assert_eq!(calls.last(), Some(&RuntimeCall::EmitFinish));
    assert_eq!(
        send_outcome(&failed, ""),
        Some(AppError::Internal("Aionrs agent error: no key".to_string()))
    );

    let (stopped, calls) = agent.end_turn(&EngineRun::Stopped);
    assert_eq!(send_outcome(&stopped, ""), None);
    assert_eq!(stopped.unwrap().stop_reason, Some(StopReason::Cancelled));
    assert!(calls.contains(&RuntimeCall::EmitError { message: "Stopped by user".to_string() }));
    let other = Err(ConnectorError::NotOpen);
    assert_eq!(
        send_outcome(&other, "connector not open"),
        Some(AppError::Internal("connector not open".to_string()))
    );
}

#[test]
fn answers_settle_their_call() {
    let mut agent = agent("c");
    agent.confirmations.push(card("a"));
    agent.confirmations.push(card("b"));
    let yes = Json::from_text(r#"{"value":"allow"}"#).unwrap();
    assert_eq!(agent.confirm("a", &yes, true), ToolDecision::Approve { always: true });
    assert_eq!(agent.get_confirmations().len(), 1);
    assert_eq!(agent.get_confirmations()[0].call_id, "b");
    let no = Json::from_text(r#"{"value":"cancel"}"#).unwrap();
    let denied = ToolDecision::Deny { reason: "User denied the tool request".to_string() };
    assert_eq!(agent.confirm("b", &no, true), denied);
    assert_eq!(agent.confirm("b", &Json::Null, true), denied);
    assert!(agent.get_confirmations().is_empty());
}

#[test]
fn modes_have_names() {
    assert_eq!(parse_session_mode("auto_edit"), SessionMode::AutoEdit);
    assert_eq!(parse_session_mode("yolo"), SessionMode::Yolo);
    assert_eq!(parse_session_mode("anything"), SessionMode::Default);
    assert!(auto_approves(&Some("yolo".to_string())));
    assert!(!auto_approves(&Some("auto_edit".to_string())));
    assert!(!auto_approves(&None));
    let mut agent = AionrsAgentManager::new("c", "/p", &Some("yolo".to_string()));
    assert_eq!(agent.mode, SessionMode::Yolo);
    agent.set_mode("default");
    assert_eq!(agent.mode, SessionMode::Default);
}

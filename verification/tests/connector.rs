use aionui_ai_agent::connector::{
    cancel_current_turn, chunk, run_turn, CancelStep, ConnectorError, ConnectorEvent, StopReason, TurnSummary,
};
use aionui_ai_agent::types::{AgentStreamEvent, AppError};

#[test]
fn connector_event_is_send_sync() {
    fn assert_send_sync<T: Send + Sync>() {}
    assert_send_sync::<ConnectorEvent>();
    assert_send_sync::<ConnectorError>();
    assert_send_sync::<TurnSummary>();
}

#[test]
fn turns_end_or_say_why() {
    let done = run_turn(None, "", Some("ses")).unwrap();
    assert_eq!(done.session_id.as_deref(), Some("ses"));
    assert_eq!(done.stop_reason, Some(StopReason::EndTurn));
    let busy = run_turn(Some(&AppError::Conflict("x".to_string())), "x", None);
    assert!(matches!(busy, Err(ConnectorError::Busy)));
    let failed = run_turn(Some(&AppError::Internal("x".to_string())), "internal: x", None);
    assert!(matches!(failed, Err(ConnectorError::Protocol(e)) if e == "internal: x"));
}

#[test]
fn errors_tell_what_they_are() {
    assert_eq!(ConnectorError::NotOpen.message().as_deref(), Some("connector not open"));
    assert_eq!(ConnectorError::Busy.message().as_deref(), Some("turn already in flight"));
    assert_eq!(ConnectorError::Cancelled.message().as_deref(), Some("turn cancelled by user"));
    assert_eq!(
        ConnectorError::Protocol("p".to_string()).message().as_deref(),
        Some("protocol error: p")
    );
    assert_eq!(
        ConnectorError::SubprocessDied("p".to_string()).message().as_deref(),
        Some("subprocess died: p")
    );
    assert_eq!(ConnectorError::Other(AppError::Internal("x".to_string())).message(), None);
}

#[test]
fn a_turn_is_stopped_before_its_end_is_told() {
    assert!(cancel_current_turn(None).is_empty());
    let steps = cancel_current_turn(Some("ses"));
    assert_eq!(steps[0], CancelStep::Notify { session_id: "ses".to_string() });
    assert_eq!(steps[2], CancelStep::AwaitAck { max_secs: 5 });
    assert_eq!(steps.last(), Some(&CancelStep::EmitFinish));
}

#[test]
fn stream_events_become_chunks() {
    let event = chunk(AgentStreamEvent::Text { content: "hi".to_string() });
    assert!(matches!(
        event,
        ConnectorEvent::Chunk(p) if matches!(&p.event, AgentStreamEvent::Text { content } if content == "hi")
    ));
}

use aionui_ai_agent::json::Json;
use aionui_ai_agent::stream::{
    phase_for_event_type, raw_progress, translate_tool_input, translate_tool_progress,
};
use aionui_ai_agent::types::ToolInputPhase;

fn json(text: &str) -> Json {
    Json::from_text(text).expect("a document")
}

#[test]
fn input_started_with_tool_name_serializes() {
    let props = json(
        r#"{
            "messageID": "msg-1",
            "partID": "part-1",
            "toolName": "write",
            "startedAt": 1700000000000
        }"#,
    );
    let event =
        translate_tool_input("session.next.tool.input.started", &props, "sess-1", &None).expect("event");
    assert_eq!(event.session_id, "sess-1");
    assert_eq!(event.phase, ToolInputPhase::Started);
    assert_eq!(event.tool_name.as_deref(), Some("write"));
    assert_eq!(event.part_id, "part-1");
}

#[test]
fn input_delta_with_parent_session() {
    let props = json(
        r#"{
            "messageID": "msg-1",
            "partID": "part-1",
            "inputDelta": "{\"path\":"
        }"#,
    );
    let event = translate_tool_input(
        "session.next.tool.input.delta",
        &props,
        "sess-child",
        &Some("sess-parent".into()),
    )
    .expect("event");
    assert_eq!(event.phase, ToolInputPhase::Delta);
    assert_eq!(event.input_delta.as_deref(), Some("{\"path\":"));
    assert_eq!(event.parent_session_id.as_deref(), Some("sess-parent"));
}

#[test]
fn input_without_partid_returns_none() {
    let props = json(r#"{ "messageID": "msg-1", "toolName": "write" }"#);
    assert!(translate_tool_input("session.next.tool.input.started", &props, "sess-1", &None).is_none());
}

#[test]
fn progress_serializes_with_normalized_payload() {
    let props = json(
        r#"{
            "messageID": "msg-1",
            "partID": "part-1",
            "toolName": "bash",
            "progress": { "stdoutChunk": "hello\n" },
            "at": 1700000000123
        }"#,
    );
    let progress = raw_progress(&props);
    let event = translate_tool_progress(&props, &progress, "sess-1", &None, 0).expect("event");
    assert_eq!(event.tool_name.as_str(), "bash");
    assert_eq!(event.progress.get_str("stdoutChunk"), Some("hello\n"));
    assert_eq!(event.at, 1700000000123_i64);
}

#[test]
fn unknown_event_type_returns_none() {
    let props = json(r#"{ "messageID": "m", "partID": "p" }"#);
    assert!(translate_tool_input("session.next.tool.input.bogus", &props, "sess-1", &None).is_none());
}

#[test]
fn phases_follow_the_event_names() {
    assert_eq!(
        phase_for_event_type("session.next.tool.input.ended"),
        Some(ToolInputPhase::Ended)
    );
    assert_eq!(phase_for_event_type("session.next.tool.input.gone"), None);
}

use aionui_ai_agent::config::RemoteAgentConfig;
use aionui_ai_agent::dispatch::{extract_opencode_todo_entries, Outside};
use aionui_ai_agent::json::Json;
use aionui_ai_agent::manager::RemoteAgentManager;
use aionui_ai_agent::types::{
    AgentStreamEvent, AgentType, Confirmation, Effect, RemoteAgentStatus, ShellApproval,
};

fn config() -> RemoteAgentConfig {
    RemoteAgentConfig {
        remote_agent_id: "ra_test".to_string(),
        protocol: "opencode".to_string(),
        url: "http://127.0.0.1:4096".to_string(),
        auth_type: "none".to_string(),
        auth_token: None,
        allow_insecure: false,
        tool_host: "local".to_string(),
    }
}

fn opencode_test_agent() -> RemoteAgentManager {
    let mut agent = RemoteAgentManager::new("conv_model_info".to_string(), "/ws".to_string(), config(), None);
    agent.state.opencode_session_id = Some("sess_1".to_string());
    agent
}

fn outside() -> Outside {
    Outside {
        now: 1_000_000,
        child_registered: false,
        child_changed: false,
        tool_call: None,
        progress: Json::Null,
        context_limits: vec![],
    }
}

fn feed(agent: &mut RemoteAgentManager, events: &[&str]) -> Vec<AgentStreamEvent> {
    let mut told = Vec::new();
    for event in events {
        for effect in agent.handle_opencode_sse_event(event, &outside()) {
            if let Effect::Emit(e) = effect {
                told.push(e);
            }
        }
    }
    told
}

fn flush(agent: &mut RemoteAgentManager) -> Vec<AgentStreamEvent> {
    let mut told = Vec::new();
    for effect in agent.state.flush_deltas() {
        if let Effect::Emit(e) = effect {
            told.push(e);
        }
    }
    told
}

fn finishes(events: &[AgentStreamEvent]) -> usize {
    events.iter().filter(|e| matches!(e, AgentStreamEvent::Finish { .. })).count()
}

const BUSY: &str = r#"{"type":"session.status","properties":{"sessionID":"sess_1","status":{"type":"busy"}}}"#;
const IDLE: &str = r#"{"type":"session.status","properties":{"sessionID":"sess_1","status":{"type":"idle"}}}"#;
const SESSION_IDLE: &str = r#"{"type":"session.idle","properties":{"sessionID":"sess_1"}}"#;
const STOP: &str = r#"{"type":"message.updated","properties":{"sessionID":"sess_1","info":{"id":"msg_1","role":"assistant","finish":"stop"}}}"#;

fn delta(session: &str, message: &str, part: &str, text: &str) -> String {
    format!(
        r#"{{"type":"message.part.delta","properties":{{"sessionID":"{session}","messageID":"{message}","partID":"{part}","field":"text","delta":"{text}"}}}}"#
    )
}

#[test]
fn message_updated_emits_assistant_model_info_once() {
    let mut agent = opencode_test_agent();
    let events = feed(
        &mut agent,
        &[
            BUSY,
            r#"{"type":"message.updated","properties":{"sessionID":"sess_1","info":{"id":"msg_01","role":"assistant","modelID":"sonnet-4-5","providerID":"anthropic"}}}"#,
            r#"{"type":"message.updated","properties":{"sessionID":"sess_1","info":{"id":"msg_01","role":"assistant","modelID":"sonnet-4-5","providerID":"anthropic","finish":"stop"}}}"#,
        ],
    );
    let infos: Vec<_> = events
        .iter()
        .filter_map(|e| match e {
            AgentStreamEvent::AssistantModelInfo { message_id, provider_id, model_id } => {
                Some((message_id.as_str(), provider_id.as_str(), model_id.as_str()))
            }
            _ => None,
        })
        .collect();
    assert_eq!(infos.len(), 1, "expected exactly one AssistantModelInfo emission");
    assert_eq!(infos[0], ("msg_01", "anthropic", "sonnet-4-5"));
    assert!(finishes(&events) > 0, "Finish event not emitted on stop");
}

#[test]
fn stray_idle_before_busy_does_not_emit_finish() {
    let mut agent = opencode_test_agent();
    let events = feed(
        &mut agent,
        &[
            IDLE,
            SESSION_IDLE,
            r#"{"type":"message.updated","properties":{"sessionID":"sess_1","info":{"id":"msg_stale","role":"assistant","finish":"stop"}}}"#,
        ],
    );
    assert_eq!(finishes(&events), 0, "stray terminal events before a root `busy` must not emit Finish");
}

#[test]
fn stray_busy_after_finish_does_not_rearm_for_phantom_second_finish() {
    let mut agent = opencode_test_agent();
    let events = feed(&mut agent, &[BUSY, STOP, BUSY, IDLE, SESSION_IDLE]);
    assert_eq!(finishes(&events), 1);
}

#[test]
fn armed_turn_emits_exactly_one_finish_for_terminal_trio() {
    let mut agent = opencode_test_agent();
    let events = feed(&mut agent, &[BUSY, STOP, IDLE, SESSION_IDLE]);
    assert_eq!(finishes(&events), 1, "expected exactly one Finish for the terminal trio");
}

#[test]
fn a_new_prompt_lets_the_next_turn_finish() {
    let mut agent = opencode_test_agent();
    assert_eq!(finishes(&feed(&mut agent, &[BUSY, STOP, IDLE])), 1);
    let (first, _) = agent.begin_message(2_000_000);
    assert!(first);
    assert_eq!(finishes(&feed(&mut agent, &[BUSY, STOP, IDLE])), 1);
}

#[test]
fn message_updated_user_role_does_not_emit_model_info() {
    let mut agent = opencode_test_agent();
    let events = feed(
        &mut agent,
        &[r#"{"type":"message.updated","properties":{"sessionID":"sess_1","info":{"id":"msg_user_01","role":"user"}}}"#],
    );
    assert!(
        !events.iter().any(|e| matches!(e, AgentStreamEvent::AssistantModelInfo { .. })),
        "AssistantModelInfo must not fire for user messages"
    );
}

#[test]
fn message_updated_different_assistant_messages_each_emit_model_info() {
    let mut agent = opencode_test_agent();
    let mut models = Vec::new();
    for (msg_id, model) in [("msg_01", "sonnet-4-5"), ("msg_02", "opus-4-7")] {
        let event = format!(
            r#"{{"type":"message.updated","properties":{{"sessionID":"sess_1","info":{{"id":"{msg_id}","role":"assistant","modelID":"{model}","providerID":"anthropic"}}}}}}"#
        );
        for told in feed(&mut agent, &[&event]) {
            if let AgentStreamEvent::AssistantModelInfo { model_id, .. } = told {
                models.push(model_id);
            }
        }
    }
    assert_eq!(models.len(), 2, "expected one emission per distinct message id");
    assert_eq!(models[0], "sonnet-4-5");
    assert_eq!(models[1], "opus-4-7");
}

#[test]
fn sse_event_for_foreign_session_is_ignored() {
    let mut agent = opencode_test_agent();
    let foreign = r#"{"type":"message.part.delta","properties":{"sessionID":"sess_OTHER","field":"text","delta":"text from another conversation","partID":"prt_x"}}"#;
    assert!(feed(&mut agent, &[foreign]).is_empty(), "events for a foreign session must be dropped");
    assert!(flush(&mut agent).is_empty());

    let own = r#"{"type":"message.part.delta","properties":{"sessionID":"sess_1","field":"text","delta":"hello","partID":"prt_y"}}"#;
    let mut events = feed(&mut agent, &[own]);
    events.extend(flush(&mut agent));
    assert!(
        events.iter().any(|e| matches!(e, AgentStreamEvent::Text { content } if content == "hello")),
        "events for this conversation's own session must be delivered"
    );
}

#[test]
fn sse_event_without_session_id_passes_through() {
    let mut agent = opencode_test_agent();
    let events = feed(
        &mut agent,
        &[r#"{"type":"session.error","properties":{"error":{"data":{"message":"boom"}}}}"#],
    );
    assert!(
        events.iter().any(|e| matches!(e, AgentStreamEvent::Error { .. })),
        "events with no sessionID must pass through"
    );
}

#[test]
fn what_is_no_document_is_passed_over() {
    let mut agent = opencode_test_agent();
    assert!(feed(&mut agent, &["not json", "{}", r#"{"type":7}"#]).is_empty());
}

#[test]
fn new_creates_agent_without_connect() {
    let agent = RemoteAgentManager::new("conv1".to_string(), "/ws".to_string(), config(), None);
    assert_eq!(agent.agent_type(), AgentType::Remote);
    assert_eq!(agent.conversation_id(), "conv1");
    assert_eq!(agent.connection_status(), RemoteAgentStatus::Unknown);
}

#[test]
fn new_seeds_resume_session_id_into_get_session_key() {
    let resumed = RemoteAgentManager::new(
        "conv_resume".to_string(),
        "/ws".to_string(),
        config(),
        Some("ses_resume_123".to_string()),
    );
    assert_eq!(resumed.get_session_key().as_deref(), Some("ses_resume_123"));
    let fresh = RemoteAgentManager::new("conv_fresh".to_string(), "/ws".to_string(), config(), None);
    assert_eq!(fresh.get_session_key(), None);
}

#[test]
fn other_protocols_have_no_session_key() {
    let other = RemoteAgentConfig { protocol: "openclaw".to_string(), ..config() };
    let m = RemoteAgentManager::new("c".to_string(), "/ws".to_string(), other, Some("ses_1".to_string()));
    assert_eq!(m.get_session_key(), None);
}

fn json(text: &str) -> Json {
    Json::from_text(text).expect("a document")
}

#[test]
fn extract_todo_entries_returns_todos_array() {
    let props = json(
        r#"{"sessionID":"sess_1","todos":[
            {"content":"Create Makefile","status":"completed","priority":"high"},
            {"content":"Port PPPP protocol","status":"in_progress","priority":"medium"}]}"#,
    );
    let entries = extract_opencode_todo_entries(&props).expect("todos array present");
    assert_eq!(entries.len(), 2);
    assert_eq!(entries[0].get_str("content"), Some("Create Makefile"));
    assert_eq!(entries[1].get_str("status"), Some("in_progress"));
}

#[test]
fn extract_todo_entries_returns_empty_array_when_cleared() {
    let props = json(r#"{"sessionID":"sess_1","todos":[]}"#);
    let entries = extract_opencode_todo_entries(&props).expect("empty array is a valid clear signal");
    assert!(entries.is_empty());
}

#[test]
fn extract_todo_entries_returns_none_when_field_missing() {
    assert!(extract_opencode_todo_entries(&json(r#"{"sessionID":"sess_1"}"#)).is_none());
}

#[test]
fn extract_todo_entries_returns_none_when_field_wrong_type() {
    let props = json(r#"{"sessionID":"sess_1","todos":"not-an-array"}"#);
    assert!(extract_opencode_todo_entries(&props).is_none());
}

#[test]
fn todo_updated_event_emits_plan_event() {
    let mut agent = opencode_test_agent();
    let events = feed(
        &mut agent,
        &[r#"{"type":"todo.updated","properties":{"sessionID":"sess_1","todos":[
            {"content":"Step one","status":"completed","priority":"high"},
            {"content":"Step two","status":"pending","priority":"medium"}]}}"#],
    );
    let (session_id, entries) = events
        .iter()
        .find_map(|e| match e {
            AgentStreamEvent::Plan { session_id, entries } => Some((session_id, entries)),
            _ => None,
        })
        .expect("Plan event should be emitted from todo.updated");
    assert_eq!(entries.len(), 2);
    assert_eq!(entries[0].get_str("content"), Some("Step one"));
    assert_eq!(session_id.as_deref(), Some("sess_1"));
}

#[test]
fn todo_updated_event_for_foreign_session_is_ignored() {
    let mut agent = opencode_test_agent();
    let events = feed(
        &mut agent,
        &[r#"{"type":"todo.updated","properties":{"sessionID":"ses_other","todos":[{"content":"Other session","status":"pending","priority":"low"}]}}"#],
    );
    assert!(
        !events.iter().any(|e| matches!(e, AgentStreamEvent::Plan { .. })),
        "todo.updated for a foreign session must not emit Plan"
    );
}

fn fake_confirmation(call_id: &str) -> Confirmation {
    Confirmation {
        id: call_id.to_string(),
        call_id: call_id.to_string(),
        title: Some("Run a command on your machine?".to_string()),
        action: Some("run_shell".to_string()),
        description: format!("dummy command for {call_id}"),
        command_type: Some("run_shell".to_string()),
        options: vec![],
        session_id: None,
        parent_session_id: None,
    }
}

#[test]
fn reject_pending_is_noop_when_state_is_empty() {
    let mut agent = opencode_test_agent();
    let effects = agent.reject_pending_confirmations(1);
    assert!(effects.is_empty());
    assert!(agent.state.confirmations.is_empty());
    assert!(agent.state.pending_shell_approvals.is_empty());
}

#[test]
fn reject_pending_clears_state_and_resolves_shell_senders() {
    let mut agent = opencode_test_agent();
    agent.state.confirmations.push(fake_confirmation("shell-a"));
    agent.state.confirmations.push(fake_confirmation("shell-b"));
    agent.state.confirmations.push(fake_confirmation("perm-c"));
    agent.state.pending_shell_approvals.push("shell-a".to_string());
    agent.state.pending_shell_approvals.push("shell-b".to_string());

    let effects = agent.reject_pending_confirmations(1);
    for id in ["shell-a", "shell-b"] {
        assert!(effects.iter().any(|e| matches!(
            e,
            Effect::ResolveShell { call_id, approval: ShellApproval::Reject } if call_id == id
        )));
    }
    assert!(effects.iter().any(|e| matches!(
        e,
        Effect::ReplyPermission { request_id, reply, by_user: false, .. } if request_id == "perm-c" && reply == "reject"
    )));
    assert!(agent.state.confirmations.is_empty());
    assert!(agent.state.pending_shell_approvals.is_empty());
    assert!(agent.reject_pending_confirmations(2).is_empty());
}

#[test]
fn delta_batcher_coalesces_burst_into_single_text_event() {
    let mut agent = opencode_test_agent();
    for chunk in ["Hel", "lo, ", "wor", "ld"] {
        let events = feed(&mut agent, &[&delta("sess_1", "msg_batch_1", "prt_batch_1", chunk)]);
        assert!(
            events.iter().all(|e| !matches!(e, AgentStreamEvent::Text { .. })),
            "deltas must not emit individually inside the flush window"
        );
    }
    let texts: Vec<String> = flush(&mut agent)
        .into_iter()
        .filter_map(|e| match e {
            AgentStreamEvent::Text { content } => Some(content),
            _ => None,
        })
        .collect();
    assert_eq!(texts.len(), 1, "expected one coalesced Text, got {:?}", texts);
    assert_eq!(texts[0], "Hello, world");
}

#[test]
fn delta_batcher_flushes_on_part_updated() {
    let mut agent = opencode_test_agent();
    for chunk in ["foo", "bar"] {
        feed(&mut agent, &[&delta("sess_1", "msg_flush_1", "prt_flush_1", chunk)]);
    }
    let events = feed(
        &mut agent,
        &[r#"{"type":"message.part.updated","properties":{"sessionID":"sess_1","time":0,"part":{"id":"prt_flush_1","type":"text"}}}"#],
    );
    let texts: Vec<String> = events
        .into_iter()
        .filter_map(|e| match e {
            AgentStreamEvent::Text { content } => Some(content),
            _ => None,
        })
        .collect();
    assert_eq!(texts, vec!["foobar".to_string()], "deltas must be flushed when their part finalizes");
}

#[test]
fn delta_batcher_flushes_on_root_turn_finish() {
    let mut agent = opencode_test_agent();
    let tail = delta("sess_1", "msg_finish_1", "prt_finish_1", "tail-end ");
    let events = feed(
        &mut agent,
        &[
            BUSY,
            &tail,
            r#"{"type":"message.updated","properties":{"sessionID":"sess_1","info":{"id":"msg_finish_1","role":"assistant","finish":"stop"}}}"#,
        ],
    );
    let text_idx = events
        .iter()
        .position(|e| matches!(e, AgentStreamEvent::Text { content } if content == "tail-end "))
        .expect("pending delta must be flushed before Finish");
    let finish_idx = events
        .iter()
        .position(|e| matches!(e, AgentStreamEvent::Finish { .. }))
        .expect("Finish must still be emitted");
    assert!(text_idx < finish_idx, "Text must be emitted before Finish");
}

#[test]
fn delta_batcher_routes_reasoning_parts_to_thinking() {
    let mut agent = opencode_test_agent();
    agent.state.reasoning_parts.push("prt_reasoning_1".to_string());
    for chunk in ["thinking ", "out loud"] {
        feed(&mut agent, &[&delta("sess_1", "msg_reasoning_1", "prt_reasoning_1", chunk)]);
    }
    let thinking: Vec<String> = flush(&mut agent)
        .into_iter()
        .filter_map(|e| match e {
            AgentStreamEvent::Thinking { content } => Some(content),
            _ => None,
        })
        .collect();
    assert_eq!(thinking, vec!["thinking out loud".to_string()]);
}

#[test]
fn sub_agents_do_not_end_the_turn() {
    let mut agent = opencode_test_agent();
    agent.state.child_sessions.push(("ses_child".to_string(), "sess_1".to_string()));
    let events = feed(
        &mut agent,
        &[
            BUSY,
            r#"{"type":"session.idle","properties":{"sessionID":"ses_child"}}"#,
            r#"{"type":"session.status","properties":{"sessionID":"ses_child","status":{"type":"idle"}}}"#,
        ],
    );
    assert_eq!(finishes(&events), 0);
    assert_eq!(finishes(&feed(&mut agent, &[IDLE])), 1);
}

#[test]
fn permissions_under_the_workspace_are_not_asked() {
    let mut agent = opencode_test_agent();
    let asked = r#"{"type":"permission.asked","properties":{"sessionID":"sess_1","id":"per_1","permission":"external_directory","patterns":["/ws/src/*"],"metadata":{"filepath":"/ws/src/main.rs"}}}"#;
    let effects = agent.handle_opencode_sse_event(asked, &outside());
    assert!(effects.iter().any(|e| matches!(
        e,
        Effect::ReplyPermission { request_id, by_user: false, .. } if request_id == "per_1"
    )));
    assert!(agent.get_confirmations().is_empty());

    let elsewhere = r#"{"type":"permission.asked","properties":{"sessionID":"sess_1","id":"per_2","permission":"external_directory","patterns":["/etc/*"],"metadata":{"filepath":"/etc/hosts"}}}"#;
    agent.handle_opencode_sse_event(elsewhere, &outside());
    assert_eq!(agent.get_confirmations().len(), 1);
    assert_eq!(agent.get_confirmations()[0].call_id, "per_2");
}

#[test]
fn foreign_events_do_nothing_though_a_sub_agent_is_at_hand() {
    let mut agent = opencode_test_agent();
    let out = Outside { child_registered: true, ..outside() };
    let foreign = delta("sess_OTHER", "msg_1", "prt_x", "x");
    assert!(agent.handle_opencode_sse_event(&foreign, &out).is_empty());
    assert!(agent.state.child_sessions.is_empty());
    assert!(flush(&mut agent).is_empty());
    let created = r#"{"type":"session.created","properties":{"sessionID":"sess_OTHER"}}"#;
    assert!(agent.handle_opencode_sse_event(created, &outside()).is_empty());
    assert!(!agent.handle_opencode_sse_event(created, &out).is_empty());
    assert_eq!(agent.state.child_sessions, vec![("sess_OTHER".to_string(), "sess_1".to_string())]);
}

#[test]
fn windows_are_wanted_where_a_message_tells_how_full_one_is() {
    let mut agent = opencode_test_agent();
    agent.state.child_sessions.push(("child".to_string(), "sess_1".to_string()));
    let told = r#"{"type":"message.updated","properties":{"sessionID":"sess_1","info":{"role":"assistant","finish":"stop","modelID":"m","tokens":{"input":3}}}}"#;
    assert!(agent.state.limits_wanted(told));
    assert!(agent.state.limits_wanted(&told.replace(r#""sessionID":"sess_1","#, "")));
    for other in [
        STOP.to_string(),
        told.replace("message.updated", "message.removed"),
        told.replace("sess_1", "child"),
        told.replace("sess_1", "elsewhere"),
        told.replace("assistant", "user"),
        told.replace("stop", "tool-calls"),
        told.replace(r#""modelID":"m","#, ""),
        told.replace(r#"{"input":3}"#, r#"{"input":0}"#),
        "no document".to_string(),
    ] {
        assert!(!agent.state.limits_wanted(&other), "{other}");
    }
    agent.handle_opencode_sse_event(told, &Outside { context_limits: vec![("m".to_string(), 10)], ..outside() });
    assert!(!agent.state.limits_wanted(told));
}

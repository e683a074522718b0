use aionui_ai_agent::config::RemoteAgentConfig;
use aionui_ai_agent::http::{HttpMethod, HttpReply};
use aionui_ai_agent::json::Json;
use aionui_ai_agent::manager::RemoteAgentManager;
use aionui_ai_agent::models::ModelInfoEntry;
use aionui_ai_agent::send::{
    build_context_transcript_prefix, build_prompt_body, find_command, frame_transcript, note_session,
    persist_session_key, resolve_prompt, row_line, send_model, system_hint, Prompt, ResolvedPrompt, SendAction,
    SendEvent, SendPhase, Sending, TranscriptRow,
};
use aionui_ai_agent::state::OpenCodeCommand;
use aionui_ai_agent::types::{
    AgentStreamEvent, AppError, Confirmation, ConversationStatus, Effect, RemoteAgentStatus, ShellApproval,
};

fn agent(protocol: &str, tool_host: &str) -> RemoteAgentManager {
    let config = RemoteAgentConfig {
        remote_agent_id: "ra".to_string(),
        protocol: protocol.to_string(),
        url: "http://h:1".to_string(),
        auth_type: "none".to_string(),
        auth_token: None,
        allow_insecure: false,
        tool_host: tool_host.to_string(),
    };
    RemoteAgentManager::new("conv".to_string(), "/ws".to_string(), config, None)
}

fn json(text: &str) -> Json {
    Json::from_text(text).expect("a document")
}

fn answered(text: &str) -> HttpReply {
    HttpReply::Answered(text.to_string())
}

fn row(position: &str, kind: &str, content: &str) -> TranscriptRow {
    TranscriptRow { position: Some(position.to_string()), kind: kind.to_string(), content: content.to_string() }
}

fn plain(content: &str) -> SendEvent {
    SendEvent::CommandResolved(ResolvedPrompt { content: content.to_string(), agent: None, model: None })
}

#[test]
fn a_first_prompt_creates_a_session() {
    let mut m = agent("opencode", "local");
    let mut d = Sending::new("hi", Some("msg_1".to_string()), vec![]);
    assert_eq!(d.advance(&mut m, SendEvent::Begin), vec![SendAction::AcquireTurn]);
    let actions = d.advance(&mut m, SendEvent::TurnAcquired);
    assert_eq!(actions[0], SendAction::EnsureLocalTools);
    match actions.last() {
        Some(SendAction::Request(q)) => {
            assert_eq!(q.method, HttpMethod::Post);
            assert_eq!(q.url, "http://h:1/session");
            assert!(q.body.is_some());
        }
        other => panic!("unexpected {other:?}"),
    }
    assert_eq!(
        d.advance(&mut m, SendEvent::SessionAnswered(answered(r#"{"id":"ses_1"}"#))),
        vec![
            SendAction::PersistSessionKey { session_id: "ses_1".to_string() },
            SendAction::ReadTranscript
        ]
    );
    assert_eq!(m.get_session_key().as_deref(), Some("ses_1"));
    let rows = vec![
        row("right", "text", r#"{"content":"earlier"}"#),
        row("left", "text", r#"{"content":"answer"}"#),
        row("right", "text", r#"{"content":"hi"}"#),
    ];
    assert_eq!(
        d.advance(&mut m, SendEvent::TranscriptRead(Some(rows))),
        vec![SendAction::ResolveCommand { content: "hi".to_string() }]
    );
    assert_eq!(d.advance(&mut m, plain("hi")), vec![SendAction::ListProject]);
    let actions = d.advance(
        &mut m,
        SendEvent::ProjectListed { tree: "./a".to_string(), shell: "bash".to_string() },
    );
    match &actions[0] {
        SendAction::Request(q) => {
            assert_eq!(q.url, "http://h:1/session/ses_1/prompt_async");
            assert_eq!(q.timeout_secs, 120);
            let body = q.body.as_ref().unwrap();
            assert_eq!(body.get_str("messageID"), Some("msg_1"));
            assert!(body.get_str("system").unwrap().ends_with("./a"));
            let text = body.get_array("parts").unwrap()[0].get_str("text").unwrap().to_string();
            assert!(text.contains("[USER]: earlier\n[ASSISTANT]: answer"));
            assert!(text.ends_with("\n\nhi"));
        }
        other => panic!("unexpected {other:?}"),
    }
    assert_eq!(d.advance(&mut m, SendEvent::PromptAnswered(answered(""))), vec![SendAction::Done]);
    assert_eq!(d.phase, SendPhase::Ended);
}

#[test]
fn a_later_prompt_keeps_the_session() {
    let mut m = agent("opencode", "server");
    m.state.opencode_session_id = Some("ses_1".to_string());
    m.set_model("anthropic::sonnet");
    let mut d = Sending::new("/go now", Some("msg_2".to_string()), vec!["pdf".to_string()]);
    d.advance(&mut m, SendEvent::Begin);
    assert_eq!(
        d.advance(&mut m, SendEvent::TurnAcquired),
        vec![SendAction::ResolveCommand { content: "/go now".to_string() }]
    );
    let actions = d.advance(&mut m, plain("/go now"));
    match &actions[0] {
        SendAction::Request(q) => {
            let body = q.body.as_ref().unwrap();
            assert!(body.get("messageID").is_none(), "only a fresh session gets one");
            assert!(body.get("system").is_none(), "the server's tools need no hint");
            assert_eq!(body.get("model").unwrap().get_str("providerID"), Some("anthropic"));
            assert_eq!(body.get_array("skills").unwrap()[0].as_str(), Some("pdf"));
        }
        other => panic!("unexpected {other:?}"),
    }
}

#[test]
fn a_failed_sending_gives_the_turn_back() {
    let mut m = agent("opencode", "server");
    let mut d = Sending::new("hi", None, vec![]);
    d.advance(&mut m, SendEvent::Begin);
    d.advance(&mut m, SendEvent::TurnAcquired);
    let actions = d.advance(&mut m, SendEvent::SessionAnswered(answered("{}")));
    assert_eq!(actions[0], SendAction::ReleaseTurn);
    assert_eq!(
        actions[1],
        SendAction::Fail(AppError::Internal("OpenCode create session response missing id: {}".to_string()))
    );
    assert_eq!(m.get_session_key(), None);

    m.state.opencode_session_id = Some("s".to_string());
    let mut d = Sending::new("hi", None, vec![]);
    d.advance(&mut m, SendEvent::Begin);
    d.advance(&mut m, SendEvent::TurnAcquired);
    d.advance(&mut m, plain("hi"));
    let refused = HttpReply::Refused { status: "500 Internal Server Error".to_string(), body: "x".to_string() };
    let actions = d.advance(&mut m, SendEvent::PromptAnswered(refused));
    assert_eq!(actions[0], SendAction::ReleaseTurn);
    assert!(matches!(&actions[1], SendAction::Fail(AppError::Internal(e)) if e.contains("500")));
    assert!(d.advance(&mut m, SendEvent::Begin).is_empty());
}

#[test]
fn a_command_goes_before_what_is_selected() {
    let mut m = agent("opencode", "server");
    m.state.opencode_session_id = Some("s".to_string());
    m.set_model("a::b");
    m.state.desired_agent = Some("build".to_string());
    let mut d = Sending::new("/x", None, vec![]);
    d.advance(&mut m, SendEvent::Begin);
    d.advance(&mut m, SendEvent::TurnAcquired);
    let resolved = ResolvedPrompt {
        content: "do x".to_string(),
        agent: Some("plan".to_string()),
        model: Some("p::q".to_string()),
    };
    let actions = d.advance(&mut m, SendEvent::CommandResolved(resolved));
    match &actions[0] {
        SendAction::Request(q) => {
            let body = q.body.as_ref().unwrap();
            assert_eq!(body.get_str("agent"), Some("plan"));
            assert_eq!(body.get("model").unwrap().get_str("modelID"), Some("q"));
            assert_eq!(body.get("model").unwrap().get_str("providerID"), Some("p"));
        }
        other => panic!("unexpected {other:?}"),
    }
}

#[test]
fn models_are_sent_as_the_server_wants_them() {
    let short = send_model(&json(r#"{"id":"m"}"#));
    assert_eq!(short.to_text(), r#"{"modelID":"m","providerID":"opencode-go","variant":"default"}"#);
    let other = json(r#"{"modelID":"m","providerID":"p"}"#);
    assert_eq!(send_model(&other).to_text(), other.to_text());
}

#[test]
fn bodies_hold_what_there_is() {
    let p = Prompt {
        prefix: Some(String::new()),
        content: "hi".to_string(),
        fresh_session: true,
        message_id: Some("local-1".to_string()),
        system: None,
        model: None,
        agent: None,
        skills: vec![],
    };
    assert_eq!(build_prompt_body(&p).to_text(), r#"{"parts":[{"text":"hi","type":"text"}]}"#);
}

#[test]
fn hints_name_the_project() {
    let hint = system_hint("/ws", "Linux · bash", "./a\n./b");
    assert!(hint.contains("/ws") && hint.contains("Linux · bash"));
    assert!(hint.ends_with("./a\n./b"));
}

fn command(name: &str, template: Option<&str>) -> OpenCodeCommand {
    OpenCodeCommand {
        name: name.to_string(),
        description: None,
        template: template.map(|t| t.to_string()),
        agent: Some("plan".to_string()),
        model: None,
    }
}

#[test]
fn known_commands_are_resolved() {
    let commands = vec![command("init", Some("Set $1 up")), command("bare", None)];
    assert!(find_command(&commands, "none").is_none());
    let call = |name: &str, args: &str| Some((name.to_string(), args.to_string()));
    let r = resolve_prompt("/init x", &call("init", "x"), &commands, "Set x up");
    assert_eq!((r.content.as_str(), r.agent.as_deref()), ("Set x up", Some("plan")));
    assert_eq!(resolve_prompt("/bare", &call("bare", ""), &commands, "").content, "bare");
    assert_eq!(resolve_prompt("/bare a b", &call("bare", "a b"), &commands, "").content, "a b");
    let unknown = resolve_prompt("/other", &call("other", ""), &commands, "");
    assert_eq!((unknown.content.as_str(), unknown.agent), ("/other", None));
    assert_eq!(resolve_prompt("hello", &None, &commands, "").content, "hello");
}

#[test]
fn transcripts_become_lines() {
    let left = Some("left".to_string());
    assert_eq!(row_line(&left, "thinking", None).as_deref(), Some("[ASSISTANT][thinking]"));
    let call = json(r#"{"name":"read_file"}"#);
    assert_eq!(
        row_line(&left, "tool_call", Some(&call)).as_deref(),
        Some("[ASSISTANT][used tool: read_file]")
    );
    assert_eq!(row_line(&left, "tool_call", None).as_deref(), Some("[ASSISTANT][used tool: tool]"));
    let text = json(r#"{"content":"  hi  "}"#);
    assert_eq!(row_line(&Some("right".to_string()), "text", Some(&text)).as_deref(), Some("[USER]: hi"));
    assert_eq!(row_line(&None, "text", Some(&text)), None);
    assert_eq!(row_line(&left, "text", Some(&json(r#"{"content":"  "}"#))), None);
    assert_eq!(row_line(&left, "image", Some(&text)), None);
    assert_eq!(frame_transcript(vec!["[USER]: only the prompt".to_string()]), None);
    assert_eq!(build_context_transcript_prefix(&vec![]), None);
    let told = build_context_transcript_prefix(&vec![
        row("right", "text", r#"{"content":"a"}"#),
        row("left", "text", "no document"),
        row("left", "thinking", "{}"),
    ])
    .unwrap();
    assert!(told.contains("[USER]: a\n[ASSISTANT][thinking]"));
}

#[test]
fn sessions_are_noted_in_the_extras() {
    assert_eq!(persist_session_key(r#"{"a":1}"#, "s").as_deref(), Some(r#"{"a":1,"sessionKey":"s"}"#));
    assert_eq!(persist_session_key(r#"{"sessionKey":"s"}"#, "s"), None);
    assert_eq!(persist_session_key("broken", "s").as_deref(), Some(r#"{"sessionKey":"s"}"#));
    assert_eq!(persist_session_key("[1]", "s"), None);
    let noted = note_session(&json("null"), "s").unwrap();
    assert_eq!(noted.get_str("sessionKey"), Some("s"));
}

fn card(call_id: &str) -> Confirmation {
    Confirmation {
        id: call_id.to_string(),
        call_id: call_id.to_string(),
        title: None,
        action: None,
        description: String::new(),
        command_type: None,
        options: vec![],
        session_id: None,
        parent_session_id: None,
    }
}

#[test]
fn a_new_prompt_refuses_what_waits() {
    let mut m = agent("opencode", "local");
    m.state.confirmations.push(card("per_1"));
    m.state.finished_current_user_turn = true;
    let (first, fx) = m.begin_message(1);
    assert!(first);
    assert_eq!(fx[0], Effect::BumpActivity);
    assert!(fx.iter().any(|e| matches!(e, Effect::ReplyPermission { reply, .. } if reply == "reject")));
    assert_eq!(fx.last(), Some(&Effect::TransitionTo(ConversationStatus::Running)));
    assert!(!m.state.finished_current_user_turn);
    assert!(!m.begin_message(2).0);
}

#[test]
fn prompts_over_a_socket() {
    let mut m = agent("openclaw", "local");
    let first = m.ws_message(true, "hi", "id", &vec![]);
    assert_eq!(first.get_str("type"), Some("sessionsReset"));
    assert_eq!(first.get("data").unwrap().get_str("conversationId"), Some("conv"));
    m.update_state_from_event(&AgentStreamEvent::Start { session_id: Some("k".to_string()) });
    let later = m.ws_message(false, "hi", "id", &vec!["f".to_string()]);
    assert_eq!(later.get_str("type"), Some("sendMessage"));
    assert_eq!(later.get("data").unwrap().get_str("sessionKey"), Some("k"));
    assert_eq!(later.get("data").unwrap().get_array("files").unwrap().len(), 1);
    assert!(RemoteAgentManager::ws_cancel(true).is_ok());
    assert_eq!(
        RemoteAgentManager::ws_cancel(false),
        Err(AppError::Conflict("WebSocket not connected; nothing to cancel".to_string()))
    );
}

#[test]
fn socket_events_change_the_state() {
    let mut m = agent("openclaw", "local");
    let fx = m.update_state_from_event(&AgentStreamEvent::Finish { session_id: None });
    assert_eq!(fx, vec![Effect::TransitionTo(ConversationStatus::Finished)]);
    m.update_state_from_event(&AgentStreamEvent::AcpPermission(card("a")));
    m.update_state_from_event(&AgentStreamEvent::AcpPermission(card("a")));
    assert_eq!(m.get_confirmations().len(), 1, "a card is replaced by its like");
    assert_eq!(m.ws_closed(true), vec![Effect::TransitionTo(ConversationStatus::Finished)]);
    assert_eq!(m.connection_status(), RemoteAgentStatus::Error);
    assert!(m.ws_closed(false).is_empty());
}

#[test]
fn sockets_open_and_fail() {
    let mut m = agent("openclaw", "local");
    assert_eq!(
        m.connect_ws(Some("refused")),
        Some(AppError::Internal("WebSocket connection failed: refused".to_string()))
    );
    assert_eq!(m.connection_status(), RemoteAgentStatus::Unknown);
    assert_eq!(m.connect_ws(None), None);
    assert_eq!(m.connection_status(), RemoteAgentStatus::Connected);
    assert_eq!(RemoteAgentManager::ws_send(true, None), Ok(()));
    assert_eq!(
        RemoteAgentManager::ws_send(false, None),
        Err(AppError::Internal("WebSocket not connected".to_string()))
    );
    assert_eq!(
        RemoteAgentManager::ws_send(true, Some("broken pipe")),
        Err(AppError::Internal("WebSocket send failed: broken pipe".to_string()))
    );
    assert!(m.handle_raw_event(None).is_empty());
    let fx = m.handle_raw_event(Some(AgentStreamEvent::Start { session_id: Some("k".to_string()) }));
    assert_eq!(fx.len(), 2);
    assert!(matches!(fx[1], Effect::Emit(AgentStreamEvent::Start { .. })));
    assert_eq!(m.state.session_key.as_deref(), Some("k"));
}

#[test]
fn turns_are_cancelled() {
    let mut m = agent("opencode", "local");
    assert!(m.cancel(1).is_none());
    m.state.opencode_session_id = Some("s".to_string());
    m.state.pending_shell_approvals.push("shell-1".to_string());
    let (q, fx) = m.cancel(1).unwrap();
    assert_eq!(q.url, "http://h:1/session/s/abort");
    assert_eq!(
        fx,
        vec![
            Effect::ResolveShell { call_id: "shell-1".to_string(), approval: ShellApproval::Reject },
            Effect::ReleaseTurnSlot
        ]
    );
}

#[test]
fn the_end_wakes_everything() {
    let mut m = agent("opencode", "local");
    m.state.pending_shell_approvals.push("shell-1".to_string());
    m.state.pending_elicitations.push("elicit-1".to_string());
    m.state.confirmations.push(card("c"));
    let fx = m.kill();
    assert_eq!(fx.len(), 3);
    assert_eq!(fx.last(), Some(&Effect::ReleaseTurnSlot));
    assert!(m.get_confirmations().is_empty());
}

#[test]
fn catalogs_are_fetched_once() {
    let mut m = agent("opencode", "local");
    let skills = json(r#"[{"name":"pdf","description":"d"}]"#);
    assert_eq!(m.get_skills_impl(Some(&skills)).len(), 1);
    assert_eq!(m.ensure_opencode_skills(None).len(), 1);
    assert_eq!(m.get_slash_commands_impl(&vec![command("a", None)]).len(), 1);
    assert_eq!(m.ensure_opencode_commands(&vec![]).len(), 1);
    let modes = m.ensure_opencode_agents(None);
    assert!(modes.iter().any(|a| a.id == "build"));
    assert_eq!(m.ensure_opencode_agents(Some(&json("[]"))).len(), modes.len());
    let mut other = agent("openclaw", "local");
    assert!(other.get_skills_impl(Some(&skills)).is_empty());
    assert!(other.get_slash_commands_impl(&vec![command("a", None)]).is_empty());
}

#[test]
fn models_are_told() {
    assert!(RemoteAgentManager::emit_model_info(&vec![]).is_empty());
    let models = vec![ModelInfoEntry { id: "m".to_string(), label: "M".to_string() }];
    match &RemoteAgentManager::emit_model_info(&models)[0] {
        Effect::Emit(AgentStreamEvent::AcpModelInfo(info)) => {
            assert_eq!(info.get_array("available_models").unwrap()[0].get_str("label"), Some("M"))
        }
        other => panic!("unexpected {other:?}"),
    }
}

#[test]
fn missed_sub_agents_are_taken_on() {
    let mut m = agent("opencode", "local");
    assert!(m.backfill_child_sessions(&vec!["c".to_string()]).is_empty());
    m.state.opencode_session_id = Some("root".to_string());
    let fx = m.backfill_child_sessions(&vec!["c".to_string()]);
    assert_eq!(fx, vec![Effect::StartChild { parent_id: "root".to_string(), child_id: "c".to_string() }]);
    assert_eq!(m.state.child_sessions, vec![("c".to_string(), "root".to_string())]);
    let mut other = agent("openclaw", "local");
    other.state.opencode_session_id = Some("root".to_string());
    assert!(other.backfill_child_sessions(&vec!["c".to_string()]).is_empty());
}

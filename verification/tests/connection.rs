use aionui_ai_agent::config::RemoteAgentConfig;
use aionui_ai_agent::connection::{ConnectAction, ConnectEvent, ConnectPhase, Connection, EventReader, ReaderExit};
use aionui_ai_agent::http::{HttpMethod, HttpRequest};
use aionui_ai_agent::json::Json;
use aionui_ai_agent::state::RemoteState;
use aionui_ai_agent::types::{AppError, RemoteAgentStatus};

fn config(tool_host: &str) -> RemoteAgentConfig {
    RemoteAgentConfig {
        remote_agent_id: "ra".to_string(),
        protocol: "opencode".to_string(),
        url: "http://h:1/".to_string(),
        auth_type: "bearer".to_string(),
        auth_token: Some("tok".to_string()),
        allow_insecure: false,
        tool_host: tool_host.to_string(),
    }
}

fn get(path: &str, timeout_secs: u64) -> HttpRequest {
    HttpRequest {
        method: HttpMethod::Get,
        url: format!("http://h:1{path}"),
        auth: Some("Bearer tok".to_string()),
        body: None,
        timeout_secs,
    }
}

fn healthy() -> ConnectEvent {
    ConnectEvent::HealthAnswered { ok: true, status: "200 OK".to_string() }
}

#[test]
fn a_connection_comes_up() {
    let mut s = RemoteState::new("/ws", None);
    let mut c = Connection::new(&config("local"));
    assert_eq!(
        c.advance(&mut s, ConnectEvent::Begin),
        vec![ConnectAction::CheckHealth(get("/global/health", 10))]
    );
    assert_eq!(
        c.advance(&mut s, healthy()),
        vec![
            ConnectAction::PrimeCatalogs,
            ConnectAction::RegisterForwarder,
            ConnectAction::FetchApiDescription(get("/doc", 5)),
        ]
    );
    assert_eq!(s.connection_status, RemoteAgentStatus::Connected);
    let doc = Json::from_text(r#"{"paths":{"/event":{}}}"#);
    assert_eq!(
        c.advance(&mut s, ConnectEvent::ApiDescription(doc)),
        vec![
            ConnectAction::BackfillChildren,
            ConnectAction::ReadEvents {
                url: "http://h:1/event".to_string(),
                auth: Some("Bearer tok".to_string())
            },
        ]
    );
}

#[test]
fn a_known_session_is_taken_up_again() {
    let mut s = RemoteState::new("/ws", Some("ses".to_string()));
    let mut c = Connection::new(&config("local"));
    c.advance(&mut s, ConnectEvent::Begin);
    assert_eq!(
        c.advance(&mut s, healthy()),
        vec![ConnectAction::ProbeSession(get("/session/ses", 10))]
    );
    let actions = c.advance(&mut s, ConnectEvent::SessionProbed { ok: true });
    assert_eq!(actions[0], ConnectAction::EnsureLocalTools);
    assert_eq!(s.opencode_session_id.as_deref(), Some("ses"));

    let mut remote = Connection::new(&config("server"));
    remote.advance(&mut s, ConnectEvent::Begin);
    remote.advance(&mut s, healthy());
    let actions = remote.advance(&mut s, ConnectEvent::SessionProbed { ok: true });
    assert_eq!(actions[0], ConnectAction::PrimeCatalogs);
}

#[test]
fn stale_sessions_are_forgotten() {
    let mut s = RemoteState::new("/ws", Some("ses".to_string()));
    let mut c = Connection::new(&config("local"));
    c.advance(&mut s, ConnectEvent::Begin);
    c.advance(&mut s, healthy());
    c.advance(&mut s, ConnectEvent::SessionProbed { ok: false });
    assert_eq!(s.opencode_session_id, None);
}

#[test]
fn sick_servers_are_given_up() {
    let mut s = RemoteState::new("/ws", None);
    let mut c = Connection::new(&config("local"));
    c.advance(&mut s, ConnectEvent::Begin);
    assert_eq!(
        c.advance(&mut s, ConnectEvent::HealthUnreachable("refused".to_string())),
        vec![ConnectAction::Fail(AppError::Internal("OpenCode health check failed: refused".to_string()))]
    );
    assert_eq!(c.phase, ConnectPhase::Failed);
    let mut c = Connection::new(&config("local"));
    c.advance(&mut s, ConnectEvent::Begin);
    let sick = ConnectEvent::HealthAnswered { ok: false, status: "503 Service Unavailable".to_string() };
    assert_eq!(
        c.advance(&mut s, sick),
        vec![ConnectAction::Fail(AppError::Internal(
            "OpenCode health check returned 503 Service Unavailable".to_string()
        ))]
    );
}

fn reading() -> (RemoteState, Connection) {
    let mut s = RemoteState::new("/ws", None);
    let mut c = Connection::new(&config("local"));
    c.advance(&mut s, ConnectEvent::Begin);
    c.advance(&mut s, healthy());
    c.advance(&mut s, ConnectEvent::ApiDescription(None));
    (s, c)
}

#[test]
fn waits_grow_up_to_a_limit() {
    let (mut s, mut c) = reading();
    let mut waits = Vec::new();
    for _ in 0..7 {
        for action in c.advance(&mut s, ConnectEvent::ReaderEnded(ReaderExit::Eof)) {
            if let ConnectAction::Sleep { ms } = action {
                waits.push(ms);
            }
        }
        c.advance(&mut s, ConnectEvent::Slept);
    }
    assert_eq!(waits, vec![250, 500, 1000, 2000, 4000, 5000, 5000]);
    assert_eq!(s.connection_status, RemoteAgentStatus::Reconnecting);
    let mut reader = EventReader::new();
    assert!(!reader.note_data(&mut s, r#"{"type":"server.connected"}"#));
    assert_eq!(s.connection_status, RemoteAgentStatus::Connected);
    assert_eq!(
        c.advance(&mut s, ConnectEvent::ReaderEnded(ReaderExit::HeartbeatTimeout)),
        vec![ConnectAction::Sleep { ms: 250 }]
    );
}

#[test]
fn disposed_servers_give_the_turn_back() {
    let (mut s, mut c) = reading();
    let mut reader = EventReader::new();
    assert!(reader.note_data(
        &mut s,
        r#"{"payload":{"type":"server.instance.disposed","properties":{}}}"#
    ));
    assert_eq!(
        c.advance(&mut s, ConnectEvent::ReaderEnded(ReaderExit::ServerDisposed)),
        vec![ConnectAction::ReleaseTurnSlot, ConnectAction::Sleep { ms: 250 }]
    );
    assert_eq!(c.phase, ConnectPhase::Waiting);
}

#[test]
fn events_out_of_turn_change_nothing() {
    let (mut s, mut c) = reading();
    assert!(c.advance(&mut s, ConnectEvent::Slept).is_empty());
    assert_eq!(c.phase, ConnectPhase::Reading);
}

#[test]
fn chunks_do_not_matter() {
    let stream = "data: {\"a\":1}\n\nevent: x\ndata: {\"b\":2}\n\n: comment\n\ndata: {\"c\":3}\n\ndata: half";
    let mut whole = EventReader::new();
    let at_once = whole.feed(stream);
    assert_eq!(at_once, vec![r#"{"a":1}"#, r#"{"b":2}"#, r#"{"c":3}"#]);
    let mut piecewise = EventReader::new();
    let mut pieces = Vec::new();
    for c in stream.chars() {
        pieces.extend(piecewise.feed(&c.to_string()));
    }
    assert_eq!(pieces, at_once);
    assert_eq!(piecewise.buffer, "data: half");
}

#[test]
fn broken_bytes_are_replaced() {
    let mut r = EventReader::new();
    let mut bytes = b"data: a".to_vec();
    bytes.push(0xff);
    bytes.extend(b"\n\n");
    assert_eq!(r.feed_bytes(&bytes), vec!["a\u{fffd}"]);
}

#[test]
fn only_the_first_greeting_counts() {
    let mut s = RemoteState::new("/ws", None);
    let mut r = EventReader::new();
    let hello = Json::from_text(r#"{"type":"server.connected"}"#).unwrap();
    r.note_event(&mut s, Some(&hello));
    assert!(r.saw_connected);
    s.connection_status = RemoteAgentStatus::Error;
    r.note_event(&mut s, Some(&hello));
    assert_eq!(s.connection_status, RemoteAgentStatus::Error);
    assert!(!r.note_event(&mut s, None));
    assert!(!r.note_data(&mut s, "no document"));
}

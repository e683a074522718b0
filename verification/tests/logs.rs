use aionui_ai_agent::json::{Json, JsonNumber};
use aionui_ai_agent::log_forwarder::{
    log_request, register_forwarder, unregister_forwarder, FieldValue, FieldVisitor, LogEntry, LogLevel, LogQueue,
    OpenCodeLogLayer,
};

fn text(s: &str) -> FieldValue {
    FieldValue::Text(s.to_string())
}

fn event(id: &str) -> FieldVisitor {
    let mut v = FieldVisitor::new();
    v.record("conversation_id", text(id));
    v.record("message", text("hello"));
    v.record("attempt", FieldValue::integer(2));
    v
}

#[test]
fn fields_are_gathered() {
    let mut v = event("c1");
    assert_eq!(v.conversation_id.as_deref(), Some("c1"));
    assert_eq!(v.message.as_deref(), Some("hello"));
    assert_eq!(v.extra.get("attempt").unwrap().as_u64(), Some(2));
    v.record("attempt", FieldValue::integer(3));
    assert_eq!(v.extra.get("attempt").unwrap().as_u64(), Some(3));
    v.record("conversation_id", FieldValue::integer(12));
    assert_eq!(v.conversation_id.as_deref(), Some("12"));
    v.record("message", FieldValue::Bool(true));
    assert_eq!(v.message.as_deref(), Some("true"));
}

#[test]
fn fields_hold_plain_values() {
    let mut v = event("c1");
    v.record("ok", FieldValue::Bool(false));
    v.record("left", FieldValue::integer(-3));
    v.record("share", FieldValue::Number(JsonNumber::Float("0.5".to_string())));
    v.record("none", FieldValue::Null);
    v.record("file", text("[1]"));
    assert_eq!(
        v.extra.to_text(),
        r#"{"attempt":2,"file":"[1]","left":-3,"none":null,"ok":false,"share":0.5}"#
    );
    let mut layer = OpenCodeLogLayer::new();
    register_forwarder(&mut layer, "c1");
    let entry = layer.on_event(LogLevel::Info, "t", &v).unwrap().1;
    assert_eq!(entry.extra, v.extra);
}

#[test]
fn events_go_where_their_conversation_is_registered() {
    let mut layer = OpenCodeLogLayer::new();
    assert!(layer.on_event(LogLevel::Error, "t", &event("c1")).is_none());
    let q = register_forwarder(&mut layer, "c1");
    let (queue, entry) = layer.on_event(LogLevel::Warn, "my::module", &event("c1")).unwrap();
    assert_eq!(queue, q);
    assert_eq!(entry.level, "warn");
    assert_eq!(entry.target, "my::module");
    let again = register_forwarder(&mut layer, "c1");
    assert_ne!(again, q);
    assert_eq!(layer.on_event(LogLevel::Info, "t", &event("c1")).unwrap().0, again);
    assert!(layer.on_event(LogLevel::Info, "t", &event("c2")).is_none());
    assert!(layer.on_event(LogLevel::Info, "t", &FieldVisitor::new()).is_none());
    unregister_forwarder(&mut layer, "c1");
    assert!(layer.on_event(LogLevel::Error, "t", &event("c1")).is_none());
}

#[test]
fn noise_stays_here() {
    let mut layer = OpenCodeLogLayer::new();
    register_forwarder(&mut layer, "c1");
    assert!(layer.on_event(LogLevel::Debug, "t", &event("c1")).is_none());
    assert!(layer.on_event(LogLevel::Trace, "t", &event("c1")).is_none());
}

#[test]
fn events_without_a_message_tell_their_place() {
    let mut layer = OpenCodeLogLayer::new();
    register_forwarder(&mut layer, "c1");
    let mut v = FieldVisitor::new();
    v.record("conversation_id", text("c1"));
    assert_eq!(layer.on_event(LogLevel::Info, "place", &v).unwrap().1.message, "place");
}

fn entry(n: usize) -> LogEntry {
    LogEntry {
        level: "info".to_string(),
        message: format!("{n}"),
        target: "t".to_string(),
        extra: Json::Object(vec![]),
    }
}

#[test]
fn bursts_drop_the_oldest() {
    let mut q = LogQueue::new();
    assert!(q.pop().is_none());
    for n in 0..258 {
        q.push(entry(n));
    }
    assert_eq!(q.entries.len(), 256);
    assert_eq!(q.pop().unwrap().message, "2");
    assert_eq!(q.entries.last().unwrap().message, "257");
}

#[test]
fn entries_are_sent_with_their_place() {
    let q = log_request("http://h//", None, "c1", &entry(7));
    assert_eq!(q.url, "http://h/log");
    assert_eq!(q.timeout_secs, 5);
    let body = q.body.unwrap();
    assert_eq!(body.get_str("service"), Some("aionui"));
    assert_eq!(body.get_str("message"), Some("7"));
    assert_eq!(body.get("extra").unwrap().get_str("conversation_id"), Some("c1"));
    assert_eq!(body.get("extra").unwrap().get_str("target"), Some("t"));
}

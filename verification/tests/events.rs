use aionui_ai_agent::events::{
    classify_error, error_kind, event_kind, event_property_fingerprint, is_known_ignored_event, opencode_idle_reason, opencode_status,
    redact_sensitive_text, retry_reason, truncate_500, typed_error_from_props, unwrap_event, EventKind,
};
use aionui_ai_agent::json::Json;

fn json(text: &str) -> Json {
    Json::from_text(text).expect("a document")
}

#[test]
fn known_ignored_event_recognizes_global_and_mirror_events() {
    assert!(is_known_ignored_event("server.connected"));
    assert!(is_known_ignored_event("tui.toast.show"));
    assert!(is_known_ignored_event("project.updated"));
    assert!(is_known_ignored_event("session.next.text.delta"));
    assert!(is_known_ignored_event("session.next.tool.success"));
    assert!(is_known_ignored_event("session.diff"));
    assert!(is_known_ignored_event("session.updated"));
}

#[test]
fn known_ignored_event_excludes_handled_and_unknown_events() {
    assert!(!is_known_ignored_event("session.idle"));
    assert!(!is_known_ignored_event("permission.asked"));
    assert!(!is_known_ignored_event("permission.replied"));
    assert!(!is_known_ignored_event("models-dev.refreshed"));
    assert!(!is_known_ignored_event("installation.updated"));
    assert!(!is_known_ignored_event("session.next.tool.progress"));
    assert!(!is_known_ignored_event("weird.thing"));
    assert!(!is_known_ignored_event(""));
}

#[test]
fn property_fingerprint_is_stable_and_key_order_independent() {
    let a = json(r#"{ "sessionID": "ses_1", "reply": "once", "requestID": "perm_1" }"#);
    let b = json(r#"{ "requestID": "perm_1", "reply": "once", "sessionID": "ses_1" }"#);
    assert_eq!(event_property_fingerprint(&a), event_property_fingerprint(&b));
    assert_eq!(event_property_fingerprint(&a).len(), 16);
}

#[test]
fn fingerprints_of_unsorted_entries_agree() {
    let a = Json::Object(vec![
        ("b".to_string(), Json::Null),
        ("a".to_string(), Json::Null),
    ]);
    let b = Json::Object(vec![
        ("a".to_string(), Json::Bool(true)),
        ("b".to_string(), Json::Null),
    ]);
    assert_eq!(event_property_fingerprint(&a), event_property_fingerprint(&b));
}

#[test]
fn property_fingerprint_depends_only_on_keys_not_values() {
    let secret = json(r#"{ "version": "9.9.9-supersecret" }"#);
    let plain = json(r#"{ "version": "1.0.0" }"#);
    assert_eq!(event_property_fingerprint(&secret), event_property_fingerprint(&plain));
    let other = json(r#"{ "diff": "..." }"#);
    assert_ne!(event_property_fingerprint(&plain), event_property_fingerprint(&other));
}

#[test]
fn property_fingerprint_handles_non_object_payloads() {
    assert_eq!(event_property_fingerprint(&json("{}")).len(), 16);
    assert_eq!(event_property_fingerprint(&Json::Null).len(), 16);
    assert_eq!(event_property_fingerprint(&json("{}")), event_property_fingerprint(&Json::Null));
}

#[test]
fn unwrap_event_unwraps_global_payload() {
    let wrapped = json(
        r#"{ "payload": { "id": "evt_1", "type": "server.connected", "properties": {} } }"#,
    );
    let inner = unwrap_event(wrapped);
    assert_eq!(inner.get("type").and_then(|v| v.as_str()), Some("server.connected"));
    assert!(inner.get("payload").is_none());
}

#[test]
fn unwrap_event_passthrough_for_legacy_shape() {
    let raw = json(r#"{ "id": "evt_2", "type": "server.heartbeat", "properties": {} }"#);
    let inner = unwrap_event(raw.copy());
    assert_eq!(inner, raw);
    assert_eq!(inner.get("type").and_then(|v| v.as_str()), Some("server.heartbeat"));
}

#[test]
fn unwrap_event_non_object_is_identity() {
    let v = Json::Str("not-an-object".to_string());
    assert_eq!(unwrap_event(v.copy()), v);
}

#[test]
fn statuses_are_normalized() {
    let told = |raw: Option<&str>| {
        let (status, reason) = opencode_status(raw);
        (status, reason.unwrap_or_default())
    };
    let pair = |a: &str, b: &str| (a.to_string(), b.to_string());
    assert_eq!(told(Some("busy")), pair("running", ""));
    assert_eq!(told(Some("running")), pair("running", ""));
    assert_eq!(told(Some("idle")), pair("idle", ""));
    assert_eq!(told(Some("aborting")), pair("aborting", ""));
    assert_eq!(told(Some("aborted")), pair("aborted", "aborted"));
    assert_eq!(told(Some("error")), pair("errored", "errored"));
    assert_eq!(told(Some("errored")), pair("errored", "errored"));
    assert_eq!(told(Some("napping")), pair("idle", "napping"));
    assert_eq!(opencode_status(None), ("idle".to_string(), None));
}

#[test]
fn idle_reasons_are_normalized() {
    let told = |text: &str| opencode_idle_reason(&json(text));
    assert_eq!(told(r#"{"reason":"completed"}"#), "completed");
    assert_eq!(told(r#"{"reason":"compacted"}"#), "compacted");
    assert_eq!(told(r#"{"reason":"user_abort"}"#), "aborted");
    assert_eq!(told(r#"{"reason":"provider error"}"#), "errored");
    assert_eq!(told(r#"{"reason":"auto-compact"}"#), "compacted");
    assert_eq!(told(r#"{"reason":"other"}"#), "completed");
    assert_eq!(told(r#"{"reason":1}"#), "completed");
    assert_eq!(told("{}"), "completed");
}

#[test]
fn retry_reasons_are_normalized() {
    for kept in ["rate_limit", "transient", "tool_error", "provider_error", "context_overflow"] {
        assert_eq!(retry_reason(Some(kept)), kept);
    }
    assert_eq!(retry_reason(Some("hit a limit")), "rate_limit");
    assert_eq!(retry_reason(Some("context too long")), "context_overflow");
    assert_eq!(retry_reason(Some("tool broke")), "tool_error");
    assert_eq!(retry_reason(Some("provider down")), "provider_error");
    assert_eq!(retry_reason(Some("timeout")), "transient");
    assert_eq!(retry_reason(Some("temporary")), "transient");
    assert_eq!(retry_reason(Some("boom")), "unknown");
    assert_eq!(retry_reason(None), "unknown");
}

#[test]
fn secrets_are_left_out_of_messages() {
    assert_eq!(redact_sensitive_text("use Bearer abc now"), "use [REDACTED] [REDACTED] now");
    assert_eq!(redact_sensitive_text("bearer"), "[REDACTED]");
    assert_eq!(redact_sensitive_text("BEARER bearer x"), "[REDACTED] [REDACTED] x");
    assert_eq!(redact_sensitive_text("key sk-1 task-2"), "key [REDACTED] task-2");
    assert_eq!(redact_sensitive_text("  a \t b\n"), "a b");
    assert_eq!(truncate_500(&"\u{e9}".repeat(501)), "\u{e9}".repeat(500));
    assert_eq!(truncate_500("short"), "short");
}

#[test]
fn errors_are_told_apart() {
    assert_eq!(error_kind("ProviderAuthError", "no", ""), "provider_auth");
    assert_eq!(error_kind("ContextOverflowError", "no", ""), "context_overflow");
    assert_eq!(error_kind("MessageOutputLengthError", "no", ""), "output_length");
    assert_eq!(error_kind("MessageAbortedError", "no", ""), "aborted");
    assert_eq!(error_kind("StructuredOutputError", "no", ""), "structured_output");
    assert_eq!(error_kind("APIError", "no", ""), "api");
    assert_eq!(error_kind("APIError", "Context is full", ""), "context_overflow");
    assert_eq!(error_kind("APIError", "no", "TOKEN LIMIT"), "context_overflow");
    assert_eq!(error_kind("", "Unauthorized", ""), "provider_auth");
    assert_eq!(error_kind("", "it was Aborted", ""), "aborted");
    assert_eq!(error_kind("", "auth", "auth"), "provider_auth");
    assert_eq!(error_kind("", "boom", "auth"), "unknown");
}

#[test]
fn errors_carry_what_the_server_said() {
    let e = typed_error_from_props(&json(
        r#"{"error":{"name":"APIError","data":{"message":"sk-1 failed","providerId":"p","used":3,"limit":4,
            "status_code":429,"body":"Bearer x y","schemaName":"S","partialJson":{"a":1},"recoverable":true}}}"#,
    ));
    assert_eq!(e.message, "[REDACTED] failed");
    assert_eq!(e.kind, "api");
    assert!(e.recoverable);
    assert_eq!(
        e.metadata.expect("metadata").to_text(),
        r#"{"body":"[REDACTED] [REDACTED] y","limit":4,"partial":{"a":1},"provider_id":"p","schema":"S","status_code":429,"used":3}"#
    );
    let e = typed_error_from_props(&json(r#"{"error":"plain","recoverable":false}"#));
    assert_eq!((e.message.as_str(), e.kind.as_str(), e.recoverable), ("plain", "unknown", false));
    assert_eq!(e.metadata, None);
    let e = typed_error_from_props(&json("{}"));
    assert_eq!(e.message, "OpenCode session error");
    let e = typed_error_from_props(&json(r#"{"recoverable":true,"error":{"type":"APIError","message":"m","recoverable":false}}"#));
    assert_eq!((e.message.as_str(), e.kind.as_str(), e.recoverable), ("m", "api", true));
    let e = typed_error_from_props(&json(r#"{"error":{"name":1,"type":"APIError","message":"m"}}"#));
    assert_eq!(e.kind, "unknown");
}

#[test]
fn event_types_are_told_apart() {
    assert_eq!(event_kind("message.updated"), EventKind::MessageUpdated);
    assert_eq!(event_kind("message.part.delta"), EventKind::PartDelta);
    assert_eq!(event_kind("permission.asked"), EventKind::PermissionAsked);
    assert_eq!(event_kind("nothing.known"), EventKind::Other);
}

#[test]
fn redaction_leaves_no_secret() {
    for text in ["a Bearer x sk-1 b", "BEARER bearer sk-2", "sk-", "", " plain  words "] {
        let once = redact_sensitive_text(text);
        let words: Vec<&str> = once.split_whitespace().collect();
        assert_eq!(words.len(), text.split_whitespace().count());
        assert_eq!(words.join(" "), once);
        assert!(words.iter().all(|w| !w.starts_with("sk-") && !w.eq_ignore_ascii_case("bearer")));
        assert_eq!(redact_sensitive_text(&once), once);
    }
}

#[test]
fn errors_are_classified_by_what_they_say_in_small_letters() {
    assert_eq!(classify_error("", "token limit reached", "token limit reached"), "context_overflow");
    assert_eq!(classify_error("APIError", "x", "auth"), "api");
    assert_eq!(classify_error("", "x auth", "x"), "unknown");
    assert_eq!(classify_error("", "x", "not authorised"), "provider_auth");
    assert_eq!(classify_error("", "x", "aborted"), "aborted");
    assert_eq!(error_kind("", "ABORTED", ""), "aborted");
    assert_eq!(error_kind("", "Maximum CONTEXT", ""), "context_overflow");
}

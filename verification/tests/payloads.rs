use aionui_ai_agent::json::Json;
use aionui_ai_agent::payloads::{
    DesiredModel, OpencodeAuthBody, OpencodeCommandRequest, OpencodeForkRequest, OpencodeLogEntry,
    OpencodeMcpAddRequest, OpencodeMcpRemoteConfig, OpencodeOAuthAuthorizeRequest,
    OpencodeOAuthCallbackRequest, OpencodePermissionReply, OpencodePromptRequest,
    OpencodeQuestionReply, OpencodeRevertRequest, OpencodeSessionCreate, OpencodeSummarizeRequest,
    OpencodeSyncHistoryRequest, OpencodeSyncStealRequest, OpencodeV2CompactRequest,
    OpencodeV2PromptRequest, OpencodeV2PromptText, PermissionRule, PromptModel, PromptPart,
};
use serde_json::Value;

fn to_value(j: &Json) -> Value {
    serde_json::from_str(&j.to_text()).expect("a document")
}

fn json(text: &str) -> Value {
    serde_json::from_str(text).expect("a document")
}

#[test]
fn prompt_request_minimal_only_parts() {
    let req = OpencodePromptRequest::text("hello");
    let v = to_value(&req.to_json());
    assert_eq!(v, json(r#"{ "parts": [{ "type": "text", "text": "hello" }] }"#));
}

#[test]
fn prompt_request_full_field_set() {
    let req = OpencodePromptRequest {
        parts: vec![PromptPart::text("body")],
        message_id: Some("msg_1".into()),
        system: Some("hint".into()),
        model: Some(PromptModel {
            provider_id: "anthropic".into(),
            model_id: "sonnet-4-5".into(),
        }),
        agent: Some("build".into()),
        skills: vec!["s1".into()],
    };
    let v = to_value(&req.to_json());
    assert_eq!(
        v,
        json(
            r#"{
                "parts": [{ "type": "text", "text": "body" }],
                "messageID": "msg_1",
                "system": "hint",
                "model": { "providerID": "anthropic", "modelID": "sonnet-4-5" },
                "agent": "build",
                "skills": ["s1"]
            }"#
        )
    );
}

#[test]
fn prompt_request_omits_empty_skills() {
    let req = OpencodePromptRequest {
        parts: vec![PromptPart::text("body")],
        message_id: None,
        system: None,
        model: None,
        agent: None,
        skills: vec![],
    };
    let v = to_value(&req.to_json());
    assert!(v.get("skills").is_none(), "empty skills array must be omitted");
}

#[test]
fn other_parts_name_their_type() {
    assert_eq!(to_value(&PromptPart::Other.to_json()), json(r#"{ "type": "other" }"#));
}

#[test]
fn session_create_default_is_empty_object() {
    let req = OpencodeSessionCreate::default();
    assert_eq!(to_value(&req.to_json()), json("{}"));
}

#[test]
fn session_create_deny_builtin_tools_shape() {
    let req = OpencodeSessionCreate::deny_builtin_tools();
    let v = to_value(&req.to_json());
    let perms = v.get("permission").and_then(|p| p.as_array()).expect("permission array");
    assert_eq!(perms.len(), 5);
    for entry in perms {
        assert_eq!(entry.get("pattern").and_then(|s| s.as_str()), Some("*"));
        assert_eq!(entry.get("action").and_then(|s| s.as_str()), Some("deny"));
    }
    let tools: Vec<&str> =
        perms.iter().map(|e| e.get("permission").and_then(|s| s.as_str()).unwrap()).collect();
    assert_eq!(tools, vec!["bash", "read", "edit", "glob", "grep"]);
}

#[test]
fn a_denial_covers_every_pattern() {
    let rule = PermissionRule::deny("webfetch");
    assert_eq!(
        to_value(&rule.to_json()),
        json(r#"{ "permission": "webfetch", "pattern": "*", "action": "deny" }"#)
    );
}

#[test]
fn fork_request_omits_message_id_when_at_tip() {
    let req = OpencodeForkRequest::default();
    assert_eq!(to_value(&req.to_json()), json("{}"));
    let req = OpencodeForkRequest { message_id: Some("msg_after".into()) };
    assert_eq!(to_value(&req.to_json()), json(r#"{ "messageID": "msg_after" }"#));
}

#[test]
fn revert_request_required_message_id_optional_part_id() {
    let req = OpencodeRevertRequest { message_id: "msg_1".into(), part_id: None };
    assert_eq!(to_value(&req.to_json()), json(r#"{ "messageID": "msg_1" }"#));
    let req = OpencodeRevertRequest { message_id: "msg_1".into(), part_id: Some("prt_2".into()) };
    assert_eq!(to_value(&req.to_json()), json(r#"{ "messageID": "msg_1", "partID": "prt_2" }"#));
}

#[test]
fn summarize_request_shape() {
    let req = OpencodeSummarizeRequest {
        provider_id: "anthropic".into(),
        model_id: "sonnet-4-5".into(),
    };
    assert_eq!(
        to_value(&req.to_json()),
        json(r#"{ "providerID": "anthropic", "modelID": "sonnet-4-5" }"#)
    );
}

#[test]
fn permission_reply_shape() {
    let req = OpencodePermissionReply::new("once");
    assert_eq!(to_value(&req.to_json()), json(r#"{ "reply": "once" }"#));
}

#[test]
fn question_reply_matrix_shape() {
    let req = OpencodeQuestionReply {
        answers: vec![vec!["Postgres".into()], vec!["North".into(), "East".into()]],
    };
    let v = to_value(&req.to_json());
    let arr = v.get("answers").and_then(|a| a.as_array()).unwrap();
    assert_eq!(arr.len(), 2);
    assert_eq!(arr[0], json(r#"["Postgres"]"#));
    assert_eq!(arr[1], json(r#"["North", "East"]"#));
}

#[test]
fn command_request_minimal_only_command() {
    let req = OpencodeCommandRequest { command: "/init".into(), agent: None, model: None };
    assert_eq!(to_value(&req.to_json()), json(r#"{ "command": "/init" }"#));
}

#[test]
fn command_request_with_overrides() {
    let req = OpencodeCommandRequest {
        command: "/review src/main.rs".into(),
        agent: Some("build".into()),
        model: Some("sonnet-4".into()),
    };
    let v = to_value(&req.to_json());
    assert_eq!(v.get("agent").and_then(|s| s.as_str()), Some("build"));
    assert_eq!(v.get("model").and_then(|s| s.as_str()), Some("sonnet-4"));
}

#[test]
fn v2_prompt_request_minimal_text_only() {
    let req = OpencodeV2PromptRequest {
        prompt: OpencodeV2PromptText {
            text: "hello".into(),
            files: vec![],
            agent: None,
            reference: None,
        },
        delivery: Some("immediate".into()),
    };
    let v = to_value(&req.to_json());
    assert_eq!(v, json(r#"{ "prompt": { "text": "hello" }, "delivery": "immediate" }"#));
}

#[test]
fn v2_compact_request_optional_instructions() {
    let req = OpencodeV2CompactRequest::default();
    assert_eq!(to_value(&req.to_json()), json("{}"));
    let req = OpencodeV2CompactRequest { instructions: Some("summarize".into()) };
    assert_eq!(to_value(&req.to_json()), json(r#"{ "instructions": "summarize" }"#));
}

#[test]
fn mcp_add_request_shape() {
    let req = OpencodeMcpAddRequest {
        name: "aionui-local-fs".into(),
        config: OpencodeMcpRemoteConfig::remote("http://127.0.0.1:7117/mcp", "tok-abc", 30_000),
    };
    let v = to_value(&req.to_json());
    assert_eq!(v.get("name").and_then(|s| s.as_str()), Some("aionui-local-fs"));
    let cfg = v.get("config").unwrap();
    assert_eq!(cfg.get("type").and_then(|s| s.as_str()), Some("remote"));
    assert_eq!(cfg.get("url").and_then(|s| s.as_str()), Some("http://127.0.0.1:7117/mcp"));
    assert_eq!(cfg.get("enabled").and_then(|b| b.as_bool()), Some(true));
    assert_eq!(cfg.get("oauth").and_then(|b| b.as_bool()), Some(false));
    let headers = cfg.get("headers").and_then(|h| h.as_object()).unwrap();
    assert_eq!(headers.get("Authorization").and_then(|s| s.as_str()), Some("Bearer tok-abc"));
    assert!(cfg.get("timeout").and_then(|n| n.as_u64()).is_some());
}

#[test]
fn auth_body_api() {
    let body = OpencodeAuthBody::api("sk-abc");
    assert_eq!(to_value(&body.to_json()), json(r#"{ "type": "api", "key": "sk-abc" }"#));
}

#[test]
fn auth_body_wellknown() {
    let body = OpencodeAuthBody::wellknown("zen", "tk-xyz");
    assert_eq!(
        to_value(&body.to_json()),
        json(r#"{ "type": "wellknown", "key": "zen", "token": "tk-xyz" }"#)
    );
}

#[test]
fn other_auth_bodies_pass_unchanged() {
    let custom = Json::from_text(r#"{"type":"oauth","refresh":"r"}"#).unwrap();
    let body = OpencodeAuthBody::Other(custom);
    assert_eq!(to_value(&body.to_json()), json(r#"{ "type": "oauth", "refresh": "r" }"#));
}

#[test]
fn oauth_authorize_minimal_method_only() {
    let req = OpencodeOAuthAuthorizeRequest { method: 0, inputs: None };
    assert_eq!(to_value(&req.to_json()), json(r#"{ "method": 0 }"#));
}

#[test]
fn oauth_authorize_with_inputs() {
    let inputs = vec![("api_key".to_string(), "sk-abc".to_string())];
    let req = OpencodeOAuthAuthorizeRequest { method: 0, inputs: Some(inputs) };
    let v = to_value(&req.to_json());
    assert_eq!(v.get("method").and_then(|n| n.as_u64()), Some(0));
    assert_eq!(
        v.get("inputs").and_then(|i| i.get("api_key")).and_then(|s| s.as_str()),
        Some("sk-abc")
    );
}

#[test]
fn oauth_callback_with_code() {
    let req = OpencodeOAuthCallbackRequest { method: 0, code: Some("auth-code".into()) };
    let v = to_value(&req.to_json());
    assert_eq!(v.get("code").and_then(|s| s.as_str()), Some("auth-code"));
}

#[test]
fn oauth_callback_without_code() {
    let req = OpencodeOAuthCallbackRequest::default();
    let v = to_value(&req.to_json());
    assert!(v.get("code").is_none());
}

#[test]
fn sync_steal_request_shape() {
    let req = OpencodeSyncStealRequest { session_id: "ses_1".into() };
    assert_eq!(to_value(&req.to_json()), json(r#"{ "sessionID": "ses_1" }"#));
}

#[test]
fn sync_history_request_aggregate_seqs() {
    let since = vec![("ses_1".to_string(), 42u64), ("ses_2".to_string(), 0u64)];
    let req = OpencodeSyncHistoryRequest(since);
    let v = to_value(&req.to_json());
    assert_eq!(v.get("ses_1").and_then(|n| n.as_u64()), Some(42));
    assert_eq!(v.get("ses_2").and_then(|n| n.as_u64()), Some(0));
}

#[test]
fn log_entry_shape() {
    let req = OpencodeLogEntry {
        service: "aionui".into(),
        level: "info".into(),
        message: "prompt sent".into(),
        extra: Json::Object(vec![("conversation_id".to_string(), Json::Str("c1".into()))]),
    };
    let v = to_value(&req.to_json());
    assert_eq!(v.get("service").and_then(|s| s.as_str()), Some("aionui"));
    assert_eq!(v.get("level").and_then(|s| s.as_str()), Some("info"));
    assert_eq!(v.get("message").and_then(|s| s.as_str()), Some("prompt sent"));
    assert_eq!(
        v.get("extra").and_then(|e| e.get("conversation_id")).and_then(|s| s.as_str()),
        Some("c1")
    );
}

#[test]
fn desired_model_default_variant() {
    let m = DesiredModel::new("anthropic", "sonnet-4-5");
    assert_eq!(
        to_value(&m.to_json()),
        json(
            r#"{ "modelID": "sonnet-4-5", "providerID": "anthropic", "variant": "default" }"#
        )
    );
}

#[test]
fn desired_model_round_trip() {
    let m = DesiredModel::new("anthropic", "sonnet-4-5");
    let s = m.to_json().to_text();
    let back = DesiredModel::from_json(&Json::from_text(&s).unwrap()).unwrap();
    assert_eq!(back, m);
}

#[test]
fn desired_model_needs_both_names() {
    let v = Json::from_text(r#"{"modelID":"m"}"#).unwrap();
    assert!(DesiredModel::from_json(&v).is_none());
    let v = Json::from_text(r#"{"providerID":"p"}"#).unwrap();
    assert!(DesiredModel::from_json(&v).is_none());
    let v = Json::from_text(r#"{"modelID":"m","providerID":"p","variant":7}"#).unwrap();
    assert!(DesiredModel::from_json(&v).is_none());
    let v = Json::from_text(r#"{"modelID":"m","providerID":"p"}"#).unwrap();
    assert_eq!(DesiredModel::from_json(&v).unwrap().variant, "default");
}

#[test]
fn desired_model_reads_lists() {
    let read = |text: &str| DesiredModel::from_json(&Json::from_text(text).unwrap());
    let m = read(r#"["m","p"]"#).unwrap();
    assert_eq!((m.model_id.as_str(), m.provider_id.as_str(), m.variant.as_str()), ("m", "p", "default"));
    let m = read(r#"["m","p","high"]"#).unwrap();
    assert_eq!((m.model_id.as_str(), m.provider_id.as_str(), m.variant.as_str()), ("m", "p", "high"));
    for refused in ["[]", r#"["m"]"#, r#"["m","p","v","x"]"#, r#"["m",1]"#, r#"["m","p",null]"#, r#""m""#] {
        assert!(read(refused).is_none(), "{refused}");
    }
}

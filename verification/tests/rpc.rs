use aionui_ai_agent::fs_tools::{report_list, EntryKind, ListEntry};
use aionui_ai_agent::json::Json;
use aionui_ai_agent::rpc::{
    auth_ok, constant_time_eq, extract_request_context, handle_rpc, jsonrpc_id_to_string, local_url, tool_reply,
    ContactProbe, RpcFault, RpcHeaders, RpcReply, RpcRequest, RpcStep, ServerIdentity,
};

const TOKEN: &str = "test-token-xyz";

fn who() -> ServerIdentity {
    ServerIdentity {
        protocol_version: "2024-11-05".to_string(),
        name: "aionui-local-fs".to_string(),
        version: "1.0".to_string(),
    }
}

fn headers(authorization: Option<&str>) -> RpcHeaders {
    RpcHeaders {
        authorization: authorization.map(|s| s.to_string()),
        session_id: None,
        parent_session_id: None,
    }
}

fn request(id: &str, method: &str, params: Option<&str>) -> RpcRequest {
    RpcRequest {
        id: Json::from_text(id),
        method: method.to_string(),
        params: params.map(|p| Json::from_text(p).expect("a document")),
    }
}

fn ask(method: &str, params: Option<&str>, authorization: Option<&str>) -> RpcStep {
    handle_rpc(&request("1", method, params), &headers(authorization), TOKEN, &who(), false)
}

fn status(step: &RpcStep) -> u16 {
    match step {
        RpcStep::Answer { status, .. } => *status,
        RpcStep::Call { .. } => 200,
    }
}

#[test]
fn initialize_works_without_auth() {
    let step = ask("initialize", None, None);
    assert_eq!(status(&step), 200);
    match step {
        RpcStep::Answer { reply: RpcReply::Success { result, .. }, .. } => {
            assert_eq!(result.get("serverInfo").unwrap().get_str("name"), Some("aionui-local-fs"));
            assert_eq!(result.get_str("protocolVersion"), Some("2024-11-05"));
        }
        other => panic!("unexpected {other:?}"),
    }
}

#[test]
fn tools_call_requires_auth() {
    let step = ask("tools/call", Some(r#"{"name":"list_dir","arguments":{}}"#), None);
    assert_eq!(status(&step), 401);
    match step {
        RpcStep::Answer { reply: RpcReply::Failure { fault, message, .. }, .. } => {
            assert_eq!(fault.code(), -32603);
            assert_eq!(message, "missing or invalid bearer token");
        }
        other => panic!("unexpected {other:?}"),
    }
}

#[test]
fn tools_call_with_auth_succeeds() {
    let step = ask(
        "tools/call",
        Some(r#"{"name":"list_dir","arguments":{"path":""}}"#),
        Some("Bearer test-token-xyz"),
    );
    assert_eq!(status(&step), 200);
    match step {
        RpcStep::Call { tool, arguments, tool_call_id, .. } => {
            assert_eq!(tool, "list_dir");
            assert_eq!(arguments.get_str("path"), Some(""));
            assert_eq!(tool_call_id.as_deref(), Some("1"));
        }
        other => panic!("unexpected {other:?}"),
    }
    let listed = report_list(
        "",
        &Ok(vec![ListEntry { name: "a.txt".to_string(), kind: EntryKind::File, size: Some(2) }]),
    )
    .unwrap();
    match tool_reply(&Json::from_text("3"), &listed, false) {
        RpcReply::Success { result, .. } => {
            let text = result.get_array("content").unwrap()[0].get_str("text").unwrap().to_string();
            assert!(text.contains("a.txt"));
            assert_eq!(result.get("isError").unwrap().as_bool(), Some(false));
        }
        other => panic!("unexpected {other:?}"),
    }
}

#[test]
fn first_contact_is_recorded_on_any_request() {
    let mut probe = ContactProbe::new();
    assert!(!probe.was_contacted());
    assert!(probe.record());
    assert!(probe.was_contacted());
    assert!(!probe.record());
    probe.reset();
    assert!(!probe.was_contacted());
}

#[test]
fn read_with_wrong_token_is_rejected() {
    let step = ask(
        "tools/call",
        Some(r#"{"name":"read_file","arguments":{"path":"a.txt"}}"#),
        Some("Bearer wrong"),
    );
    assert_eq!(status(&step), 401);
}

#[test]
fn only_beginning_and_notifying_are_open() {
    assert_eq!(status(&ask("notifications/initialized", None, None)), 204);
    assert_eq!(status(&ask("notifications/cancelled", None, None)), 204);
    assert_eq!(status(&ask("ping", None, None)), 401);
    assert_eq!(status(&ask("tools/list", None, None)), 401);
    assert_eq!(status(&ask("ping", None, Some("Bearer test-token-xyz"))), 200);
}

#[test]
fn tools_are_listed_as_they_can_be_used() {
    for (has_approver, n) in [(false, 6), (true, 7)] {
        let step = handle_rpc(
            &request("1", "tools/list", None),
            &headers(Some("Bearer test-token-xyz")),
            TOKEN,
            &who(),
            has_approver,
        );
        match step {
            RpcStep::Answer { reply: RpcReply::Success { result, .. }, .. } => {
                let tools = result.get_array("tools").unwrap();
                assert_eq!(tools.len(), n);
                assert_eq!(tools[0].get_str("name"), Some("read_file"));
                assert!(tools[0].get("inputSchema").is_some());
            }
            other => panic!("unexpected {other:?}"),
        }
    }
}

#[test]
fn odd_requests_are_answered() {
    let key = Some("Bearer test-token-xyz");
    match ask("tools/call", None, key) {
        RpcStep::Answer { reply: RpcReply::Failure { fault: RpcFault::InvalidParams, message, .. }, .. } => {
            assert_eq!(message, "missing tool name")
        }
        other => panic!("unexpected {other:?}"),
    }
    match ask("resources/list", None, key) {
        RpcStep::Answer { status, reply: RpcReply::Failure { fault, message, .. } } => {
            assert_eq!(status, 200);
            assert_eq!(fault.code(), -32601);
            assert_eq!(message, "method not found: resources/list");
        }
        other => panic!("unexpected {other:?}"),
    }
    assert_eq!(RpcFault::InvalidParams.code(), -32602);
    match ask("tools/call", Some(r#"{"name":"list_dir"}"#), key) {
        RpcStep::Call { arguments, .. } => assert!(matches!(arguments, Json::Object(o) if o.is_empty())),
        other => panic!("unexpected {other:?}"),
    }
}

#[test]
fn tokens_are_compared_whole() {
    assert!(auth_ok(&Some("Bearer abc".to_string()), "abc"));
    assert!(!auth_ok(&Some("Bearer abcd".to_string()), "abc"));
    assert!(!auth_ok(&Some("bearer abc".to_string()), "abc"));
    assert!(!auth_ok(&Some("abc".to_string()), "abc"));
    assert!(!auth_ok(&None, ""));
    assert!(constant_time_eq(b"", b""));
    assert!(constant_time_eq(&[1, 2], &[1, 2]));
    assert!(!constant_time_eq(&[1, 2], &[1, 3]));
    assert!(!constant_time_eq(&[1], &[1, 3]));
}

#[test]
fn ids_become_texts() {
    let text = |id: &str| jsonrpc_id_to_string(&Json::from_text(id).unwrap());
    assert_eq!(text(r#""call-1""#), "call-1");
    assert_eq!(text("7"), "7");
    assert_eq!(text("-7"), "-7");
    assert_eq!(text("1.5"), "1.5");
    assert_eq!(text("null"), "");
    assert_eq!(text("[1]"), "[1]");
    let step = handle_rpc(
        &request("null", "tools/call", Some(r#"{"name":"list_dir"}"#)),
        &headers(Some("Bearer test-token-xyz")),
        TOKEN,
        &who(),
        false,
    );
    assert!(matches!(step, RpcStep::Call { tool_call_id: None, .. }));
}

#[test]
fn sessions_come_from_the_headers() {
    let mut h = headers(None);
    h.session_id = Some("ses_1".to_string());
    h.parent_session_id = Some("".to_string());
    let c = extract_request_context(&h);
    assert_eq!(c.session_id.as_deref(), Some("ses_1"));
    assert_eq!(c.parent_session_id, None);
    assert_eq!(local_url("127.0.0.1:80"), "http://127.0.0.1:80/");
}

use aionui_ai_agent::config::{
    append_query_param, append_v1_directory, append_v1_directory_value, append_v2_location,
    auth, build_auth_header, build_permission_reply_request, encode_query_value, event_path,
    is_opencode_protocol, is_server_tool_host, normalize_base_url, resolve_local_workspace,
    server_directory, RemoteAgentConfig,
};
use aionui_ai_agent::json::Json;
use base64::engine::general_purpose::STANDARD as BASE64;
use base64::Engine;
use std::path::Path;

fn json(text: &str) -> Json {
    Json::from_text(text).expect("a document")
}

fn config(protocol: &str, tool_host: &str) -> RemoteAgentConfig {
    RemoteAgentConfig {
        remote_agent_id: "ra".into(),
        protocol: protocol.into(),
        url: "http://127.0.0.1:4096".into(),
        auth_type: "none".into(),
        auth_token: None,
        allow_insecure: false,
        tool_host: tool_host.into(),
    }
}

#[test]
fn encodes_spaces_and_special_chars() {
    assert_eq!(encode_query_value("/home/user/my project"), "/home/user/my%20project");
}

fn decode(text: &str) -> Vec<u8> {
    let mut bytes = Vec::new();
    let mut rest = text.as_bytes();
    while let Some((first, others)) = rest.split_first() {
        if *first == b'%' {
            let pair = std::str::from_utf8(&others[..2]).unwrap();
            bytes.push(u8::from_str_radix(pair, 16).unwrap());
            rest = &others[2..];
        } else {
            bytes.push(*first);
            rest = others;
        }
    }
    bytes
}

#[test]
fn encoded_values_decode_to_the_text() {
    for text in ["", "a b&c=d", "100%", "%41", "/x/\u{e4}\u{4e2d}\u{1f600}", "~_-.Z9"] {
        assert_eq!(decode(&encode_query_value(text)), text.as_bytes());
    }
    assert_eq!(encode_query_value("%41"), "%2541");
}

#[test]
fn appends_directory_in_server_mode() {
    let cfg = config("opencode", "server");
    let url = append_v1_directory("http://h/session", &cfg, "/repo/app");
    assert!(url.contains("directory=/repo/app") || url.contains("directory=%2Frepo%2Fapp"));
}

#[test]
fn skips_directory_in_local_mode() {
    let cfg = config("opencode", "local");
    assert_eq!(append_v1_directory("http://h/session", &cfg, "/repo/app"), "http://h/session");
}

#[test]
fn a_second_parameter_is_joined_by_an_ampersand() {
    let cfg = config("opencode", "server");
    assert_eq!(
        append_v1_directory("http://h/s?a=b", &cfg, "/r"),
        "http://h/s?a=b&directory=/r"
    );
    assert_eq!(
        append_v2_location("http://h/s", &cfg, "/r"),
        "http://h/s?location[directory]=/r"
    );
    assert_eq!(append_v1_directory_value("http://h/s", Some("/r")), "http://h/s?directory=/r");
    assert_eq!(append_v1_directory_value("http://h/s", None), "http://h/s");
    let mut url = "http://h/s".to_string();
    append_query_param(&mut url, "q", "x y");
    assert_eq!(url, "http://h/s?q=x%20y");
    append_query_param(&mut url, "n", "1");
    assert_eq!(url, "http://h/s?q=x%20y&n=1");
}

#[test]
fn blank_workspaces_name_no_directory() {
    let cfg = config("opencode", "server");
    assert_eq!(server_directory(&cfg, "  "), None);
    assert_eq!(server_directory(&cfg, " /repo "), Some("/repo".to_string()));
    assert_eq!(server_directory(&config("opencode", "local"), "/repo"), None);
}

#[test]
fn normalize_url_strips_trailing_slash() {
    assert_eq!(normalize_base_url("http://127.0.0.1:4096/"), "http://127.0.0.1:4096");
    assert_eq!(normalize_base_url("http://127.0.0.1:4096"), "http://127.0.0.1:4096");
}

#[test]
fn is_opencode_detects_protocol() {
    assert!(is_opencode_protocol("opencode"));
    assert!(!is_opencode_protocol("openclaw"));
    assert!(!is_opencode_protocol("acp"));
}

#[test]
fn auth_header_bearer() {
    let h = build_auth_header("bearer", Some("secret"));
    assert_eq!(h, Some("Bearer secret".to_string()));
}

#[test]
fn auth_header_password() {
    let h = build_auth_header("password", Some("secret"));
    let expected = format!("Basic {}", BASE64.encode("opencode:secret"));
    assert_eq!(h, Some(expected));
}

#[test]
fn auth_header_basic_uses_supplied_credentials() {
    let h = build_auth_header("basic", Some("user:secret"));
    let expected = format!("Basic {}", BASE64.encode("user:secret"));
    assert_eq!(h, Some(expected));
}

#[test]
fn auth_header_none_returns_none() {
    let h = build_auth_header("none", Some("secret"));
    assert_eq!(h, None);
}

#[test]
fn auth_header_empty_token_returns_none() {
    let h = build_auth_header("bearer", Some(""));
    assert_eq!(h, None);
    let h = build_auth_header("bearer", None);
    assert_eq!(h, None);
}

#[test]
fn a_configuration_gives_its_own_header() {
    let mut cfg = config("opencode", "local");
    assert_eq!(auth(&cfg), None);
    cfg.auth_type = "bearer".into();
    cfg.auth_token = Some("t".into());
    assert_eq!(auth(&cfg), Some("Bearer t".to_string()));
}

#[test]
fn server_tool_host_only_for_opencode_server_value() {
    let mut cfg = RemoteAgentConfig {
        remote_agent_id: "ra".into(),
        protocol: "opencode".into(),
        url: "http://h".into(),
        auth_type: "none".into(),
        auth_token: None,
        allow_insecure: false,
        tool_host: "server".into(),
    };
    assert!(is_server_tool_host(&cfg));
    cfg.tool_host = "local".into();
    assert!(!is_server_tool_host(&cfg));
    cfg.tool_host = "".into();
    assert!(!is_server_tool_host(&cfg));
    cfg.protocol = "openclaw".into();
    cfg.tool_host = "server".into();
    assert!(!is_server_tool_host(&cfg));
}

#[test]
fn permission_reply_uses_canonical_endpoint() {
    let (url, body) = build_permission_reply_request("http://127.0.0.1:4096", "per_abc", "once");
    assert_eq!(url, "http://127.0.0.1:4096/permission/per_abc/reply");
    assert_eq!(body, json(r#"{ "reply": "once" }"#));

    let (_, body) = build_permission_reply_request("http://h", "per_x", "reject");
    assert_eq!(body, json(r#"{ "reply": "reject" }"#));
    assert!(body.get("response").is_none());
}

#[test]
fn config_includes_protocol() {
    let config = RemoteAgentConfig {
        remote_agent_id: "ra_test".to_string(),
        protocol: "opencode".to_string(),
        url: "http://127.0.0.1:4096".to_string(),
        auth_type: "none".to_string(),
        auth_token: None,
        allow_insecure: false,
        tool_host: "local".to_string(),
    };
    assert_eq!(config.protocol, "opencode");
}

fn resolve(workspace: &str, fallback: &Path) -> String {
    let fallback_text = fallback.to_string_lossy().into_owned();
    resolve_local_workspace(workspace, Path::new(workspace).is_dir(), &fallback_text, fallback.is_dir())
}

#[test]
fn resolve_local_workspace_keeps_existing_local_directory() {
    let workspace = tempfile::TempDir::new().unwrap();
    let fallback = tempfile::TempDir::new().unwrap();
    let resolved = resolve(&workspace.path().to_string_lossy(), fallback.path());
    assert_eq!(resolved, workspace.path().to_string_lossy());
}

#[test]
fn resolve_local_workspace_uses_work_dir_for_non_local_remote_directory() {
    let fallback = tempfile::TempDir::new().unwrap();
    let work_dir = fallback.path().to_string_lossy().into_owned();
    let resolved = resolve_local_workspace("/app", false, &work_dir, fallback.path().is_dir());
    assert_eq!(resolved, fallback.path().to_string_lossy());
}

#[test]
fn resolve_local_workspace_keeps_original_when_no_local_fallback_exists() {
    let root = tempfile::TempDir::new().unwrap();
    let stored = root.path().join("remote-only");
    let fallback = root.path().join("missing-work-dir");
    let stored = stored.to_string_lossy().into_owned();
    let resolved = resolve(&stored, &fallback);
    assert_eq!(resolved, stored);
}

#[test]
fn the_event_route_follows_the_api_description() {
    assert_eq!(event_path(None), "/global/event");
    let old = json(r#"{ "paths": { "/event": {} } }"#);
    assert_eq!(event_path(Some(&old)), "/event");
    let both = json(r#"{ "paths": { "/event": {}, "/global/event": {} } }"#);
    assert_eq!(event_path(Some(&both)), "/global/event");
}

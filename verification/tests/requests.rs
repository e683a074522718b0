use aionui_ai_agent::agent_task::{
    acp_model_info, entries_in_order, find_entry, map_opencode_file_nodes, AgentInstance, Answer, Confirmed,
};
use aionui_ai_agent::aionrs::{AionrsAgentManager, ToolDecision};
use aionui_ai_agent::config::RemoteAgentConfig;
use aionui_ai_agent::factory::{
    build, build_agent, load_remote_agent, refuse_options, seed, token_to_decrypt, RemoteAgentRow, RemoteBuildExtra,
};
use aionui_ai_agent::fs_requests::{
    fetch_path, find_files, find_symbols, find_text, list_files, list_formatters, read_file_content, read_tree_reply,
};
use aionui_ai_agent::http::{HttpMethod, HttpReply};
use aionui_ai_agent::json::Json;
use aionui_ai_agent::manager::{
    created_session, edited_part, forked_session, read_config_reply, read_creation_reply, read_delete_reply,
    read_message_reply, read_patch_reply, read_session_reply, shared_link, split_model, RemoteAgentManager,
};
use aionui_ai_agent::models::{default_opencode_agent_modes, ModelInfoPayload};
use aionui_ai_agent::provider_auth::{
    complete_provider_oauth, complete_provider_oauth_legacy, delete_provider_auth, list_provider_auth_methods,
    list_providers, needs_legacy, provider_url, read_deletion, read_provider_reply, recomplete_provider_oauth,
    restart_provider_oauth, set_api_key, set_provider_auth, set_wellknown_auth, start_provider_oauth,
    start_provider_oauth_legacy,
};
use aionui_ai_agent::types::{AgentStreamEvent, AgentType, AppError, Effect};

fn config(protocol: &str, tool_host: &str) -> RemoteAgentConfig {
    RemoteAgentConfig {
        remote_agent_id: "ra".to_string(),
        protocol: protocol.to_string(),
        url: "http://h:1/".to_string(),
        auth_type: "none".to_string(),
        auth_token: None,
        allow_insecure: false,
        tool_host: tool_host.to_string(),
    }
}

fn manager(protocol: &str, session: Option<&str>) -> RemoteAgentManager {
    RemoteAgentManager::new(
        "conv".to_string(),
        "/ws".to_string(),
        config(protocol, "server"),
        session.map(|s| s.to_string()),
    )
}

fn json(text: &str) -> Json {
    Json::from_text(text).expect("a document")
}

fn refused() -> HttpReply {
    HttpReply::Refused { status: "404 Not Found".to_string(), body: "gone".to_string() }
}

fn body_text(body: Option<Json>) -> String {
    body.map(|b| b.to_text()).unwrap_or_default()
}

#[test]
fn requests_about_files() {
    let local = config("opencode", "local");
    assert_eq!(fetch_path(&local, "/ws").url, "http://h:1/path");
    assert_eq!(list_formatters(&local, "/ws").url, "http://h:1/formatter");
    assert!(list_files(&local, "/ws", "a b").url.starts_with("http://h:1/file?path=a%20b"));
    let server = config("opencode", "server");
    let q = find_files(&server, "/ws", "x&y", Some(5));
    assert!(q.url.starts_with("http://h:1/find/file?"), "{}", q.url);
    assert!(q.url.contains("query=x%26y") && q.url.ends_with("&limit=5"), "{}", q.url);
    assert_eq!(find_text(&server, "/ws", "p", None).timeout_secs, 60);
    assert!(find_symbols(&local, "/ws", "S").url.ends_with("/find/symbol?query=S"));
    let q = read_file_content(&local, "/ws", "a", Some(1), None);
    assert_eq!(q.method, HttpMethod::Post);
    assert_eq!(body_text(q.body), r#"{"path":"a","start":1}"#);
    assert_eq!(
        read_tree_reply(&refused(), "GET /path"),
        Err(AppError::BadGateway("OpenCode GET /path returned 404 Not Found: gone".to_string()))
    );
    assert_eq!(read_tree_reply(&HttpReply::Answered("[1]".to_string()), "x").unwrap().to_text(), "[1]");
}

#[test]
fn requests_about_credentials() {
    let c = config("opencode", "local");
    assert_eq!(provider_url("http://h", "/a"), "http://h/a");
    assert_eq!(set_provider_auth(&c, "openai", json("{}")).timeout_secs, 15);
    let q = set_api_key(&c, "openai", "k");
    assert_eq!((q.method, q.url.as_str()), (HttpMethod::Put, "http://h:1/auth/openai"));
    assert_eq!(body_text(q.body), r#"{"key":"k","type":"api"}"#);
    let q = set_wellknown_auth(&c, "p", "k", "t");
    assert_eq!(body_text(q.body), r#"{"key":"k","token":"t","type":"wellknown"}"#);
    assert_eq!(delete_provider_auth(&c, "p").method, HttpMethod::Delete);
    assert_eq!(read_deletion(&HttpReply::Answered("x".to_string())), None);
    assert_eq!(
        read_deletion(&HttpReply::Unsent("e".to_string())),
        Some(AppError::BadGateway("OpenCode DELETE /auth failed: e".to_string()))
    );
    assert_eq!(
        read_deletion(&refused()),
        Some(AppError::BadGateway("OpenCode DELETE /auth returned 404 Not Found: gone".to_string()))
    );
    assert_eq!(list_providers(&c).url, "http://h:1/provider");
    assert_eq!(list_provider_auth_methods(&c).url, "http://h:1/provider/auth");
}

#[test]
fn authorisations_are_begun_and_completed() {
    let c = config("opencode", "local");
    let q = start_provider_oauth(&c, "p", 1, &vec![("host".to_string(), "x".to_string())]);
    assert_eq!(q.url, "http://h:1/provider/p/oauth/authorize");
    assert_eq!(body_text(q.body), r#"{"inputs":{"host":"x"},"method":1}"#);
    assert_eq!(body_text(start_provider_oauth(&c, "p", 0, &vec![]).body), r#"{"method":0}"#);
    assert_eq!(start_provider_oauth_legacy(&c, "p").method, HttpMethod::Get);
    assert!(needs_legacy(404) && needs_legacy(405) && !needs_legacy(400));
    assert_eq!(restart_provider_oauth(&c, "p", 405), Some(start_provider_oauth_legacy(&c, "p")));
    assert_eq!(restart_provider_oauth(&c, "p", 200), None);
    assert_eq!(recomplete_provider_oauth(&c, "p", None, 500), None);
    assert_eq!(
        recomplete_provider_oauth(&c, "p", None, 404),
        Some(Err(AppError::BadRequest("OAuth authorization code is required".to_string())))
    );
    let again = recomplete_provider_oauth(&c, "p", Some("a b"), 404).unwrap().unwrap();
    assert_eq!(again.url, "http://h:1/provider/p/oauth/callback?code=a%20b");
    let q = complete_provider_oauth(&c, "p", 2, Some("co de"));
    assert_eq!(body_text(q.body), r#"{"code":"co de","method":2}"#);
    assert_eq!(body_text(complete_provider_oauth(&c, "p", 2, Some("")).body), r#"{"method":2}"#);
    assert_eq!(
        complete_provider_oauth_legacy(&c, "p", Some("co de")).unwrap().url,
        "http://h:1/provider/p/oauth/callback?code=co%20de"
    );
    assert!(complete_provider_oauth_legacy(&c, "p", None).is_err());
    assert_eq!(read_provider_reply(&HttpReply::Answered(String::new()), "a", "b").unwrap().to_text(), "null");
    assert_eq!(
        read_provider_reply(&HttpReply::Unsent("e".to_string()), "a", "b"),
        Err(AppError::BadGateway("OpenCode a failed: e".to_string()))
    );
}

#[test]
fn requests_about_the_session() {
    let m = manager("opencode", Some("s"));
    assert_eq!(m.opencode_delete_message("m1").unwrap().url, "http://h:1/session/s/message/m1");
    assert_eq!(
        m.opencode_delete_message_part("m1", "p1").unwrap().url,
        "http://h:1/session/s/message/m1/part/p1"
    );
    assert_eq!(m.opencode_share().unwrap().method, HttpMethod::Post);
    assert_eq!(m.opencode_unshare().unwrap().method, HttpMethod::Delete);
    assert_eq!(m.opencode_unrevert().unwrap().url, "http://h:1/session/s/unrevert");
    assert_eq!(m.opencode_session_diff(Some("msg_1")).unwrap().url, "http://h:1/session/s/diff?messageID=msg_1");
    assert_eq!(m.opencode_session_diff(Some("local")).unwrap().url, "http://h:1/session/s/diff");
    assert_eq!(
        body_text(m.opencode_revert("msg_1", Some("prt_1")).unwrap().body),
        r#"{"messageID":"msg_1","partID":"prt_1"}"#
    );
    assert_eq!(body_text(m.opencode_revert("msg_1", Some("x")).unwrap().body), r#"{"messageID":"msg_1"}"#);
    assert!(m.opencode_fork_lookup(Some("msg_1")).unwrap().is_some());
    assert!(m.opencode_fork_lookup(Some("local")).unwrap().is_none());
    assert_eq!(m.opencode_fork(None, &json("[]")).unwrap().url, "http://h:1/session/s/fork");
    let transcript = json(r#"[{"info":{"id":"msg_1"}},{"info":{"id":"msg_2"}}]"#);
    assert_eq!(
        body_text(m.opencode_fork(Some("msg_1"), &transcript).unwrap().body),
        r#"{"messageID":"msg_2"}"#
    );
    assert_eq!(body_text(m.opencode_fork(Some("msg_2"), &transcript).unwrap().body), "{}");
    assert_eq!(body_text(m.opencode_fork(Some("local"), &transcript).unwrap().body), "{}");
    assert_eq!(
        manager("opencode", None).opencode_share(),
        Err(AppError::BadRequest("No active OpenCode session for this conversation".to_string()))
    );
    assert_eq!(
        manager("openclaw", Some("s")).opencode_share(),
        Err(AppError::BadRequest(
            "Message edit/delete is only supported for OpenCode remote conversations".to_string()
        ))
    );
}

#[test]
fn requests_about_the_server() {
    let m = manager("opencode", None);
    assert_eq!(m.opencode_get_global_config().unwrap().url, "http://h:1/global/config");
    assert_eq!(m.opencode_get_effective_config().unwrap().url, "http://h:1/config?directory=/ws");
    assert_eq!(m.opencode_get_lsp_status().unwrap().url, "http://h:1/lsp");
    assert_eq!(m.opencode_get_vcs_info().unwrap().url, "http://h:1/vcs?directory=/ws");
    assert_eq!(m.opencode_get_vcs_status().unwrap().url, "http://h:1/vcs/status?directory=/ws");
    assert_eq!(m.opencode_get_vcs_diff("branch").unwrap().url, "http://h:1/vcs/diff?mode=branch&directory=/ws");
    assert_eq!(m.opencode_get_vcs_diff("odd").unwrap().url, "http://h:1/vcs/diff?mode=git&directory=/ws");
    let mut local = manager("opencode", None);
    local.remote_config.tool_host = "local".to_string();
    assert_eq!(local.opencode_get_vcs_info().unwrap().url, "http://h:1/vcs");
    assert_eq!(local.opencode_get_effective_config().unwrap().url, "http://h:1/config");
    assert_eq!(m.opencode_patch_global_config(json("{}")).unwrap().method, HttpMethod::Patch);
    assert_eq!(
        m.opencode_patch_global_config(json("1")),
        Err(AppError::BadRequest("Global config patch must be a JSON object".to_string()))
    );
    assert_eq!(
        manager("openclaw", None).fetch_v2_model_list(),
        Some(AppError::BadRequest("V2 models is only available for OpenCode remote connections".to_string()))
    );
    assert_eq!(m.fetch_sync_history(), None);
}

#[test]
fn newer_routes_need_a_session() {
    let m = manager("opencode", Some("s"));
    assert_eq!(m.require_opencode_session().unwrap(), "s");
    assert_eq!(m.opencode_get_context().unwrap(), "s");
    assert_eq!(m.opencode_v2_messages().unwrap(), "s");
    assert_eq!(m.opencode_send_v2().unwrap(), "s");
    assert_eq!(m.offered_session("Compact").unwrap(), "s");
    assert_eq!(m.fetch_v2_provider_list(), None);
    let other = manager("openclaw", Some("s"));
    let refusal = |feature: &str| {
        AppError::BadRequest(format!("{feature} is only available for OpenCode remote connections"))
    };
    assert_eq!(other.opencode_get_context(), Err(refusal("Context")));
    assert_eq!(other.opencode_v2_messages(), Err(refusal("V2 messages")));
    assert_eq!(other.fetch_v2_provider_list(), Some(refusal("V2 providers")));
    assert_eq!(other.refuse_feature("VCS"), Some(refusal("VCS")));
    assert!(other.opencode_send_v2().is_err());
    assert!(manager("opencode", None).opencode_get_context().is_err());
}

#[test]
fn sessions_are_created_with_what_they_may_do() {
    let mut m = manager("opencode", None);
    let q = m.opencode_create_session();
    assert_eq!((q.url.as_str(), body_text(q.body).as_str()), ("http://h:1/session", "{}"));
    m.remote_config.tool_host = "local".to_string();
    let denied = m.opencode_create_session().body.unwrap();
    let tools: Vec<&str> =
        denied.get_array("permission").unwrap().iter().filter_map(|p| p.get_str("permission")).collect();
    assert_eq!(tools, vec!["bash", "read", "edit", "glob", "grep"]);
    assert!(denied.to_text().contains(r#"{"action":"deny","pattern":"*","permission":"bash"}"#));
}

#[test]
fn an_edit_is_looked_up_and_sent() {
    let m = manager("opencode", Some("s"));
    assert_eq!(m.opencode_edit_lookup("m1").unwrap().url, "http://h:1/session/s/message/m1");
    let message = json(r#"{"parts":[{"id":"p1","type":"text","text":"old"}]}"#);
    let q = m.opencode_edit_message_part(&message, "m1", "p1", "new").unwrap();
    assert_eq!((q.method, q.url.as_str()), (HttpMethod::Patch, "http://h:1/session/s/message/m1/part/p1"));
    assert_eq!(body_text(q.body), r#"{"id":"p1","text":"new","type":"text"}"#);
    assert_eq!(
        m.opencode_edit_message_part(&message, "m1", "p2", "new"),
        Err(AppError::NotFound("part 'p2' not found on message 'm1'".to_string()))
    );
}

#[test]
fn remote_operations_are_for_remote_agents() {
    let remote = AgentInstance::Remote(manager("opencode", Some("s")));
    let refusal = |what: &str| {
        AppError::BadRequest(format!("{what} is only supported for OpenCode remote conversations"))
    };
    assert_eq!(remote.delete_remote_message_part("m", "p").unwrap().url, "http://h:1/session/s/message/m/part/p");
    assert_eq!(remote.edit_remote_message_part("m").unwrap().url, "http://h:1/session/s/message/m");
    assert_eq!(remote.revert_remote_session("m", None).unwrap().url, "http://h:1/session/s/revert");
    assert_eq!(remote.unrevert_remote_session().unwrap().url, "http://h:1/session/s/unrevert");
    assert!(remote.summarize_remote_session().is_err());
    assert_eq!(remote.share_remote_session().unwrap().url, "http://h:1/session/s/share");
    assert_eq!(remote.unshare_remote_session().unwrap().method, HttpMethod::Delete);
    assert_eq!(remote.remote_session_diff(None).unwrap().url, "http://h:1/session/s/diff");
    assert_eq!(remote.get_global_config().unwrap().url, "http://h:1/global/config");
    assert!(remote.patch_global_config(json("[]")).is_err());
    assert_eq!(remote.get_effective_config().unwrap().url, "http://h:1/config?directory=/ws");
    assert_eq!(remote.get_lsp_status().unwrap().url, "http://h:1/lsp");
    assert_eq!(remote.get_vcs_info().unwrap().url, "http://h:1/vcs?directory=/ws");
    assert_eq!(remote.get_vcs_status().unwrap().url, "http://h:1/vcs/status?directory=/ws");
    assert!(remote.get_vcs_diff("git").unwrap().url.contains("mode=git"));
    assert!(remote.fork_remote_session(Some("msg_1")).unwrap().is_some());
    assert_eq!(remote.fetch_v2_provider_list(), None);
    assert!(remote.remote_list_files("a").unwrap().url.ends_with("path=a"));
    assert_eq!(remote.remote_read_file("a").unwrap().method, HttpMethod::Post);
    assert!(remote.remote_find_files("q", None).unwrap().url.contains("/find/file?"));
    assert!(remote.remote_find_text("p", Some(3)).unwrap().url.ends_with("&limit=3"));
    assert!(remote.remote_find_symbols("s").unwrap().url.contains("/find/symbol?"));
    assert_eq!(aionrs().get_vcs_info(), Err(refusal("VCS")));
    assert_eq!(aionrs().get_lsp_status(), Err(refusal("LSP status")));
    assert_eq!(aionrs().get_global_config(), Err(refusal("Global config")));
    assert!(aionrs().share_remote_session().is_err());
    assert!(aionrs().fork_remote_session(None).is_err());
    assert!(aionrs().remote_list_files("a").is_err());
    assert!(aionrs().fetch_v2_provider_list().is_some());
}

#[test]
fn summaries_need_a_model() {
    let mut m = manager("opencode", Some("s"));
    assert_eq!(
        m.opencode_summarize(),
        Err(AppError::BadRequest("Select a model before summarizing".to_string()))
    );
    m.set_model("p::q");
    let q = m.opencode_summarize().unwrap();
    assert_eq!(body_text(q.body), r#"{"modelID":"q","providerID":"p"}"#);
    assert!(m.opencode_compact(Ok(())).unwrap().is_none());
    let unknown = AppError::BadGateway("returned 404 Not Found".to_string());
    assert!(m.opencode_compact(Err(unknown)).unwrap().is_some());
    let other = AppError::BadGateway("returned 500".to_string());
    assert!(m.opencode_compact(Err(other)).is_err());
}

#[test]
fn models_and_modes_are_selected() {
    let mut m = manager("opencode", None);
    m.set_model("p::q");
    assert_eq!(m.get_model(vec![]).current_model_id.as_deref(), Some("q"));
    m.set_model("r");
    assert_eq!(m.state.desired_model.as_ref().unwrap().get_str("providerID"), Some("p"));
    assert_eq!(split_model("p::q"), Some(("p".to_string(), "q".to_string())));
    assert_eq!(split_model("q"), None);
    let modes = default_opencode_agent_modes();
    let first = m.mode(default_opencode_agent_modes());
    assert_eq!((first.mode.as_str(), first.initialized), ("build", false));
    assert_eq!(first.available_modes.unwrap().len(), 2);
    assert!(m.set_mode(" plan ", &modes).is_ok());
    let chosen = m.mode(vec![]);
    assert_eq!((chosen.mode.as_str(), chosen.initialized), ("plan", true));
    assert_eq!(
        m.set_mode("odd", &modes),
        Err(AppError::BadRequest("Unsupported OpenCode mode 'odd'".to_string()))
    );
    assert_eq!(
        manager("acp", None).set_mode("plan", &modes),
        Err(AppError::BadRequest("Mode switching is not supported for remote protocol 'acp'".to_string()))
    );
}

#[test]
fn an_edit_changes_the_words_alone() {
    let message = json(
        r#"{"parts":[{"id":"p1","type":"text","text":"old","time":1},{"id":"p2","type":"tool"}]}"#,
    );
    let part = edited_part(&message, "m", "p1", "new").unwrap();
    assert_eq!(part.to_text(), r#"{"id":"p1","text":"new","time":1,"type":"text"}"#);
    assert!(matches!(edited_part(&message, "m", "p2", "new"), Err(AppError::BadRequest(_))));
    assert_eq!(
        edited_part(&message, "m", "p3", "new"),
        Err(AppError::NotFound("part 'p3' not found on message 'm'".to_string()))
    );
}

#[test]
fn answers_of_the_server_are_read() {
    let ok = |t: &str| HttpReply::Answered(t.to_string());
    assert_eq!(read_creation_reply(&ok(r#"{"id":"s"}"#)).unwrap(), "s");
    assert_eq!(created_session(&json(r#"{"id":"s"}"#)).unwrap(), "s");
    assert_eq!(forked_session(&json(r#"{"id":"f"}"#)).unwrap(), "f");
    assert_eq!(
        forked_session(&json("{}")),
        Err(AppError::BadGateway("OpenCode fork response missing id: {}".to_string()))
    );
    assert_eq!(shared_link(&json(r#"{"share":{"url":"u"}}"#)).unwrap(), "u");
    assert_eq!(
        shared_link(&json("[]")),
        Err(AppError::BadGateway("OpenCode share response missing share.url: []".to_string()))
    );
    assert_eq!(
        read_delete_reply(&refused(), "message"),
        Err(AppError::BadGateway("OpenCode delete message returned 404 Not Found: gone".to_string()))
    );
    assert!(read_delete_reply(&ok("true"), "message").is_ok());
    assert!(read_patch_reply(&ok("{}")).is_ok());
    assert!(read_patch_reply(&HttpReply::Unsent("e".to_string())).is_err());
    assert_eq!(
        read_message_reply(&refused()),
        Err(AppError::BadGateway("OpenCode get message returned 404 Not Found".to_string()))
    );
    assert_eq!(read_session_reply(&ok("")).unwrap().to_text(), "null");
    assert_eq!(read_session_reply(&HttpReply::Undecoded("e".to_string())), Ok(Json::Null));
    assert_eq!(
        read_message_reply(&HttpReply::Undecoded("e".to_string())),
        Err(AppError::BadGateway("OpenCode message response was not JSON: e".to_string()))
    );
    assert_eq!(read_patch_reply(&HttpReply::Undecoded("e".to_string())), Ok(()));
    assert!(read_config_reply(&ok("no document")).is_err());
}

fn aionrs() -> AgentInstance {
    AgentInstance::Aionrs(AionrsAgentManager::new("c", "/p", &None))
}

#[test]
fn agents_answer_what_they_can() {
    let mut remote = AgentInstance::Remote(manager("opencode", Some("s")));
    assert_eq!(remote.agent_type(), AgentType::Remote);
    assert_eq!(AgentInstance::Nanobot.agent_type(), AgentType::Nanobot);
    assert!(matches!(remote.conversation_id(), Answer::Known(c) if c == "conv"));
    assert!(matches!(aionrs().workspace(), Answer::Known(w) if w == "/p"));
    assert!(matches!(AgentInstance::Acp.workspace(), Answer::Manager));
    assert!(matches!(remote.get_session_key(), Answer::Known(Some(k)) if k == "s"));
    assert!(matches!(AgentInstance::OpenClaw.get_session_key(), Answer::Manager));
    assert!(matches!(aionrs().get_confirmations(), Answer::Known(c) if c.is_empty()));
    assert!(matches!(
        AgentInstance::Nanobot.get_mode(vec![]),
        Answer::Known(m) if m.mode == "default" && m.available_modes.is_none()
    ));
    assert!(matches!(remote.get_mode(vec![]), Answer::Known(m) if m.mode == "build"));
    assert!(matches!(AgentInstance::Acp.get_usage(), Answer::Manager));
    assert!(matches!(remote.get_usage(), Answer::Known(None)));
    assert!(matches!(AgentInstance::Acp.get_model(vec![]), Answer::Manager));
    assert!(matches!(aionrs().get_model(vec![]), Answer::Known(None)));
    assert!(matches!(remote.set_model("p::q"), Ok(Answer::Known(()))));
    assert!(matches!(
        remote.get_model(vec![]),
        Answer::Known(Some(m)) if m.current_model_id.as_deref() == Some("q")
    ));
    assert!(matches!(remote.get_openclaw_runtime(), Answer::Known(Json::Null)));
    assert!(remote.browse_remote_workspace("src").is_some());
    assert!(aionrs().browse_remote_workspace("src").is_none());
    let skills = json(r#"[{"name":"pdf"}]"#);
    assert_eq!(remote.get_skills(Some(&skills)).len(), 1);
    assert!(AgentInstance::Acp.get_skills(Some(&skills)).is_empty());
    assert!(matches!(remote.get_slash_commands(&vec![]), Answer::Known(c) if c.is_empty()));
    assert!(matches!(aionrs().get_slash_commands(&vec![]), Answer::Manager));
}

#[test]
fn answers_go_to_the_agent_that_asked() {
    let yes = json(r#"{"value":"allow"}"#);
    assert_eq!(
        aionrs().confirm("c", &yes, false, 0),
        Confirmed::Decision(ToolDecision::Approve { always: false })
    );
    assert_eq!(AgentInstance::Acp.confirm("c", &yes, false, 0), Confirmed::Manager);
    let mut remote = AgentInstance::Remote(manager("opencode", Some("s")));
    match remote.confirm("per_1", &yes, true, 0) {
        Confirmed::Effects(fx) => assert!(matches!(
            &fx[0],
            Effect::ReplyPermission { reply, .. } if reply == "always"
        )),
        other => panic!("unexpected {other:?}"),
    }
    assert!(matches!(remote.check_approval("edit", &None), Answer::Known(false)));
    assert!(matches!(AgentInstance::Nanobot.check_approval("edit", &None), Answer::Known(false)));
    assert!(matches!(aionrs().check_approval("edit", &None), Answer::Manager));
}

#[test]
fn agents_refuse_what_they_cannot() {
    let modes = default_opencode_agent_modes();
    assert!(matches!(
        AgentInstance::Nanobot.set_mode("plan", &modes),
        Err(AppError::BadRequest(e)) if e == "Mode switching is not supported for this agent type"
    ));
    assert!(matches!(AgentInstance::Acp.set_mode("plan", &modes), Ok(Answer::Manager)));
    assert!(matches!(aionrs().set_mode("yolo", &modes), Ok(Answer::Known(fx)) if fx.is_empty()));
    let mut remote = AgentInstance::Remote(manager("opencode", Some("s")));
    assert!(matches!(remote.set_mode("plan", &modes), Ok(Answer::Known(fx)) if fx.len() == 1));
    assert!(remote.set_mode("odd", &modes).is_err());
    assert!(matches!(
        AgentInstance::Acp.set_model("  "),
        Err(AppError::BadRequest(e)) if e == "model_id must not be empty"
    ));
    assert!(matches!(
        aionrs().set_model("m"),
        Err(AppError::BadRequest(e)) if e == "Model switching is not supported for this agent type"
    ));
    assert_eq!(
        AgentInstance::Acp.handle_side_question(" ", true),
        Err(AppError::BadRequest("question must not be empty".to_string()))
    );
    assert_eq!(AgentInstance::Acp.handle_side_question("q", true).unwrap().status, "ok");
    assert_eq!(AgentInstance::Acp.handle_side_question("q", false).unwrap().status, "unsupported");
    assert!(aionrs().delete_remote_message("m").is_err());
    assert!(remote.delete_remote_message("m").is_ok());
    assert_eq!(
        AgentInstance::Remote(manager("openclaw", None)).compact_remote_session(Ok(())),
        Err(AppError::BadRequest("Compact is only available for OpenCode remote connections".to_string()))
    );
    assert_eq!(remote.get_session_context().unwrap(), "s");
    assert_eq!(remote.get_v2_messages().unwrap(), "s");
}

#[test]
fn listings_are_ordered_and_searched() {
    let nodes = json(
        r#"[{"name":"b.rs","type":"file"},{"name":"Z","type":"directory"},{"name":"A.rs","type":"file"},{"name":""},{"type":"file"},{"name":"c.rs"}]"#,
    );
    let names = |search: Option<&str>| -> Vec<String> {
        map_opencode_file_nodes(&nodes, search).into_iter().map(|e| e.name).collect()
    };
    assert_eq!(names(None), vec!["Z", "A.rs", "b.rs", "c.rs"]);
    assert_eq!(names(Some("a")), vec!["A.rs"]);
    assert_eq!(names(Some("")), vec!["Z", "A.rs", "b.rs", "c.rs"]);
    assert!(map_opencode_file_nodes(&json("{}"), None).is_empty());
}

#[test]
fn protocols_go_before_configurations() {
    let info = |id: &str| ModelInfoPayload {
        current_model_id: Some(id.to_string()),
        current_model_label: None,
        available_models: vec![],
    };
    let id = |r: Option<ModelInfoPayload>| r.and_then(|m| m.current_model_id);
    assert_eq!(id(acp_model_info(Some(info("a")), true, Some(info("b")))).as_deref(), Some("a"));
    assert_eq!(id(acp_model_info(None, true, Some(info("b")))).as_deref(), Some("b"));
    assert_eq!(id(acp_model_info(None, false, Some(info("b")))), None);
}

fn stored() -> RemoteAgentRow {
    RemoteAgentRow {
        id: "ra".to_string(),
        protocol: "opencode".to_string(),
        url: "http://h".to_string(),
        auth_type: "bearer".to_string(),
        auth_token: Some("cipher".to_string()),
        allow_insecure: true,
        tool_host: "local".to_string(),
    }
}

#[test]
fn agents_are_made_from_what_is_stored() {
    let extra = RemoteBuildExtra {
        remote_agent_id: "ra".to_string(),
        session_key: Some("s".to_string()),
        current_model_id: Some("p::q".to_string()),
        session_mode: Some("plan".to_string()),
    };
    assert_eq!(token_to_decrypt(&stored()).as_deref(), Some("cipher"));
    let mut m = build(&stored(), Some("clear".to_string()), &extra, "conv", "/ws");
    assert_eq!(m.remote_config.auth_token.as_deref(), Some("clear"));
    assert_eq!(m.get_session_key().as_deref(), Some("s"));
    let told = seed(&mut m, &extra, &default_opencode_agent_modes());
    let mode = Json::from_text("{\"mode\":\"plan\"}").unwrap();
    assert_eq!(told, Ok(vec![Effect::Emit(AgentStreamEvent::AcpModeInfo(mode))]));
    assert_eq!(m.mode(vec![]).mode, "plan");
    assert_eq!(m.get_model(vec![]).current_model_id.as_deref(), Some("q"));
    let odd = RemoteBuildExtra { session_mode: Some("odd".to_string()), ..extra };
    assert_eq!(
        seed(&mut m, &odd, &default_opencode_agent_modes()),
        Err(AppError::BadRequest("Unsupported OpenCode mode 'odd'".to_string()))
    );
    let none = RemoteBuildExtra { session_mode: None, ..odd };
    assert_eq!(seed(&mut m, &none, &default_opencode_agent_modes()), Ok(vec![]));
    assert_eq!(m.mode(vec![]).mode, "plan");
}

#[test]
fn agents_that_cannot_be_made() {
    assert!(matches!(build_agent(AgentType::Gemini), Some(AppError::ConversationArchived(_))));
    assert_eq!(build_agent(AgentType::Remote), None);
    assert_eq!(
        load_remote_agent("ra", Ok(None)),
        Err(AppError::NotFound("Remote agent 'ra' not found".to_string()))
    );
    assert_eq!(
        load_remote_agent("ra", Err("locked".to_string())),
        Err(AppError::Internal("Failed to load remote agent config: locked".to_string()))
    );
    assert_eq!(
        refuse_options("missing field"),
        AppError::BadRequest("Invalid Remote build options: missing field".to_string())
    );
}

#[test]
fn entries_are_found_and_ordered_by_their_names_in_small_letters() {
    let node = json(r#"{"name":"README","type":"file"}"#);
    let found = find_entry(&node, Some("Read"), "readme", "read").expect("an entry");
    assert_eq!((found.name.as_str(), found.entry_type.as_str()), ("README", "file"));
    assert!(find_entry(&node, Some("src"), "readme", "src").is_none());
    assert!(find_entry(&node, Some(""), "readme", "src").is_some());
    assert!(find_entry(&json("{}"), None, "", "").is_none());
    let other = find_entry(&json(r#"{"name":"a","type":"directory"}"#), None, "a", "").expect("an entry");
    assert!(entries_in_order(&other, "z", &found, "a"), "types come first");
    assert!(!entries_in_order(&found, "readme", &found, "a"));
}

use aionui_ai_agent::config::RemoteAgentConfig;
use aionui_ai_agent::dispatch::{Outside, QUESTION_DEDUP_CAP};
use aionui_ai_agent::json::Json;
use aionui_ai_agent::manager::RemoteAgentManager;
use aionui_ai_agent::replies::fetch_child_sessions;
use aionui_ai_agent::shell::{ElicitationOutcome, ElicitationRequest, McpRequestContext};
use aionui_ai_agent::types::{AgentStreamEvent, Effect, ShellApproval};

fn agent(protocol: &str) -> RemoteAgentManager {
    let config = RemoteAgentConfig {
        remote_agent_id: "ra".to_string(),
        protocol: protocol.to_string(),
        url: "http://h:1/".to_string(),
        auth_type: "bearer".to_string(),
        auth_token: Some("tok".to_string()),
        allow_insecure: false,
        tool_host: "local".to_string(),
    };
    let mut m = RemoteAgentManager::new("conv".to_string(), "/ws".to_string(), config, None);
    m.state.opencode_session_id = Some("root".to_string());
    m
}

fn json(text: &str) -> Json {
    Json::from_text(text).expect("a document")
}

fn feed_at(m: &mut RemoteAgentManager, event: &str, now: i64) -> Vec<Effect> {
    let out = Outside {
        now,
        child_registered: true,
        child_changed: false,
        tool_call: None,
        progress: Json::Null,
        context_limits: vec![],
    };
    m.handle_opencode_sse_event(event, &out)
}

fn ask_permission(m: &mut RemoteAgentManager, session: &str, id: &str, path: &str, now: i64) -> Vec<Effect> {
    let event = format!(
        r#"{{"type":"permission.asked","properties":{{"sessionID":"{session}","id":"{id}","permission":"edit","patterns":["{path}"],"metadata":{{"filepath":"{path}"}}}}}}"#
    );
    feed_at(m, &event, now)
}

fn replies(fx: &[Effect]) -> Vec<(String, String)> {
    fx.iter()
        .filter_map(|e| match e {
            Effect::ReplyPermission { request_id, reply, .. } => Some((request_id.clone(), reply.clone())),
            _ => None,
        })
        .collect()
}

fn context() -> McpRequestContext {
    McpRequestContext { session_id: Some("child".to_string()), parent_session_id: Some("root".to_string()) }
}

#[test]
fn permissions_are_answered_once() {
    let mut m = agent("opencode");
    ask_permission(&mut m, "root", "per_1", "/etc/hosts", 0);
    assert_eq!(m.get_confirmations().len(), 1);
    let fx = m.confirm("per_1", &json(r#"{"value":"once"}"#), false, 100);
    assert_eq!(replies(&fx), vec![("per_1".to_string(), "once".to_string())]);
    assert!(m.get_confirmations().is_empty());
    let again = m.confirm("per_1", &json(r#"{"value":"once"}"#), false, 200);
    assert!(replies(&again).is_empty(), "a second answer is not sent");
    m.state.permission_reply_sent("per_1");
    let later = m.confirm("per_1", &json(r#"{"value":"reject"}"#), false, 300);
    assert_eq!(replies(&later).len(), 1);
}

#[test]
fn an_always_is_remembered() {
    let mut m = agent("opencode");
    ask_permission(&mut m, "root", "per_1", "/etc/hosts", 0);
    let card = &m.get_confirmations()[0];
    let (action, kind) = (card.action.clone().unwrap_or_default(), card.command_type.clone());
    assert!(!m.check_approval(&action, &kind));
    m.confirm("per_1", &json(r#""always""#), false, 1);
    assert!(m.check_approval(&action, &kind));
}

#[test]
fn an_allowed_tree_is_not_asked_again() {
    let mut m = agent("opencode");
    ask_permission(&mut m, "root", "per_1", "/data/a/x.txt", 0);
    ask_permission(&mut m, "root", "per_2", "/data/a/b/y.txt", 0);
    ask_permission(&mut m, "root", "per_3", "/other/z.txt", 0);
    let fx = m.confirm("per_1", &json(r#"{"value":"allow_dir","params":{"path":"/data/a/"}}"#), false, 1);
    assert_eq!(m.state.auto_accept_paths, vec!["/ws".to_string(), "/data/a".to_string()]);
    assert!(replies(&fx).iter().any(|r| r.0 == "per_2"), "what it covers is settled");
    assert_eq!(m.get_confirmations().len(), 1);
    assert_eq!(m.get_confirmations()[0].call_id, "per_3");
    let later = ask_permission(&mut m, "root", "per_4", "/data/a/c", 2);
    assert_eq!(replies(&later), vec![("per_4".to_string(), "once".to_string())]);
    assert_eq!(m.get_confirmations().len(), 1);
}

#[test]
fn an_allowed_session_is_not_asked_again() {
    let mut m = agent("opencode");
    m.state.child_sessions.push(("child".to_string(), "root".to_string()));
    m.state.child_sessions.push(("grandchild".to_string(), "child".to_string()));
    ask_permission(&mut m, "child", "per_1", "/etc/a", 0);
    m.confirm("per_1", &json(r#"{"value":"allow_session","params":{"sessionID":"child"}}"#), false, 1);
    assert_eq!(m.state.auto_accept_sessions, vec!["child".to_string()]);
    let own = ask_permission(&mut m, "child", "per_2", "/etc/b", 2);
    assert_eq!(replies(&own).len(), 1);
    let below = ask_permission(&mut m, "grandchild", "per_3", "/etc/c", 2);
    assert_eq!(replies(&below).len(), 1);
    m.state.child_sessions.insert(0, ("deeper".to_string(), "grandchild".to_string()));
    m.state.child_sessions.insert(0, ("deepest".to_string(), "deeper".to_string()));
    let far_below = ask_permission(&mut m, "deepest", "per_5", "/etc/e", 2);
    assert_eq!(replies(&far_below).len(), 1);
    let root = ask_permission(&mut m, "root", "per_4", "/etc/d", 2);
    assert!(replies(&root).is_empty());
}

#[test]
fn shell_commands_wait_for_the_user() {
    let mut m = agent("opencode");
    let (answer, fx) = m.state.request_shell_approval("id", "ls", "/ws", "Linux · bash", &context());
    assert_eq!(answer, None);
    match &fx[0] {
        Effect::Emit(AgentStreamEvent::AcpPermission(card)) => {
            assert_eq!(card.call_id, "shell-id");
            assert_eq!(card.description, "Linux · bash — /ws\n\n$ ls");
            assert_eq!(card.session_id.as_deref(), Some("child"));
            let values: Vec<&str> = card.options.iter().filter_map(|o| o.value.as_str()).collect();
            assert_eq!(values, vec!["once", "always", "reject"]);
        }
        other => panic!("unexpected {other:?}"),
    }
    let fx = m.confirm("shell-id", &json(r#"{"value":"always"}"#), false, 1);
    assert_eq!(
        fx,
        vec![Effect::ResolveShell { call_id: "shell-id".to_string(), approval: ShellApproval::Allow }]
    );
    let (at_once, fx) = m.state.request_shell_approval("other", "rm x", "/ws", "h", &context());
    assert_eq!(at_once, Some(ShellApproval::Allow));
    assert!(fx.is_empty());
}

#[test]
fn refused_commands_do_not_run() {
    let mut m = agent("opencode");
    m.state.request_shell_approval("a", "ls", "/ws", "h", &context());
    let fx = m.confirm("shell-a", &json(r#""reject""#), true, 1);
    assert_eq!(
        fx,
        vec![Effect::ResolveShell { call_id: "shell-a".to_string(), approval: ShellApproval::Reject }]
    );
    m.state.request_shell_approval("b", "ls", "/ws", "h", &context());
    assert_eq!(m.state.abandon_shell("shell-b"), ShellApproval::Reject);
    assert!(m.state.pending_shell_approvals.is_empty());
    assert!(m.get_confirmations().is_empty());
}

#[test]
fn random_ids_do_not_repeat() {
    let mut m = agent("opencode");
    m.state.approve_shell_with_context("ls", "/ws", "h", &context());
    m.state.approve_shell_with_context("ls", "/ws", "h", &context());
    let ids = &m.state.pending_shell_approvals;
    assert_eq!(ids.len(), 2);
    assert_ne!(ids[0], ids[1]);
    assert!(ids.iter().all(|i| i.starts_with("shell-") && i.len() == 42));
}

fn input_request() -> ElicitationRequest {
    ElicitationRequest {
        tool_name: "deploy".to_string(),
        message: "Which stage?".to_string(),
        requested_schema: Some(json(r#"{"type":"string"}"#)),
    }
}

#[test]
fn elicitation_cancel_declines() {
    for choice in [r#"{"value":"cancel"}"#, r#""reject""#] {
        let mut m = agent("opencode");
        m.state.ask_elicitation("1", &input_request(), &context());
        let fx = m.confirm("elicit-1", &json(choice), false, 1);
        assert_eq!(fx, vec![Effect::ResolveElicitation { call_id: "elicit-1".to_string(), payload: None }]);
        assert_eq!(m.state.settle_elicitation("elicit-1", None), ElicitationOutcome::Declined);
    }
}

#[test]
fn elicitation_answers_reach_the_tool() {
    let mut m = agent("opencode");
    let fx = m.state.ask_elicitation("1", &input_request(), &context());
    match &fx[0] {
        Effect::Emit(AgentStreamEvent::AcpPermission(card)) => {
            assert_eq!(card.title.as_deref(), Some("deploy: input required"));
            assert_eq!(card.options.len(), 2);
        }
        other => panic!("unexpected {other:?}"),
    }
    let fx = m.confirm("elicit-1", &json(r#"{"value":"submit","payload":{"stage":"dev"}}"#), false, 1);
    match &fx[0] {
        Effect::ResolveElicitation { payload: Some(p), .. } => assert_eq!(p.get_str("stage"), Some("dev")),
        other => panic!("unexpected {other:?}"),
    }
    let accepted = m.state.settle_elicitation("elicit-1", Some(json("1")));
    assert!(matches!(accepted, ElicitationOutcome::Accepted(_)));
    m.state.request_elicitation(&input_request(), &context());
    assert_eq!(m.state.pending_elicitations[0].len(), 43);
}

const QUESTION: &str = r#"{"type":"question.asked","properties":{"sessionID":"root","id":"que_1","questions":[
    {"question":"Which?","header":"Pick","options":[{"label":"A"},{"label":"B"}]},
    {"question":"All?","header":"More","multiple":true,"options":[{"label":"X"},{"label":"Y"}]}]}}"#;

#[test]
fn answers_are_sent_when_each_question_has_one() {
    let mut m = agent("opencode");
    feed_at(&mut m, QUESTION, 0);
    assert_eq!(m.get_confirmations().len(), 2);
    let ids: Vec<String> = m.get_confirmations().iter().map(|c| c.call_id.clone()).collect();
    let first = m.confirm(&ids[0], &json(r#""B""#), false, 1);
    assert!(first.iter().all(|e| !matches!(e, Effect::ReplyQuestion { .. })));
    let fx = m.confirm(&ids[1], &json(r#""__question_all__""#), false, 2);
    let sent: Vec<&Effect> = fx.iter().filter(|e| matches!(e, Effect::ReplyQuestion { .. })).collect();
    match sent.first() {
        Some(Effect::ReplyQuestion { request_id, answers }) => {
            assert_eq!(request_id, "que_1");
            assert_eq!(answers, &vec![vec!["B"], vec!["X", "Y"]]);
        }
        other => panic!("unexpected {other:?}"),
    }
    feed_at(&mut m, QUESTION, 3);
    assert!(m.get_confirmations().is_empty(), "an answered question is not asked again");
}

#[test]
fn answered_questions_are_remembered_for_a_while() {
    let mut m = agent("opencode");
    for (id, at) in [("que_1", 0), ("que_2", 59_999)] {
        feed_at(&mut m, &QUESTION.replace("que_1", id), at);
        let card = m.get_confirmations()[0].call_id.clone();
        m.confirm(&card, &json(r#""__question_reject__""#), false, at);
    }
    assert_eq!(m.state.recently_replied_questions.len(), 2);
    feed_at(&mut m, &QUESTION.replace("que_1", "que_3"), 60_000);
    let card = m.get_confirmations()[0].call_id.clone();
    m.confirm(&card, &json(r#""__question_reject__""#), false, 60_000);
    let kept: Vec<&str> = m.state.recently_replied_questions.iter().map(|e| e.0.as_str()).collect();
    assert_eq!(kept, vec!["que_2", "que_3"]);
}

#[test]
fn a_refused_question_is_remembered_though_many_were_answered() {
    for stamp in [9, 10] {
        let mut m = agent("opencode");
        m.state.recently_replied_questions = (0..QUESTION_DEDUP_CAP).map(|i| (format!("old_{i}"), stamp)).collect();
        feed_at(&mut m, QUESTION, 10);
        let card = m.get_confirmations()[0].call_id.clone();
        m.confirm(&card, &json(r#""__question_reject__""#), false, 10);
        assert_eq!(m.state.recently_replied_questions.len(), QUESTION_DEDUP_CAP);
        assert!(feed_at(&mut m, QUESTION, 11).is_empty());
        assert!(m.get_confirmations().is_empty());
    }
}

#[test]
fn a_picked_subset_is_sent_as_picked() {
    let picks = [
        (r#"["Y","Z"]"#, vec!["Y", "Z"]),
        (r#"{"value":["Y"]}"#, vec!["Y"]),
        (r#"["Y","__question_all__"]"#, vec!["X", "Y"]),
        (r#"{"value":"Y"}"#, vec!["Y"]),
        ("[]", vec![""]),
        ("{}", vec![""]),
    ];
    for (pick, expected) in picks {
        let mut m = agent("opencode");
        feed_at(&mut m, QUESTION, 0);
        let ids: Vec<String> = m.get_confirmations().iter().map(|c| c.call_id.clone()).collect();
        m.confirm(&ids[0], &json(r#""A""#), false, 1);
        let fx = m.confirm(&ids[1], &json(pick), false, 2);
        match &fx[..] {
            [Effect::ReplyQuestion { request_id, answers }] => {
                assert_eq!(request_id, "que_1");
                assert_eq!(answers, &vec![vec!["A"], expected]);
            }
            other => panic!("unexpected {other:?}"),
        }
    }
    let mut m = agent("opencode");
    feed_at(&mut m, QUESTION, 0);
    let id = m.get_confirmations()[0].call_id.clone();
    let fx = m.confirm(&id, &json(r#"["__question_reject__"]"#), false, 1);
    assert_eq!(fx, vec![Effect::RejectQuestion { request_id: "que_1".to_string() }]);
}

#[test]
fn refusing_answers_everything() {
    let mut m = agent("opencode");
    ask_permission(&mut m, "root", "per_1", "/etc/a", 0);
    m.state.request_shell_approval("s", "ls", "/ws", "h", &context());
    m.state.ask_elicitation("e", &input_request(), &context());
    feed_at(&mut m, QUESTION, 0);
    let fx = m.reject_pending_confirmations(5);
    assert!(fx.contains(&Effect::RejectQuestion { request_id: "que_1".to_string() }));
    assert!(fx.contains(&Effect::ResolveShell {
        call_id: "shell-s".to_string(),
        approval: ShellApproval::Reject
    }));
    assert!(fx.contains(&Effect::ResolveElicitation { call_id: "elicit-e".to_string(), payload: None }));
    assert_eq!(replies(&fx), vec![("per_1".to_string(), "reject".to_string())]);
    assert!(m.get_confirmations().is_empty());
    assert!(m.reject_pending_confirmations(6).is_empty(), "there is nothing left to refuse");
}

#[test]
fn remembered_answers_are_bounded() {
    let mut m = agent("opencode");
    for i in 0..1100 {
        let id = format!("per_{i}");
        ask_permission(&mut m, "root", &id, "/etc/a", i);
        m.confirm(&id, &json(r#""once""#), false, i);
    }
    assert!(m.state.recently_replied_permissions.len() <= 1025);
}

#[test]
fn answers_become_requests() {
    let m = agent("opencode");
    let permission = |reply: &str, by_user: bool| Effect::ReplyPermission {
        request_id: "per_1".to_string(),
        session_id: None,
        reply: reply.to_string(),
        by_user,
    };
    let q = m.reply_request(&permission("once", true)).unwrap();
    assert_eq!(q.url, "http://h:1/permission/per_1/reply");
    assert_eq!(q.auth.as_deref(), Some("Bearer tok"));
    assert_eq!(q.body.unwrap().get_str("reply"), Some("once"));
    assert_eq!(q.timeout_secs, 10);
    assert_eq!(m.reply_request(&permission("reject", false)).unwrap().timeout_secs, 5);
    let q = m
        .reply_request(&Effect::ReplyQuestion { request_id: "q".to_string(), answers: vec![vec!["A".to_string()]] })
        .unwrap();
    assert_eq!(q.url, "http://h:1/question/q/reply");
    assert_eq!(q.body.unwrap().to_text(), r#"{"answers":[["A"]]}"#);
    let q = m.reply_request(&Effect::RejectQuestion { request_id: "q".to_string() }).unwrap();
    assert_eq!(q.url, "http://h:1/question/q/reject");
    assert!(m.reply_request(&Effect::BumpActivity).is_none());
    let mut server = agent("opencode");
    server.remote_config.tool_host = "server".to_string();
    assert_eq!(
        server.reply_request(&permission("once", true)).unwrap().url,
        "http://h:1/permission/per_1/reply"
    );
    assert_eq!(
        server.reply_request(&Effect::RejectQuestion { request_id: "q".to_string() }).unwrap().url,
        "http://h:1/question/q/reject"
    );
    assert!(agent("openclaw").reply_request(&permission("once", true)).is_none());
}

#[test]
fn sub_agents_are_looked_up() {
    let m = agent("opencode");
    assert_eq!(m.children_request("s").url, "http://h:1/session/s/children");
    assert_eq!(m.models_request().url, "http://h:1/provider");
    assert_eq!(m.limits_request().url, "http://h:1/config/providers");
    assert_eq!(m.agents_request().url, "http://h:1/agent");
    assert_eq!(m.skills_request().url, "http://h:1/skill");
    assert_eq!(fetch_child_sessions(Some(&json(r#"[{"id":"a"},{"id":"b"}]"#))).len(), 2);
    assert!(fetch_child_sessions(Some(&json("{}"))).is_empty());
    assert!(fetch_child_sessions(None).is_empty());
}

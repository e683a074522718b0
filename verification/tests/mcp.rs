use aionui_ai_agent::http::{HttpMethod, HttpReply};
use aionui_ai_agent::mcp::{
    connect_url, disconnect_from_opencode, ensure_local_fs_mcp, mcp_name_for, read_registration, register_mcp,
    route_changed, start_and_register, verify_timeout, Candidate, LocalToolsStep, Registration,
    RegistrationAction, RegistrationEvent, RegistrationOutcome,
};

#[test]
fn mcp_name_includes_conversation_id() {
    assert_eq!(mcp_name_for("abc"), "aionui-local-fs-abc");
}

#[test]
fn names_do_not_collide() {
    assert_ne!(mcp_name_for("a"), mcp_name_for("b"));
}

#[test]
fn waiting_times_can_be_set() {
    assert_eq!(verify_timeout(None), 3000);
    assert_eq!(verify_timeout(Some("20")), 20);
    assert_eq!(verify_timeout(Some("soon")), 3000);
    assert_eq!(verify_timeout(Some("-1")), 3000);
}

fn candidates(n: usize) -> Vec<Candidate> {
    (0..n)
        .map(|i| Candidate { public_url: format!("http://c{i}/"), provider: "lan".to_string() })
        .collect()
}

/// Runs a registration against a server that accepts and reaches as told.
fn run(accepted: &[bool], reached: &[bool], fallback: bool) -> (RegistrationOutcome, Vec<String>) {
    let (mut r, mut action) = Registration::register_candidates(candidates(accepted.len()));
    let mut added = Vec::new();
    let mut at = 0;
    while r.outcome().is_none() {
        let event = match action {
            RegistrationAction::Add { url } => {
                let known = added.len() < accepted.len();
                at = added.len();
                added.push(url);
                RegistrationEvent::Added { ok: if known { accepted[at] } else { fallback } }
            }
            RegistrationAction::Verify => RegistrationEvent::Verified { contacted: reached[at] },
            RegistrationAction::Remove => RegistrationEvent::Removed,
            RegistrationAction::Nothing => panic!("it stands still"),
        };
        action = r.advance(&event);
    }
    (r.outcome().unwrap(), added)
}

#[test]
fn the_first_address_that_is_reached_is_taken() {
    let (outcome, added) = run(&[false, true, true], &[true, false, true], false);
    assert_eq!(outcome, RegistrationOutcome::Verified);
    assert_eq!(added, vec!["http://c0/", "http://c1/", "http://c2/"]);
    let (outcome, added) = run(&[true, true], &[true, true], false);
    assert_eq!(outcome, RegistrationOutcome::Verified);
    assert_eq!(added, vec!["http://c0/"]);
}

#[test]
fn without_a_reached_address_the_first_is_kept() {
    let (outcome, added) = run(&[true, true], &[false, false], true);
    assert_eq!(outcome, RegistrationOutcome::Unverified);
    assert_eq!(added.last().unwrap(), "http://c0/");
    assert_eq!(run(&[false], &[false], false).0, RegistrationOutcome::Failed);
    assert_eq!(run(&[], &[], true).0, RegistrationOutcome::Failed);
}

#[test]
fn a_registration_names_the_server_and_its_token() {
    let q = register_mcp("http://h", Some("Basic x"), "n", "http://me/", "tok");
    assert_eq!(q.url, "http://h/mcp");
    assert_eq!(q.method, HttpMethod::Post);
    assert_eq!(q.auth.as_deref(), Some("Basic x"));
    let body = q.body.unwrap();
    assert_eq!(body.get_str("name"), Some("n"));
    let config = body.get("config").unwrap();
    assert_eq!(config.get_str("type"), Some("remote"));
    assert_eq!(config.get("timeout").unwrap().as_u64(), Some(300000));
    assert_eq!(config.get("oauth").unwrap().as_bool(), Some(false));
    assert_eq!(config.get("headers").unwrap().get_str("Authorization"), Some("Bearer tok"));
    assert_eq!(connect_url("http://h", "n"), "http://h/mcp/n/connect");
    let d = disconnect_from_opencode("http://h", None, "c");
    assert_eq!(d.url, "http://h/mcp/aionui-local-fs-c/disconnect");
    assert_eq!(d.timeout_secs, 10);
}

#[test]
fn refused_registrations_say_why() {
    assert_eq!(
        read_registration(&HttpReply::Unsent("x".to_string())).as_deref(),
        Some("OpenCode mcp.add request failed: x")
    );
    assert_eq!(
        read_registration(&HttpReply::Refused { status: "500".to_string(), body: "b".to_string() }).as_deref(),
        Some("OpenCode mcp.add returned 500: b")
    );
    assert_eq!(read_registration(&HttpReply::Answered("{}".to_string())), None);
    assert_eq!(
        start_and_register(None, RegistrationOutcome::Failed).as_deref(),
        Some("OpenCode rejected local fs MCP registration for every candidate")
    );
    assert_eq!(start_and_register(None, RegistrationOutcome::Unverified), None);
    assert_eq!(
        start_and_register(Some("in use"), RegistrationOutcome::Verified).as_deref(),
        Some("failed to start local fs MCP server: in use")
    );
}

#[test]
fn a_changed_route_is_noticed_once() {
    let mut last = Some("10.0.0.1".to_string());
    assert!(!route_changed(&mut last, Some("10.0.0.1")));
    assert!(route_changed(&mut last, Some("10.0.0.2")));
    assert!(!route_changed(&mut last, Some("10.0.0.2")));
    assert!(route_changed(&mut last, None));
}

#[test]
fn the_server_is_claimed_before_a_prompt() {
    assert_eq!(ensure_local_fs_mcp(false, false), LocalToolsStep::Start);
    assert_eq!(ensure_local_fs_mcp(true, false), LocalToolsStep::Reclaim);
    assert_eq!(ensure_local_fs_mcp(true, true), LocalToolsStep::Nothing);
}

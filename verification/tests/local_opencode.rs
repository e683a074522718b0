use aionui_ai_agent::json::Json;
use aionui_ai_agent::local_opencode::{
    generate_opencode_config, health_url, parse_port_from_line, ChildState, LocalOpenCodeManager,
    LocalOpenCodeStatus, OpenCodeInstance, SpawnEvent, SpawnStep, StartAction, StartEvent,
};

fn under<'a>(j: &'a Json, key: &str) -> &'a Json {
    j.get(key).expect("a field")
}

#[test]
fn generates_valid_json_with_plugin_and_env() {
    let config = generate_opencode_config("http://127.0.0.1:3456", "test-token-abc");
    let parsed = Json::from_text(&config).unwrap();
    assert_eq!(
        under(&parsed, "plugin").as_array().unwrap()[0].as_str().unwrap(),
        "@chisl/chisl-opencode-plugin"
    );
    assert_eq!(under(&parsed, "env").get_str("AIONCORE_URL"), Some("http://127.0.0.1:3456"));
    assert_eq!(under(&parsed, "env").get_str("AIONCORE_TOKEN"), Some("test-token-abc"));
}

#[test]
fn round_trips_with_https_endpoint() {
    let config = generate_opencode_config("https://example.com:4111/", "tok");
    let parsed = Json::from_text(&config).unwrap();
    assert_eq!(under(&parsed, "env").get_str("AIONCORE_URL"), Some("https://example.com:4111/"));
}

#[test]
fn parse_port_from_listening_line() {
    assert_eq!(parse_port_from_line("Server listening on http://127.0.0.1:4096"), Some(4096));
    assert_eq!(parse_port_from_line("Listening on http://0.0.0.0:12345"), Some(12345));
    assert_eq!(parse_port_from_line("  http://localhost:8080/"), Some(8080));
}

#[test]
fn parse_port_returns_none_for_non_port_lines() {
    assert_eq!(parse_port_from_line("Starting up..."), None);
    assert_eq!(parse_port_from_line("Loading configuration"), None);
    assert_eq!(parse_port_from_line(""), None);
    assert_eq!(parse_port_from_line("Loaded plugin foo:1.2.3"), None);
}

#[test]
fn ports_that_do_not_fit_are_none() {
    assert_eq!(parse_port_from_line("http://localhost"), None);
    assert_eq!(parse_port_from_line("http://localhost:65535"), Some(65535));
    assert_eq!(parse_port_from_line("http://localhost:65536"), None);
}

fn instance() -> OpenCodeInstance {
    OpenCodeInstance::new("t", ".", ".", "a", "t", 7, 0)
}

#[test]
fn restart_window_resets_after_elapsed() {
    let mut inst = instance();
    assert!(inst.can_restart(0));
    inst.record_restart();
    inst.record_restart();
    inst.record_restart();
    assert!(!inst.can_restart(300_000));
    assert!(inst.can_restart(300_001));
    assert_eq!(inst.restart_count, 0);
}

#[test]
fn instances_have_ids_of_their_own() {
    let a = instance();
    let b = instance();
    assert_eq!(a.id.len(), 36);
    assert_ne!(a.id, b.id);
    assert_eq!(a.status, LocalOpenCodeStatus::Stopped);
}

#[test]
fn a_start_reads_lines_until_the_port() {
    let mut inst = instance();
    assert_eq!(inst.spawn(&SpawnEvent::Launched { pid: Some(12) }), SpawnStep::Read);
    assert_eq!(inst.status, LocalOpenCodeStatus::Starting);
    assert_eq!(inst.spawn(&SpawnEvent::Line("warming up".to_string())), SpawnStep::Read);
    assert_eq!(
        inst.spawn(&SpawnEvent::Line("listening on http://127.0.0.1:4096".to_string())),
        SpawnStep::Listening { port: 4096 }
    );
    assert_eq!(inst.status, LocalOpenCodeStatus::Running);
    assert_eq!(inst.port, Some(4096));
    assert_eq!(health_url(4096), "http://127.0.0.1:4096/global/health");
}

#[test]
fn failed_starts_leave_nothing_behind() {
    let events = [
        (SpawnEvent::DirFailed("x".to_string()), "failed to create data dir: x"),
        (SpawnEvent::LaunchFailed("y".to_string()), "failed to spawn opencode: y"),
        (SpawnEvent::NoOutput, "child stdout was not piped"),
        (SpawnEvent::Closed, "could not parse port from opencode output"),
        (SpawnEvent::TimedOut, "timeout waiting for opencode to print its listening port"),
    ];
    for (event, words) in events {
        let mut inst = instance();
        inst.spawn(&SpawnEvent::Launched { pid: Some(12) });
        assert_eq!(inst.spawn(&event), SpawnStep::Failed { why: words.to_string() });
        assert_eq!(inst.status, LocalOpenCodeStatus::Stopped);
        assert_eq!(inst.pid, None);
    }
}

#[test]
fn crashes_are_told_from_ends() {
    let mut inst = instance();
    inst.spawn(&SpawnEvent::Launched { pid: Some(12) });
    assert!(!inst.check_crash(ChildState::Alive));
    assert_eq!(inst.pid, Some(12));
    assert!(!inst.check_crash(ChildState::Succeeded));
    assert_eq!(inst.status, LocalOpenCodeStatus::Stopped);
    assert!(inst.check_crash(ChildState::Failed));
    assert_eq!(inst.status, LocalOpenCodeStatus::Crashed);
}

fn manager() -> LocalOpenCodeManager {
    let mut m = LocalOpenCodeManager::new();
    m.set_data_dir("/data");
    m.set_remote_repo();
    m
}

#[test]
fn a_start_needs_its_settings() {
    let mut m = LocalOpenCodeManager::new();
    assert_eq!(m.start(&None, &None, &None).err().as_deref(), Some("data directory not configured"));
    m.set_data_dir("/data");
    assert_eq!(
        m.start(&None, &None, &None).err().as_deref(),
        Some("remote agent repository not configured")
    );
}

#[test]
fn a_start_goes_its_way() {
    let m = manager();
    let mut s = m.start(&None, &None, &Some("/home/u".to_string())).unwrap();
    assert_eq!(s.name, "Local OpenCode");
    assert_eq!(s.working_dir, "/home/u");
    assert_eq!(s.plugin_token.len(), 36);
    let token = s.plugin_token.clone();
    match s.advance(&StartEvent::EndpointReady("http://127.0.0.1:1".to_string())) {
        StartAction::Register { name, plugin_token } => {
            assert_eq!(name, "Local OpenCode");
            assert_eq!(plugin_token, token);
        }
        other => panic!("unexpected {other:?}"),
    }
    match s.advance(&StartEvent::Registered("agent-1".to_string())) {
        StartAction::Spawn { config, data_dir } => {
            assert_eq!(data_dir, vec!["/data", "local-opencode", "agent-1"]);
            assert!(config.contains(&token));
        }
        other => panic!("unexpected {other:?}"),
    }
    assert_eq!(
        s.advance(&StartEvent::Spawned { port: 9 }),
        StartAction::Publish { agent_id: "agent-1".to_string(), port: 9 }
    );
    assert_eq!(s.advance(&StartEvent::Published), StartAction::Keep);
}

#[test]
fn failed_starts_are_taken_back() {
    for publish in [false, true] {
        let m = manager();
        let mut s = m
            .start_with_token(&None, &None, &None, "tok".to_string())
            .unwrap();
        s.advance(&StartEvent::EndpointReady("u".to_string()));
        s.advance(&StartEvent::Registered("agent-1".to_string()));
        let last = if publish {
            s.advance(&StartEvent::Spawned { port: 9 });
            s.advance(&StartEvent::PublishFailed("bad".to_string()))
        } else {
            s.advance(&StartEvent::SpawnFailed("bad".to_string()))
        };
        assert_eq!(
            last,
            StartAction::Undo { stop: publish, agent_id: "agent-1".to_string(), why: "bad".to_string() }
        );
    }
    let m = manager();
    let mut s = m.start_with_token(&None, &None, &None, "tok".to_string()).unwrap();
    assert_eq!(
        s.advance(&StartEvent::EndpointFailed("no".to_string())),
        StartAction::Fail { why: "no".to_string() }
    );
}

fn kept(m: &mut LocalOpenCodeManager, id: &str, status: LocalOpenCodeStatus) {
    let mut i = OpenCodeInstance::with_id(id.to_string(), id, ".", ".", &format!("agent-{id}"), "tok", 7, 0);
    i.status = status;
    m.keep(i);
}

#[test]
fn restarts_are_bounded_and_looked_up() {
    let mut m = manager();
    kept(&mut m, "a", LocalOpenCodeStatus::Running);
    let url = Ok("http://x".to_string());
    assert_eq!(m.restart("b", &url, 0).err().as_deref(), Some("instance 'b' not found"));
    assert_eq!(m.restart("a", &Err("down".to_string()), 0).err().as_deref(), Some("down"));
    for _ in 0..3 {
        let config = m.restart("a", &url, 10).unwrap();
        assert!(config.contains("http://x"));
        let k = m.find("a").unwrap();
        assert_eq!(m.finish_restart(k, 5, None).unwrap().port, 5);
    }
    assert_eq!(
        m.restart("a", &url, 10).err().as_deref(),
        Some("restart limit exceeded (3 restarts in 5 minutes)")
    );
    assert!(m.restart("a", &url, 400_000).is_ok());
    let k = m.find("a").unwrap();
    assert_eq!(m.finish_restart(k, 5, Some("no url".to_string())).err().as_deref(), Some("no url"));
}

#[test]
fn all_servers_are_ended() {
    let mut m = manager();
    kept(&mut m, "a", LocalOpenCodeStatus::Running);
    kept(&mut m, "b", LocalOpenCodeStatus::Crashed);
    kept(&mut m, "c", LocalOpenCodeStatus::Starting);
    let listed = m.list(&vec![ChildState::Alive, ChildState::Unknown, ChildState::Failed]);
    assert_eq!(listed[2].status, LocalOpenCodeStatus::Crashed);
    assert_eq!(listed[0].port, 0);
    kept(&mut m, "c", LocalOpenCodeStatus::Starting);
    assert_eq!(m.instances.len(), 3);
    assert_eq!(m.kill_all(), vec!["agent-a".to_string(), "agent-c".to_string()]);
    assert!(m.kill_all().is_empty());
    assert!(m.stop("a").is_ok());
    assert_eq!(m.stop("z").err().as_deref(), Some("instance 'z' not found"));
}

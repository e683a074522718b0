use aionui_ai_agent::collections::{
    elapsed, map_get, map_has, map_keep_fresh, map_put, map_remove, prune_replied_map, set_add, set_has, set_remove,
};
use aionui_ai_agent::dispatch::{extract_permission_target_path, put_pair};
use aionui_ai_agent::json::Json;
use aionui_ai_agent::order::{sort_texts, str_leq};
use aionui_ai_agent::state::{
    flush_all, flush_part, no_effects, pair_get, path_is_under_blessed, push_delta, session_or_ancestor_blessed,
    PendingDelta, RemoteState,
};
use aionui_ai_agent::types::{AgentStreamEvent, Effect};

fn texts(v: &[&str]) -> Vec<String> {
    v.iter().map(|s| s.to_string()).collect()
}

fn stamps(v: &[(&str, i64)]) -> Vec<(String, i64)> {
    v.iter().map(|(k, n)| (k.to_string(), *n)).collect()
}

#[test]
fn a_blessed_directory_covers_what_is_below_it() {
    let blessed = texts(&["/foo/bar/"]);
    assert!(path_is_under_blessed("/foo/bar", &blessed));
    assert!(path_is_under_blessed("/foo/bar/", &blessed));
    assert!(path_is_under_blessed("/foo/bar/baz", &blessed));
    assert!(!path_is_under_blessed("/foo/barber", &blessed));
    assert!(!path_is_under_blessed("/foo", &blessed));
    assert!(!path_is_under_blessed("/foo/bar", &vec![]));
}

#[test]
fn a_blessed_session_covers_its_children() {
    let children = vec![
        ("child".to_string(), "root".to_string()),
        ("grandchild".to_string(), "child".to_string()),
        ("loop".to_string(), "loop".to_string()),
    ];
    assert!(session_or_ancestor_blessed("root", &texts(&["root"]), &children));
    assert!(session_or_ancestor_blessed("child", &texts(&["root"]), &children));
    assert!(session_or_ancestor_blessed("grandchild", &texts(&["root"]), &children));
    assert!(!session_or_ancestor_blessed("root", &texts(&["child"]), &children));
    assert!(!session_or_ancestor_blessed("other", &texts(&["root"]), &children));
    assert!(!session_or_ancestor_blessed("loop", &texts(&["root"]), &children));
}

#[test]
fn the_most_specific_target_is_taken() {
    let target = |text: &str| extract_permission_target_path(&Json::from_text(text).unwrap());
    assert_eq!(target(r#"{"filepath":"/a","path":"/b","parentDir":"/c"}"#).as_deref(), Some("/a"));
    assert_eq!(target(r#"{"path":"/b","parentDir":"/c"}"#).as_deref(), Some("/b"));
    assert_eq!(target(r#"{"parentDir":"/c"}"#).as_deref(), Some("/c"));
    assert_eq!(target(r#"{"filepath":1,"path":"/b"}"#), None);
    assert_eq!(target(r#"{"filepath":""}"#), None);
    assert_eq!(target("{}"), None);
}

#[test]
fn the_oldest_stamps_go_first() {
    let mut m = stamps(&[("a", 3), ("b", 1), ("c", 2)]);
    prune_replied_map(&mut m, 3);
    assert_eq!(m.len(), 3);
    prune_replied_map(&mut m, 2);
    assert!(map_has(&m, "a") && map_has(&m, "c") && !map_has(&m, "b"));
    prune_replied_map(&mut m, 0);
    assert_eq!(m, vec![]);
}

#[test]
fn stamps_are_kept_for_a_while() {
    let mut m = stamps(&[("old", 0), ("new", 90)]);
    map_put(&mut m, "old", 10);
    assert_eq!(map_get(&m, "old"), Some(10));
    assert_eq!(map_get(&m, "none"), None);
    map_keep_fresh(&mut m, 100, 50);
    assert!(!map_has(&m, "old") && map_has(&m, "new"));
    map_remove(&mut m, "new");
    assert_eq!(m, vec![]);
    assert_eq!(elapsed(5, 2), 3);
    assert_eq!(elapsed(i64::MAX, -1), i64::MAX);
    assert_eq!(elapsed(i64::MIN, 1), i64::MIN);
}

#[test]
fn sets_hold_each_member_once() {
    let mut s: Vec<String> = vec![];
    assert!(set_add(&mut s, "a"));
    assert!(!set_add(&mut s, "a"));
    assert!(set_add(&mut s, "b"));
    assert!(set_has(&s, "a") && !set_has(&s, "c"));
    assert!(set_remove(&mut s, "a"));
    assert!(!set_remove(&mut s, "a"));
    assert_eq!(s, texts(&["b"]));
    let mut m = vec![("k".to_string(), "1".to_string())];
    put_pair(&mut m, "k", "2");
    put_pair(&mut m, "l", "3");
    assert_eq!(pair_get(&m, "k"), Some("2"));
    assert_eq!(pair_get(&m, "l"), Some("3"));
    assert_eq!(pair_get(&m, "n"), None);
}

#[test]
fn texts_are_ordered_like_strings() {
    assert!(str_leq("a", "a") && str_leq("a", "ab") && str_leq("Z", "a"));
    assert!(!str_leq("b", "ab") && !str_leq("\u{e9}", "z"));
    assert_eq!(sort_texts(&texts(&["b", "B", "a", "ab", "a"])), texts(&["B", "a", "a", "ab", "b"]));
}

#[test]
fn streamed_text_is_gathered_by_part() {
    let mut d: Vec<PendingDelta> = vec![];
    push_delta(&mut d, "m", "p", "one", false);
    push_delta(&mut d, "m", "q", "why", true);
    push_delta(&mut d, "m", "p", " two", false);
    let mut fx = no_effects();
    flush_part(&mut d, "q", &mut fx);
    flush_all(&mut d, &mut fx);
    assert_eq!(
        fx,
        vec![
            Effect::Emit(AgentStreamEvent::Thinking { content: "why".to_string() }),
            Effect::Emit(AgentStreamEvent::Text { content: "one two".to_string() }),
        ]
    );
    assert!(d.is_empty());
}

#[test]
fn model_windows_are_remembered() {
    let mut s = RemoteState::new("/ws", None);
    let fetched = vec![("m".to_string(), 100u64)];
    assert_eq!(s.context_limit_for("m", &fetched), 100);
    assert_eq!(s.context_limit_for("m", &vec![("m".to_string(), 7u64)]), 100);
    assert_eq!(s.context_limit_for("n", &fetched), 0);
}

#[test]
fn a_workspace_is_blessed_from_the_start() {
    assert_eq!(RemoteState::new("/ws/", None).auto_accept_paths, texts(&["/ws"]));
    assert!(RemoteState::new("ws", None).auto_accept_paths.is_empty());
    assert!(RemoteState::new("", None).auto_accept_paths.is_empty());
    assert_eq!(RemoteState::new("/ws", Some("s".to_string())).opencode_session_id.as_deref(), Some("s"));
}

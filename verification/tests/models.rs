use aionui_ai_agent::json::Json;
use aionui_ai_agent::models::{
    checked_tokens_used, context_tokens_used, default_opencode_agent_modes, find_limit, map_sdk_model_to_payload,
    merge_model_info, next_opencode_message_id, parse_context_limits, parse_opencode_agent_modes,
    parse_opencode_skills, parse_provider_model_entries, selectable_models, ModelInfoEntry, ModelInfoPayload,
};

fn json(text: &str) -> Json {
    Json::from_text(text).expect("a document")
}

fn limit(m: &Vec<(String, u64)>, key: &str) -> Option<u64> {
    m.iter().find(|e| e.0 == key).map(|e| e.1)
}

fn sample_transcript() -> Json {
    json(
        r#"[
            { "info": { "id": "msg_u1", "role": "user" }, "parts": [] },
            { "info": { "id": "msg_a1", "role": "assistant" }, "parts": [] },
            { "info": { "id": "msg_a2", "role": "assistant" }, "parts": [] },
            { "info": { "id": "msg_u2", "role": "user" }, "parts": [] }
        ]"#,
    )
}

#[test]
fn next_opencode_message_id_returns_following_message() {
    let t = sample_transcript();
    assert_eq!(next_opencode_message_id(&t, "msg_u1"), Some("msg_a1".to_string()));
    assert_eq!(next_opencode_message_id(&t, "msg_a2"), Some("msg_u2".to_string()));
}

#[test]
fn next_opencode_message_id_last_message_is_none() {
    let t = sample_transcript();
    assert_eq!(next_opencode_message_id(&t, "msg_u2"), None);
}

#[test]
fn next_opencode_message_id_unknown_or_malformed_is_none() {
    let t = sample_transcript();
    assert_eq!(next_opencode_message_id(&t, "msg_missing"), None);
    assert_eq!(next_opencode_message_id(&json("{}"), "msg_u1"), None);
}

#[test]
fn parses_model_context_limits() {
    let body = json(
        r#"{
            "providers": [
                {
                    "id": "anthropic",
                    "models": {
                        "sonnet-4-5": { "limit": { "context": 200000, "output": 64000 } },
                        "haiku": { "limit": { "context": 100000, "output": 8192 } }
                    }
                },
                {
                    "id": "openai",
                    "models": {
                        "gpt-5": { "limit": { "context": 400000, "output": 128000 } }
                    }
                }
            ],
            "default": {}
        }"#,
    );
    let limits = parse_context_limits(&body);
    assert_eq!(limit(&limits, "sonnet-4-5"), Some(200000));
    assert_eq!(limit(&limits, "haiku"), Some(100000));
    assert_eq!(limit(&limits, "gpt-5"), Some(400000));
    assert_eq!(find_limit(&limits, "gpt-5"), 400000);
    assert_eq!(find_limit(&limits, "unknown"), 0);
}

#[test]
fn skips_models_without_positive_context() {
    let body = json(
        r#"{
            "providers": [
                { "id": "p", "models": {
                    "no-limit": { "limit": { "output": 1000 } },
                    "zero": { "limit": { "context": 0 } },
                    "ok": { "limit": { "context": 8000 } }
                } }
            ],
            "default": {}
        }"#,
    );
    let limits = parse_context_limits(&body);
    assert!(limit(&limits, "no-limit").is_none());
    assert!(limit(&limits, "zero").is_none());
    assert_eq!(limit(&limits, "ok"), Some(8000));
}

#[test]
fn parse_handles_malformed_body() {
    assert!(parse_context_limits(&json("{}")).is_empty());
    assert!(parse_context_limits(&json(r#"{ "providers": "nope" }"#)).is_empty());
    assert!(parse_context_limits(&json("[]")).is_empty());
}

#[test]
fn sums_prompt_and_generation_tokens() {
    let tokens = json(
        r#"{
            "input": 1200,
            "output": 350,
            "reasoning": 80,
            "cache": { "read": 5000, "write": 100 }
        }"#,
    );
    assert_eq!(context_tokens_used(&tokens), 6730);
}

#[test]
fn missing_token_fields_count_as_zero() {
    assert_eq!(context_tokens_used(&json(r#"{ "input": 42 }"#)), 42);
    assert_eq!(context_tokens_used(&json("{}")), 0);
    assert_eq!(context_tokens_used(&json(r#"{ "cache": { "read": 9 } }"#)), 9);
}

#[test]
fn sums_that_do_not_fit_are_told() {
    let tokens = json(r#"{ "input": 18446744073709551615, "output": 1 }"#);
    assert_eq!(checked_tokens_used(&tokens), None);
}

#[test]
fn parse_provider_model_entries_connected_only() {
    let body = json(
        r#"{
            "connected": ["opencode"],
            "all": [
                {
                    "id": "opencode",
                    "models": { "zen-fast": { "name": "Zen Fast" } }
                },
                {
                    "id": "anthropic",
                    "models": { "sonnet-4-5": { "name": "Sonnet" } }
                }
            ]
        }"#,
    );
    let entries = parse_provider_model_entries(&body);
    assert_eq!(entries.len(), 1);
    assert_eq!(entries[0].id, "opencode::zen-fast");
    assert_eq!(entries[0].label, "[opencode] Zen Fast");
}

#[test]
fn parse_provider_model_entries_fallback_when_connected_empty() {
    let body = json(
        r#"{
            "connected": [],
            "all": [
                {
                    "id": "anthropic",
                    "models": { "sonnet-4-5": { "name": "Sonnet" } }
                }
            ]
        }"#,
    );
    let entries = parse_provider_model_entries(&body);
    assert_eq!(entries.len(), 1);
    assert_eq!(entries[0].id, "anthropic::sonnet-4-5");
}

#[test]
fn parse_opencode_agent_modes_keeps_primary_visible_agents() {
    let modes = parse_opencode_agent_modes(&json(
        r#"[
            { "name": "build", "mode": "primary", "description": "Default" },
            { "name": "review", "mode": "primary", "description": "Review code" },
            { "name": "ui-expert", "mode": "all", "native": false, "description": "Custom UI agent" },
            { "name": "explore", "mode": "subagent", "description": "Subagent" },
            { "name": "compaction", "mode": "primary", "hidden": true }
        ]"#,
    ));
    assert_eq!(
        modes.iter().map(|m| m.id.as_str()).collect::<Vec<_>>(),
        vec!["build", "plan", "review", "ui-expert"]
    );
    assert_eq!(modes[2].description.as_deref(), Some("Review code"));
    assert_eq!(modes[3].description.as_deref(), Some("Custom UI agent"));
}

#[test]
fn default_modes_are_build_and_plan() {
    let modes = default_opencode_agent_modes();
    assert_eq!(modes.iter().map(|m| m.id.as_str()).collect::<Vec<_>>(), vec!["build", "plan"]);
}

#[test]
fn skills_need_a_name() {
    let skills = parse_opencode_skills(&json(
        r#"[{ "name": "s1", "description": "d" }, { "description": "no name" }]"#,
    ));
    assert_eq!(skills.len(), 1);
    assert_eq!(skills[0].name, "s1");
    assert!(parse_opencode_skills(&json("{}")).is_empty());
}

#[test]
fn merge_prefers_sdk_model_over_cc_switch() {
    let sdk_payload = ModelInfoPayload {
        current_model_id: Some("default".into()),
        current_model_label: Some("Sonnet 4.6".into()),
        available_models: vec![ModelInfoEntry {
            id: "default".into(),
            label: "Sonnet 4.6".into(),
        }],
    };
    let cc_switch_payload = ModelInfoPayload {
        current_model_id: Some("default".into()),
        current_model_label: Some("DeepSeek V4".into()),
        available_models: vec![ModelInfoEntry {
            id: "default".into(),
            label: "DeepSeek V4".into(),
        }],
    };
    let result = merge_model_info(Some(sdk_payload), Some(cc_switch_payload));
    assert_eq!(result.unwrap().current_model_label.as_deref(), Some("Sonnet 4.6"));
}

#[test]
fn merge_falls_back_to_cc_switch_when_sdk_none() {
    let cc_switch_payload = ModelInfoPayload {
        current_model_id: Some("default".into()),
        current_model_label: Some("DeepSeek V4".into()),
        available_models: vec![ModelInfoEntry {
            id: "default".into(),
            label: "DeepSeek V4".into(),
        }],
    };
    let result = merge_model_info(None, Some(cc_switch_payload));
    assert_eq!(result.unwrap().current_model_label.as_deref(), Some("DeepSeek V4"));
}

#[test]
fn merge_returns_none_when_both_none() {
    let result = merge_model_info(None, None);
    assert!(result.is_none());
}

#[test]
fn the_label_of_a_model_comes_from_the_list() {
    let available = vec![ModelInfoEntry { id: "m1".into(), label: "Model One".into() }];
    let info = map_sdk_model_to_payload("m1".to_string(), available);
    assert_eq!(info.current_model_id.as_deref(), Some("m1"));
    assert_eq!(info.current_model_label.as_deref(), Some("Model One"));
    let info = map_sdk_model_to_payload("m2".to_string(), vec![]);
    assert_eq!(info.current_model_label.as_deref(), Some("m2"));
}

#[test]
fn only_connected_providers_offer_models() {
    let body = |connected: &str| {
        Json::from_text(&format!(
            r#"{{"connected":{connected},"all":[{{"id":"p","models":{{"b":{{"name":"B"}},"a":{{}}}}}},{{"id":"q","models":{{"c":{{}}}}}}]}}"#
        ))
        .expect("a document")
    };
    let shown: Vec<(String, String)> =
        selectable_models(&body(r#"["p"]"#)).into_iter().map(|m| (m.id, m.label)).collect();
    assert_eq!(
        shown,
        vec![("p::a".to_string(), "[p] a".to_string()), ("p::b".to_string(), "[p] B".to_string())]
    );
    assert!(selectable_models(&body("[]")).is_empty());
    assert!(selectable_models(&body("null")).is_empty());
}

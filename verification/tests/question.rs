use aionui_ai_agent::json::Json;
use aionui_ai_agent::question::{
    build_question_confirmations, build_question_reject_url, build_question_reply_request,
    is_question_call_id, parse_question_call_id, parse_question_request, question_call_id,
    PendingQuestion, QUESTION_ALL_VALUE, QUESTION_FREEFORM_VALUE, QUESTION_REJECT_VALUE,
};

fn json(text: &str) -> Json {
    Json::from_text(text).expect("a document")
}

fn string(s: &str) -> Json {
    Json::Str(s.to_string())
}

fn param<'a>(params: &'a Option<Vec<(String, String)>>, key: &str) -> Option<&'a str> {
    let list = params.as_ref()?;
    list.iter().find(|p| p.0 == key).map(|p| p.1.as_str())
}

fn sample_props() -> Json {
    json(
        r#"{
            "id": "que_abc",
            "sessionID": "ses_1",
            "questions": [
                {
                    "header": "DB choice",
                    "question": "Which database should I use?",
                    "options": [
                        { "label": "Postgres", "description": "Relational, robust" },
                        { "label": "SQLite", "description": "Embedded, simple" }
                    ],
                    "multiple": false,
                    "custom": true
                }
            ],
            "tool": { "messageID": "msg_1", "callID": "call_1" }
        }"#,
    )
}

fn secret_props() -> Json {
    json(
        r#"{
            "id": "que_secret",
            "sessionID": "ses_1",
            "questions": [{
                "header": "Token?",
                "question": "Paste a token",
                "options": [],
                "multiple": false,
                "custom": true,
                "secret": true
            }]
        }"#,
    )
}

fn multi_props() -> Json {
    json(
        r#"{
            "id": "que_multi",
            "sessionID": "ses_1",
            "questions": [{
                "header": "Tools?",
                "question": "Which tools?",
                "options": [
                    { "label": "bash", "description": "run shell" },
                    { "label": "read", "description": "read file" },
                    { "label": "write", "description": "write file" }
                ],
                "multiple": true,
                "custom": false
            }]
        }"#,
    )
}

#[test]
fn parses_full_request() {
    let req = parse_question_request(&sample_props()).expect("should parse");
    assert_eq!(req.request_id, "que_abc");
    assert_eq!(req.session_id.as_deref(), Some("ses_1"));
    assert_eq!(req.questions.len(), 1);
    let q = &req.questions[0];
    assert_eq!(q.header, "DB choice");
    assert_eq!(q.options.len(), 2);
    assert_eq!(q.options[0], ("Postgres".to_string(), "Relational, robust".to_string()));
    assert!(q.custom);
    assert!(!q.multiple);
    assert!(!q.secret);
}

#[test]
fn parses_secret_flag_only_when_custom_is_true() {
    let req = parse_question_request(&secret_props()).expect("should parse");
    let q = &req.questions[0];
    assert!(q.custom);
    assert!(q.secret, "secret:true + custom:true must land on ParsedQuestion.secret");
    let props2 = json(
        r#"{
            "id": "que_nosecret",
            "sessionID": "ses_1",
            "questions": [{
                "header": "Pick",
                "question": "Pick one",
                "options": [{ "label": "A", "description": "" }],
                "multiple": false,
                "custom": false,
                "secret": true
            }]
        }"#,
    );
    let req2 = parse_question_request(&props2).expect("should parse");
    assert!(!req2.questions[0].secret);
}

#[test]
fn rejects_missing_id_or_questions() {
    assert!(parse_question_request(&json(r#"{ "questions": [] }"#)).is_none());
    assert!(parse_question_request(&json(r#"{ "id": "que_x", "questions": [] }"#)).is_none());
    assert!(parse_question_request(&json(r#"{ "id": "que_x" }"#)).is_none());
}

#[test]
fn call_id_round_trips_including_hyphenated_request_ids() {
    let cid = question_call_id("que_abc", 2);
    assert_eq!(cid, "question-que_abc-2");
    assert!(is_question_call_id(&cid));
    assert_eq!(parse_question_call_id(&cid), Some(("que_abc".to_string(), 2)));

    let cid2 = question_call_id("que-with-dashes", 0);
    assert_eq!(parse_question_call_id(&cid2), Some(("que-with-dashes".to_string(), 0)));

    assert!(parse_question_call_id("shell-123").is_none());
    assert!(parse_question_call_id("question-").is_none());
    assert!(parse_question_call_id("question-que_x-notanum").is_none());
}

#[test]
fn builds_one_confirmation_per_question_with_reject() {
    let req = parse_question_request(&sample_props()).unwrap();
    let confs = build_question_confirmations(&req);
    assert_eq!(confs.len(), 1);
    let c = &confs[0];
    assert_eq!(c.call_id, "question-que_abc-0");
    assert_eq!(c.title.as_deref(), Some("DB choice"));
    assert_eq!(c.command_type, None);
    assert_eq!(c.session_id.as_deref(), Some("ses_1"));
    assert_eq!(c.options.len(), 4);
    assert_eq!(c.options[0].value, string("Postgres"));
    assert_eq!(c.options[2].value, string(QUESTION_FREEFORM_VALUE));
    assert_eq!(param(&c.options[2].params, "kind"), Some("freeform"));
    assert!(param(&c.options[2].params, "secret").is_none());
    assert_eq!(c.options[3].value, string(QUESTION_REJECT_VALUE));
    assert!(c.description.contains("Relational, robust"));
    assert!(c.description.contains("custom answer"));
}

#[test]
fn builds_freeform_option_with_secret_flag() {
    let req = parse_question_request(&secret_props()).unwrap();
    let confs = build_question_confirmations(&req);
    assert_eq!(confs.len(), 1);
    let c = &confs[0];
    assert_eq!(c.options.len(), 2);
    let freeform = c
        .options
        .iter()
        .find(|o| o.value == string(QUESTION_FREEFORM_VALUE))
        .expect("freeform option present");
    assert!(freeform.params.is_some());
    assert_eq!(param(&freeform.params, "kind"), Some("freeform"));
    assert_eq!(param(&freeform.params, "secret"), Some("true"));
    assert!(c.description.contains("(secret)"));
}

#[test]
fn builds_multiple_select_with_all_option() {
    let req = parse_question_request(&multi_props()).unwrap();
    let confs = build_question_confirmations(&req);
    assert_eq!(confs.len(), 1);
    let c = &confs[0];
    assert_eq!(c.options.len(), 5);
    let all = c
        .options
        .iter()
        .find(|o| o.value == string(QUESTION_ALL_VALUE))
        .expect("all option present");
    assert_eq!(all.label, "All of the above");
    assert!(c.description.contains("multiple answers"));
}

#[test]
fn all_value_present_in_options() {
    assert!(!QUESTION_ALL_VALUE.is_empty());
    assert!(!QUESTION_FREEFORM_VALUE.is_empty());
}

#[test]
fn reply_request_shape_matches_server() {
    let answers = vec![vec!["Postgres".to_string()]];
    let (url, body) = build_question_reply_request("http://h:4096", "que_abc", &answers);
    assert_eq!(url, "http://h:4096/question/que_abc/reply");
    assert_eq!(body, json(r#"{ "answers": [["Postgres"]] }"#));
}

#[test]
fn reject_url_shape() {
    assert_eq!(
        build_question_reject_url("http://h:4096", "que_abc"),
        "http://h:4096/question/que_abc/reject"
    );
}

#[test]
fn pending_question_completion_lifecycle() {
    let props = json(
        r#"{
            "id": "que_multi",
            "sessionID": "ses_1",
            "questions": [
                { "header": "A", "question": "q1", "options": [{ "label": "x", "description": "" }] },
                { "header": "B", "question": "q2", "options": [{ "label": "y", "description": "" }] }
            ]
        }"#,
    );
    let req = parse_question_request(&props).unwrap();
    let mut pending = PendingQuestion::new(&req);
    assert!(!pending.is_complete());
    assert!(pending.record(0, vec!["x".to_string()]));
    assert!(!pending.is_complete());
    assert!(pending.record(1, vec!["y".to_string()]));
    assert!(pending.is_complete());
    assert_eq!(pending.collected(), vec![vec!["x".to_string()], vec!["y".to_string()]]);
    assert!(!pending.record(9, vec!["z".to_string()]));
}

#[test]
fn choosing_all_stands_for_every_label() {
    let req = parse_question_request(&multi_props()).unwrap();
    let pending = PendingQuestion::new(&req);
    assert_eq!(pending.answer(0, &vec![QUESTION_ALL_VALUE.to_string()]), vec!["bash", "read", "write"]);
    assert_eq!(pending.answer(0, &vec!["read".to_string()]), vec!["read"]);
}

#[test]
fn one_choice_is_never_spread() {
    let props = json(
        r#"{
            "id": "que_1",
            "sessionID": "ses_1",
            "questions": [
                { "header": "A", "question": "q1", "options": [{ "label": "x", "description": "" }] },
                { "header": "B", "question": "q2", "multiple": true, "options": [] },
                { "header": "C", "question": "q3", "multiple": true, "options": [{ "label": "y", "description": "" }] }
            ]
        }"#,
    );
    let pending = PendingQuestion::new(&parse_question_request(&props).unwrap());
    let all = vec![QUESTION_ALL_VALUE.to_string()];
    assert_eq!(pending.answer(0, &all), all);
    assert_eq!(pending.answer(1, &all), all);
    assert_eq!(pending.answer(2, &all), vec!["y"]);
    assert_eq!(pending.answer(3, &all), all);
}

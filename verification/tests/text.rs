use aionui_ai_agent::http::{read_acceptance, read_answer, read_json_answer, read_tree, HttpReply};
use aionui_ai_agent::json::{Json, JsonNumber, Obj};
use aionui_ai_agent::paths::{below, count_names, is_within, leading_parts, PathPart};
use aionui_ai_agent::text::{
    ascii_lowercase, contains, contains_char, i64_dec, is_blank, parse_unsigned, split_char, split_words, starts_with,
    strip_prefix, trim, trim_end_char, u64_dec,
};
use aionui_ai_agent::types::AppError;

fn texts(v: &[&str]) -> Vec<String> {
    v.iter().map(|s| s.to_string()).collect()
}

#[test]
fn numbers_are_written_and_read() {
    assert_eq!(u64_dec(0), "0");
    assert_eq!(u64_dec(u64::MAX), u64::MAX.to_string());
    assert_eq!(i64_dec(-7), "-7");
    assert_eq!(i64_dec(i64::MIN), i64::MIN.to_string());
    assert_eq!(parse_unsigned("65535", 65535), Some(65535));
    assert_eq!(parse_unsigned("65536", 65535), None);
    assert_eq!(parse_unsigned("+12", 100), "+12".parse::<u64>().ok());
    assert_eq!(parse_unsigned("-1", 100), None);
    assert_eq!(parse_unsigned("", 100), None);
    assert_eq!(parse_unsigned("+", 100), None);
    assert_eq!(parse_unsigned("99999999999999999999999", u64::MAX), None);
}

#[test]
fn texts_are_taken_apart() {
    assert_eq!(trim(" \u{3000}a b\t\n"), "a b");
    assert_eq!(trim_end_char("a//", '/'), "a");
    assert!(is_blank(" \u{2003}\n") && !is_blank("x"));
    assert!(contains("abc", "bc") && contains("abc", "") && !contains("abc", "ca"));
    assert!(starts_with("abc", "ab") && !starts_with("ab", "abc"));
    assert_eq!(strip_prefix("data: x", "data: ").as_deref(), Some("x"));
    assert_eq!(strip_prefix("x", "y"), None);
    assert!(contains_char("a=b", '=') && !contains_char("ab", '='));
    assert_eq!(split_char("a,,b", ','), texts(&["a", "", "b"]));
    assert_eq!(split_words(" a  b\u{a0}c "), texts(&["a", "b", "c"]));
    assert_eq!(ascii_lowercase("ABC\u{c4}"), "abc\u{c4}");
}

#[test]
fn paths_lie_below_others() {
    let path = |names: &[&str]| names.iter().map(|n| PathPart::Name(n.to_string())).collect::<Vec<_>>();
    assert!(is_within(&path(&["a", "b"]), &path(&["a"])));
    assert!(!is_within(&path(&["ab"]), &path(&["a"])));
    assert_eq!(below(&path(&["a", "b"]), 1), path(&["b"]));
    assert_eq!(leading_parts(&vec![PathPart::Current, PathPart::Name("a".to_string())]), path(&["a"]));
    assert_eq!(count_names(&vec![PathPart::Root, PathPart::Name("a".to_string())]), 1);
}

#[test]
fn trees_are_read_and_written() {
    let v = Json::from_text(r#"{"b":[1,-2,1.5,true,null,"x"],"a":{}}"#).expect("a document");
    assert_eq!(v.to_text(), r#"{"a":{},"b":[1,-2,1.5,true,null,"x"]}"#);
    let b = v.get_array("b").expect("an array");
    assert_eq!(b[0].as_u64(), Some(1));
    assert_eq!(b[1].as_i64(), Some(-2));
    assert_eq!(b[1].as_u64(), None);
    assert_eq!(b[2], Json::Number(JsonNumber::Float("1.5".to_string())));
    assert_eq!(b[3].as_bool(), Some(true));
    assert_eq!(b[5].as_str(), Some("x"));
    assert_eq!(Json::integer(5).as_u64(), Some(5));
    assert_eq!(Json::integer(-5).as_i64(), Some(-5));
    assert_eq!(Json::number(u64::MAX).as_i64(), None);
    let o = Obj::new()
        .put_str("s", "t")
        .put_bool("b", true)
        .put("n", Json::strings(&texts(&["x"])))
        .put_opt("none", &None)
        .put_opt("some", &Some("y".to_string()))
        .build();
    assert_eq!(o.to_text(), r#"{"b":true,"n":["x"],"s":"t","some":"y"}"#);
    assert_eq!(o.with_field("s", Json::Null).get("s"), Some(&Json::Null));
    assert_eq!(Json::Null.with_field("k", Json::Bool(true)).to_text(), r#"{"k":true}"#);
    assert!(Json::from_text("{").is_none());
    assert!(Json::parse("{").unwrap_err().starts_with("EOF while parsing"));
    let twice = Json::from_text(r#"{"k":1,"k":2}"#).expect("a document");
    assert_eq!(twice.get("k").and_then(|v| v.as_u64()), Some(2));
}

#[test]
fn replies_are_read() {
    let answered = HttpReply::Answered(" ".to_string());
    let undecoded = HttpReply::Undecoded("u".to_string());
    let refused = HttpReply::Refused { status: "500 Oops".to_string(), body: "b".to_string() };
    assert_eq!(read_answer(&answered, true, "Asking"), Ok(" ".to_string()));
    assert_eq!(read_answer(&undecoded, true, "Asking"), Ok(String::new()));
    assert_eq!(
        read_answer(&HttpReply::Unsent("e".to_string()), false, "Asking"),
        Err(AppError::Internal("Asking failed: e".to_string()))
    );
    let told = AppError::BadGateway("Asking returned 500 Oops: b".to_string());
    assert_eq!(read_answer(&refused, true, "Asking"), Err(told.copy()));
    assert_eq!(read_acceptance(&refused, true, "Asking"), Err(told.copy()));
    assert_eq!(read_acceptance(&undecoded, true, "Asking"), Ok(()));
    assert_eq!(read_json_answer(&refused, true, true, "Asking", "Answer"), Err(told));
    assert_eq!(read_json_answer(&answered, true, true, "Asking", "Answer"), Ok(Json::Null));
    assert!(read_json_answer(&answered, false, true, "Asking", "Answer").is_err());
    assert_eq!(read_json_answer(&undecoded, true, true, "Asking", "Answer"), Ok(Json::Null));
    assert_eq!(
        read_json_answer(&undecoded, false, true, "Asking", "Answer"),
        Err(AppError::BadGateway("Answer was not JSON: u".to_string()))
    );
    assert_eq!(read_tree("", Err("x".to_string()), true, true, "Answer"), Ok(Json::Null));
    assert_eq!(
        read_tree("{", Err("x".to_string()), true, false, "Answer"),
        Err(AppError::Internal("Answer was not JSON: x".to_string()))
    );
}

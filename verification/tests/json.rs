use fs_ai::json::{
    chat_request_body, json_element, json_member, json_text, reply_from_content, reply_from_json,
    JsonValue,
};

fn to_json(v: &serde_json::Value) -> JsonValue {
    match v {
        serde_json::Value::Null => JsonValue::Null,
        serde_json::Value::Bool(b) => JsonValue::Bool(*b),
        serde_json::Value::Number(_) => JsonValue::Number,
        serde_json::Value::String(s) => JsonValue::Str(s.clone()),
        serde_json::Value::Array(items) => JsonValue::Array(items.iter().map(to_json).collect()),
        serde_json::Value::Object(map) => {
            JsonValue::Object(map.iter().map(|(k, v)| (k.clone(), to_json(v))).collect())
        }
    }
}

fn parse(text: &str) -> JsonValue {
    to_json(&serde_json::from_str(text).unwrap())
}

#[test]
fn request_body_is_exact_json() {
    assert_eq!(
        chat_request_body("Hi"),
        r#"{"max_tokens":512,"messages":[{"content":"Hi","role":"user"}],"model":"local"}"#
    );
}

#[test]
fn request_body_escapes_prompt() {
    let body = chat_request_body("say \"hi\"\n\\ tab\t bell\u{7} ü");
    assert_eq!(
        body,
        "{\"max_tokens\":512,\"messages\":[{\"content\":\"say \\\"hi\\\"\\n\\\\ tab\\t bell\\u0007 ü\",\"role\":\"user\"}],\"model\":\"local\"}"
    );
    let v: serde_json::Value = serde_json::from_str(&body).unwrap();
    assert_eq!(v["messages"][0]["content"], "say \"hi\"\n\\ tab\t bell\u{7} ü");
}

#[test]
fn reply_content_is_read() {
    let v = parse(r#"{"id":"x","choices":[{"index":0,"message":{"role":"assistant","content":"Hello"}}]}"#);
    assert_eq!(reply_from_json(&v), Ok("Hello".to_string()));
}

#[test]
fn only_the_first_choice_counts() {
    let v = parse(
        r#"{"choices":[{"message":{"content":"first"}},{"message":{"content":"second"}}]}"#,
    );
    assert_eq!(reply_from_json(&v), Ok("first".to_string()));
}

#[test]
fn reply_with_non_string_content_is_unexpected() {
    for text in [
        r#"{"choices":[{"message":{"content":null}}]}"#,
        r#"{"choices":[{"message":{"content":7}}]}"#,
        r#"{"choices":[{"message":{"role":"assistant"}}]}"#,
        r#"{"choices":{"message":"x"}}"#,
        r#"{"choices":[]}"#,
        "[]",
        "\"content\"",
    ] {
        assert_eq!(
            reply_from_json(&parse(text)),
            Err("Unexpected AI response format".to_string()),
            "{text}"
        );
    }
}

#[test]
fn lookups() {
    let v = parse(r#"{"a":[1,"two",{"b":true}],"c":"d"}"#);
    let a = json_member(&v, "a").unwrap();
    assert!(matches!(json_element(a, 0), Some(JsonValue::Number)));
    assert_eq!(json_text(json_element(a, 1).unwrap()), Some("two".to_string()));
    assert!(json_element(a, 3).is_none());
    assert!(matches!(json_member(json_element(a, 2).unwrap(), "b"), Some(JsonValue::Bool(true))));
    assert_eq!(json_text(json_member(&v, "c").unwrap()), Some("d".to_string()));
    assert!(json_member(&v, "missing").is_none());
    assert!(json_member(a, "a").is_none());
    assert!(json_element(&v, 0).is_none());
    assert_eq!(json_text(a), None);
}

#[test]
fn first_member_of_a_key_wins() {
    let v = JsonValue::Object(vec![
        ("k".to_string(), JsonValue::Str("one".to_string())),
        ("k".to_string(), JsonValue::Str("two".to_string())),
    ]);
    assert_eq!(json_text(json_member(&v, "k").unwrap()), Some("one".to_string()));
}

#[test]
fn reply_from_content_cases() {
    assert_eq!(reply_from_content(Some("x".to_string())), Ok("x".to_string()));
    assert_eq!(reply_from_content(None), Err("Unexpected AI response format".to_string()));
}

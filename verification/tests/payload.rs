use oracle::json::Json;
use oracle::payload::{
    decode_payload, incomplete_reason, openai_error_message, response_status, summarize_json,
    Payload, JSON_PREVIEW_CHARS,
};

fn rendered(text: String) -> Payload {
    Payload { document: Json::Null, rendered: text }
}

#[test]
fn decoding_copies_the_document() {
    let payload = decode_payload(
        r#" {"b": [1, -2, 2.5, true, null, "s"], "a": {"k": "v"}, "e": "é\n"} "#.as_bytes(),
    )
    .unwrap();
    assert_eq!(
        payload.document,
        Json::Object(vec![
            ("a".to_string(), Json::Object(vec![("k".to_string(), Json::Text("v".to_string()))])),
            (
                "b".to_string(),
                Json::Array(vec![
                    Json::Number("1".to_string()),
                    Json::Number("-2".to_string()),
                    Json::Number("2.5".to_string()),
                    Json::Bool(true),
                    Json::Null,
                    Json::Text("s".to_string()),
                ])
            ),
            ("e".to_string(), Json::Text("é\n".to_string())),
        ])
    );
    assert_eq!(payload.rendered, r#"{"a":{"k":"v"},"b":[1,-2,2.5,true,null,"s"],"e":"é\n"}"#);
}

#[test]
fn decoding_rejects_what_is_no_document() {
    assert_eq!(decode_payload(b"").unwrap_err(), "EOF while parsing a value at line 1 column 0");
    assert_eq!(decode_payload(b"{} x").unwrap_err(), "trailing characters at line 1 column 4");
    assert!(decode_payload(b"[1,]").is_err());
    assert!(decode_payload(b"\"\xc3\"").is_err());
    assert!(decode_payload(b"null").is_ok());
}

#[test]
fn fields_of_a_payload() {
    let payload = decode_payload(
        br#"{"status":"incomplete","error":{"message":"boom","code":1},"incomplete_details":{"reason":"max_output_tokens"}}"#,
    )
    .unwrap();
    assert_eq!(response_status(&payload.document), Some("incomplete"));
    assert_eq!(openai_error_message(&payload.document), Some("boom".to_string()));
    assert_eq!(incomplete_reason(&payload.document), Some("max_output_tokens".to_string()));

    let payload = decode_payload(br#"{"status":3,"error":null,"incomplete_details":{"reason":[]}}"#)
        .unwrap();
    assert_eq!(response_status(&payload.document), None);
    assert_eq!(openai_error_message(&payload.document), None);
    assert_eq!(incomplete_reason(&payload.document), None);

    let payload = decode_payload(br#"{"error":{"message":7}}"#).unwrap();
    assert_eq!(openai_error_message(&payload.document), None);
    assert_eq!(incomplete_reason(&payload.document), None);
}

#[test]
fn short_payloads_are_shown_in_full() {
    assert_eq!(summarize_json(&rendered(String::new())), "");
    assert_eq!(summarize_json(&rendered("{}".to_string())), "{}");
    let exact = "a".repeat(JSON_PREVIEW_CHARS);
    assert_eq!(summarize_json(&rendered(exact.clone())), exact);
}

#[test]
fn long_payloads_are_cut_with_a_count() {
    let text = format!("{}{}", "a".repeat(JSON_PREVIEW_CHARS), "b");
    assert_eq!(
        summarize_json(&rendered(text)),
        format!("{}...[truncated 1 chars]", "a".repeat(JSON_PREVIEW_CHARS))
    );
    let text = format!("{}{}", "a".repeat(JSON_PREVIEW_CHARS), "b".repeat(12_345));
    assert_eq!(
        summarize_json(&rendered(text)),
        format!("{}...[truncated 12345 chars]", "a".repeat(JSON_PREVIEW_CHARS))
    );
}

#[test]
fn preview_counts_characters_and_keeps_them_whole() {
    let text = "é".repeat(JSON_PREVIEW_CHARS + 10);
    assert_eq!(
        summarize_json(&rendered(text)),
        format!("{}...[truncated 10 chars]", "é".repeat(JSON_PREVIEW_CHARS))
    );
    let text = "é".repeat(JSON_PREVIEW_CHARS);
    assert_eq!(summarize_json(&rendered(text.clone())), text);
}

#[test]
fn preview_of_a_decoded_payload() {
    let body = format!(r#"{{"output_text": "{}"}}"#, "z".repeat(3000));
    let payload = decode_payload(body.as_bytes()).unwrap();
    let shown = summarize_json(&payload);
    assert!(shown.starts_with(r#"{"output_text":"zzz"#));
    assert!(shown.ends_with("z...[truncated 1018 chars]"));
    assert_eq!(shown.chars().count(), JSON_PREVIEW_CHARS + "...[truncated 1018 chars]".len());
}

#[test]
fn members_are_kept_by_name_and_a_repeated_name_keeps_its_last_value() {
    let payload = decode_payload(br#"{"b": 1, "a": "first", "b": 2, "a": "last"}"#).unwrap();
    assert_eq!(
        payload.document,
        Json::Object(vec![
            ("a".to_string(), Json::Text("last".to_string())),
            ("b".to_string(), Json::Number("2".to_string())),
        ])
    );
    assert_eq!(payload.rendered, r#"{"a":"last","b":2}"#);
}

#[test]
fn the_same_body_gives_the_same_payload() {
    let body = br#"{"id":"r","output":[{"content":[{"text":"x"}]}],"n":[1.5e3,-0]}"#;
    let first = decode_payload(body).unwrap();
    let second = decode_payload(body).unwrap();
    assert_eq!(first.document, second.document);
    assert_eq!(first.rendered, second.rendered);
    assert_eq!(first.rendered, r#"{"id":"r","n":[1500.0,-0.0],"output":[{"content":[{"text":"x"}]}]}"#);
    assert_eq!(decode_payload(b"[").unwrap_err(), decode_payload(b"[").unwrap_err());
}

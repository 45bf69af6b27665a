use pr_builder::CreatePullRequestBuilder;

fn body_payload(body: &str) -> String {
    CreatePullRequestBuilder::new(
        "o".to_string(),
        "r".to_string(),
        "t".to_string(),
        "h".to_string(),
        "b".to_string(),
    )
    .body(Some(body.to_string()))
    .payload_json()
}

#[test]
fn quote_and_backslash_are_escaped() {
    let payload = body_payload("a \"quoted\" \\ thing");
    assert_eq!(
        payload,
        "{\"title\":\"t\",\"head\":\"h\",\"base\":\"b\",\"body\":\"a \\\"quoted\\\" \\\\ thing\"}"
    );
}

#[test]
fn named_control_characters_use_short_escapes() {
    let payload = body_payload("a\u{8}b\tc\nd\u{c}e\rf");
    assert_eq!(
        payload,
        "{\"title\":\"t\",\"head\":\"h\",\"base\":\"b\",\"body\":\"a\\bb\\tc\\nd\\fe\\rf\"}"
    );
}

#[test]
fn other_control_characters_use_unicode_escapes() {
    let payload = body_payload("x\u{1}y\u{1f}z");
    assert_eq!(
        payload,
        "{\"title\":\"t\",\"head\":\"h\",\"base\":\"b\",\"body\":\"x\\u0001y\\u001fz\"}"
    );
}

#[test]
fn non_ascii_text_passes_through() {
    let payload = body_payload("héllo wörld ✓");
    assert_eq!(
        payload,
        "{\"title\":\"t\",\"head\":\"h\",\"base\":\"b\",\"body\":\"héllo wörld ✓\"}"
    );
}

#[test]
fn escaped_body_round_trips_through_a_json_parser() {
    let body = "line one\nline \"two\" \\ \t \u{1} \u{1f} end";
    let payload = body_payload(body);
    let got: serde_json::Value = serde_json::from_str(&payload).unwrap();
    assert_eq!(got["body"], serde_json::Value::String(body.to_string()));
}

#[test]
fn escaping_applies_to_every_string_field() {
    let payload = CreatePullRequestBuilder::new(
        "o".to_string(),
        "r".to_string(),
        "a\"b".to_string(),
        "c\\d".to_string(),
        "e\nf".to_string(),
    )
    .payload_json();
    assert_eq!(
        payload,
        "{\"title\":\"a\\\"b\",\"head\":\"c\\\\d\",\"base\":\"e\\nf\"}"
    );
}

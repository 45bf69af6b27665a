use pr_builder::CreatePullRequestBuilder;

fn builder(owner: &str, repo: &str, title: &str, head: &str, base: &str) -> CreatePullRequestBuilder {
    CreatePullRequestBuilder::new(
        owner.to_string(),
        repo.to_string(),
        title.to_string(),
        head.to_string(),
        base.to_string(),
    )
}

#[test]
fn serialize() {
    let list = builder("rust-lang", "rust", "test-pr", "master", "branch")
        .body(Some(String::from("testing...")))
        .draft(Some(true))
        .maintainer_can_modify(Some(true));

    let payload = list.payload_json();
    let got: serde_json::Value = serde_json::from_str(&payload).unwrap();

    let mut expected = serde_json::Map::new();
    expected.insert(
        "title".to_string(),
        serde_json::Value::String("test-pr".to_string()),
    );
    expected.insert(
        "head".to_string(),
        serde_json::Value::String("master".to_string()),
    );
    expected.insert(
        "base".to_string(),
        serde_json::Value::String("branch".to_string()),
    );
    expected.insert(
        "body".to_string(),
        serde_json::Value::String("testing...".to_string()),
    );
    expected.insert("draft".to_string(), serde_json::Value::Bool(true));
    expected.insert("maintainer_can_modify".to_string(), serde_json::Value::Bool(true));

    assert_eq!(got, serde_json::Value::Object(expected));
}

#[test]
fn all_fields_exact_text() {
    let b = builder("rust-lang", "rust", "test-pr", "master", "branch")
        .body(Some("testing...".to_string()))
        .draft(Some(true))
        .maintainer_can_modify(Some(true));
    assert_eq!(
        b.payload_json(),
        "{\"title\":\"test-pr\",\"head\":\"master\",\"base\":\"branch\",\"body\":\"testing...\",\"draft\":true,\"maintainer_can_modify\":true}"
    );
}

#[test]
fn required_only_exact_text() {
    let b = builder("rust-lang", "rust", "test-pr", "master", "branch");
    assert_eq!(
        b.payload_json(),
        "{\"title\":\"test-pr\",\"head\":\"master\",\"base\":\"branch\"}"
    );
}

#[test]
fn path_construction() {
    let b = builder("rust-lang", "rust", "test-pr", "master", "branch");
    assert_eq!(b.path(), "/repos/rust-lang/rust/pulls");
}

#[test]
fn overwrite_keeps_last_value() {
    let b = builder("o", "r", "t", "h", "b")
        .body(Some("first".to_string()))
        .draft(Some(true))
        .body(Some("second".to_string()))
        .draft(Some(false))
        .maintainer_can_modify(Some(false))
        .maintainer_can_modify(Some(true));
    assert_eq!(
        b.payload_json(),
        "{\"title\":\"t\",\"head\":\"h\",\"base\":\"b\",\"body\":\"second\",\"draft\":false,\"maintainer_can_modify\":true}"
    );
}

#[test]
fn clearing_a_field_omits_it() {
    let b = builder("o", "r", "t", "h", "b")
        .body(Some("text".to_string()))
        .body(None)
        .draft(Some(true))
        .draft(None);
    assert_eq!(b.payload_json(), "{\"title\":\"t\",\"head\":\"h\",\"base\":\"b\"}");
}

#[test]
fn unset_fields_absent_from_object() {
    let b = builder("o", "r", "t", "h", "b").draft(Some(true));
    let payload = b.payload_json();
    let got: serde_json::Value = serde_json::from_str(&payload).unwrap();
    let obj = got.as_object().unwrap();
    assert_eq!(obj.len(), 4);
    assert!(obj.contains_key("title"));
    assert!(obj.contains_key("head"));
    assert!(obj.contains_key("base"));
    assert!(obj.contains_key("draft"));
    assert!(!obj.contains_key("body"));
    assert!(!obj.contains_key("maintainer_can_modify"));
}

#[test]
fn required_fields_survive_configuration() {
    let b = builder("octo", "repo", "my title", "user:branch", "main")
        .body(Some("whatever".to_string()))
        .draft(Some(false))
        .maintainer_can_modify(Some(true));
    let payload = b.payload_json();
    let got: serde_json::Value = serde_json::from_str(&payload).unwrap();
    assert_eq!(got["title"], serde_json::Value::String("my title".to_string()));
    assert_eq!(got["head"], serde_json::Value::String("user:branch".to_string()));
    assert_eq!(got["base"], serde_json::Value::String("main".to_string()));
}

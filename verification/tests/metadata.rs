use entry_point::json::{JsonEntry, JsonValue};
use entry_point::metadata::{
    blob_or_empty, check_blob, is_valid_key, key_delete_result, key_read_result, merge_key,
    MAX_BLOB_BYTES,
};
use entry_point::status::Rejection;

fn obj(entries: Vec<(&str, JsonValue)>) -> JsonValue {
    JsonValue::Object(
        entries
            .into_iter()
            .map(|(k, v)| JsonEntry { key: k.to_string(), value: v })
            .collect(),
    )
}

#[test]
fn valid_keys_are_lowercase_digits_underscore() {
    assert!(is_valid_key("tutorial_step_3"));
    assert!(is_valid_key("a"));
    assert!(is_valid_key(&"x".repeat(64)));
    assert!(!is_valid_key(""));
    assert!(!is_valid_key(&"x".repeat(65)));
    assert!(!is_valid_key("Audio"));
    assert!(!is_valid_key("audio-pref"));
    assert!(!is_valid_key("é"));
}

#[test]
fn blob_checks_root_and_size() {
    assert_eq!(check_blob(&JsonValue::Int(3), 1), Err(Rejection::BadRequest));
    assert_eq!(check_blob(&obj(vec![]), MAX_BLOB_BYTES), Ok(()));
    assert_eq!(check_blob(&obj(vec![]), MAX_BLOB_BYTES + 1), Err(Rejection::PayloadTooLarge));
    assert_eq!(Rejection::PayloadTooLarge.status_code(), 413);
}

#[test]
fn missing_blob_reads_as_empty_object() {
    match blob_or_empty(None) {
        JsonValue::Object(e) => assert!(e.is_empty()),
        _ => panic!("not an object"),
    }
    assert!(matches!(blob_or_empty(Some(JsonValue::Bool(true))), JsonValue::Bool(true)));
}

#[test]
fn key_read_answers() {
    assert!(matches!(key_read_result("Bad", Some(Some(JsonValue::Int(1)))), Err(Rejection::BadRequest)));
    assert!(matches!(key_read_result("k", None), Err(Rejection::NotFound)));
    assert!(matches!(key_read_result("k", Some(None)), Err(Rejection::NotFound)));
    assert!(matches!(key_read_result("k", Some(Some(JsonValue::Null))), Err(Rejection::NotFound)));
    assert!(matches!(key_read_result("k", Some(Some(JsonValue::Int(7)))), Ok(JsonValue::Int(7))));
}

#[test]
fn key_delete_answers() {
    assert_eq!(key_delete_result("no way", 1), Err(Rejection::BadRequest));
    assert_eq!(key_delete_result("k", 0), Err(Rejection::NotFound));
    assert_eq!(key_delete_result("k", 1), Ok(()));
}

#[test]
fn put_then_get_reads_back_and_keeps_others() {
    let stored = obj(vec![("a", JsonValue::Int(1)), ("b", JsonValue::Int(2))]);
    let written = merge_key(Some(stored), "b".to_string(), JsonValue::Str("x".to_string()));
    let got_b = written.get("b").and_then(|v| v.as_str()).map(|s| s.to_string());
    assert_eq!(got_b, Some("x".to_string()));
    assert_eq!(written.get_i64("a"), Some(1));
    match &written {
        JsonValue::Object(e) => assert_eq!(e.len(), 2),
        _ => panic!("not an object"),
    }
    let added = merge_key(Some(written), "c".to_string(), JsonValue::Int(9));
    assert_eq!(added.get_i64("c"), Some(9));
    assert_eq!(added.get_i64("a"), Some(1));
}

#[test]
fn put_on_non_object_starts_from_empty() {
    let written = merge_key(Some(JsonValue::Null), "k".to_string(), JsonValue::Int(5));
    assert_eq!(written.get_i64("k"), Some(5));
    match &written {
        JsonValue::Object(e) => assert_eq!(e.len(), 1),
        _ => panic!("not an object"),
    }
    let fresh = merge_key(None, "k".to_string(), JsonValue::Bool(false));
    assert!(matches!(fresh.get("k"), Some(JsonValue::Bool(false))));
}

use serde_json::Value;
use wakelock::preference::{
    base_document, keep_awake_in, load_keep_awake, save_keep_awake, set_keep_awake,
    updated_document,
};

fn parse(text: &str) -> Value {
    serde_json::from_str::<Value>(text).unwrap()
}

#[test]
fn save_keeps_other_fields() {
    let out = save_keep_awake(Some("{\"other_key\": 1}"), true).unwrap();
    assert_eq!(parse(&out), parse("{\"other_key\": 1, \"keep_awake\": true}"));
}

#[test]
fn save_replaces_existing_entry() {
    let out = save_keep_awake(Some("{\"keep_awake\": true, \"theme\": \"dark\"}"), false).unwrap();
    assert_eq!(parse(&out), parse("{\"keep_awake\": false, \"theme\": \"dark\"}"));
}

#[test]
fn save_without_file_starts_from_empty_object() {
    let out = save_keep_awake(None, true).unwrap();
    assert_eq!(parse(&out), parse("{\"keep_awake\": true}"));
}

#[test]
fn save_over_corrupt_text_starts_from_empty_object() {
    let out = save_keep_awake(Some("{not json"), false).unwrap();
    assert_eq!(parse(&out), parse("{\"keep_awake\": false}"));
}

#[test]
fn save_over_non_object_starts_from_empty_object() {
    let out = save_keep_awake(Some("[1, 2, 3]"), true).unwrap();
    assert_eq!(parse(&out), parse("{\"keep_awake\": true}"));
}

#[test]
fn save_then_load_gives_the_saved_value() {
    let on = save_keep_awake(Some("{\"a\": [1, 2]}"), true).unwrap();
    assert!(load_keep_awake(Some(&on)));
    let off = save_keep_awake(Some(&on), false).unwrap();
    assert!(!load_keep_awake(Some(&off)));
    assert_eq!(parse(&off), parse("{\"a\": [1, 2], \"keep_awake\": false}"));
}

#[test]
fn load_missing_file_is_off() {
    assert!(!load_keep_awake(None));
}

#[test]
fn load_malformed_is_off() {
    assert!(!load_keep_awake(Some("keep_awake: true")));
    assert!(!load_keep_awake(Some("")));
}

#[test]
fn load_without_key_is_off() {
    assert!(!load_keep_awake(Some("{\"other_key\": true}")));
}

#[test]
fn load_non_boolean_entry_is_off() {
    assert!(!load_keep_awake(Some("{\"keep_awake\": \"true\"}")));
    assert!(!load_keep_awake(Some("{\"keep_awake\": 1}")));
}

#[test]
fn load_reads_the_entry() {
    assert!(load_keep_awake(Some("{\"keep_awake\": true}")));
    assert!(!load_keep_awake(Some("{\"keep_awake\": false}")));
}

#[test]
fn keep_awake_in_parsed_document() {
    assert!(keep_awake_in(&parse("{\"keep_awake\": true, \"x\": null}")));
    assert!(!keep_awake_in(&parse("{\"keep_awake\": false}")));
    assert!(!keep_awake_in(&parse("true")));
}

#[test]
fn base_document_of_object_is_the_object() {
    assert_eq!(base_document(Some("{\"k\": 2}")), parse("{\"k\": 2}"));
    assert_eq!(base_document(Some("42")), parse("{}"));
    assert_eq!(base_document(None), parse("{}"));
}

#[test]
fn set_keep_awake_sets_the_entry() {
    let mut doc = parse("{\"keep_awake\": false, \"n\": 3}");
    set_keep_awake(&mut doc, true);
    assert_eq!(doc, parse("{\"keep_awake\": true, \"n\": 3}"));
}

#[test]
fn updated_document_keeps_nested_values() {
    let doc = updated_document(Some("{\"nested\": {\"keep_awake\": 5}}"), true);
    assert_eq!(doc, parse("{\"nested\": {\"keep_awake\": 5}, \"keep_awake\": true}"));
}

#[test]
fn load_non_object_document_is_off() {
    assert!(!load_keep_awake(Some("[true]")));
    assert!(!load_keep_awake(Some("true")));
}

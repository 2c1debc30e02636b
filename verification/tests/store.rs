use barterm::store::PreferenceStore;
use serde_json::Value;

fn json(text: &str) -> Value {
    serde_json::from_str(text).unwrap()
}

#[test]
fn a_new_store_is_empty() {
    let store = PreferenceStore::new();
    assert_eq!(store.len(), 0);
    assert!(store.entries().is_empty());
    assert_eq!(store.get("window_width"), None);
}

#[test]
fn a_value_that_was_set_is_the_value_that_is_got() {
    let values = [
        "null",
        "true",
        "false",
        "0",
        "-7",
        "18446744073709551615",
        "3.25",
        "\"\"",
        "\"text with \\\"quotes\\\" and \\u00e9\"",
        "[]",
        "[1, \"two\", [3.0, null], {\"four\": 4}]",
        "{}",
        "{\"a\": {\"b\": {\"c\": [true, false]}}, \"d\": \"e\"}",
    ];
    let mut store = PreferenceStore::new();
    for (i, text) in values.iter().enumerate() {
        let key = format!("key{}", i);
        let value = json(text);
        store.set(key.clone(), value.clone());
        assert_eq!(store.get(&key), Some(value));
    }
    for (i, text) in values.iter().enumerate() {
        assert_eq!(store.get(&format!("key{}", i)), Some(json(text)));
    }
    assert_eq!(store.len(), values.len());
}

#[test]
fn an_absent_key_has_no_value() {
    let mut store = PreferenceStore::new();
    assert_eq!(store.get("missing"), None);
    assert_eq!(store.get(""), None);
    store.set("present".to_string(), json("1"));
    assert_eq!(store.get("missing"), None);
    assert_eq!(store.get("Present"), None);
    assert_eq!(store.get("present "), None);
    assert_eq!(store.get("present"), Some(json("1")));
}

#[test]
fn setting_a_key_again_replaces_its_value() {
    let mut store = PreferenceStore::new();
    store.set("theme".to_string(), json("\"dark\""));
    store.set("font".to_string(), json("12"));
    store.set("theme".to_string(), json("\"light\""));
    assert_eq!(store.get("theme"), Some(json("\"light\"")));
    assert_eq!(store.get("font"), Some(json("12")));
    assert_eq!(store.len(), 2);
}

#[test]
fn the_empty_key_is_a_key() {
    let mut store = PreferenceStore::new();
    store.set(String::new(), json("[]"));
    assert_eq!(store.get(""), Some(json("[]")));
    assert_eq!(store.len(), 1);
}

#[test]
fn entries_hold_each_key_once() {
    let mut store = PreferenceStore::new();
    assert!(store.entries().is_empty());
    store.set("b".to_string(), json("2"));
    store.set("a".to_string(), json("1"));
    store.set("b".to_string(), json("3"));
    let mut entries = store.entries();
    entries.sort_by(|x, y| x.0.cmp(&y.0));
    assert_eq!(entries, vec![("a".to_string(), json("1")), ("b".to_string(), json("3"))]);
}

use floating_ui::middleware_data::MiddlewareData;
use floating_ui::text::str_equal;
use serde_json::Value;

#[test]
fn test_middleware_data() {
    let data = MiddlewareData::default();
    assert_eq!(data.get("flip"), None);
}

#[test]
fn get_returns_what_set_stored() {
    let mut data = MiddlewareData::new();
    data.set("flip", Value::from(1));
    data.set("shift", Value::from("x"));
    assert_eq!(data.get("flip"), Some(&Value::from(1)));
    assert_eq!(data.get("shift"), Some(&Value::from("x")));
    assert_eq!(data.get("arrow"), None);
}

#[test]
fn set_replaces_the_stored_value() {
    let mut data = MiddlewareData::new();
    data.set("offset", Value::from(1));
    data.set("offset", Value::from(2));
    assert_eq!(data.get("offset"), Some(&Value::from(2)));
}

#[test]
fn keys_are_compared_by_characters() {
    assert!(str_equal("flip", "flip"));
    assert!(!str_equal("flip", "flips"));
    assert!(!str_equal("flip", "flop"));
    assert!(str_equal("", ""));
    let mut data = MiddlewareData::new();
    data.set("größe", Value::from(true));
    assert_eq!(data.get("größe"), Some(&Value::from(true)));
    assert_eq!(data.get("grösse"), None);
}

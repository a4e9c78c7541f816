use chart_model::data::DatasetData;
use chart_model::json::{render_json, Json};
use std::cmp::Ordering;

#[test]
fn scalars_render_in_json_form() {
    assert_eq!(render_json(&Json::Null), "null");
    assert_eq!(render_json(&Json::Bool(true)), "true");
    assert_eq!(render_json(&Json::Bool(false)), "false");
    assert_eq!(render_json(&Json::Int(-7)), "-7");
    assert_eq!(render_json(&Json::UInt(12)), "12");
    assert_eq!(render_json(&Json::Str(String::from("hi"))), "\"hi\"");
}

#[test]
fn strings_are_escaped_as_serde_json_escapes() {
    let j = Json::Str(String::from("a\"b\\c\nd\te\r"));
    assert_eq!(render_json(&j), "\"a\\\"b\\\\c\\nd\\te\\r\"");
    let j = Json::Str(String::from("\u{1}\u{1f}"));
    assert_eq!(render_json(&j), "\"\\u0001\\u001f\"");
}

#[test]
fn arrays_and_objects_render_compactly_in_order() {
    let j = Json::Array(vec![Json::Int(1), Json::Str(String::from("x")), Json::Null]);
    assert_eq!(render_json(&j), "[1,\"x\",null]");
    let j = Json::Object(vec![
        (String::from("b"), Json::Int(2)),
        (String::from("a"), Json::Int(1)),
    ]);
    assert_eq!(render_json(&j), "{\"b\":2,\"a\":1}");
    assert_eq!(render_json(&Json::Array(Vec::new())), "[]");
    assert_eq!(render_json(&Json::Object(Vec::new())), "{}");
}

#[test]
fn rendered_text_parses_back_with_serde_json() {
    let j = Json::Object(vec![
        (String::from("xs"), Json::Array(vec![Json::Int(1), Json::Float(String::from("2.5"))])),
        (String::from("name"), Json::Str(String::from("line \"a\"\n"))),
    ]);
    let text = render_json(&j);
    let parsed: serde_json::Value = serde_json::from_str(&text).unwrap();
    assert_eq!(parsed["xs"][0], serde_json::Value::from(1));
    assert_eq!(parsed["xs"][1], serde_json::Value::from(2.5));
    assert_eq!(parsed["name"], serde_json::Value::from("line \"a\"\n"));
}

#[test]
fn dataset_data_is_empty_only_for_the_empty_array() {
    let d = DatasetData::default();
    assert!(d.is_empty());
    let d = DatasetData::new(Json::Array(vec![Json::Int(1)]));
    assert!(!d.is_empty());
}

#[test]
fn dataset_data_orders_by_rendered_text() {
    let a = DatasetData::new(Json::Array(vec![Json::Int(10)]));
    let b = DatasetData::new(Json::Array(vec![Json::Int(9)]));
    // "[10]" orders before "[9]" because '1' < '9' in the rendered text.
    assert_eq!(a.compare(&b), Ordering::Less);
    let c = DatasetData::new(Json::Array(vec![Json::Int(10)]));
    assert_eq!(a.compare(&c), Ordering::Equal);
    assert!(a == c);
    assert!(!(a == b));
}

#[test]
fn dataset_data_keeps_the_captured_tree() {
    let d = DatasetData::new(Json::Array(vec![Json::Str(String::from("x"))]));
    assert_eq!(render_json(&d.to_json()), "[\"x\"]");
}

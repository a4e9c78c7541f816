use chart_model::json::{render_json, Json};
use chart_model::scalar::{
    reserialize_float_text, reserialize_int, reserialize_plain_text, BoolString,
    NumberOrDateString, NumberString, ScalarError,
};
use std::cmp::Ordering;

fn render_of_number(text: &str) -> String {
    render_json(&NumberString::from_text(text).to_json())
}

#[test]
fn integer_text_serializes_as_integer() {
    assert_eq!(render_of_number("5"), "5");
    assert_eq!(render_of_number("+7"), "7");
    assert_eq!(render_of_number("-12"), "-12");
    assert_eq!(render_of_number("007"), "7");
    assert_eq!(render_of_number("9223372036854775807"), "9223372036854775807");
    assert_eq!(render_of_number("-9223372036854775808"), "-9223372036854775808");
}

#[test]
fn float_text_serializes_as_float() {
    assert_eq!(render_of_number("5.5"), "5.5");
    assert_eq!(render_of_number("-0.25"), "-0.25");
    assert_eq!(render_of_number("1e2"), "100.0");
}

#[test]
fn plain_text_serializes_as_string() {
    assert_eq!(render_of_number("abc"), "\"abc\"");
    assert_eq!(render_of_number("5px"), "\"5px\"");
    assert_eq!(render_of_number("2024-01-01"), "\"2024-01-01\"");
}

#[test]
fn non_finite_text_serializes_as_string() {
    assert_eq!(render_of_number("NaN"), "\"NaN\"");
    assert_eq!(render_of_number("inf"), "\"inf\"");
}

#[test]
fn number_or_date_uses_the_same_coercion() {
    let v = NumberOrDateString::from_text("2024");
    assert_eq!(render_json(&v.to_json()), "2024");
    let v = NumberOrDateString::from_text("today");
    assert_eq!(render_json(&v.to_json()), "\"today\"");
}

#[test]
fn bool_text_serializes_as_boolean() {
    assert_eq!(render_json(&BoolString::from_text("true").to_json()), "true");
    assert_eq!(render_json(&BoolString::from_text("false").to_json()), "false");
    assert_eq!(render_json(&BoolString::from_text("yes").to_json()), "\"yes\"");
    assert_eq!(render_json(&BoolString::from_bool(true).to_json()), "true");
}

#[test]
fn reserialization_of_float_and_plain_text() {
    assert_eq!(render_json(&reserialize_float_text(String::from("5.5"))), "5.5");
    assert_eq!(render_json(&reserialize_plain_text(String::from("px"))), "\"px\"");
}

#[test]
fn integer_round_trip() {
    assert_eq!(render_json(&reserialize_int(7)), "7");
    assert_eq!(render_json(&reserialize_int(-42)), "-42");
    let v = NumberString::from_json(&Json::Int(-42)).unwrap();
    assert_eq!(v.to_string(), "-42");
    assert_eq!(render_json(&v.to_json()), "-42");
}

#[test]
fn float_round_trip_normalizes() {
    let v = NumberString::from_json(&Json::Float(String::from("5.0"))).unwrap();
    assert_eq!(v.to_string(), "5.0");
    assert_eq!(render_json(&v.to_json()), "5.0");
}

#[test]
fn string_round_trip_is_exact() {
    let v = NumberString::from_json(&Json::Str(String::from("hello"))).unwrap();
    assert_eq!(v.to_string(), "hello");
    assert_eq!(render_json(&v.to_json()), "\"hello\"");
}

#[test]
fn unsigned_number_deserializes_to_decimal_text() {
    let v = NumberString::from_json(&Json::UInt(12)).unwrap();
    assert_eq!(v.to_string(), "12");
}

#[test]
fn empty_array_placeholder_deserializes_to_empty_text() {
    let v = NumberString::from_json(&Json::Array(Vec::new())).unwrap();
    assert!(v.is_empty());
}

#[test]
fn unsupported_shapes_are_rejected() {
    let e = NumberString::from_json(&Json::Bool(true)).unwrap_err();
    assert_eq!(e, ScalarError::UnsupportedShape);
    let e = NumberString::from_json(&Json::Array(vec![Json::Null])).unwrap_err();
    assert_eq!(e, ScalarError::UnsupportedShape);
    let e = BoolString::from_json(&Json::Object(Vec::new())).unwrap_err();
    assert_eq!(e, ScalarError::UnsupportedShape);
    let e = NumberOrDateString::from_json(&Json::Null).unwrap_err();
    assert_eq!(e, ScalarError::UnsupportedShape);
}

#[test]
fn emptiness_is_about_text_not_meaning() {
    assert!(NumberString::from_text("").is_empty());
    assert!(!NumberString::from_text("0").is_empty());
    assert!(!BoolString::from_text("false").is_empty());
    assert_eq!(render_of_number("0"), "0");
}

#[test]
fn ordering_is_by_raw_text() {
    let a = NumberString::from_text("10");
    let b = NumberString::from_text("9");
    assert_eq!(a.compare(&b), Ordering::Less);
    assert_eq!(b.compare(&a), Ordering::Greater);
    assert_eq!(a.compare(&NumberString::from_text("10")), Ordering::Equal);
    assert!(NumberString::from_text("5") != NumberString::from_text("5.0"));
    assert!(NumberOrDateString::from_text("a") == NumberOrDateString::from_text("a"));
}

#[test]
fn conversions_keep_the_text() {
    let n = NumberString::from_int(31);
    let d = NumberOrDateString::from(n);
    assert_eq!(d.to_string(), "31");
    let n2 = NumberString::from(d);
    assert_eq!(n2.to_string(), "31");
    let s = NumberOrDateString::from_string(String::from("5.5"));
    assert_eq!(s.to_string(), "5.5");
}

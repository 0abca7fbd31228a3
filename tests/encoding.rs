use mssql_cli::json::{column_key_text, encode_result_set, encode_row, encode_value, JsonValue};
use mssql_cli::pipeline::render_json;
use mssql_cli::table::{Column, ResultSet, ResultStream, Row};
use mssql_cli::value::{FloatText, TypedValue};

fn int_row(name: &str, i: i32) -> Row {
    Row::new(vec![Column::new(name.to_string(), TypedValue::Int32(Some(i)))])
}

#[test]
fn quoted_column_name_is_escaped() {
    let row = Row::new(vec![Column::new("a\"b".to_string(), TypedValue::Int32(Some(1)))]);
    assert_eq!(encode_row(&row), "{\"a\\\"b\":1}");
}

#[test]
fn empty_column_names_get_positional_keys() {
    let row = Row::new(vec![
        Column::new(String::new(), TypedValue::UInt8(Some(1))),
        Column::new("x".to_string(), TypedValue::UInt8(Some(2))),
        Column::new(String::new(), TypedValue::UInt8(Some(3))),
    ]);
    assert_eq!(encode_row(&row), "{\"_0\":1,\"x\":2,\"_2\":3}");
    assert_eq!(column_key_text("", 12), "_12");
    assert_eq!(column_key_text("name", 12), "name");
}

#[test]
fn control_characters_are_escaped() {
    let v = TypedValue::String(Some("t\tn\nr\r\\\u{0}\u{1f}\u{8}\u{c}".to_string()));
    assert_eq!(encode_value(&v).to_json(), "\"t\\tn\\nr\\r\\\\\\u0000\\u001f\\b\\f\"");
}

#[test]
fn values_encode_by_type() {
    assert!(matches!(encode_value(&TypedValue::Bool(Some(true))), JsonValue::Bool(true)));
    assert_eq!(encode_value(&TypedValue::Int64(Some(-42))).to_json(), "-42");
    assert_eq!(encode_value(&TypedValue::UInt8(Some(7))).to_json(), "7");
    let f = FloatText { display: "NaN".to_string(), json: None };
    assert_eq!(encode_value(&TypedValue::Float32(Some(f))).to_json(), "null");
    let f = FloatText { display: "0.25".to_string(), json: Some("0.25".to_string()) };
    assert_eq!(encode_value(&TypedValue::Float64(Some(f))).to_json(), "0.25");
    assert_eq!(encode_value(&TypedValue::Binary(Some(vec![1, 255]))).to_json(), "\"01ff\"");
}

#[test]
fn json_strings_are_never_truncated() {
    let long = "y".repeat(300);
    let v = TypedValue::String(Some(long.clone()));
    assert_eq!(encode_value(&v).to_json(), format!("\"{long}\""));
}

#[test]
fn empty_set_and_row_encode_empty() {
    assert_eq!(encode_result_set(&ResultSet::new(vec![])), "[]");
    assert_eq!(encode_row(&Row::new(vec![])), "{}");
}

#[test]
fn json_output_has_one_line_per_result_set_in_order() {
    let first = ResultSet::new(vec![int_row("n", 1), int_row("n", 2), int_row("n", 3)]);
    let second = ResultSet::new(vec![int_row("m", 4)]);
    let lines = render_json(&ResultStream::new(vec![first, second]));
    assert_eq!(lines.len(), 2);
    assert_eq!(lines[0], "[{\"n\":1},{\"n\":2},{\"n\":3}]");
    assert_eq!(lines[1], "[{\"m\":4}]");
}

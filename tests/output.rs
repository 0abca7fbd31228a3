use mssql_cli::pipeline::{render_set, render_text, OutputFormat};
use mssql_cli::source::{first_line, is_script_end, Source};
use mssql_cli::table::{Column, ResultSet, ResultStream, Row};
use mssql_cli::value::TypedValue;

fn sample_set() -> ResultSet {
    ResultSet::new(vec![
        Row::new(vec![
            Column::new("id".to_string(), TypedValue::Int32(Some(1))),
            Column::new("name".to_string(), TypedValue::String(Some("ann".to_string()))),
        ]),
        Row::new(vec![
            Column::new("id".to_string(), TypedValue::Int32(Some(2))),
            Column::new("name".to_string(), TypedValue::String(None)),
        ]),
    ])
}

#[test]
fn text_output_lists_columns_per_row() {
    let lines = render_set(&sample_set(), 0, OutputFormat::Text);
    assert_eq!(
        lines,
        vec!["result set 1:", "> new row", "0: id = 1", "1: name = ann", "> new row", "0: id = 2", "1: name = null"]
    );
}

#[test]
fn json_format_gives_one_line() {
    let lines = render_set(&sample_set(), 4, OutputFormat::Json);
    assert_eq!(lines, vec!["[{\"id\":1,\"name\":\"ann\"},{\"id\":2,\"name\":null}]"]);
    assert_eq!(OutputFormat::default(), OutputFormat::Json);
}

#[test]
fn text_output_numbers_result_sets_from_one() {
    let stream = ResultStream::new(vec![sample_set(), ResultSet::new(vec![])]);
    let lines = render_text(&stream);
    assert_eq!(lines.len(), 8);
    assert_eq!(lines[0], "result set 1:");
    assert_eq!(lines[7], "result set 2:");
}

#[test]
fn owned_values_keep_column_order() {
    let row = Row::new(vec![
        Column::new("a".to_string(), TypedValue::Int16(Some(5))),
        Column::new("b".to_string(), TypedValue::Bool(Some(false))),
    ]);
    assert_eq!(row.len(), 2);
    assert_eq!(row.column_name(1), Some("b"));
    assert!(row.value_as_ref(2).is_none());
    assert_eq!(row.value_as_ref(0).map(|v| v.render(None)), Some("5".to_string()));
    let values = row.into_values();
    assert_eq!(values.len(), 2);
    assert_eq!(values[0].render(None), "5");
    assert_eq!(values[1].render(None), "false");
}

#[test]
fn result_sets_and_rows_come_out_in_order() {
    let stream = ResultStream::new(vec![sample_set(), ResultSet::new(vec![])]);
    let sets = stream.into_sets();
    assert_eq!(sets.len(), 2);
    let rows: Vec<Row> = sets.into_iter().next().map(|s| s.into_rows()).unwrap_or_default();
    assert_eq!(rows.len(), 2);
    assert_eq!(rows[1].value_as_ref(0).map(|v| v.render(None)), Some("2".to_string()));
}

#[test]
fn sources_are_chosen_by_argument() {
    assert!(matches!(Source::new_any_line("-".to_string(), true), Source::StdInLine));
    assert!(matches!(Source::new_any_line("conn.txt".to_string(), true), Source::FileLine(p) if p == "conn.txt"));
    assert!(matches!(Source::new_any_line("server=x".to_string(), false), Source::Arg(a) if a == "server=x"));
    assert!(matches!(Source::new_any_multiline("-".to_string(), false), Source::StdIn));
    assert!(matches!(Source::new_any_multiline("q.sql".to_string(), true), Source::File(_)));
    assert!(matches!(Source::new_any_multiline("--".to_string(), false), Source::Arg(_)));
}

#[test]
fn first_line_drops_its_ending() {
    assert_eq!(first_line(""), None);
    assert_eq!(first_line("abc"), Some("abc".to_string()));
    assert_eq!(first_line("abc\r\ndef"), Some("abc".to_string()));
    assert_eq!(first_line("\nrest"), Some(String::new()));
    assert_eq!(first_line("abc\r"), Some("abc\r".to_string()));
}

#[test]
fn script_ends_at_break_or_end_of_input() {
    assert!(is_script_end("--db-break--\n", 13));
    assert!(is_script_end("anything", 0));
    assert!(!is_script_end("select 1\n", 9));
    assert!(!is_script_end("--db-brea", 9));
}

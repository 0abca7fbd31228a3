use mssql_cli::fmt_util::join;

#[test]
fn fmt_join() {
    let none: Vec<String> = [0].iter().skip(1).map(|v| v.to_string()).collect();
    assert_eq!(join(&none, ", "), "");

    let one: Vec<String> = [1].iter().map(|v| v.to_string()).collect();
    assert_eq!(join(&one, ", "), "1");

    let two: Vec<String> = [2, 3].iter().map(|v| v.to_string()).collect();
    assert_eq!(join(&two, ", "), "2, 3");
}

#[test]
fn format() {
    let fmt = mssql_cli::fmt_util::format(&vec![true, false], |v: &bool| std::format!("<{v}>"));
    assert_eq!(fmt, &["<true>", "<false>"]);
}

#[test]
fn format_join() {
    let items = mssql_cli::fmt_util::format(&vec!['a', 'b'], |v: &char| std::format!("[[{v}]]"));
    assert_eq!(join(&items, "_"), "[[a]]_[[b]]".to_string());
}

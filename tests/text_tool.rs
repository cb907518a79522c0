use courier::cmd::{Command, PathOrData};
use courier::file_format_ops::{csv, FileOp, OrderlyTableLayout};
use courier::simple_ops::SimpleOp;

fn row(cells: &[&str]) -> Vec<String> {
    cells.iter().map(|c| c.to_string()).collect()
}

#[test]
fn csv_is_laid_out_as_table() {
    let out = csv("a,b\n1,22\n333,4\n").unwrap();
    assert_eq!(out, "a   | b \n--------\n1   | 22\n333 | 4 \n");
}

#[test]
fn csv_with_unequal_rows_is_an_error() {
    assert!(csv("a,b\n1,2,3\n").is_err());
}

#[test]
fn table_without_header_and_with_missing_cells() {
    let t = OrderlyTableLayout::new(vec![row(&["xx", "y"]), row(&["z"])])
        .add_record(row(&["1", "2", "3"]));
    assert_eq!(t.get_max_cols(), 3);
    assert_eq!(t.get_max_width_per_column(), vec![2, 1, 1]);
    assert_eq!(t.render(), "xx y  \nz     \n1  2 3\n");
}

#[test]
fn table_with_header_and_separator() {
    let t = OrderlyTableLayout::new(vec![row(&["1", "2"])])
        .with_header(row(&["name", "n"]))
        .with_col_sep("|");
    assert_eq!(t.render(), "name|n\n------\n1   |2\n");
}

#[test]
fn empty_table() {
    let t = OrderlyTableLayout::new(vec![]);
    assert_eq!(t.get_max_cols(), 0);
    assert_eq!(t.render(), "");
}

#[test]
fn command_lines() {
    let c = Command::from_line("reverse abc").unwrap();
    assert!(matches!(c, Command::Simple(SimpleOp::Reverse, ref s) if s == "abc"));
    assert_eq!(c.exec(None).unwrap(), "cba\n");
    let c = Command::from_line("csv data.csv").unwrap();
    assert!(matches!(c, Command::File(FileOp::Csv, PathOrData::Path(ref p)) if p == "data.csv"));
    assert_eq!(c.input_path(), Some(&"data.csv".to_string()));
    assert_eq!(c.exec(Some("h\nv\n".to_string())).unwrap(), "h\n-\nv\n");
    assert_eq!(Command::from_line("noop x").err(), Some("Unknown operation: noop".to_string()));
    assert_eq!(Command::from_line("lowercase").err(), Some("Missing argument".to_string()));
    let c = Command::from_line("no_spaces a b c").unwrap();
    assert_eq!(c.exec(None).unwrap(), "abc\n");
}

#[test]
fn command_from_op_and_input() {
    let c = Command::from_op_name_and_input("uppercase", "ab\ncd".to_string()).unwrap();
    assert_eq!(c.exec(None).unwrap(), "AB\nCD\n");
    let c = Command::from_op_name_and_input("csv", "k\n1\n".to_string()).unwrap();
    assert!(c.input_path().is_none());
    assert_eq!(c.exec(None).unwrap(), "k\n-\n1\n");
    assert!(Command::from_op_name_and_input("what", String::new()).is_err());
    assert_eq!(FileOp::parse("csv"), Some(FileOp::Csv));
}

use rusticon::look::Look;

#[test]
fn from_text_single_line() {
    let l = Look::from_text("Exit");
    assert_eq!(l.cells(), &vec![vec!["E".to_string(), "x".to_string(), "i".to_string(), "t".to_string()]]);
}

#[test]
fn from_text_empty() {
    let l = Look::from_text("");
    assert_eq!(l.height(), 0);
    assert_eq!(l.width(), 0);
}

#[test]
fn from_text_two_lines() {
    let l = Look::from_text("ab\ncd");
    assert_eq!(l.height(), 2);
    assert_eq!(l.cells()[1], vec!["c".to_string(), "d".to_string()]);
}

#[test]
fn from_text_trailing_newline() {
    let l = Look::from_text("ab\n");
    assert_eq!(l.height(), 1);
    assert_eq!(l.cells()[0], vec!["a".to_string(), "b".to_string()]);
}

#[test]
fn from_text_carriage_return() {
    let l = Look::from_text("ab\r\ncd");
    assert_eq!(l.height(), 2);
    assert_eq!(l.cells()[0], vec!["a".to_string(), "b".to_string()]);
}

#[test]
fn update_replaces_whole_grid() {
    let mut l = Look::from_text("ab");
    l.update(Look::from_text("xyz"));
    assert_eq!(l.width(), 3);
    assert_eq!(l.cells()[0][0], "x".to_string());
}

#[test]
fn from_row_and_dimensions() {
    let l = Look::from_row(vec!["aa".to_string(), "b".to_string()]);
    assert_eq!(l.height(), 1);
    assert_eq!(l.width(), 2);
}

use rusticon::message::message_look;

#[test]
fn message_fills_the_screen_and_centers_the_text() {
    let l = message_look("Hi", 10, 8, 3);
    assert_eq!(l.cells().len(), 3);
    for row in l.cells() {
        assert_eq!(row.len(), 8);
    }
    let styled = |s: &str| -> String {
        terminal_style::format::bold(terminal_style::format::color(10u8, s).unwrap())
    };
    // the message sits on the middle row, centered
    assert_eq!(l.cells()[0][0], styled(" "));
    assert_eq!(l.cells()[1][3], styled("H"));
    assert_eq!(l.cells()[1][4], styled("i"));
    assert_eq!(l.cells()[1][5], styled(" "));
}

#[test]
fn multi_line_messages_stack() {
    let l = message_look("ab\ncd", 4, 4, 2);
    let styled = |s: &str| -> String {
        terminal_style::format::bold(terminal_style::format::color(4u8, s).unwrap())
    };
    assert_eq!(l.cells()[0][1], styled("a"));
    assert_eq!(l.cells()[1][1], styled("c"));
}

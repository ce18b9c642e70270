use quickwit_control::text::decimal_string;
use quickwit_control::text::to_chars;

#[test]
fn decimal_numerals() {
    assert_eq!(decimal_string(0), "0");
    assert_eq!(decimal_string(7), "7");
    assert_eq!(decimal_string(10), "10");
    assert_eq!(decimal_string(123456), "123456");
    assert_eq!(decimal_string(usize::MAX), usize::MAX.to_string());
}

#[test]
fn characters_in_order() {
    assert_eq!(to_chars(""), Vec::<char>::new());
    assert_eq!(to_chars("a:b"), vec!['a', ':', 'b']);
    assert_eq!(to_chars("\u{e9}\u{4e2d}x"), vec!['\u{e9}', '\u{4e2d}', 'x']);
}

#[test]
fn enclosing() {
    assert_eq!(quickwit_control::text::enclose("<", "x", ">"), "<x>");
    assert_eq!(quickwit_control::text::enclose("", "", ""), "");
    assert_eq!(quickwit_control::text::enclose("I/O Error `", "disk full", "`."), "I/O Error `disk full`.");
}

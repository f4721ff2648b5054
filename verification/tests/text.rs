use huff_report::style::{Connector, Line, Span, Tint};
use huff_report::text::{decimal_string, push_decimal, push_padded, to_chars};

#[test]
fn decimal_digits_of_numbers() {
    assert_eq!(decimal_string(0), "0");
    assert_eq!(decimal_string(7), "7");
    assert_eq!(decimal_string(10), "10");
    assert_eq!(decimal_string(21000), "21000");
    assert_eq!(decimal_string(u64::MAX), "18446744073709551615");
}

#[test]
fn decimal_is_appended() {
    let mut out = String::from("gas ");
    push_decimal(&mut out, 5000);
    assert_eq!(out, "gas 5000");
}

#[test]
fn every_digit_has_its_character() {
    assert_eq!(decimal_string(1234567890), "1234567890");
}

#[test]
fn padding_fills_with_spaces_on_the_right() {
    let mut out = String::from("[");
    push_padded(&mut out, "testA", 15);
    out.push(']');
    assert_eq!(out, "[testA          ]");
    assert_eq!(out, format!("[{: <15}]", "testA"));
}

#[test]
fn padding_leaves_long_text_alone() {
    let mut out = String::new();
    push_padded(&mut out, "a_name_longer_than_the_field", 15);
    assert_eq!(out, "a_name_longer_than_the_field");
    let mut out = String::new();
    push_padded(&mut out, "exactly_fifteen", 15);
    assert_eq!(out, "exactly_fifteen");
}

#[test]
fn padding_counts_characters_not_bytes() {
    let mut out = String::new();
    push_padded(&mut out, "\u{e9}t\u{e9}", 5);
    assert_eq!(out, "\u{e9}t\u{e9}  ");
    assert_eq!(out, format!("{: <5}", "\u{e9}t\u{e9}"));
}

#[test]
fn characters_come_out_in_order() {
    assert_eq!(to_chars("a\u{2500}b"), vec!['a', '\u{2500}', 'b']);
    assert_eq!(to_chars(""), Vec::<char>::new());
}

#[test]
fn connector_glyphs() {
    let mut out = String::new();
    Connector::Branch.push_to(&mut out);
    Connector::Corner.push_to(&mut out);
    Connector::Rail.push_to(&mut out);
    assert_eq!(out, "\u{251c}\u{2500}\u{2570}\u{2500}\u{2502} ");
}

#[test]
fn line_text_joins_the_spans() {
    let mut line = Line::new();
    assert_eq!(line.text(), "");
    line.push("a".to_string(), Tint::Plain);
    line.push("b".to_string(), Tint::Red);
    line.push("c".to_string(), Tint::Plain);
    assert_eq!(line.text(), "abc");
    assert_eq!(
        line.spans,
        vec![
            Span { text: "a".to_string(), tint: Tint::Plain },
            Span { text: "b".to_string(), tint: Tint::Red },
            Span { text: "c".to_string(), tint: Tint::Plain },
        ]
    );
}

#[test]
fn painting_wraps_tinted_spans_in_colour_codes() {
    let mut line = Line::new();
    line.push("[".to_string(), Tint::Plain);
    line.push("PASS".to_string(), Tint::Green);
    line.push("] ".to_string(), Tint::Plain);
    line.push("x".to_string(), Tint::Red);
    line.push("y".to_string(), Tint::Yellow);
    line.push("z".to_string(), Tint::Blue);
    line.push("u".to_string(), Tint::Magenta);
    line.push("v".to_string(), Tint::Cyan);
    assert_eq!(
        line.paint(),
        "[\u{1b}[32mPASS\u{1b}[0m] \u{1b}[31mx\u{1b}[0m\u{1b}[33my\u{1b}[0m\u{1b}[34mz\u{1b}[0m\u{1b}[35mu\u{1b}[0m\u{1b}[36mv\u{1b}[0m"
    );
    assert_eq!(line.text(), "[PASS] xyzuv");
}

#[test]
fn painting_switched_off_leaves_the_text() {
    yansi::Paint::disable();
    let mut line = Line::new();
    line.push("[".to_string(), Tint::Plain);
    line.push("FAIL".to_string(), Tint::Red);
    line.push("]".to_string(), Tint::Plain);
    assert_eq!(line.paint(), "[FAIL]");
    assert_eq!(line.paint(), line.text());
}

use byteview::display::{caption, popup_margin, selector_text};
use byteview::selection::{DataType, Endianness, InputFormat};
use byteview::session::{App, Key};

fn segment(text: &str, highlighted: bool) -> (String, bool) {
    (text.to_string(), highlighted)
}

#[test]
fn selector_text_puts_brackets_round_the_label() {
    assert_eq!(selector_text("u32"), "[ u32 ]");
    assert_eq!(selector_text("LE"), "[ LE ]");
    assert_eq!(selector_text(""), "[  ]");
}

#[test]
fn caption_puts_a_colon_behind_the_label() {
    assert_eq!(caption("Float Value"), "Float Value: ");
    assert_eq!(caption(""), ": ");
}

#[test]
fn popup_margins() {
    assert_eq!(popup_margin(30), 35);
    assert_eq!(popup_margin(40), 30);
    assert_eq!(popup_margin(0), 50);
    assert_eq!(popup_margin(100), 0);
    assert_eq!(popup_margin(99), 0);
    assert_eq!(popup_margin(97), 1);
}

#[test]
fn input_line_of_a_fresh_session() {
    let app = App::new();
    assert_eq!(
        app.input_line(),
        vec![
            segment("[ u32 ]", true),
            segment("[ LE ]", false),
            segment("[ Dec ]", false),
            segment("0d", false),
        ]
    );
}

#[test]
fn input_line_while_editing() {
    let mut app = App::new();
    app.data_type = DataType::I128;
    app.endianness = Endianness::Big;
    app.input_format = InputFormat::Hexadecimal;
    app.active_dropdown = 2;
    app.handle_input(Key::Char('i'));
    app.handle_input(Key::Char('f'));
    app.handle_input(Key::Char('F'));
    assert_eq!(
        app.input_line(),
        vec![
            segment("[ i128 ]", false),
            segment("[ BE ]", false),
            segment("[ Hex ]", true),
            segment("0xfF", true),
        ]
    );
    app.dropdown_open = true;
    assert_eq!(app.input_line()[3], segment("0xfF", false));
}

#[test]
fn input_line_prefix_follows_the_base() {
    let mut app = App::new();
    app.input = "101".to_string();
    app.input_format = InputFormat::Binary;
    assert_eq!(app.input_line()[3].0, "0b101");
    app.input_format = InputFormat::Octal;
    assert_eq!(app.input_line()[3].0, "0o101");
}

#[test]
fn dropdown_of_numeric_types() {
    let mut app = App::new();
    app.handle_input(Key::Char('1'));
    assert_eq!(app.dropdown_title(), "Data Type");
    let entries = app.dropdown_entries();
    let texts: Vec<&str> = entries.iter().map(|e| e.0.as_str()).collect();
    assert_eq!(
        texts,
        vec!["u8", "u16", "u32", "u64", "u128", "i8", "i16", "i32", "i64", "i128", "f32", "f64"]
    );
    let marked: Vec<usize> =
        entries.iter().enumerate().filter(|(_, e)| e.1).map(|(i, _)| i).collect();
    assert_eq!(marked, vec![2]);
}

#[test]
fn dropdown_of_byte_orders() {
    let mut app = App::new();
    app.endianness = Endianness::Big;
    app.handle_input(Key::Char('2'));
    assert_eq!(app.dropdown_title(), "Endianness");
    assert_eq!(app.dropdown_entries(), vec![segment("Little", false), segment("Big", true)]);
}

#[test]
fn dropdown_of_bases() {
    let mut app = App::new();
    app.handle_input(Key::Char('3'));
    assert_eq!(app.dropdown_title(), "Input Format");
    assert_eq!(
        app.dropdown_entries(),
        vec![
            segment("Binary", false),
            segment("Octal", false),
            segment("Decimal", true),
            segment("Hex", false),
        ]
    );
}

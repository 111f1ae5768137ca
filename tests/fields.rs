use tws_codec::fields::{make_field, make_field_handle_empty, read_fields, Field};
use tws_codec::framing::FrameError;

#[test]
fn format_booleans() {
    assert_eq!(make_field(&Field::Bool(true)), "1\0");
    assert_eq!(make_field(&Field::Bool(false)), "0\0");
}

#[test]
fn format_text() {
    assert_eq!(make_field(&Field::Str("abc".to_string())), "abc\0");
    assert_eq!(make_field(&Field::Str(String::new())), "\0");
}

#[test]
fn format_integers() {
    assert_eq!(make_field(&Field::Int32(0)), "0\0");
    assert_eq!(make_field(&Field::Int32(-42)), "-42\0");
    assert_eq!(make_field(&Field::Int32(i32::MAX)), "2147483647\0");
    assert_eq!(make_field(&Field::Int32(i32::MIN)), "-2147483648\0");
    assert_eq!(make_field(&Field::Int64(9223372036854775807)), "9223372036854775807\0");
    assert_eq!(make_field(&Field::Int64(-1)), "-1\0");
}

#[test]
fn format_empty() {
    assert_eq!(make_field(&Field::Empty), "");
    assert_eq!(make_field_handle_empty(&Field::Empty), "");
}

#[test]
fn handle_empty_formats_like_make_field() {
    assert_eq!(make_field_handle_empty(&Field::Int32(i32::MAX)), "2147483647\0");
    assert_eq!(make_field_handle_empty(&Field::Bool(true)), "1\0");
}

#[test]
fn tokenize_three_fields() {
    assert_eq!(read_fields("A\0B\0C\0").unwrap(), vec!["A", "B", "C"]);
}

#[test]
fn tokenize_empty_payload() {
    assert_eq!(read_fields("").unwrap(), Vec::<String>::new());
}

#[test]
fn tokenize_empty_fields() {
    assert_eq!(read_fields("\0\0").unwrap(), vec!["", ""]);
    assert_eq!(read_fields("a\0\0b\0").unwrap(), vec!["a", "", "b"]);
}

#[test]
fn tokenize_without_terminator_fails() {
    assert_eq!(read_fields("A\0B"), Err(FrameError::MalformedFrame));
    assert_eq!(read_fields("A"), Err(FrameError::MalformedFrame));
}

#[test]
fn tokenize_non_ascii_fields() {
    assert_eq!(read_fields("caf\u{e9}\0\u{1F600}\0").unwrap(), vec!["caf\u{e9}", "\u{1F600}"]);
}

#[test]
fn formatted_fields_tokenize_back() {
    let mut payload = String::new();
    payload.push_str(&make_field(&Field::Int32(3)));
    payload.push_str(&make_field(&Field::Bool(true)));
    payload.push_str(&make_field(&Field::Str("IBM".to_string())));
    payload.push_str(&make_field(&Field::Int64(-7)));
    assert_eq!(read_fields(&payload).unwrap(), vec!["3", "1", "IBM", "-7"]);
}

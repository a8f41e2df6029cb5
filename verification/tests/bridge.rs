use cjose::decimal::push_decimal;
use cjose::util::{borrow_c_string, c_string_to_string, contains_nul, string_to_c_char};

#[test]
fn c_string_stops_at_the_terminator() {
    assert_eq!(c_string_to_string(b"hello\0"), "hello");
}

#[test]
fn c_string_stops_at_the_first_of_two_terminators() {
    assert_eq!(c_string_to_string(b"ab\0cd\0"), "ab");
}

#[test]
fn c_string_without_terminator_is_read_whole() {
    assert_eq!(c_string_to_string(b"abc"), "abc");
}

#[test]
fn c_string_of_an_empty_buffer_is_empty() {
    assert_eq!(c_string_to_string(b""), "");
    assert_eq!(c_string_to_string(b"\0"), "");
    assert_eq!(c_string_to_string(b"\0abc"), "");
}

#[test]
fn c_string_keeps_multi_byte_text() {
    let buffer = [0x67, 0x72, 0xc3, 0xbc, 0xc3, 0x9f, 0x65, 0x00];
    assert_eq!(c_string_to_string(&buffer), "gr\u{fc}\u{df}e");
}

#[test]
fn c_string_that_is_not_utf8_reads_as_empty() {
    assert_eq!(c_string_to_string(&[0x61, 0xff, 0x62, 0x00]), "");
    assert_eq!(c_string_to_string(&[0xc3, 0x00]), "");
    assert_eq!(c_string_to_string(&[0xed, 0xa0, 0x80, 0x00]), "");
}

#[test]
fn c_string_ignores_what_follows_the_terminator() {
    assert_eq!(c_string_to_string(&[0x6f, 0x6b, 0x00, 0xff, 0xfe]), "ok");
}

#[test]
fn borrow_reads_like_c_string_to_string() {
    assert_eq!(borrow_c_string(b"{\"kty\":\"EC\"}\0".to_vec()), "{\"kty\":\"EC\"}");
    assert_eq!(borrow_c_string(vec![0xff, 0x00]), "");
    assert_eq!(borrow_c_string(Vec::new()), "");
}

#[test]
fn string_to_c_char_appends_one_terminator() {
    assert_eq!(string_to_c_char("abc"), b"abc\0".to_vec());
    assert_eq!(string_to_c_char(""), vec![0u8]);
    assert_eq!(string_to_c_char("\u{e9}"), vec![0xc3, 0xa9, 0x00]);
}

#[test]
fn text_survives_the_way_out_and_back() {
    for text in ["", "a", "not-a-jwe", "eyJhbGciOiJFQ0RIIn0..iv.ct.tag", "gr\u{fc}\u{df}e \u{1f511}"] {
        let buffer = string_to_c_char(text);
        assert_eq!(buffer.len(), text.len() + 1);
        assert_eq!(c_string_to_string(&buffer), text);
        assert_eq!(borrow_c_string(buffer), text);
    }
}

#[test]
fn decimal_digits_are_appended() {
    let mut out = String::from("n=");
    push_decimal(&mut out, 0);
    assert_eq!(out, "n=0");
    push_decimal(&mut out, 7);
    push_decimal(&mut out, 10);
    push_decimal(&mut out, 1009);
    assert_eq!(out, "n=07101009");
    let mut max = String::new();
    push_decimal(&mut max, u64::MAX);
    assert_eq!(max, "18446744073709551615");
}

#[test]
fn a_nul_inside_the_text_is_copied_like_any_byte() {
    assert_eq!(string_to_c_char("a\0b"), vec![0x61, 0x00, 0x62, 0x00]);
    assert_eq!(string_to_c_char("\0"), vec![0x00, 0x00]);
}

#[test]
fn a_text_with_a_nul_reads_back_up_to_it() {
    assert_eq!(c_string_to_string(&string_to_c_char("a\0b")), "a");
    assert_eq!(borrow_c_string(string_to_c_char("\0tail")), "");
}

#[test]
fn a_nul_is_found_wherever_it_stands() {
    assert!(!contains_nul(""));
    assert!(!contains_nul("not-a-jwe"));
    assert!(!contains_nul("gr\u{fc}\u{df}e \u{1f511}"));
    assert!(contains_nul("\0"));
    assert!(contains_nul("\0ab"));
    assert!(contains_nul("a\0b"));
    assert!(contains_nul("ab\0"));
}

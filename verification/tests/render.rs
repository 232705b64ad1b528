use leveldb::render::digit_char;
use leveldb::render::push_decimal;
use leveldb::render::push_escaped;
use leveldb::render::render_bytes;
use leveldb::render::render_quoted_ascii;

#[test]
fn digits_are_lower_case() {
    let digits: Vec<char> = (0u8..16).map(digit_char).collect();
    assert_eq!(digits.iter().collect::<String>(), "0123456789abcdef");
}

#[test]
fn every_byte_has_its_decimal_numeral() {
    for byte in 0..=255u8 {
        let mut text = String::from("n=");
        push_decimal(&mut text, byte);
        assert_eq!(text, format!("n={}", byte));
    }
}

#[test]
fn byte_lists_look_like_debug_output() {
    assert_eq!(render_bytes(&[]), "[]");
    assert_eq!(render_bytes(&[0]), "[0]");
    assert_eq!(render_bytes(&[1, 20, 255]), "[1, 20, 255]");
    let all: Vec<u8> = (0..=255u8).collect();
    assert_eq!(render_bytes(&all), format!("{:?}", all));
}

#[test]
fn every_byte_is_escaped_as_the_standard_library_does() {
    for byte in 0..=255u8 {
        let mut text = String::new();
        push_escaped(&mut text, byte);
        assert_eq!(text, byte.escape_ascii().to_string());
    }
}

#[test]
fn byte_strings_are_quoted_and_escaped() {
    assert_eq!(render_quoted_ascii(b""), "\"\"");
    assert_eq!(render_quoted_ascii(b"IO error: lock"), "\"IO error: lock\"");
    assert_eq!(render_quoted_ascii(b"a\tb\r\n'\"\\"), "\"a\\tb\\r\\n\\'\\\"\\\\\"");
    assert_eq!(render_quoted_ascii(&[0x00, 0x7f, 0x9d, 0xff]), "\"\\x00\\x7f\\x9d\\xff\"");
    let all: Vec<u8> = (0..=255u8).collect();
    assert_eq!(render_quoted_ascii(&all), format!("\"{}\"", all.escape_ascii()));
}

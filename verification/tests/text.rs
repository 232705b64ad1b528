use leveldb::text::char_is_whitespace;
use leveldb::text::chars_of;
use leveldb::text::find_space;
use leveldb::text::range_equals;
use leveldb::text::trim_bounds;

#[test]
fn whitespace_is_what_the_standard_library_says() {
    let mut code: u32 = 0;
    while code <= 0x11_0000 {
        if let Some(c) = char::from_u32(code) {
            assert_eq!(char_is_whitespace(c), c.is_whitespace(), "U+{:04X}", code);
        }
        code += 1;
    }
}

#[test]
fn chars_are_collected_in_order() {
    assert_eq!(chars_of("aé🙂"), vec!['a', 'é', '🙂']);
    assert_eq!(chars_of(""), Vec::<char>::new());
}

#[test]
fn trim_bounds_match_the_standard_trim() {
    let samples = ["", " ", "a", " a", "a ", "  a b  ", "\n\t.open x \r\n", "\u{a0}x\u{2028}"];
    for sample in samples {
        let chars = chars_of(sample);
        let (start, end) = trim_bounds(&chars);
        let kept: String = chars[start..end].iter().collect();
        assert_eq!(kept, sample.trim());
    }
}

#[test]
fn first_space_is_found() {
    let chars = chars_of("ab cd ef");
    assert_eq!(find_space(&chars, 0, 8), 2);
    assert_eq!(find_space(&chars, 3, 8), 5);
    assert_eq!(find_space(&chars, 6, 8), 8);
    assert_eq!(find_space(&chars, 0, 2), 2);
    assert_eq!(find_space(&chars, 4, 4), 4);
}

#[test]
fn ranges_are_compared_with_words() {
    let chars = chars_of(".open db");
    assert!(range_equals(&chars, 1, 5, "open"));
    assert!(!range_equals(&chars, 1, 5, "opem"));
    assert!(!range_equals(&chars, 1, 4, "open"));
    assert!(!range_equals(&chars, 1, 6, "open"));
    assert!(range_equals(&chars, 3, 3, ""));
}

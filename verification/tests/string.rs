use leveldb::utf8::Utf8Fault;
use leveldb::OwnedSlice;

#[test]
fn a_null_pointer_gives_no_string() {
    assert!(leveldb::String::try_from_ptr(None).is_none());
    assert!(leveldb::String::try_from_ptr_len(None, 0).is_none());
    assert!(leveldb::String::try_from_ptr_len(None, 5).is_none());
}

#[test]
fn a_terminated_string_ends_at_the_first_zero_byte() {
    let string = leveldb::String::try_from_ptr(Some(b"error\0rest\0")).unwrap();
    assert_eq!(string.as_bytes(), b"error");
    let string = leveldb::String::from_ptr(Some(b"\0"));
    assert_eq!(string.as_bytes(), b"");
    let string = leveldb::String::from_ptr(Some(b"abc"));
    assert_eq!(string.as_bytes(), b"abc");
    let string = leveldb::String::from_ptr(Some(b""));
    assert_eq!(string.as_bytes(), b"");
}

#[test]
fn a_string_with_a_length_keeps_zero_bytes() {
    let string = leveldb::String::try_from_ptr_len(Some(b"a\0b\0c"), 4).unwrap();
    assert_eq!(string.as_bytes(), b"a\0b\0");
    let string = leveldb::String::try_from_ptr_len(Some(b"abc"), 0).unwrap();
    assert_eq!(string.as_bytes(), b"");
    let string = leveldb::String::try_from_ptr_len(Some(b"abc"), 3).unwrap();
    assert_eq!(string.as_bytes(), b"abc");
}

#[test]
fn strings_convert_to_text() {
    let string = leveldb::String::from_ptr(Some("héllo\0".as_bytes()));
    assert_eq!(string.to_str(), Ok("héllo"));
    assert_eq!(string.to_string_lossy(), "héllo");
    let string = leveldb::String::try_from_ptr_len(Some(&[0x61, 0xff, 0x62]), 3).unwrap();
    assert_eq!(string.to_str(), Err(Utf8Fault { valid_up_to: 1, error_len: Some(1) }));
    assert_eq!(string.to_string_lossy(), "a\u{fffd}b");
}

#[test]
fn strings_are_shown_escaped() {
    let string = leveldb::String::try_from_ptr_len(Some(b"IO error: \"x\"\n\0\xfe"), 16).unwrap();
    assert_eq!(string.debug(), "\"IO error: \\\"x\\\"\\n\\x00\\xfe\"");
}

#[test]
fn owned_slices_copy_characters() {
    let slice = OwnedSlice::from_slice(&[104, 105, -1, 0, -128, 127]);
    assert_eq!(slice.as_slice(), &[104, 105, -1, 0, -128, 127]);
    assert_eq!(slice.as_bytes(), &[104, 105, 255, 0, 128, 127]);
    let empty = OwnedSlice::from_slice(&[]);
    assert_eq!(empty.as_slice(), &[] as &[i8]);
    assert_eq!(empty.as_bytes(), b"");
}

#[test]
fn owned_slices_convert_to_text() {
    let slice = OwnedSlice::from_slice(&[104, 105]);
    assert_eq!(slice.to_str(), Ok("hi"));
    assert_eq!(slice.to_string_lossy(), "hi");
    let slice = OwnedSlice::from_slice(&[-61, -87]);
    assert_eq!(slice.to_str(), Ok("é"));
    let slice = OwnedSlice::from_slice(&[104, -1]);
    assert_eq!(slice.to_str(), Err(Utf8Fault { valid_up_to: 1, error_len: Some(1) }));
    assert_eq!(slice.to_string_lossy(), "h\u{fffd}");
    let slice = OwnedSlice::from_slice(&[104, -30, -126]);
    assert_eq!(slice.to_str(), Err(Utf8Fault { valid_up_to: 1, error_len: None }));
}

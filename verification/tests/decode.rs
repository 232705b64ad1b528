use leveldb::decode::decode_key;
use leveldb::decode::decode_tagged;
use leveldb::decode::decode_utf16_text;
use leveldb::decode::decode_utf8_text;
use leveldb::decode::decode_value;
use leveldb::decode::decode_value_in;
use leveldb::decode::show;
use leveldb::decode::DecodeError;
use leveldb::decode::Decoded;
use leveldb::format::KeyFormat;
use leveldb::format::ValueFormat;
use leveldb::utf16::byte_order_of;
use leveldb::utf16::native_byte_order;
use leveldb::utf16::unit_from_bytes;
use leveldb::utf16::units_from_bytes;
use leveldb::utf16::ByteOrder;
use leveldb::utf8::decode_strict;
use leveldb::utf8::Utf8Fault;

fn tagged_utf16(text: &str) -> Vec<u8> {
    let mut bytes = vec![0u8];
    for unit in text.encode_utf16() {
        bytes.extend_from_slice(&unit.to_ne_bytes());
    }
    bytes
}

#[test]
fn bytes_keys_never_fail() {
    let samples: [&[u8]; 4] = [b"", b"k", &[0xff, 0x00, 0x80], "é".as_bytes()];
    for sample in samples {
        assert_eq!(decode_key(KeyFormat::Bytes, sample), Ok(Decoded::Bytes(sample.to_vec())));
        assert_eq!(decode_key(KeyFormat::Bytes, sample), decode_key(KeyFormat::Bytes, sample));
    }
}

#[test]
fn utf8_keys_round_trip() {
    let samples = ["", "k", "héllo", "日本語", "🙂 ok", "a\0b"];
    for sample in samples {
        match decode_key(KeyFormat::Utf8, sample.as_bytes()) {
            Ok(Decoded::Text(text)) => {
                assert_eq!(text, sample);
                assert_eq!(text.as_bytes(), sample.as_bytes());
            }
            other => panic!("{:?}", other),
        }
    }
}

#[test]
fn invalid_utf8_keys_are_refused() {
    assert_eq!(
        decode_key(KeyFormat::Utf8, &[0x61, 0xff, 0x62]),
        Err(DecodeError::InvalidUtf8(Utf8Fault { valid_up_to: 1, error_len: Some(1) }))
    );
    assert_eq!(
        decode_key(KeyFormat::Utf8, &[0x61, 0x62, 0xe2, 0x82]),
        Err(DecodeError::InvalidUtf8(Utf8Fault { valid_up_to: 2, error_len: None }))
    );
    assert_eq!(
        decode_key(KeyFormat::Utf8, &[0xed, 0xa0, 0x80]),
        Err(DecodeError::InvalidUtf8(Utf8Fault { valid_up_to: 0, error_len: Some(1) }))
    );
    assert_eq!(
        decode_key(KeyFormat::Utf8, &[0xc0, 0x80]),
        Err(DecodeError::InvalidUtf8(Utf8Fault { valid_up_to: 0, error_len: Some(1) }))
    );
}

#[test]
fn strict_decoding_reports_the_longest_valid_prefix() {
    let bytes = [0xe6, 0x97, 0xa5, 0xe6, 0x9c, 0x28, 0x61];
    let fault = decode_strict(&bytes).unwrap_err();
    assert_eq!(fault.valid_up_to, 3);
    assert!(std::str::from_utf8(&bytes[..fault.valid_up_to]).is_ok());
    for longer in (fault.valid_up_to + 1)..=bytes.len() {
        assert!(std::str::from_utf8(&bytes[..longer]).is_err());
    }
    assert_eq!(decode_strict("日本".as_bytes()), Ok("日本"));
}

#[test]
fn bytes_values_never_fail() {
    assert_eq!(decode_value(ValueFormat::Bytes, &[]), Ok(Decoded::Bytes(vec![])));
    assert_eq!(
        decode_value(ValueFormat::Bytes, &[0xff, 0x01]),
        Ok(Decoded::Bytes(vec![0xff, 0x01]))
    );
}

#[test]
fn tagged_utf16_values_decode() {
    let samples = ["", "hi", "héllo", "日本語", "🙂", "a🙂b𐍈"];
    for sample in samples {
        assert_eq!(
            decode_value(ValueFormat::ChromeLocalStorage, &tagged_utf16(sample)),
            Ok(Decoded::Text(sample.to_string()))
        );
    }
}

#[test]
fn utf16_code_units_follow_the_byte_order() {
    assert_eq!(
        decode_value_in(ValueFormat::ChromeLocalStorage, &[0, 0x68, 0, 0x69, 0], ByteOrder::Little),
        Ok(Decoded::Text("hi".to_string()))
    );
    assert_eq!(
        decode_value_in(ValueFormat::ChromeLocalStorage, &[0, 0, 0x68, 0, 0x69], ByteOrder::Big),
        Ok(Decoded::Text("hi".to_string()))
    );
    assert_eq!(
        decode_value_in(ValueFormat::ChromeLocalStorage, &[0, 0x68, 0, 0x69, 0], ByteOrder::Big),
        Ok(Decoded::Text("\u{6800}\u{6900}".to_string()))
    );
    assert_eq!(
        decode_utf16_text(&[0x3d, 0xd8, 0x42, 0xde], ByteOrder::Little),
        Ok(Decoded::Text("🙂".to_string()))
    );
    assert_eq!(
        decode_utf16_text(&[0xd8, 0x3d, 0xde, 0x42], ByteOrder::Big),
        Ok(Decoded::Text("🙂".to_string()))
    );
}

#[test]
fn code_units_are_assembled_from_byte_pairs() {
    assert_eq!(unit_from_bytes(0x34, 0x12, ByteOrder::Little), 0x1234);
    assert_eq!(unit_from_bytes(0x34, 0x12, ByteOrder::Big), 0x3412);
    assert_eq!(unit_from_bytes(0xff, 0xff, ByteOrder::Big), 0xffff);
    assert_eq!(units_from_bytes(&[1, 2, 3, 4], ByteOrder::Little), vec![0x0201, 0x0403]);
    assert_eq!(units_from_bytes(&[1, 2, 3, 4], ByteOrder::Big), vec![0x0102, 0x0304]);
    assert_eq!(units_from_bytes(&[], ByteOrder::Big), Vec::<u16>::new());
    let native = native_byte_order();
    assert_eq!(unit_from_bytes(0x34, 0x12, native), u16::from_ne_bytes([0x34, 0x12]));
    assert_eq!(native == ByteOrder::Little, 1u16.to_ne_bytes() == [1, 0]);
}

#[test]
fn unpaired_surrogates_are_refused() {
    assert_eq!(
        decode_utf16_text(&[0x3d, 0xd8], ByteOrder::Little),
        Err(DecodeError::InvalidUtf16)
    );
    assert_eq!(
        decode_utf16_text(&[0x42, 0xde, 0x3d, 0xd8], ByteOrder::Little),
        Err(DecodeError::InvalidUtf16)
    );
    assert_eq!(
        decode_utf16_text(&[0x3d, 0xd8, 0x61, 0x00], ByteOrder::Little),
        Err(DecodeError::InvalidUtf16)
    );
    assert_eq!(
        decode_tagged(&[0, 0x00, 0xdc], ByteOrder::Little),
        Err(DecodeError::InvalidUtf16)
    );
}

#[test]
fn half_a_code_unit_is_malformed() {
    assert_eq!(
        decode_value(ValueFormat::ChromeLocalStorage, &[0, 0x68]),
        Err(DecodeError::MalformedValue)
    );
    assert_eq!(
        decode_value_in(ValueFormat::ChromeLocalStorage, &[0, 0x68, 0, 0x69], ByteOrder::Little),
        Err(DecodeError::MalformedValue)
    );
    assert_eq!(
        decode_utf16_text(&[0x3d, 0xd8, 0x42], ByteOrder::Little),
        Err(DecodeError::MalformedValue)
    );
}

#[test]
fn tagged_utf8_values_decode() {
    assert_eq!(
        decode_value(ValueFormat::ChromeLocalStorage, &[0x01, 0x68, 0x69]),
        Ok(Decoded::Text("hi".to_string()))
    );
    assert_eq!(
        decode_value(ValueFormat::ChromeLocalStorage, &[0x01]),
        Ok(Decoded::Text(String::new()))
    );
    assert_eq!(
        decode_value(ValueFormat::ChromeLocalStorage, &[0x01, 0x68, 0xff]),
        Err(DecodeError::InvalidUtf8(Utf8Fault { valid_up_to: 1, error_len: Some(1) }))
    );
    assert_eq!(decode_utf8_text(b"ok"), Ok(Decoded::Text("ok".to_string())));
}

#[test]
fn empty_tagged_value_is_malformed() {
    assert_eq!(
        decode_value(ValueFormat::ChromeLocalStorage, &[]),
        Err(DecodeError::MalformedValue)
    );
    assert_eq!(decode_tagged(&[], ByteOrder::Big), Err(DecodeError::MalformedValue));
}

#[test]
fn unknown_tag_is_reported_with_its_byte() {
    assert_eq!(
        decode_value(ValueFormat::ChromeLocalStorage, &[0xff]),
        Err(DecodeError::UnknownTag(0xff))
    );
    assert_eq!(
        decode_value(ValueFormat::ChromeLocalStorage, &[0x02, 0x68, 0x69]),
        Err(DecodeError::UnknownTag(2))
    );
}

#[test]
fn an_empty_utf16_payload_is_empty_text() {
    assert_eq!(
        decode_value(ValueFormat::ChromeLocalStorage, &[0x00]),
        Ok(Decoded::Text(String::new()))
    );
}

#[test]
fn decoded_values_are_rendered() {
    assert_eq!(Decoded::Bytes(vec![107]).render(), "[107]");
    assert_eq!(Decoded::Bytes(vec![]).render(), "[]");
    assert_eq!(Decoded::Text("k".to_string()).render(), "\"k\"");
    assert_eq!(Decoded::Text("a\"b\n".to_string()).render(), "\"a\\\"b\\n\"");
    assert_ne!(Decoded::Text("k".to_string()).render(), "k");
}

#[test]
fn decode_errors_have_messages() {
    let fault = Utf8Fault { valid_up_to: 0, error_len: None };
    assert_eq!(DecodeError::InvalidUtf8(fault).message(), "invalid utf8");
    assert_eq!(DecodeError::InvalidUtf16.message(), "invalid utf16");
    assert_eq!(DecodeError::UnknownTag(255).message(), "Invalid type byte 255");
    assert_eq!(DecodeError::UnknownTag(7).message(), "Invalid type byte 7");
    assert_eq!(DecodeError::MalformedValue.message(), "malformed value");
}

#[test]
fn outcomes_are_shown() {
    assert_eq!(show(&Ok(Decoded::Text("hi".to_string()))), "\"hi\"");
    assert_eq!(show(&Ok(Decoded::Bytes(vec![1, 2]))), "[1, 2]");
    assert_eq!(show(&Err(DecodeError::UnknownTag(9))), "Invalid type byte 9");
}

#[test]
fn the_byte_order_is_read_off_a_code_unit() {
    assert_eq!(byte_order_of(1), ByteOrder::Little);
    assert_eq!(byte_order_of(256), ByteOrder::Big);
    assert_eq!(byte_order_of(u16::from_le_bytes([1, 0])), ByteOrder::Little);
    assert_eq!(byte_order_of(u16::from_be_bytes([1, 0])), ByteOrder::Big);
    assert_eq!(byte_order_of(u16::from_ne_bytes([1, 0])), native_byte_order());
}

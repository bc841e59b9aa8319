use guild_tags::error::TagError;
use guild_tags::text::{decode_text, digit_char, encode_text, push_decimal, tenant_key};

#[test]
fn guild_ids_are_rendered_in_decimal() {
    assert_eq!(tenant_key(0), "0");
    assert_eq!(tenant_key(7), "7");
    assert_eq!(tenant_key(10), "10");
    assert_eq!(tenant_key(1234567890), "1234567890");
    assert_eq!(tenant_key(1242367482346606633), "1242367482346606633");
    assert_eq!(tenant_key(u64::MAX), "18446744073709551615");
    for id in [0u64, 9, 10, 99, 100, 101, 999_999, u64::MAX / 10, u64::MAX] {
        assert_eq!(tenant_key(id), id.to_string());
    }
}

#[test]
fn decimals_are_appended() {
    let mut text = "id=".to_string();
    push_decimal(&mut text, 405);
    assert_eq!(text, "id=405");
    push_decimal(&mut text, 0);
    assert_eq!(text, "id=4050");
}

#[test]
fn digits() {
    let all: String = (0..10).map(digit_char).collect();
    assert_eq!(all, "0123456789");
}

#[test]
fn text_is_stored_as_utf8() {
    assert_eq!(encode_text("abc"), vec![0x61, 0x62, 0x63]);
    assert_eq!(encode_text("é✅"), vec![0xc3, 0xa9, 0xe2, 0x9c, 0x85]);
    assert!(encode_text("").is_empty());
    assert_eq!(decode_text(&[0x61, 0x62, 0x63]).unwrap(), "abc");
    assert_eq!(decode_text(&[0xc3, 0xa9, 0xe2, 0x9c, 0x85]).unwrap(), "é✅");
    assert_eq!(decode_text(&[]).unwrap(), "");
    assert_eq!(decode_text(&encode_text("日本語 text")).unwrap(), "日本語 text");
}

#[test]
fn bytes_that_are_no_text_are_an_encoding_error() {
    assert!(matches!(decode_text(&[0xff]), Err(TagError::Utf8Error(_))));
    assert!(matches!(decode_text(&[0x61, 0xc3]), Err(TagError::Utf8Error(_))));
    assert!(matches!(decode_text(&[0xed, 0xa0, 0x80]), Err(TagError::Utf8Error(_))));
    assert!(matches!(decode_text(&[0xc0, 0x80]), Err(TagError::Utf8Error(_))));
    match decode_text(&[0x61, 0xff]) {
        Err(TagError::Utf8Error(reason)) => assert!(!reason.is_empty()),
        other => panic!("unexpected: {:?}", other),
    }
}

use kcom::unicode::{
    encode_utf16, utf16_len_capped, utf16_reserve_bytes, unicode_string_units, utf16_to_string, LocalUnicodeString, OwnedUnicodeString,
    UnicodeStringError, UNICODE_STRING,
};

#[test]
fn unicode_string_allows_max_len_minus_one() {
    let value: String = std::iter::repeat('a').take(32_766).collect();
    let owned = OwnedUnicodeString::new(&value).expect("expected string to fit");
    assert_eq!(owned.as_unicode().Length, (32_766 * 2) as u16);
    assert_eq!(owned.as_unicode().MaximumLength, ((32_766 + 1) * 2) as u16);
}

#[test]
fn unicode_string_rejects_overflow() {
    let value: String = std::iter::repeat('a').take(32_767).collect();
    assert!(matches!(
        OwnedUnicodeString::new(&value),
        Err(UnicodeStringError::TooLong)
    ));
}

#[test]
fn local_unicode_string_from_str() {
    let local = LocalUnicodeString::<8>::from_str("Test").expect("local string");
    let unicode = local.as_unicode_ref();
    assert_eq!(unicode.as_ref().Length, 8);
    assert_eq!(unicode.as_ref().MaximumLength, 16);
    let slice = local.as_utf16();
    assert_eq!(slice, "Test".encode_utf16().collect::<Vec<u16>>());
}

#[test]
fn local_unicode_string_fmt_write() {
    let mut local = LocalUnicodeString::<16>::new();
    core::fmt::Write::write_str(&mut local, &format!("Err: {:x}", 0x2a)).expect("write");
    let text = String::from_utf16(local.as_utf16()).expect("utf16");
    assert_eq!(text, "Err: 2a");
}

#[test]
fn local_unicode_string_overflow_is_rejected() {
    let mut local = LocalUnicodeString::<4>::new();
    assert!(local.try_push_str("abc").is_ok());
    let err = local.try_push_str("d").unwrap_err();
    assert_eq!(err, UnicodeStringError::TooLong);
}

#[test]
fn local_unicode_string_clear_resets_length() {
    let mut local = LocalUnicodeString::<8>::from_str("hi").expect("init");
    assert_eq!(local.len(), 2);
    local.clear();
    assert_eq!(local.len(), 0);
    assert!(local.is_empty());

    let unicode = local.as_unicode_ref();
    assert_eq!(unicode.as_ref().Length, 0);
}

#[test]
fn unicode_string_as_slice_handles_null_buffer() {
    let unicode = UNICODE_STRING {
        Length: 0,
        MaximumLength: 0,
    };
    let units = unicode_string_units(&unicode, true);
    assert_eq!(units, 0);
}

#[test]
fn unicode_string_units_of_counted_string() {
    let unicode = UNICODE_STRING {
        Length: 8,
        MaximumLength: 10,
    };
    assert_eq!(unicode_string_units(&unicode, false), 4);
    assert_eq!(unicode_string_units(&unicode, true), 0);
}

#[test]
fn failed_push_leaves_local_string_unchanged() {
    let mut local = LocalUnicodeString::<6>::from_str("abc").expect("init");
    assert_eq!(local.try_push_str("def"), Err(UnicodeStringError::TooLong));
    assert_eq!(local.as_utf16(), "abc".encode_utf16().collect::<Vec<u16>>().as_slice());
    assert!(local.try_push_str("d").is_ok());
    assert_eq!(local.as_utf16(), "abcd".encode_utf16().collect::<Vec<u16>>().as_slice());
}

#[test]
fn local_string_capacity_is_capped_at_max_units() {
    let local = LocalUnicodeString::<40000>::new();
    assert_eq!(local.as_unicode_ref().as_ref().MaximumLength, 65534);
}

#[test]
fn encode_utf16_matches_std_for_astral_characters() {
    let text = "a\u{e9}\u{1F600}z";
    assert_eq!(encode_utf16(text), text.encode_utf16().collect::<Vec<u16>>());
}

#[test]
fn owned_string_keeps_terminator() {
    let owned = OwnedUnicodeString::new("Test").expect("fits");
    assert_eq!(owned.as_unicode().Length, 8);
    assert_eq!(owned.as_unicode().MaximumLength, 10);
    assert_eq!(owned.as_utf16(), "Test".encode_utf16().collect::<Vec<u16>>().as_slice());
    let mut with_nul: Vec<u16> = "Test".encode_utf16().collect();
    with_nul.push(0);
    assert_eq!(owned.as_utf16_with_nul(), with_nul.as_slice());
}

#[test]
fn utf16_round_trips_through_owned_string() {
    let text = "caf\u{e9} \u{1F980}";
    let owned = OwnedUnicodeString::new(text).expect("fits");
    assert_eq!(utf16_to_string(owned.as_utf16()).expect("decode"), text);
}

#[test]
fn utf16_to_string_rejects_unpaired_surrogate() {
    assert_eq!(utf16_to_string(&[0x61, 0xD800]), Err(UnicodeStringError::InvalidUtf16));
    assert_eq!(utf16_to_string(&[0xDC00, 0x61]), Err(UnicodeStringError::InvalidUtf16));
}

#[test]
fn unicode_error_messages() {
    assert_eq!(UnicodeStringError::TooLong.message(), "UNICODE_STRING exceeds u16 length");
    assert_eq!(
        UnicodeStringError::AllocationFailed.message(),
        "UNICODE_STRING allocation failed"
    );
    assert_eq!(
        UnicodeStringError::InvalidUtf16.message(),
        "UNICODE_STRING contains invalid UTF-16"
    );
}

#[test]
fn empty_units_decode_to_empty_string() {
    assert_eq!(utf16_to_string(&[]), Ok(String::new()));
}

#[test]
fn utf16_length_is_counted_and_capped() {
    assert_eq!(utf16_len_capped("a\u{1F600}"), 3);
    let long: String = std::iter::repeat('\u{1F600}').take(20_000).collect();
    assert_eq!(utf16_len_capped(&long), 32_767);
    assert_eq!(utf16_len_capped(""), 0);
}

#[test]
fn local_string_keeps_its_terminator() {
    let local = LocalUnicodeString::<8>::from_str("hi").expect("init");
    assert_eq!(local.as_utf16_with_nul(), &[0x68, 0x69, 0]);
    let mut full = LocalUnicodeString::<3>::new();
    assert!(core::fmt::Write::write_str(&mut full, "ab").is_ok());
    assert!(core::fmt::Write::write_str(&mut full, "c").is_err());
    assert_eq!(full.as_utf16_with_nul(), &[0x61, 0x62, 0]);
}

#[test]
fn decoded_text_reencodes_to_the_units() {
    let units: Vec<u16> = "k\u{e9}\u{1F980}!".encode_utf16().collect();
    let text = utf16_to_string(&units).expect("decode");
    assert_eq!(encode_utf16(&text), units);
    assert_eq!(utf16_reserve_bytes(5), Some(15));
    assert_eq!(utf16_reserve_bytes(usize::MAX), None);
}

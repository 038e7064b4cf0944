use satisfactory_sav_parser::{Error, SaveString};

fn utf8_with_prefix(s: &str) -> Vec<u8> {
    let mut out: Vec<u8> = Vec::new();
    let n = s.len() as i32;
    out.extend_from_slice(&n.to_le_bytes());
    out.extend_from_slice(s.as_bytes());
    out.push(0);
    out
}

#[test]
fn utf8_decode_hello() {
    // length=5 prefix, five UTF-8 bytes "hello", one null terminator.
    let data = utf8_with_prefix("hello");
    let (s, p) = SaveString::read(&data, 0).unwrap();
    assert_eq!(p, 10);
    match s {
        SaveString::UTF8(v) => assert_eq!(v, b"hello".to_vec()),
        _ => panic!("expected UTF8"),
    }
}

#[test]
fn utf16_decode_three_units() {
    // length=-3 prefix, six bytes of UTF-16 ("abc"), two null bytes.
    let mut data: Vec<u8> = Vec::new();
    data.extend_from_slice(&(-3i32).to_le_bytes());
    for u in [97u16, 98, 99] {
        data.extend_from_slice(&u.to_le_bytes());
    }
    data.extend_from_slice(&[0, 0]);
    let (s, p) = SaveString::read(&data, 0).unwrap();
    assert_eq!(p, data.len());
    match s {
        SaveString::UTF16(v) => assert_eq!(v, vec![97u16, 98, 99]),
        _ => panic!("expected UTF16"),
    }
}

#[test]
fn empty_decode_consumes_prefix_only() {
    // length=0 decodes to Empty with zero bytes consumed beyond the prefix.
    let mut data = 0i32.to_le_bytes().to_vec();
    data.extend_from_slice(&[7, 7, 7]);
    let (s, p) = SaveString::read(&data, 0).unwrap();
    assert_eq!(p, 4);
    assert!(matches!(s, SaveString::Empty));
}

#[test]
fn utf8_interior_null_is_length_mismatch() {
    let mut data = 3i32.to_le_bytes().to_vec();
    data.extend_from_slice(&[b'a', 0, b'c', 0]);
    let e = SaveString::read(&data, 0).unwrap_err();
    assert!(matches!(e, Error::LengthMismatch { .. }));
}

#[test]
fn utf8_missing_terminator_is_length_mismatch() {
    let mut data = 2i32.to_le_bytes().to_vec();
    data.extend_from_slice(&[b'a', b'b', b'x']);
    let e = SaveString::read(&data, 0).unwrap_err();
    assert!(matches!(e, Error::LengthMismatch { .. }));
}

#[test]
fn utf8_short_input_is_truncated() {
    let mut data = 5i32.to_le_bytes().to_vec();
    data.extend_from_slice(b"hel");
    let e = SaveString::read(&data, 0).unwrap_err();
    assert!(matches!(e, Error::TruncatedInput { .. }));
}

#[test]
fn round_trip_utf8() {
    let s = SaveString::UTF8(b"hello world".to_vec());
    let enc = s.encode();
    let (back, p) = SaveString::read(&enc, 0).unwrap();
    assert_eq!(p, enc.len());
    assert_eq!(back, s);
}

#[test]
fn round_trip_utf16() {
    let s = SaveString::UTF16(vec![0x48, 0x69, 0x2603]);
    let enc = s.encode();
    let (back, p) = SaveString::read(&enc, 0).unwrap();
    assert_eq!(p, enc.len());
    assert_eq!(back, s);
}

#[test]
fn round_trip_empty() {
    let s = SaveString::Empty;
    let enc = s.encode();
    assert_eq!(enc, vec![0, 0, 0, 0]);
    let (back, p) = SaveString::read(&enc, 0).unwrap();
    assert_eq!(p, 4);
    assert_eq!(back, s);
}

#[test]
fn cross_encoding_literal_match() {
    let a = SaveString::UTF8(b"None".to_vec());
    let b = SaveString::UTF16(vec![b'N' as u16, b'o' as u16, b'n' as u16, b'e' as u16]);
    assert!(satisfactory_sav_parser::strings::matches_lit(&a, "None"));
    assert!(satisfactory_sav_parser::strings::matches_lit(&b, "None"));
    assert!(!satisfactory_sav_parser::strings::matches_lit(&a, "Nope"));
    assert!(!satisfactory_sav_parser::strings::matches_lit(&b, "Non"));
}

#[test]
fn to_text_decodes_both_encodings() {
    let a = SaveString::UTF8(b"hi".to_vec());
    let b = SaveString::UTF16(vec![104, 105]);
    assert_eq!(a.to_text(), "hi");
    assert_eq!(b.to_text(), "hi");
    assert_eq!(SaveString::Empty.to_text(), "");
}

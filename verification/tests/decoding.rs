use win_tz::ascii::{decode_utf16, BoundedAscii};
use win_tz::ParseError;

fn wide(text: &str, capacity: usize) -> Vec<u16> {
    let mut units: Vec<u16> = text.bytes().map(|b| b as u16).collect();
    while units.len() < capacity {
        units.push(0);
    }
    units
}

#[test]
fn decode_padded_buffer() {
    let buffer = wide("UTC", 32);
    let result = decode_utf16(&buffer, 32).unwrap();
    assert_eq!(result, "UTC");
}

#[test]
fn decode_exactly_full_buffer() {
    // Exactly `capacity` ASCII characters with no padding must succeed.
    let buffer = wide("abcdefghijklmnopqrstuvwxyzABCDEF", 32);
    assert_eq!(buffer.len(), 32);
    let result = decode_utf16(&buffer, 32).unwrap();
    assert_eq!(result, "abcdefghijklmnopqrstuvwxyzABCDEF");
}

#[test]
fn decode_empty_buffer() {
    let buffer = [0u16; 32];
    let result = decode_utf16(&buffer, 32).unwrap();
    assert_eq!(result, "");
}

#[test]
fn decode_rejects_overflow() {
    // A buffer longer than the requested capacity is an error, never a
    // silent truncation.
    let buffer = wide("Line Islands Standard Time", 26);
    let result = decode_utf16(&buffer, 3);
    assert_eq!(result, Err(ParseError::TooLong));
}

#[test]
fn decode_rejects_non_ascii() {
    let mut buffer = wide("UTC", 32);
    buffer[1] = 0x00DC;
    let result = decode_utf16(&buffer, 32);
    assert_eq!(result, Err(ParseError::NonAscii));
}

#[test]
fn decode_rejects_text_after_null() {
    let mut buffer = wide("UTC", 32);
    buffer[7] = b'X' as u16;
    let result = decode_utf16(&buffer, 32);
    assert_eq!(result, Err(ParseError::ContainsNull));
}

#[test]
fn decode_reports_non_ascii_even_after_null() {
    // The first failing unit decides the error kind, and an out-of-range
    // unit reports NonAscii even when it stands in the padding.
    let mut buffer = wide("UTC", 32);
    buffer[5] = 0x2603;
    buffer[7] = b'X' as u16;
    let result = decode_utf16(&buffer, 32);
    assert_eq!(result, Err(ParseError::NonAscii));
}

#[test]
fn decoder_agrees_with_tinystr() {
    // Cross-check against the ecosystem's bounded ASCII string type on an
    // unpadded buffer, where the two decoders accept the same inputs.
    let buffer: Vec<u16> = "GMT Standard Time".encode_utf16().collect();
    let ours = decode_utf16(&buffer, 32).unwrap();
    let theirs = tinystr::TinyAsciiStr::<32>::try_from_utf16(&buffer).unwrap();
    assert_eq!(ours.as_str(), theirs.as_str());

    let bad: Vec<u16> = "Mitteleurop\u{00E4}ische Zeit".encode_utf16().collect();
    assert!(decode_utf16(&bad, 32).is_err());
    assert!(tinystr::TinyAsciiStr::<32>::try_from_utf16(&bad).is_err());
}

#[test]
fn bounded_identifier_from_raw_buffer() {
    let mut raw = [0u16; 32];
    for (i, b) in "GMT Standard Time".bytes().enumerate() {
        raw[i] = b as u16;
    }
    let id = BoundedAscii::<32>::try_from_raw_u16(&raw).unwrap();
    assert_eq!(id.as_str(), "GMT Standard Time");
}

#[test]
fn bounded_identifier_rejects_interior_null() {
    let mut raw = [0u16; 3];
    raw[0] = 0;
    raw[1] = b'A' as u16;
    let result = BoundedAscii::<3>::try_from_raw_u16(&raw);
    assert!(matches!(result, Err(ParseError::ContainsNull)));
}

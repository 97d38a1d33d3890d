use minifb_ffi::text::{decode_text, has_nul};

#[test]
fn plain_text_is_decoded() {
    assert_eq!(decode_text(b"Test"), Some("Test"));
    assert_eq!(decode_text(b""), Some(""));
}

#[test]
fn text_beyond_ascii_is_decoded() {
    let bytes = "Fen\u{ea}tre \u{2014} \u{1f600}".as_bytes();
    assert_eq!(decode_text(bytes), Some("Fen\u{ea}tre \u{2014} \u{1f600}"));
}

#[test]
fn bytes_that_are_not_utf8_are_no_text() {
    assert_eq!(decode_text(&[0xff, 0xfe]), None);
    assert_eq!(decode_text(&[b'a', 0xc3]), None);
    assert_eq!(decode_text(&[0xed, 0xa0, 0x80]), None);
}

#[test]
fn bytes_with_a_zero_byte_are_no_text() {
    assert_eq!(decode_text(&[b'a', 0, b'b']), None);
    assert_eq!(decode_text(&[0]), None);
}

#[test]
fn a_zero_byte_is_found_wherever_it_stands() {
    assert!(!has_nul(b""));
    assert!(!has_nul(b"window"));
    assert!(has_nul(&[0, 1, 2]));
    assert!(has_nul(&[1, 0, 2]));
    assert!(has_nul(&[1, 2, 0]));
}

use raspboot::serial::{crlf_encode, hex_digits, normalize_received};

#[test]
fn hex_digits_spell_the_value_most_significant_first() {
    assert_eq!(hex_digits(0xDEAD_BEEF), b"DEADBEEF".to_vec());
    assert_eq!(hex_digits(0), b"00000000".to_vec());
    assert_eq!(hex_digits(0x0123_ABCD), b"0123ABCD".to_vec());
    assert_eq!(hex_digits(0xFFFF_FFFF), b"FFFFFFFF".to_vec());
}

#[test]
fn received_carriage_returns_become_newlines() {
    assert_eq!(normalize_received(b'\r'), b'\n');
    assert_eq!(normalize_received(b'\n'), b'\n');
    assert_eq!(normalize_received(b'A'), b'A');
}

#[test]
fn sent_newlines_grow_a_carriage_return() {
    assert_eq!(crlf_encode(&b"a\nb".to_vec()), b"a\r\nb".to_vec());
    assert_eq!(crlf_encode(&b"".to_vec()), b"".to_vec());
    assert_eq!(crlf_encode(&b"\n\n".to_vec()), b"\r\n\r\n".to_vec());
    assert_eq!(crlf_encode(&b"no newline".to_vec()), b"no newline".to_vec());
}

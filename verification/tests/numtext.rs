use rust_link::numtext::{number_to_text_bytes, parse_decimal, parse_port};

#[test]
fn number_to_text_bytes_0() {
    assert_eq!(b"0".to_vec(), number_to_text_bytes(0));
}

#[test]
fn number_to_text_bytes_1() {
    assert_eq!(b"1".to_vec(), number_to_text_bytes(1));
}

#[test]
fn number_to_text_bytes_259() {
    assert_eq!(b"259".to_vec(), number_to_text_bytes(259));
}

#[test]
fn number_to_text_bytes_large() {
    assert_eq!(b"18446744073709551615".to_vec(), number_to_text_bytes(usize::MAX));
}

#[test]
fn parse_decimal_plain() {
    assert_eq!(Some(259), parse_decimal(b"259"));
    assert_eq!(Some(0), parse_decimal(b"0"));
    assert_eq!(Some(0), parse_decimal(b"00"));
    assert_eq!(Some(7786), parse_decimal(b"7786"));
}

#[test]
fn parse_decimal_rejects_non_digits() {
    assert_eq!(None, parse_decimal(b""));
    assert_eq!(None, parse_decimal(b"efg"));
    assert_eq!(None, parse_decimal(b"12a"));
    assert_eq!(None, parse_decimal(b"-1"));
    assert_eq!(None, parse_decimal(b" 1"));
}

#[test]
fn parse_decimal_rejects_overflow() {
    // One more than the largest value that fits in usize on this platform.
    assert_eq!(None, parse_decimal(b"18446744073709551616"));
    assert_eq!(None, parse_decimal(b"99999999999999999999999999"));
}

#[test]
fn parse_port_values() {
    assert_eq!(Some(30000), parse_port(b"30000"));
    assert_eq!(Some(0), parse_port(b"0"));
    assert_eq!(Some(65535), parse_port(b"65535"));
    assert_eq!(None, parse_port(b"65536"));
    assert_eq!(None, parse_port(b"xyz"));
    assert_eq!(None, parse_port(b""));
}

#[test]
fn decimal_round_trip() {
    for n in [0usize, 1, 9, 10, 259, 7786, 65535, usize::MAX] {
        let text = number_to_text_bytes(n);
        assert_eq!(Some(n), parse_decimal(&text));
    }
}

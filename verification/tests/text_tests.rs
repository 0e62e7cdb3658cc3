use render_resources::text::{bytes_eq, find_byte, parse_u32, push_bytes, push_decimal};

#[test]
fn parse_u32_reads_exactly_the_decimal_digit_strings() {
    assert_eq!(parse_u32(b"0"), Some(0));
    assert_eq!(parse_u32(b"450"), Some(450));
    assert_eq!(parse_u32(b"007"), Some(7));
    assert_eq!(parse_u32(b"4294967295"), Some(u32::MAX));
    assert_eq!(parse_u32(b"4294967296"), None);
    assert_eq!(parse_u32(b""), None);
    assert_eq!(parse_u32(b"12a"), None);
    assert_eq!(parse_u32(b" 12"), None);
}

#[test]
fn push_decimal_writes_the_digit_string() {
    let mut out = Vec::new();
    push_decimal(&mut out, 0);
    push_bytes(&mut out, b" ");
    push_decimal(&mut out, 40907);
    push_bytes(&mut out, b" ");
    push_decimal(&mut out, u64::MAX);
    assert_eq!(out, b"0 40907 18446744073709551615".to_vec());
}

#[test]
fn bytes_eq_compares_contents() {
    assert!(bytes_eq(b"", b""));
    assert!(bytes_eq(b"abc", b"abc"));
    assert!(!bytes_eq(b"abc", b"abd"));
    assert!(!bytes_eq(b"abc", b"ab"));
}

#[test]
fn find_byte_returns_the_first_position_or_the_length() {
    assert_eq!(find_byte(b"a\nb\n", 0, b'\n'), 1);
    assert_eq!(find_byte(b"a\nb\n", 2, b'\n'), 3);
    assert_eq!(find_byte(b"abc", 0, b'\n'), 3);
}

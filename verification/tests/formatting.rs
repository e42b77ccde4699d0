use mpfs_aperture::hexfmt::{format_hex, parse_hex_u64, strip_hex_prefixes, u64_to_dec_digits,
    u64_to_hex_digits};

#[test]
fn hex_digits_exact() {
    assert_eq!(u64_to_hex_digits(0), "0");
    assert_eq!(u64_to_hex_digits(0x7002), "7002");
    assert_eq!(u64_to_hex_digits(0xdeadbeef), "deadbeef");
    assert_eq!(u64_to_hex_digits(u64::MAX), "ffffffffffffffff");
}

#[test]
fn dec_digits_exact() {
    assert_eq!(u64_to_dec_digits(0), "0");
    assert_eq!(u64_to_dec_digits(7), "7");
    assert_eq!(u64_to_dec_digits(1024), "1024");
    assert_eq!(u64_to_dec_digits(2016), "2016");
}

#[test]
fn format_hex_pads_to_width() {
    assert_eq!(format_hex(0, 10), "0x0000000000");
    assert_eq!(format_hex(0x8000_0000, 10), "0x0080000000");
    assert_eq!(format_hex(0x7002, 6), "0x007002");
    assert_eq!(format_hex(0x7002, 0), "0x7002");
}

#[test]
fn format_hex_does_not_truncate_wide_values() {
    assert_eq!(format_hex(0x10_0000_0000, 10), "0x1000000000");
    assert_eq!(format_hex(0x123_4567_89ab_cdef, 10), "0x123456789abcdef");
}

#[test]
fn parse_hex_basic() {
    assert_eq!(parse_hex_u64("0"), Some(0));
    assert_eq!(parse_hex_u64("ff"), Some(0xff));
    assert_eq!(parse_hex_u64("7002"), Some(0x7002));
    assert_eq!(parse_hex_u64("FFFFFFFFFFFFFFFF"), Some(u64::MAX));
}

#[test]
fn parse_hex_accepts_plus_sign() {
    assert_eq!(parse_hex_u64("+ff"), Some(0xff));
    assert_eq!(parse_hex_u64("+"), None);
}

#[test]
fn parse_hex_rejects_bad_input() {
    assert_eq!(parse_hex_u64(""), None);
    assert_eq!(parse_hex_u64("zz"), None);
    assert_eq!(parse_hex_u64("12g4"), None);
    assert_eq!(parse_hex_u64(" ff"), None);
    assert_eq!(parse_hex_u64("-1"), None);
}

#[test]
fn parse_hex_rejects_overflow() {
    assert_eq!(parse_hex_u64("10000000000000000"), None);
    assert_eq!(parse_hex_u64("ffffffffffffffffff"), None);
}

#[test]
fn strip_prefix_removes_leading_0x() {
    assert_eq!(strip_hex_prefixes("0xff"), "ff");
    assert_eq!(strip_hex_prefixes("ff"), "ff");
    assert_eq!(strip_hex_prefixes("0x0xff"), "ff");
    assert_eq!(strip_hex_prefixes("0x"), "");
    assert_eq!(strip_hex_prefixes("x0ff"), "x0ff");
}

#[test]
fn strip_then_parse_reads_user_input() {
    assert_eq!(parse_hex_u64(strip_hex_prefixes("0x8000_0000".trim_end())), None);
    assert_eq!(parse_hex_u64(strip_hex_prefixes("0x80000000")), Some(0x8000_0000));
}

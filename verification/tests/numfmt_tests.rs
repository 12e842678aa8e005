use benchmarco::numfmt::fmt_i32;
use benchmarco::numfmt::fmt_u64;
use benchmarco::numfmt::fmt_u64_pad2;
use benchmarco::numfmt::parse_u32;

#[test]
fn renders_zero_and_plain_numbers() {
    assert_eq!(fmt_u64(0), "0");
    assert_eq!(fmt_u64(7), "7");
    assert_eq!(fmt_u64(1234), "1234");
    assert_eq!(fmt_u64(1048576), "1048576");
}

#[test]
fn renders_signed_numbers() {
    assert_eq!(fmt_i32(-5), "-5");
    assert_eq!(fmt_i32(42), "42");
    assert_eq!(fmt_i32(0), "0");
}

#[test]
fn pads_single_digits_to_two_columns() {
    assert_eq!(fmt_u64_pad2(4), " 4");
    assert_eq!(fmt_u64_pad2(17), "17");
    assert_eq!(fmt_u64_pad2(170), "170");
}

#[test]
fn parses_digit_tokens() {
    assert_eq!(parse_u32(&b"8192".to_vec()), Some(8192));
    assert_eq!(parse_u32(&b"0".to_vec()), Some(0));
    assert_eq!(parse_u32(&b"4294967295".to_vec()), Some(u32::MAX));
}

#[test]
fn rejects_non_numeric_tokens() {
    assert_eq!(parse_u32(&b"".to_vec()), None);
    assert_eq!(parse_u32(&b"12a".to_vec()), None);
    assert_eq!(parse_u32(&b"-3".to_vec()), None);
    assert_eq!(parse_u32(&b"+3".to_vec()), None);
}

#[test]
fn rejects_overflowing_tokens() {
    assert_eq!(parse_u32(&b"4294967296".to_vec()), None);
    assert_eq!(parse_u32(&b"99999999999999999999".to_vec()), None);
}

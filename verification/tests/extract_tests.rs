use benchmarco::error::TelemetryError;
use benchmarco::extract::get_value;

#[test]
fn extracts_trailing_numeric_token() {
    let line = b"   Total                         : 8192 MiB";
    let token = get_value(line, 4).unwrap();
    assert_eq!(token, b"8192".to_vec());
}

#[test]
fn extracts_variable_width_token() {
    let narrow = get_value(b"   Gpu : 87 %", 2).unwrap();
    let wide = get_value(b"   Gpu : 100 %", 2).unwrap();
    assert_eq!(narrow, b"87".to_vec());
    assert_eq!(wide, b"100".to_vec());
}

#[test]
fn extraction_is_idempotent() {
    let line = b"   Free                          : 6144 MiB";
    let first = get_value(line, 4).unwrap();
    let second = get_value(line, 4).unwrap();
    assert_eq!(first, second);
}

#[test]
fn right_edge_on_space_gives_empty_token() {
    // The byte just before the start position is a space: the token is
    // empty rather than a crash.
    let token = get_value(b"a b", 1).unwrap();
    assert_eq!(token, Vec::<u8>::new());
}

#[test]
fn missing_delimiter_is_malformed_line() {
    let r = get_value(b"abcdef", 0);
    assert!(matches!(r, Err(TelemetryError::MalformedLine)));
}

#[test]
fn offset_equal_to_length_is_malformed_line() {
    let r = get_value(b"abc", 3);
    assert!(matches!(r, Err(TelemetryError::MalformedLine)));
}

#[test]
fn token_at_line_start_needs_preceding_space() {
    // "8192 MiB" with offset 4: the scan starts at the '2' and runs to the
    // line start without meeting a space.
    let r = get_value(b"8192 MiB", 4);
    assert!(matches!(r, Err(TelemetryError::MalformedLine)));
}

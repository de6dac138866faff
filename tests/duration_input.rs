use clock_floater::duration_input::{normalize_field, parse_field, read_u32, total_seconds};

#[test]
fn parse_field_reads_digits() {
    assert_eq!(parse_field("0"), 0);
    assert_eq!(parse_field("90"), 90);
    assert_eq!(parse_field("007"), 7);
    assert_eq!(parse_field("4294967295"), u32::MAX);
}

#[test]
fn parse_field_defaults_to_zero() {
    assert_eq!(parse_field(""), 0);
    assert_eq!(parse_field("12a"), 0);
    assert_eq!(parse_field(" 5"), 0);
    assert_eq!(parse_field("4294967296"), 0);
    assert_eq!(parse_field("99999999999999999999999"), 0);
}

#[test]
fn read_u32_tells_failure_from_zero() {
    assert_eq!(read_u32("000"), Some(0));
    assert_eq!(read_u32(""), None);
    assert_eq!(read_u32("x"), None);
}

#[test]
fn normalize_field_drops_non_digits_and_leading_zeros() {
    assert_eq!(normalize_field("0012"), "12");
    assert_eq!(normalize_field("a1b2"), "12");
    assert_eq!(normalize_field("000"), "0");
    assert_eq!(normalize_field("abc"), "");
    assert_eq!(normalize_field(""), "");
    assert_eq!(normalize_field("99999999999"), "99999999999");
    assert_eq!(normalize_field("4é2"), "42");
}

#[test]
fn total_seconds_combines_fields() {
    assert_eq!(total_seconds(1, 1, 1), 3661);
    assert_eq!(total_seconds(0, 5, 0), 300);
    assert_eq!(total_seconds(0, 0, 0), 0);
    assert_eq!(
        total_seconds(u32::MAX, u32::MAX, u32::MAX),
        u32::MAX as u64 * 3661
    );
}

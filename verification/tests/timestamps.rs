use linear_fdw::timestamp::parse_timestamp;

#[test]
fn the_epoch_is_zero() {
    assert_eq!(parse_timestamp("1970-01-01T00:00:00Z"), Some(0));
    assert_eq!(parse_timestamp("1970-01-01T00:00:01Z"), Some(1_000_000));
}

#[test]
fn dates_and_times_combine() {
    assert_eq!(
        parse_timestamp("2023-07-31T20:00:00.000Z"),
        Some(1_690_833_600_000_000)
    );
    assert_eq!(
        parse_timestamp("2000-02-29T23:59:59Z"),
        Some(951_868_799_000_000)
    );
}

#[test]
fn offsets_shift_the_instant() {
    assert_eq!(
        parse_timestamp("2024-01-15T10:30:00+02:00"),
        Some(1_705_307_400_000_000)
    );
    assert_eq!(parse_timestamp("1970-01-01T00:00:00+01:00"), Some(-3_600_000_000));
    assert_eq!(parse_timestamp("1969-12-31T23:00:00-00:00"), Some(-3_600_000_000));
}

#[test]
fn fractions_scale_to_microseconds() {
    assert_eq!(parse_timestamp("1970-01-01T00:00:00.123456Z"), Some(123_456));
    assert_eq!(parse_timestamp("1970-01-01T00:00:00.5Z"), Some(500_000));
    assert_eq!(parse_timestamp("1970-01-01T00:00:00.123456789Z"), Some(123_456));
}

#[test]
fn lowercase_separators_are_accepted() {
    assert_eq!(parse_timestamp("1970-01-01t00:00:00z"), Some(0));
}

#[test]
fn malformed_texts_are_rejected() {
    assert_eq!(parse_timestamp(""), None);
    assert_eq!(parse_timestamp("yesterday"), None);
    assert_eq!(parse_timestamp("1970-01-01 00:00:00Z"), None);
    assert_eq!(parse_timestamp("1970-01-01T00:00:00"), None);
    assert_eq!(parse_timestamp("1970-01-01T00:00:00."), None);
    assert_eq!(parse_timestamp("1970-01-01T00:00:00.Z"), None);
    assert_eq!(parse_timestamp("1970-01-01T00:00:00+0100"), None);
    assert_eq!(parse_timestamp("1970-01-01T00:00:00+25:00"), None);
}

#[test]
fn out_of_range_fields_are_rejected() {
    assert_eq!(parse_timestamp("2023-02-29T00:00:00Z"), None);
    assert_eq!(parse_timestamp("2024-02-29T00:00:00Z"), Some(1_709_164_800_000_000));
    assert_eq!(parse_timestamp("2023-13-01T00:00:00Z"), None);
    assert_eq!(parse_timestamp("2023-00-01T00:00:00Z"), None);
    assert_eq!(parse_timestamp("2023-04-31T00:00:00Z"), None);
    assert_eq!(parse_timestamp("2023-01-01T24:00:00Z"), None);
    assert_eq!(parse_timestamp("2023-01-01T00:60:00Z"), None);
}

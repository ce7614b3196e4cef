use codeptit::cli::{millis_of, parse_duration_millis, DurationArgError};

#[test]
fn duration_options() {
    assert_eq!(parse_duration_millis("2s"), Ok(2000));
    assert_eq!(parse_duration_millis("1min 30s"), Ok(90_000));
    assert_eq!(parse_duration_millis("32ms"), Ok(32));
    assert_eq!(parse_duration_millis("1500us"), Ok(1));
    assert_eq!(parse_duration_millis("0"), Ok(0));
    assert_eq!(parse_duration_millis("soon"), Err(DurationArgError::Unreadable));
    assert_eq!(parse_duration_millis(""), Err(DurationArgError::Unreadable));
}

#[test]
fn millisecond_conversion() {
    assert_eq!(millis_of(3, 999_999_999), Some(3999));
    assert_eq!(millis_of(0, 0), Some(0));
    assert_eq!(millis_of(u64::MAX / 1000, 0), Some(u64::MAX / 1000 * 1000));
    assert_eq!(millis_of(u64::MAX, 0), None);
    assert_eq!(millis_of(u64::MAX / 1000, 999_000_000), None);
}

#[test]
fn duration_digit_limit() {
    assert_eq!(
        parse_duration_millis("18446744073709551615s 1000000000ns"),
        Err(DurationArgError::TooManyDigits)
    );
    assert_eq!(parse_duration_millis("12345678901ms"), Err(DurationArgError::TooManyDigits));
    assert_eq!(parse_duration_millis("1234567890ms"), Ok(1_234_567_890));
    assert_eq!(parse_duration_millis("9999999999y"), Err(DurationArgError::TooLong));
    assert_eq!(codeptit::cli::count_digits("1min 30s"), 3);
    assert_eq!(codeptit::cli::count_digits(""), 0);
}

use idgen::{generate_pseudo_mac, parse_data, parse_timestamp_ns, to_pseudo_mac, Argument, ParseError};

#[test]
fn test_parse_timestamp_min() {
    let result = parse_timestamp_ns("0");

    assert!(result.is_ok());
    assert_eq!(result.unwrap(), (0, 0));
}

#[test]
fn test_parse_timestamp_max() {
    let result = parse_timestamp_ns("18446744073709551615999999999");

    assert!(result.is_ok());
    assert_eq!(result.unwrap(), (u64::MAX, 999999999));
}

#[test]
fn test_parse_timestamp_nanos() {
    let result = parse_timestamp_ns("999");

    assert!(result.is_ok());
    assert_eq!(result.unwrap(), (0, 999));
}

#[test]
fn test_parse_timestamp_negative() {
    let result = parse_timestamp_ns("-1");

    assert!(result.is_err());
    assert_eq!(result.unwrap_err().message(), "timestamp must contain only digits");
}

#[test]
fn test_parse_timestamp_overflow() {
    let result = parse_timestamp_ns("18446744073709551616999999999");

    assert!(result.is_err());
    assert_eq!(
        result.unwrap_err().message(),
        "timestamp must be a valid non-negative integer between 0 and 18446744073709551615999999999"
    );
}

#[test]
fn test_parse_timestamp_empty() {
    let result = parse_timestamp_ns("");

    assert!(result.is_err());
    assert_eq!(
        result.unwrap_err().message(),
        "timestamp length must be between 1 and 29 digits, got 0"
    );
}

#[test]
fn test_parse_timestamp_invalid() {
    let result = parse_timestamp_ns("abc999");

    assert!(result.is_err());
    assert_eq!(result.unwrap_err().message(), "timestamp must contain only digits");
}

#[test]
fn test_parse_data_short() {
    let result = parse_data("0011223344556677");

    assert!(result.is_ok());
    assert_eq!(
        result.unwrap(),
        [0, 17, 34, 51, 68, 85, 102, 119, 0, 0, 0, 0, 0, 0, 0, 0]
    );
}

#[test]
fn test_parse_data_full() {
    let result = parse_data("00112233445566778899aabbccddeeff");

    assert!(result.is_ok());
    assert_eq!(
        result.unwrap(),
        [0, 17, 34, 51, 68, 85, 102, 119, 136, 153, 170, 187, 204, 221, 238, 255]
    );
}

#[test]
fn test_parse_data_invalid() {
    let result = parse_data("gg");

    assert!(result.is_err());
    assert_eq!(result.unwrap_err().message(), "data must contain only hex characters");
}

#[test]
fn test_parse_data_empty() {
    let result = parse_data("");

    assert!(result.is_err());
    assert_eq!(
        result.unwrap_err().message(),
        "data length must be between 1 and 32 characters, got 0"
    );
}

#[test]
fn test_parse_data_overflow() {
    let result = parse_data("00112233445566778899aabbccddeefff");

    assert!(result.is_err());
    assert_eq!(
        result.unwrap_err().message(),
        "data length must be between 1 and 32 characters, got 33"
    );
}

#[test]
fn test_generate_pseudo_mac() {
    let result = eui48::MacAddress::new(generate_pseudo_mac());

    assert!(result.is_local());
    assert!(!result.is_multicast());
    assert!(!result.is_broadcast());
    assert!(!result.is_nil());
}

#[test]
fn parse_timestamp_splits_seconds_from_nanoseconds() {
    assert_eq!(parse_timestamp_ns("1234567890123456789"), Ok((1234567890, 123456789)));
    assert_eq!(parse_timestamp_ns("1000000000"), Ok((1, 0)));
    assert_eq!(parse_timestamp_ns("999999999"), Ok((0, 999999999)));
    assert_eq!(parse_timestamp_ns("000000000000000000000000000001"), Err(ParseError::InvalidLength {
        argument: Argument::Timestamp,
        length: 30,
    }));
}

#[test]
fn parse_timestamp_leading_zeros_count_as_digits() {
    assert_eq!(parse_timestamp_ns("00000000000000000000000000001"), Ok((0, 1)));
}

#[test]
fn parse_timestamp_error_kinds() {
    assert_eq!(
        parse_timestamp_ns("-1"),
        Err(ParseError::InvalidFormat { argument: Argument::Timestamp })
    );
    assert_eq!(
        parse_timestamp_ns(""),
        Err(ParseError::InvalidLength { argument: Argument::Timestamp, length: 0 })
    );
    assert_eq!(
        parse_timestamp_ns("18446744073709551616000000000"),
        Err(ParseError::OutOfRange { argument: Argument::Timestamp })
    );
}

#[test]
fn parse_timestamp_counts_bytes_of_non_ascii_text() {
    assert_eq!(
        parse_timestamp_ns("1é"),
        Err(ParseError::InvalidFormat { argument: Argument::Timestamp })
    );
}

#[test]
fn parse_data_accepts_either_case_and_pads_low_digits() {
    assert_eq!(
        parse_data("AbCdEf"),
        Ok([0xab, 0xcd, 0xef, 0, 0, 0, 0, 0, 0, 0, 0, 0, 0, 0, 0, 0])
    );
    assert_eq!(parse_data("f"), Ok([0xf0, 0, 0, 0, 0, 0, 0, 0, 0, 0, 0, 0, 0, 0, 0, 0]));
}

#[test]
fn parse_data_error_kinds() {
    assert_eq!(
        parse_data("0123456789abcdef0123456789abcdef01"),
        Err(ParseError::InvalidLength { argument: Argument::Data, length: 34 })
    );
    assert_eq!(
        parse_data("ghijklmnopqrstuv"),
        Err(ParseError::InvalidFormat { argument: Argument::Data })
    );
}

#[test]
fn pseudo_mac_sets_local_and_clears_multicast_bit() {
    assert_eq!(to_pseudo_mac([0xff, 1, 2, 3, 4, 5]), [0xfe, 1, 2, 3, 4, 5]);
    assert_eq!(to_pseudo_mac([0x00, 9, 8, 7, 6, 5]), [0x02, 9, 8, 7, 6, 5]);
    assert_eq!(to_pseudo_mac([0x41, 0, 0, 0, 0, 0]), [0x42, 0, 0, 0, 0, 0]);
}

#[test]
fn parse_error_messages_for_other_arguments() {
    assert_eq!(
        ParseError::InvalidLength { argument: Argument::NodeId, length: 120 }.message(),
        "node-id has an invalid length, got 120"
    );
    assert_eq!(
        ParseError::InvalidFormat { argument: Argument::Namespace }.message(),
        "namespace has an invalid format"
    );
    assert_eq!(ParseError::OutOfRange { argument: Argument::Data }.message(), "data is out of range");
}

use idgen::{
    validate_args, Argument, Commands, Generate, Generator, SupportedUUIDNamespace,
    SupportedUUIDVersion, UuidGenerator, ValidationError,
};

#[test]
fn test_uuid_v1_with_timestamp_valid() {
    let cmd = Commands::Uuid {
        version: SupportedUUIDVersion::V1,
        timestamp: Some((1234567890, 0)),
        namespace: None,
        name: None,
        node_id: None,
        data: None,
    };

    assert!(validate_args(&cmd).is_ok());
}

#[test]
fn test_uuid_v6_with_timestamp_valid() {
    let cmd = Commands::Uuid {
        version: SupportedUUIDVersion::V6,
        timestamp: Some((1234567890, 0)),
        namespace: None,
        name: None,
        node_id: None,
        data: None,
    };

    assert!(validate_args(&cmd).is_ok());
}

#[test]
fn test_uuid_v7_with_timestamp_valid() {
    let cmd = Commands::Uuid {
        version: SupportedUUIDVersion::V7,
        timestamp: Some((1234567890, 0)),
        namespace: None,
        name: None,
        node_id: None,
        data: None,
    };

    assert!(validate_args(&cmd).is_ok());
}

#[test]
fn test_uuid_v3_with_timestamp_invalid() {
    let cmd = Commands::Uuid {
        version: SupportedUUIDVersion::V3,
        timestamp: Some((1234567890, 0)),
        namespace: Some(SupportedUUIDNamespace::DNS),
        name: Some(String::from("test")),
        node_id: None,
        data: None,
    };

    assert!(matches!(
        validate_args(&cmd),
        Err(ValidationError::UuidTimestampVersionMismatch { .. })
    ));
}

#[test]
fn test_uuid_v4_with_timestamp_invalid() {
    let cmd = Commands::Uuid {
        version: SupportedUUIDVersion::V4,
        timestamp: Some((1234567890, 0)),
        namespace: None,
        name: None,
        node_id: None,
        data: None,
    };

    assert!(matches!(
        validate_args(&cmd),
        Err(ValidationError::UuidTimestampVersionMismatch { .. })
    ));
}

#[test]
fn test_uuid_v5_with_timestamp_invalid() {
    let cmd = Commands::Uuid {
        version: SupportedUUIDVersion::V5,
        timestamp: Some((1234567890, 0)),
        namespace: Some(SupportedUUIDNamespace::URL),
        name: Some(String::from("test")),
        node_id: None,
        data: None,
    };

    assert!(matches!(
        validate_args(&cmd),
        Err(ValidationError::UuidTimestampVersionMismatch { .. })
    ));
}

#[test]
fn test_uuid_v8_with_timestamp_invalid() {
    let cmd = Commands::Uuid {
        version: SupportedUUIDVersion::V8,
        timestamp: Some((1234567890, 0)),
        namespace: None,
        name: None,
        node_id: None,
        data: Some([0u8; 16]),
    };

    assert!(matches!(
        validate_args(&cmd),
        Err(ValidationError::UuidTimestampVersionMismatch { .. })
    ));
}

#[test]
fn test_uuid_without_timestamp_valid() {
    let cmd = Commands::Uuid {
        version: SupportedUUIDVersion::V4,
        timestamp: None,
        namespace: None,
        name: None,
        node_id: None,
        data: None,
    };

    assert!(validate_args(&cmd).is_ok());
}

#[test]
fn test_ulid_no_validation_needed() {
    let cmd = Commands::Ulid { timestamp: Some(1234567890) };

    assert!(validate_args(&cmd).is_ok());
}

#[test]
fn test_objectid_no_validation_needed() {
    let cmd = Commands::ObjectId { timestamp: Some(1234567890) };

    assert!(validate_args(&cmd).is_ok());
}

fn uuid_command(version: SupportedUUIDVersion) -> Commands {
    Commands::Uuid { version, timestamp: None, namespace: None, name: None, node_id: None, data: None }
}

#[test]
fn missing_namespace_is_reported_by_name() {
    let cmd = Commands::Uuid {
        version: SupportedUUIDVersion::V3,
        timestamp: None,
        namespace: None,
        name: Some(String::from("test")),
        node_id: None,
        data: None,
    };
    let err = validate_args(&cmd).unwrap_err();
    assert_eq!(
        err,
        ValidationError::MissingRequiredArgument {
            argument: Argument::Namespace,
            version: SupportedUUIDVersion::V3
        }
    );
    assert!(err.message().contains("namespace"));
    assert_eq!(err.message(), "the argument '--namespace' is required for UUID version 3");
}

#[test]
fn missing_name_and_data_are_reported() {
    let cmd = Commands::Uuid {
        version: SupportedUUIDVersion::V5,
        timestamp: None,
        namespace: Some(SupportedUUIDNamespace::DNS),
        name: None,
        node_id: None,
        data: None,
    };
    assert_eq!(
        validate_args(&cmd),
        Err(ValidationError::MissingRequiredArgument {
            argument: Argument::Name,
            version: SupportedUUIDVersion::V5
        })
    );
    assert_eq!(
        validate_args(&uuid_command(SupportedUUIDVersion::V8)),
        Err(ValidationError::MissingRequiredArgument {
            argument: Argument::Data,
            version: SupportedUUIDVersion::V8
        })
    );
}

#[test]
fn missing_arguments_come_before_timestamp_conflicts() {
    let cmd = Commands::Uuid {
        version: SupportedUUIDVersion::V3,
        timestamp: Some((1, 0)),
        namespace: None,
        name: None,
        node_id: None,
        data: None,
    };
    assert_eq!(
        validate_args(&cmd),
        Err(ValidationError::MissingRequiredArgument {
            argument: Argument::Namespace,
            version: SupportedUUIDVersion::V3
        })
    );
}

#[test]
fn timestamp_conflict_is_reported_by_name() {
    let cmd = Commands::Uuid {
        version: SupportedUUIDVersion::V4,
        timestamp: Some((1234567890, 0)),
        namespace: None,
        name: None,
        node_id: None,
        data: None,
    };
    let err = validate_args(&cmd).unwrap_err();
    assert_eq!(err, ValidationError::UuidTimestampVersionMismatch { version: SupportedUUIDVersion::V4 });
    assert!(err.message().contains("timestamp"));
    assert_eq!(err.message(), "the argument '--timestamp' cannot be used with '--version 4'");
}

#[test]
fn zero_count_generates_nothing() {
    let g = Generator::from_command(&uuid_command(SupportedUUIDVersion::V4));
    assert!(g.generate_many(0).is_empty());
}

#[test]
fn count_gives_that_many_distinct_identifiers() {
    let g = Generator::from_command(&uuid_command(SupportedUUIDVersion::V4));
    let ids = g.generate_many(3);
    assert_eq!(ids.len(), 3);
    assert_ne!(ids[0], ids[1]);
    assert_ne!(ids[1], ids[2]);
    let u = Generator::from_command(&Commands::Ulid { timestamp: None }).generate_many(5);
    assert_eq!(u.len(), 5);
    assert!(u.iter().all(|s| s.len() == 26));
    let o = Generator::from_command(&Commands::ObjectId { timestamp: Some(0) }).generate_many(4);
    assert!(o.iter().all(|s| s.len() == 24 && s.starts_with("00000000")));
}

#[test]
fn request_builds_the_matching_generator() {
    let cmd = Commands::Uuid {
        version: SupportedUUIDVersion::V3,
        timestamp: None,
        namespace: Some(SupportedUUIDNamespace::DNS),
        name: Some(String::from("python.org")),
        node_id: None,
        data: None,
    };
    let g = Generator::from_command(&cmd);
    assert!(matches!(g, Generator::Uuid(UuidGenerator::V3 { .. })));
    assert_eq!(g.generate(), "6fa459ea-ee8a-3ca4-894e-db77e160355e");
    match Generator::from_command(&Commands::Ulid { timestamp: Some(5) }) {
        Generator::Ulid(u) => assert_eq!(u.timestamp, Some(5)),
        _ => panic!("Expected a ULID generator"),
    }
}

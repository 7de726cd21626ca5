use idgen::{Generate, ObjectIdGenerator};

// Checks that an ObjectId text is 24 lower-case hex digits.
fn assert_objectid_format(oid_str: &str) {
    assert_eq!(oid_str.len(), 24, "ObjectId should be 24 characters long");
    assert!(
        oid_str.chars().all(|c| c.is_ascii_hexdigit()),
        "ObjectId should only contain hex characters"
    );
    assert!(
        oid_str.chars().all(|c| !c.is_ascii_uppercase()),
        "ObjectId should be lower case"
    );
}

#[test]
fn objectid_test_new_without_timestamp() {
    let generator = ObjectIdGenerator::new(None);

    assert!(generator.timestamp.is_none());

    let oid_str = generator.generate();
    assert_objectid_format(&oid_str);
}

#[test]
fn objectid_test_new_with_timestamp() {
    let timestamp = 1234567890;
    let generator = ObjectIdGenerator::new(Some(timestamp));

    assert_eq!(generator.timestamp, Some(1234567890));

    let oid_str = generator.generate();
    assert_objectid_format(&oid_str);
}

#[test]
fn objectid_test_generate_without_timestamp() {
    let generator = ObjectIdGenerator::new(None);

    let oid = generator.generate();
    assert_objectid_format(&oid);
}

#[test]
fn objectid_test_generate_with_zero_timestamp() {
    let generator = ObjectIdGenerator::new(Some(0));

    let oid_str = generator.generate();
    assert_objectid_format(&oid_str);

    assert!(oid_str.starts_with("00000000"));
}

#[test]
fn test_generate_with_max_u32_timestamp() {
    let generator = ObjectIdGenerator::new(Some(u32::MAX));

    let oid_str = generator.generate();
    assert_objectid_format(&oid_str);

    assert!(oid_str.starts_with("ffffffff"));
}

#[test]
fn objectid_known_timestamp_prefix() {
    let s = ObjectIdGenerator::new(Some(1609459200)).generate();
    assert!(s.starts_with("5fee6600"));
    let t = ObjectIdGenerator::new(Some(1234567890)).generate();
    assert!(t.starts_with("499602d2"));
}

#[test]
fn objectid_same_timestamp_shares_prefix_but_differs_after() {
    let g = ObjectIdGenerator::new(Some(1234567890));
    let a = g.generate();
    let b = g.generate();
    assert_eq!(&a[..8], &b[..8]);
    assert_ne!(&a[8..], &b[8..]);
}

#[test]
fn objectid_fixed_timestamp_bytes() {
    let g = ObjectIdGenerator::new(Some(0x01020304));
    let b = g.generate_bytes();
    assert_eq!(&b[..4], &[1, 2, 3, 4]);
}

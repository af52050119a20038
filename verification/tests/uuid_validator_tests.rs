use up_core::uuid::UUID;
use up_core::uuid_builder::{UUIDv6Builder, UUIDv8Builder, UuidUtils};
use up_core::uuid_serializer::LongUuidSerializer;
use up_core::uuid_validator::{UuidValidator, UuidValidators};

fn from_raw_uuid(value: uuid::Uuid) -> UUID {
    let bits = value.as_u128();
    UUID {
        msb: (bits >> 64) as u64,
        lsb: bits as u64,
    }
}

#[test]
fn test_validator_with_good_uuid() {
    let uuid = UUIDv8Builder::new().build();
    let status = UuidValidators::get_validator(&uuid).validate(&uuid);
    assert!(status.is_ok());
}

#[test]
fn test_good_uuid_string() {
    let uuid = UUIDv8Builder::new().build();
    let status = UuidValidators::UUIDv8.validator().validate(&uuid);
    assert!(status.is_ok());
}

#[test]
fn test_invalid_uuid() {
    let uuid = UUID { msb: 0, lsb: 0 };
    let status = UuidValidators::get_validator(&uuid).validate(&uuid);
    assert!(status.is_err());
    assert!(status
        .as_ref()
        .unwrap_err()
        .to_string()
        .contains("Invalid UUID Version"));
    assert!(status
        .as_ref()
        .unwrap_err()
        .to_string()
        .contains("Invalid UUID Time"));
    assert!(status
        .as_ref()
        .unwrap_err()
        .to_string()
        .contains("Invalid UUID Variant"));
}

#[test]
fn test_invalid_time_uuid() {
    let uuid = UUIDv8Builder::new().build_with_instant(0);
    let status = UuidValidators::UUIDv8.validator().validate(&uuid);
    assert!(status.is_ok());
}

#[test]
fn test_uuidv8_with_invalid_types() {
    let uuidv6 = UUIDv6Builder::new().build();
    let uuid = UUID { msb: 0, lsb: 0 };
    let uuidv4 = from_raw_uuid(uuid::Uuid::new_v4());

    let validator = UuidValidators::UUIDv8.validator();

    let status = validator.validate(&uuidv6);
    assert!(status.is_err());
    assert_eq!(
        status.as_ref().unwrap_err().to_string(),
        "Not a UUIDv8 uuid"
    );

    let status1 = validator.validate(&uuid);
    assert!(status.is_err());
    assert!(status1
        .as_ref()
        .unwrap_err()
        .to_string()
        .contains("Not a UUIDv8 uuid"));
    assert!(status1
        .as_ref()
        .unwrap_err()
        .to_string()
        .contains("Invalid UUID Time"));

    let status2 = validator.validate(&uuidv4);
    assert!(status.is_err());
    assert!(status2
        .as_ref()
        .unwrap_err()
        .to_string()
        .contains("Not a UUIDv8 uuid"));
    assert!(status2
        .as_ref()
        .unwrap_err()
        .to_string()
        .contains("Invalid UUID Time"));
}

#[test]
fn test_good_uuidv6() {
    let uuid = UUIDv6Builder::new().build();
    let validator = UuidValidators::get_validator(&uuid);
    assert!(UuidUtils::is_v6(&uuid));
    let status = validator.validate(&uuid);
    assert!(status.is_ok());
}

#[test]
fn test_uuidv6_with_bad_variant() {
    if let Ok(uuid) =
        LongUuidSerializer::deserialize("1ee57e66-d33a-65e0-4a77-3c3f061c1e9e".to_string())
    {
        let validator = UuidValidators::get_validator(&uuid);
        let status = validator.validate(&uuid);
        assert!(status.is_err());
        assert_eq!(status.unwrap_err().to_string(), "Invalid UUIDv6 variant");
    }
}

#[test]
fn test_uuidv6_with_invalid_uuid() {
    let uuid = from_raw_uuid(uuid::Uuid::from_fields(9 << 12, 0, 0, &[0; 8]));
    let validator = UuidValidators::UUIDv6.validator();
    let status = validator.validate(&uuid);
    assert!(status.is_err());
    assert!(status
        .as_ref()
        .unwrap_err()
        .to_string()
        .contains("Not a UUIDv6 uuid"));
    assert!(status
        .as_ref()
        .unwrap_err()
        .to_string()
        .contains("Invalid UUID Time"));
    assert!(status
        .as_ref()
        .unwrap_err()
        .to_string()
        .contains("Invalid UUIDv6 variant"));
}

#[test]
fn test_uuidv6_with_null_uuid() {
    let uuid = UUID { msb: 0, lsb: 0 };
    let validator = UuidValidators::UUIDv6.validator();
    let status = validator.validate(&uuid);
    assert!(status.is_err());
    {
        let uuid = from_raw_uuid(uuid::Uuid::from_fields(9 << 12, 0, 0, &[0; 8]));
        let validator = UuidValidators::UUIDv6.validator();
        let status = validator.validate(&uuid);
        assert!(status.is_err());
        assert!(status
            .as_ref()
            .unwrap_err()
            .to_string()
            .contains("Not a UUIDv6 uuid"));
        assert!(status
            .as_ref()
            .unwrap_err()
            .to_string()
            .contains("Invalid UUID Time"));
        assert!(status
            .as_ref()
            .unwrap_err()
            .to_string()
            .contains("Invalid UUIDv6 variant"));
    }
}

#[test]
fn test_uuidv6_with_uuidv8() {
    let uuid = UUIDv8Builder::new().build();
    let validator = UuidValidators::UUIDv6.validator();
    let status = validator.validate(&uuid);
    assert!(status.is_err());
    assert_eq!(status.unwrap_err().to_string(), "Not a UUIDv6 uuid");
}

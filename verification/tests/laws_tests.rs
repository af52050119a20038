use up_core::uattributes::{UAttributesBuilder, UPriority};
use up_core::uattributes_validator::{is_expired_at, UAttributesValidator, Validators};
use up_core::cloudevent_validator::CloudEventValidators;
use up_core::uri::{Remote, UAuthority, UEntity, UResource, UUri};
use up_core::uri_serializer::LongUriSerializer;
use up_core::uri_validator::UriValidator;
use up_core::uuid::UUID;
use up_core::uuid_builder::{UUIDv8Builder, UuidUtils};

fn as_u128(u: &UUID) -> u128 {
    ((u.msb as u128) << 64) | (u.lsb as u128)
}

fn request_sink() -> UUri {
    LongUriSerializer::deserialize("//VCU.myvin/body.access/1/rpc.UpdateDoor".to_string())
}

#[test]
fn scenario_topic_address_with_and_without_message_type() {
    let with_type = LongUriSerializer::deserialize("/body.access/1/door.front_left#Door".to_string());
    assert!(UriValidator::validate(&with_type).is_success());
    assert!(UriValidator::validate_topic(&with_type).is_success());

    let without_type = LongUriSerializer::deserialize("/body.access/1/door.front_left".to_string());
    assert!(UriValidator::validate(&without_type).is_success());
    let status = UriValidator::validate_topic(&without_type);
    assert!(status.is_failure());
    assert_eq!(
        status.get_message(),
        "UriPart is missing Message information."
    );
}

#[test]
fn scenario_topic_address_with_blank_resource_name() {
    let uri = UUri {
        authority: Some(UAuthority {
            remote: None,
            marked_remote: false,
        }),
        entity: Some(UEntity {
            name: "body.access".to_string(),
            version_major: None,
            id: None,
        }),
        resource: Some(UResource {
            name: " ".to_string(),
            instance: None,
            message: Some("Door".to_string()),
            id: None,
        }),
    };
    let status = UriValidator::validate_topic(&uri);
    assert!(status.is_failure());
    assert_eq!(status.get_message(), "UriPart is missing uResource name.");
}

#[test]
fn scenario_rpc_response_topic_address() {
    let good = LongUriSerializer::deserialize("//bo.cloud/petapp//rpc.response".to_string());
    assert!(UriValidator::validate_rpc_response_topic(&good).is_success());

    let wrong = LongUriSerializer::deserialize("//bo.cloud/petapp//rpc.wrong".to_string());
    let status = UriValidator::validate_rpc_response_topic(&wrong);
    assert!(status.is_failure());
    assert_eq!(
        status.get_message(),
        "Invalid RPC uri application response topic. UriPart is missing rpc.response."
    );

    let empty = LongUriSerializer::deserialize("".to_string());
    let status = UriValidator::validate_rpc_response_topic(&empty);
    assert!(status.is_failure());
    assert_eq!(
        status.get_message(),
        "Invalid RPC uri application response topic. Uri is empty."
    );
}

#[test]
fn scenario_request_attributes_with_method_sink_and_ttl() {
    let ok = UAttributesBuilder::request(UPriority::UpriorityCs4, request_sink(), 1000).build();
    assert!(Validators::Request.validator().validate(&ok).is_ok());

    let bad = UAttributesBuilder::request(UPriority::UpriorityCs4, request_sink(), 0).build();
    let status = Validators::Request.validator().validate(&bad);
    assert!(status.is_err());
    assert_eq!(status.unwrap_err().to_string(), "Invalid TTL [0]");
}

#[test]
fn scenario_response_attributes_with_zero_correlation_id() {
    let attributes = UAttributesBuilder::response(
        UPriority::UpriorityCs4,
        LongUriSerializer::deserialize("//VCU.myvin/body.access/1/rpc.UpdateDoor".to_string()),
        UUID::default(),
    )
    .with_ttl(1000)
    .with_permission_level(2)
    .with_commstatus(3)
    .build();
    let status = Validators::Response.validator().validate(&attributes);
    assert!(status.is_err());
    assert_eq!(status.unwrap_err().to_string(), "Missing correlation Id");
}

#[test]
fn scenario_expiration_checked_against_a_clock_reading() {
    let mut minter = UUIDv8Builder::new();
    let created: u64 = 1_700_000_000_000;
    let id = minter.build_with_instant(created);
    assert_eq!(UuidUtils::get_time(&id), Some(created));

    let attributes = UAttributesBuilder::publish(UPriority::UpriorityCs0)
        .with_ttl(1)
        .build();
    let mut stamped = attributes.clone();
    stamped.id = Some(id);

    // validated 800 ms after creation: the one-millisecond ttl has passed
    let late = is_expired_at(&stamped, created + 800);
    assert!(late.is_err());
    assert_eq!(late.unwrap_err().to_string(), "Payload is expired");

    // validated immediately: not expired
    assert!(is_expired_at(&stamped, created).is_ok());

    // without a positive ttl the message never expires
    let mut no_ttl = stamped.clone();
    no_ttl.ttl = None;
    assert!(is_expired_at(&no_ttl, created + 1_000_000).is_ok());
    let mut zero_ttl = stamped.clone();
    zero_ttl.ttl = Some(0);
    assert!(is_expired_at(&zero_ttl, created + 1_000_000).is_ok());
}

#[test]
fn law_validation_aggregates_every_failure() {
    let attributes = UAttributesBuilder::publish(UPriority::UpriorityCs0)
        .with_ttl(0)
        .with_commstatus(-42)
        .build();
    let status = Validators::Publish.validator().validate(&attributes);
    assert!(status.is_err());
    let message = status.unwrap_err().to_string();
    assert!(message.contains("Invalid TTL [0]"));
    assert!(message.contains("Invalid Communication Status Code [-42]"));
    assert_eq!(
        message,
        "Invalid TTL [0]; Invalid Communication Status Code [-42]"
    );
}

#[test]
fn law_canonical_long_form_text_round_trips() {
    let samples = [
        "/hartley",
        "/hartley/1",
        "/petapp//rpc.response",
        "/body.access/1/door.front_left#Door",
        "//VCU.myvin/body.access/1/rpc.UpdateDoor",
        "//bo.cloud/petapp//rpc.response",
        "//VCU.MY_CAR_VIN/body.access/4294967295/door.front_left#Door",
    ];
    for sample in samples {
        let parsed = LongUriSerializer::deserialize(sample.to_string());
        assert_eq!(LongUriSerializer::serialize(&parsed), *sample);
        assert_eq!(parsed.to_string(), *sample);
    }

    // a version that does not fit degrades the whole address to empty
    let too_big = LongUriSerializer::deserialize("/body.access/4294967296/door".to_string());
    assert!(UriValidator::is_empty(&too_big));
}

#[test]
fn law_identifier_text_round_trips() {
    let uuid = UUID::from_u64_pair(0x0000000000018000, 0x8010101010101a1a).unwrap();
    let text = uuid.to_hyphenated_string();
    assert_eq!(text.len(), 36);
    let back = UUID::parse(text.as_str()).unwrap();
    assert_eq!(back, uuid);
}

#[test]
fn law_creation_time_requires_both_bit_patterns() {
    // valid version and variant: the 48-bit field value comes back
    let good = UUID {
        msb: 0x018D548EA8E08000,
        lsb: 0x8000000000000000,
    };
    assert_eq!(good.get_time(), Some(0x018D548EA8E0));

    // wrong version: no timestamp, never a garbage value
    let bad_version = UUID {
        msb: 0x018D548EA8E0C000,
        lsb: 0x8000000000000000,
    };
    assert_eq!(bad_version.get_time(), None);

    // wrong variant: no timestamp
    let bad_variant = UUID {
        msb: 0x018D548EA8E08000,
        lsb: 0x4000000000000000,
    };
    assert_eq!(bad_variant.get_time(), None);
}

#[test]
fn law_same_instant_identifiers_order_by_counter() {
    let mut minter = UUIDv8Builder::new();
    let instant: u64 = 1_700_000_000_123;
    let first = minter.build_with_instant(instant);
    let second = minter.build_with_instant(instant);
    let third = minter.build_with_instant(instant);
    assert_eq!(UuidUtils::get_time(&first), Some(instant));
    assert_eq!(UuidUtils::get_time(&second), Some(instant));
    assert!(as_u128(&first) < as_u128(&second));
    assert!(as_u128(&second) < as_u128(&third));

    // a later millisecond orders above an earlier one
    let later = minter.build_with_instant(instant + 1);
    assert!(as_u128(&third) < as_u128(&later));
}

#[test]
fn law_every_address_error_reason_is_distinct() {
    let empty = UUri::default();
    assert_eq!(
        UriValidator::validate(&empty).get_message(),
        "Uri is empty."
    );

    let remote_unnamed = UUri {
        authority: Some(UAuthority::default()),
        entity: Some(UEntity {
            name: "hartley".to_string(),
            version_major: None,
            id: None,
        }),
        resource: Some(UResource::default()),
    };
    assert_eq!(
        UriValidator::validate(&remote_unnamed).get_message(),
        "Uri is remote missing uAuthority."
    );

    let blank_entity = UUri {
        authority: Some(UAuthority {
            remote: None,
            marked_remote: false,
        }),
        entity: Some(UEntity {
            name: "  ".to_string(),
            version_major: None,
            id: None,
        }),
        resource: Some(UResource::default()),
    };
    assert_eq!(
        UriValidator::validate(&blank_entity).get_message(),
        "Uri is missing uSoftware Entity name."
    );

    let not_method = LongUriSerializer::deserialize("/hartley//door".to_string());
    assert_eq!(
        UriValidator::validate_rpc_method(&not_method).get_message(),
        "Invalid RPC method uri. Uri should be the method to be called, or method from response."
    );

    let response_shaped = LongUriSerializer::deserialize("/hartley//rpc.response".to_string());
    assert_eq!(
        UriValidator::validate_rpc_response(&response_shaped).get_message(),
        "Invalid RPC response type."
    );

    // a method-shaped address that is not response-shaped is accepted as a
    // response target
    let method_shaped = LongUriSerializer::deserialize("/hartley//rpc.echo".to_string());
    assert!(UriValidator::validate_rpc_response(&method_shaped).is_success());

    let plain = LongUriSerializer::deserialize("/hartley//door#Door".to_string());
    assert!(UriValidator::validate_rpc_response(&plain).is_success());
}

#[test]
fn law_event_validator_selection_falls_back_to_publish() {
    assert_eq!(
        CloudEventValidators::get_validator("UMESSAGE_TYPE_RESPONSE"),
        CloudEventValidators::Response
    );
    assert_eq!(
        CloudEventValidators::get_validator("UMESSAGE_TYPE_REQUEST"),
        CloudEventValidators::Request
    );
    assert_eq!(
        CloudEventValidators::get_validator("UMESSAGE_TYPE_PUBLISH"),
        CloudEventValidators::Publish
    );
    assert_eq!(
        CloudEventValidators::get_validator("UMESSAGE_TYPE_UNSPECIFIED"),
        CloudEventValidators::Publish
    );
    assert_eq!(
        CloudEventValidators::get_validator("something.else"),
        CloudEventValidators::Publish
    );
    assert_eq!(
        CloudEventValidators::Notification.validator(),
        CloudEventValidators::Notification
    );
}

#[test]
fn law_validation_passes_iff_address_not_empty_and_well_formed() {
    // an address that passes validation is never empty
    let passing = LongUriSerializer::deserialize("/hartley".to_string());
    assert!(UriValidator::validate(&passing).is_success());
    assert!(!UriValidator::is_empty(&passing));

    // emptiness holds exactly when a structural slot is absent
    let mut u = UUri::default();
    assert!(UriValidator::is_empty(&u));
    u.authority = Some(UAuthority::default());
    assert!(UriValidator::is_empty(&u));
    u.entity = Some(UEntity::default());
    assert!(UriValidator::is_empty(&u));
    u.resource = Some(UResource::default());
    assert!(!UriValidator::is_empty(&u));
}

use up_core::uattributes::{UAttributesBuilder, UPriority};
use up_core::uattributes_validator::{UAttributesValidator, Validators};
use up_core::uri::{Remote, UAuthority, UEntity, UResource, UUri};
use up_core::uuid::UUID;
use up_core::uuid_builder::UUIDv8Builder;

fn build_sink() -> UUri {
    UUri {
        authority: Some(UAuthority {
            remote: Some(Remote::Name("vcu.someVin.veh.uprotocol.corp.com".to_string())),
            marked_remote: true,
        }),
        entity: Some(UEntity {
            name: "petapp.uprotocol.corp.com".to_string(),
            version_major: Some(1),
            id: None,
        }),
        resource: Some(UResource {
            name: "rpc".to_string(),
            instance: Some("response".to_string()),
            message: None,
            id: None,
        }),
    }
}

fn build_method_sink() -> UUri {
    UUri {
        authority: Some(UAuthority {
            remote: Some(Remote::Name("VCU.myvin".to_string())),
            marked_remote: true,
        }),
        entity: Some(UEntity {
            name: "body.access".to_string(),
            version_major: Some(1),
            id: None,
        }),
        resource: Some(UResource {
            name: "rpc".to_string(),
            instance: Some("UpdateDoor".to_string()),
            message: None,
            id: None,
        }),
    }
}

fn from_raw_uuid(value: uuid::Uuid) -> UUID {
    let bits = value.as_u128();
    UUID {
        msb: (bits >> 64) as u64,
        lsb: bits as u64,
    }
}

#[test]
fn test_fetching_validator_for_valid_types() {
    // Test for PUBLISH type
    let publish_attributes = UAttributesBuilder::publish(UPriority::UpriorityCs0).build();
    let publish_validator = Validators::get_validator(&publish_attributes);
    assert_eq!(
        publish_validator.validator_name(),
        "UAttributesValidator.Publish"
    );

    // Test for REQUEST type
    let request_attributes =
        UAttributesBuilder::request(UPriority::UpriorityCs4, build_sink(), 1000).build();
    let request_validator = Validators::get_validator(&request_attributes);
    assert_eq!(
        request_validator.validator_name(),
        "UAttributesValidator.Request"
    );

    // Test for RESPONSE type
    let response_attributes =
        UAttributesBuilder::response(UPriority::UpriorityCs4, UUri::default(), UUID::default())
            .build();
    let response_validator = Validators::get_validator(&response_attributes);
    assert_eq!(
        response_validator.validator_name(),
        "UAttributesValidator.Response"
    );
}

#[test]
fn test_validate_attributes_for_publish_message_payload() {
    let attributes = UAttributesBuilder::publish(UPriority::UpriorityCs0).build();
    let validator = Validators::Publish.validator();
    let status = validator.validate(&attributes);
    assert!(status.is_ok());
}

#[test]
fn test_validate_attributes_for_publish_message_payload_all_values() {
    let attributes = UAttributesBuilder::publish(UPriority::UpriorityCs0)
        .with_ttl(1000)
        .with_sink(build_sink())
        .with_permission_level(2)
        .with_commstatus(3)
        .with_reqid(UUIDv8Builder::new().build())
        .build();
    let validator = Validators::Publish.validator();
    let status = validator.validate(&attributes);
    assert!(status.is_ok());
}

#[test]
fn test_validate_attributes_for_publish_message_payload_invalid_type() {
    let attributes = UAttributesBuilder::response(
        UPriority::UpriorityCs0,
        build_sink(),
        UUIDv8Builder::new().build(),
    )
    .build();

    let validator = Validators::Publish.validator();
    let status = validator.validate(&attributes);
    assert!(status.is_err());
    assert_eq!(
        status.unwrap_err().to_string(),
        "Wrong Attribute Type [UMESSAGE_TYPE_RESPONSE]"
    );
}

#[test]
fn test_validate_attributes_for_publish_message_payload_invalid_ttl() {
    let attributes = UAttributesBuilder::publish(UPriority::UpriorityCs0)
        .with_ttl(0)
        .build();

    let validator = Validators::Publish.validator();
    let status = validator.validate(&attributes);
    assert!(status.is_err());
    assert_eq!(status.unwrap_err().to_string(), "Invalid TTL [0]");
}

#[test]
fn test_validate_attributes_for_publish_message_payload_invalid_sink() {
    let attributes = UAttributesBuilder::publish(UPriority::UpriorityCs0)
        .with_sink(UUri::default())
        .build();

    let validator = Validators::Publish.validator();
    let status = validator.validate(&attributes);
    assert!(status.is_err());
    assert_eq!(status.unwrap_err().to_string(), "Uri is empty");
}

#[test]
fn test_validate_attributes_for_publish_message_payload_invalid_permission_level() {
    let attributes = UAttributesBuilder::publish(UPriority::UpriorityCs0)
        .with_permission_level(0)
        .build();

    let validator = Validators::Publish.validator();
    let status = validator.validate(&attributes);
    assert!(status.is_err());
    assert_eq!(status.unwrap_err().to_string(), "Invalid Permission Level");
}

#[test]
fn test_validate_attributes_for_publish_message_payload_communication_status() {
    let attributes = UAttributesBuilder::publish(UPriority::UpriorityCs0)
        .with_commstatus(-42)
        .build();

    let validator = Validators::Publish.validator();
    let status = validator.validate(&attributes);
    assert!(status.is_err());
    assert_eq!(
        status.unwrap_err().to_string(),
        "Invalid Communication Status Code [-42]"
    );
}

#[test]
fn test_validate_attributes_for_publish_message_payload_request_id() {
    let attributes = UAttributesBuilder::publish(UPriority::UpriorityCs0)
        .with_reqid(from_raw_uuid(uuid::Uuid::new_v4()))
        .build();

    let validator = Validators::Publish.validator();
    let status = validator.validate(&attributes);
    assert!(status.is_err());
    assert_eq!(status.unwrap_err().to_string(), "Invalid UUID");
}

#[test]
fn test_validate_attributes_for_rpc_request_message_payload_invalid_sink() {
    let attributes =
        UAttributesBuilder::request(UPriority::UpriorityCs4, UUri::default(), 1000).build();

    let validator = Validators::Request.validator();
    let status = validator.validate(&attributes);
    assert!(status.is_err());
    assert_eq!(status.unwrap_err().to_string(), "Uri is empty");
}

#[test]
fn test_validate_attributes_for_rpc_response_message_payload() {
    let attributes = UAttributesBuilder::response(
        UPriority::UpriorityCs4,
        build_sink(),
        UUIDv8Builder::new().build(),
    )
    .build();

    let validator = Validators::Response.validator();
    let status = validator.validate(&attributes);
    assert!(status.is_ok());
}

#[test]
fn test_validate_attributes_for_rpc_response_message_payload_all_values() {
    let attributes = UAttributesBuilder::response(
        UPriority::UpriorityCs4,
        build_sink(),
        UUIDv8Builder::new().build(),
    )
    .with_permission_level(2)
    .with_commstatus(3)
    .build();

    let validator = Validators::Response.validator();
    let status = validator.validate(&attributes);
    assert!(status.is_ok());
}

#[test]
fn test_validate_attributes_for_rpc_response_message_payload_invalid_type() {
    let attributes =
        UAttributesBuilder::notification(UPriority::UpriorityCs4, build_sink()).build();

    let validator = Validators::Response.validator();
    let status = validator.validate(&attributes);
    assert!(status.is_err());
    assert!(status
        .as_ref()
        .unwrap_err()
        .to_string()
        .contains("Wrong Attribute Type [UMESSAGE_TYPE_PUBLISH]"));
    assert!(status
        .as_ref()
        .unwrap_err()
        .to_string()
        .contains("Missing correlation Id"));
}

#[test]
fn test_validate_attributes_for_rpc_response_message_payload_invalid_ttl() {
    let attributes = UAttributesBuilder::response(
        UPriority::UpriorityCs4,
        build_sink(),
        UUIDv8Builder::new().build(),
    )
    .with_ttl(0)
    .build();

    let validator = Validators::Response.validator();
    let status = validator.validate(&attributes);
    assert!(status.is_err());
    assert_eq!(status.unwrap_err().to_string(), "Invalid TTL [0]");
}

#[test]
fn test_validate_attributes_for_rpc_response_message_payload_invalid_permission_level() {
    let attributes = UAttributesBuilder::response(
        UPriority::UpriorityCs4,
        build_sink(),
        UUIDv8Builder::new().build(),
    )
    .with_permission_level(0)
    .build();

    let validator = Validators::Response.validator();
    let status = validator.validate(&attributes);
    assert!(status.is_err());
    assert_eq!(status.unwrap_err().to_string(), "Invalid Permission Level");
}

#[test]
fn test_validate_attributes_for_rpc_response_message_payload_invalid_communication_status() {
    let attributes = UAttributesBuilder::response(
        UPriority::UpriorityCs4,
        build_sink(),
        UUIDv8Builder::new().build(),
    )
    .with_commstatus(-42)
    .build();

    let validator = Validators::Response.validator();
    let status = validator.validate(&attributes);
    assert!(status.is_err());
    assert_eq!(
        status.unwrap_err().to_string(),
        "Invalid Communication Status Code [-42]"
    );
}

#[test]
fn test_validate_attributes_for_rpc_response_message_payload_missing_request_id() {
    let attributes_builder =
        UAttributesBuilder::response(UPriority::UpriorityCs4, build_sink(), UUID::default());
    let attributes = attributes_builder.build();

    let validator = Validators::Response.validator();
    let status = validator.validate(&attributes);
    assert!(status.is_err());
    assert_eq!(status.unwrap_err().to_string(), "Missing correlation Id");
}

#[test]
fn test_validate_attributes_for_rpc_response_message_payload_invalid_request_id() {
    let attributes = UAttributesBuilder::response(
        UPriority::UpriorityCs4,
        build_sink(),
        UUIDv8Builder::new().build(),
    )
    .with_reqid(from_raw_uuid(uuid::Uuid::new_v4()))
    .build();

    let validator = Validators::Response.validator();
    let status = validator.validate(&attributes);
    assert!(status.is_err());
    assert_eq!(status.unwrap_err().to_string(), "Missing correlation Id");
}

#[test]
fn test_validate_attributes_for_publish_message_payload_not_expired() {
    let attributes = UAttributesBuilder::publish(UPriority::UpriorityCs0).build();

    let validator = Validators::Publish.validator();
    let status = validator.is_expired(&attributes);
    assert!(status.is_ok());
}

#[test]
fn test_validate_attributes_for_publish_message_payload_not_expired_with_ttl_zero() {
    let attributes = UAttributesBuilder::publish(UPriority::UpriorityCs0)
        .with_ttl(0)
        .build();

    let validator = Validators::Publish.validator();
    let status = validator.is_expired(&attributes);
    assert!(status.is_ok());
}

#[test]
fn test_validate_attributes_for_publish_message_payload_not_expired_with_ttl() {
    let attributes = UAttributesBuilder::publish(UPriority::UpriorityCs0)
        .with_ttl(10000)
        .build();

    let validator = Validators::Publish.validator();
    let status = validator.is_expired(&attributes);
    assert!(status.is_ok());
}

#[test]
fn test_validating_request_containing_token() {
    let attributes = UAttributesBuilder::publish(UPriority::UpriorityCs0)
        .with_token("None")
        .build();

    let validator = Validators::get_validator(&attributes);
    assert_eq!("UAttributesValidator.Publish", validator.validator_name());
    let status = validator.validate(&attributes);
    assert!(status.is_ok());
}

#[test]
fn test_validate_attributes_for_rpc_request_with_method_sink() {
    // a request's sink names the method to call; a method-shaped sink that
    // is not response-shaped passes the request validator
    let attributes =
        UAttributesBuilder::request(UPriority::UpriorityCs4, build_method_sink(), 1000).build();

    let validator = Validators::Request.validator();
    let status = validator.validate(&attributes);
    assert!(status.is_ok());
}

#[test]
fn test_validate_attributes_for_rpc_request_missing_sink_and_ttl() {
    let attributes = UAttributesBuilder::publish(UPriority::UpriorityCs4).build();
    let mut request_shaped = attributes.clone();
    request_shaped.message_type = 2;

    let validator = Validators::Request.validator();
    let status = validator.validate(&request_shaped);
    assert!(status.is_err());
    let message = status.unwrap_err().to_string();
    assert!(message.contains("Missing TTL"));
    assert!(message.contains("Missing Sink"));
}

#[test]
fn test_validate_attributes_unknown_type_tag() {
    let mut attributes = UAttributesBuilder::publish(UPriority::UpriorityCs0).build();
    attributes.message_type = 99;

    let validator = Validators::get_validator(&attributes);
    assert_eq!("UAttributesValidator.Publish", validator.validator_name());
    let status = validator.validate(&attributes);
    assert!(status.is_err());
    assert_eq!(
        status.unwrap_err().to_string(),
        "Unknown Attribute Type [99]"
    );
}

use up_core::uri::{Remote, UAuthority, UEntity, UResource, UUri};
use up_core::uri_serializer::LongUriSerializer;
use up_core::uri_validator::UriValidator;

#[test]
fn test_validate_blank_uri() {
    let uri = LongUriSerializer::deserialize("".to_string());
    let status = UriValidator::validate(&uri);
    assert!(UriValidator::is_empty(&uri));
    assert_eq!("Uri is empty.", status.get_message());
}

#[test]
fn test_validate_uri_with_get_entity() {
    let uri = LongUriSerializer::deserialize("/hartley".to_string());
    let status = UriValidator::validate(&uri);
    assert!(status.is_success());
}

#[test]
fn test_validate_with_malformed_uri() {
    let uri = LongUriSerializer::deserialize("hartley".to_string());
    let status = UriValidator::validate(&uri);
    assert!(UriValidator::is_empty(&uri));
    assert_eq!("Uri is empty.", status.get_message());
}

#[test]
fn test_validate_with_blank_uentity_name_uri() {
    let uri = UUri::default();
    let status = UriValidator::validate(&uri);
    assert!(status.is_failure());
    assert_eq!("Uri is empty.", status.get_message());
}

#[test]
fn test_validate_rpc_method_with_valid_uri() {
    let uri = LongUriSerializer::deserialize("/hartley//rpc.echo".to_string());
    let status = UriValidator::validate_rpc_method(&uri);
    assert!(status.is_success());
}

#[test]
fn test_validate_rpc_method_with_invalid_uri() {
    let uri = LongUriSerializer::deserialize("/hartley/echo".to_string());
    let status = UriValidator::validate_rpc_method(&uri);
    assert!(status.is_failure());
    assert_eq!("Uri is empty.", status.get_message());
}

#[test]
fn test_validate_rpc_method_with_malformed_uri() {
    let uri = LongUriSerializer::deserialize("hartley".to_string());
    let status = UriValidator::validate_rpc_method(&uri);
    assert!(UriValidator::is_empty(&uri));
    assert!(status.is_failure());
    assert_eq!("Uri is empty.", status.get_message());
}

#[test]
fn test_validate_rpc_response_with_malformed_uri() {
    let uri = LongUriSerializer::deserialize("hartley".to_string());
    let status = UriValidator::validate_rpc_response(&uri);
    assert!(UriValidator::is_empty(&uri));
    assert!(status.is_failure());
    assert_eq!("Uri is empty.", status.get_message());
}

#[test]
fn test_topic_uri_with_version_when_it_is_valid_remote() {
    let uri = "//VCU.MY_CAR_VIN/body.access/1/door.front_left#Door".to_string();
    let status = UriValidator::validate(&LongUriSerializer::deserialize(uri));
    assert!(status.is_success());
}

#[test]
fn test_topic_uri_no_version_when_it_is_valid_remote() {
    let uri = "//VCU.MY_CAR_VIN/body.access//door.front_left#Door".to_string();
    let status = UriValidator::validate(&LongUriSerializer::deserialize(uri));
    assert!(status.is_success());
}

#[test]
fn test_topic_uri_with_version_when_it_is_valid_local() {
    let uri = "/body.access/1/door.front_left#Door".to_string();
    let status = UriValidator::validate(&LongUriSerializer::deserialize(uri));
    assert!(status.is_success());
}

#[test]
fn test_topic_uri_no_version_when_it_is_valid_local() {
    let uri = "/body.access//door.front_left#Door".to_string();
    let status = UriValidator::validate(&LongUriSerializer::deserialize(uri));
    assert!(status.is_success());
}

#[test]
fn test_topic_uri_invalid_when_uri_has_schema_only() {
    let uri = ":".to_string();
    let status = UriValidator::validate(&LongUriSerializer::deserialize(uri));
    assert!(status.is_failure());
}

#[test]
fn test_topic_uri_invalid_when_uri_has_empty_use_name_local() {
    let uri = "/".to_string();
    let status = UriValidator::validate(&LongUriSerializer::deserialize(uri));
    assert!(status.is_failure());
}

#[test]
fn test_topic_uri_invalid_when_uri_is_remote_no_authority() {
    let uri = "//".to_string();
    let status = UriValidator::validate(&LongUriSerializer::deserialize(uri));
    assert!(status.is_failure());
}

#[test]
fn test_topic_uri_invalid_when_uri_is_remote_no_authority_with_use() {
    let uri = "///body.access/1/door.front_left#Door".to_string();
    let status = UriValidator::validate(&LongUriSerializer::deserialize(uri));
    assert!(status.is_failure());
}

#[test]
fn test_topic_uri_invalid_when_uri_is_missing_use_remote() {
    let uri = "//VCU.myvin///door.front_left#Door".to_string();
    let status = UriValidator::validate(&LongUriSerializer::deserialize(uri));
    assert!(status.is_failure());
}

#[test]
fn test_topic_uri_invalid_when_uri_is_missing_use_name_remote() {
    let uri = "/1/door.front_left#Door".to_string();
    let status = UriValidator::validate(&LongUriSerializer::deserialize(uri));
    assert!(status.is_failure());
}

#[test]
fn test_topic_uri_invalid_when_uri_is_missing_use_name_local() {
    let uri = "//VCU.myvin//1".to_string();
    let status = UriValidator::validate(&LongUriSerializer::deserialize(uri));
    assert!(status.is_failure());
}

#[test]
fn test_rpc_topic_uri_with_version_when_it_is_valid_remote() {
    let uri = "//bo.cloud/petapp/1/rpc.response".to_string();
    let status = UriValidator::validate_rpc_method(&LongUriSerializer::deserialize(uri));
    assert!(status.is_success());
}

#[test]
fn test_rpc_topic_uri_no_version_when_it_is_valid_remote() {
    let uri = "//bo.cloud/petapp//rpc.response".to_string();
    let status = UriValidator::validate_rpc_method(&LongUriSerializer::deserialize(uri));
    assert!(status.is_success());
}

#[test]
fn test_rpc_topic_uri_with_version_when_it_is_valid_local() {
    let uri = "/petapp/1/rpc.response".to_string();
    let status = UriValidator::validate_rpc_method(&LongUriSerializer::deserialize(uri));
    assert!(status.is_success());
}

#[test]
fn test_rpc_topic_uri_no_version_when_it_is_valid_local() {
    let uri = "/petapp//rpc.response".to_string();
    let status = UriValidator::validate_rpc_method(&LongUriSerializer::deserialize(uri));
    assert!(status.is_success());
}

#[test]
fn test_rpc_topic_uri_invalid_when_uri_has_schema_only() {
    let uri = ":".to_string();
    let status = UriValidator::validate_rpc_method(&LongUriSerializer::deserialize(uri));
    assert!(status.is_failure());
}

#[test]
fn test_rpc_topic_uri_with_version_when_it_is_not_valid_missing_rpc_response_local() {
    let uri = "/petapp/1/dog".to_string();
    let status = UriValidator::validate_rpc_method(&LongUriSerializer::deserialize(uri));
    assert!(status.is_failure());
}

#[test]
fn test_rpc_topic_uri_with_version_when_it_is_not_valid_missing_rpc_response_remote() {
    let uri = "//petapp/1/dog".to_string();
    let status = UriValidator::validate_rpc_method(&LongUriSerializer::deserialize(uri));
    assert!(status.is_failure());
}

#[test]
fn test_rpc_topic_uri_invalid_when_uri_is_remote_no_authority() {
    let uri = "//".to_string();
    let status = UriValidator::validate_rpc_method(&LongUriSerializer::deserialize(uri));
    assert!(status.is_failure());
}

#[test]
fn test_rpc_topic_uri_invalid_when_uri_is_remote_no_authority_with_use() {
    let uri = "///body.access/1".to_string();
    let status = UriValidator::validate_rpc_method(&LongUriSerializer::deserialize(uri));
    assert!(status.is_failure());
}

#[test]
fn test_rpc_topic_uri_invalid_when_uri_is_missing_use() {
    let uri = "//VCU.myvin".to_string();
    let status = UriValidator::validate_rpc_method(&LongUriSerializer::deserialize(uri));
    assert!(status.is_failure());
}

#[test]
fn test_rpc_topic_uri_invalid_when_uri_is_missing_use_name_remote() {
    let uri = "/1".to_string();
    let status = UriValidator::validate_rpc_method(&LongUriSerializer::deserialize(uri));
    assert!(status.is_failure());
}

#[test]
fn test_rpc_topic_uri_invalid_when_uri_is_missing_use_name_local() {
    let uri = "//VCU.myvin//1".to_string();
    let status = UriValidator::validate_rpc_method(&LongUriSerializer::deserialize(uri));
    assert!(status.is_failure());
}

#[test]
fn test_rpc_method_uri_with_version_when_it_is_valid_remote() {
    let uri = "//VCU.myvin/body.access/1/rpc.UpdateDoor".to_string();
    let status = UriValidator::validate_rpc_method(&LongUriSerializer::deserialize(uri));
    assert!(status.is_success());
}

#[test]
fn test_rpc_method_uri_no_version_when_it_is_valid_remote() {
    let uri = "//VCU.myvin/body.access//rpc.UpdateDoor".to_string();
    let status = UriValidator::validate_rpc_method(&LongUriSerializer::deserialize(uri));
    assert!(status.is_success());
}

#[test]
fn test_rpc_method_uri_with_version_when_it_is_valid_local() {
    let uri = "/body.access/1/rpc.UpdateDoor".to_string();
    let status = UriValidator::validate_rpc_method(&LongUriSerializer::deserialize(uri));
    assert!(status.is_success());
}

#[test]
fn test_rpc_method_uri_no_version_when_it_is_valid_local() {
    let uri = "/body.access//rpc.UpdateDoor".to_string();
    let status = UriValidator::validate_rpc_method(&LongUriSerializer::deserialize(uri));
    assert!(status.is_success());
}

#[test]
fn test_rpc_method_uri_invalid_when_uri_has_schema_only() {
    let uri = ":".to_string();
    let status = UriValidator::validate_rpc_method(&LongUriSerializer::deserialize(uri));
    assert!(status.is_failure());
}

#[test]
fn test_rpc_method_uri_with_version_when_it_is_not_valid_not_rpc_method_local() {
    let uri = "/body.access//UpdateDoor".to_string();
    let status = UriValidator::validate_rpc_method(&LongUriSerializer::deserialize(uri));
    assert!(status.is_failure());
}

#[test]
fn test_rpc_method_uri_with_version_when_it_is_not_valid_not_rpc_method_remote() {
    let uri = "//body.access/1/UpdateDoor".to_string();
    let status = UriValidator::validate_rpc_method(&LongUriSerializer::deserialize(uri));
    assert!(status.is_failure());
}

#[test]
fn test_rpc_method_uri_invalid_when_uri_is_remote_no_authority() {
    let uri = "//".to_string();
    let status = UriValidator::validate_rpc_method(&LongUriSerializer::deserialize(uri));
    assert!(status.is_failure());
}

#[test]
fn test_rpc_method_uri_invalid_when_uri_is_remote_no_authority_with_use() {
    let uri = "///body.access/1/rpc.UpdateDoor".to_string();
    let uuri = LongUriSerializer::deserialize(uri);
    let status = UriValidator::validate_rpc_method(&uuri);
    assert_eq!("", &uuri.to_string());
    assert!(status.is_failure());
}

#[test]
fn test_rpc_method_uri_invalid_when_uri_is_remote_missing_authority_remotecase() {
    let entity = UEntity {
        name: "body.access".into(),
        ..Default::default()
    };
    let resource = UResource {
        name: "rpc".into(),
        instance: Some("UpdateDoor".into()),
        ..Default::default()
    };
    let uuri = UUri {
        entity: Some(entity),
        resource: Some(resource),
        authority: Some(UAuthority::default()),
    };

    let status = UriValidator::validate_rpc_method(&uuri);
    assert!(status.is_failure());
    assert_eq!("Uri is remote missing uAuthority.", status.get_message());
}

#[test]
fn test_rpc_method_uri_invalid_when_uri_is_missing_use() {
    let uri = "//VCU.myvin".to_string();
    let status = UriValidator::validate_rpc_method(&LongUriSerializer::deserialize(uri));
    assert!(status.is_failure());
}

#[test]
fn test_rpc_method_uri_invalid_when_uri_is_missing_use_name_local() {
    let uri = "/1/rpc.UpdateDoor".to_string();
    let status = UriValidator::validate_rpc_method(&LongUriSerializer::deserialize(uri));
    assert!(status.is_failure());
}

#[test]
fn test_rpc_method_uri_invalid_when_uri_is_missing_use_name_remote() {
    let uri = "//VCU.myvin//1/rpc.UpdateDoor".to_string();
    let status = UriValidator::validate_rpc_method(&LongUriSerializer::deserialize(uri));
    assert!(status.is_failure());
}

#[test]
fn test_structural_predicates_on_built_addresses() {
    let uuri = UUri {
        entity: Some(UEntity {
            name: "hartley".into(),
            ..Default::default()
        }),
        resource: Some(UResource {
            name: "rpc".into(),
            id: Some(19999),
            ..Default::default()
        }),
        authority: None,
    };
    // a non-zero resource id makes the address both method- and
    // response-shaped, through the shared numeric-id branch
    assert!(!UriValidator::is_rpc_response(&uuri));
    assert!(!UriValidator::is_rpc_method(&uuri));
    assert!(UriValidator::is_empty(&uuri));

    let full = UUri {
        entity: Some(UEntity {
            name: "hartley".into(),
            ..Default::default()
        }),
        resource: Some(UResource {
            name: "rpc".into(),
            id: Some(19999),
            ..Default::default()
        }),
        authority: Some(UAuthority {
            remote: None,
            marked_remote: false,
        }),
    };
    assert!(UriValidator::is_rpc_method(&full));
    assert!(UriValidator::is_rpc_response(&full));
    assert!(UriValidator::is_resolved(&full));
    assert!(!UriValidator::is_long_form(&full));
    assert!(!UriValidator::is_micro_form(&full));
}

#[test]
fn test_long_and_micro_form_predicates() {
    let long = UUri {
        authority: Some(UAuthority {
            remote: Some(Remote::Name("vcu.vin".into())),
            marked_remote: true,
        }),
        entity: Some(UEntity {
            name: "body.access".into(),
            version_major: Some(1),
            id: None,
        }),
        resource: Some(UResource {
            name: "door".into(),
            instance: Some("front_left".into()),
            message: Some("Door".into()),
            id: None,
        }),
    };
    assert!(UriValidator::is_long_form(&long));
    assert!(!UriValidator::is_micro_form(&long));
    assert!(UriValidator::is_remote(long.authority.as_ref().unwrap()));

    let micro = UUri {
        authority: Some(UAuthority {
            remote: None,
            marked_remote: false,
        }),
        entity: Some(UEntity {
            name: "body.access".into(),
            version_major: Some(1),
            id: Some(5),
        }),
        resource: Some(UResource {
            name: "door".into(),
            instance: None,
            message: None,
            id: Some(3),
        }),
    };
    assert!(UriValidator::is_micro_form(&micro));
    assert!(!UriValidator::is_long_form(&micro));
    assert!(!UriValidator::is_remote(micro.authority.as_ref().unwrap()));

    // a numeric authority keeps the compact form available
    let mut numeric_remote = micro.clone();
    numeric_remote.authority = Some(UAuthority {
        remote: Some(Remote::Id(7)),
        marked_remote: true,
    });
    assert!(UriValidator::is_micro_form(&numeric_remote));
    assert!(UriValidator::is_remote(numeric_remote.authority.as_ref().unwrap()));

    // an unidentified remote authority does not
    let mut unnamed_remote = micro.clone();
    unnamed_remote.authority = Some(UAuthority::default());
    assert!(!UriValidator::is_micro_form(&unnamed_remote));

    // nor does one named by text
    let mut named_remote = micro.clone();
    named_remote.authority = Some(UAuthority {
        remote: Some(Remote::Name("vcu.vin".into())),
        marked_remote: true,
    });
    assert!(!UriValidator::is_micro_form(&named_remote));
}

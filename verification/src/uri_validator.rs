//! Structural and role predicates on addresses, and the address
//! validators: general validity, RPC-method shape, RPC-response shape,
//! publish-topic shape and RPC-response-topic shape.

use vstd::prelude::*;

use crate::text::{is_blank, contains_substr, spec_contains, spec_is_blank, str_eq};
use crate::types::ValidationResult;
use crate::uri::{Remote, UAuthority, UUri};

verus! {

/// The distinct reasons an address can fail validation.
#[derive(Clone, Copy, Debug, PartialEq, Eq, Structural)]
pub enum UriValidationError {
    /// A structural slot (authority, entity or resource) is absent.
    Empty,
    /// The authority indicates a remote node but carries no name or id.
    RemoteMissingAuthority,
    /// The entity slot is present but its name is blank.
    MissingEntityName,
    /// The address is not shaped like an RPC method target.
    NotRpcMethod,
    /// The address is shaped like an RPC response target.
    RpcResponseShaped,
    /// The resource slot is present but its name is blank.
    MissingResourceName,
    /// The resource slot carries no message-type tag.
    MissingMessageInfo,
    /// The resource is not exactly the `rpc.response` pair.
    MissingRpcResponse,
}

/// An address is empty unless authority, entity and resource slots are all
/// structurally present.
pub open spec fn spec_is_empty(u: &UUri) -> bool {
    u.authority is None || u.entity is None || u.resource is None
}

/// An authority carries a name-or-id, as opposed to standing for "local".
pub open spec fn spec_is_remote(a: &UAuthority) -> bool {
    a.remote is Some
}

/// The authority slot is present yet structurally indicates a remote node
/// without a name or id.
pub open spec fn spec_remote_missing_name(u: &UUri) -> bool {
    match u.authority {
        Some(a) => a.marked_remote && a.remote is None,
        None => false,
    }
}

/// The entity slot is present but its name is blank.
pub open spec fn spec_entity_name_blank(u: &UUri) -> bool {
    match u.entity {
        Some(e) => spec_is_blank(e.name@),
        None => false,
    }
}

/// Why general validation fails, or `None` when the address is valid: an
/// empty address, then a remote authority without a name, then a blank
/// entity name.
pub open spec fn spec_validate_err(u: &UUri) -> Option<UriValidationError> {
    if spec_is_empty(u) {
        Some(UriValidationError::Empty)
    } else if spec_remote_missing_name(u) {
        Some(UriValidationError::RemoteMissingAuthority)
    } else if spec_entity_name_blank(u) {
        Some(UriValidationError::MissingEntityName)
    } else {
        None
    }
}

/// Not empty, the resource name contains `"rpc"`, and the resource has a
/// non-blank instance or a non-zero numeric id.
pub open spec fn spec_is_rpc_method(u: &UUri) -> bool {
    &&& !spec_is_empty(u)
    &&& match u.resource {
        Some(r) => spec_contains(r.name@, "rpc"@) && ((match r.instance {
            Some(inst) => !spec_is_blank(inst@),
            None => false,
        }) || (match r.id {
            Some(id) => id != 0,
            None => false,
        })),
        None => false,
    }
}

/// RPC-method shaped, and the instance contains `"response"` or the
/// resource has a non-zero numeric id. The numeric-id branch is shared
/// with the method predicate, so any address with a non-zero resource id
/// satisfies both.
pub open spec fn spec_is_rpc_response(u: &UUri) -> bool {
    &&& spec_is_rpc_method(u)
    &&& match u.resource {
        Some(r) => (match r.instance {
            Some(inst) => spec_contains(inst@, "response"@),
            None => false,
        }) || (match r.id {
            Some(id) => id != 0,
            None => false,
        }),
        None => false,
    }
}

/// Why RPC-method validation fails: a general validation failure, or an
/// address that is not RPC-method shaped.
pub open spec fn spec_validate_rpc_method_err(u: &UUri) -> Option<UriValidationError> {
    match spec_validate_err(u) {
        Some(c) => Some(c),
        None => if !spec_is_rpc_method(u) {
            Some(UriValidationError::NotRpcMethod)
        } else {
            None
        },
    }
}

/// Why RPC-response validation fails: a general validation failure, or an
/// address that *does* look RPC-response shaped.
pub open spec fn spec_validate_rpc_response_err(u: &UUri) -> Option<UriValidationError> {
    match spec_validate_err(u) {
        Some(c) => Some(c),
        None => if spec_is_rpc_response(u) {
            Some(UriValidationError::RpcResponseShaped)
        } else {
            None
        },
    }
}

/// Why topic validation fails: a general validation failure, or a present
/// resource with a blank name or without a message-type tag.
pub open spec fn spec_validate_topic_err(u: &UUri) -> Option<UriValidationError> {
    match spec_validate_err(u) {
        Some(c) => Some(c),
        None => match u.resource {
            Some(r) => if spec_is_blank(r.name@) {
                Some(UriValidationError::MissingResourceName)
            } else if r.message is None {
                Some(UriValidationError::MissingMessageInfo)
            } else {
                None
            },
            None => None,
        },
    }
}

/// Why RPC-response-topic validation fails: a general validation failure,
/// or a present resource that is not exactly `rpc.response`.
pub open spec fn spec_validate_rpc_response_topic_err(u: &UUri) -> Option<UriValidationError> {
    match spec_validate_err(u) {
        Some(c) => Some(c),
        None => match u.resource {
            Some(r) => if r.name@ == "rpc"@ && (match r.instance {
                Some(inst) => inst@ == "response"@,
                None => false,
            }) {
                None
            } else {
                Some(UriValidationError::MissingRpcResponse)
            },
            None => None,
        },
    }
}

/// The failure reason text of each validation error, as the address
/// validators word it.
pub open spec fn spec_uri_error_msg(c: UriValidationError) -> Seq<char> {
    match c {
        UriValidationError::Empty => "Uri is empty."@,
        UriValidationError::RemoteMissingAuthority => "Uri is remote missing uAuthority."@,
        UriValidationError::MissingEntityName => "Uri is missing uSoftware Entity name."@,
        UriValidationError::NotRpcMethod
            => "Invalid RPC method uri. Uri should be the method to be called, or method from response."@,
        UriValidationError::RpcResponseShaped => "Invalid RPC response type."@,
        UriValidationError::MissingResourceName => "UriPart is missing uResource name."@,
        UriValidationError::MissingMessageInfo => "UriPart is missing Message information."@,
        UriValidationError::MissingRpcResponse
            => "Invalid RPC uri application response topic. UriPart is missing rpc.response."@,
    }
}

fn uri_error_message(c: UriValidationError) -> (r: String)
    ensures
        r@ == spec_uri_error_msg(c),
{
    match c {
        UriValidationError::Empty => String::from_str("Uri is empty."),
        UriValidationError::RemoteMissingAuthority => String::from_str(
            "Uri is remote missing uAuthority.",
        ),
        UriValidationError::MissingEntityName => String::from_str(
            "Uri is missing uSoftware Entity name.",
        ),
        UriValidationError::NotRpcMethod => String::from_str(
            "Invalid RPC method uri. Uri should be the method to be called, or method from response.",
        ),
        UriValidationError::RpcResponseShaped => String::from_str("Invalid RPC response type."),
        UriValidationError::MissingResourceName => String::from_str(
            "UriPart is missing uResource name.",
        ),
        UriValidationError::MissingMessageInfo => String::from_str(
            "UriPart is missing Message information.",
        ),
        UriValidationError::MissingRpcResponse => String::from_str(
            "Invalid RPC uri application response topic. UriPart is missing rpc.response.",
        ),
    }
}

/// Encapsulates the address validation logic.
pub struct UriValidator;

impl UriValidator {
    /// True if this address is an empty container: some structural slot is
    /// absent, so it carries no usable information.
    pub fn is_empty(uri: &UUri) -> (r: bool)
        ensures
            r == spec_is_empty(uri),
            r == (uri.authority is None || uri.entity is None || uri.resource is None),
    {
        uri.authority.is_none() || uri.entity.is_none() || uri.resource.is_none()
    }

    /// True if the authority names a remote node (by name or id).
    pub fn is_remote(authority: &UAuthority) -> (r: bool)
        ensures
            r == spec_is_remote(authority),
    {
        authority.remote.is_some()
    }

    /// True if the address carries enough information to be used in some
    /// serialized form.
    pub fn is_resolved(uri: &UUri) -> (r: bool)
        ensures
            r == !spec_is_empty(uri),
    {
        !Self::is_empty(uri)
    }

    pub(crate) fn validate_code(uri: &UUri) -> (r: Option<UriValidationError>)
        ensures
            r == spec_validate_err(uri),
    {
        if Self::is_empty(uri) {
            return Some(UriValidationError::Empty);
        }
        match &uri.authority {
            Some(a) => {
                if a.marked_remote && a.remote.is_none() {
                    return Some(UriValidationError::RemoteMissingAuthority);
                }
            },
            None => {},
        }
        match &uri.entity {
            Some(e) => {
                if is_blank(e.name.as_str()) {
                    return Some(UriValidationError::MissingEntityName);
                }
            },
            None => {},
        }
        None
    }

    pub(crate) fn validate_rpc_method_code(uri: &UUri) -> (r: Option<UriValidationError>)
        ensures
            r == spec_validate_rpc_method_err(uri),
    {
        match Self::validate_code(uri) {
            Some(c) => Some(c),
            None => {
                if !Self::is_rpc_method(uri) {
                    Some(UriValidationError::NotRpcMethod)
                } else {
                    None
                }
            },
        }
    }

    pub(crate) fn validate_rpc_response_code(uri: &UUri) -> (r: Option<UriValidationError>)
        ensures
            r == spec_validate_rpc_response_err(uri),
    {
        match Self::validate_code(uri) {
            Some(c) => Some(c),
            None => {
                if Self::is_rpc_response(uri) {
                    Some(UriValidationError::RpcResponseShaped)
                } else {
                    None
                }
            },
        }
    }

    /// Validates an address: it must not be empty, a remote-indicating
    /// authority must carry a name or id, and the entity name must not be
    /// blank.
    pub fn validate(uri: &UUri) -> (r: ValidationResult)
        ensures
            r is Success <==> spec_validate_err(uri) is None,
            spec_validate_err(uri) matches Some(c) ==> (r matches ValidationResult::Failure(m)
                && m@ == spec_uri_error_msg(c)),
    {
        match Self::validate_code(uri) {
            None => ValidationResult::Success,
            Some(c) => ValidationResult::Failure(uri_error_message(c)),
        }
    }

    /// True if the address is shaped like an RPC method target.
    pub fn is_rpc_method(uri: &UUri) -> (r: bool)
        ensures
            r == spec_is_rpc_method(uri),
    {
        if Self::is_empty(uri) {
            return false;
        }
        match &uri.resource {
            Some(res) => {
                if !contains_substr(res.name.as_str(), "rpc") {
                    return false;
                }
                let instance_ok = match &res.instance {
                    Some(inst) => !is_blank(inst.as_str()),
                    None => false,
                };
                let id_ok = match &res.id {
                    Some(id) => *id != 0,
                    None => false,
                };
                instance_ok || id_ok
            },
            None => false,
        }
    }

    /// True if the address is shaped like an RPC response target.
    pub fn is_rpc_response(uri: &UUri) -> (r: bool)
        ensures
            r == spec_is_rpc_response(uri),
    {
        if !Self::is_rpc_method(uri) {
            return false;
        }
        match &uri.resource {
            Some(res) => {
                let instance_ok = match &res.instance {
                    Some(inst) => contains_substr(inst.as_str(), "response"),
                    None => false,
                };
                let id_ok = match &res.id {
                    Some(id) => *id != 0,
                    None => false,
                };
                instance_ok || id_ok
            },
            None => false,
        }
    }

    /// Validates an address meant to be used as an RPC method target;
    /// used in request sinks and response sources.
    pub fn validate_rpc_method(uri: &UUri) -> (r: ValidationResult)
        ensures
            r is Success <==> spec_validate_rpc_method_err(uri) is None,
            spec_validate_rpc_method_err(uri) matches Some(c) ==> (r matches
                ValidationResult::Failure(m) && m@ == spec_uri_error_msg(c)),
    {
        match Self::validate_code(uri) {
            Some(c) => ValidationResult::Failure(uri_error_message(c)),
            None => {
                if !Self::is_rpc_method(uri) {
                    ValidationResult::Failure(uri_error_message(UriValidationError::NotRpcMethod))
                } else {
                    ValidationResult::Success
                }
            },
        }
    }

    /// Validates an address meant to be used as an RPC response target:
    /// it must pass general validation and must *not* look RPC-response
    /// shaped; used in request sources and response sinks.
    pub fn validate_rpc_response(uri: &UUri) -> (r: ValidationResult)
        ensures
            r is Success <==> spec_validate_rpc_response_err(uri) is None,
            spec_validate_rpc_response_err(uri) matches Some(c) ==> (r matches
                ValidationResult::Failure(m) && m@ == spec_uri_error_msg(c)),
    {
        match Self::validate_code(uri) {
            Some(c) => ValidationResult::Failure(uri_error_message(c)),
            None => {
                if Self::is_rpc_response(uri) {
                    ValidationResult::Failure(
                        uri_error_message(UriValidationError::RpcResponseShaped),
                    )
                } else {
                    ValidationResult::Success
                }
            },
        }
    }

    /// Validates an address used as a publish topic: besides general
    /// validity, a present resource must have a non-blank name and a
    /// message-type tag.
    pub fn validate_topic(uri: &UUri) -> (r: ValidationResult)
        ensures
            r is Success <==> spec_validate_topic_err(uri) is None,
            spec_validate_topic_err(uri) matches Some(c) ==> (r matches ValidationResult::Failure(
                m,
            ) && m@ == spec_uri_error_msg(c)),
    {
        match Self::validate_code(uri) {
            Some(c) => ValidationResult::Failure(uri_error_message(c)),
            None => {
                match &uri.resource {
                    Some(res) => {
                        if is_blank(res.name.as_str()) {
                            ValidationResult::Failure(
                                uri_error_message(UriValidationError::MissingResourceName),
                            )
                        } else if res.message.is_none() {
                            ValidationResult::Failure(
                                uri_error_message(UriValidationError::MissingMessageInfo),
                            )
                        } else {
                            ValidationResult::Success
                        }
                    },
                    None => ValidationResult::Success,
                }
            },
        }
    }

    /// Validates an address used as the application response topic of an
    /// RPC call: besides general validity, a present resource must be
    /// exactly the `rpc.response` pair. A general-validation failure is
    /// wrapped in the response-topic wording.
    pub fn validate_rpc_response_topic(uri: &UUri) -> (r: ValidationResult)
        ensures
            r is Success <==> spec_validate_rpc_response_topic_err(uri) is None,
            spec_validate_rpc_response_topic_err(uri) matches Some(c) ==> (r matches
                ValidationResult::Failure(m) && m@ == (
            if c is MissingRpcResponse {
                spec_uri_error_msg(c)
            } else {
                "Invalid RPC uri application response topic. "@ + spec_uri_error_msg(c)
            })),
    {
        match Self::validate_code(uri) {
            Some(c) => {
                let mut m = String::from_str("Invalid RPC uri application response topic. ");
                m.append(uri_error_message(c).as_str());
                ValidationResult::Failure(m)
            },
            None => {
                match &uri.resource {
                    Some(res) => {
                        let pair_ok = str_eq(res.name.as_str(), "rpc") && (match &res.instance {
                            Some(inst) => str_eq(inst.as_str(), "response"),
                            None => false,
                        });
                        if pair_ok {
                            ValidationResult::Success
                        } else {
                            ValidationResult::Failure(
                                uri_error_message(UriValidationError::MissingRpcResponse),
                            )
                        }
                    },
                    None => ValidationResult::Success,
                }
            },
        }
    }

    /// True if the address carries the numeric ids needed for the compact
    /// wire form, with an authority that is local or itself numeric; an
    /// authority that indicates an unidentified remote node, or one named
    /// by text, keeps the address out of the compact form.
    pub fn is_micro_form(uri: &UUri) -> (r: bool)
        ensures
            r == (!spec_is_empty(uri) && (match uri.entity {
                Some(e) => e.id is Some,
                None => false,
            }) && (match uri.resource {
                Some(res) => res.id is Some,
                None => false,
            }) && (match uri.authority {
                Some(a) => (a.remote is None && !a.marked_remote) || (a.remote matches Some(
                    Remote::Id(_),
                )),
                None => false,
            })),
    {
        if Self::is_empty(uri) {
            return false;
        }
        let entity_ok = match &uri.entity {
            Some(e) => e.id.is_some(),
            None => false,
        };
        let resource_ok = match &uri.resource {
            Some(res) => res.id.is_some(),
            None => false,
        };
        let authority_ok = match &uri.authority {
            Some(a) => match &a.remote {
                None => !a.marked_remote,
                Some(Remote::Id(_)) => true,
                Some(Remote::Name(_)) => false,
            },
            None => false,
        };
        entity_ok && resource_ok && authority_ok
    }

    /// True if the address carries the names needed for the long wire
    /// form: a named remote authority, a non-blank entity name and a
    /// non-blank resource name.
    pub fn is_long_form(uri: &UUri) -> (r: bool)
        ensures
            r == (!spec_is_empty(uri) && (match uri.authority {
                Some(a) => match a.remote {
                    Some(Remote::Name(n)) => n@.len() > 0,
                    _ => false,
                },
                None => false,
            }) && (match uri.entity {
                Some(e) => !spec_is_blank(e.name@),
                None => false,
            }) && (match uri.resource {
                Some(res) => !spec_is_blank(res.name@),
                None => false,
            })),
    {
        if Self::is_empty(uri) {
            return false;
        }
        let authority_ok = match &uri.authority {
            Some(a) => match &a.remote {
                Some(Remote::Name(n)) => n.unicode_len() > 0,
                _ => false,
            },
            None => false,
        };
        let entity_ok = match &uri.entity {
            Some(e) => !is_blank(e.name.as_str()),
            None => false,
        };
        let resource_ok = match &uri.resource {
            Some(res) => !is_blank(res.name.as_str()),
            None => false,
        };
        authority_ok && entity_ok && resource_ok
    }
}

/// Law: an address that passes validation is not empty.
pub proof fn lemma_valid_uri_not_empty(u: &UUri)
    requires
        spec_validate_err(u) is None,
    ensures
        !spec_is_empty(u),
{
}

} // verus!

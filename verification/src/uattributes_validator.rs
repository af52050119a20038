//! Role-dependent validation of message attributes. Each role (publish,
//! request, response) runs the same battery of independent checks — type
//! tag, time to live, sink address, communication status, permission
//! level, correlation identifier — and aggregates *all* failures, joined
//! with `"; "` in that fixed order.

use vstd::prelude::*;

use crate::text::{i32_to_dec_string, join_semi, spec_dec_int, spec_join_semi};
use crate::types::{spec_check_result, spec_opt_msg, ValidationError};
use crate::uattributes::{
    spec_code_recognized, spec_message_type_name, spec_message_type_of, UAttributes, UCode,
    UMessageType,
};
use crate::uri::UUri;
use crate::uri_validator::{
    spec_validate_err, spec_validate_rpc_method_err, spec_validate_rpc_response_err,
    UriValidationError, UriValidator,
};
use crate::uuid::UUID;
use crate::uuid_builder::{now_millis, spec_utils_time, spec_version_nibble, UuidUtils};

verus! {

/// The three message roles a validator exists for; the role value itself
/// carries the validation methods.
#[derive(Clone, Copy, Debug, PartialEq, Eq, Structural)]
pub enum Validators {
    Publish,
    Request,
    Response,
}

/// The role tag each role's type check expects.
pub open spec fn spec_role_type(role: Validators) -> UMessageType {
    match role {
        Validators::Publish => UMessageType::Publish,
        Validators::Request => UMessageType::Request,
        Validators::Response => UMessageType::Response,
    }
}

/// The display name of each role's validator.
pub open spec fn spec_validator_name(role: Validators) -> Seq<char> {
    match role {
        Validators::Publish => "UAttributesValidator.Publish"@,
        Validators::Request => "UAttributesValidator.Request"@,
        Validators::Response => "UAttributesValidator.Response"@,
    }
}

/// An address failure reason as the attribute validators word it (without
/// the address validators' closing period).
pub open spec fn spec_attr_uri_msg(c: UriValidationError) -> Seq<char> {
    match c {
        UriValidationError::Empty => "Uri is empty"@,
        UriValidationError::RemoteMissingAuthority => "Uri is remote missing uAuthority"@,
        UriValidationError::MissingEntityName => "Uri is missing uSoftware Entity name"@,
        UriValidationError::NotRpcMethod
            => "Invalid RPC method uri. Uri should be the method to be called, or method from response"@,
        UriValidationError::RpcResponseShaped => "Invalid RPC response type"@,
        UriValidationError::MissingResourceName => "UriPart is missing uResource name"@,
        UriValidationError::MissingMessageInfo => "UriPart is missing Message information"@,
        UriValidationError::MissingRpcResponse => "UriPart is missing rpc.response"@,
    }
}

/// Why the type check fails, if it does: an unrecognized numeric tag, or a
/// recognized tag that is not the role's own.
pub open spec fn spec_type_error(role: Validators, v: i32) -> Option<Seq<char>> {
    match spec_message_type_of(v) {
        None => Some("Unknown Attribute Type ["@ + spec_dec_int(v as int) + "]"@),
        Some(mt) => if mt == spec_role_type(role) {
            None
        } else {
            Some("Wrong Attribute Type ["@ + spec_message_type_name(mt) + "]"@)
        },
    }
}

/// Why the time-to-live check fails, if it does: a present value below
/// one; for the request role the value is also required.
pub open spec fn spec_ttl_error(role: Validators, ttl: Option<i32>) -> Option<Seq<char>> {
    match ttl {
        Some(t) => if t < 1 {
            Some("Invalid TTL ["@ + spec_dec_int(t as int) + "]"@)
        } else {
            None
        },
        None => if role is Request {
            Some("Missing TTL"@)
        } else {
            None
        },
    }
}

/// Why the sink check fails, if it does. A publish sink is optional and
/// must pass general validation; a request sink is required and must pass
/// RPC-response validation; a response sink is required and must pass
/// RPC-method validation.
pub open spec fn spec_sink_error(role: Validators, sink: Option<UUri>) -> Option<Seq<char>> {
    match role {
        Validators::Publish => match sink {
            Some(u) => match spec_validate_err(&u) {
                Some(c) => Some(spec_attr_uri_msg(c)),
                None => None,
            },
            None => None,
        },
        Validators::Request => match sink {
            Some(u) => match spec_validate_rpc_response_err(&u) {
                Some(c) => Some(spec_attr_uri_msg(c)),
                None => None,
            },
            None => Some("Missing Sink"@),
        },
        Validators::Response => match sink {
            Some(u) => match spec_validate_rpc_method_err(&u) {
                Some(c) => Some(spec_attr_uri_msg(c)),
                None => None,
            },
            None => Some("Missing Sink"@),
        },
    }
}

/// Why the communication-status check fails, if it does: a present code
/// outside the closed set.
pub open spec fn spec_commstatus_error(cs: Option<i32>) -> Option<Seq<char>> {
    match cs {
        Some(v) => if !spec_code_recognized(v) {
            Some("Invalid Communication Status Code ["@ + spec_dec_int(v as int) + "]"@)
        } else {
            None
        },
        None => None,
    }
}

/// Why the permission-level check fails, if it does: a present level
/// below one.
pub open spec fn spec_permission_error(p: Option<u32>) -> Option<Seq<char>> {
    match p {
        Some(v) => if v < 1 {
            Some("Invalid Permission Level"@)
        } else {
            None
        },
        None => None,
    }
}

/// Why the correlation-identifier check fails, if it does. For publish and
/// request a present value must be a recognized identifier kind; for
/// response the value is required, must not be the all-zero sentinel, and
/// must be a recognized kind.
pub open spec fn spec_reqid_error(role: Validators, reqid: Option<UUID>) -> Option<Seq<char>> {
    if role is Response {
        match reqid {
            Some(u) => if u == (UUID { msb: 0, lsb: 0 }) {
                Some("Missing correlation Id"@)
            } else if spec_version_nibble(u) == 8 || spec_version_nibble(u) == 6 {
                None
            } else {
                Some("Missing correlation Id"@)
            },
            None => Some("Missing correlation Id"@),
        }
    } else {
        match reqid {
            Some(u) => if spec_version_nibble(u) == 8 || spec_version_nibble(u) == 6 {
                None
            } else {
                Some("Invalid UUID"@)
            },
            None => None,
        }
    }
}

/// Every check failure of the given attributes under the given role, in
/// the fixed order type, ttl, sink, commstatus, permission, reqid.
pub open spec fn spec_attr_errors(role: Validators, a: UAttributes) -> Seq<Seq<char>> {
    spec_opt_msg(spec_type_error(role, a.message_type)) + spec_opt_msg(
        spec_ttl_error(role, a.ttl),
    ) + spec_opt_msg(spec_sink_error(role, a.sink)) + spec_opt_msg(
        spec_commstatus_error(a.commstatus),
    ) + spec_opt_msg(spec_permission_error(a.permission_level)) + spec_opt_msg(
        spec_reqid_error(role, a.reqid),
    )
}

/// The message has expired by `now`: a positive time to live is present,
/// the message's identifier carries a creation time, and at least that
/// many milliseconds have passed since.
pub open spec fn spec_is_expired_at(a: UAttributes, now: u64) -> bool {
    match a.ttl {
        Some(t) => if t < 1 {
            false
        } else {
            match a.id {
                Some(u) => match spec_utils_time(u) {
                    Some(tm) => now >= tm + t,
                    None => false,
                },
                None => false,
            }
        },
        None => false,
    }
}

fn attr_uri_message(c: UriValidationError) -> (r: String)
    ensures
        r@ == spec_attr_uri_msg(c),
{
    match c {
        UriValidationError::Empty => String::from_str("Uri is empty"),
        UriValidationError::RemoteMissingAuthority => String::from_str(
            "Uri is remote missing uAuthority",
        ),
        UriValidationError::MissingEntityName => String::from_str(
            "Uri is missing uSoftware Entity name",
        ),
        UriValidationError::NotRpcMethod => String::from_str(
            "Invalid RPC method uri. Uri should be the method to be called, or method from response",
        ),
        UriValidationError::RpcResponseShaped => String::from_str("Invalid RPC response type"),
        UriValidationError::MissingResourceName => String::from_str(
            "UriPart is missing uResource name",
        ),
        UriValidationError::MissingMessageInfo => String::from_str(
            "UriPart is missing Message information",
        ),
        UriValidationError::MissingRpcResponse => String::from_str(
            "UriPart is missing rpc.response",
        ),
    }
}

fn role_type(role: Validators) -> (r: UMessageType)
    ensures
        r == spec_role_type(role),
{
    match role {
        Validators::Publish => UMessageType::Publish,
        Validators::Request => UMessageType::Request,
        Validators::Response => UMessageType::Response,
    }
}

fn check_type(role: Validators, a: &UAttributes) -> (r: Result<(), ValidationError>)
    ensures
        spec_check_result(r, spec_type_error(role, a.message_type)),
{
    match UMessageType::from_i32(a.message_type) {
        None => {
            let mut m = String::from_str("Unknown Attribute Type [");
            m.append(i32_to_dec_string(a.message_type).as_str());
            m.append("]");
            Err(ValidationError::from_string(m))
        },
        Some(mt) => {
            if mt == role_type(role) {
                Ok(())
            } else {
                let mut m = String::from_str("Wrong Attribute Type [");
                m.append(mt.as_str_name());
                m.append("]");
                Err(ValidationError::from_string(m))
            }
        },
    }
}

fn check_ttl(role: Validators, a: &UAttributes) -> (r: Result<(), ValidationError>)
    ensures
        spec_check_result(r, spec_ttl_error(role, a.ttl)),
{
    match a.ttl {
        Some(t) => {
            if t < 1 {
                let mut m = String::from_str("Invalid TTL [");
                m.append(i32_to_dec_string(t).as_str());
                m.append("]");
                Err(ValidationError::from_string(m))
            } else {
                Ok(())
            }
        },
        None => {
            match role {
                Validators::Request => Err(ValidationError::new("Missing TTL")),
                _ => Ok(()),
            }
        },
    }
}

fn check_sink(role: Validators, a: &UAttributes) -> (r: Result<(), ValidationError>)
    ensures
        spec_check_result(r, spec_sink_error(role, a.sink)),
{
    match role {
        Validators::Publish => {
            match &a.sink {
                Some(u) => match UriValidator::validate_code(u) {
                    Some(c) => Err(ValidationError::from_string(attr_uri_message(c))),
                    None => Ok(()),
                },
                None => Ok(()),
            }
        },
        Validators::Request => {
            match &a.sink {
                Some(u) => match UriValidator::validate_rpc_response_code(u) {
                    Some(c) => Err(ValidationError::from_string(attr_uri_message(c))),
                    None => Ok(()),
                },
                None => Err(ValidationError::new("Missing Sink")),
            }
        },
        Validators::Response => {
            match &a.sink {
                Some(u) => match UriValidator::validate_rpc_method_code(u) {
                    Some(c) => Err(ValidationError::from_string(attr_uri_message(c))),
                    None => Ok(()),
                },
                None => Err(ValidationError::new("Missing Sink")),
            }
        },
    }
}

fn check_commstatus(a: &UAttributes) -> (r: Result<(), ValidationError>)
    ensures
        spec_check_result(r, spec_commstatus_error(a.commstatus)),
{
    match a.commstatus {
        Some(v) => {
            if UCode::from_i32(v).is_none() {
                let mut m = String::from_str("Invalid Communication Status Code [");
                m.append(i32_to_dec_string(v).as_str());
                m.append("]");
                Err(ValidationError::from_string(m))
            } else {
                Ok(())
            }
        },
        None => Ok(()),
    }
}

fn check_permission_level(a: &UAttributes) -> (r: Result<(), ValidationError>)
    ensures
        spec_check_result(r, spec_permission_error(a.permission_level)),
{
    match a.permission_level {
        Some(v) => {
            if v < 1 {
                Err(ValidationError::new("Invalid Permission Level"))
            } else {
                Ok(())
            }
        },
        None => Ok(()),
    }
}

fn check_reqid(role: Validators, a: &UAttributes) -> (r: Result<(), ValidationError>)
    ensures
        spec_check_result(r, spec_reqid_error(role, a.reqid)),
{
    match role {
        Validators::Response => {
            match &a.reqid {
                Some(u) => {
                    if u.msb == 0 && u.lsb == 0 {
                        Err(ValidationError::new("Missing correlation Id"))
                    } else if UuidUtils::is_uuid(u) {
                        Ok(())
                    } else {
                        Err(ValidationError::new("Missing correlation Id"))
                    }
                },
                None => Err(ValidationError::new("Missing correlation Id")),
            }
        },
        _ => {
            match &a.reqid {
                Some(u) => {
                    if UuidUtils::is_uuid(u) {
                        Ok(())
                    } else {
                        Err(ValidationError::new("Invalid UUID"))
                    }
                },
                None => Ok(()),
            }
        },
    }
}

fn validate_attributes(role: Validators, a: &UAttributes) -> (r: Result<(), ValidationError>)
    ensures
        r is Ok <==> spec_attr_errors(role, *a).len() == 0,
        r matches Err(e) ==> e.message@ == spec_join_semi(spec_attr_errors(role, *a)),
{
    let ghost f = |p: String| p@;
    let mut parts: Vec<String> = Vec::new();
    match check_type(role, a) {
        Ok(_) => {},
        Err(e) => parts.push(e.message),
    }
    proof {
        assert(parts@.map_values(f) =~= spec_opt_msg(spec_type_error(role, a.message_type)));
    }
    match check_ttl(role, a) {
        Ok(_) => {},
        Err(e) => parts.push(e.message),
    }
    proof {
        assert(parts@.map_values(f) =~= spec_opt_msg(spec_type_error(role, a.message_type))
            + spec_opt_msg(spec_ttl_error(role, a.ttl)));
    }
    match check_sink(role, a) {
        Ok(_) => {},
        Err(e) => parts.push(e.message),
    }
    proof {
        assert(parts@.map_values(f) =~= spec_opt_msg(spec_type_error(role, a.message_type))
            + spec_opt_msg(spec_ttl_error(role, a.ttl)) + spec_opt_msg(
            spec_sink_error(role, a.sink),
        ));
    }
    match check_commstatus(a) {
        Ok(_) => {},
        Err(e) => parts.push(e.message),
    }
    proof {
        assert(parts@.map_values(f) =~= spec_opt_msg(spec_type_error(role, a.message_type))
            + spec_opt_msg(spec_ttl_error(role, a.ttl)) + spec_opt_msg(
            spec_sink_error(role, a.sink),
        ) + spec_opt_msg(spec_commstatus_error(a.commstatus)));
    }
    match check_permission_level(a) {
        Ok(_) => {},
        Err(e) => parts.push(e.message),
    }
    proof {
        assert(parts@.map_values(f) =~= spec_opt_msg(spec_type_error(role, a.message_type))
            + spec_opt_msg(spec_ttl_error(role, a.ttl)) + spec_opt_msg(
            spec_sink_error(role, a.sink),
        ) + spec_opt_msg(spec_commstatus_error(a.commstatus)) + spec_opt_msg(
            spec_permission_error(a.permission_level),
        ));
    }
    match check_reqid(role, a) {
        Ok(_) => {},
        Err(e) => parts.push(e.message),
    }
    proof {
        assert(parts@.map_values(f) =~= spec_attr_errors(role, *a));
    }
    if parts.len() == 0 {
        Ok(())
    } else {
        Err(ValidationError::from_string(join_semi(&parts)))
    }
}

fn expired_check(attributes: &UAttributes) -> (r: Result<(), ValidationError>)
    ensures
        (attributes.ttl matches Some(t) && t <= 0) ==> r is Ok,
        attributes.id is None ==> r is Ok,
        (attributes.id matches Some(u) && spec_utils_time(u) is None) ==> r is Ok,
        (r matches Err(e) && e.message@ == "Payload is expired"@) ==> exists|now: u64|
            spec_is_expired_at(*attributes, now),
        (r matches Err(e) && e.message@ == "Payload is expired"@) ==> ((attributes.ttl
            matches Some(t) && t >= 1) && (attributes.id matches Some(u) && spec_utils_time(u)
            is Some)),
{
    match attributes.ttl {
        Some(t) => {
            if t <= 0 {
                return Ok(());
            }
        },
        None => {},
    }
    match &attributes.id {
        Some(u) => {
            match UuidUtils::get_time(u) {
                Some(_time) => {
                    match now_millis() {
                        Ok(now) => {
                            let verdict = is_expired_at(attributes, now);
                            proof {
                                if verdict is Err {
                                    assert(spec_is_expired_at(*attributes, now));
                                }
                            }
                            verdict
                        },
                        Err(e) => {
                            proof {
                                reveal_strlit("clock error:");
                                reveal_strlit("Payload is expired");
                                // the clock-error label keeps this message
                                // apart from the expiration verdict
                                assert(e@.subrange(0, 12)[0] == e@[0]);
                                assert(e@[0] == 'c');
                                assert("Payload is expired"@[0] == 'P');
                                assert(e@ != "Payload is expired"@);
                            }
                            Err(ValidationError::from_string(e))
                        },
                    }
                },
                None => Ok(()),
            }
        },
        None => Ok(()),
    }
}

/// Checks expiration against a given clock reading; the exact counterpart
/// of the clock-reading entry point.
pub fn is_expired_at(attributes: &UAttributes, now: u64) -> (r: Result<(), ValidationError>)
    ensures
        r is Ok <==> !spec_is_expired_at(*attributes, now),
        r matches Err(e) ==> e.message@ == "Payload is expired"@,
{
    let ttl: i32 = match attributes.ttl {
        Some(t) => {
            if t < 1 {
                return Ok(());
            } else {
                t
            }
        },
        None => {
            return Ok(());
        },
    };
    match &attributes.id {
        Some(u) => {
            match UuidUtils::get_time(u) {
                Some(time) => {
                    if now >= time && now - time >= (ttl as u64) {
                        Err(ValidationError::new("Payload is expired"))
                    } else {
                        Ok(())
                    }
                },
                None => Ok(()),
            }
        },
        None => Ok(()),
    }
}

/// A validator for one message role: the same independent checks run for
/// every role, with the role deciding what is required, and every failure
/// is aggregated.
pub trait UAttributesValidator {
    spec fn role(&self) -> Validators;

    /// The validator's display name.
    fn validator_name(&self) -> (r: &'static str)
        ensures
            r@ == spec_validator_name(self.role()),
    ;

    /// Runs every check and joins all failures with `"; "` in the fixed
    /// order type, ttl, sink, commstatus, permission, reqid.
    fn validate(&self, attributes: &UAttributes) -> (r: Result<(), ValidationError>)
        ensures
            r is Ok <==> spec_attr_errors(self.role(), *attributes).len() == 0,
            r matches Err(e) ==> e.message@ == spec_join_semi(
                spec_attr_errors(self.role(), *attributes),
            ),
    ;

    fn validate_type(&self, attributes: &UAttributes) -> (r: Result<(), ValidationError>)
        ensures
            spec_check_result(r, spec_type_error(self.role(), attributes.message_type)),
    ;

    fn validate_ttl(&self, attributes: &UAttributes) -> (r: Result<(), ValidationError>)
        ensures
            spec_check_result(r, spec_ttl_error(self.role(), attributes.ttl)),
    ;

    fn validate_sink(&self, attributes: &UAttributes) -> (r: Result<(), ValidationError>)
        ensures
            spec_check_result(r, spec_sink_error(self.role(), attributes.sink)),
    ;

    fn validate_commstatus(&self, attributes: &UAttributes) -> (r: Result<(), ValidationError>)
        ensures
            spec_check_result(r, spec_commstatus_error(attributes.commstatus)),
    ;

    fn validate_permission_level(&self, attributes: &UAttributes) -> (r: Result<
        (),
        ValidationError,
    >)
        ensures
            spec_check_result(r, spec_permission_error(attributes.permission_level)),
    ;

    fn validate_reqid(&self, attributes: &UAttributes) -> (r: Result<(), ValidationError>)
        ensures
            spec_check_result(r, spec_reqid_error(self.role(), attributes.reqid)),
    ;

    /// Whether the message has expired, against one wall-clock read; a
    /// clock failure is returned as an error. A message without a positive
    /// time to live, or whose identifier carries no creation time, never
    /// expires, and an expiration verdict is given only when some clock
    /// reading truly makes the message expired.
    fn is_expired(&self, attributes: &UAttributes) -> (r: Result<(), ValidationError>)
        ensures
            (attributes.ttl matches Some(t) && t <= 0) ==> r is Ok,
            attributes.id is None ==> r is Ok,
            (attributes.id matches Some(u) && spec_utils_time(u) is None) ==> r is Ok,
            (r matches Err(e) && e.message@ == "Payload is expired"@) ==> exists|now: u64|
                spec_is_expired_at(*attributes, now),
            (r matches Err(e) && e.message@ == "Payload is expired"@) ==> ((attributes.ttl
                matches Some(t) && t >= 1) && (attributes.id matches Some(u) && spec_utils_time(
                u,
            ) is Some)),
    ;
}

/// Validates attributes of publish messages.
pub struct PublishValidator;

/// Validates attributes of RPC request messages.
pub struct RequestValidator;

/// Validates attributes of RPC response messages.
pub struct ResponseValidator;

impl UAttributesValidator for PublishValidator {
    open spec fn role(&self) -> Validators {
        Validators::Publish
    }

    fn validator_name(&self) -> (r: &'static str) {
        "UAttributesValidator.Publish"
    }

    fn validate(&self, attributes: &UAttributes) -> (r: Result<(), ValidationError>) {
        validate_attributes(Validators::Publish, attributes)
    }

    fn validate_type(&self, attributes: &UAttributes) -> (r: Result<(), ValidationError>) {
        check_type(Validators::Publish, attributes)
    }

    fn validate_ttl(&self, attributes: &UAttributes) -> (r: Result<(), ValidationError>) {
        check_ttl(Validators::Publish, attributes)
    }

    fn validate_sink(&self, attributes: &UAttributes) -> (r: Result<(), ValidationError>) {
        check_sink(Validators::Publish, attributes)
    }

    fn validate_commstatus(&self, attributes: &UAttributes) -> (r: Result<(), ValidationError>) {
        check_commstatus(attributes)
    }

    fn validate_permission_level(&self, attributes: &UAttributes) -> (r: Result<
        (),
        ValidationError,
    >) {
        check_permission_level(attributes)
    }

    fn validate_reqid(&self, attributes: &UAttributes) -> (r: Result<(), ValidationError>) {
        check_reqid(Validators::Publish, attributes)
    }

    fn is_expired(&self, attributes: &UAttributes) -> (r: Result<(), ValidationError>) {
        expired_check(attributes)
    }
}

impl UAttributesValidator for RequestValidator {
    open spec fn role(&self) -> Validators {
        Validators::Request
    }

    fn validator_name(&self) -> (r: &'static str) {
        "UAttributesValidator.Request"
    }

    fn validate(&self, attributes: &UAttributes) -> (r: Result<(), ValidationError>) {
        validate_attributes(Validators::Request, attributes)
    }

    fn validate_type(&self, attributes: &UAttributes) -> (r: Result<(), ValidationError>) {
        check_type(Validators::Request, attributes)
    }

    fn validate_ttl(&self, attributes: &UAttributes) -> (r: Result<(), ValidationError>) {
        check_ttl(Validators::Request, attributes)
    }

    fn validate_sink(&self, attributes: &UAttributes) -> (r: Result<(), ValidationError>) {
        check_sink(Validators::Request, attributes)
    }

    fn validate_commstatus(&self, attributes: &UAttributes) -> (r: Result<(), ValidationError>) {
        check_commstatus(attributes)
    }

    fn validate_permission_level(&self, attributes: &UAttributes) -> (r: Result<
        (),
        ValidationError,
    >) {
        check_permission_level(attributes)
    }

    fn validate_reqid(&self, attributes: &UAttributes) -> (r: Result<(), ValidationError>) {
        check_reqid(Validators::Request, attributes)
    }

    fn is_expired(&self, attributes: &UAttributes) -> (r: Result<(), ValidationError>) {
        expired_check(attributes)
    }
}

impl UAttributesValidator for ResponseValidator {
    open spec fn role(&self) -> Validators {
        Validators::Response
    }

    fn validator_name(&self) -> (r: &'static str) {
        "UAttributesValidator.Response"
    }

    fn validate(&self, attributes: &UAttributes) -> (r: Result<(), ValidationError>) {
        validate_attributes(Validators::Response, attributes)
    }

    fn validate_type(&self, attributes: &UAttributes) -> (r: Result<(), ValidationError>) {
        check_type(Validators::Response, attributes)
    }

    fn validate_ttl(&self, attributes: &UAttributes) -> (r: Result<(), ValidationError>) {
        check_ttl(Validators::Response, attributes)
    }

    fn validate_sink(&self, attributes: &UAttributes) -> (r: Result<(), ValidationError>) {
        check_sink(Validators::Response, attributes)
    }

    fn validate_commstatus(&self, attributes: &UAttributes) -> (r: Result<(), ValidationError>) {
        check_commstatus(attributes)
    }

    fn validate_permission_level(&self, attributes: &UAttributes) -> (r: Result<
        (),
        ValidationError,
    >) {
        check_permission_level(attributes)
    }

    fn validate_reqid(&self, attributes: &UAttributes) -> (r: Result<(), ValidationError>) {
        check_reqid(Validators::Response, attributes)
    }

    fn is_expired(&self, attributes: &UAttributes) -> (r: Result<(), ValidationError>) {
        expired_check(attributes)
    }
}

impl UAttributesValidator for Validators {
    open spec fn role(&self) -> Validators {
        *self
    }

    fn validator_name(&self) -> (r: &'static str) {
        match self {
            Validators::Publish => "UAttributesValidator.Publish",
            Validators::Request => "UAttributesValidator.Request",
            Validators::Response => "UAttributesValidator.Response",
        }
    }

    fn validate(&self, attributes: &UAttributes) -> (r: Result<(), ValidationError>) {
        validate_attributes(*self, attributes)
    }

    fn validate_type(&self, attributes: &UAttributes) -> (r: Result<(), ValidationError>) {
        check_type(*self, attributes)
    }

    fn validate_ttl(&self, attributes: &UAttributes) -> (r: Result<(), ValidationError>) {
        check_ttl(*self, attributes)
    }

    fn validate_sink(&self, attributes: &UAttributes) -> (r: Result<(), ValidationError>) {
        check_sink(*self, attributes)
    }

    fn validate_commstatus(&self, attributes: &UAttributes) -> (r: Result<(), ValidationError>) {
        check_commstatus(attributes)
    }

    fn validate_permission_level(&self, attributes: &UAttributes) -> (r: Result<
        (),
        ValidationError,
    >) {
        check_permission_level(attributes)
    }

    fn validate_reqid(&self, attributes: &UAttributes) -> (r: Result<(), ValidationError>) {
        check_reqid(*self, attributes)
    }

    fn is_expired(&self, attributes: &UAttributes) -> (r: Result<(), ValidationError>) {
        expired_check(attributes)
    }
}

/// Law: validation never short-circuits. When both the time-to-live check
/// and the communication-status check fail, the joined failure message
/// contains both individual reasons (and likewise for any other pair,
/// since the message joins every failing check's reason in order).
pub proof fn lemma_validation_aggregates_all(role: Validators, a: UAttributes)
    requires
        spec_ttl_error(role, a.ttl) is Some,
        spec_commstatus_error(a.commstatus) is Some,
    ensures
        (spec_ttl_error(role, a.ttl) matches Some(m1) ==> crate::text::spec_contains(
            spec_join_semi(spec_attr_errors(role, a)),
            m1,
        )),
        (spec_commstatus_error(a.commstatus) matches Some(m2) ==> crate::text::spec_contains(
            spec_join_semi(spec_attr_errors(role, a)),
            m2,
        )),
{
    let e0 = spec_opt_msg(spec_type_error(role, a.message_type));
    let e1 = spec_opt_msg(spec_ttl_error(role, a.ttl));
    let e2 = spec_opt_msg(spec_sink_error(role, a.sink));
    let e3 = spec_opt_msg(spec_commstatus_error(a.commstatus));
    let parts = spec_attr_errors(role, a);
    let i1 = e0.len() as int;
    assert(parts[i1] == e1[0]);
    crate::text::lemma_join_semi_contains(parts, i1);
    let i2 = e0.len() as int + e1.len() as int + e2.len() as int;
    assert(parts[i2] == e3[0]);
    crate::text::lemma_join_semi_contains(parts, i2);
}

/// The role a declared type tag selects: its own role for request and
/// response tags, and the publish validator as the explicit fallback for
/// everything else.
pub open spec fn spec_validator_for(v: i32) -> Validators {
    if v == 2 {
        Validators::Request
    } else if v == 3 {
        Validators::Response
    } else {
        Validators::Publish
    }
}

impl Validators {
    /// The validator for this role; under the table-driven design the
    /// role value itself carries the validation methods.
    pub fn validator(&self) -> (r: Validators)
        ensures
            r == *self,
    {
        *self
    }

    /// Selects the validator matching the attributes' declared type tag,
    /// falling back to the publish validator for unrecognized tags.
    pub fn get_validator(attributes: &UAttributes) -> (r: Validators)
        ensures
            r == spec_validator_for(attributes.message_type),
    {
        match UMessageType::from_i32(attributes.message_type) {
            Some(UMessageType::Request) => Validators::Request,
            Some(UMessageType::Response) => Validators::Response,
            _ => Validators::Publish,
        }
    }
}

} // verus!

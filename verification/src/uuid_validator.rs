//! Per-kind identifier validators: the custom (v8) kind, the legacy
//! time-ordered (v6-like) kind, and an explicit invalid sentinel kind.
//! Each runs three independent sub-checks — version pattern, creation
//! time, variant pattern — and aggregates every failure.

use vstd::prelude::*;

use crate::text::{join_semi, spec_join_semi};
use crate::types::{spec_check_result, spec_opt_msg, ValidationError};
use crate::uuid::UUID;
use crate::uuid_builder::{spec_utils_time, spec_version_nibble, UuidUtils};

verus! {

/// The identifier kinds a validator can be selected for.
#[derive(Clone, Copy, Debug, PartialEq, Eq, Structural)]
pub enum UuidValidators {
    Invalid,
    UUIDv6,
    UUIDv8,
}

/// Why the version sub-check fails for the given kind, if it does.
pub open spec fn spec_version_error(kind: UuidValidators, u: UUID) -> Option<Seq<char>> {
    match kind {
        UuidValidators::Invalid => Some("Invalid UUID Version"@),
        UuidValidators::UUIDv6 => if spec_version_nibble(u) == 6 {
            None
        } else {
            Some("Not a UUIDv6 uuid"@)
        },
        UuidValidators::UUIDv8 => if spec_version_nibble(u) == 8 {
            None
        } else {
            Some("Not a UUIDv8 uuid"@)
        },
    }
}

/// Why the creation-time sub-check fails, if it does: the time must be
/// present and greater than zero.
pub open spec fn spec_time_error(u: UUID) -> Option<Seq<char>> {
    match spec_utils_time(u) {
        Some(t) => if t > 0 {
            None
        } else {
            Some("Invalid UUID Time"@)
        },
        None => Some("Invalid UUID Time"@),
    }
}

/// Why the variant sub-check fails for the given kind, if it does.
pub open spec fn spec_variant_error(kind: UuidValidators, u: UUID) -> Option<Seq<char>> {
    match kind {
        UuidValidators::Invalid => Some("Invalid UUID Variant"@),
        UuidValidators::UUIDv6 => if u.spec_is_rfc_variant() {
            None
        } else {
            Some("Invalid UUIDv6 variant"@)
        },
        UuidValidators::UUIDv8 => None,
    }
}

/// All sub-check failures, in the fixed order version, time, variant.
pub open spec fn spec_uuid_errors(kind: UuidValidators, u: UUID) -> Seq<Seq<char>> {
    spec_opt_msg(spec_version_error(kind, u)) + spec_opt_msg(spec_time_error(u)) + spec_opt_msg(
        spec_variant_error(kind, u),
    )
}

/// A validator for one identifier kind: three independent sub-checks whose
/// failures are all aggregated, never short-circuited.
pub trait UuidValidator {
    spec fn kind(&self) -> UuidValidators;

    /// Runs the version, time and variant sub-checks and joins every
    /// failure with `"; "`.
    fn validate(&self, uuid: &UUID) -> (r: Result<(), ValidationError>)
        ensures
            r is Ok <==> spec_uuid_errors(self.kind(), *uuid).len() == 0,
            r matches Err(e) ==> e.message@ == spec_join_semi(spec_uuid_errors(self.kind(), *uuid)),
    ;

    fn validate_version(&self, uuid: &UUID) -> (r: Result<(), ValidationError>)
        ensures
            spec_check_result(r, spec_version_error(self.kind(), *uuid)),
    ;

    fn validate_time(&self, uuid: &UUID) -> (r: Result<(), ValidationError>)
        ensures
            spec_check_result(r, spec_time_error(*uuid)),
    ;

    fn validate_variant(&self, uuid: &UUID) -> (r: Result<(), ValidationError>)
        ensures
            spec_check_result(r, spec_variant_error(self.kind(), *uuid)),
    ;
}

fn version_error_of(kind: UuidValidators, uuid: &UUID) -> (r: Result<(), ValidationError>)
    ensures
        spec_check_result(r, spec_version_error(kind, *uuid)),
{
    match kind {
        UuidValidators::Invalid => Err(ValidationError::new("Invalid UUID Version")),
        UuidValidators::UUIDv6 => {
            if UuidUtils::is_v6(uuid) {
                Ok(())
            } else {
                Err(ValidationError::new("Not a UUIDv6 uuid"))
            }
        },
        UuidValidators::UUIDv8 => {
            if UuidUtils::is_uprotocol(uuid) {
                Ok(())
            } else {
                Err(ValidationError::new("Not a UUIDv8 uuid"))
            }
        },
    }
}

fn time_error_of(uuid: &UUID) -> (r: Result<(), ValidationError>)
    ensures
        spec_check_result(r, spec_time_error(*uuid)),
{
    match UuidUtils::get_time(uuid) {
        Some(t) => if t > 0 {
            Ok(())
        } else {
            Err(ValidationError::new("Invalid UUID Time"))
        },
        None => Err(ValidationError::new("Invalid UUID Time")),
    }
}

fn variant_error_of(kind: UuidValidators, uuid: &UUID) -> (r: Result<(), ValidationError>)
    ensures
        spec_check_result(r, spec_variant_error(kind, *uuid)),
{
    match kind {
        UuidValidators::Invalid => Err(ValidationError::new("Invalid UUID Variant")),
        UuidValidators::UUIDv6 => {
            if UuidUtils::is_rf4122(uuid) {
                Ok(())
            } else {
                Err(ValidationError::new("Invalid UUIDv6 variant"))
            }
        },
        UuidValidators::UUIDv8 => Ok(()),
    }
}

fn validate_for(kind: UuidValidators, uuid: &UUID) -> (r: Result<(), ValidationError>)
    ensures
        r is Ok <==> spec_uuid_errors(kind, *uuid).len() == 0,
        r matches Err(e) ==> e.message@ == spec_join_semi(spec_uuid_errors(kind, *uuid)),
{
    let ghost f = |p: String| p@;
    let mut parts: Vec<String> = Vec::new();
    match version_error_of(kind, uuid) {
        Ok(_) => {},
        Err(e) => parts.push(e.message),
    }
    proof {
        assert(parts@.map_values(f) =~= spec_opt_msg(spec_version_error(kind, *uuid)));
    }
    match time_error_of(uuid) {
        Ok(_) => {},
        Err(e) => parts.push(e.message),
    }
    proof {
        assert(parts@.map_values(f) =~= spec_opt_msg(spec_version_error(kind, *uuid))
            + spec_opt_msg(spec_time_error(*uuid)));
    }
    match variant_error_of(kind, uuid) {
        Ok(_) => {},
        Err(e) => parts.push(e.message),
    }
    proof {
        assert(parts@.map_values(f) =~= spec_uuid_errors(kind, *uuid));
    }
    if parts.len() == 0 {
        Ok(())
    } else {
        Err(ValidationError::from_string(join_semi(&parts)))
    }
}

/// Validator for the explicit invalid sentinel kind: every sub-check
/// fails.
pub struct InvalidValidator;

impl UuidValidator for InvalidValidator {
    open spec fn kind(&self) -> UuidValidators {
        UuidValidators::Invalid
    }

    fn validate(&self, uuid: &UUID) -> (r: Result<(), ValidationError>) {
        validate_for(UuidValidators::Invalid, uuid)
    }

    fn validate_version(&self, uuid: &UUID) -> (r: Result<(), ValidationError>) {
        version_error_of(UuidValidators::Invalid, uuid)
    }

    fn validate_time(&self, uuid: &UUID) -> (r: Result<(), ValidationError>) {
        time_error_of(uuid)
    }

    fn validate_variant(&self, uuid: &UUID) -> (r: Result<(), ValidationError>) {
        variant_error_of(UuidValidators::Invalid, uuid)
    }
}

/// Validator for the legacy time-ordered (v6-like) kind.
pub struct UUIDv6Validator;

impl UuidValidator for UUIDv6Validator {
    open spec fn kind(&self) -> UuidValidators {
        UuidValidators::UUIDv6
    }

    fn validate(&self, uuid: &UUID) -> (r: Result<(), ValidationError>) {
        validate_for(UuidValidators::UUIDv6, uuid)
    }

    fn validate_version(&self, uuid: &UUID) -> (r: Result<(), ValidationError>) {
        version_error_of(UuidValidators::UUIDv6, uuid)
    }

    fn validate_time(&self, uuid: &UUID) -> (r: Result<(), ValidationError>) {
        time_error_of(uuid)
    }

    fn validate_variant(&self, uuid: &UUID) -> (r: Result<(), ValidationError>) {
        variant_error_of(UuidValidators::UUIDv6, uuid)
    }
}

/// Validator for the custom (v8) kind.
pub struct UUIDv8Validator;

impl UuidValidator for UUIDv8Validator {
    open spec fn kind(&self) -> UuidValidators {
        UuidValidators::UUIDv8
    }

    fn validate(&self, uuid: &UUID) -> (r: Result<(), ValidationError>) {
        validate_for(UuidValidators::UUIDv8, uuid)
    }

    fn validate_version(&self, uuid: &UUID) -> (r: Result<(), ValidationError>) {
        version_error_of(UuidValidators::UUIDv8, uuid)
    }

    fn validate_time(&self, uuid: &UUID) -> (r: Result<(), ValidationError>) {
        time_error_of(uuid)
    }

    fn validate_variant(&self, uuid: &UUID) -> (r: Result<(), ValidationError>) {
        variant_error_of(UuidValidators::UUIDv8, uuid)
    }
}

impl UuidValidator for UuidValidators {
    open spec fn kind(&self) -> UuidValidators {
        *self
    }

    fn validate(&self, uuid: &UUID) -> (r: Result<(), ValidationError>) {
        validate_for(*self, uuid)
    }

    fn validate_version(&self, uuid: &UUID) -> (r: Result<(), ValidationError>) {
        version_error_of(*self, uuid)
    }

    fn validate_time(&self, uuid: &UUID) -> (r: Result<(), ValidationError>) {
        time_error_of(uuid)
    }

    fn validate_variant(&self, uuid: &UUID) -> (r: Result<(), ValidationError>) {
        variant_error_of(*self, uuid)
    }
}

impl UuidValidators {
    /// The validator for this kind; under the table-driven design the kind
    /// itself carries the validation methods.
    pub fn validator(&self) -> (r: UuidValidators)
        ensures
            r == *self,
    {
        *self
    }

    /// Selects the validator matching the identifier's version nibble,
    /// falling back to the invalid sentinel kind.
    pub fn get_validator(uuid: &UUID) -> (r: UuidValidators)
        ensures
            r == (if spec_version_nibble(*uuid) == 6 {
                UuidValidators::UUIDv6
            } else if spec_version_nibble(*uuid) == 8 {
                UuidValidators::UUIDv8
            } else {
                UuidValidators::Invalid
            }),
    {
        if UuidUtils::is_v6(uuid) {
            UuidValidators::UUIDv6
        } else if UuidUtils::is_uprotocol(uuid) {
            UuidValidators::UUIDv8
        } else {
            UuidValidators::Invalid
        }
    }
}

} // verus!

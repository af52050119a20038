//! Role selection for event-envelope validation. An envelope adapter
//! extracts the declared type tag from a wire envelope and selects the
//! validator role here; an unrecognized tag selects the publish validator
//! as an explicit fallback, never a silent pass.

use vstd::prelude::*;

use crate::uattributes::{spec_message_type_name, UMessageType};

verus! {

/// The validator roles for event envelopes: a notification is a publish
/// envelope that must also carry a sink.
#[derive(Clone, Copy, Debug, PartialEq, Eq, Structural)]
pub enum CloudEventValidators {
    Response,
    Request,
    Publish,
    Notification,
}

/// The role selected for a declared type-tag name.
pub open spec fn spec_ce_validator_for(name: Seq<char>) -> CloudEventValidators {
    if name == spec_message_type_name(UMessageType::Response) {
        CloudEventValidators::Response
    } else if name == spec_message_type_name(UMessageType::Request) {
        CloudEventValidators::Request
    } else {
        CloudEventValidators::Publish
    }
}

impl CloudEventValidators {
    /// The validator for this role; the role value itself stands for its
    /// validator under the table-driven design.
    pub fn validator(&self) -> (r: CloudEventValidators)
        ensures
            r == *self,
    {
        *self
    }

    /// Selects the validator for a declared type-tag name: request and
    /// response envelopes get their own validator, everything else —
    /// including an unrecognized tag — the publish validator.
    pub fn get_validator(type_tag: &str) -> (r: CloudEventValidators)
        ensures
            r == spec_ce_validator_for(type_tag@),
    {
        proof {
            reveal_strlit("UMESSAGE_TYPE_UNSPECIFIED");
            reveal_strlit("UMESSAGE_TYPE_PUBLISH");
            reveal_strlit("UMESSAGE_TYPE_REQUEST");
            reveal_strlit("UMESSAGE_TYPE_RESPONSE");
            assert("UMESSAGE_TYPE_PUBLISH"@.len() == 21 && "UMESSAGE_TYPE_REQUEST"@.len() == 21
                && "UMESSAGE_TYPE_RESPONSE"@.len() == 22 && "UMESSAGE_TYPE_UNSPECIFIED"@.len()
                == 25);
            assert("UMESSAGE_TYPE_PUBLISH"@[14] == 'P' && "UMESSAGE_TYPE_REQUEST"@[14] == 'R');
            assert("UMESSAGE_TYPE_PUBLISH"@ != "UMESSAGE_TYPE_REQUEST"@);
        }
        match UMessageType::from_str_name(type_tag) {
            Some(UMessageType::Response) => CloudEventValidators::Response,
            Some(UMessageType::Request) => CloudEventValidators::Request,
            _ => CloudEventValidators::Publish,
        }
    }
}

} // verus!

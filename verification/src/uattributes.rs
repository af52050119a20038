//! Message attributes: the metadata envelope validated as a unit, its
//! role tag, priority, the closed set of communication-status codes, and
//! the builder that assembles attributes for each message role.

use vstd::prelude::*;

use crate::uri::UUri;
use crate::uuid::UUID;
use crate::uuid_builder::UUIDv8Builder;

verus! {

/// The declared role of a message.
#[derive(Clone, Copy, Debug, PartialEq, Eq, Structural)]
pub enum UMessageType {
    Unspecified,
    Publish,
    Request,
    Response,
}

/// The role tag encoded by a numeric type value, when recognized.
pub open spec fn spec_message_type_of(v: i32) -> Option<UMessageType> {
    if v == 0 {
        Some(UMessageType::Unspecified)
    } else if v == 1 {
        Some(UMessageType::Publish)
    } else if v == 2 {
        Some(UMessageType::Request)
    } else if v == 3 {
        Some(UMessageType::Response)
    } else {
        None
    }
}

/// The wire name of each role tag.
pub open spec fn spec_message_type_name(t: UMessageType) -> Seq<char> {
    match t {
        UMessageType::Unspecified => "UMESSAGE_TYPE_UNSPECIFIED"@,
        UMessageType::Publish => "UMESSAGE_TYPE_PUBLISH"@,
        UMessageType::Request => "UMESSAGE_TYPE_REQUEST"@,
        UMessageType::Response => "UMESSAGE_TYPE_RESPONSE"@,
    }
}

impl UMessageType {
    /// Reads a role tag from its numeric value.
    pub fn from_i32(v: i32) -> (r: Option<UMessageType>)
        ensures
            r == spec_message_type_of(v),
    {
        if v == 0 {
            Some(UMessageType::Unspecified)
        } else if v == 1 {
            Some(UMessageType::Publish)
        } else if v == 2 {
            Some(UMessageType::Request)
        } else if v == 3 {
            Some(UMessageType::Response)
        } else {
            None
        }
    }

    /// The numeric value of this role tag.
    pub fn to_i32(&self) -> (r: i32)
        ensures
            spec_message_type_of(r) == Some(*self),
    {
        match self {
            UMessageType::Unspecified => 0,
            UMessageType::Publish => 1,
            UMessageType::Request => 2,
            UMessageType::Response => 3,
        }
    }

    /// The wire name of this role tag.
    pub fn as_str_name(&self) -> (r: &'static str)
        ensures
            r@ == spec_message_type_name(*self),
    {
        match self {
            UMessageType::Unspecified => "UMESSAGE_TYPE_UNSPECIFIED",
            UMessageType::Publish => "UMESSAGE_TYPE_PUBLISH",
            UMessageType::Request => "UMESSAGE_TYPE_REQUEST",
            UMessageType::Response => "UMESSAGE_TYPE_RESPONSE",
        }
    }

    /// Reads a role tag from its wire name.
    pub fn from_str_name(name: &str) -> (r: Option<UMessageType>)
        ensures
            r matches Some(t) ==> name@ == spec_message_type_name(t),
            r is None ==> (forall|t: UMessageType| name@ != spec_message_type_name(t)),
    {
        if crate::text::str_eq(name, "UMESSAGE_TYPE_UNSPECIFIED") {
            Some(UMessageType::Unspecified)
        } else if crate::text::str_eq(name, "UMESSAGE_TYPE_PUBLISH") {
            Some(UMessageType::Publish)
        } else if crate::text::str_eq(name, "UMESSAGE_TYPE_REQUEST") {
            Some(UMessageType::Request)
        } else if crate::text::str_eq(name, "UMESSAGE_TYPE_RESPONSE") {
            Some(UMessageType::Response)
        } else {
            None
        }
    }
}

/// The closed set of recognized communication-status codes.
#[derive(Clone, Copy, Debug, PartialEq, Eq, Structural)]
pub enum UCode {
    Okay,
    Cancelled,
    Unknown,
    InvalidArgument,
    DeadlineExceeded,
    NotFound,
    AlreadyExists,
    PermissionDenied,
    ResourceExhausted,
    FailedPrecondition,
    Aborted,
    OutOfRange,
    Unimplemented,
    Internal,
    Unavailable,
    DataLoss,
    Unauthenticated,
}

/// A numeric value is a recognized communication-status code.
pub open spec fn spec_code_recognized(v: i32) -> bool {
    0 <= v <= 16
}

impl UCode {
    /// Reads a status code from its numeric value; membership in the
    /// closed set is all that commstatus validation checks.
    pub fn from_i32(v: i32) -> (r: Option<UCode>)
        ensures
            r is Some <==> spec_code_recognized(v),
    {
        if v == 0 {
            Some(UCode::Okay)
        } else if v == 1 {
            Some(UCode::Cancelled)
        } else if v == 2 {
            Some(UCode::Unknown)
        } else if v == 3 {
            Some(UCode::InvalidArgument)
        } else if v == 4 {
            Some(UCode::DeadlineExceeded)
        } else if v == 5 {
            Some(UCode::NotFound)
        } else if v == 6 {
            Some(UCode::AlreadyExists)
        } else if v == 7 {
            Some(UCode::PermissionDenied)
        } else if v == 8 {
            Some(UCode::ResourceExhausted)
        } else if v == 9 {
            Some(UCode::FailedPrecondition)
        } else if v == 10 {
            Some(UCode::Aborted)
        } else if v == 11 {
            Some(UCode::OutOfRange)
        } else if v == 12 {
            Some(UCode::Unimplemented)
        } else if v == 13 {
            Some(UCode::Internal)
        } else if v == 14 {
            Some(UCode::Unavailable)
        } else if v == 15 {
            Some(UCode::DataLoss)
        } else if v == 16 {
            Some(UCode::Unauthenticated)
        } else {
            None
        }
    }
}

/// Message priority classes; carried through but not validated.
#[derive(Clone, Copy, Debug, PartialEq, Eq, Structural)]
pub enum UPriority {
    UpriorityUnspecified,
    UpriorityCs0,
    UpriorityCs1,
    UpriorityCs2,
    UpriorityCs3,
    UpriorityCs4,
    UpriorityCs5,
    UpriorityCs6,
}

impl UPriority {
    pub fn to_i32(&self) -> (r: i32)
        ensures
            0 <= r <= 7,
    {
        match self {
            UPriority::UpriorityUnspecified => 0,
            UPriority::UpriorityCs0 => 1,
            UPriority::UpriorityCs1 => 2,
            UPriority::UpriorityCs2 => 3,
            UPriority::UpriorityCs3 => 4,
            UPriority::UpriorityCs4 => 5,
            UPriority::UpriorityCs5 => 6,
            UPriority::UpriorityCs6 => 7,
        }
    }
}

/// The metadata envelope of one message. Validators read it and never
/// change it.
#[derive(Clone, Debug)]
pub struct UAttributes {
    /// The message's own identifier, used for expiration.
    pub id: Option<UUID>,
    /// The declared role tag, as its numeric value.
    pub message_type: i32,
    /// The priority class, as its numeric value.
    pub priority: i32,
    /// Time to live in milliseconds.
    pub ttl: Option<i32>,
    /// An access token, carried through unvalidated.
    pub token: Option<String>,
    /// The destination address.
    pub sink: Option<UUri>,
    /// The required permission level.
    pub permission_level: Option<u32>,
    /// A communication-status code.
    pub commstatus: Option<i32>,
    /// The correlation identifier of the request this answers.
    pub reqid: Option<UUID>,
}

impl Default for UAttributes {
    fn default() -> (r: Self)
        ensures
            r.id is None,
            r.message_type == 0,
            r.priority == 0,
            r.ttl is None,
            r.token is None,
            r.sink is None,
            r.permission_level is None,
            r.commstatus is None,
            r.reqid is None,
    {
        UAttributes {
            id: None,
            message_type: 0,
            priority: 0,
            ttl: None,
            token: None,
            sink: None,
            permission_level: None,
            commstatus: None,
            reqid: None,
        }
    }
}

/// Assembles attributes for one message role; each message gets a fresh
/// identifier minted for the current instant.
pub struct UAttributesBuilder {
    attributes: UAttributes,
}

impl UAttributesBuilder {
    /// The attributes assembled so far.
    pub closed spec fn spec_attributes(&self) -> UAttributes {
        self.attributes
    }

    fn base(message_type: i32, priority: UPriority) -> (b: UAttributesBuilder)
        ensures
            b.spec_attributes().message_type == message_type,
            b.spec_attributes().id matches Some(u) && u.spec_is_uprotocol_uuid(),
            b.spec_attributes().ttl is None,
            b.spec_attributes().token is None,
            b.spec_attributes().sink is None,
            b.spec_attributes().permission_level is None,
            b.spec_attributes().commstatus is None,
            b.spec_attributes().reqid is None,
    {
        let mut minter = UUIDv8Builder::new();
        let id = minter.build();
        UAttributesBuilder {
            attributes: UAttributes {
                id: Some(id),
                message_type,
                priority: priority.to_i32(),
                ttl: None,
                token: None,
                sink: None,
                permission_level: None,
                commstatus: None,
                reqid: None,
            },
        }
    }

    /// Starts attributes for a publish message.
    pub fn publish(priority: UPriority) -> (b: UAttributesBuilder)
        ensures
            b.spec_attributes().message_type == 1,
            b.spec_attributes().id matches Some(u) && u.spec_is_uprotocol_uuid(),
            b.spec_attributes().ttl is None,
            b.spec_attributes().sink is None,
            b.spec_attributes().permission_level is None,
            b.spec_attributes().commstatus is None,
            b.spec_attributes().reqid is None,
    {
        Self::base(1, priority)
    }

    /// Starts attributes for a publish message directed at a sink
    /// (a notification).
    pub fn notification(priority: UPriority, sink: UUri) -> (b: UAttributesBuilder)
        ensures
            b.spec_attributes().message_type == 1,
            b.spec_attributes().id matches Some(u) && u.spec_is_uprotocol_uuid(),
            b.spec_attributes().sink == Some(sink),
            b.spec_attributes().ttl is None,
            b.spec_attributes().permission_level is None,
            b.spec_attributes().commstatus is None,
            b.spec_attributes().reqid is None,
    {
        let mut b = Self::base(1, priority);
        b.attributes.sink = Some(sink);
        b
    }

    /// Starts attributes for an RPC request: the sink and the time to
    /// live are required for that role.
    pub fn request(priority: UPriority, sink: UUri, ttl: i32) -> (b: UAttributesBuilder)
        ensures
            b.spec_attributes().message_type == 2,
            b.spec_attributes().id matches Some(u) && u.spec_is_uprotocol_uuid(),
            b.spec_attributes().sink == Some(sink),
            b.spec_attributes().ttl == Some(ttl),
            b.spec_attributes().permission_level is None,
            b.spec_attributes().commstatus is None,
            b.spec_attributes().reqid is None,
    {
        let mut b = Self::base(2, priority);
        b.attributes.sink = Some(sink);
        b.attributes.ttl = Some(ttl);
        b
    }

    /// Starts attributes for an RPC response: the sink and the
    /// correlation identifier are required for that role.
    pub fn response(priority: UPriority, sink: UUri, reqid: UUID) -> (b: UAttributesBuilder)
        ensures
            b.spec_attributes().message_type == 3,
            b.spec_attributes().id matches Some(u) && u.spec_is_uprotocol_uuid(),
            b.spec_attributes().sink == Some(sink),
            b.spec_attributes().reqid == Some(reqid),
            b.spec_attributes().ttl is None,
            b.spec_attributes().permission_level is None,
            b.spec_attributes().commstatus is None,
    {
        let mut b = Self::base(3, priority);
        b.attributes.sink = Some(sink);
        b.attributes.reqid = Some(reqid);
        b
    }

    pub fn with_ttl(self, ttl: i32) -> (b: UAttributesBuilder)
        ensures
            b.spec_attributes() == (UAttributes { ttl: Some(ttl), ..self.spec_attributes() }),
    {
        let mut b = self;
        b.attributes.ttl = Some(ttl);
        b
    }

    pub fn with_sink(self, sink: UUri) -> (b: UAttributesBuilder)
        ensures
            b.spec_attributes() == (UAttributes { sink: Some(sink), ..self.spec_attributes() }),
    {
        let mut b = self;
        b.attributes.sink = Some(sink);
        b
    }

    pub fn with_permission_level(self, level: u32) -> (b: UAttributesBuilder)
        ensures
            b.spec_attributes() == (UAttributes {
                permission_level: Some(level),
                ..self.spec_attributes()
            }),
    {
        let mut b = self;
        b.attributes.permission_level = Some(level);
        b
    }

    pub fn with_commstatus(self, commstatus: i32) -> (b: UAttributesBuilder)
        ensures
            b.spec_attributes() == (UAttributes {
                commstatus: Some(commstatus),
                ..self.spec_attributes()
            }),
    {
        let mut b = self;
        b.attributes.commstatus = Some(commstatus);
        b
    }

    pub fn with_reqid(self, reqid: UUID) -> (b: UAttributesBuilder)
        ensures
            b.spec_attributes() == (UAttributes { reqid: Some(reqid), ..self.spec_attributes() }),
    {
        let mut b = self;
        b.attributes.reqid = Some(reqid);
        b
    }

    pub fn with_token(self, token: &str) -> (b: UAttributesBuilder)
        ensures
            b.spec_attributes().token matches Some(t) && t@ == token@,
            b.spec_attributes() == (UAttributes {
                token: b.spec_attributes().token,
                ..self.spec_attributes()
            }),
    {
        let mut b = self;
        b.attributes.token = Some(String::from_str(token));
        b
    }

    /// The assembled attributes.
    pub fn build(self) -> (r: UAttributes)
        ensures
            r == self.spec_attributes(),
    {
        self.attributes
    }
}

} // verus!

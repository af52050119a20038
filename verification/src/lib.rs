//! Core value types of a publish/subscribe and RPC messaging protocol:
//! hierarchical addresses with their textual wire form and role predicates,
//! 128-bit time-ordered identifiers with a fixed version/variant bit layout,
//! and the attribute-validation rules for publish, request and response
//! messages.

pub mod cloudevent_validator;
pub mod text;
pub mod uattributes;
pub mod uattributes_validator;
pub mod types;
pub mod uri;
pub mod uri_serializer;
pub mod uri_validator;
pub mod uuid;
pub mod uuid_builder;
pub mod uuid_serializer;
pub mod uuid_validator;

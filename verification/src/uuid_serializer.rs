//! Serialization of identifiers to and from their two wire forms: the
//! hyphenated text form and the compact 16-byte form.

use vstd::prelude::*;

use crate::uuid::{
    parse_hyphenated, spec_byte_of_word, spec_hyphenated, spec_parse_hyphenated, spec_uuid_bytes,
    spec_word_of_bytes, words_of_bytes, UUID,
};

verus! {

/// Error returned when text does not hold a well-formed identifier.
#[derive(Debug)]
pub struct UuidSerializationError;

fn byte_of(x: u64, sh: u64) -> (r: u8)
    requires
        sh <= 56,
    ensures
        r == ((x >> sh) & 0xFF) as u8,
{
    proof {
        assert((x >> sh) & 0xFF < 256) by (bit_vector);
    }
    ((x >> sh) & 0xFF) as u8
}

/// Serializes identifiers to and from the hyphenated text form.
pub struct LongUuidSerializer;

impl LongUuidSerializer {
    /// The canonical lower-case hyphenated text of the identifier.
    pub fn serialize(uuid: &UUID) -> (r: String)
        ensures
            r@ == spec_hyphenated(uuid.msb, uuid.lsb),
    {
        uuid.to_hyphenated_string()
    }

    /// Reads an identifier from hyphenated text, case-insensitive; the
    /// version and variant bit patterns are *not* checked here.
    pub fn deserialize(uuid: String) -> (r: Result<UUID, UuidSerializationError>)
        ensures
            r is Ok <==> spec_parse_hyphenated(uuid@) is Some,
            r matches Ok(u) ==> spec_parse_hyphenated(uuid@) == Some((u.msb, u.lsb)),
    {
        match parse_hyphenated(uuid.as_str()) {
            Some((msb, lsb)) => Ok(UUID { msb, lsb }),
            None => Err(UuidSerializationError),
        }
    }
}

/// Serializes identifiers to and from the compact 16-byte form.
pub struct MicroUuidSerializer;

impl MicroUuidSerializer {
    /// The 16 big-endian bytes of the identifier.
    pub fn serialize(uuid: &UUID) -> (r: [u8; 16])
        ensures
            r@ == spec_uuid_bytes(uuid.msb, uuid.lsb),
    {
        let m = uuid.msb;
        let l = uuid.lsb;
        let r: [u8; 16] = [
            byte_of(m, 56),
            byte_of(m, 48),
            byte_of(m, 40),
            byte_of(m, 32),
            byte_of(m, 24),
            byte_of(m, 16),
            byte_of(m, 8),
            byte_of(m, 0),
            byte_of(l, 56),
            byte_of(l, 48),
            byte_of(l, 40),
            byte_of(l, 32),
            byte_of(l, 24),
            byte_of(l, 16),
            byte_of(l, 8),
            byte_of(l, 0),
        ];
        proof {
            assert forall|i: int| 0 <= i < 16 implies r@[i] == spec_uuid_bytes(m, l)[i] by {
                if i < 8 {
                    assert(spec_uuid_bytes(m, l)[i] == spec_byte_of_word(m, i));
                } else {
                    assert(spec_uuid_bytes(m, l)[i] == spec_byte_of_word(l, i - 8));
                }
            }
            assert(r@ =~= spec_uuid_bytes(m, l));
        }
        r
    }

    /// Reads an identifier from its 16 big-endian bytes; every byte array
    /// yields a value, and the bit patterns are *not* checked here.
    pub fn deserialize(bytes: [u8; 16]) -> (r: Result<UUID, UuidSerializationError>)
        ensures
            r matches Ok(u) && u == (UUID {
                msb: spec_word_of_bytes(bytes@, 0),
                lsb: spec_word_of_bytes(bytes@, 8),
            }),
    {
        let (msb, lsb) = words_of_bytes(&bytes);
        Ok(UUID { msb, lsb })
    }
}

} // verus!

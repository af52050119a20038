//! Minting of time-ordered identifiers, the version-nibble utilities, and
//! the one wall-clock read the library makes.

use vstd::prelude::*;

use crate::uuid::{UUID, VARIANT_RFC4122, VERSION_CUSTOM};

verus! {

/// Version pattern of the legacy time-ordered (v6-like) identifier kind.
pub const VERSION_TIME_ORDERED: u64 = 0x6000;

/// 100-nanosecond intervals between the Gregorian epoch (1582-10-15) and
/// the Unix epoch (1970-01-01).
pub const TICKS_BETWEEN_EPOCHS: u64 = 0x01B2_1DD2_1381_4000;

#[verifier::external_type_specification]
#[verifier::external_body]
pub struct ExSystemTime(std::time::SystemTime);

/// Relies on `std::time::SystemTime::now` for the current wall-clock time.
#[verifier::external_body]
fn system_time_now() -> std::time::SystemTime {
    std::time::SystemTime::now()
}

/// Relies on `std::time::SystemTime::duration_since`: the milliseconds
/// between the Unix epoch and `t`, or, when `t` lies before the epoch, the
/// clock error's description behind a clock-error label. The label is
/// written by this wrapper itself, so every error this function returns
/// starts with it.
#[verifier::external_body]
fn millis_since_unix_epoch(t: &std::time::SystemTime) -> (r: Result<u64, String>)
    ensures
        r matches Err(e) ==> e@.len() >= 12 && e@.subrange(0, 12) == "clock error:"@,
{
    match t.duration_since(std::time::SystemTime::UNIX_EPOCH) {
        Ok(d) => Ok(d.as_millis() as u64),
        Err(e) => Err(format!("clock error: {}", e)),
    }
}

/// Reads the wall clock once: milliseconds since the Unix epoch, or a
/// labelled description of the clock error.
pub fn now_millis() -> (r: Result<u64, String>)
    ensures
        r matches Err(e) ==> e@.len() >= 12 && e@.subrange(0, 12) == "clock error:"@,
{
    let t = system_time_now();
    millis_since_unix_epoch(&t)
}

/// The version nibble of an identifier's high word.
pub open spec fn spec_version_nibble(u: UUID) -> u64 {
    (u.msb >> 12) & 0xF
}

/// The 60-bit Gregorian tick count embedded in a legacy time-ordered
/// identifier's high word.
pub open spec fn spec_v6_ticks(msb: u64) -> u64 {
    ((msb >> 32) << 28) | (((msb >> 16) & 0xFFFF) << 12) | (msb & 0xFFF)
}

/// The Unix milliseconds of a legacy time-ordered identifier, zero for
/// tick counts before the Unix epoch.
pub open spec fn spec_v6_unix_ms(msb: u64) -> u64 {
    if spec_v6_ticks(msb) >= TICKS_BETWEEN_EPOCHS {
        (((spec_v6_ticks(msb) - TICKS_BETWEEN_EPOCHS) as u64) / 10000u64) as u64
    } else {
        0
    }
}

/// The creation time read by the version nibble alone: the 48-bit field
/// for the custom kind, the converted Gregorian ticks for the legacy kind,
/// nothing for other kinds. Unlike the identifier's own time accessor,
/// this does not require the variant bits to match.
pub open spec fn spec_utils_time(u: UUID) -> Option<u64> {
    if spec_version_nibble(u) == 8 {
        Some(u.msb >> 16)
    } else if spec_version_nibble(u) == 6 {
        Some(spec_v6_unix_ms(u.msb))
    } else {
        None
    }
}

/// Utilities that read identifiers by their version nibble, accepting the
/// custom kind and the legacy time-ordered kind.
pub struct UuidUtils;

impl UuidUtils {
    /// The version nibble equals the custom pattern; the variant is not
    /// checked here.
    pub fn is_uprotocol(uuid: &UUID) -> (r: bool)
        ensures
            r == (spec_version_nibble(*uuid) == 8),
    {
        (uuid.msb >> 12) & 0xF == 8
    }

    /// The version nibble equals the legacy time-ordered pattern.
    pub fn is_v6(uuid: &UUID) -> (r: bool)
        ensures
            r == (spec_version_nibble(*uuid) == 6),
    {
        (uuid.msb >> 12) & 0xF == 6
    }

    /// A syntactically recognized identifier kind: custom or legacy.
    pub fn is_uuid(uuid: &UUID) -> (r: bool)
        ensures
            r == (spec_version_nibble(*uuid) == 8 || spec_version_nibble(*uuid) == 6),
    {
        Self::is_uprotocol(uuid) || Self::is_v6(uuid)
    }

    /// The variant bits match the RFC 4122 pattern.
    pub fn is_rf4122(uuid: &UUID) -> (r: bool)
        ensures
            r == uuid.spec_is_rfc_variant(),
    {
        uuid.is_rfc_variant()
    }

    /// The creation time of a custom or legacy identifier, read by the
    /// version nibble alone.
    pub fn get_time(uuid: &UUID) -> (r: Option<u64>)
        ensures
            r == spec_utils_time(*uuid),
    {
        let nibble = (uuid.msb >> 12) & 0xF;
        if nibble == 8 {
            Some(uuid.msb >> 16)
        } else if nibble == 6 {
            let ticks = ((uuid.msb >> 32) << 28) | (((uuid.msb >> 16) & 0xFFFF) << 12) | (uuid.msb
                & 0xFFF);
            if ticks >= TICKS_BETWEEN_EPOCHS {
                Some((ticks - TICKS_BETWEEN_EPOCHS) / 10000)
            } else {
                Some(0)
            }
        } else {
            None
        }
    }
}

/// The high word of a custom identifier: 48 bits of timestamp, the custom
/// version pattern, and a 12-bit counter.
pub open spec fn spec_v8_pack(t: u64, c: u64) -> u64 {
    ((t & 0xFFFF_FFFF_FFFF) << 16) | VERSION_CUSTOM | (c & 0xFFF)
}

/// One minting step for the raw instant `raw`: the builder's timestamp
/// state becomes the 48-bit truncation of `raw`, the counter steps within
/// the same instant (holding at its 12-bit ceiling) and resets on a new
/// one, and the minted high word packs that timestamp and counter.
pub open spec fn spec_mint_step(raw: u64, pre: UUIDv8Builder, post: UUIDv8Builder, r: UUID) -> bool {
    let t = raw & 0xFFFF_FFFF_FFFF;
    &&& post.spec_last_time() == t
    &&& post.spec_counter() == (if t == pre.spec_last_time() {
        if pre.spec_counter() < 0xFFF {
            (pre.spec_counter() + 1) as u64
        } else {
            pre.spec_counter()
        }
    } else {
        0
    })
    &&& r.msb == spec_v8_pack(t, post.spec_counter())
    &&& r.msb >> 16 == t
}

/// Mints custom (v8) identifiers: 48-bit millisecond timestamp, the
/// custom version pattern, and a counter that disambiguates identifiers
/// minted within one millisecond.
pub struct UUIDv8Builder {
    last_time: u64,
    counter: u64,
    lsb: u64,
}

impl UUIDv8Builder {
    pub closed spec fn spec_counter(&self) -> u64 {
        self.counter
    }

    pub closed spec fn spec_last_time(&self) -> u64 {
        self.last_time
    }

    /// The fixed variant-and-randomness low word every minted identifier
    /// carries; it never changes after construction.
    pub closed spec fn spec_lsb(&self) -> u64 {
        self.lsb
    }

    pub fn new() -> (b: UUIDv8Builder)
        ensures
            b.spec_last_time() == 0,
            b.spec_counter() == 0,
    {
        let seed = match now_millis() {
            Ok(t) => t,
            Err(_) => 0,
        };
        UUIDv8Builder {
            last_time: 0,
            counter: 0,
            lsb: VARIANT_RFC4122 | (seed & 0x3FFF_FFFF_FFFF_FFFF),
        }
    }

    /// Mints an identifier for the current instant.
    pub fn build(&mut self) -> (r: UUID)
        ensures
            r.spec_is_uprotocol_uuid(),
            spec_utils_time(r) == Some(r.msb >> 16),
            final(self).spec_lsb() == old(self).spec_lsb(),
            r.lsb == ((old(self).spec_lsb() & 0x3FFF_FFFF_FFFF_FFFF) | VARIANT_RFC4122),
    {
        self.build_with_instant(0)
    }

    /// Mints an identifier for the given millisecond instant; an instant
    /// of zero stands for the current time. Within one instant the
    /// counter increases (up to its 12-bit ceiling), so identifiers of
    /// one millisecond stay strictly ordered.
    pub fn build_with_instant(&mut self, instant: u64) -> (r: UUID)
        ensures
            r.spec_is_uprotocol_uuid(),
            spec_utils_time(r) == Some(r.msb >> 16),
            final(self).spec_lsb() == old(self).spec_lsb(),
            r.lsb == ((old(self).spec_lsb() & 0x3FFF_FFFF_FFFF_FFFF) | VARIANT_RFC4122),
            instant != 0 ==> spec_mint_step(instant, *old(self), *final(self), r),
            instant == 0 ==> exists|raw: u64|
                raw > 0 && #[trigger] spec_mint_step(raw, *old(self), *final(self), r),
    {
        let raw: u64 = if instant == 0 {
            match now_millis() {
                Ok(t) => if t > 0 {
                    t
                } else {
                    1
                },
                Err(_) => if self.last_time > 0 {
                    self.last_time
                } else {
                    1
                },
            }
        } else {
            instant
        };
        let t = raw & 0xFFFF_FFFF_FFFF;
        if t == self.last_time {
            if self.counter < 0xFFF {
                self.counter = self.counter + 1;
            }
        } else {
            self.last_time = t;
            self.counter = 0;
        }
        let c = self.counter;
        let base = self.lsb;
        let msb = (t << 16) | VERSION_CUSTOM | (c & 0xFFF);
        let lsb = (base & 0x3FFF_FFFF_FFFF_FFFF) | VARIANT_RFC4122;
        proof {
            assert(t & 0xFFFF_FFFF_FFFF == t) by (bit_vector)
                requires
                    t == raw & 0xFFFF_FFFF_FFFF,
            ;
            assert(msb == spec_v8_pack(t, c));
            assert((((t & 0xFFFF_FFFF_FFFF) << 16) | 0x8000u64 | (c & 0xFFF)) & 0xF000u64
                == 0x8000u64) by (bit_vector);
            assert((((t & 0xFFFF_FFFF_FFFF) << 16) | 0x8000u64 | (c & 0xFFF)) >> 16 == (t
                & 0xFFFF_FFFF_FFFF)) by (bit_vector);
            assert(((((t & 0xFFFF_FFFF_FFFF) << 16) | 0x8000u64 | (c & 0xFFF)) >> 12) & 0xF
                == 8) by (bit_vector);
            assert(lsb & 0xC000_0000_0000_0000u64 == 0x8000_0000_0000_0000u64) by (bit_vector)
                requires
                    lsb == (base & 0x3FFF_FFFF_FFFF_FFFF) | 0x8000_0000_0000_0000u64,
            ;
            assert(spec_mint_step(raw, *old(self), *self, UUID { msb, lsb }));
            if instant == 0 {
                assert(raw > 0);
            }
        }
        UUID { msb, lsb }
    }
}

/// Law: identifiers packed for the same millisecond with counters
/// `c1 < c2` order strictly under 128-bit comparison.
pub proof fn lemma_same_instant_counter_orders(t: u64, c1: u64, c2: u64, lsb: u64)
    requires
        c1 < c2,
        c2 <= 0xFFF,
    ensures
        (UUID { msb: spec_v8_pack(t, c1), lsb }).spec_as_u128() < (UUID {
            msb: spec_v8_pack(t, c2),
            lsb,
        }).spec_as_u128(),
{
    let m1 = spec_v8_pack(t, c1);
    let m2 = spec_v8_pack(t, c2);
    assert(((t & 0xFFFF_FFFF_FFFF) << 16 | 0x8000u64 | (c1 & 0xFFF)) < ((t
        & 0xFFFF_FFFF_FFFF) << 16 | 0x8000u64 | (c2 & 0xFFF))) by (bit_vector)
        requires
            c1 < c2,
            c2 <= 0xFFF,
    ;
    assert(m1 < m2 ==> ((m1 as u128) << 64 | (lsb as u128)) < ((m2 as u128) << 64 | (
    lsb as u128))) by (bit_vector);
}

/// Mints legacy time-ordered (v6-like) identifiers from the current
/// instant, with the Gregorian-epoch tick layout.
pub struct UUIDv6Builder {
    lsb: u64,
}

impl UUIDv6Builder {
    pub fn new() -> (b: UUIDv6Builder) {
        let seed = match now_millis() {
            Ok(t) => t,
            Err(_) => 0,
        };
        UUIDv6Builder { lsb: VARIANT_RFC4122 | (seed & 0x3FFF_FFFF_FFFF_FFFF) }
    }

    /// Mints an identifier for the current instant; its creation time is
    /// always at least one millisecond after the epoch.
    pub fn build(&self) -> (r: UUID)
        ensures
            spec_version_nibble(r) == 6,
            r.spec_is_rfc_variant(),
            (spec_utils_time(r) matches Some(ms) && ms >= 1),
    {
        let now = match now_millis() {
            Ok(t) => if t > 0 {
                t
            } else {
                1
            },
            Err(_) => 1,
        };
        // cap the instant so that the tick count stays within 60 bits
        let t: u64 = if now <= 100_000_000_000_000 {
            now
        } else {
            100_000_000_000_000
        };
        proof {
            assert(1 <= t <= 100_000_000_000_000 ==> t * 10000 + 0x01B2_1DD2_1381_4000u64
                < 0x1000_0000_0000_0000u64) by (nonlinear_arith);
        }
        let ticks: u64 = t * 10000 + TICKS_BETWEEN_EPOCHS;
        let base = self.lsb;
        let msb: u64 = ((ticks >> 28) << 32) | (((ticks >> 12) & 0xFFFF) << 16)
            | VERSION_TIME_ORDERED | (ticks & 0xFFF);
        let lsb = (base & 0x3FFF_FFFF_FFFF_FFFF) | VARIANT_RFC4122;
        proof {
            assert(((msb >> 12) & 0xF == 6) && ((((msb >> 32) << 28) | (((msb >> 16) & 0xFFFF)
                << 12) | (msb & 0xFFF)) == ticks)) by (bit_vector)
                requires
                    msb == ((ticks >> 28) << 32) | (((ticks >> 12) & 0xFFFF) << 16) | 0x6000u64
                        | (ticks & 0xFFF),
                    ticks < 0x1000_0000_0000_0000u64,
            ;
            assert(lsb & 0xC000_0000_0000_0000u64 == 0x8000_0000_0000_0000u64) by (bit_vector)
                requires
                    lsb == (base & 0x3FFF_FFFF_FFFF_FFFF) | 0x8000_0000_0000_0000u64,
            ;
            assert(spec_v6_ticks(msb) == ticks);
            assert(ticks - TICKS_BETWEEN_EPOCHS == t * 10000);
            assert(t * 10000 / 10000 == t) by (nonlinear_arith);
            assert(spec_v6_unix_ms(msb) == t);
        }
        UUID { msb, lsb }
    }
}

} // verus!

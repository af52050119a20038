//! The 128-bit time-ordered identifier: a high word carrying a 48-bit
//! millisecond timestamp and a 4-bit version field, and a low word carrying
//! a 2-bit variant field and 62 bits of counter/randomness.

use vstd::prelude::*;

use crate::text::{hex_char_str, hex_val_of, spec_hex_char, spec_hex_val, spec_is_hex_char};

verus! {

/// Mask of the 4-bit version field inside the high word.
pub const BITMASK_VERSION: u64 = 0xF000;
/// Version pattern of the custom, time-ordered identifier kind.
pub const VERSION_CUSTOM: u64 = 0x8000;
/// Mask of the 2-bit variant field inside the low word.
pub const BITMASK_VARIANT: u64 = 0xC000_0000_0000_0000;
/// Variant pattern reserved by RFC 4122.
pub const VARIANT_RFC4122: u64 = 0x8000_0000_0000_0000;

/// A 128-bit identifier split into a high word (`msb`) and a low word (`lsb`).
#[derive(Clone, Copy, Debug, PartialEq, Eq, Hash, Structural)]
pub struct UUID {
    pub msb: u64,
    pub lsb: u64,
}

/// Error returned when bytes or text do not form a recognized identifier.
#[derive(Debug)]
pub struct UuidConversionError {
    pub message: String,
}

impl UuidConversionError {
    pub fn new(message: &str) -> (e: UuidConversionError)
        ensures
            e.message@ == message@,
    {
        UuidConversionError { message: String::from_str(message) }
    }

    /// The human-readable description of the conversion failure.
    pub fn to_string(&self) -> (r: String)
        ensures
            r@ == self.message@,
    {
        self.message.clone()
    }
}

impl UUID {
    /// The version bits match the reserved custom pattern.
    pub open spec fn spec_is_custom_version(self) -> bool {
        self.msb & BITMASK_VERSION == VERSION_CUSTOM
    }

    /// The variant bits match the reserved RFC 4122 pattern.
    pub open spec fn spec_is_rfc_variant(self) -> bool {
        self.lsb & BITMASK_VARIANT == VARIANT_RFC4122
    }

    /// Both the version and the variant pattern match.
    pub open spec fn spec_is_uprotocol_uuid(self) -> bool {
        self.spec_is_custom_version() && self.spec_is_rfc_variant()
    }

    /// The millisecond creation timestamp, defined only when both bit
    /// patterns match; never a garbage timestamp from malformed bits.
    pub open spec fn spec_time(self) -> Option<u64> {
        if self.spec_is_uprotocol_uuid() {
            Some(self.msb >> 16)
        } else {
            None
        }
    }

    /// The identifier read as one 128-bit integer, for ordering.
    pub open spec fn spec_as_u128(self) -> u128 {
        ((self.msb as u128) << 64) | (self.lsb as u128)
    }

    pub fn is_custom_version(&self) -> (r: bool)
        ensures
            r == self.spec_is_custom_version(),
    {
        self.msb & BITMASK_VERSION == VERSION_CUSTOM
    }

    pub fn is_rfc_variant(&self) -> (r: bool)
        ensures
            r == self.spec_is_rfc_variant(),
    {
        self.lsb & BITMASK_VARIANT == VARIANT_RFC4122
    }

    /// Checks that this value meets the identifier format: the custom
    /// version pattern in the high word and the RFC 4122 variant pattern
    /// in the low word.
    pub fn is_uprotocol_uuid(&self) -> (r: bool)
        ensures
            r == self.spec_is_uprotocol_uuid(),
    {
        self.is_custom_version() && self.is_rfc_variant()
    }

    /// Creates an identifier from a 16-byte big-endian array, rejecting
    /// arrays whose version or variant bits do not match the required
    /// patterns.
    pub fn from_bytes(bytes: &[u8; 16]) -> (r: Result<UUID, UuidConversionError>)
        ensures
            r is Ok <==> (UUID {
                msb: spec_word_of_bytes(bytes@, 0),
                lsb: spec_word_of_bytes(bytes@, 8),
            }).spec_is_uprotocol_uuid(),
            r matches Ok(u) ==> u == (UUID {
                msb: spec_word_of_bytes(bytes@, 0),
                lsb: spec_word_of_bytes(bytes@, 8),
            }),
    {
        let (msb, lsb) = words_of_bytes(bytes);
        UUID::from_u64_pair(msb, lsb)
    }

    /// Creates an identifier from a high/low word pair, rejecting word
    /// pairs whose version or variant bits do not match the required
    /// patterns.
    pub fn from_u64_pair(msb: u64, lsb: u64) -> (r: Result<UUID, UuidConversionError>)
        ensures
            r is Ok <==> (UUID { msb, lsb }).spec_is_uprotocol_uuid(),
            r matches Ok(u) ==> u == (UUID { msb, lsb }),
            msb & BITMASK_VERSION != VERSION_CUSTOM ==> (r matches Err(e) && e.message@
                == "not a v8 UUID"@),
            msb & BITMASK_VERSION == VERSION_CUSTOM && lsb & BITMASK_VARIANT != VARIANT_RFC4122
                ==> (r matches Err(e) && e.message@ == "not an RFC4122 UUID"@),
    {
        if msb & BITMASK_VERSION != VERSION_CUSTOM {
            return Err(UuidConversionError::new("not a v8 UUID"));
        }
        if lsb & BITMASK_VARIANT != VARIANT_RFC4122 {
            return Err(UuidConversionError::new("not an RFC4122 UUID"));
        }
        Ok(UUID { msb, lsb })
    }

    /// Returns the embedded creation time in milliseconds, or `None`
    /// whenever the version or variant bits mismatch.
    pub fn get_time(&self) -> (r: Option<u64>)
        ensures
            r == self.spec_time(),
    {
        if self.is_uprotocol_uuid() {
            Some(self.msb >> 16)
        } else {
            None
        }
    }
}


/// Reads the two big-endian words out of a 16-byte array.
pub(crate) fn words_of_bytes(bytes: &[u8; 16]) -> (r: (u64, u64))
    ensures
        r.0 == spec_word_of_bytes(bytes@, 0),
        r.1 == spec_word_of_bytes(bytes@, 8),
{
    let msb: u64 = ((bytes[0] as u64) << 56) | ((bytes[1] as u64) << 48) | ((bytes[2] as u64)
        << 40) | ((bytes[3] as u64) << 32) | ((bytes[4] as u64) << 24) | ((bytes[5] as u64) << 16)
        | ((bytes[6] as u64) << 8) | (bytes[7] as u64);
    let lsb: u64 = ((bytes[8] as u64) << 56) | ((bytes[9] as u64) << 48) | ((bytes[10] as u64)
        << 40) | ((bytes[11] as u64) << 32) | ((bytes[12] as u64) << 24) | ((bytes[13] as u64)
        << 16) | ((bytes[14] as u64) << 8) | (bytes[15] as u64);
    (msb, lsb)
}

/// The big-endian 8-byte word starting at `off` in a byte sequence.
pub open spec fn spec_word_of_bytes(s: Seq<u8>, off: int) -> u64 {
    ((s[off] as u64) << 56) | ((s[off + 1] as u64) << 48) | ((s[off + 2] as u64) << 40) | ((s[off
        + 3] as u64) << 32) | ((s[off + 4] as u64) << 24) | ((s[off + 5] as u64) << 16) | ((s[off
        + 6] as u64) << 8) | (s[off + 7] as u64)
}

/// The big-endian byte at index `i` (from the most significant) of a word.
pub open spec fn spec_byte_of_word(x: u64, i: int) -> u8 {
    ((x >> ((56 - 8 * i) as u64)) & 0xFF) as u8
}

/// The 16 big-endian bytes of a word pair.
pub open spec fn spec_uuid_bytes(msb: u64, lsb: u64) -> Seq<u8> {
    Seq::new(16, |i: int| if i < 8 {
        spec_byte_of_word(msb, i)
    } else {
        spec_byte_of_word(lsb, i - 8)
    })
}

/// The `k`-th four-bit group of a word, counted from the most significant.
pub open spec fn spec_nibble(x: u64, k: int) -> u64 {
    (x >> ((60 - 4 * k) as u64)) & 0xF
}

/// The lower-case hex digits of the nibbles `from..to` of a word.
pub open spec fn spec_hex_seq(x: u64, from: int, to: int) -> Seq<char>
    decreases to - from,
{
    if from >= to {
        Seq::empty()
    } else {
        seq![spec_hex_char(spec_nibble(x, from))] + spec_hex_seq(x, from + 1, to)
    }
}

/// The canonical lower-case hyphenated text of a word pair: five groups of
/// 8, 4, 4, 4 and 12 hex digits.
pub open spec fn spec_hyphenated(msb: u64, lsb: u64) -> Seq<char> {
    spec_hex_seq(msb, 0, 8) + seq!['-'] + spec_hex_seq(msb, 8, 12) + seq!['-'] + spec_hex_seq(
        msb,
        12,
        16,
    ) + seq!['-'] + spec_hex_seq(lsb, 0, 4) + seq!['-'] + spec_hex_seq(lsb, 4, 16)
}

proof fn lemma_hex_seq_len(x: u64, from: int, to: int)
    requires
        from <= to,
    ensures
        spec_hex_seq(x, from, to).len() == to - from,
    decreases to - from,
{
    if from < to {
        lemma_hex_seq_len(x, from + 1, to);
    }
}

proof fn lemma_hex_seq_snoc(x: u64, from: int, to: int)
    requires
        from < to,
    ensures
        spec_hex_seq(x, from, to) == spec_hex_seq(x, from, to - 1) + seq![
            spec_hex_char(spec_nibble(x, to - 1)),
        ],
    decreases to - from,
{
    if from + 1 == to {
        assert(spec_hex_seq(x, from, to - 1) =~= Seq::<char>::empty());
        assert(spec_hex_seq(x, from + 1, to) =~= Seq::<char>::empty());
        assert(spec_hex_seq(x, from, to) =~= spec_hex_seq(x, from, to - 1) + seq![
            spec_hex_char(spec_nibble(x, to - 1)),
        ]);
    } else {
        lemma_hex_seq_snoc(x, from + 1, to);
        assert(spec_hex_seq(x, from, to) =~= spec_hex_seq(x, from, to - 1) + seq![
            spec_hex_char(spec_nibble(x, to - 1)),
        ]);
    }
}

proof fn lemma_hex_seq_index(x: u64, from: int, to: int, j: int)
    requires
        0 <= j < to - from,
    ensures
        spec_hex_seq(x, from, to)[j] == spec_hex_char(spec_nibble(x, from + j)),
    decreases to - from,
{
    lemma_hex_seq_len(x, from, to);
    if j > 0 {
        lemma_hex_seq_index(x, from + 1, to, j - 1);
    }
}

fn append_hex(out: &mut String, x: u64, from: usize, to: usize)
    requires
        from <= to <= 16,
    ensures
        final(out)@ == old(out)@ + spec_hex_seq(x, from as int, to as int),
{
    let mut i = from;
    while i < to
        invariant
            from <= i <= to <= 16,
            out@ == old(out)@ + spec_hex_seq(x, from as int, i as int),
        decreases to - i,
    {
        let sh: u64 = 60 - 4 * (i as u64);
        let d: u64 = (x >> sh) & 0xF;
        proof {
            assert((x >> sh) & 0xF < 16) by (bit_vector);
            assert(d == spec_nibble(x, i as int));
        }
        out.append(hex_char_str(d));
        proof {
            lemma_hex_seq_snoc(x, from as int, i as int + 1);
            assert(out@ =~= old(out)@ + spec_hex_seq(x, from as int, i as int + 1));
        }
        i = i + 1;
    }
    proof {
        assert(out@ =~= old(out)@ + spec_hex_seq(x, from as int, to as int));
    }
}

impl UUID {
    /// Formats this identifier as the canonical lower-case hyphenated
    /// 8-4-4-4-12 hex grouping (36 characters).
    pub fn to_hyphenated_string(&self) -> (r: String)
        ensures
            r@ == spec_hyphenated(self.msb, self.lsb),
    {
        let mut s = String::new();
        append_hex(&mut s, self.msb, 0, 8);
        s.append("-");
        append_hex(&mut s, self.msb, 8, 12);
        s.append("-");
        append_hex(&mut s, self.msb, 12, 16);
        s.append("-");
        append_hex(&mut s, self.lsb, 0, 4);
        s.append("-");
        append_hex(&mut s, self.lsb, 4, 16);
        proof {
            reveal_strlit("-");
            assert("-"@ =~= seq!['-']);
            assert(s@ =~= spec_hyphenated(self.msb, self.lsb));
        }
        s
    }
}

/// The character position of the `k`-th high-word nibble in hyphenated text.
pub open spec fn spec_msb_pos(k: int) -> int {
    if k < 8 {
        k
    } else if k < 12 {
        k + 1
    } else {
        k + 2
    }
}

/// The character position of the `k`-th low-word nibble in hyphenated text.
pub open spec fn spec_lsb_pos(k: int) -> int {
    if k < 4 {
        k + 19
    } else {
        k + 20
    }
}

/// Hyphenated identifier text: 36 characters, hyphens at the four fixed
/// positions, hex digits (either case) everywhere else.
pub open spec fn spec_uuid_char_ok(s: Seq<char>, i: int) -> bool {
    if i == 8 || i == 13 || i == 18 || i == 23 {
        s[i] == '-'
    } else {
        spec_is_hex_char(s[i])
    }
}

pub open spec fn spec_is_uuid_text(s: Seq<char>) -> bool {
    s.len() == 36 && forall|i: int| 0 <= i < 36 ==> spec_uuid_char_ok(s, i)
}

/// The high word encoded by the first `k` high-word digits of the text.
pub open spec fn spec_msb_val(s: Seq<char>, k: int) -> u64
    decreases k,
{
    if k <= 0 {
        0
    } else {
        (spec_msb_val(s, k - 1) << 4) | spec_hex_val(s[spec_msb_pos(k - 1)])
    }
}

/// The low word encoded by the first `k` low-word digits of the text.
pub open spec fn spec_lsb_val(s: Seq<char>, k: int) -> u64
    decreases k,
{
    if k <= 0 {
        0
    } else {
        (spec_lsb_val(s, k - 1) << 4) | spec_hex_val(s[spec_lsb_pos(k - 1)])
    }
}

/// What parsing hyphenated identifier text yields: the word pair, or
/// nothing when the text is not in the hyphenated hex shape.
pub open spec fn spec_parse_hyphenated(s: Seq<char>) -> Option<(u64, u64)> {
    if spec_is_uuid_text(s) {
        Some((spec_msb_val(s, 16), spec_lsb_val(s, 16)))
    } else {
        None
    }
}

/// The number of high-word digits among the first `i` characters.
pub open spec fn spec_msb_digits_before(i: int) -> int {
    if i <= 8 {
        i
    } else if i <= 13 {
        i - 1
    } else if i <= 18 {
        i - 2
    } else {
        16
    }
}

/// The number of low-word digits among the first `i` characters.
pub open spec fn spec_lsb_digits_before(i: int) -> int {
    if i <= 19 {
        0
    } else if i <= 23 {
        i - 19
    } else {
        i - 20
    }
}

/// Parses hyphenated identifier text (case-insensitive) into a word pair;
/// no bit-pattern check is applied here.
pub fn parse_hyphenated(s: &str) -> (r: Option<(u64, u64)>)
    ensures
        r == spec_parse_hyphenated(s@),
{
    if s.unicode_len() != 36 {
        return None;
    }
    let mut msb: u64 = 0;
    let mut lsb: u64 = 0;
    let mut i: usize = 0;
    while i < 36
        invariant
            0 <= i <= 36,
            s@.len() == 36,
            forall|j: int| 0 <= j < i ==> spec_uuid_char_ok(s@, j),
            msb == spec_msb_val(s@, spec_msb_digits_before(i as int)),
            lsb == spec_lsb_val(s@, spec_lsb_digits_before(i as int)),
        decreases 36 - i,
    {
        let c = s.get_char(i);
        if i == 8 || i == 13 || i == 18 || i == 23 {
            if c != '-' {
                proof {
                    assert(!spec_uuid_char_ok(s@, i as int));
                    assert(!spec_is_uuid_text(s@));
                }
                return None;
            }
        } else {
            match hex_val_of(c) {
                None => {
                    proof {
                        assert(!spec_uuid_char_ok(s@, i as int));
                        assert(!spec_is_uuid_text(s@));
                    }
                    return None;
                },
                Some(d) => {
                    if i < 19 {
                        proof {
                            assert(spec_msb_pos(spec_msb_digits_before(i as int)) == i as int);
                        }
                        msb = (msb << 4) | d;
                    } else {
                        proof {
                            assert(spec_lsb_pos(spec_lsb_digits_before(i as int)) == i as int);
                        }
                        lsb = (lsb << 4) | d;
                    }
                },
            }
        }
        i = i + 1;
    }
    Some((msb, lsb))
}

impl UUID {
    /// Parses the canonical hyphenated text form, case-insensitive on
    /// input, then checks the version and variant bit patterns.
    pub fn parse(s: &str) -> (r: Result<UUID, UuidConversionError>)
        ensures
            spec_parse_hyphenated(s@) is None ==> (r matches Err(e) && e.message@
                == "invalid hyphenated UUID text"@),
            spec_parse_hyphenated(s@) matches Some((m, l)) ==> {
                &&& r is Ok <==> (UUID { msb: m, lsb: l }).spec_is_uprotocol_uuid()
                &&& (r matches Ok(u) ==> u == (UUID { msb: m, lsb: l }))
                &&& (m & BITMASK_VERSION != VERSION_CUSTOM ==> (r matches Err(e) && e.message@
                    == "not a v8 UUID"@))
                &&& (m & BITMASK_VERSION == VERSION_CUSTOM && l & BITMASK_VARIANT
                    != VARIANT_RFC4122 ==> (r matches Err(e) && e.message@
                    == "not an RFC4122 UUID"@))
            },
    {
        match parse_hyphenated(s) {
            None => Err(UuidConversionError::new("invalid hyphenated UUID text")),
            Some((msb, lsb)) => UUID::from_u64_pair(msb, lsb),
        }
    }
}

proof fn lemma_nibble_is_hex_digit(x: u64, k: int)
    requires
        0 <= k < 16,
    ensures
        spec_nibble(x, k) < 16,
        spec_is_hex_char(spec_hex_char(spec_nibble(x, k))),
        spec_hex_val(spec_hex_char(spec_nibble(x, k))) == spec_nibble(x, k),
{
    let sh = (60 - 4 * k) as u64;
    assert((x >> sh) & 0xF < 16) by (bit_vector);
}

proof fn lemma_hyphenated_wf(m: u64, l: u64)
    ensures
        spec_hyphenated(m, l).len() == 36,
        forall|i: int| 0 <= i < 36 ==> spec_uuid_char_ok(spec_hyphenated(m, l), i),
        forall|k: int|
            0 <= k < 16 ==> spec_hyphenated(m, l)[spec_msb_pos(k)] == spec_hex_char(
                spec_nibble(m, k),
            ),
        forall|k: int|
            0 <= k < 16 ==> spec_hyphenated(m, l)[spec_lsb_pos(k)] == spec_hex_char(
                spec_nibble(l, k),
            ),
{
    let s = spec_hyphenated(m, l);
    lemma_hex_seq_len(m, 0, 8);
    lemma_hex_seq_len(m, 8, 12);
    lemma_hex_seq_len(m, 12, 16);
    lemma_hex_seq_len(l, 0, 4);
    lemma_hex_seq_len(l, 4, 16);
    assert forall|k: int| 0 <= k < 16 implies s[spec_msb_pos(k)] == spec_hex_char(
        spec_nibble(m, k),
    ) by {
        if k < 8 {
            lemma_hex_seq_index(m, 0, 8, k);
        } else if k < 12 {
            lemma_hex_seq_index(m, 8, 12, k - 8);
        } else {
            lemma_hex_seq_index(m, 12, 16, k - 12);
        }
    }
    assert forall|k: int| 0 <= k < 16 implies s[spec_lsb_pos(k)] == spec_hex_char(
        spec_nibble(l, k),
    ) by {
        if k < 4 {
            lemma_hex_seq_index(l, 0, 4, k);
        } else {
            lemma_hex_seq_index(l, 4, 16, k - 4);
        }
    }
    assert forall|i: int| 0 <= i < 36 implies spec_uuid_char_ok(s, i) by {
        if i == 8 || i == 13 || i == 18 || i == 23 {
            assert(s[i] == '-');
        } else if i < 19 {
            let k = spec_msb_digits_before(i);
            assert(spec_msb_pos(k) == i);
            lemma_nibble_is_hex_digit(m, k);
        } else {
            let k = spec_lsb_digits_before(i);
            assert(spec_lsb_pos(k) == i);
            lemma_nibble_is_hex_digit(l, k);
        }
    }
}

proof fn lemma_msb_rebuild(s: Seq<char>, m: u64, k: int)
    requires
        0 <= k <= 16,
        forall|j: int| 0 <= j < k ==> s[spec_msb_pos(j)] == spec_hex_char(spec_nibble(m, j)),
    ensures
        k > 0 ==> spec_msb_val(s, k) == m >> ((64 - 4 * k) as u64),
        k == 0 ==> spec_msb_val(s, k) == 0,
    decreases k,
{
    if k > 0 {
        lemma_msb_rebuild(s, m, k - 1);
        lemma_nibble_is_hex_digit(m, k - 1);
        let sh = (64 - 4 * k) as u64;
        assert(spec_hex_val(s[spec_msb_pos(k - 1)]) == spec_nibble(m, k - 1));
        assert(spec_nibble(m, k - 1) == (m >> sh) & 0xF);
        if k == 1 {
            assert((0u64 << 4) | ((m >> 60) & 0xF) == m >> 60) by (bit_vector);
        } else {
            assert(sh <= 56);
            assert(((m >> ((sh + 4) as u64)) << 4) | ((m >> sh) & 0xF) == m >> sh)
                by (bit_vector)
                requires
                    sh <= 56,
            ;
        }
    }
}

proof fn lemma_lsb_rebuild(s: Seq<char>, l: u64, k: int)
    requires
        0 <= k <= 16,
        forall|j: int| 0 <= j < k ==> s[spec_lsb_pos(j)] == spec_hex_char(spec_nibble(l, j)),
    ensures
        k > 0 ==> spec_lsb_val(s, k) == l >> ((64 - 4 * k) as u64),
        k == 0 ==> spec_lsb_val(s, k) == 0,
    decreases k,
{
    if k > 0 {
        lemma_lsb_rebuild(s, l, k - 1);
        lemma_nibble_is_hex_digit(l, k - 1);
        let sh = (64 - 4 * k) as u64;
        assert(spec_hex_val(s[spec_lsb_pos(k - 1)]) == spec_nibble(l, k - 1));
        assert(spec_nibble(l, k - 1) == (l >> sh) & 0xF);
        if k == 1 {
            assert((0u64 << 4) | ((l >> 60) & 0xF) == l >> 60) by (bit_vector);
        } else {
            assert(((l >> ((sh + 4) as u64)) << 4) | ((l >> sh) & 0xF) == l >> sh)
                by (bit_vector)
                requires
                    sh <= 56,
            ;
        }
    }
}

/// Law: the canonical hyphenated text of any word pair parses back to the
/// same word pair. Together with the contracts of `to_hyphenated_string`
/// and `parse`, this shows that an identifier accepted by `from_u64_pair`
/// round-trips through its text form.
pub proof fn lemma_hyphenated_round_trip(m: u64, l: u64)
    ensures
        spec_parse_hyphenated(spec_hyphenated(m, l)) == Some((m, l)),
{
    let s = spec_hyphenated(m, l);
    lemma_hyphenated_wf(m, l);
    assert(spec_is_uuid_text(s));
    lemma_msb_rebuild(s, m, 16);
    lemma_lsb_rebuild(s, l, 16);
    assert(m >> 0u64 == m) by (bit_vector);
    assert(l >> 0u64 == l) by (bit_vector);
}

/// Law: the compact 16-byte form round-trips: reading the serialized
/// bytes back yields the same word pair.
pub proof fn lemma_uuid_bytes_round_trip(msb: u64, lsb: u64)
    ensures
        spec_word_of_bytes(spec_uuid_bytes(msb, lsb), 0) == msb,
        spec_word_of_bytes(spec_uuid_bytes(msb, lsb), 8) == lsb,
{
    let bs = spec_uuid_bytes(msb, lsb);
    assert(forall|i: int| 0 <= i < 8 ==> bs[i] == spec_byte_of_word(msb, i));
    assert(forall|i: int| 8 <= i < 16 ==> bs[i] == spec_byte_of_word(lsb, i - 8));
    lemma_word_of_its_bytes(msb);
    lemma_word_of_its_bytes(lsb);
}

proof fn lemma_word_of_its_bytes(x: u64)
    ensures
        ((spec_byte_of_word(x, 0) as u64) << 56) | ((spec_byte_of_word(x, 1) as u64) << 48) | ((
        spec_byte_of_word(x, 2) as u64) << 40) | ((spec_byte_of_word(x, 3) as u64) << 32) | ((
        spec_byte_of_word(x, 4) as u64) << 24) | ((spec_byte_of_word(x, 5) as u64) << 16) | ((
        spec_byte_of_word(x, 6) as u64) << 8) | (spec_byte_of_word(x, 7) as u64) == x,
{
    assert(((((x >> 56) & 0xFF) as u8 as u64) << 56) | ((((x >> 48) & 0xFF) as u8 as u64) << 48)
        | ((((x >> 40) & 0xFF) as u8 as u64) << 40) | ((((x >> 32) & 0xFF) as u8 as u64) << 32) | (
    (((x >> 24) & 0xFF) as u8 as u64) << 24) | ((((x >> 16) & 0xFF) as u8 as u64) << 16) | ((((x
        >> 8) & 0xFF) as u8 as u64) << 8) | (((x >> 0) & 0xFF) as u8 as u64) == x) by (bit_vector);
}

/// Law: an identifier whose bit patterns match (as `from_u64_pair`
/// requires) round-trips through its text form: by the contracts of
/// `to_hyphenated_string` and `parse`, parsing the formatted text yields
/// the identifier back.
pub proof fn lemma_identifier_text_round_trip(u: UUID)
    requires
        u.spec_is_uprotocol_uuid(),
    ensures
        spec_parse_hyphenated(spec_hyphenated(u.msb, u.lsb)) == Some((u.msb, u.lsb)),
        (UUID { msb: u.msb, lsb: u.lsb }).spec_is_uprotocol_uuid(),
{
    lemma_hyphenated_round_trip(u.msb, u.lsb);
}

impl Default for UUID {
    /// The all-zero sentinel value; not a recognized identifier.
    fn default() -> (r: Self)
        ensures
            r == (UUID { msb: 0, lsb: 0 }),
    {
        UUID { msb: 0, lsb: 0 }
    }
}

} // verus!

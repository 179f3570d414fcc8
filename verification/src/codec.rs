use vstd::prelude::*;

use bit_vec::BitVec;

use crate::bits::{
    be_byte, bits_of, bitvec_from_bytes, bitvec_from_elem, bitvec_or, bitvec_to_bytes, byte_bit,
    lemma_be_view_bit, u128_bit, u128_from_be_bytes, u128_to_be_bytes,
};
use crate::numstr::{
    dec_body, dec_chars, digits_val, lemma_decimal_round_trip, parse_u128, parses_as_u128,
    u128_to_decimal,
};
use crate::consts::{
    CONTEST_ID_BITS, EMPTY_BITS, PROBLEM_ID_BITS, SUBMISSION_ID_BITS, TIMESTAMP_BITS,
    UUID_TIME_MID_BITS,
};
use crate::user::{time_mid_of, UserId};

verus! {

/// A contest identifier: 32 bits, value 0 reserved to mean "no contest".
#[derive(Debug, Clone)]
pub struct ContestId(pub u32);

impl View for ContestId {
    type V = u32;

    open spec fn view(&self) -> u32 {
        self.0
    }
}

impl ContestId {
    pub fn as_u32(&self) -> (r: u32)
        ensures
            r == self@,
    {
        self.0
    }
}

impl From<&ContestId> for u128 {
    fn from(value: &ContestId) -> (r: u128) {
        value.0 as u128
    }
}

impl vstd::std_specs::convert::FromSpecImpl<&ContestId> for u128 {
    open spec fn obeys_from_spec() -> bool {
        true
    }

    open spec fn from_spec(v: &ContestId) -> u128 {
        v.0 as u128
    }
}

impl From<ContestId> for u128 {
    fn from(value: ContestId) -> (r: u128) {
        value.0 as u128
    }
}

impl vstd::std_specs::convert::FromSpecImpl<ContestId> for u128 {
    open spec fn obeys_from_spec() -> bool {
        true
    }

    open spec fn from_spec(v: ContestId) -> u128 {
        v.0 as u128
    }
}

impl Default for ContestId {
    fn default() -> (r: Self)
        ensures
            r@ == 0u32,
    {
        ContestId(0)
    }
}

/// A problem identifier: 32 bits.
#[derive(Debug, Clone, PartialEq, Eq, Hash)]
pub struct ProblemID(pub u32);

impl View for ProblemID {
    type V = u32;

    open spec fn view(&self) -> u32 {
        self.0
    }
}

pub enum ProblemType {
    Individual,
    Contest,
}

impl ProblemID {
    pub fn new(id: u32) -> (r: Self)
        ensures
            r@ == id,
    {
        Self(id)
    }

    pub fn as_u32(&self) -> (r: u32)
        ensures
            r == self@,
    {
        self.0
    }

    /// The identifier in its decimal form, as the display layer
    /// prints it.
    pub fn display_string(&self) -> (r: String)
        ensures
            r@ == dec_chars(self@ as int),
    {
        u128_to_decimal(self.0 as u128)
    }

    /// The problem-identifier field alone, placed in its packed slot,
    /// as a derived 128-bit view.
    pub fn as_submission_id_bit_vec(&self) -> (r: BitVec)
        ensures
            bits_of(r).len() == 128,
            forall|i: int|
                0 <= i < 128 ==> #[trigger] bits_of(r)[i] == u128_bit(
                    ((self@ as u128) << 23),
                    (127 - i) as u128,
                ),
    {
        proof {
            assert(1u128 << 32 == 0x1_0000_0000u128) by (bit_vector);
        }
        let mask_of_ones: u128 = (1u128 << PROBLEM_ID_BITS) - 1;
        let mask_of_shifted_bits: u128 = mask_of_ones << (UUID_TIME_MID_BITS + EMPTY_BITS);
        let shifted_problem_id: u128 = (self.0 as u128) << (UUID_TIME_MID_BITS + EMPTY_BITS);
        let masked: u128 = shifted_problem_id & mask_of_shifted_bits;
        proof {
            let p = self.0;
            assert(((p as u128) << 23) & (0xFFFF_FFFFu128 << 23) == ((p as u128) << 23))
                by (bit_vector);
        }
        let bytes = u128_to_be_bytes(masked);
        let problem_id = bitvec_from_bytes(&bytes);
        let mut base = bitvec_from_elem(128, false);
        bitvec_or(&mut base, &problem_id);
        proof {
            assert forall|i: int| 0 <= i < 128 implies #[trigger] bits_of(base)[i] == u128_bit(
                ((self@ as u128) << 23),
                (127 - i) as u128,
            ) by {
                assert(bits_of(base)[i] == (false || bits_of(problem_id)[i]));
                assert(bits_of(problem_id)[i] == byte_bit(bytes@[i / 8], (7 - i % 8) as u8));
                assert(bytes@[i / 8] == be_byte(masked, i / 8));
                lemma_be_view_bit(masked, i);
            }
        }
        base
    }
}

impl From<&ProblemID> for u128 {
    fn from(value: &ProblemID) -> (r: u128) {
        value.0 as u128
    }
}

impl vstd::std_specs::convert::FromSpecImpl<&ProblemID> for u128 {
    open spec fn obeys_from_spec() -> bool {
        true
    }

    open spec fn from_spec(v: &ProblemID) -> u128 {
        v.0 as u128
    }
}

impl Default for ProblemID {
    fn default() -> (r: Self)
        ensures
            r@ == 0u32,
    {
        ProblemID(0)
    }
}

/// Decode failed to reconstruct a field, or a string form did not
/// name a 128-bit unsigned integer.
#[derive(Debug, Clone, PartialEq, Eq)]
pub enum IdError {
    MalformedIdentifier,
}

/// The packed value: MSB to LSB,
/// `[timestamp:41][contest_id:32][problem_id:32][submitter_entropy:16][reserved:7]`,
/// with the reserved bits always zero.
pub open spec fn encode_bits(t: u64, c: u32, p: u32, e: u16) -> u128 {
    (((t as u128) << 87) | ((c as u128) << 55) | ((p as u128) << 23) | ((e as u128) << 7))
}

/// The timestamp field of a packed value.
pub open spec fn timestamp_of(id: u128) -> u64 {
    (((id >> 87) & 0x1FF_FFFF_FFFF) as u64)
}

/// The contest-identifier field of a packed value.
pub open spec fn contest_id_of(id: u128) -> u32 {
    (((id >> 55) & 0xFFFF_FFFF) as u32)
}

/// The problem-identifier field of a packed value.
pub open spec fn problem_id_of(id: u128) -> u32 {
    (((id >> 23) & 0xFFFF_FFFF) as u32)
}

/// The submitter-entropy field of a packed value.
pub open spec fn entropy_of(id: u128) -> u16 {
    (((id >> 7) & 0xFFFF) as u16)
}

/// The composite 128-bit submission identifier. The integer is the one
/// canonical representation; every bit-level view is derived from it.
#[derive(Debug, Clone, PartialEq, Eq)]
pub struct SubmissionId(u128);

impl View for SubmissionId {
    type V = u128;

    closed spec fn view(&self) -> u128 {
        self.0
    }
}

impl Default for SubmissionId {
    fn default() -> (r: Self)
        ensures
            r@ == 0u128,
    {
        SubmissionId(0)
    }
}

impl SubmissionId {
    pub fn from_u128(base: u128) -> (r: Self)
        ensures
            r@ == base,
    {
        Self(base)
    }

    /// Packs the four fields into their fixed slots. The timestamp is
    /// silently truncated to 41 bits; a caller must treat the field
    /// widths as a hard contract.
    pub fn new(
        current_time: u64,
        problem_id: &ProblemID,
        contest_id: Option<&ContestId>,
        user_id: &UserId,
    ) -> (r: Self)
        ensures
            r@ == encode_bits(
                current_time,
                match contest_id {
                    Some(c) => c@,
                    None => 0u32,
                },
                problem_id@,
                time_mid_of(user_id@),
            ),
    {
        let contest: u32 = match contest_id {
            Some(c) => c.0,
            None => 0,
        };
        let entropy: u16 = user_id.time_mid();
        let mut base: u128 = 0;
        base |= (current_time as u128) << (SUBMISSION_ID_BITS - TIMESTAMP_BITS);
        base |= (contest as u128) << (SUBMISSION_ID_BITS - (TIMESTAMP_BITS + CONTEST_ID_BITS));
        base |= (problem_id.0 as u128)
            << (SUBMISSION_ID_BITS - (TIMESTAMP_BITS + CONTEST_ID_BITS + PROBLEM_ID_BITS));
        base |= (entropy as u128)
            << (SUBMISSION_ID_BITS
                - (TIMESTAMP_BITS + CONTEST_ID_BITS + PROBLEM_ID_BITS + UUID_TIME_MID_BITS));
        proof {
            let t = current_time;
            let c = contest;
            let p = problem_id.0;
            let e = entropy;
            assert((((0u128 | ((t as u128) << 87)) | ((c as u128) << 55)) | ((p as u128) << 23))
                | ((e as u128) << 7) == (((t as u128) << 87) | ((c as u128) << 55) | ((
            p as u128) << 23) | ((e as u128) << 7))) by (bit_vector);
        }
        Self(base)
    }

    pub fn as_u128(&self) -> (r: u128)
        ensures
            r == self@,
    {
        self.0
    }

    /// Projects the contest-identifier field. The mask keeps the value
    /// inside 32 bits, so the conversion always succeeds.
    pub fn get_contest_id(&self) -> (r: Result<ContestId, IdError>)
        ensures
            r matches Ok(c) && c@ == contest_id_of(self@),
    {
        proof {
            assert(1u128 << 32 == 0x1_0000_0000u128) by (bit_vector);
        }
        let mask_of_ones: u128 = (1u128 << CONTEST_ID_BITS) - 1;
        let shifted: u128 = self.0 >> (PROBLEM_ID_BITS + UUID_TIME_MID_BITS + EMPTY_BITS);
        let masked: u128 = mask_of_ones & shifted;
        proof {
            assert(mask_of_ones & shifted == shifted & 0xFFFF_FFFFu128 && mask_of_ones
                & shifted <= 0xFFFF_FFFFu128) by (bit_vector)
                requires
                    mask_of_ones == 0xFFFF_FFFFu128,
            ;
        }
        Ok(ContestId(masked as u32))
    }

    /// Projects the problem-identifier field; always succeeds.
    pub fn get_problem_id(&self) -> (r: Result<ProblemID, IdError>)
        ensures
            r matches Ok(p) && p@ == problem_id_of(self@),
    {
        proof {
            assert(1u128 << 32 == 0x1_0000_0000u128) by (bit_vector);
        }
        let mask_of_ones: u128 = (1u128 << PROBLEM_ID_BITS) - 1;
        let shifted: u128 = self.0 >> (UUID_TIME_MID_BITS + EMPTY_BITS);
        let masked: u128 = mask_of_ones & shifted;
        proof {
            assert(mask_of_ones & shifted == shifted & 0xFFFF_FFFFu128 && mask_of_ones
                & shifted <= 0xFFFF_FFFFu128) by (bit_vector)
                requires
                    mask_of_ones == 0xFFFF_FFFFu128,
            ;
        }
        Ok(ProblemID(masked as u32))
    }

    /// Projects the timestamp field; always succeeds, since 41 bits fit
    /// in the 64-bit result.
    pub fn get_timestamp(&self) -> (r: Result<u64, IdError>)
        ensures
            r matches Ok(t) && t == timestamp_of(self@),
    {
        proof {
            assert(1u128 << 41 == 0x200_0000_0000u128) by (bit_vector);
        }
        let mask_of_ones: u128 = (1u128 << TIMESTAMP_BITS) - 1;
        let shifted: u128 =
            self.0 >> (CONTEST_ID_BITS + PROBLEM_ID_BITS + UUID_TIME_MID_BITS + EMPTY_BITS);
        let masked: u128 = mask_of_ones & shifted;
        proof {
            assert(mask_of_ones & shifted == shifted & 0x1FF_FFFF_FFFFu128 && mask_of_ones
                & shifted <= 0x1FF_FFFF_FFFFu128) by (bit_vector)
                requires
                    mask_of_ones == 0x1FF_FFFF_FFFFu128,
            ;
        }
        Ok(masked as u64)
    }

    /// Reads the canonical decimal string form; rejects anything that
    /// is not an unsigned decimal numeral of at most 128 bits.
    pub fn from_string(string: &str) -> (r: Result<Self, IdError>)
        ensures
            parses_as_u128(string@) ==> (r matches Ok(id) && id@ as int == digits_val(
                dec_body(string@),
            )),
            !parses_as_u128(string@) ==> r == Err::<SubmissionId, IdError>(
                IdError::MalformedIdentifier,
            ),
    {
        match parse_u128(string) {
            Some(num) => Ok(Self::from_u128(num)),
            None => Err(IdError::MalformedIdentifier),
        }
    }

    /// The canonical decimal string form, the one representation that
    /// is persisted and transmitted.
    pub fn to_decimal_string(&self) -> (r: String)
        ensures
            r@ == dec_chars(self@ as int),
    {
        u128_to_decimal(self.0)
    }

    /// The full 128-bit view, most significant bit first.
    pub fn as_bit_vec(&self) -> (r: BitVec)
        ensures
            bits_of(r).len() == 128,
            forall|i: int|
                0 <= i < 128 ==> #[trigger] bits_of(r)[i] == u128_bit(self@, (127 - i) as u128),
    {
        let bytes = u128_to_be_bytes(self.0);
        let r = bitvec_from_bytes(&bytes);
        proof {
            assert forall|i: int| 0 <= i < 128 implies #[trigger] bits_of(r)[i] == u128_bit(
                self@,
                (127 - i) as u128,
            ) by {
                assert(bits_of(r)[i] == byte_bit(bytes@[i / 8], (7 - i % 8) as u8));
                assert(bytes@[i / 8] == be_byte(self.0, i / 8));
                lemma_be_view_bit(self.0, i);
            }
        }
        r
    }

    /// Reads a bit view back into an identifier. The view must pack
    /// into exactly 16 bytes; shorter or longer views are malformed.
    pub fn from_bitvec(bitvec: BitVec) -> (r: Result<Self, IdError>)
        ensures
            r is Ok <==> (120 < bits_of(bitvec).len() <= 128),
            r matches Ok(id) ==> forall|i: int|
                0 <= i < 128 ==> #[trigger] u128_bit(id@, (127 - i) as u128) == (i < bits_of(
                    bitvec,
                ).len() && bits_of(bitvec)[i]),
            r is Err ==> r == Err::<SubmissionId, IdError>(IdError::MalformedIdentifier),
    {
        let bytes = bitvec_to_bytes(&bitvec);
        if bytes.len() != 16 {
            return Err(IdError::MalformedIdentifier);
        }
        let base = u128_from_be_bytes(&bytes);
        proof {
            assert forall|i: int| 0 <= i < 128 implies #[trigger] u128_bit(base, (127 - i) as u128)
                == (i < bits_of(bitvec).len() && bits_of(bitvec)[i]) by {
                lemma_be_view_bit(base, i);
                assert(be_byte(base, i / 8) == bytes@[i / 8]);
                let k = (7 - i % 8) as u8;
                vstd::arithmetic::div_mod::lemma_fundamental_div_mod(i, 8);
                assert(byte_bit(bytes@[i / 8], k) == (8 * (i / 8) + 7 - k < bits_of(bitvec).len()
                    && bits_of(bitvec)[8 * (i / 8) + 7 - k]));
                assert(8 * (i / 8) + 7 - k == i);
            }
        }
        Ok(Self(base))
    }

    /// The contest-identifier field alone, in place, as a derived
    /// 128-bit view.
    pub fn get_contest_id_as_bit_vec(&self) -> (r: BitVec)
        ensures
            bits_of(r).len() == 128,
            forall|i: int|
                0 <= i < 128 ==> #[trigger] bits_of(r)[i] == u128_bit(
                    self@ & contest_field_mask(),
                    (127 - i) as u128,
                ),
    {
        proof {
            assert(1u128 << 32 == 0x1_0000_0000u128) by (bit_vector);
        }
        let mask_of_ones: u128 = (1u128 << CONTEST_ID_BITS) - 1;
        let mask_of_shifted_bits: u128 = mask_of_ones << (PROBLEM_ID_BITS + UUID_TIME_MID_BITS
            + EMPTY_BITS);
        let masked: u128 = self.0 & mask_of_shifted_bits;
        let bytes = u128_to_be_bytes(masked);
        let contest_id = bitvec_from_bytes(&bytes);
        let mut base = bitvec_from_elem(128, false);
        bitvec_or(&mut base, &contest_id);
        proof {
            assert forall|i: int| 0 <= i < 128 implies #[trigger] bits_of(base)[i] == u128_bit(
                self@ & contest_field_mask(),
                (127 - i) as u128,
            ) by {
                assert(bits_of(base)[i] == (false || bits_of(contest_id)[i]));
                assert(bits_of(contest_id)[i] == byte_bit(bytes@[i / 8], (7 - i % 8) as u8));
                assert(bytes@[i / 8] == be_byte(masked, i / 8));
                lemma_be_view_bit(masked, i);
            }
        }
        base
    }

    /// The problem-identifier field alone, in place, as a derived
    /// 128-bit view.
    pub fn get_problem_id_as_bit_vec(&self) -> (r: BitVec)
        ensures
            bits_of(r).len() == 128,
            forall|i: int|
                0 <= i < 128 ==> #[trigger] bits_of(r)[i] == u128_bit(
                    self@ & problem_field_mask(),
                    (127 - i) as u128,
                ),
    {
        proof {
            assert(1u128 << 32 == 0x1_0000_0000u128) by (bit_vector);
        }
        let mask_of_ones: u128 = (1u128 << PROBLEM_ID_BITS) - 1;
        let mask_of_shifted_bits: u128 = mask_of_ones << (UUID_TIME_MID_BITS + EMPTY_BITS);
        let masked: u128 = self.0 & mask_of_shifted_bits;
        let bytes = u128_to_be_bytes(masked);
        let problem_id = bitvec_from_bytes(&bytes);
        let mut base = bitvec_from_elem(128, false);
        bitvec_or(&mut base, &problem_id);
        proof {
            assert forall|i: int| 0 <= i < 128 implies #[trigger] bits_of(base)[i] == u128_bit(
                self@ & problem_field_mask(),
                (127 - i) as u128,
            ) by {
                assert(bits_of(base)[i] == (false || bits_of(problem_id)[i]));
                assert(bits_of(problem_id)[i] == byte_bit(bytes@[i / 8], (7 - i % 8) as u8));
                assert(bytes@[i / 8] == be_byte(masked, i / 8));
                lemma_be_view_bit(masked, i);
            }
        }
        base
    }
}

/// String-form round trip: the decimal form of every identifier
/// parses back to exactly that identifier.
pub proof fn lemma_string_form_inverse(v: u128)
    ensures
        parses_as_u128(dec_chars(v as int)),
        digits_val(dec_body(dec_chars(v as int))) == v as int,
{
    lemma_decimal_round_trip(v);
}

/// The bits of a packed value owned by the contest-identifier field.
pub open spec fn contest_field_mask() -> u128 {
    (0xFFFF_FFFFu128 << 55)
}

/// The bits of a packed value owned by the problem-identifier field.
pub open spec fn problem_field_mask() -> u128 {
    (0xFFFF_FFFFu128 << 23)
}

/// Non-overlap: two values packed with the same timestamp and entropy
/// differ exactly in the bits owned by the fields that differ.
pub proof fn lemma_non_overlap(t: u64, c1: u32, p1: u32, c2: u32, p2: u32, e: u16)
    by (bit_vector)
    ensures
        (encode_bits(t, c1, p1, e) ^ encode_bits(t, c2, p2, e)) & !(contest_field_mask()
            | problem_field_mask()) == 0,
        (c1 == c2) <==> ((encode_bits(t, c1, p1, e) ^ encode_bits(t, c2, p2, e))
            & contest_field_mask() == 0),
        (p1 == p2) <==> ((encode_bits(t, c1, p1, e) ^ encode_bits(t, c2, p2, e))
            & problem_field_mask() == 0),
{
}

/// No-contest convention: a value packed with contest id 0 (the
/// stand-in for "no contest") decodes a contest id of exactly 0,
/// whatever the other fields hold.
pub proof fn lemma_no_contest_convention(t: u64, p: u32, e: u16)
    ensures
        contest_id_of(encode_bits(t, 0, p, e)) == 0,
{
    assert(((((t as u128) << 87) | ((0u32 as u128) << 55) | ((p as u128) << 23) | ((e as u128)
        << 7)) >> 55) & 0xFFFF_FFFF == 0) by (bit_vector);
}

/// Round trip: a value packed from in-range fields decodes to exactly
/// those fields, and a missing contest id decodes as contest id 0.
pub proof fn lemma_round_trip(t: u64, c: u32, p: u32, e: u16)
    requires
        t < 0x200_0000_0000u64,
    ensures
        timestamp_of(encode_bits(t, c, p, e)) == t,
        contest_id_of(encode_bits(t, c, p, e)) == c,
        problem_id_of(encode_bits(t, c, p, e)) == p,
        entropy_of(encode_bits(t, c, p, e)) == e,
{
    assert(((((t as u128) << 87) | ((c as u128) << 55) | ((p as u128) << 23) | ((e as u128) << 7))
        >> 87) & 0x1FF_FFFF_FFFF == t as u128) by (bit_vector)
        requires
            t < 0x200_0000_0000u64,
    ;
    assert(((((t as u128) << 87) | ((c as u128) << 55) | ((p as u128) << 23) | ((e as u128) << 7))
        >> 55) & 0xFFFF_FFFF == c as u128) by (bit_vector);
    assert(((((t as u128) << 87) | ((c as u128) << 55) | ((p as u128) << 23) | ((e as u128) << 7))
        >> 23) & 0xFFFF_FFFF == p as u128) by (bit_vector);
    assert(((((t as u128) << 87) | ((c as u128) << 55) | ((p as u128) << 23) | ((e as u128) << 7))
        >> 7) & 0xFFFF == e as u128) by (bit_vector);
}

} // verus!

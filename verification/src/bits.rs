use vstd::prelude::*;

use bit_vec::BitVec;

verus! {

#[verifier::external_type_specification]
#[verifier::external_body]
#[verifier::reject_recursive_types(B)]
pub struct ExBitVec<B>(BitVec<B>);

/// What a bit vector holds, bit by bit, index 0 first.
pub uninterp spec fn bits_of(bv: BitVec) -> Seq<bool>;

/// Bit `k` (counted from the least significant end) of a byte.
pub open spec fn byte_bit(b: u8, k: u8) -> bool {
    ((b >> k) & 1) == 1
}

/// Bit `k` (counted from the least significant end) of a 128-bit value.
pub open spec fn u128_bit(v: u128, k: u128) -> bool {
    ((v >> k) & 1) == 1
}

/// Byte `i` of the big-endian representation of a 128-bit value.
pub open spec fn be_byte(v: u128, i: int) -> u8 {
    ((v >> (((15 - i) * 8) as u128)) & 0xFF) as u8
}

/// Relies on bit_vec::BitVec::from_bytes: each byte becomes eight
/// bits, most significant bit first.
#[verifier::external_body]
pub(crate) fn bitvec_from_bytes(bytes: &Vec<u8>) -> (r: BitVec)
    requires
        8 * bytes@.len() <= usize::MAX,
    ensures
        bits_of(r).len() == 8 * bytes@.len(),
        forall|i: int|
            0 <= i < bits_of(r).len() ==> #[trigger] bits_of(r)[i] == byte_bit(
                bytes@[i / 8],
                (7 - i % 8) as u8,
            ),
{
    BitVec::from_bytes(bytes.as_slice())
}

/// Relies on bit_vec::BitVec::from_elem: `nbits` bits, every one `bit`.
#[verifier::external_body]
pub(crate) fn bitvec_from_elem(nbits: usize, bit: bool) -> (r: BitVec)
    ensures
        bits_of(r).len() == nbits,
        forall|i: int| 0 <= i < nbits ==> #[trigger] bits_of(r)[i] == bit,
{
    BitVec::from_elem(nbits, bit)
}

/// Relies on bit_vec::BitVec::or: pointwise disjunction of two
/// vectors of equal length, reporting whether any bit changed.
#[verifier::external_body]
pub(crate) fn bitvec_or(a: &mut BitVec, b: &BitVec) -> (changed: bool)
    requires
        bits_of(*old(a)).len() == bits_of(*b).len(),
    ensures
        bits_of(*final(a)).len() == bits_of(*old(a)).len(),
        forall|i: int|
            0 <= i < bits_of(*final(a)).len() ==> #[trigger] bits_of(*final(a))[i] == (bits_of(
                *old(a),
            )[i] || bits_of(*b)[i]),
        changed == (bits_of(*final(a)) != bits_of(*old(a))),
{
    a.or(b)
}

/// Relies on bit_vec::BitVec::to_bytes: packs the bits eight to a
/// byte, most significant bit first, zero-padding the last byte.
#[verifier::external_body]
pub(crate) fn bitvec_to_bytes(bv: &BitVec) -> (r: Vec<u8>)
    ensures
        r@.len() == (bits_of(*bv).len() + 7) / 8,
        forall|j: int, k: u8|
            0 <= j < r@.len() && k < 8 ==> (#[trigger] byte_bit(r@[j], k)) == (8 * j + 7 - k
                < bits_of(*bv).len() && bits_of(*bv)[8 * j + 7 - k]),
{
    bv.to_bytes()
}

/// The big-endian bytes of a 128-bit value.
pub fn u128_to_be_bytes(v: u128) -> (r: Vec<u8>)
    ensures
        r@.len() == 16,
        forall|i: int| 0 <= i < 16 ==> #[trigger] r@[i] == be_byte(v, i),
{
    let mut out: Vec<u8> = Vec::new();
    let mut i: usize = 0;
    while i < 16
        invariant
            i <= 16,
            out@.len() == i,
            forall|j: int| 0 <= j < i ==> #[trigger] out@[j] == be_byte(v, j),
        decreases 16 - i,
    {
        let shift: u128 = ((15 - i) as u128) * 8;
        proof {
            assert((v >> shift) & 0xFF < 256) by (bit_vector);
            assert(shift == ((15 - (i as int)) * 8) as u128);
        }
        let b: u8 = ((v >> shift) & 0xFF) as u8;
        out.push(b);
        i += 1;
    }
    out
}

/// Setting big-endian byte `d` of a value by disjunction changes that
/// byte alone.
proof fn lemma_or_byte(acc: u128, b: u8, d: u128, e: u128)
    by (bit_vector)
    requires
        d < 16,
        e < 16,
    ensures
        d == e ==> ((((acc | ((b as u128) << (((15 - d) * 8) as u128))) >> (((15 - e) * 8) as u128)) & 0xFF) as u8) == (
        (((acc >> (((15 - e) * 8) as u128)) & 0xFF) as u8) | b),
        d != e ==> ((((acc | ((b as u128) << (((15 - d) * 8) as u128))) >> (((15 - e) * 8) as u128)) & 0xFF) as u8) == (
        ((acc >> (((15 - e) * 8) as u128)) & 0xFF) as u8),
{
}

/// The 128-bit value with the given big-endian bytes.
pub fn u128_from_be_bytes(bytes: &Vec<u8>) -> (r: u128)
    requires
        bytes@.len() == 16,
    ensures
        forall|j: int| 0 <= j < 16 ==> #[trigger] be_byte(r, j) == bytes@[j],
{
    let mut acc: u128 = 0;
    let mut i: usize = 0;
    proof {
        assert forall|j: int| 0 <= j < 16 implies #[trigger] be_byte(0u128, j) == 0u8 by {
            let s = ((15 - j) * 8) as u128;
            assert((0u128 >> s) & 0xFF == 0) by (bit_vector);
        }
    }
    while i < 16
        invariant
            i <= 16,
            bytes@.len() == 16,
            forall|j: int| 0 <= j < i ==> #[trigger] be_byte(acc, j) == bytes@[j],
            forall|j: int| i <= j < 16 ==> #[trigger] be_byte(acc, j) == 0u8,
        decreases 16 - i,
    {
        let b: u8 = bytes[i];
        let shift: u128 = ((15 - i) as u128) * 8;
        proof {
            assert(shift == ((15 - (i as int)) * 8) as u128);
        }
        let ghost oa = acc;
        acc = acc | ((b as u128) << shift);
        proof {
            assert forall|j: int| 0 <= j < 16 implies #[trigger] be_byte(acc, j) == (if j == i {
                b
            } else {
                be_byte(oa, j)
            }) by {
                lemma_or_byte(oa, b, i as u128, j as u128);
                assert((((15 - (i as u128)) * 8) as u128) == ((15 - (i as int)) * 8) as u128);
                assert((((15 - (j as u128)) * 8) as u128) == ((15 - j) * 8) as u128);
                if j == i {
                    assert(be_byte(oa, j) == 0u8);
                    assert(0u8 | b == b) by (bit_vector);
                }
            }
        }
        i += 1;
    }
    acc
}

/// Bit `i` of the big-endian bit view is bit `127 - i` of the value.
pub proof fn lemma_be_view_bit(v: u128, i: int)
    requires
        0 <= i < 128,
    ensures
        byte_bit(be_byte(v, i / 8), (7 - i % 8) as u8) == u128_bit(v, (127 - i) as u128),
{
    let d = (i / 8) as u128;
    let m = (i % 8) as u128;
    vstd::arithmetic::div_mod::lemma_fundamental_div_mod(i, 8);
    assert(i == 8 * (i / 8) + i % 8);
    assert(d < 16 && m < 8);
    assert(byte_bit((((v >> (((15 - d) * 8) as u128)) & 0xFF) as u8), (7 - m) as u8) == ((v >> ((((15 - d) * 8) + (7 - m)) as u128)) & 1 == 1)) by (bit_vector)
        requires
            d < 16,
            m < 8,
    ;
    assert((((15 - d) * 8) as u128) == ((15 - i / 8) * 8) as u128);
    assert(((((15 - d) * 8) + (7 - m)) as u128) == (127 - i) as u128);
}

} // verus!

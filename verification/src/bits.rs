//! Trusted boundary around `bit_vec::BitVec`, the packed bit container that
//! carries every tube's cathode pattern and the flat wire register.
//!
//! The contents of a `BitVec<u8>` are modelled as a `Seq<bool>` through the
//! uninterpreted function [`bit_seq`]; each wrapper states, over that model,
//! exactly what the corresponding `bit_vec` method does according to its
//! source.

use vstd::prelude::*;

verus! {

/// The sequence of bits held by a `BitVec<u8>`, index 0 first.
pub uninterp spec fn bit_seq(v: bit_vec::BitVec<u8>) -> Seq<bool>;

#[verifier::external_type_specification]
#[verifier::external_body]
#[verifier::reject_recursive_types(B)]
pub struct ExBitVec<B>(bit_vec::BitVec<B>);

/// An all-`false` sequence of the given length; what an unpopulated slot
/// contributes to the wire register.
pub open spec fn zero_bits(n: nat) -> Seq<bool> {
    Seq::new(n, |i: int| false)
}

/// The byte packing performed by `BitVec::to_bytes`: bit `i` lands in byte
/// `i / 8` at position `7 - i % 8` (most significant bit first), and the
/// trailing padding bits of the last byte are zero.
pub open spec fn byte_bit(bits: Seq<bool>, i: int) -> u8 {
    if 0 <= i < bits.len() && bits[i] {
        1u8
    } else {
        0u8
    }
}

/// The value of byte `j` of the `to_bytes` packing of `bits`.
pub open spec fn packed_byte(bits: Seq<bool>, j: int) -> u8 {
    (128 * byte_bit(bits, 8 * j) + 64 * byte_bit(bits, 8 * j + 1) + 32 * byte_bit(
        bits,
        8 * j + 2,
    ) + 16 * byte_bit(bits, 8 * j + 3) + 8 * byte_bit(bits, 8 * j + 4) + 4 * byte_bit(
        bits,
        8 * j + 5,
    ) + 2 * byte_bit(bits, 8 * j + 6) + byte_bit(bits, 8 * j + 7)) as u8
}

/// The whole `to_bytes` packing of `bits`.
pub open spec fn packed_bytes(bits: Seq<bool>) -> Seq<u8> {
    Seq::new(((bits.len() + 7) / 8) as nat, |j: int| packed_byte(bits, j))
}

/// Relies on `BitVec::from_elem_general`: a vector of `len` copies of `bit`.
#[verifier::external_body]
pub(crate) fn bv_from_elem(len: usize, bit: bool) -> (r: bit_vec::BitVec<u8>)
    ensures
        bit_seq(r) == Seq::new(len as nat, |i: int| bit),
{
    bit_vec::BitVec::<u8>::from_elem_general(len, bit)
}

/// Relies on `BitVec::len`: the number of bits held.
#[verifier::external_body]
pub(crate) fn bv_len(v: &bit_vec::BitVec<u8>) -> (r: usize)
    ensures
        r == bit_seq(*v).len(),
{
    v.len()
}

/// Relies on `BitVec::get`: the bit at `i`, or `None` past the end.
#[verifier::external_body]
pub(crate) fn bv_get(v: &bit_vec::BitVec<u8>, i: usize) -> (r: Option<bool>)
    ensures
        i < bit_seq(*v).len() ==> r == Some(bit_seq(*v)[i as int]),
        i >= bit_seq(*v).len() ==> r is None,
{
    v.get(i)
}

/// Relies on `BitVec::set`: writes the bit at `i`; panics past the end, so
/// the bound is required here.
#[verifier::external_body]
pub(crate) fn bv_set(v: &mut bit_vec::BitVec<u8>, i: usize, x: bool)
    requires
        i < bit_seq(*old(v)).len(),
    ensures
        bit_seq(*final(v)) == bit_seq(*old(v)).update(i as int, x),
{
    v.set(i, x)
}

/// Relies on `BitVec::append`: moves every bit of `other` to the end of `v`.
#[verifier::external_body]
pub(crate) fn bv_append(v: &mut bit_vec::BitVec<u8>, other: &mut bit_vec::BitVec<u8>)
    requires
        bit_seq(*old(v)).len() + bit_seq(*old(other)).len() <= usize::MAX,
    ensures
        bit_seq(*final(v)) == bit_seq(*old(v)) + bit_seq(*old(other)),
        bit_seq(*final(other)) == Seq::<bool>::empty(),
{
    v.append(other)
}

/// Relies on `<BitVec as Clone>::clone`: a copy with the same bits.
#[verifier::external_body]
pub(crate) fn bv_clone(v: &bit_vec::BitVec<u8>) -> (r: bit_vec::BitVec<u8>)
    ensures
        bit_seq(r) == bit_seq(*v),
{
    v.clone()
}

/// Relies on `BitVec::to_bytes`: packs the bits most-significant-bit first
/// into `ceil(len / 8)` bytes, padding the tail with zeros.
#[verifier::external_body]
pub(crate) fn bv_to_bytes(v: &bit_vec::BitVec<u8>) -> (r: Vec<u8>)
    ensures
        r@ == packed_bytes(bit_seq(*v)),
{
    v.to_bytes()
}

/// Reads a whole bit vector out into plain booleans, index 0 first.
pub fn bool_vec_of(v: &bit_vec::BitVec<u8>) -> (r: Vec<bool>)
    ensures
        r@ == bit_seq(*v),
{
    let n = bv_len(v);
    let mut out: Vec<bool> = Vec::new();
    let mut i: usize = 0;
    while i < n
        invariant
            n == bit_seq(*v).len(),
            i <= n,
            out@.len() == i,
            forall|j: int| 0 <= j < i ==> out@[j] == bit_seq(*v)[j],
        decreases n - i,
    {
        let b = bv_get(v, i);
        out.push(b.unwrap());
        i += 1;
    }
    proof {
        assert(out@ =~= bit_seq(*v));
    }
    out
}

} // verus!

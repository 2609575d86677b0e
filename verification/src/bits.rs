//! Fixed-size bit sets and the decoding of bit-packed capability buffers.
//!
//! The supported-key set and the boolean parts of the state mirror live in
//! `fixedbitset::FixedBitSet`, sized once at open time.  The set is opaque to
//! the verifier; everything the library knows about one is stated over
//! [`fbs_bits`] by the trusted wrappers below, and all other code reaches the
//! set only through those wrappers.
//!
//! A capability or state query answers with a bit-packed byte buffer: bit `i`
//! of the answer is bit `i % 8` of byte `i / 8`.  [`bit_at`] is the verified
//! reading of such a buffer.

use vstd::prelude::*;

use fixedbitset::FixedBitSet;

verus! {

/// fixedbitset's bit set, declared so that values of it can stand in fields
/// and signatures.  The library reads and writes it only through the wrappers
/// in this module.
#[verifier::external_type_specification]
#[verifier::external_body]
pub struct ExFixedBitSet(FixedBitSet);

/// The bits a set holds, lowest index first.
pub uninterp spec fn fbs_bits(s: FixedBitSet) -> Seq<bool>;

/// Relies on FixedBitSet::with_capacity: `bits` bits, all initially clear.
#[verifier::external_body]
pub fn fbs_with_capacity(bits: usize) -> (r: FixedBitSet)
    ensures
        fbs_bits(r).len() == bits,
        forall|i: int| 0 <= i < bits ==> !fbs_bits(r)[i],
{
    FixedBitSet::with_capacity(bits)
}

/// Relies on FixedBitSet::len: the number of bits the set holds (not the
/// number of set bits).
#[verifier::external_body]
pub fn fbs_len(s: &FixedBitSet) -> (r: usize)
    ensures
        r == fbs_bits(*s).len(),
{
    s.len()
}

/// Relies on FixedBitSet::contains: bits outside the capacity read as clear.
#[verifier::external_body]
pub fn fbs_contains(s: &FixedBitSet, bit: usize) -> (r: bool)
    ensures
        r == (bit < fbs_bits(*s).len() && fbs_bits(*s)[bit as int]),
{
    s.contains(bit)
}

/// Relies on FixedBitSet::set, which stores `enabled` at `bit` and panics
/// outside the capacity; the capacity never changes.
#[verifier::external_body]
pub fn fbs_set(s: &mut FixedBitSet, bit: usize, enabled: bool)
    requires
        bit < fbs_bits(*old(s)).len(),
    ensures
        fbs_bits(*final(s)) == fbs_bits(*old(s)).update(bit as int, enabled),
{
    s.set(bit, enabled)
}

/// Relies on FixedBitSet's Clone impl, which copies the stored blocks and the
/// bit count.
#[verifier::external_body]
pub fn fbs_clone(s: &FixedBitSet) -> (r: FixedBitSet)
    ensures
        fbs_bits(r) == fbs_bits(*s),
{
    s.clone()
}

/// Bit `i` of a bit-packed byte buffer; bits beyond the buffer read as clear.
pub open spec fn spec_bit_at(b: Seq<u8>, i: int) -> bool {
    &&& 0 <= i
    &&& i / 8 < b.len()
    &&& (b[i / 8] >> ((i % 8) as u8)) & 1u8 == 1u8
}

/// Reads bit `i` of a bit-packed byte buffer.
pub fn bit_at(buf: &[u8], i: usize) -> (r: bool)
    ensures
        r == spec_bit_at(buf@, i as int),
{
    let byte = i / 8;
    if byte < buf.len() {
        (buf[byte] >> ((i % 8) as u8)) & 1u8 == 1u8
    } else {
        false
    }
}

} // verus!

//! Single-bit access to 16-bit words, on top of the `bit` crate.

use bit::BitIndex;
use vstd::prelude::*;

verus! {

/// Whether bit `pos` of `v` is one, bit 0 being the least significant.
pub open spec fn bit_of(v: u16, pos: usize) -> bool {
    v & (1u16 << pos) != 0
}

/// `v` with bit `pos` forced to `val`, all other bits kept.
pub open spec fn with_bit(v: u16, pos: usize, val: bool) -> u16 {
    if val {
        v | (1u16 << pos)
    } else {
        v & !(1u16 << pos)
    }
}

/// Calls `BitIndex::bit` of the `bit` crate on a `u16`.
///
/// The crate documents that the method returns the value of the bit at the
/// given position and panics when the position is not below the bit length,
/// here 16.
#[verifier::external_body]
pub(crate) fn get_bit(v: u16, pos: usize) -> (r: bool)
    requires
        pos < 16,
    ensures
        r == bit_of(v, pos),
{
    v.bit(pos)
}

/// Calls `BitIndex::set_bit` of the `bit` crate on a copy of `v` and returns
/// the copy.
///
/// The crate documents that the method sets the bit at the given position to
/// the given value and panics when the position is not below the bit length,
/// here 16.
#[verifier::external_body]
pub(crate) fn set_bit(v: u16, pos: usize, val: bool) -> (r: u16)
    requires
        pos < 16,
    ensures
        r == with_bit(v, pos, val),
{
    let mut w: u16 = v;
    w.set_bit(pos, val);
    w
}

/// A bit that was just written reads back as written.
pub proof fn lemma_with_bit_reads_back(v: u16, pos: usize, val: bool)
    requires
        pos < 16,
    ensures
        bit_of(with_bit(v, pos, val), pos) == val,
{
    let p: u16 = pos as u16;
    assert((v | (1u16 << p)) & (1u16 << p) != 0) by (bit_vector)
        requires
            p < 16,
    ;
    assert((v & !(1u16 << p)) & (1u16 << p) == 0) by (bit_vector)
        requires
            p < 16,
    ;
    assert((1u16 << pos) == (1u16 << p)) by {
        assert(pos == p);
    }
}

/// Writing one bit leaves every other bit as it was.
pub proof fn lemma_with_bit_keeps_others(v: u16, pos: usize, val: bool, other: usize)
    requires
        pos < 16,
        other < 16,
        other != pos,
    ensures
        bit_of(with_bit(v, pos, val), other) == bit_of(v, other),
{
    let p: u16 = pos as u16;
    let q: u16 = other as u16;
    assert(((v | (1u16 << p)) & (1u16 << q) != 0) == (v & (1u16 << q) != 0)) by (bit_vector)
        requires
            p < 16,
            q < 16,
            p != q,
    ;
    assert(((v & !(1u16 << p)) & (1u16 << q) != 0) == (v & (1u16 << q) != 0)) by (bit_vector)
        requires
            p < 16,
            q < 16,
            p != q,
    ;
    assert((1u16 << pos) == (1u16 << p)) by {
        assert(pos == p);
    }
    assert((1u16 << other) == (1u16 << q)) by {
        assert(other == q);
    }
}

} // verus!

//! Little-endian byte images of integer sequences.
//!
//! GPU-bound data in this crate is built from `f32` bit patterns (`u32`)
//! and `u16` indices; these functions give the exact memory image that is
//! uploaded to a GPU buffer, record by record.

use vstd::bytes::{spec_u16_to_le_bytes, spec_u32_to_le_bytes, u16_to_le_bytes, u32_to_le_bytes};
use vstd::prelude::*;

verus! {

/// The little-endian byte image of a `u32` sequence: four bytes per word,
/// in sequence order.
pub open spec fn le_bytes_of_u32s(s: Seq<u32>) -> Seq<u8>
    decreases s.len(),
{
    if s.len() == 0 {
        Seq::empty()
    } else {
        le_bytes_of_u32s(s.drop_last()) + spec_u32_to_le_bytes(s.last())
    }
}

/// The little-endian byte image of a `u16` sequence: two bytes per word,
/// in sequence order.
pub open spec fn le_bytes_of_u16s(s: Seq<u16>) -> Seq<u8>
    decreases s.len(),
{
    if s.len() == 0 {
        Seq::empty()
    } else {
        le_bytes_of_u16s(s.drop_last()) + spec_u16_to_le_bytes(s.last())
    }
}

/// A `u32` sequence's byte image has exactly four bytes per word.
pub proof fn lemma_le_bytes_of_u32s_len(s: Seq<u32>)
    ensures
        le_bytes_of_u32s(s).len() == 4 * s.len(),
    decreases s.len(),
{
    vstd::bytes::lemma_auto_spec_u32_to_from_le_bytes();
    if s.len() > 0 {
        lemma_le_bytes_of_u32s_len(s.drop_last());
    }
}

/// A `u16` sequence's byte image has exactly two bytes per word.
pub proof fn lemma_le_bytes_of_u16s_len(s: Seq<u16>)
    ensures
        le_bytes_of_u16s(s).len() == 2 * s.len(),
    decreases s.len(),
{
    vstd::bytes::lemma_auto_spec_u16_to_from_le_bytes();
    if s.len() > 0 {
        lemma_le_bytes_of_u16s_len(s.drop_last());
    }
}

/// Appends the four little-endian bytes of `x` to `out`.
pub fn push_u32_le(out: &mut Vec<u8>, x: u32)
    ensures
        final(out)@ == old(out)@ + spec_u32_to_le_bytes(x),
{
    let mut b = u32_to_le_bytes(x);
    out.append(&mut b);
}

/// Appends the two little-endian bytes of `x` to `out`.
pub fn push_u16_le(out: &mut Vec<u8>, x: u16)
    ensures
        final(out)@ == old(out)@ + spec_u16_to_le_bytes(x),
{
    let mut b = u16_to_le_bytes(x);
    out.append(&mut b);
}

/// Serializes a whole `u32` sequence to its little-endian byte image.
pub fn u32s_to_le_bytes(xs: &Vec<u32>) -> (r: Vec<u8>)
    ensures
        r@ == le_bytes_of_u32s(xs@),
{
    let mut out: Vec<u8> = Vec::new();
    let mut i: usize = 0;
    while i < xs.len()
        invariant
            i <= xs@.len(),
            out@ == le_bytes_of_u32s(xs@.take(i as int)),
        decreases xs@.len() - i,
    {
        push_u32_le(&mut out, xs[i]);
        proof {
            assert(xs@.take(i + 1).drop_last() =~= xs@.take(i as int));
            assert(xs@.take(i + 1).last() == xs@[i as int]);
        }
        i = i + 1;
    }
    proof {
        assert(xs@.take(xs@.len() as int) =~= xs@);
    }
    out
}

/// Serializes a whole `u16` sequence to its little-endian byte image.
pub fn u16s_to_le_bytes(xs: &Vec<u16>) -> (r: Vec<u8>)
    ensures
        r@ == le_bytes_of_u16s(xs@),
{
    let mut out: Vec<u8> = Vec::new();
    let mut i: usize = 0;
    while i < xs.len()
        invariant
            i <= xs@.len(),
            out@ == le_bytes_of_u16s(xs@.take(i as int)),
        decreases xs@.len() - i,
    {
        push_u16_le(&mut out, xs[i]);
        proof {
            assert(xs@.take(i + 1).drop_last() =~= xs@.take(i as int));
            assert(xs@.take(i + 1).last() == xs@[i as int]);
        }
        i = i + 1;
    }
    proof {
        assert(xs@.take(xs@.len() as int) =~= xs@);
    }
    out
}

} // verus!

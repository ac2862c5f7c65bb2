//! Distances between bit arrays of one size: Hamming and Jaccard.

use vstd::prelude::*;

use crate::bitarray::BitArray;
use crate::popcount::{
    and_bytes, hamming, lemma_and_or_prefix, lemma_diff_prefix_symmetric, lemma_diff_prefix_triangle,
    lemma_diff_prefix_xor, lemma_diff_prefix_zero, lemma_ones_prefix_le, lemma_or_prefix_zero,
    or_bytes, seq_ones,
    xor_bytes, MAX_BYTES,
};

verus! {

/// The Hamming distance as a metric: the number of differing bits.
#[derive(Copy, Clone, Debug, Default, PartialEq, Eq, PartialOrd, Ord, Hash)]
pub struct Hamming;

impl Hamming {
    /// The number of bits in which `a` and `b` differ.
    pub fn distance<const B: usize>(&self, a: &BitArray<B>, b: &BitArray<B>) -> (r: u32)
        requires
            B <= MAX_BYTES,
        ensures
            r == hamming(a@, b@),
    {
        a.distance(b)
    }
}

/// The set-bit counts of the intersection and of the union of two arrays.
///
/// The Jaccard distance they give is `1 - intersection / union`, and `0`
/// when the union is empty.
#[derive(Copy, Clone, Debug, Default, PartialEq, Eq, Hash)]
pub struct Overlap {
    pub intersection: u32,
    pub union: u32,
}

/// The Jaccard distance as a metric: each array is the set of its set bits.
#[derive(Copy, Clone, Debug, Default, PartialEq, Eq, PartialOrd, Ord, Hash)]
pub struct Jaccard;

impl Jaccard {
    /// The intersection and union counts from which the Jaccard distance of `a` and `b` follows.
    pub fn overlap<const B: usize>(&self, a: &BitArray<B>, b: &BitArray<B>) -> (r: Overlap)
        requires
            B <= MAX_BYTES,
        ensures
            r.intersection == seq_ones(and_bytes(a@, b@)),
            r.union == seq_ones(or_bytes(a@, b@)),
    {
        let intersection = (*a & *b).weight();
        let union = (*a | *b).weight();
        Overlap { intersection, union }
    }
}

/// The fused distance equals the weight of the XOR of the two arrays.
pub proof fn lemma_distance_is_weight_of_xor<const B: usize>(a: BitArray<B>, b: BitArray<B>)
    ensures
        hamming(a@, b@) == seq_ones(xor_bytes(a@, b@)),
{
    lemma_diff_prefix_xor(a@, b@, B as nat);
}

/// An array is at distance zero from itself and from nothing else,
/// and the distance does not depend on the order of the arrays.
pub proof fn lemma_distance_identity_symmetry<const B: usize>(a: BitArray<B>, b: BitArray<B>)
    ensures
        hamming(a@, a@) == 0,
        hamming(a@, b@) == 0 <==> a@ == b@,
        hamming(a@, b@) == hamming(b@, a@),
{
    lemma_diff_prefix_zero(a@, a@, B as nat);
    lemma_diff_prefix_zero(a@, b@, B as nat);
    if hamming(a@, b@) == 0 {
        assert(a@ =~= b@);
    }
    lemma_diff_prefix_symmetric(a@, b@, B as nat);
}

/// Two arrays of `B` bytes differ in at most `8 * B` bits.
pub proof fn lemma_distance_range<const B: usize>(a: BitArray<B>, b: BitArray<B>)
    ensures
        hamming(a@, b@) <= 8 * B,
{
    lemma_diff_prefix_xor(a@, b@, B as nat);
    lemma_ones_prefix_le(xor_bytes(a@, b@), B as nat);
}

/// The Hamming distance satisfies the triangle inequality.
pub proof fn lemma_distance_triangle<const B: usize>(a: BitArray<B>, b: BitArray<B>, c: BitArray<B>)
    ensures
        hamming(a@, c@) <= hamming(a@, b@) + hamming(b@, c@),
{
    lemma_diff_prefix_triangle(a@, b@, c@, B as nat);
}

/// The Jaccard distance `1 - intersection / union` lies between 0 and 1:
/// the intersection never exceeds the union.  The union is empty exactly when both
/// arrays are all zero, where the distance is 0 by definition, and otherwise
/// the distance is 0 exactly when the arrays are equal.
pub proof fn lemma_jaccard_bounds<const B: usize>(a: BitArray<B>, b: BitArray<B>)
    ensures
        seq_ones(and_bytes(a@, b@)) <= seq_ones(or_bytes(a@, b@)),
        seq_ones(or_bytes(a@, b@)) == 0 <==> (forall|i: int| 0 <= i < B ==> a@[i] == 0 && b@[i]
            == 0),
        seq_ones(and_bytes(a@, b@)) == seq_ones(or_bytes(a@, b@)) <==> a@ == b@,
{
    assert(and_bytes(a@, b@).len() == B && or_bytes(a@, b@).len() == B);
    lemma_and_or_prefix(a@, b@, B as nat);
    lemma_or_prefix_zero(a@, b@, B as nat);
    if seq_ones(and_bytes(a@, b@)) == seq_ones(or_bytes(a@, b@)) {
        assert(a@ =~= b@);
    }
}

} // verus!

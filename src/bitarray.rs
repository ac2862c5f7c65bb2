//! A constant-sized array of bits: construction, byte access, bitwise algebra,
//! population count and Hamming distance, and the raw-byte serialised form.

use vstd::prelude::*;

use crate::popcount::{
    and_bytes, byte_of, hamming, lemma_byte_of_xor, lemma_diff_prefix_xor, lemma_ones_prefix_le,
    lemma_prefix_word, ones_prefix, or_bytes, seq_ones, xor_bytes, MAX_BYTES,
};

verus! {

/// Assembles the eight bytes `bytes[i .. i + 8]` into a little-endian word.
fn load_word<const B: usize>(bytes: &[u8; B], i: usize) -> (w: u64)
    requires
        i + 8 <= B,
    ensures
        forall|j: nat| j < 8 ==> #[trigger] byte_of(w, j) == bytes@[i + j as int],
{
    let b0 = bytes[i];
    let b1 = bytes[i + 1];
    let b2 = bytes[i + 2];
    let b3 = bytes[i + 3];
    let b4 = bytes[i + 4];
    let b5 = bytes[i + 5];
    let b6 = bytes[i + 6];
    let b7 = bytes[i + 7];
    let w: u64 = (b0 as u64) | ((b1 as u64) << 8u64) | ((b2 as u64) << 16u64) | ((b3 as u64)
        << 24u64) | ((b4 as u64) << 32u64) | ((b5 as u64) << 40u64) | ((b6 as u64) << 48u64) | ((
    b7 as u64) << 56u64);
    assert(byte_of(w, 0) == b0 && byte_of(w, 1) == b1 && byte_of(w, 2) == b2 && byte_of(w, 3)
        == b3 && byte_of(w, 4) == b4 && byte_of(w, 5) == b5 && byte_of(w, 6) == b6 && byte_of(w, 7)
        == b7) by (bit_vector)
        requires
            w == (b0 as u64) | ((b1 as u64) << 8u64) | ((b2 as u64) << 16u64) | ((b3 as u64)
                << 24u64) | ((b4 as u64) << 32u64) | ((b5 as u64) << 40u64) | ((b6 as u64)
                << 48u64) | ((b7 as u64) << 56u64),
    ;
    assert forall|j: nat| j < 8 implies #[trigger] byte_of(w, j) == bytes@[i + j as int] by {
        if j == 0 {
        } else if j == 1 {
        } else if j == 2 {
        } else if j == 3 {
        } else if j == 4 {
        } else if j == 5 {
        } else if j == 6 {
        } else {
        }
    }
    w
}

/// Decoding failed: the source held fewer bytes than an array of this size needs.
#[derive(Copy, Clone, Debug, PartialEq, Eq, Structural, Hash)]
pub struct TruncatedInput {
    pub needed: usize,
    pub available: usize,
}

/// A constant-sized array of bits; `B` is the number of bytes.
#[derive(Copy, Clone, Debug, Hash)]
pub struct BitArray<const B: usize> {
    pub bytes: [u8; B],
}

impl<const B: usize> View for BitArray<B> {
    type V = Seq<u8>;

    open spec fn view(&self) -> Seq<u8> {
        self.bytes@
    }
}

impl<const B: usize> BitArray<B> {
    /// Wraps the given bytes verbatim.
    pub fn new(bytes: [u8; B]) -> (r: Self)
        ensures
            r.bytes == bytes,
    {
        Self { bytes }
    }

    /// An array of `B` zero bytes.
    pub fn zeros() -> (r: Self)
        ensures
            r@ == Seq::new(B as nat, |i: int| 0u8),
    {
        Self { bytes: [0u8; B] }
    }
    /// The bytes of the array.
    pub fn bytes(&self) -> (r: &[u8; B])
        ensures
            *r == self.bytes,
    {
        &self.bytes
    }

    /// The bytes of the array, for changing them in place.
    pub fn bytes_mut(&mut self) -> (r: &mut [u8; B])
        ensures
            *r == old(self).bytes,
            final(self).bytes == *final(r),
    {
        &mut self.bytes
    }

    /// The serialised form: the `B` raw bytes, with no length prefix or framing.
    pub fn to_bytes(&self) -> (r: Vec<u8>)
        ensures
            r@ == self@,
    {
        let mut out: Vec<u8> = Vec::with_capacity(B);
        let mut i: usize = 0;
        while i < B
            invariant
                i <= B,
                self@.len() == B,
                out@ == self@.subrange(0, i as int),
            decreases B - i,
        {
            out.push(self.bytes[i]);
            i = i + 1;
        }
        assert(out@ =~= self@);
        out
    }

    /// Reads an array from the first `B` bytes of `src`; fails when `src` is shorter.
    pub fn from_bytes(src: &[u8]) -> (r: Result<Self, TruncatedInput>)
        ensures
            r is Ok <==> src@.len() >= B,
            r matches Ok(a) ==> a@ == src@.subrange(0, B as int),
            r matches Err(e) ==> e.needed == B && e.available == src@.len(),
    {
        if src.len() < B {
            return Err(TruncatedInput { needed: B, available: src.len() });
        }
        let mut bytes = [0u8; B];
        let mut i: usize = 0;
        while i < B
            invariant
                i <= B <= src@.len(),
                bytes@.len() == B,
                forall|j: int| 0 <= j < i ==> bytes@[j] == src@[j],
            decreases B - i,
        {
            bytes[i] = src[i];
            i = i + 1;
        }
        assert(bytes@ =~= src@.subrange(0, B as int));
        Ok(Self { bytes })
    }

    /// The Hamming weight: the number of set bits in the array.
    pub fn weight(&self) -> (r: u32)
        requires
            B <= MAX_BYTES,
        ensures
            r == seq_ones(self@),
    {
        let n_words: usize = B / 8;
        let mut sum: u32 = 0;
        let mut i: usize = 0;
        let mut k: usize = 0;
        while k < n_words
            invariant
                n_words == B / 8,
                B <= MAX_BYTES,
                k <= n_words,
                i == 8 * k,
                self@.len() == B,
                sum == ones_prefix(self@, i as nat),
            decreases n_words - k,
        {
            let w = load_word(&self.bytes, i);
            proof {
                lemma_prefix_word(self@, i as nat, w);
                lemma_ones_prefix_le(self@, (i + 8) as nat);
            }
            sum = sum + w.count_ones();
            i = i + 8;
            k = k + 1;
        }
        while i < B
            invariant
                i <= B <= MAX_BYTES,
                self@.len() == B,
                sum == ones_prefix(self@, i as nat),
            decreases B - i,
        {
            proof {
                lemma_ones_prefix_le(self@, (i + 1) as nat);
            }
            sum = sum + self.bytes[i].count_ones();
            i = i + 1;
        }
        sum
    }

    /// The Hamming distance to `other`: the number of bits in which the two differ.
    pub fn distance(&self, other: &Self) -> (r: u32)
        requires
            B <= MAX_BYTES,
        ensures
            r == hamming(self@, other@),
    {
        let ghost x = xor_bytes(self@, other@);
        let n_words: usize = B / 8;
        let mut sum: u32 = 0;
        let mut i: usize = 0;
        let mut k: usize = 0;
        while k < n_words
            invariant
                n_words == B / 8,
                B <= MAX_BYTES,
                k <= n_words,
                i == 8 * k,
                self@.len() == B,
                other@.len() == B,
                x == xor_bytes(self@, other@),
                sum == ones_prefix(x, i as nat),
            decreases n_words - k,
        {
            let wa = load_word(&self.bytes, i);
            let wb = load_word(&other.bytes, i);
            let w = wa ^ wb;
            proof {
                assert forall|j: nat| j < 8 implies #[trigger] byte_of(w, j) == x[i + j as int] by {
                    lemma_byte_of_xor(wa, wb, j);
                }
                lemma_prefix_word(x, i as nat, w);
                lemma_ones_prefix_le(x, (i + 8) as nat);
            }
            sum = sum + w.count_ones();
            i = i + 8;
            k = k + 1;
        }
        while i < B
            invariant
                i <= B <= MAX_BYTES,
                self@.len() == B,
                other@.len() == B,
                x == xor_bytes(self@, other@),
                sum == ones_prefix(x, i as nat),
            decreases B - i,
        {
            proof {
                lemma_ones_prefix_le(x, (i + 1) as nat);
            }
            sum = sum + (self.bytes[i] ^ other.bytes[i]).count_ones();
            i = i + 1;
        }
        proof {
            lemma_diff_prefix_xor(self@, other@, B as nat);
        }
        sum
    }
}


impl<const B: usize> core::ops::BitAnd for BitArray<B> {
    type Output = Self;

    /// Byte-wise AND.
    fn bitand(self, rhs: Self) -> (r: Self)
        ensures
            r@ == and_bytes(self@, rhs@),
    {
        let mut out = self;
        let mut i: usize = 0;
        while i < B
            invariant
                i <= B,
                out@.len() == B,
                self@.len() == B,
                rhs@.len() == B,
                forall|j: int| 0 <= j < i ==> out@[j] == self@[j] & rhs@[j],
                forall|j: int| i <= j < B ==> out@[j] == self@[j],
            decreases B - i,
        {
            out.bytes[i] = out.bytes[i] & rhs.bytes[i];
            i = i + 1;
        }
        assert(out@ =~= and_bytes(self@, rhs@));
        let ghost c = choose|r: Self| r@ == and_bytes(self@, rhs@);
        assert(out.bytes == c.bytes);
        out
    }
}

impl<const B: usize> vstd::std_specs::ops::BitAndSpecImpl for BitArray<B> {
    open spec fn obeys_bitand_spec() -> bool {
        true
    }

    open spec fn bitand_req(self, rhs: Self) -> bool {
        true
    }

    open spec fn bitand_spec(self, rhs: Self) -> Self {
        choose|r: Self| r@ == and_bytes(self@, rhs@)
    }
}

impl<const B: usize> core::ops::BitOr for BitArray<B> {
    type Output = Self;

    /// Byte-wise OR.
    fn bitor(self, rhs: Self) -> (r: Self)
        ensures
            r@ == or_bytes(self@, rhs@),
    {
        let mut out = self;
        let mut i: usize = 0;
        while i < B
            invariant
                i <= B,
                out@.len() == B,
                self@.len() == B,
                rhs@.len() == B,
                forall|j: int| 0 <= j < i ==> out@[j] == self@[j] | rhs@[j],
                forall|j: int| i <= j < B ==> out@[j] == self@[j],
            decreases B - i,
        {
            out.bytes[i] = out.bytes[i] | rhs.bytes[i];
            i = i + 1;
        }
        assert(out@ =~= or_bytes(self@, rhs@));
        let ghost c = choose|r: Self| r@ == or_bytes(self@, rhs@);
        assert(out.bytes == c.bytes);
        out
    }
}

impl<const B: usize> vstd::std_specs::ops::BitOrSpecImpl for BitArray<B> {
    open spec fn obeys_bitor_spec() -> bool {
        true
    }

    open spec fn bitor_req(self, rhs: Self) -> bool {
        true
    }

    open spec fn bitor_spec(self, rhs: Self) -> Self {
        choose|r: Self| r@ == or_bytes(self@, rhs@)
    }
}

impl<const B: usize> core::ops::BitXor for BitArray<B> {
    type Output = Self;

    /// Byte-wise XOR.
    fn bitxor(self, rhs: Self) -> (r: Self)
        ensures
            r@ == xor_bytes(self@, rhs@),
    {
        let mut out = self;
        let mut i: usize = 0;
        while i < B
            invariant
                i <= B,
                out@.len() == B,
                self@.len() == B,
                rhs@.len() == B,
                forall|j: int| 0 <= j < i ==> out@[j] == self@[j] ^ rhs@[j],
                forall|j: int| i <= j < B ==> out@[j] == self@[j],
            decreases B - i,
        {
            out.bytes[i] = out.bytes[i] ^ rhs.bytes[i];
            i = i + 1;
        }
        assert(out@ =~= xor_bytes(self@, rhs@));
        let ghost c = choose|r: Self| r@ == xor_bytes(self@, rhs@);
        assert(out.bytes == c.bytes);
        out
    }
}

impl<const B: usize> vstd::std_specs::ops::BitXorSpecImpl for BitArray<B> {
    open spec fn obeys_bitxor_spec() -> bool {
        true
    }

    open spec fn bitxor_req(self, rhs: Self) -> bool {
        true
    }

    open spec fn bitxor_spec(self, rhs: Self) -> Self {
        choose|r: Self| r@ == xor_bytes(self@, rhs@)
    }
}

impl<const B: usize> PartialEq for BitArray<B> {
    fn eq(&self, other: &Self) -> (r: bool) {
        let mut i: usize = 0;
        while i < B
            invariant
                i <= B,
                self@.len() == B,
                other@.len() == B,
                forall|j: int| 0 <= j < i ==> self@[j] == other@[j],
            decreases B - i,
        {
            if self.bytes[i] != other.bytes[i] {
                return false;
            }
            i = i + 1;
        }
        assert(self@ =~= other@);
        true
    }
}

impl<const B: usize> vstd::std_specs::cmp::PartialEqSpecImpl for BitArray<B> {
    open spec fn obeys_eq_spec() -> bool {
        true
    }

    open spec fn eq_spec(&self, other: &Self) -> bool {
        self@ == other@
    }
}

impl<const B: usize> Eq for BitArray<B> {

}

impl<const B: usize> core::ops::Deref for BitArray<B> {
    type Target = [u8; B];

    fn deref(&self) -> (r: &[u8; B])
        ensures
            *r == self.bytes,
    {
        &self.bytes
    }
}

impl<const B: usize> core::ops::DerefMut for BitArray<B> {
    fn deref_mut(&mut self) -> (r: &mut [u8; B])
        ensures
            *r == old(self).bytes,
            final(self).bytes == *final(r),
    {
        &mut self.bytes
    }
}

} // verus!

//! The bit-counting model: set bits of bytes, words and byte sequences,
//! and the facts about them that the counting code relies on.

use vstd::prelude::*;

verus! {

/// Bit `k` of `x`, as 0 or 1.
pub open spec fn bit(x: u64, k: nat) -> nat {
    ((x >> (k as u64)) & 1u64) as nat
}

/// Number of set bits among the lowest `n` bits of `x`.
pub open spec fn ones_below(x: u64, n: nat) -> nat
    decreases n,
{
    if n == 0 {
        0
    } else {
        ones_below(x, (n - 1) as nat) + bit(x, (n - 1) as nat)
    }
}

/// Number of set bits of a byte.
pub open spec fn byte_ones(b: u8) -> nat {
    ones_below(b as u64, 8)
}

/// Number of set bits of a 64-bit word.
pub open spec fn word_ones(w: u64) -> nat {
    ones_below(w, 64)
}

/// Relies on `u8::count_ones`: the number of ones in the binary representation.
pub assume_specification[ u8::count_ones ](x: u8) -> (r: u32)
    ensures
        r == byte_ones(x),
;

/// Relies on `u64::count_ones`: the number of ones in the binary representation.
pub assume_specification[ u64::count_ones ](x: u64) -> (r: u32)
    ensures
        r == word_ones(x),
;

/// Byte `j` (0 is the least significant) of the word `w`.
pub open spec fn byte_of(w: u64, j: nat) -> u8 {
    ((w >> ((8 * j) as u64)) & 0xffu64) as u8
}

/// Set bits in the first `n` bytes of `s`.
pub open spec fn ones_prefix(s: Seq<u8>, n: nat) -> nat
    decreases n,
{
    if n == 0 {
        0
    } else {
        ones_prefix(s, (n - 1) as nat) + byte_ones(s[n - 1])
    }
}

/// Set bits in all of `s`: its population count.
pub open spec fn seq_ones(s: Seq<u8>) -> nat {
    ones_prefix(s, s.len())
}

/// Number of bit positions in which the first `n` bytes of `s` and `t` differ.
pub open spec fn diff_prefix(s: Seq<u8>, t: Seq<u8>, n: nat) -> nat
    decreases n,
{
    if n == 0 {
        0
    } else {
        diff_prefix(s, t, (n - 1) as nat) + byte_ones(s[n - 1] ^ t[n - 1])
    }
}

/// Hamming distance: the number of bit positions in which `s` and `t` differ.
pub open spec fn hamming(s: Seq<u8>, t: Seq<u8>) -> nat {
    diff_prefix(s, t, s.len())
}

/// Byte-wise AND of two sequences of the same length.
pub open spec fn and_bytes(s: Seq<u8>, t: Seq<u8>) -> Seq<u8> {
    Seq::new(s.len(), |i: int| s[i] & t[i])
}

/// Byte-wise OR of two sequences of the same length.
pub open spec fn or_bytes(s: Seq<u8>, t: Seq<u8>) -> Seq<u8> {
    Seq::new(s.len(), |i: int| s[i] | t[i])
}

/// Byte-wise XOR of two sequences of the same length.
pub open spec fn xor_bytes(s: Seq<u8>, t: Seq<u8>) -> Seq<u8> {
    Seq::new(s.len(), |i: int| s[i] ^ t[i])
}

/// The largest byte count whose bit count fits in a `u32`.
pub const MAX_BYTES: usize = 0x1fff_ffff;

proof fn lemma_bit_le_1(x: u64, k: u64)
    by (bit_vector)
    ensures
        (x >> k) & 1u64 <= 1u64,
{
}

proof fn lemma_ones_below_le(x: u64, n: nat)
    ensures
        ones_below(x, n) <= n,
    decreases n,
{
    if n > 0 {
        lemma_ones_below_le(x, (n - 1) as nat);
        lemma_bit_le_1(x, (n - 1) as u64);
    }
}

pub(crate) proof fn lemma_ones_prefix_le(s: Seq<u8>, n: nat)
    requires
        n <= s.len(),
    ensures
        ones_prefix(s, n) <= 8 * n,
    decreases n,
{
    if n > 0 {
        lemma_ones_prefix_le(s, (n - 1) as nat);
        lemma_ones_below_le(s[n - 1] as u64, 8);
    }
}

proof fn lemma_bit_of_word(w: u64, j: u64, k: u64)
    by (bit_vector)
    requires
        j < 8,
        k < 8,
    ensures
        (w >> ((8 * j + k) as u64)) & 1u64 == ((((w >> ((8 * j) as u64)) & 0xffu64) as u8) as u64
            >> k) & 1u64,
{
}

/// The bits `8 * j .. 8 * j + 8` of a word are the bits of its byte `j`.
proof fn lemma_word_byte_ones(w: u64, j: nat)
    requires
        j < 8,
    ensures
        ones_below(w, 8 * j + 8) == ones_below(w, 8 * j) + byte_ones(byte_of(w, j)),
{
    reveal_with_fuel(ones_below, 9);
    let b = byte_of(w, j);
    lemma_bit_of_word(w, j as u64, 0);
    lemma_bit_of_word(w, j as u64, 1);
    lemma_bit_of_word(w, j as u64, 2);
    lemma_bit_of_word(w, j as u64, 3);
    lemma_bit_of_word(w, j as u64, 4);
    lemma_bit_of_word(w, j as u64, 5);
    lemma_bit_of_word(w, j as u64, 6);
    lemma_bit_of_word(w, j as u64, 7);
}

/// A word's population count is the sum of those of its bytes.
proof fn lemma_word_ones(w: u64)
    ensures
        word_ones(w) == byte_ones(byte_of(w, 0)) + byte_ones(byte_of(w, 1)) + byte_ones(
            byte_of(w, 2),
        ) + byte_ones(byte_of(w, 3)) + byte_ones(byte_of(w, 4)) + byte_ones(byte_of(w, 5))
            + byte_ones(byte_of(w, 6)) + byte_ones(byte_of(w, 7)),
{
    assert(ones_below(w, 0) == 0);
    lemma_word_byte_ones(w, 0);
    lemma_word_byte_ones(w, 1);
    lemma_word_byte_ones(w, 2);
    lemma_word_byte_ones(w, 3);
    lemma_word_byte_ones(w, 4);
    lemma_word_byte_ones(w, 5);
    lemma_word_byte_ones(w, 6);
    lemma_word_byte_ones(w, 7);
}

/// Counting a word whose bytes are `s[i .. i + 8]` advances the prefix count by eight bytes.
pub(crate) proof fn lemma_prefix_word(s: Seq<u8>, i: nat, w: u64)
    requires
        i + 8 <= s.len(),
        forall|j: nat| j < 8 ==> #[trigger] byte_of(w, j) == s[i + j as int],
    ensures
        ones_prefix(s, i + 8) == ones_prefix(s, i) + word_ones(w),
{
    reveal_with_fuel(ones_prefix, 9);
    lemma_word_ones(w);
    assert(byte_of(w, 0) == s[i + 0int]);
    assert(byte_of(w, 1) == s[i + 1int]);
    assert(byte_of(w, 2) == s[i + 2int]);
    assert(byte_of(w, 3) == s[i + 3int]);
    assert(byte_of(w, 4) == s[i + 4int]);
    assert(byte_of(w, 5) == s[i + 5int]);
    assert(byte_of(w, 6) == s[i + 6int]);
    assert(byte_of(w, 7) == s[i + 7int]);
}

pub(crate) proof fn lemma_byte_of_xor(wa: u64, wb: u64, j: nat)
    requires
        j < 8,
    ensures
        byte_of(wa ^ wb, j) == byte_of(wa, j) ^ byte_of(wb, j),
{
    let k = (8 * j) as u64;
    assert((((wa ^ wb) >> k) & 0xffu64) as u8 == (((wa >> k) & 0xffu64) as u8) ^ (((wb >> k)
        & 0xffu64) as u8)) by (bit_vector);
}

/// Counting the differing bits byte by byte is counting the bits of the XOR.
pub(crate) proof fn lemma_diff_prefix_xor(s: Seq<u8>, t: Seq<u8>, n: nat)
    requires
        n <= s.len(),
        s.len() == t.len(),
    ensures
        diff_prefix(s, t, n) == ones_prefix(xor_bytes(s, t), n),
    decreases n,
{
    if n > 0 {
        lemma_diff_prefix_xor(s, t, (n - 1) as nat);
    }
}

proof fn lemma_ones_below_triangle(x: u64, y: u64, z: u64, n: nat)
    requires
        forall|k: nat| k < n ==> #[trigger] bit(z, k) <= bit(x, k) + bit(y, k),
    ensures
        ones_below(z, n) <= ones_below(x, n) + ones_below(y, n),
    decreases n,
{
    if n > 0 {
        lemma_ones_below_triangle(x, y, z, (n - 1) as nat);
        assert(bit(z, (n - 1) as nat) <= bit(x, (n - 1) as nat) + bit(y, (n - 1) as nat));
    }
}

proof fn lemma_ones_below_subset(x: u64, y: u64, n: nat)
    requires
        forall|k: nat| k < n ==> #[trigger] bit(x, k) <= bit(y, k),
    ensures
        ones_below(x, n) <= ones_below(y, n),
        ones_below(x, n) == ones_below(y, n) ==> forall|k: nat| k < n ==> #[trigger] bit(x, k)
            == bit(y, k),
    decreases n,
{
    if n > 0 {
        lemma_ones_below_subset(x, y, (n - 1) as nat);
        assert(bit(x, (n - 1) as nat) <= bit(y, (n - 1) as nat));
    }
}

proof fn lemma_ones_below_zero(x: u64, n: nat)
    ensures
        ones_below(x, n) == 0 <==> forall|k: nat| k < n ==> #[trigger] bit(x, k) == 0,
    decreases n,
{
    if n > 0 {
        lemma_ones_below_zero(x, (n - 1) as nat);
        if ones_below(x, n) == 0 {
            assert forall|k: nat| k < n implies #[trigger] bit(x, k) == 0 by {
                if k < n - 1 {
                } else {
                    assert(k == n - 1);
                }
            }
        }
    }
}

/// A byte has no set bit exactly when it is zero.
pub proof fn lemma_byte_ones_zero(b: u8)
    ensures
        byte_ones(b) == 0 <==> b == 0,
{
    lemma_ones_below_zero(b as u64, 8);
    if byte_ones(b) == 0 {
        assert(bit(b as u64, 0) == 0 && bit(b as u64, 1) == 0 && bit(b as u64, 2) == 0 && bit(
            b as u64,
            3,
        ) == 0 && bit(b as u64, 4) == 0 && bit(b as u64, 5) == 0 && bit(b as u64, 6) == 0 && bit(
            b as u64,
            7,
        ) == 0);
        assert(b == 0) by (bit_vector)
            requires
                ((b as u64 >> 0u64) & 1u64) == 0 && ((b as u64 >> 1u64) & 1u64) == 0 && ((b as u64
                    >> 2u64) & 1u64) == 0 && ((b as u64 >> 3u64) & 1u64) == 0 && ((b as u64
                    >> 4u64) & 1u64) == 0 && ((b as u64 >> 5u64) & 1u64) == 0 && ((b as u64
                    >> 6u64) & 1u64) == 0 && ((b as u64 >> 7u64) & 1u64) == 0,
        ;
    }
    if b == 0 {
        assert forall|k: nat| k < 8 implies #[trigger] bit(b as u64, k) == 0 by {
            let kk = k as u64;
            assert((0u64 >> kk) & 1u64 == 0) by (bit_vector);
        }
    }
}

/// Bit by bit, `a ^ c` differs from zero no more often than `a ^ b` and `b ^ c` together.
pub proof fn lemma_byte_triangle(a: u8, b: u8, c: u8)
    ensures
        byte_ones(a ^ c) <= byte_ones(a ^ b) + byte_ones(b ^ c),
{
    assert forall|k: nat| k < 8 implies #[trigger] bit((a ^ c) as u64, k) <= bit((a ^ b) as u64, k)
        + bit((b ^ c) as u64, k) by {
        let kk = k as u64;
        assert((((a ^ c) as u64 >> kk) & 1u64) <= (((a ^ b) as u64 >> kk) & 1u64) + (((b ^ c) as u64
            >> kk) & 1u64)) by (bit_vector);
    }
    lemma_ones_below_triangle((a ^ b) as u64, (b ^ c) as u64, (a ^ c) as u64, 8);
}

/// The set bits of `a & b` are among those of `a | b`, and all of them only when `a == b`.
pub proof fn lemma_byte_and_or(a: u8, b: u8)
    ensures
        byte_ones(a & b) <= byte_ones(a | b),
        byte_ones(a & b) == byte_ones(a | b) <==> a == b,
{
    let x = (a & b) as u64;
    let y = (a | b) as u64;
    assert forall|k: nat| k < 8 implies #[trigger] bit(x, k) <= bit(y, k) by {
        let kk = k as u64;
        assert((((a & b) as u64 >> kk) & 1u64) <= (((a | b) as u64 >> kk) & 1u64)) by (bit_vector);
    }
    lemma_ones_below_subset(x, y, 8);
    if byte_ones(a & b) == byte_ones(a | b) {
        assert(bit(x, 0) == bit(y, 0) && bit(x, 1) == bit(y, 1) && bit(x, 2) == bit(y, 2) && bit(
            x,
            3,
        ) == bit(y, 3) && bit(x, 4) == bit(y, 4) && bit(x, 5) == bit(y, 5) && bit(x, 6) == bit(y, 6)
            && bit(x, 7) == bit(y, 7));
        assert(a == b) by (bit_vector)
            requires
                (((a & b) as u64 >> 0u64) & 1u64) == (((a | b) as u64 >> 0u64) & 1u64) && (((a
                    & b) as u64 >> 1u64) & 1u64) == (((a | b) as u64 >> 1u64) & 1u64) && (((a
                    & b) as u64 >> 2u64) & 1u64) == (((a | b) as u64 >> 2u64) & 1u64) && (((a
                    & b) as u64 >> 3u64) & 1u64) == (((a | b) as u64 >> 3u64) & 1u64) && (((a
                    & b) as u64 >> 4u64) & 1u64) == (((a | b) as u64 >> 4u64) & 1u64) && (((a
                    & b) as u64 >> 5u64) & 1u64) == (((a | b) as u64 >> 5u64) & 1u64) && (((a
                    & b) as u64 >> 6u64) & 1u64) == (((a | b) as u64 >> 6u64) & 1u64) && (((a
                    & b) as u64 >> 7u64) & 1u64) == (((a | b) as u64 >> 7u64) & 1u64),
        ;
    }
    if a == b {
        assert((a & b) == (a | b)) by (bit_vector)
            requires
                a == b,
        ;
    }
}

proof fn lemma_xor_zero(a: u8, b: u8)
    ensures
        a ^ b == 0 <==> a == b,
        a ^ b == b ^ a,
{
    assert((a ^ b == 0 <==> a == b) && a ^ b == b ^ a) by (bit_vector);
}

proof fn lemma_or_zero(a: u8, b: u8)
    ensures
        a | b == 0 <==> (a == 0 && b == 0),
{
    assert(a | b == 0 <==> (a == 0 && b == 0)) by (bit_vector);
}

/// Bytes `s` and `t` differ in no bit over their first `n` bytes exactly when those bytes are equal.
pub proof fn lemma_diff_prefix_zero(s: Seq<u8>, t: Seq<u8>, n: nat)
    requires
        n <= s.len(),
        n <= t.len(),
    ensures
        diff_prefix(s, t, n) == 0 <==> forall|i: int| 0 <= i < n ==> s[i] == t[i],
    decreases n,
{
    if n > 0 {
        let m = (n - 1) as nat;
        lemma_diff_prefix_zero(s, t, m);
        lemma_byte_ones_zero(s[m as int] ^ t[m as int]);
        lemma_xor_zero(s[m as int], t[m as int]);
        if diff_prefix(s, t, n) == 0 {
            assert forall|i: int| 0 <= i < n implies s[i] == t[i] by {
                if i < m {
                }
            }
        }
    }
}

pub proof fn lemma_diff_prefix_symmetric(s: Seq<u8>, t: Seq<u8>, n: nat)
    requires
        n <= s.len(),
        n <= t.len(),
    ensures
        diff_prefix(s, t, n) == diff_prefix(t, s, n),
    decreases n,
{
    if n > 0 {
        lemma_diff_prefix_symmetric(s, t, (n - 1) as nat);
        lemma_xor_zero(s[n - 1], t[n - 1]);
    }
}

pub proof fn lemma_diff_prefix_triangle(s: Seq<u8>, t: Seq<u8>, u: Seq<u8>, n: nat)
    requires
        n <= s.len(),
        n <= t.len(),
        n <= u.len(),
    ensures
        diff_prefix(s, u, n) <= diff_prefix(s, t, n) + diff_prefix(t, u, n),
    decreases n,
{
    if n > 0 {
        lemma_diff_prefix_triangle(s, t, u, (n - 1) as nat);
        lemma_byte_triangle(s[n - 1], t[n - 1], u[n - 1]);
    }
}

/// Over the first `n` bytes, the intersection never has more set bits than the union,
/// and has as many exactly when the bytes are equal.
pub proof fn lemma_and_or_prefix(s: Seq<u8>, t: Seq<u8>, n: nat)
    requires
        n <= s.len(),
        s.len() == t.len(),
    ensures
        ones_prefix(and_bytes(s, t), n) <= ones_prefix(or_bytes(s, t), n),
        ones_prefix(and_bytes(s, t), n) == ones_prefix(or_bytes(s, t), n) <==> forall|i: int|
            0 <= i < n ==> s[i] == t[i],
    decreases n,
{
    if n > 0 {
        let m = (n - 1) as nat;
        lemma_and_or_prefix(s, t, m);
        lemma_byte_and_or(s[m as int], t[m as int]);
        if ones_prefix(and_bytes(s, t), n) == ones_prefix(or_bytes(s, t), n) {
            assert forall|i: int| 0 <= i < n implies s[i] == t[i] by {
                if i < m {
                }
            }
        }
    }
}

/// The union of the first `n` bytes has no set bit exactly when both sides are all zero there.
pub proof fn lemma_or_prefix_zero(s: Seq<u8>, t: Seq<u8>, n: nat)
    requires
        n <= s.len(),
        s.len() == t.len(),
    ensures
        ones_prefix(or_bytes(s, t), n) == 0 <==> forall|i: int| 0 <= i < n ==> s[i] == 0 && t[i] == 0,
    decreases n,
{
    if n > 0 {
        let m = (n - 1) as nat;
        lemma_or_prefix_zero(s, t, m);
        lemma_byte_ones_zero(s[m as int] | t[m as int]);
        lemma_or_zero(s[m as int], t[m as int]);
        if ones_prefix(or_bytes(s, t), n) == 0 {
            assert forall|i: int| 0 <= i < n implies s[i] == 0 && t[i] == 0 by {
                if i < m {
                }
            }
        }
    }
}

/// Set bits in a sequence of words.
pub open spec fn words_ones(ws: Seq<u64>) -> nat
    decreases ws.len(),
{
    if ws.len() == 0 {
        0
    } else {
        words_ones(ws.drop_last()) + word_ones(ws.last())
    }
}

/// `ws` holds the bytes `s[0 .. 8 * ws.len()]`, eight to a word, least significant first.
pub open spec fn words_cover(ws: Seq<u64>, s: Seq<u8>) -> bool {
    &&& 8 * ws.len() <= s.len()
    &&& forall|m: int, j: nat|
        0 <= m < ws.len() && j < 8 ==> #[trigger] byte_of(ws[m], j) == s[8 * m + j]
}

proof fn lemma_prefix_split(s: Seq<u8>, m: nat, n: nat)
    requires
        m <= n <= s.len(),
    ensures
        ones_prefix(s, n) == ones_prefix(s, m) + ones_prefix(
            s.subrange(m as int, s.len() as int),
            (n - m) as nat,
        ),
    decreases n,
{
    if n > m {
        lemma_prefix_split(s, m, (n - 1) as nat);
    }
}

proof fn lemma_words_prefix(ws: Seq<u64>, s: Seq<u8>)
    requires
        words_cover(ws, s),
    ensures
        ones_prefix(s, 8 * ws.len()) == words_ones(ws),
    decreases ws.len(),
{
    if ws.len() > 0 {
        let k = (ws.len() - 1) as int;
        let init = ws.drop_last();
        assert forall|m: int, j: nat| 0 <= m < init.len() && j < 8 implies #[trigger] byte_of(
            init[m],
            j,
        ) == s[8 * m + j] by {
            assert(byte_of(ws[m], j) == s[8 * m + j]);
        }
        lemma_words_prefix(init, s);
        assert forall|j: nat| j < 8 implies #[trigger] byte_of(ws.last(), j) == s[(8 * k) as nat
            + j as int] by {
            assert(byte_of(ws[k], j) == s[8 * k + j]);
        }
        lemma_prefix_word(s, (8 * k) as nat, ws.last());
    }
}

/// Counting whole words first and then the bytes that remain gives the byte-by-byte count,
/// whatever the number of leading words: the word-at-a-time path and the
/// byte-at-a-time baseline agree on every length, multiple of eight or not.
pub proof fn lemma_word_tier_agrees(s: Seq<u8>, ws: Seq<u64>)
    requires
        words_cover(ws, s),
    ensures
        words_ones(ws) + seq_ones(s.subrange(8 * ws.len() as int, s.len() as int)) == seq_ones(s),
{
    lemma_words_prefix(ws, s);
    lemma_prefix_split(s, 8 * ws.len(), s.len());
    assert(s.subrange(8 * ws.len() as int, s.len() as int).len() == s.len() - 8 * ws.len());
}

} // verus!

//! Facts about the word-level gate functions that need the bit-vector solver.

use vstd::prelude::*;
use crate::shares::{and_word, bit, carry_bit, carry_next, with_bit, wrapping_sum};

verus! {

/// The carry into bit `i + 1` of a sum, from bit `i` of the two summands
/// and of the carry word so far.
pub open spec fn sum_carry_bit(a: u32, b: u32, k: u32, i: u32) -> u32 {
    (bit(a ^ k, i) & bit(b ^ k, i)) ^ bit(k, i)
}

/// The word whose bit `i` is what `a + b` carries into bit `i`.
pub open spec fn sum_carries(a: u32, b: u32) -> u32 {
    a ^ b ^ wrapping_sum(a, b)
}

/// The word with its bits `0 ..= n` set, for `n < 32`.
pub open spec fn low_mask(n: u32) -> u32 {
    0xffff_ffffu32 >> ((31 - n) as u32)
}

/// The three outputs of an AND gate stand for the AND of what the operands
/// stand for: the random words cancel, the nine products remain.
pub proof fn lemma_and_words_clear(
    a0: u32,
    a1: u32,
    a2: u32,
    b0: u32,
    b1: u32,
    b2: u32,
    r0: u32,
    r1: u32,
    r2: u32,
)
    by (bit_vector)
    ensures
        and_word(a0, a1, b0, b1, r0, r1) ^ and_word(a1, a2, b1, b2, r1, r2) ^ and_word(
            a2,
            a0,
            b2,
            b0,
            r2,
            r0,
        ) == (a0 ^ a1 ^ a2) & (b0 ^ b1 ^ b2),
{
}

/// Replacing one bit leaves the others, and the replaced bit is the low bit
/// of what was put there.
pub proof fn lemma_with_bit(w: u32, j: u32, b: u32, i: u32)
    by (bit_vector)
    requires
        i < 32,
        j < 32,
    ensures
        i != j ==> bit(with_bit(w, j, b), i) == bit(w, i),
        bit(with_bit(w, j, b), j) == b & 1,
{
}

/// A carry bit is 0 or 1.
pub proof fn lemma_carry_bit_is_bit(
    x0: u32,
    y0: u32,
    k0: u32,
    t0: u32,
    x1: u32,
    y1: u32,
    k1: u32,
    t1: u32,
    i: u32,
)
    by (bit_vector)
    requires
        i < 32,
    ensures
        carry_bit(x0, y0, k0, t0, x1, y1, k1, t1, i) & 1 == carry_bit(
            x0,
            y0,
            k0,
            t0,
            x1,
            y1,
            k1,
            t1,
            i,
        ),
{
}

/// A carry bit reads only bit `i` of the two carry words.
pub proof fn lemma_carry_bit_local(
    x0: u32,
    y0: u32,
    k0: u32,
    t0: u32,
    x1: u32,
    y1: u32,
    k1: u32,
    t1: u32,
    j0: u32,
    j1: u32,
    i: u32,
)
    by (bit_vector)
    requires
        i < 32,
        bit(k0, i) == bit(j0, i),
        bit(k1, i) == bit(j1, i),
    ensures
        carry_bit(x0, y0, k0, t0, x1, y1, k1, t1, i) == carry_bit(x0, y0, j0, t0, x1, y1, j1, t1, i),
{
}

/// The three parties' carry steps, taken together, are one step of a
/// ripple-carry adder on the words that the shares stand for.
pub proof fn lemma_carry_steps_clear(
    x0: u32,
    x1: u32,
    x2: u32,
    y0: u32,
    y1: u32,
    y2: u32,
    k0: u32,
    k1: u32,
    k2: u32,
    t0: u32,
    t1: u32,
    t2: u32,
    i: u32,
)
    by (bit_vector)
    requires
        i < 31,
    ensures
        carry_next(x0, y0, k0, t0, x1, y1, k1, t1, i) ^ carry_next(
            x1,
            y1,
            k1,
            t1,
            x2,
            y2,
            k2,
            t2,
            i,
        ) ^ carry_next(x2, y2, k2, t2, x0, y0, k0, t0, i) == with_bit(
            k0 ^ k1 ^ k2,
            (i + 1) as u32,
            sum_carry_bit(x0 ^ x1 ^ x2, y0 ^ y1 ^ y2, k0 ^ k1 ^ k2, i),
        ),
{
}

/// One step of a ripple-carry adder extends a correct carry word by one bit.
pub proof fn lemma_adder_step(a: u32, b: u32, k: u32, i: u32)
    by (bit_vector)
    requires
        i < 31,
        k == sum_carries(a, b) & low_mask(i),
    ensures
        with_bit(k, (i + 1) as u32, sum_carry_bit(a, b, k, i)) == sum_carries(a, b) & low_mask(
            (i + 1) as u32,
        ),
{
}

/// Nothing is carried into bit 0, and the carry word turns the XOR of two
/// words into their sum.
pub proof fn lemma_adder_ends(a: u32, b: u32)
    by (bit_vector)
    ensures
        sum_carries(a, b) & low_mask(0) == 0,
        sum_carries(a, b) & low_mask(31) == sum_carries(a, b),
        a ^ b ^ sum_carries(a, b) == wrapping_sum(a, b),
{
}

/// Shifting a word right and then left by `n` clears its low `n` bits;
/// shifting it left and then right clears its high `n` bits.
pub proof fn lemma_shift_round_trip(a: u32, n: u32)
    by (bit_vector)
    requires
        n < 32,
    ensures
        (a >> n) << n == a & (0xffff_ffffu32 << n),
        (a << n) >> n == a & (0xffff_ffffu32 >> n),
{
}

} // verus!

//! What the carry words of an ADD gate are: their bits settle one by one,
//! together they are the carries of an ordinary sum, and each of them can be
//! rebuilt or checked from what two neighbouring parties hold.

use vstd::prelude::*;
use crate::bit_lemmas::{
    lemma_adder_ends, lemma_adder_step, lemma_carry_bit_is_bit, lemma_carry_bit_local,
    lemma_carry_steps_clear, lemma_with_bit, low_mask, sum_carries,
};
use crate::shares::{
    add_carries, bit, carries, carry_bit, carry_consistent, carry_next, carry_step, clear,
    replay_carry, with_bit, wrapping_sum, xor3_shares,
};

verus! {

/// The successor of party `e`.
pub open spec fn next_party(e: int) -> int {
    (e + 1) % 3
}

/// There are always three carry words.
pub proof fn lemma_carries_len(x: Seq<u32>, y: Seq<u32>, t: Seq<u32>, n: nat)
    ensures
        carries(x, y, t, n).len() == 3,
    decreases n,
{
    if n > 0 {
        lemma_carries_len(x, y, t, (n - 1) as nat);
    }
}

/// Party `e`'s carry word after one more step, written with its successor.
pub proof fn lemma_carries_unfold(x: Seq<u32>, y: Seq<u32>, t: Seq<u32>, n: nat, e: int)
    requires
        n < 31,
        0 <= e < 3,
    ensures
        carries(x, y, t, n + 1)[e] == carry_next(
            x[e],
            y[e],
            carries(x, y, t, n)[e],
            t[e],
            x[next_party(e)],
            y[next_party(e)],
            carries(x, y, t, n)[next_party(e)],
            t[next_party(e)],
            n as u32,
        ),
{
    let k = carries(x, y, t, n);
    assert(carries(x, y, t, n + 1) == carry_step(k, x, y, t, n as u32));
}

/// The step for bit `n` writes bit `n + 1` and nothing else, so bits
/// `0 ..= n` of the carry words after `n` steps stay as they are.
pub proof fn lemma_carries_settled(
    x: Seq<u32>,
    y: Seq<u32>,
    t: Seq<u32>,
    n: nat,
    m: nat,
    e: int,
    i: u32,
)
    requires
        n <= m <= 31,
        i <= n,
        0 <= e < 3,
    ensures
        bit(carries(x, y, t, m)[e], i) == bit(carries(x, y, t, n)[e], i),
    decreases m,
{
    if m > n {
        let p = (m - 1) as nat;
        lemma_carries_settled(x, y, t, n, p, e, i);
        lemma_carries_unfold(x, y, t, p, e);
        let s = next_party(e);
        let k = carries(x, y, t, p);
        lemma_with_bit(
            k[e],
            m as u32,
            carry_bit(x[e], y[e], k[e], t[e], x[s], y[s], k[s], t[s], p as u32),
            i,
        );
    }
}

/// Nothing is carried into bit 0: bit 0 of each carry word is zero.
pub proof fn lemma_carries_bit0(x: Seq<u32>, y: Seq<u32>, t: Seq<u32>, n: nat, e: int)
    requires
        n <= 31,
        0 <= e < 3,
    ensures
        bit(carries(x, y, t, n)[e], 0) == 0,
{
    lemma_carries_settled(x, y, t, 0, n, e, 0);
    assert(bit(0u32, 0u32) == 0) by (bit_vector);
}

/// Bit `n + 1` of a settled carry word is the carry bit computed from the
/// settled words themselves.
pub proof fn lemma_carries_obey_rule(x: Seq<u32>, y: Seq<u32>, t: Seq<u32>, e: int, n: u32)
    requires
        n < 31,
        0 <= e < 3,
    ensures
        carry_bit(
            x[e],
            y[e],
            add_carries(x, y, t)[e],
            t[e],
            x[next_party(e)],
            y[next_party(e)],
            add_carries(x, y, t)[next_party(e)],
            t[next_party(e)],
            n,
        ) == bit(add_carries(x, y, t)[e], (n + 1) as u32),
{
    let s = next_party(e);
    let k = carries(x, y, t, n as nat);
    let full = add_carries(x, y, t);
    lemma_carries_unfold(x, y, t, n as nat, e);
    lemma_carries_settled(x, y, t, n as nat, 31, e, n);
    lemma_carries_settled(x, y, t, n as nat, 31, s, n);
    lemma_carries_settled(x, y, t, (n + 1) as nat, 31, e, (n + 1) as u32);
    lemma_carry_bit_local(x[e], y[e], k[e], t[e], x[s], y[s], k[s], t[s], full[e], full[s], n);
    let b = carry_bit(x[e], y[e], k[e], t[e], x[s], y[s], k[s], t[s], n);
    lemma_with_bit(k[e], (n + 1) as u32, b, n);
    lemma_carry_bit_is_bit(x[e], y[e], k[e], t[e], x[s], y[s], k[s], t[s], n);
}

/// Together the three carry words after `n` steps are bits `0 ..= n` of the
/// carries of the sum of the two words that the operands stand for.
pub proof fn lemma_carries_clear(x: Seq<u32>, y: Seq<u32>, t: Seq<u32>, n: nat)
    requires
        n <= 31,
    ensures
        clear(carries(x, y, t, n)) == sum_carries(clear(x), clear(y)) & low_mask(n as u32),
    decreases n,
{
    if n == 0 {
        lemma_adder_ends(clear(x), clear(y));
        assert(0u32 ^ 0u32 ^ 0u32 == 0u32) by (bit_vector);
    } else {
        let p = (n - 1) as nat;
        let k = carries(x, y, t, p);
        lemma_carries_clear(x, y, t, p);
        lemma_carries_len(x, y, t, p);
        lemma_carry_steps_clear(
            x[0],
            x[1],
            x[2],
            y[0],
            y[1],
            y[2],
            k[0],
            k[1],
            k[2],
            t[0],
            t[1],
            t[2],
            p as u32,
        );
        lemma_adder_step(clear(x), clear(y), clear(k), p as u32);
    }
}

/// The shares that an ADD gate puts out stand for the sum, modulo 2^32, of
/// the words that its operands stand for.
pub proof fn lemma_add_shares_clear(x: Seq<u32>, y: Seq<u32>, t: Seq<u32>)
    ensures
        clear(xor3_shares(x, y, add_carries(x, y, t))) == wrapping_sum(clear(x), clear(y)),
{
    let k = add_carries(x, y, t);
    lemma_carries_clear(x, y, t, 31);
    lemma_adder_ends(clear(x), clear(y));
    let (x0, x1, x2) = (x[0], x[1], x[2]);
    let (y0, y1, y2) = (y[0], y[1], y[2]);
    let (k0, k1, k2) = (k[0], k[1], k[2]);
    assert((x0 ^ y0 ^ k0) ^ (x1 ^ y1 ^ k1) ^ (x2 ^ y2 ^ k2) == (x0 ^ x1 ^ x2) ^ (y0 ^ y1 ^ y2) ^ (
    k0 ^ k1 ^ k2)) by (bit_vector);
}

/// A party's carry word, rebuilt step by step beside its successor's
/// finished carry word, is at each step the carry word that the party had
/// at that step of this gate.
pub proof fn lemma_replay_follows(x: Seq<u32>, y: Seq<u32>, t: Seq<u32>, e: int, n: nat)
    requires
        n <= 31,
        0 <= e < 3,
    ensures
        replay_carry(
            x[e],
            y[e],
            t[e],
            x[next_party(e)],
            y[next_party(e)],
            add_carries(x, y, t)[next_party(e)],
            t[next_party(e)],
            0,
            n,
        ) == carries(x, y, t, n)[e],
    decreases n,
{
    if n > 0 {
        let p = (n - 1) as nat;
        let s = next_party(e);
        let k = carries(x, y, t, p);
        let full = add_carries(x, y, t);
        lemma_replay_follows(x, y, t, e, p);
        lemma_carries_unfold(x, y, t, p, e);
        lemma_carries_settled(x, y, t, p, 31, s, p as u32);
        lemma_carry_bit_local(
            x[e],
            y[e],
            k[e],
            t[e],
            x[s],
            y[s],
            k[s],
            t[s],
            k[e],
            full[s],
            p as u32,
        );
    }
}

/// One step of rebuilding a carry word that passes the check keeps the
/// rebuilt word equal to the low bits of the checked one.
proof fn lemma_replay_step_pinned(
    x0: u32,
    y0: u32,
    k0: u32,
    t0: u32,
    x1: u32,
    y1: u32,
    k1: u32,
    t1: u32,
    r: u32,
    i: u32,
)
    by (bit_vector)
    requires
        i < 31,
        r == k0 & low_mask(i),
        carry_bit(x0, y0, k0, t0, x1, y1, k1, t1, i) == bit(k0, (i + 1) as u32),
    ensures
        carry_next(x0, y0, r, t0, x1, y1, k1, t1, i) == k0 & low_mask((i + 1) as u32),
{
}

/// A carry word that passes the check in its bits `1 ..= n` is, in its bits
/// `0 ..= n`, the word rebuilt from its bit 0.
pub proof fn lemma_consistent_is_replay(
    x0: u32,
    y0: u32,
    k0: u32,
    t0: u32,
    x1: u32,
    y1: u32,
    k1: u32,
    t1: u32,
    n: nat,
)
    requires
        n <= 31,
        carry_consistent(x0, y0, k0, t0, x1, y1, k1, t1, n),
    ensures
        replay_carry(x0, y0, t0, x1, y1, k1, t1, k0 & 1, n) == k0 & low_mask(n as u32),
    decreases n,
{
    if n == 0 {
        assert(k0 & 1 == k0 & low_mask(0)) by (bit_vector);
    } else {
        let p = (n - 1) as nat;
        let i = p as u32;
        assert(carry_consistent(x0, y0, k0, t0, x1, y1, k1, t1, p)) by {
            assert forall|j: u32| j < p implies #[trigger] carry_bit(
                x0,
                y0,
                k0,
                t0,
                x1,
                y1,
                k1,
                t1,
                j,
            ) == bit(k0, (j + 1) as u32) by {}
        }
        lemma_consistent_is_replay(x0, y0, k0, t0, x1, y1, k1, t1, p);
        let r = replay_carry(x0, y0, t0, x1, y1, k1, t1, k0 & 1, p);
        assert(carry_bit(x0, y0, k0, t0, x1, y1, k1, t1, i) == bit(k0, (i + 1) as u32));
        lemma_replay_step_pinned(x0, y0, k0, t0, x1, y1, k1, t1, r, i);
    }
}

} // verus!

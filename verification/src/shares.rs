//! Word-level meaning of the gates: what each party's share becomes, as a
//! function of the shares and random words that the party and its successor
//! hold. Party `i`'s successor is party `(i + 1) mod 3`.

use vstd::prelude::*;

verus! {

/// Bit `i` of `w`, as 0 or 1.
pub open spec fn bit(w: u32, i: u32) -> u32 {
    (w >> i) & 1
}

/// `w` with bit `i` replaced by the low bit of `b`.
pub open spec fn with_bit(w: u32, i: u32, b: u32) -> u32 {
    if b & 1 != 0 {
        w | (1u32 << i)
    } else {
        w & !(1u32 << i)
    }
}

/// The word that three shares stand for.
pub open spec fn clear(v: Seq<u32>) -> u32 {
    v[0] ^ v[1] ^ v[2]
}

/// Three shares that are one and the same word: a public constant.
pub open spec fn is_public(v: Seq<u32>) -> bool {
    v[0] == v[1] && v[1] == v[2]
}

/// The sum of two words modulo 2^32.
pub open spec fn wrapping_sum(a: u32, b: u32) -> u32 {
    ((a + b) % 0x1_0000_0000) as u32
}

pub open spec fn not_shares(v: Seq<u32>) -> Seq<u32> {
    seq![!v[0], !v[1], !v[2]]
}

pub open spec fn xor_shares(v: Seq<u32>, r: Seq<u32>) -> Seq<u32> {
    seq![v[0] ^ r[0], v[1] ^ r[1], v[2] ^ r[2]]
}

pub open spec fn xor3_shares(v: Seq<u32>, r: Seq<u32>, k: Seq<u32>) -> Seq<u32> {
    seq![v[0] ^ r[0] ^ k[0], v[1] ^ r[1] ^ k[1], v[2] ^ r[2] ^ k[2]]
}

pub open spec fn shl_shares(v: Seq<u32>, n: u32) -> Seq<u32> {
    seq![v[0] << n, v[1] << n, v[2] << n]
}

pub open spec fn shr_shares(v: Seq<u32>, n: u32) -> Seq<u32> {
    seq![v[0] >> n, v[1] >> n, v[2] >> n]
}

/// Share-wise AND, the plain operation on public constants.
pub open spec fn and_plain(v: Seq<u32>, r: Seq<u32>) -> Seq<u32> {
    seq![v[0] & r[0], v[1] & r[1], v[2] & r[2]]
}

/// Share-wise sum modulo 2^32, the plain operation on public constants.
pub open spec fn add_plain(v: Seq<u32>, r: Seq<u32>) -> Seq<u32> {
    seq![wrapping_sum(v[0], r[0]), wrapping_sum(v[1], r[1]), wrapping_sum(v[2], r[2])]
}

/// One party's output of an AND gate. `a0`, `b0`, `r0` are the party's own
/// shares of the operands and its random word, `a1`, `b1`, `r1` those of its
/// successor.
pub open spec fn and_word(a0: u32, a1: u32, b0: u32, b1: u32, r0: u32, r1: u32) -> u32 {
    (a0 & b1) ^ (a1 & b0) ^ (a0 & b0) ^ r0 ^ r1
}

/// The three parties' outputs of an AND gate on shares `a` and `b` with
/// random words `r`.
pub open spec fn and_shares(a: Seq<u32>, b: Seq<u32>, r: Seq<u32>) -> Seq<u32> {
    seq![
        and_word(a[0], a[1], b[0], b[1], r[0], r[1]),
        and_word(a[1], a[2], b[1], b[2], r[1], r[2]),
        and_word(a[2], a[0], b[2], b[0], r[2], r[0]),
    ]
}

/// Bit `i + 1` of one party's carry word in an ADD gate, from bit `i` of
/// everything it depends on: the party's operand shares `x0`, `y0`, its carry
/// word so far `k0` and its random word `t0`, and the same four of its
/// successor.
pub open spec fn carry_bit(
    x0: u32,
    y0: u32,
    k0: u32,
    t0: u32,
    x1: u32,
    y1: u32,
    k1: u32,
    t1: u32,
    i: u32,
) -> u32 {
    let a0 = bit(x0 ^ k0, i);
    let b0 = bit(y0 ^ k0, i);
    let a1 = bit(x1 ^ k1, i);
    let b1 = bit(y1 ^ k1, i);
    (a0 & b1) ^ (a1 & b0) ^ bit(t1, i) ^ (a0 & b0) ^ bit(k0, i) ^ bit(t0, i)
}

/// One party's carry word after the step for bit `i`.
pub open spec fn carry_next(
    x0: u32,
    y0: u32,
    k0: u32,
    t0: u32,
    x1: u32,
    y1: u32,
    k1: u32,
    t1: u32,
    i: u32,
) -> u32 {
    with_bit(k0, (i + 1) as u32, carry_bit(x0, y0, k0, t0, x1, y1, k1, t1, i))
}

/// The three carry words after the step for bit `i`, from the three before it.
pub open spec fn carry_step(k: Seq<u32>, x: Seq<u32>, y: Seq<u32>, t: Seq<u32>, i: u32) -> Seq<
    u32,
> {
    seq![
        carry_next(x[0], y[0], k[0], t[0], x[1], y[1], k[1], t[1], i),
        carry_next(x[1], y[1], k[1], t[1], x[2], y[2], k[2], t[2], i),
        carry_next(x[2], y[2], k[2], t[2], x[0], y[0], k[0], t[0], i),
    ]
}

/// The three carry words after the steps for bits `0 .. n`. They start at
/// zero: nothing is carried into bit 0.
pub open spec fn carries(x: Seq<u32>, y: Seq<u32>, t: Seq<u32>, n: nat) -> Seq<u32>
    decreases n,
{
    if n == 0 {
        seq![0u32, 0u32, 0u32]
    } else {
        carry_step(carries(x, y, t, (n - 1) as nat), x, y, t, (n - 1) as u32)
    }
}

/// The carry words of an ADD gate on shares `x` and `y` with random words `t`.
pub open spec fn add_carries(x: Seq<u32>, y: Seq<u32>, t: Seq<u32>) -> Seq<u32> {
    carries(x, y, t, 31)
}

/// One party's carry word after the steps for bits `0 .. n`, when its
/// successor's carry word `k1` is known in full and its own starts as `start`.
pub open spec fn replay_carry(
    x0: u32,
    y0: u32,
    t0: u32,
    x1: u32,
    y1: u32,
    k1: u32,
    t1: u32,
    start: u32,
    n: nat,
) -> u32
    decreases n,
{
    if n == 0 {
        start
    } else {
        let k0 = replay_carry(x0, y0, t0, x1, y1, k1, t1, start, (n - 1) as nat);
        carry_next(x0, y0, k0, t0, x1, y1, k1, t1, (n - 1) as u32)
    }
}

/// Whether the carry word `k0` obeys the carry rule in each of its bits
/// `1 ..= n`, given its bit 0 and its successor's carry word `k1`.
pub open spec fn carry_consistent(
    x0: u32,
    y0: u32,
    k0: u32,
    t0: u32,
    x1: u32,
    y1: u32,
    k1: u32,
    t1: u32,
    n: nat,
) -> bool {
    forall|i: u32|
        i < n ==> #[trigger] carry_bit(x0, y0, k0, t0, x1, y1, k1, t1, i) == bit(
            k0,
            (i + 1) as u32,
        )
}

/// Bit `i` of `w`.
pub fn get_bit(w: u32, i: u32) -> (b: u32)
    requires
        i < 32,
    ensures
        b == bit(w, i),
{
    (w >> i) & 1
}

/// `w` with bit `i` replaced by the low bit of `b`.
pub fn set_bit(w: u32, i: u32, b: u32) -> (r: u32)
    requires
        i < 32,
    ensures
        r == with_bit(w, i, b),
{
    if b & 1 != 0 {
        w | (1u32 << i)
    } else {
        w & !(1u32 << i)
    }
}

/// Bit `i + 1` of a party's carry word.
pub fn next_carry_bit(
    x0: u32,
    y0: u32,
    k0: u32,
    t0: u32,
    x1: u32,
    y1: u32,
    k1: u32,
    t1: u32,
    i: u32,
) -> (c: u32)
    requires
        i < 31,
    ensures
        c == carry_bit(x0, y0, k0, t0, x1, y1, k1, t1, i),
{
    let a0 = get_bit(x0 ^ k0, i);
    let b0 = get_bit(y0 ^ k0, i);
    let a1 = get_bit(x1 ^ k1, i);
    let b1 = get_bit(y1 ^ k1, i);
    (a0 & b1) ^ (a1 & b0) ^ get_bit(t1, i) ^ (a0 & b0) ^ get_bit(k0, i) ^ get_bit(t0, i)
}

/// The output of an AND gate for one party.
pub fn and_output(a0: u32, a1: u32, b0: u32, b1: u32, r0: u32, r1: u32) -> (w: u32)
    ensures
        w == and_word(a0, a1, b0, b1, r0, r1),
{
    (a0 & b1) ^ (a1 & b0) ^ (a0 & b0) ^ r0 ^ r1
}

/// The three carry words of an ADD gate.
pub fn add_carry_words(
    x0: u32,
    x1: u32,
    x2: u32,
    y0: u32,
    y1: u32,
    y2: u32,
    t0: u32,
    t1: u32,
    t2: u32,
) -> (k: (u32, u32, u32))
    ensures
        seq![k.0, k.1, k.2] == add_carries(seq![x0, x1, x2], seq![y0, y1, y2], seq![t0, t1, t2]),
{
    let ghost x = seq![x0, x1, x2];
    let ghost y = seq![y0, y1, y2];
    let ghost t = seq![t0, t1, t2];
    let mut k0: u32 = 0;
    let mut k1: u32 = 0;
    let mut k2: u32 = 0;
    let mut i: u32 = 0;
    while i < 31
        invariant
            i <= 31,
            x == seq![x0, x1, x2],
            y == seq![y0, y1, y2],
            t == seq![t0, t1, t2],
            seq![k0, k1, k2] == carries(x, y, t, i as nat),
        decreases 31 - i,
    {
        let ghost before = seq![k0, k1, k2];
        let n0 = set_bit(k0, i + 1, next_carry_bit(x0, y0, k0, t0, x1, y1, k1, t1, i));
        let n1 = set_bit(k1, i + 1, next_carry_bit(x1, y1, k1, t1, x2, y2, k2, t2, i));
        let n2 = set_bit(k2, i + 1, next_carry_bit(x2, y2, k2, t2, x0, y0, k0, t0, i));
        k0 = n0;
        k1 = n1;
        k2 = n2;
        i = i + 1;
        assert(seq![k0, k1, k2] =~= carry_step(before, x, y, t, (i - 1) as u32));
    }
    (k0, k1, k2)
}

/// One party's carry word of an ADD gate, rebuilt from nothing but what the
/// party and its successor hold.
pub fn replay_carry_word(x0: u32, y0: u32, t0: u32, x1: u32, y1: u32, k1: u32, t1: u32) -> (k0: u32)
    ensures
        k0 == replay_carry(x0, y0, t0, x1, y1, k1, t1, 0, 31),
{
    let mut k0: u32 = 0;
    let mut i: u32 = 0;
    while i < 31
        invariant
            i <= 31,
            k0 == replay_carry(x0, y0, t0, x1, y1, k1, t1, 0, i as nat),
        decreases 31 - i,
    {
        k0 = set_bit(k0, i + 1, next_carry_bit(x0, y0, k0, t0, x1, y1, k1, t1, i));
        i = i + 1;
    }
    k0
}

/// Whether a party's committed carry word `k0` obeys the carry rule in each
/// of its bits 1 to 31.
pub fn check_carry_word(
    x0: u32,
    y0: u32,
    k0: u32,
    t0: u32,
    x1: u32,
    y1: u32,
    k1: u32,
    t1: u32,
) -> (ok: bool)
    ensures
        ok == carry_consistent(x0, y0, k0, t0, x1, y1, k1, t1, 31),
{
    let mut i: u32 = 0;
    while i < 31
        invariant
            i <= 31,
            carry_consistent(x0, y0, k0, t0, x1, y1, k1, t1, i as nat),
        decreases 31 - i,
    {
        if next_carry_bit(x0, y0, k0, t0, x1, y1, k1, t1, i) != get_bit(k0, i + 1) {
            return false;
        }
        i = i + 1;
    }
    true
}

/// The sum of two words modulo 2^32.
pub fn add_wrapping(a: u32, b: u32) -> (s: u32)
    ensures
        s == wrapping_sum(a, b),
{
    a.wrapping_add(b)
}

} // verus!

//! What the gates mean. The gates work on shares; these laws say what they
//! do to the words that the shares stand for, how far each gate moves the
//! cursors of the contexts, and that a verifier who replays two neighbouring
//! parties from their tapes and views arrives at what the prover recorded.

use vstd::prelude::*;
use crate::bit_lemmas::{lemma_and_words_clear, lemma_shift_round_trip};
use crate::carry_lemmas::{
    lemma_add_shares_clear, lemma_carries_bit0, lemma_carries_len, lemma_carries_obey_rule,
    lemma_consistent_is_replay, lemma_replay_follows, next_party,
};
use crate::context::{contexts_wf, inherit, ContextModel};
use crate::digest::commitment;
use crate::error::IKosErrorKind;
use crate::prover_var::{after_gate, drawn_words, tape_exhausted, ProverModel};
use crate::shares::{
    add_carries, and_shares, bit, carry_bit, carry_consistent, clear, is_public, replay_carry,
    with_bit, wrapping_sum, xor3_shares,
};
use crate::verifier_var::{
    after_replay, after_simulation, all_drawn, rebuilds, replay_blocked, replay_drawn,
    replay_tape_exhausted, VerifierModel,
};

verus! {

/// The public constant `w` as a prover's word.
pub open spec fn public_word(w: u32) -> ProverModel {
    ProverModel { value: seq![w, w, w], ctx: Seq::empty() }
}

/// A public constant stands for the word that each of its shares is.
pub proof fn law_public_clear(w: u32)
    ensures
        public_word(w).clear() == w,
        is_public(public_word(w).value),
        public_word(w).wf(),
{
    assert(w ^ w ^ w == w) by (bit_vector);
}

/// NOT on the shares is NOT on the word they stand for.
pub proof fn law_negate_clear(x: ProverModel)
    requires
        x.wf(),
    ensures
        x.negated().clear() == !x.clear(),
{
    let (a, b, c) = (x.value[0], x.value[1], x.value[2]);
    assert(!a ^ !b ^ !c == !(a ^ b ^ c)) by (bit_vector);
}

/// XOR on the shares is XOR on the words they stand for.
pub proof fn law_xor_clear(x: ProverModel, y: ProverModel)
    requires
        x.wf(),
        y.wf(),
    ensures
        x.xored(y).clear() == x.clear() ^ y.clear(),
{
    let (a, b, c) = (x.value[0], x.value[1], x.value[2]);
    let (d, e, f) = (y.value[0], y.value[1], y.value[2]);
    assert((a ^ d) ^ (b ^ e) ^ (c ^ f) == (a ^ b ^ c) ^ (d ^ e ^ f)) by (bit_vector);
}

/// A shift of the shares is the same shift of the word they stand for.
pub proof fn law_shift_clear(x: ProverModel, n: u32)
    requires
        x.wf(),
        n < 32,
    ensures
        x.shifted_left(n).clear() == x.clear() << n,
        x.shifted_right(n).clear() == x.clear() >> n,
{
    let (a, b, c) = (x.value[0], x.value[1], x.value[2]);
    assert((a << n) ^ (b << n) ^ (c << n) == (a ^ b ^ c) << n) by (bit_vector);
    assert((a >> n) ^ (b >> n) ^ (c >> n) == (a ^ b ^ c) >> n) by (bit_vector);
}

/// The AND gate puts out shares of the AND of the two words, whenever the
/// operands are shared among the parties or are both public constants.
pub proof fn law_and_clear(x: ProverModel, y: ProverModel)
    requires
        x.wf(),
        y.wf(),
        x.is_bound() || y.is_bound() || (is_public(x.value) && is_public(y.value)),
    ensures
        x.anded(y) matches Ok(r) ==> r.clear() == x.clear() & y.clear(),
{
    let (a0, a1, a2) = (x.value[0], x.value[1], x.value[2]);
    let (b0, b1, b2) = (y.value[0], y.value[1], y.value[2]);
    if x.is_bound() || y.is_bound() {
        let r = drawn_words(inherit(x.ctx, y.ctx));
        lemma_and_words_clear(a0, a1, a2, b0, b1, b2, r[0], r[1], r[2]);
    } else {
        assert((a0 & b0) ^ (a0 & b0) ^ (a0 & b0) == (a0 ^ a0 ^ a0) & (b0 ^ b0 ^ b0))
            by (bit_vector);
    }
}

/// The OR gate puts out shares of the OR of the two words, whenever the
/// operands are shared among the parties or are both public constants.
pub proof fn law_or_clear(x: ProverModel, y: ProverModel)
    requires
        x.wf(),
        y.wf(),
        x.is_bound() || y.is_bound() || (is_public(x.value) && is_public(y.value)),
    ensures
        x.ored(y) matches Ok(r) ==> r.clear() == x.clear() | y.clear(),
{
    if let Ok(both) = x.anded(y) {
        law_and_clear(x, y);
        let (a0, a1, a2) = (x.value[0], x.value[1], x.value[2]);
        let (b0, b1, b2) = (y.value[0], y.value[1], y.value[2]);
        let (c0, c1, c2) = (both.value[0], both.value[1], both.value[2]);
        assert(c0 ^ c1 ^ c2 == (a0 ^ a1 ^ a2) & (b0 ^ b1 ^ b2) ==> (a0 ^ b0 ^ c0) ^ (a1 ^ b1 ^ c1)
            ^ (a2 ^ b2 ^ c2) == (a0 ^ a1 ^ a2) | (b0 ^ b1 ^ b2)) by (bit_vector);
    }
}

/// The ADD gate puts out shares of the sum of the two words modulo 2^32,
/// whenever the operands are shared among the parties or are both public
/// constants.
pub proof fn law_add_clear(x: ProverModel, y: ProverModel)
    requires
        x.wf(),
        y.wf(),
        x.is_bound() || y.is_bound() || (is_public(x.value) && is_public(y.value)),
    ensures
        x.added(y) matches Ok(r) ==> r.clear() == wrapping_sum(x.clear(), y.clear()),
{
    if x.is_bound() || y.is_bound() {
        lemma_add_shares_clear(x.value, y.value, drawn_words(inherit(x.ctx, y.ctx)));
    } else {
        let a = x.value[0];
        let b = y.value[0];
        let s = wrapping_sum(a, b);
        assert(s ^ s ^ s == s) by (bit_vector);
        assert(a ^ a ^ a == a) by (bit_vector);
        assert(b ^ b ^ b == b) by (bit_vector);
    }
}

/// The linear gates leave every context as it is: they draw no randomness
/// and record nothing.
pub proof fn law_linear_gates_free(x: ProverModel, y: ProverModel, n: u32)
    ensures
        x.negated().ctx == x.ctx,
        x.shifted_left(n).ctx == x.ctx,
        x.shifted_right(n).ctx == x.ctx,
        x.xored(y).ctx == inherit(x.ctx, y.ctx),
{
}

/// What one non-linear gate of the prover does to a party's context: one
/// random word drawn, one output recorded, nothing else touched.
pub open spec fn one_gate_later(before: ContextModel, after: ContextModel) -> bool {
    &&& after.wf()
    &&& after.used_rand_ctr == before.used_rand_ctr + 1
    &&& after.view.out_data32.len() == before.view.out_data32.len() + 1
    &&& after.view.out_data32.drop_last() == before.view.out_data32
    &&& after.view.rand_tape_seed == before.view.rand_tape_seed
    &&& after.view.in_data == before.view.in_data
    &&& after.randomness == before.randomness
    &&& after.out_view_ctr32 == before.out_view_ctr32
    &&& after.is_verify_mode == before.is_verify_mode
}

/// Each non-linear gate of the prover on shared operands that succeeds
/// draws exactly one random word from each party's tape and records exactly
/// one output in each party's view; and it succeeds unless a tape has run
/// out.
pub proof fn law_prover_gate_counts(x: ProverModel, y: ProverModel)
    requires
        x.wf(),
        y.wf(),
        x.is_bound() || y.is_bound(),
    ensures
        x.anded(y) is Err <==> tape_exhausted(inherit(x.ctx, y.ctx)),
        x.ored(y) is Err <==> tape_exhausted(inherit(x.ctx, y.ctx)),
        x.added(y) is Err <==> tape_exhausted(inherit(x.ctx, y.ctx)),
        x.anded(y) matches Err(kind) ==> kind == IKosErrorKind::RandomnessExhausted,
        x.ored(y) matches Err(kind) ==> kind == IKosErrorKind::RandomnessExhausted,
        x.added(y) matches Err(kind) ==> kind == IKosErrorKind::RandomnessExhausted,
        x.anded(y) matches Ok(r) ==> r.wf() && forall|i: int|
            0 <= i < 3 ==> one_gate_later(inherit(x.ctx, y.ctx)[i], #[trigger] r.ctx[i]),
        x.ored(y) matches Ok(r) ==> r.wf() && forall|i: int|
            0 <= i < 3 ==> one_gate_later(inherit(x.ctx, y.ctx)[i], #[trigger] r.ctx[i]),
        x.added(y) matches Ok(r) ==> r.wf() && forall|i: int|
            0 <= i < 3 ==> one_gate_later(inherit(x.ctx, y.ctx)[i], #[trigger] r.ctx[i]),
{
    let c = inherit(x.ctx, y.ctx);
    if !tape_exhausted(c) {
        let out = and_shares(x.value, y.value, drawn_words(c));
        let k = add_carries(x.value, y.value, drawn_words(c));
        lemma_carries_len(x.value, y.value, drawn_words(c), 31);
        lemma_after_gate(c, out);
        lemma_after_gate(c, k);
    }
}

proof fn lemma_after_gate(c: Seq<ContextModel>, out: Seq<u32>)
    requires
        contexts_wf(c),
        c.len() == 3,
        !tape_exhausted(c),
    ensures
        contexts_wf(after_gate(c, out)),
        forall|i: int| 0 <= i < 3 ==> one_gate_later(c[i], #[trigger] after_gate(c, out)[i]),
{
    assert forall|i: int| 0 <= i < 3 implies one_gate_later(
        c[i],
        #[trigger] after_gate(c, out)[i],
    ) by {
        assert(c[i].wf());
        assert(c[i].drawn().recorded(out[i]).view.out_data32.drop_last()
            =~= c[i].view.out_data32);
    }
}

/// On two public constants the AND, OR and ADD gates are the plain machine
/// operations on each share, never fail, and touch no tape and no view.
pub proof fn law_public_gates_plain(x: ProverModel, y: ProverModel)
    requires
        x.wf(),
        y.wf(),
        !x.is_bound(),
        !y.is_bound(),
    ensures
        x.anded(y) matches Ok(r) && !r.is_bound() && forall|i: int|
            0 <= i < 3 ==> #[trigger] r.value[i] == x.value[i] & y.value[i],
        x.ored(y) matches Ok(r) && !r.is_bound() && forall|i: int|
            0 <= i < 3 ==> #[trigger] r.value[i] == x.value[i] | y.value[i],
        x.added(y) matches Ok(r) && !r.is_bound() && forall|i: int|
            0 <= i < 3 ==> #[trigger] r.value[i] == wrapping_sum(x.value[i], y.value[i]),
{
    let r = x.ored(y)->Ok_0;
    assert forall|i: int| 0 <= i < 3 implies #[trigger] r.value[i] == x.value[i] | y.value[i] by {
        let a = x.value[i];
        let b = y.value[i];
        assert(a ^ b ^ (a & b) == a | b) by (bit_vector);
    }
}

/// NOT twice gives the word back, share for share.
pub proof fn law_negate_involution(x: ProverModel)
    requires
        x.wf(),
    ensures
        x.negated().negated() == x,
{
    let (a, b, c) = (x.value[0], x.value[1], x.value[2]);
    assert(!!a == a && !!b == b && !!c == c) by (bit_vector);
    assert(x.negated().negated().value =~= x.value);
}

/// NOT twice gives the verifier's word back, share for share.
pub proof fn law_verifier_negate_involution(x: VerifierModel)
    requires
        x.wf(),
    ensures
        x.negated().negated() == x,
{
    let (a, b, c) = (x.value[0], x.value[1], x.value[2]);
    assert(!!a == a && !!b == b && !!c == c) by (bit_vector);
    assert(x.negated().negated().value =~= x.value);
}

/// The linear gates of the verifier do to each share what those of the
/// prover do: XOR of a word with itself has all shares zero, shifting right
/// and then left by `n` clears the low `n` bits of each share, shifting
/// left and then right clears the high `n` bits, and none of them touches a
/// context or the words of the simulation.
pub proof fn law_verifier_linear_gates(x: VerifierModel, n: u32)
    requires
        x.wf(),
        n < 32,
    ensures
        x.xored(x).value == seq![0u32, 0u32, 0u32],
        forall|i: int|
            0 <= i < 3 ==> #[trigger] x.shifted_right(n).shifted_left(n).value[i] == x.value[i] & (
            0xffff_ffffu32 << n),
        forall|i: int|
            0 <= i < 3 ==> #[trigger] x.shifted_left(n).shifted_right(n).value[i] == x.value[i] & (
            0xffff_ffffu32 >> n),
        x.xored(x).ctx == x.ctx,
        x.negated().ctx == x.ctx,
        x.shifted_left(n).ctx == x.ctx,
        x.shifted_right(n).ctx == x.ctx,
        x.xored(x).inst_ctr == x.inst_ctr && x.xored(x).inst_random == x.inst_random,
{
    let (a, b, c) = (x.value[0], x.value[1], x.value[2]);
    assert(a ^ a == 0 && b ^ b == 0 && c ^ c == 0) by (bit_vector);
    assert(x.xored(x).value =~= seq![0u32, 0u32, 0u32]);
    lemma_shift_round_trip(a, n);
    lemma_shift_round_trip(b, n);
    lemma_shift_round_trip(c, n);
}

/// XOR of a word with itself has all shares zero, and so stands for zero.
pub proof fn law_xor_self_cancels(x: ProverModel)
    requires
        x.wf(),
    ensures
        x.xored(x).value == seq![0u32, 0u32, 0u32],
        x.xored(x).clear() == 0,
{
    let (a, b, c) = (x.value[0], x.value[1], x.value[2]);
    assert(a ^ a == 0 && b ^ b == 0 && c ^ c == 0 && 0u32 ^ 0u32 ^ 0u32 == 0) by (bit_vector);
    assert(x.xored(x).value =~= seq![0u32, 0u32, 0u32]);
}

/// Shifting right and then left by `n` clears the low `n` bits of each
/// share and of the word; shifting left and then right clears the high `n`
/// bits.
pub proof fn law_shift_round_trip(x: ProverModel, n: u32)
    requires
        x.wf(),
        n < 32,
    ensures
        forall|i: int|
            0 <= i < 3 ==> #[trigger] x.shifted_right(n).shifted_left(n).value[i] == x.value[i] & (
            0xffff_ffffu32 << n),
        forall|i: int|
            0 <= i < 3 ==> #[trigger] x.shifted_left(n).shifted_right(n).value[i] == x.value[i] & (
            0xffff_ffffu32 >> n),
        x.shifted_right(n).shifted_left(n).clear() == x.clear() & (0xffff_ffffu32 << n),
        x.shifted_left(n).shifted_right(n).clear() == x.clear() & (0xffff_ffffu32 >> n),
        x.shifted_right(n).shifted_left(n).ctx == x.ctx,
        x.shifted_left(n).shifted_right(n).ctx == x.ctx,
{
    let (a, b, c) = (x.value[0], x.value[1], x.value[2]);
    lemma_shift_round_trip(a, n);
    lemma_shift_round_trip(b, n);
    lemma_shift_round_trip(c, n);
    let m = 0xffff_ffffu32 << n;
    let h = 0xffff_ffffu32 >> n;
    assert((a & m) ^ (b & m) ^ (c & m) == (a ^ b ^ c) & m) by (bit_vector);
    assert((a & h) ^ (b & h) ^ (c & h) == (a ^ b ^ c) & h) by (bit_vector);
}

/// XOR with the public constant zero changes nothing at all.
pub proof fn law_xor_public_zero(x: ProverModel)
    requires
        x.wf(),
    ensures
        x.xored(public_word(0)) == x,
{
    let (a, b, c) = (x.value[0], x.value[1], x.value[2]);
    assert(a ^ 0 == a && b ^ 0 == b && c ^ 0 == c) by (bit_vector);
    assert(x.xored(public_word(0)).value =~= x.value);
    assert(x.xored(public_word(0)).ctx =~= x.ctx);
}

/// AND with the public constant of all ones, OR with the public constant
/// zero and ADD of the public constant zero each leave the word that the
/// shares stand for as it is.
pub proof fn law_neutral_constants(x: ProverModel)
    requires
        x.wf(),
    ensures
        x.anded(public_word(0xffff_ffff)) matches Ok(r) ==> r.clear() == x.clear(),
        x.ored(public_word(0)) matches Ok(r) ==> r.clear() == x.clear(),
        x.added(public_word(0)) matches Ok(r) ==> r.clear() == x.clear(),
{
    let ones = public_word(0xffff_ffff);
    let zero = public_word(0);
    law_public_clear(0xffff_ffff);
    law_public_clear(0);
    let w = x.clear();
    assert(w & 0xffff_ffff == w && w | 0 == w) by (bit_vector);
    assert(wrapping_sum(w, 0) == w);
    if x.is_bound() {
        law_and_clear(x, ones);
        law_or_clear(x, zero);
        law_add_clear(x, zero);
    } else {
        law_public_gates_plain(x, ones);
        law_public_gates_plain(x, zero);
        let (a, b, c) = (x.value[0], x.value[1], x.value[2]);
        assert(a & 0xffff_ffff == a && b & 0xffff_ffff == b && c & 0xffff_ffff == c) by (bit_vector);
        assert(a | 0 == a && b | 0 == b && c | 0 == c) by (bit_vector);
        assert(wrapping_sum(a, 0) == a && wrapping_sum(b, 0) == b && wrapping_sum(c, 0) == c);
        let r1 = x.anded(ones)->Ok_0;
        let r2 = x.ored(zero)->Ok_0;
        let r3 = x.added(zero)->Ok_0;
        assert(r1.value[0] == a && r1.value[1] == b && r1.value[2] == c);
        assert(r2.value[0] == a && r2.value[1] == b && r2.value[2] == c);
        assert(r3.value[0] == a && r3.value[1] == b && r3.value[2] == c);
    }
}

/// Every carry word that the prover's ADD gate records has bit 0 zero.
pub proof fn law_prover_carry_in_zero(x: ProverModel, y: ProverModel)
    requires
        x.wf(),
        y.wf(),
        x.is_bound() || y.is_bound(),
    ensures
        x.added(y) matches Ok(r) ==> forall|i: int|
            0 <= i < 3 ==> bit((#[trigger] r.ctx[i]).view.out_data32.last(), 0) == 0,
{
    let c = inherit(x.ctx, y.ctx);
    let t = drawn_words(c);
    if let Ok(r) = x.added(y) {
        assert forall|i: int| 0 <= i < 3 implies bit(
            (#[trigger] r.ctx[i]).view.out_data32.last(),
            0,
        ) == 0 by {
            lemma_carries_bit0(x.value, y.value, t, 31, i);
        }
    }
}

/// Every carry word that the verifier's ADD gate records has bit 0 zero:
/// the one it rebuilds in verify mode, and all three in simulation.
pub proof fn law_verifier_carry_in_zero(x: VerifierModel, y: VerifierModel)
    requires
        x.wf(),
        y.wf(),
        x.is_bound() || y.is_bound(),
    ensures
        x.added(y) matches Ok(r) ==> {
            let c = inherit(x.ctx, y.ctx);
            &&& c[0].is_verify_mode && rebuilds(c) ==> bit(r.ctx[0].view.out_data32.last(), 0)
                == 0
            &&& !c[0].is_verify_mode ==> forall|i: int|
                0 <= i < 3 ==> bit((#[trigger] r.ctx[i]).view.out_data32.last(), 0) == 0
        },
{
    let c = inherit(x.ctx, y.ctx);
    if let Ok(r) = x.added(y) {
        if c[0].is_verify_mode {
            if rebuilds(c) {
                let k1 = all_drawn(c)[1].replay_word();
                lemma_rebuilt_bit0(x, y, c, k1);
            }
        } else {
            let k1 = with_bit(x.sim_word(), 0, 0);
            lemma_rebuilt_bit0(x, y, c, k1);
            let w = x.sim_word();
            assert(bit(with_bit(w, 0, 0), 0) == 0) by (bit_vector);
            assert(bit(0u32, 0) == 0) by (bit_vector);
            assert forall|i: int| 0 <= i < 3 implies bit(
                (#[trigger] r.ctx[i]).view.out_data32.last(),
                0,
            ) == 0 by {}
        }
    }
}

proof fn lemma_rebuilt_bit0(x: VerifierModel, y: VerifierModel, c: Seq<ContextModel>, k1: u32)
    ensures
        bit(x.rebuilt_carry(y, c, k1), 0) == 0,
{
    lemma_replay_bit0(
        x.value[0],
        y.value[0],
        c[0].next_word(),
        x.value[1],
        y.value[1],
        k1,
        c[1].next_word(),
        31,
    );
}

proof fn lemma_replay_bit0(
    x0: u32,
    y0: u32,
    t0: u32,
    x1: u32,
    y1: u32,
    k1: u32,
    t1: u32,
    n: nat,
)
    requires
        n <= 31,
    ensures
        bit(replay_carry(x0, y0, t0, x1, y1, k1, t1, 0, n), 0) == 0,
    decreases n,
{
    if n == 0 {
        assert(bit(0u32, 0) == 0) by (bit_vector);
    } else {
        let p = (n - 1) as nat;
        lemma_replay_bit0(x0, y0, t0, x1, y1, k1, t1, p);
        let k0 = replay_carry(x0, y0, t0, x1, y1, k1, t1, 0, p);
        crate::bit_lemmas::lemma_with_bit(
            k0,
            n as u32,
            carry_bit(x0, y0, k0, t0, x1, y1, k1, t1, p as u32),
            0,
        );
    }
}

/// The commitment depends on nothing but the seed and the recorded outputs
/// of a view: contexts that agree in these two have the same commitment.
pub proof fn law_commitment_pure(a: ContextModel, b: ContextModel)
    requires
        a.view.rand_tape_seed == b.view.rand_tape_seed,
        a.view.out_data32 == b.view.out_data32,
    ensures
        commitment(a.view.rand_tape_seed, a.view.out_data32) == commitment(
            b.view.rand_tape_seed,
            b.view.out_data32,
        ),
{
}

/// What one non-linear gate of the verifier in verify mode does to the
/// contexts `c`, giving `r`: each party has drawn one random word, every
/// replay cursor has moved on by one, and no view has changed but party
/// 0's, which has grown by one output when this gate rebuilt it.
pub open spec fn one_replay_later(c: Seq<ContextModel>, r: Seq<ContextModel>) -> bool {
    &&& contexts_wf(r) && r.len() == 3
    &&& forall|i: int|
        0 <= i < 3 ==> (#[trigger] r[i]).used_rand_ctr == c[i].used_rand_ctr + 1
            && r[i].out_view_ctr32 == c[i].out_view_ctr32 + 1 && r[i].randomness
            == c[i].randomness && r[i].is_verify_mode == c[i].is_verify_mode
    &&& r[1].view == c[1].view
    &&& r[2].view == c[2].view
    &&& if rebuilds(c) {
        r[0].view == c[0].view.recorded(r[0].view.out_data32.last())
    } else {
        r[0].view == c[0].view
    }
    &&& r[1].replay_in_range()
    &&& c[0].replay_in_range() ==> r[0].replay_in_range()
}

/// What one non-linear gate of the verifier in simulation mode does to the
/// contexts `c`, giving `r`: parties 0 and 1 have drawn one random word
/// each, each party has recorded one output, and no replay cursor has moved.
pub open spec fn one_simulation_later(c: Seq<ContextModel>, r: Seq<ContextModel>) -> bool {
    &&& contexts_wf(r) && r.len() == 3
    &&& r[0].used_rand_ctr == c[0].used_rand_ctr + 1
    &&& r[1].used_rand_ctr == c[1].used_rand_ctr + 1
    &&& r[2].used_rand_ctr == c[2].used_rand_ctr
    &&& forall|i: int|
        0 <= i < 3 ==> (#[trigger] r[i]).out_view_ctr32 == c[i].out_view_ctr32 && r[i].randomness
            == c[i].randomness && r[i].is_verify_mode == c[i].is_verify_mode
            && r[i].view.out_data32.len() == c[i].view.out_data32.len() + 1
            && r[i].view.out_data32.drop_last() == c[i].view.out_data32
}

/// How far a non-linear gate of the verifier on shared operands moves the
/// cursors, and which error it gives: `RandomnessExhausted` when the tape
/// of party 0 or 1 has run out, when in verify mode the tape of party 2
/// has, or when simulation has no word left to hand out; this gate's own
/// mismatch error in every other failure.
pub proof fn law_verifier_gate_counts(x: VerifierModel, y: VerifierModel)
    requires
        x.wf(),
        y.wf(),
        x.is_bound() || y.is_bound(),
    ensures
        ({
            let c = inherit(x.ctx, y.ctx);
            let starved = replay_tape_exhausted(c) || if c[0].is_verify_mode {
                c[2].exhausted()
            } else {
                !x.sim_ready()
            };
            &&& x.anded(y) matches Ok(r) ==> r.wf() && if c[0].is_verify_mode {
                one_replay_later(c, r.ctx) && r.inst_ctr == x.inst_ctr
            } else {
                one_simulation_later(c, r.ctx) && r.inst_ctr == x.inst_ctr + 1
            }
            &&& x.ored(y) matches Ok(r) ==> r.wf() && if c[0].is_verify_mode {
                one_replay_later(c, r.ctx) && r.inst_ctr == x.inst_ctr
            } else {
                one_simulation_later(c, r.ctx) && r.inst_ctr == x.inst_ctr + 1
            }
            &&& x.added(y) matches Ok(r) ==> r.wf() && if c[0].is_verify_mode {
                one_replay_later(c, r.ctx) && r.inst_ctr == x.inst_ctr
            } else {
                one_simulation_later(c, r.ctx) && r.inst_ctr == x.inst_ctr + 1
            }
            &&& x.anded(y) matches Err(kind) ==> kind == (if starved {
                IKosErrorKind::RandomnessExhausted
            } else {
                IKosErrorKind::AndCheckMismatch
            })
            &&& x.ored(y) matches Err(kind) ==> kind == (if starved {
                IKosErrorKind::RandomnessExhausted
            } else {
                IKosErrorKind::AndCheckMismatch
            })
            &&& x.added(y) matches Err(kind) ==> kind == (if starved {
                IKosErrorKind::RandomnessExhausted
            } else {
                IKosErrorKind::AddCheckMismatch
            })
            &&& starved ==> x.anded(y) is Err && x.ored(y) is Err && x.added(y) is Err
        }),
{
    let c = inherit(x.ctx, y.ctx);
    assert(c[0].wf() && c[1].wf() && c[2].wf());
    if !replay_tape_exhausted(c) {
        let d = all_drawn(c);
        assert(rebuilds(d) == rebuilds(c));
        if c[0].is_verify_mode {
            if c[2].exhausted() {
            } else if let Ok(r) = x.anded(y) {
                lemma_replay_frame(c, x.and_output(y, c));
            }
            if let Ok(r) = x.added(y) {
                let k1 = d[1].replay_word();
                let k0 = if rebuilds(d) {
                    x.rebuilt_carry(y, c, k1)
                } else {
                    d[0].replay_word()
                };
                lemma_replay_frame(c, k0);
            }
        } else if x.sim_ready() {
            lemma_simulation_frame(c, seq![x.and_output(y, c), x.sim_word(), x.value[2]]);
            let k1 = with_bit(x.sim_word(), 0, 0);
            lemma_simulation_frame(c, seq![x.rebuilt_carry(y, c, k1), k1, 0u32]);
        }
    }
}

proof fn lemma_replay_frame(c: Seq<ContextModel>, out0: u32)
    requires
        contexts_wf(c),
        c.len() == 3,
        !tape_exhausted(c),
        c[0].is_verify_mode,
        all_drawn(c)[1].replay_ready(),
        rebuilds(c) || all_drawn(c)[0].replay_ready(),
    ensures
        one_replay_later(c, after_replay(all_drawn(c), rebuilds(c), out0)),
{
    assert(c[0].wf() && c[1].wf() && c[2].wf());
    let d = all_drawn(c);
    let r = after_replay(d, rebuilds(c), out0);
    assert(r[0].wf() && r[1].wf() && r[2].wf());
    if rebuilds(c) {
        assert(r[0].view.out_data32.last() == out0);
        assert(r[0].view =~= c[0].view.recorded(out0));
    }
}

proof fn lemma_simulation_frame(c: Seq<ContextModel>, out: Seq<u32>)
    requires
        contexts_wf(c),
        c.len() == 3,
        !replay_tape_exhausted(c),
    ensures
        one_simulation_later(c, after_simulation(replay_drawn(c), out)),
{
    assert(c[0].wf() && c[1].wf() && c[2].wf());
    let r = after_simulation(replay_drawn(c), out);
    assert(r[0].wf() && r[1].wf() && r[2].wf());
    assert forall|i: int| 0 <= i < 3 implies (#[trigger] r[i]).view.out_data32.drop_last()
        == c[i].view.out_data32 by {
        assert(r[i].view.out_data32.drop_last() =~= c[i].view.out_data32);
    }
}

/// The verifier's operand `v` holds, as its shares 0 and 1, the shares
/// that parties `e` and `e + 1` hold of the prover's operand `p`.
pub open spec fn mirrors(v: VerifierModel, p: ProverModel, e: int) -> bool {
    v.value[0] == p.value[e] && v.value[1] == p.value[next_party(e)]
}

/// Two contexts are about to draw the same random word.
pub open spec fn same_tape_word(v: ContextModel, p: ContextModel) -> bool {
    !v.exhausted() && !p.exhausted() && v.next_word() == p.next_word()
}

/// The verifier, with operands `vx` and `vy` in verify mode, stands before
/// a gate that the prover ran on `x` and `y`, replaying parties `e` and
/// `e + 1` as its parties 0 and 1: with their shares and with their tapes.
/// Its party 2 has a word left to draw, and no replay cursor stands at the
/// largest value it can hold.
pub open spec fn replays_party(
    vx: VerifierModel,
    vy: VerifierModel,
    x: ProverModel,
    y: ProverModel,
    e: int,
) -> bool {
    let c = inherit(x.ctx, y.ctx);
    let vc = inherit(vx.ctx, vy.ctx);
    &&& vx.wf() && vy.wf() && x.wf() && y.wf()
    &&& 0 <= e < 3
    &&& (x.is_bound() || y.is_bound()) && (vx.is_bound() || vy.is_bound())
    &&& mirrors(vx, x, e) && mirrors(vy, y, e)
    &&& same_tape_word(vc[0], c[e]) && same_tape_word(vc[1], c[next_party(e)])
    &&& !vc[2].exhausted()
    &&& vc[0].is_verify_mode
    &&& !replay_blocked(vc)
}

/// The output that party `i` recorded in the last gate of `p`.
pub open spec fn recorded_by(p: ProverModel, i: int) -> u32 {
    p.ctx[i].view.out_data32.last()
}

/// Replay of an AND gate. Let the verifier replay parties `e` and `e + 1`
/// of a gate that gave the prover `p`, and let party `e + 1`'s view hold at
/// the cursor what that party recorded. If this gate rebuilds, it succeeds
/// and appends to party 0's view exactly what party `e` recorded. If it
/// checks, it succeeds exactly when party 0's view holds at the cursor what
/// party `e` recorded, and fails with the AND mismatch otherwise. Where it
/// succeeds, its shares 0 and 1 are the prover's shares of parties `e` and
/// `e + 1`.
pub proof fn law_and_replay(
    x: ProverModel,
    y: ProverModel,
    vx: VerifierModel,
    vy: VerifierModel,
    e: int,
)
    requires
        replays_party(vx, vy, x, y, e),
        x.anded(y) is Ok,
        inherit(vx.ctx, vy.ctx)[1].replay_ready(),
        inherit(vx.ctx, vy.ctx)[1].replay_word() == recorded_by(x.anded(y)->Ok_0, next_party(e)),
    ensures
        ({
            let p = x.anded(y)->Ok_0;
            let vc = inherit(vx.ctx, vy.ctx);
            &&& recorded_by(p, e) == p.value[e]
            &&& rebuilds(vc) ==> vx.anded(vy) is Ok && (vx.anded(vy)->Ok_0).ctx[0].view.out_data32
                == vc[0].view.out_data32.push(recorded_by(p, e))
            &&& !rebuilds(vc) ==> (vx.anded(vy) is Ok <==> vc[0].replay_ready()
                && vc[0].replay_word() == recorded_by(p, e))
            &&& vx.anded(vy) matches Ok(r) ==> r.value[0] == p.value[e] && r.value[1]
                == p.value[next_party(e)]
            &&& vx.anded(vy) matches Err(kind) ==> kind == IKosErrorKind::AndCheckMismatch
        }),
{
    let p = x.anded(y)->Ok_0;
    let c = inherit(x.ctx, y.ctx);
    let vc = inherit(vx.ctx, vy.ctx);
    let s = next_party(e);
    let out = and_shares(x.value, y.value, drawn_words(c));
    assert(p.value == out);
    assert(recorded_by(p, e) == out[e] && recorded_by(p, s) == out[s]) by {
        if e == 0 {
        } else if e == 1 {
        } else {
        }
    }
    assert(vx.and_output(vy, vc) == out[e]) by {
        if e == 0 {
        } else if e == 1 {
        } else {
        }
    }
    let d = all_drawn(vc);
    assert(rebuilds(d) == rebuilds(vc));
}

/// Replay of an ADD gate. Let the verifier replay parties `e` and `e + 1`
/// of a gate that gave the prover `p`, and let the views of its parties 1
/// and 2 hold an output at the cursor, party 1's being the carry word that
/// party `e + 1` recorded. If this gate rebuilds, it succeeds and appends to
/// party 0's view exactly the carry word that party `e` recorded. If it
/// checks, it succeeds when party 0's view holds that carry word at the
/// cursor; and where it succeeds on a carry word with bit 0 zero, that
/// word is the one party `e` recorded. Where it succeeds on the recorded
/// carry word, its shares 0 and 1 are the prover's shares of parties `e`
/// and `e + 1`.
pub proof fn law_add_replay(
    x: ProverModel,
    y: ProverModel,
    vx: VerifierModel,
    vy: VerifierModel,
    e: int,
)
    requires
        replays_party(vx, vy, x, y, e),
        x.added(y) is Ok,
        inherit(vx.ctx, vy.ctx)[1].replay_ready(),
        inherit(vx.ctx, vy.ctx)[2].replay_ready(),
        inherit(vx.ctx, vy.ctx)[1].replay_word() == recorded_by(x.added(y)->Ok_0, next_party(e)),
    ensures
        ({
            let p = x.added(y)->Ok_0;
            let vc = inherit(vx.ctx, vy.ctx);
            &&& rebuilds(vc) ==> vx.added(vy) is Ok && (vx.added(vy)->Ok_0).ctx[0].view.out_data32
                == vc[0].view.out_data32.push(recorded_by(p, e))
            &&& !rebuilds(vc) && vc[0].replay_ready() && vc[0].replay_word() == recorded_by(p, e)
                ==> vx.added(vy) is Ok
            &&& !rebuilds(vc) && vx.added(vy) is Ok && bit(vc[0].replay_word(), 0) == 0
                ==> vc[0].replay_word() == recorded_by(p, e)
            &&& !rebuilds(vc) && !vc[0].replay_ready() ==> vx.added(vy) is Err
            &&& vx.added(vy) matches Ok(r) ==> (rebuilds(vc) || vc[0].replay_word() == recorded_by(
                p,
                e,
            )) ==> r.value[0] == p.value[e] && r.value[1] == p.value[next_party(e)]
            &&& vx.added(vy) matches Err(kind) ==> kind == IKosErrorKind::AddCheckMismatch
        }),
{
    let p = x.added(y)->Ok_0;
    let c = inherit(x.ctx, y.ctx);
    let vc = inherit(vx.ctx, vy.ctx);
    let s = next_party(e);
    let t = drawn_words(c);
    let k = add_carries(x.value, y.value, t);
    lemma_carries_len(x.value, y.value, t, 31);
    assert(p.value == xor3_shares(x.value, y.value, k));
    assert(recorded_by(p, e) == k[e] && recorded_by(p, s) == k[s] && t[e] == c[e].next_word()
        && t[s] == c[s].next_word() && p.value[e] == x.value[e] ^ y.value[e] ^ k[e] && p.value[s]
        == x.value[s] ^ y.value[s] ^ k[s]) by {
        if e == 0 {
        } else if e == 1 {
        } else {
        }
    }
    let d = all_drawn(vc);
    assert(rebuilds(d) == rebuilds(vc));
    let k1 = d[1].replay_word();
    assert(k1 == k[s]);
    lemma_replay_follows(x.value, y.value, t, e, 31);
    assert(vx.rebuilt_carry(vy, vc, k1) == k[e]);
    if !rebuilds(vc) && vc[0].replay_ready() {
        let k0 = vc[0].replay_word();
        if k0 == k[e] {
            assert(vx.carry_passes(vy, vc, k0, k1)) by {
                assert forall|i: u32| i < 31 implies #[trigger] carry_bit(
                    x.value[e],
                    y.value[e],
                    k[e],
                    t[e],
                    x.value[s],
                    y.value[s],
                    k[s],
                    t[s],
                    i,
                ) == bit(k[e], (i + 1) as u32) by {
                    lemma_carries_obey_rule(x.value, y.value, t, e, i);
                }
            }
        }
        if vx.added(vy) is Ok && bit(k0, 0) == 0 {
            assert(vx.carry_passes(vy, vc, k0, k1));
            lemma_consistent_is_replay(
                x.value[e],
                y.value[e],
                k0,
                t[e],
                x.value[s],
                y.value[s],
                k1,
                t[s],
                31,
            );
            assert(bit(k0, 0) == 0 ==> k0 & 1 == 0 && k0 & crate::bit_lemmas::low_mask(31) == k0)
                by (bit_vector);
        }
    }
}

/// Replay of an ADD gate with all three carry words at hand. Let the
/// verifier hold the prover's three shares of both operands and replay
/// parties 0 and 1 of a gate that gave the prover `p`, and let the views of
/// its parties 1 and 2 hold at the cursor the carry words that those
/// parties recorded. If this gate rebuilds, or checks against the carry
/// word that party 0 recorded, it succeeds with the prover's three shares,
/// which stand for the sum of the two words modulo 2^32.
pub proof fn law_add_replay_whole(
    x: ProverModel,
    y: ProverModel,
    vx: VerifierModel,
    vy: VerifierModel,
)
    requires
        replays_party(vx, vy, x, y, 0),
        vx.value == x.value,
        vy.value == y.value,
        x.added(y) is Ok,
        inherit(vx.ctx, vy.ctx)[1].replay_ready(),
        inherit(vx.ctx, vy.ctx)[2].replay_ready(),
        inherit(vx.ctx, vy.ctx)[1].replay_word() == recorded_by(x.added(y)->Ok_0, 1),
        inherit(vx.ctx, vy.ctx)[2].replay_word() == recorded_by(x.added(y)->Ok_0, 2),
        rebuilds(inherit(vx.ctx, vy.ctx)) || (inherit(vx.ctx, vy.ctx)[0].replay_ready()
            && inherit(vx.ctx, vy.ctx)[0].replay_word() == recorded_by(x.added(y)->Ok_0, 0)),
    ensures
        vx.added(vy) matches Ok(r) && r.value == (x.added(y)->Ok_0).value && clear(r.value)
            == wrapping_sum(x.clear(), y.clear()),
{
    let p = x.added(y)->Ok_0;
    let c = inherit(x.ctx, y.ctx);
    let k = add_carries(x.value, y.value, drawn_words(c));
    lemma_carries_len(x.value, y.value, drawn_words(c), 31);
    law_add_replay(x, y, vx, vy, 0);
    law_add_clear(x, y);
    let r = vx.added(vy)->Ok_0;
    assert(recorded_by(p, 2) == k[2]);
    assert(r.value[2] == p.value[2]);
    assert(r.value =~= p.value);
}

} // verus!

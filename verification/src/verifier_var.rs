//! The verifier's shared word. It replays the shares of parties 0 and 1 of
//! each gate from their tapes; party 2 is hidden from it, and its random
//! word counts as zero.
//!
//! In verify mode a non-linear gate draws one word from each of the three
//! tapes, so that every context takes part in it, takes party 1's output
//! from party 1's committed view, and either rebuilds party 0's output,
//! appending it to party 0's view, or checks it against the view. In
//! simulation mode it draws from the tapes of parties 0 and 1 alone, takes
//! party 1's output from a list of words handed to the variable, and
//! records all three outputs.

use vstd::prelude::*;
use crate::context::{
    clone_contexts, contexts_view, contexts_wf, get_next_random_from_context, inherit,
    join_contexts, split_contexts, ContextModel, IKosContext,
};
use crate::error::{IKosError, IKosErrorKind, IKosResult};
use crate::shares::{
    add_plain, add_wrapping, and_output, and_plain, and_word, carry_consistent, check_carry_word,
    not_shares, replay_carry, replay_carry_word, set_bit, shl_shares, shr_shares, with_bit,
    xor3_shares, xor_shares,
};

verus! {

/// Whether a gate rebuilds party 0's output: it does when the views of
/// parties 0 and 1 hold equally many outputs as this gate begins. Otherwise
/// it checks party 0's output against the view.
pub open spec fn rebuilds(c: Seq<ContextModel>) -> bool {
    c[0].view.out_data32.len() == c[1].view.out_data32.len()
}

/// No random word is left on the tape of party 0 or of party 1.
pub open spec fn replay_tape_exhausted(c: Seq<ContextModel>) -> bool {
    c[0].exhausted() || c[1].exhausted()
}

/// The contexts after parties 0 and 1 have drawn one random word each.
pub open spec fn replay_drawn(c: Seq<ContextModel>) -> Seq<ContextModel> {
    seq![c[0].drawn(), c[1].drawn(), c[2]]
}

/// The contexts after each of the three parties has drawn one random word.
pub open spec fn all_drawn(c: Seq<ContextModel>) -> Seq<ContextModel> {
    seq![c[0].drawn(), c[1].drawn(), c[2].drawn()]
}

/// A replay cursor cannot move on.
pub open spec fn replay_blocked(d: Seq<ContextModel>) -> bool {
    d[0].replay_stuck() || d[1].replay_stuck() || d[2].replay_stuck()
}

/// The contexts after a gate in verify mode: party 0 has recorded `out0`
/// if this gate rebuilt it, and each replay cursor has moved on by one.
pub open spec fn after_replay(d: Seq<ContextModel>, rebuilt: bool, out0: u32) -> Seq<ContextModel> {
    seq![
        (if rebuilt {
            d[0].recorded(out0)
        } else {
            d[0]
        }).replayed(),
        d[1].replayed(),
        d[2].replayed(),
    ]
}

/// The contexts after a gate in simulation mode: each party has recorded
/// its output.
pub open spec fn after_simulation(d: Seq<ContextModel>, out: Seq<u32>) -> Seq<ContextModel> {
    seq![d[0].recorded(out[0]), d[1].recorded(out[1]), d[2].recorded(out[2])]
}

/// What a verifier's shared word holds: one share for each party, the
/// parties' contexts, or none for a public constant, and the words that
/// simulation hands out as party 1's outputs, with a cursor into them.
#[verifier::ext_equal]
pub struct VerifierModel {
    pub value: Seq<u32>,
    pub ctx: Seq<ContextModel>,
    pub inst_random: Seq<u32>,
    pub inst_ctr: nat,
}

impl VerifierModel {
    pub open spec fn wf(self) -> bool {
        self.value.len() == 3 && contexts_wf(self.ctx)
    }

    /// The word carries the parties' contexts.
    pub open spec fn is_bound(self) -> bool {
        self.ctx.len() != 0
    }

    /// The cursor stands on a word to hand out. Slot 0 is where the first
    /// cursor value came from and is itself never handed out.
    pub open spec fn sim_ready(self) -> bool {
        1 <= self.inst_ctr < self.inst_random.len()
    }

    /// The word under the cursor.
    pub open spec fn sim_word(self) -> u32 {
        self.inst_random[self.inst_ctr as int]
    }

    /// NOT gate.
    pub open spec fn negated(self) -> VerifierModel {
        VerifierModel { value: not_shares(self.value), ..self }
    }

    /// XOR gate.
    pub open spec fn xored(self, rhs: VerifierModel) -> VerifierModel {
        VerifierModel {
            value: xor_shares(self.value, rhs.value),
            ctx: inherit(self.ctx, rhs.ctx),
            ..self
        }
    }

    /// Shift of each share to the right.
    pub open spec fn shifted_right(self, n: u32) -> VerifierModel {
        VerifierModel { value: shr_shares(self.value, n), ..self }
    }

    /// Shift of each share to the left.
    pub open spec fn shifted_left(self, n: u32) -> VerifierModel {
        VerifierModel { value: shl_shares(self.value, n), ..self }
    }

    /// Party 0's output of an AND gate with `rhs` on contexts `c`.
    pub open spec fn and_output(self, rhs: VerifierModel, c: Seq<ContextModel>) -> u32 {
        and_word(
            self.value[0],
            self.value[1],
            rhs.value[0],
            rhs.value[1],
            c[0].next_word(),
            c[1].next_word(),
        )
    }

    /// An AND gate in verify mode, on contexts `d` that have drawn their
    /// random words, with `out` as party 0's output. It fails when party 1's
    /// view has no output left, when a checked output is missing from party
    /// 0's view or differs from `out`, and when a cursor cannot move on.
    pub open spec fn and_replayed(self, d: Seq<ContextModel>, out: u32) -> Result<
        VerifierModel,
        IKosErrorKind,
    > {
        if (!rebuilds(d) && !(d[0].replay_ready() && d[0].replay_word() == out))
            || !d[1].replay_ready() || replay_blocked(d) {
            Err(IKosErrorKind::AndCheckMismatch)
        } else {
            Ok(
                VerifierModel {
                    value: seq![out, d[1].replay_word(), self.value[2]],
                    ctx: after_replay(d, rebuilds(d), out),
                    ..self
                },
            )
        }
    }

    /// An AND gate in simulation mode. It fails when no word is left to hand
    /// out as party 1's output.
    pub open spec fn and_simulated(self, d: Seq<ContextModel>, out: u32) -> Result<
        VerifierModel,
        IKosErrorKind,
    > {
        if !self.sim_ready() {
            Err(IKosErrorKind::RandomnessExhausted)
        } else {
            let value = seq![out, self.sim_word(), self.value[2]];
            Ok(
                VerifierModel {
                    value,
                    ctx: after_simulation(d, value),
                    inst_ctr: self.inst_ctr + 1,
                    ..self
                },
            )
        }
    }

    /// AND gate. On two public constants it is the plain AND and touches
    /// nothing. Else parties 0 and 1 draw a random word each, and in verify
    /// mode party 2 draws one too, which is not used; this fails when a
    /// tape that is drawn from has run out. Then this gate goes on in the
    /// mode of party 0's context.
    pub open spec fn anded(self, rhs: VerifierModel) -> Result<VerifierModel, IKosErrorKind> {
        if !self.is_bound() && !rhs.is_bound() {
            Ok(VerifierModel { value: and_plain(self.value, rhs.value), ..self })
        } else {
            let c = inherit(self.ctx, rhs.ctx);
            if replay_tape_exhausted(c) || (c[0].is_verify_mode && c[2].exhausted()) {
                Err(IKosErrorKind::RandomnessExhausted)
            } else if c[0].is_verify_mode {
                self.and_replayed(all_drawn(c), self.and_output(rhs, c))
            } else {
                self.and_simulated(replay_drawn(c), self.and_output(rhs, c))
            }
        }
    }

    /// OR gate: `a | b` is `a ^ b ^ (a & b)`, with the AND taken by the AND
    /// gate.
    pub open spec fn ored(self, rhs: VerifierModel) -> Result<VerifierModel, IKosErrorKind> {
        match self.anded(rhs) {
            Ok(both) => Ok(
                VerifierModel { value: xor3_shares(self.value, rhs.value, both.value), ..both },
            ),
            Err(kind) => Err(kind),
        }
    }

    /// Party 0's carry word of an ADD gate with `rhs` on contexts `c`, as
    /// rebuilt from party 1's carry word `k1`.
    pub open spec fn rebuilt_carry(self, rhs: VerifierModel, c: Seq<ContextModel>, k1: u32) -> u32 {
        replay_carry(
            self.value[0],
            rhs.value[0],
            c[0].next_word(),
            self.value[1],
            rhs.value[1],
            k1,
            c[1].next_word(),
            0,
            31,
        )
    }

    /// Whether `k0` passes as party 0's carry word of an ADD gate with `rhs`
    /// on contexts `c`, beside party 1's carry word `k1`.
    pub open spec fn carry_passes(
        self,
        rhs: VerifierModel,
        c: Seq<ContextModel>,
        k0: u32,
        k1: u32,
    ) -> bool {
        carry_consistent(
            self.value[0],
            rhs.value[0],
            k0,
            c[0].next_word(),
            self.value[1],
            rhs.value[1],
            k1,
            c[1].next_word(),
            31,
        )
    }

    /// An ADD gate in verify mode, on contexts `c`, each of which has a
    /// random word left to draw. The carry words of
    /// parties 1 and 2 come from their views; party 0's is rebuilt, or comes
    /// from its view and is checked bit by bit. This gate fails when a view
    /// has no output left where one is read, when the check fails, and when
    /// a cursor cannot move on.
    pub open spec fn add_replayed(self, rhs: VerifierModel, c: Seq<ContextModel>) -> Result<
        VerifierModel,
        IKosErrorKind,
    > {
        let d = all_drawn(c);
        if (!rebuilds(d) && !d[0].replay_ready()) || !d[1].replay_ready() || !d[2].replay_ready()
            || replay_blocked(d) {
            Err(IKosErrorKind::AddCheckMismatch)
        } else {
            let k1 = d[1].replay_word();
            let k2 = d[2].replay_word();
            let k0 = if rebuilds(d) {
                self.rebuilt_carry(rhs, c, k1)
            } else {
                d[0].replay_word()
            };
            if !rebuilds(d) && !self.carry_passes(rhs, c, k0, k1) {
                Err(IKosErrorKind::AddCheckMismatch)
            } else {
                Ok(
                    VerifierModel {
                        value: xor3_shares(self.value, rhs.value, seq![k0, k1, k2]),
                        ctx: after_replay(d, rebuilds(d), k0),
                        ..self
                    },
                )
            }
        }
    }

    /// An ADD gate in simulation mode, on contexts `c`. Party 1's carry word
    /// is the next word handed out, with its bit 0 cleared; party 2's is
    /// zero; party 0's is rebuilt. This gate fails when no word is left to
    /// hand out.
    pub open spec fn add_simulated(self, rhs: VerifierModel, c: Seq<ContextModel>) -> Result<
        VerifierModel,
        IKosErrorKind,
    > {
        if !self.sim_ready() {
            Err(IKosErrorKind::RandomnessExhausted)
        } else {
            let k1 = with_bit(self.sim_word(), 0, 0);
            let k = seq![self.rebuilt_carry(rhs, c, k1), k1, 0u32];
            Ok(
                VerifierModel {
                    value: xor3_shares(self.value, rhs.value, k),
                    ctx: after_simulation(replay_drawn(c), k),
                    inst_ctr: self.inst_ctr + 1,
                    ..self
                },
            )
        }
    }

    /// ADD gate. On two public constants it is the plain sum modulo 2^32
    /// and touches nothing. Else parties 0 and 1 draw a random word each,
    /// and in verify mode party 2 draws one too, which is not used; this
    /// fails when a tape that is drawn from has run out. Then this gate
    /// goes on in the mode of party 0's context.
    pub open spec fn added(self, rhs: VerifierModel) -> Result<VerifierModel, IKosErrorKind> {
        if !self.is_bound() && !rhs.is_bound() {
            Ok(VerifierModel { value: add_plain(self.value, rhs.value), ..self })
        } else {
            let c = inherit(self.ctx, rhs.ctx);
            if replay_tape_exhausted(c) || (c[0].is_verify_mode && c[2].exhausted()) {
                Err(IKosErrorKind::RandomnessExhausted)
            } else if c[0].is_verify_mode {
                self.add_replayed(rhs, c)
            } else {
                self.add_simulated(rhs, c)
            }
        }
    }
}

#[derive(Debug, PartialEq)]
pub struct IKosVariable4V {
    value: Vec<u32>,
    ctx: Vec<IKosContext>,
    inst_random: Vec<u32>,
    inst_ctr: usize,
}

impl View for IKosVariable4V {
    type V = VerifierModel;

    closed spec fn view(&self) -> VerifierModel {
        VerifierModel {
            value: self.value@,
            ctx: contexts_view(self.ctx@),
            inst_random: self.inst_random@,
            inst_ctr: self.inst_ctr as nat,
        }
    }
}

impl Clone for IKosVariable4V {
    fn clone(&self) -> (r: Self)
        ensures
            r@ == self@,
    {
        IKosVariable4V {
            value: self.value.clone(),
            ctx: clone_contexts(&self.ctx),
            inst_random: self.inst_random.clone(),
            inst_ctr: self.inst_ctr,
        }
    }
}

/// Whether the outcome `r` of a gate is the outcome `m` that this gate's
/// model gives: the same variable, or the error of the same kind.
pub open spec fn verifier_agrees(
    r: IKosResult<IKosVariable4V>,
    m: Result<VerifierModel, IKosErrorKind>,
) -> bool {
    match r {
        Ok(v) => v.wf() && m == Ok::<VerifierModel, IKosErrorKind>(v@),
        Err(e) => m matches Err(kind) && e.is_kind(kind),
    }
}

impl IKosVariable4V {
    pub open spec fn wf(&self) -> bool {
        self@.wf()
    }

    /// The public constant zero.
    pub fn new() -> (v: Self)
        ensures
            v.wf(),
            v@ == (VerifierModel {
                value: seq![0u32, 0u32, 0u32],
                ctx: Seq::empty(),
                inst_random: Seq::empty(),
                inst_ctr: 0,
            }),
    {
        let v = IKosVariable4V {
            value: vec![0u32, 0u32, 0u32],
            ctx: Vec::new(),
            inst_random: Vec::new(),
            inst_ctr: 0,
        };
        assert(v@ =~~= (VerifierModel {
            value: seq![0u32, 0u32, 0u32],
            ctx: Seq::empty(),
            inst_random: Seq::empty(),
            inst_ctr: 0,
        }));
        v
    }

    /// The public constant `value`: each party's share is `value`.
    pub fn new_value(value: u32) -> (v: Self)
        ensures
            v.wf(),
            v@ == (VerifierModel {
                value: seq![value, value, value],
                ctx: Seq::empty(),
                inst_random: Seq::empty(),
                inst_ctr: 0,
            }),
    {
        let v = IKosVariable4V {
            value: vec![value, value, value],
            ctx: Vec::new(),
            inst_random: Vec::new(),
            inst_ctr: 0,
        };
        assert(v@ =~~= (VerifierModel {
            value: seq![value, value, value],
            ctx: Seq::empty(),
            inst_random: Seq::empty(),
            inst_ctr: 0,
        }));
        v
    }

    /// The shared word with the given three shares, bound to the given
    /// contexts: none, or one for each party. It has no words to hand out
    /// in simulation.
    pub fn new_share(value: Vec<u32>, ctx: Vec<IKosContext>) -> (v: Self)
        requires
            value@.len() == 3,
            contexts_wf(contexts_view(ctx@)),
        ensures
            v.wf(),
            v@ == (VerifierModel {
                value: value@,
                ctx: contexts_view(ctx@),
                inst_random: Seq::empty(),
                inst_ctr: 0,
            }),
    {
        let v = IKosVariable4V { value, ctx, inst_random: Vec::new(), inst_ctr: 0 };
        assert(v@.inst_random =~= Seq::empty());
        v
    }

    /// The shared word with the given shares and contexts, and with
    /// `inst_random` as the words to hand out in simulation. Slot 0 of
    /// `inst_random` holds the index of the first word to hand out.
    pub fn new_share_with_random(
        value: Vec<u32>,
        ctx: Vec<IKosContext>,
        inst_random: Vec<u32>,
    ) -> (v: Self)
        requires
            value@.len() == 3,
            contexts_wf(contexts_view(ctx@)),
        ensures
            v.wf(),
            v@ == (VerifierModel {
                value: value@,
                ctx: contexts_view(ctx@),
                inst_random: inst_random@,
                inst_ctr: if inst_random@.len() > 0 {
                    inst_random@[0] as nat
                } else {
                    0
                },
            }),
    {
        let inst_ctr: usize = if inst_random.len() > 0 {
            inst_random[0] as usize
        } else {
            0
        };
        IKosVariable4V { value, ctx, inst_random, inst_ctr }
    }

    /// The three shares.
    pub fn value(&self) -> (value: &Vec<u32>)
        ensures
            value@ == self@.value,
    {
        &self.value
    }

    /// The contexts, none or three.
    pub fn contexts(&self) -> (ctx: &Vec<IKosContext>)
        ensures
            contexts_view(ctx@) == self@.ctx,
    {
        &self.ctx
    }

    /// The index of the next word to hand out in simulation.
    pub fn inst_ctr(&self) -> (n: usize)
        ensures
            n == self@.inst_ctr,
    {
        self.inst_ctr
    }

    pub fn is_empty_context(&self) -> (b: bool)
        ensures
            b == !self@.is_bound(),
    {
        self.ctx.len() == 0
    }

    /// Binds the variable to `rhs_ctx` in place of its own contexts.
    pub fn copy_context(&mut self, rhs_ctx: Vec<IKosContext>)
        ensures
            final(self)@ == (VerifierModel { ctx: contexts_view(rhs_ctx@), ..old(self)@ }),
    {
        self.ctx = rhs_ctx;
    }

    /// Whether a gate on these contexts rebuilds party 0's output.
    pub fn require_reconstruct(ctx: &Vec<IKosContext>) -> (b: bool)
        requires
            ctx@.len() == 3,
        ensures
            b == rebuilds(contexts_view(ctx@)),
    {
        ctx[0].out_len() == ctx[1].out_len()
    }

    /// The random word of party `i` for the next gate: drawn from the
    /// party's tape for parties 0 and 1; zero for any other `i`, with
    /// nothing drawn.
    pub fn get_next_random(&mut self, i: usize) -> (r: IKosResult<u32>)
        requires
            old(self).wf(),
            i < 2 ==> old(self)@.is_bound(),
        ensures
            final(self).wf(),
            r is Err <==> i < 2 && old(self)@.ctx[i as int].exhausted(),
            r matches Err(e) ==> e.is_kind(IKosErrorKind::RandomnessExhausted) && final(self)@
                == old(self)@,
            r matches Ok(w) ==> {
                &&& i >= 2 ==> w == 0 && final(self)@ == old(self)@
                &&& i < 2 ==> w == old(self)@.ctx[i as int].next_word() && final(self)@ == (
                VerifierModel {
                    ctx: old(self)@.ctx.update(i as int, old(self)@.ctx[i as int].drawn()),
                    ..old(self)@
                })
            },
    {
        if i < 2 {
            let ghost before = self.ctx@;
            let r = get_next_random_from_context(&mut self.ctx[i]);
            proof {
                if r is Ok {
                    assert(contexts_view(self.ctx@) =~= contexts_view(before).update(
                        i as int,
                        contexts_view(before)[i as int].drawn(),
                    ));
                } else {
                    assert(contexts_view(self.ctx@) =~= contexts_view(before));
                }
            }
            r
        } else {
            Ok(0)
        }
    }

    /// The variable that a gate on `self` and `rhs` works on: `self`, bound
    /// to a copy of the contexts of `rhs` where it has none of its own.
    fn into_gate(self, rhs: &IKosVariable4V) -> (r: Self)
        ensures
            r@ == (VerifierModel { ctx: inherit(self@.ctx, rhs@.ctx), ..self@ }),
    {
        if self.is_empty_context() {
            let mut this = self;
            this.copy_context(clone_contexts(&rhs.ctx));
            this
        } else {
            self
        }
    }

    /// The next word to hand out in simulation, and the cursor moved on.
    fn next_inst_word(inst_random: &Vec<u32>, inst_ctr: usize) -> (r: Option<(u32, usize)>)
        ensures
            r is Some <==> 1 <= inst_ctr < inst_random@.len(),
            r matches Some(p) ==> p.0 == inst_random@[inst_ctr as int] && p.1 == inst_ctr + 1,
    {
        if 1 <= inst_ctr && inst_ctr < inst_random.len() {
            Some((inst_random[inst_ctr], inst_ctr + 1))
        } else {
            None
        }
    }

    /// NOT on each share.
    pub fn negate(self) -> (r: Self)
        requires
            self.wf(),
        ensures
            r.wf(),
            r@ == self@.negated(),
    {
        let IKosVariable4V { value, ctx, inst_random, inst_ctr } = self;
        let r = IKosVariable4V {
            value: vec![!value[0], !value[1], !value[2]],
            ctx,
            inst_random,
            inst_ctr,
        };
        assert(r@ =~~= self@.negated());
        r
    }

    /// XOR of the shares of `self` with those of `rhs`.
    pub fn or(self, rhs: &IKosVariable4V) -> (r: Self)
        requires
            self.wf(),
            rhs.wf(),
        ensures
            r.wf(),
            r@ == self@.xored(rhs@),
    {
        let IKosVariable4V { value, ctx, inst_random, inst_ctr } = self.into_gate(rhs);
        let r = IKosVariable4V {
            value: vec![
                value[0] ^ rhs.value[0],
                value[1] ^ rhs.value[1],
                value[2] ^ rhs.value[2],
            ],
            ctx,
            inst_random,
            inst_ctr,
        };
        assert(r@ =~~= self@.xored(rhs@));
        r
    }

    /// Each share shifted right by `n` bits.
    pub fn rshift(self, n: u32) -> (r: Self)
        requires
            self.wf(),
            n < 32,
        ensures
            r.wf(),
            r@ == self@.shifted_right(n),
    {
        let IKosVariable4V { value, ctx, inst_random, inst_ctr } = self;
        let r = IKosVariable4V {
            value: vec![value[0] >> n, value[1] >> n, value[2] >> n],
            ctx,
            inst_random,
            inst_ctr,
        };
        assert(r@ =~~= self@.shifted_right(n));
        r
    }

    /// Each share shifted left by `n` bits.
    pub fn lshift(self, n: u32) -> (r: Self)
        requires
            self.wf(),
            n < 32,
        ensures
            r.wf(),
            r@ == self@.shifted_left(n),
    {
        let IKosVariable4V { value, ctx, inst_random, inst_ctr } = self;
        let r = IKosVariable4V {
            value: vec![value[0] << n, value[1] << n, value[2] << n],
            ctx,
            inst_random,
            inst_ctr,
        };
        assert(r@ =~~= self@.shifted_left(n));
        r
    }

    /// AND gate.
    pub fn bit_and(self, rhs: &IKosVariable4V) -> (r: IKosResult<Self>)
        requires
            self.wf(),
            rhs.wf(),
        ensures
            verifier_agrees(r, self@.anded(rhs@)),
    {
        if self.is_empty_context() && rhs.is_empty_context() {
            let IKosVariable4V { value, ctx, inst_random, inst_ctr } = self;
            let r = IKosVariable4V {
                value: vec![
                    value[0] & rhs.value[0],
                    value[1] & rhs.value[1],
                    value[2] & rhs.value[2],
                ],
                ctx,
                inst_random,
                inst_ctr,
            };
            assert(r@ =~~= (VerifierModel { value: and_plain(self@.value, rhs@.value), ..self@ }));
            return Ok(r);
        }
        let ghost c = inherit(self@.ctx, rhs@.ctx);
        let mut this = self.into_gate(rhs);
        let r0 = match this.get_next_random(0) {
            Ok(w) => w,
            Err(e) => {
                return Err(e);
            },
        };
        let r1 = match this.get_next_random(1) {
            Ok(w) => w,
            Err(e) => {
                return Err(e);
            },
        };
        let IKosVariable4V { value, ctx, inst_random, inst_ctr } = this;
        assert(contexts_view(ctx@) =~= replay_drawn(c));
        let rebuild = Self::require_reconstruct(&ctx);
        let (mut c0, mut c1, mut c2) = split_contexts(ctx);
        let out = and_output(value[0], value[1], rhs.value[0], rhs.value[1], r0, r1);
        assert(out == self@.and_output(rhs@, c));
        if c0.is_verify_mode() {
            assert(c[2].wf());
            match get_next_random_from_context(&mut c2) {
                Ok(_) => {},
                Err(e) => {
                    return Err(e);
                },
            }
            let ghost d = all_drawn(c);
            if rebuild {
                c0.record(out);
            } else {
                match c0.replay_word() {
                    Some(w) => {
                        if w != out {
                            return Err(IKosError::new(IKosErrorKind::AndCheckMismatch));
                        }
                    },
                    None => {
                        return Err(IKosError::new(IKosErrorKind::AndCheckMismatch));
                    },
                }
            }
            let w1 = match c1.replay_word() {
                Some(w) => w,
                None => {
                    return Err(IKosError::new(IKosErrorKind::AndCheckMismatch));
                },
            };
            let m0 = c0.advance_replay();
            let m1 = c1.advance_replay();
            let m2 = c2.advance_replay();
            if !m0 || !m1 || !m2 {
                return Err(IKosError::new(IKosErrorKind::AndCheckMismatch));
            }
            let r = IKosVariable4V {
                value: vec![out, w1, value[2]],
                ctx: join_contexts(c0, c1, c2),
                inst_random,
                inst_ctr,
            };
            assert(r@ =~~= (VerifierModel {
                value: seq![out, d[1].replay_word(), self@.value[2]],
                ctx: after_replay(d, rebuilds(d), out),
                ..self@
            }));
            Ok(r)
        } else {
            let ghost d = replay_drawn(c);
            let (w1, next_ctr) = match Self::next_inst_word(&inst_random, inst_ctr) {
                Some(p) => p,
                None => {
                    return Err(IKosError::new(IKosErrorKind::RandomnessExhausted));
                },
            };
            c0.record(out);
            c1.record(w1);
            c2.record(value[2]);
            let r = IKosVariable4V {
                value: vec![out, w1, value[2]],
                ctx: join_contexts(c0, c1, c2),
                inst_random,
                inst_ctr: next_ctr,
            };
            proof {
                let v = seq![out, self@.sim_word(), self@.value[2]];
                assert(r@ =~~= (VerifierModel {
                    value: v,
                    ctx: after_simulation(d, v),
                    inst_ctr: self@.inst_ctr + 1,
                    ..self@
                }));
            }
            Ok(r)
        }
    }

    /// OR gate.
    pub fn bit_or(self, rhs: &IKosVariable4V) -> (r: IKosResult<Self>)
        requires
            self.wf(),
            rhs.wf(),
        ensures
            verifier_agrees(r, self@.ored(rhs@)),
    {
        let x0 = self.value[0];
        let x1 = self.value[1];
        let x2 = self.value[2];
        let both = match self.bit_and(rhs) {
            Ok(v) => v,
            Err(e) => {
                return Err(e);
            },
        };
        let IKosVariable4V { value, ctx, inst_random, inst_ctr } = both;
        let r = IKosVariable4V {
            value: vec![
                x0 ^ rhs.value[0] ^ value[0],
                x1 ^ rhs.value[1] ^ value[1],
                x2 ^ rhs.value[2] ^ value[2],
            ],
            ctx,
            inst_random,
            inst_ctr,
        };
        assert(r@ =~~= (VerifierModel {
            value: xor3_shares(self@.value, rhs@.value, both@.value),
            ..both@
        }));
        Ok(r)
    }

    /// ADD gate.
    pub fn add(self, rhs: &IKosVariable4V) -> (r: IKosResult<Self>)
        requires
            self.wf(),
            rhs.wf(),
        ensures
            verifier_agrees(r, self@.added(rhs@)),
    {
        if self.is_empty_context() && rhs.is_empty_context() {
            let IKosVariable4V { value, ctx, inst_random, inst_ctr } = self;
            let r = IKosVariable4V {
                value: vec![
                    add_wrapping(value[0], rhs.value[0]),
                    add_wrapping(value[1], rhs.value[1]),
                    add_wrapping(value[2], rhs.value[2]),
                ],
                ctx,
                inst_random,
                inst_ctr,
            };
            assert(r@ =~~= (VerifierModel { value: add_plain(self@.value, rhs@.value), ..self@ }));
            return Ok(r);
        }
        let ghost c = inherit(self@.ctx, rhs@.ctx);
        let mut this = self.into_gate(rhs);
        let t0 = match this.get_next_random(0) {
            Ok(w) => w,
            Err(e) => {
                return Err(e);
            },
        };
        let t1 = match this.get_next_random(1) {
            Ok(w) => w,
            Err(e) => {
                return Err(e);
            },
        };
        let IKosVariable4V { value, ctx, inst_random, inst_ctr } = this;
        assert(contexts_view(ctx@) =~= replay_drawn(c));
        let rebuild = Self::require_reconstruct(&ctx);
        let (mut c0, mut c1, mut c2) = split_contexts(ctx);
        if c0.is_verify_mode() {
            assert(c[2].wf());
            match get_next_random_from_context(&mut c2) {
                Ok(_) => {},
                Err(e) => {
                    return Err(e);
                },
            }
            let ghost d = all_drawn(c);
            let k1 = match c1.replay_word() {
                Some(w) => w,
                None => {
                    return Err(IKosError::new(IKosErrorKind::AddCheckMismatch));
                },
            };
            let k2 = match c2.replay_word() {
                Some(w) => w,
                None => {
                    return Err(IKosError::new(IKosErrorKind::AddCheckMismatch));
                },
            };
            let k0 = if rebuild {
                let k0 = replay_carry_word(
                    value[0],
                    rhs.value[0],
                    t0,
                    value[1],
                    rhs.value[1],
                    k1,
                    t1,
                );
                c0.record(k0);
                k0
            } else {
                let k0 = match c0.replay_word() {
                    Some(w) => w,
                    None => {
                        return Err(IKosError::new(IKosErrorKind::AddCheckMismatch));
                    },
                };
                if !check_carry_word(
                    value[0],
                    rhs.value[0],
                    k0,
                    t0,
                    value[1],
                    rhs.value[1],
                    k1,
                    t1,
                ) {
                    return Err(IKosError::new(IKosErrorKind::AddCheckMismatch));
                }
                k0
            };
            let m0 = c0.advance_replay();
            let m1 = c1.advance_replay();
            let m2 = c2.advance_replay();
            if !m0 || !m1 || !m2 {
                return Err(IKosError::new(IKosErrorKind::AddCheckMismatch));
            }
            let r = IKosVariable4V {
                value: vec![
                    value[0] ^ rhs.value[0] ^ k0,
                    value[1] ^ rhs.value[1] ^ k1,
                    value[2] ^ rhs.value[2] ^ k2,
                ],
                ctx: join_contexts(c0, c1, c2),
                inst_random,
                inst_ctr,
            };
            assert(r@ =~~= (VerifierModel {
                value: xor3_shares(self@.value, rhs@.value, seq![k0, k1, k2]),
                ctx: after_replay(d, rebuilds(d), k0),
                ..self@
            }));
            Ok(r)
        } else {
            let ghost d = replay_drawn(c);
            let (w1, next_ctr) = match Self::next_inst_word(&inst_random, inst_ctr) {
                Some(p) => p,
                None => {
                    return Err(IKosError::new(IKosErrorKind::RandomnessExhausted));
                },
            };
            let k1 = set_bit(w1, 0, 0);
            let k0 = replay_carry_word(value[0], rhs.value[0], t0, value[1], rhs.value[1], k1, t1);
            c0.record(k0);
            c1.record(k1);
            c2.record(0);
            let r = IKosVariable4V {
                value: vec![
                    value[0] ^ rhs.value[0] ^ k0,
                    value[1] ^ rhs.value[1] ^ k1,
                    value[2] ^ rhs.value[2] ^ 0,
                ],
                ctx: join_contexts(c0, c1, c2),
                inst_random,
                inst_ctr: next_ctr,
            };
            proof {
                let k = seq![k0, k1, 0u32];
                assert(r@ =~~= (VerifierModel {
                    value: xor3_shares(self@.value, rhs@.value, k),
                    ctx: after_simulation(d, k),
                    inst_ctr: self@.inst_ctr + 1,
                    ..self@
                }));
            }
            Ok(r)
        }
    }
}

} // verus!

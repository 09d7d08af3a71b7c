//! The prover's shared word. Its non-linear gates draw one random word from
//! each party's tape and record one output in each party's view.

use vstd::prelude::*;
use crate::context::{
    clone_contexts, contexts_view, contexts_wf, get_next_random_from_context, inherit,
    join_contexts, split_contexts, ContextModel, IKosContext,
};
use crate::error::{IKosErrorKind, IKosResult};
use crate::shares::{
    add_carries, add_carry_words, add_plain, add_wrapping, and_output, and_plain, and_shares,
    clear, not_shares, shl_shares, shr_shares, xor3_shares, xor_shares,
};

verus! {

/// No random word is left on the tape of at least one of the three parties.
pub open spec fn tape_exhausted(c: Seq<ContextModel>) -> bool {
    c[0].exhausted() || c[1].exhausted() || c[2].exhausted()
}

/// The random words under the three parties' cursors.
pub open spec fn drawn_words(c: Seq<ContextModel>) -> Seq<u32> {
    seq![c[0].next_word(), c[1].next_word(), c[2].next_word()]
}

/// The three contexts after a non-linear gate: each has drawn one random
/// word and recorded its party's output.
pub open spec fn after_gate(c: Seq<ContextModel>, out: Seq<u32>) -> Seq<ContextModel> {
    seq![
        c[0].drawn().recorded(out[0]),
        c[1].drawn().recorded(out[1]),
        c[2].drawn().recorded(out[2]),
    ]
}

/// What a prover's shared word holds: one share for each party, and the
/// parties' contexts, or none for a public constant.
#[verifier::ext_equal]
pub struct ProverModel {
    pub value: Seq<u32>,
    pub ctx: Seq<ContextModel>,
}

impl ProverModel {
    pub open spec fn wf(self) -> bool {
        self.value.len() == 3 && contexts_wf(self.ctx)
    }

    /// The word carries the parties' contexts.
    pub open spec fn is_bound(self) -> bool {
        self.ctx.len() != 0
    }

    /// The word that the shares stand for.
    pub open spec fn clear(self) -> u32 {
        clear(self.value)
    }

    /// NOT gate.
    pub open spec fn negated(self) -> ProverModel {
        ProverModel { value: not_shares(self.value), ctx: self.ctx }
    }

    /// XOR gate.
    pub open spec fn xored(self, rhs: ProverModel) -> ProverModel {
        ProverModel { value: xor_shares(self.value, rhs.value), ctx: inherit(self.ctx, rhs.ctx) }
    }

    /// Shift of each share to the right.
    pub open spec fn shifted_right(self, n: u32) -> ProverModel {
        ProverModel { value: shr_shares(self.value, n), ctx: self.ctx }
    }

    /// Shift of each share to the left.
    pub open spec fn shifted_left(self, n: u32) -> ProverModel {
        ProverModel { value: shl_shares(self.value, n), ctx: self.ctx }
    }

    /// AND gate. On two public constants it is the plain AND and touches
    /// nothing; else it fails when a tape has run out, and otherwise puts
    /// out the three parties' AND words.
    pub open spec fn anded(self, rhs: ProverModel) -> Result<ProverModel, IKosErrorKind> {
        if !self.is_bound() && !rhs.is_bound() {
            Ok(ProverModel { value: and_plain(self.value, rhs.value), ctx: self.ctx })
        } else {
            let c = inherit(self.ctx, rhs.ctx);
            if tape_exhausted(c) {
                Err(IKosErrorKind::RandomnessExhausted)
            } else {
                let out = and_shares(self.value, rhs.value, drawn_words(c));
                Ok(ProverModel { value: out, ctx: after_gate(c, out) })
            }
        }
    }

    /// OR gate: `a | b` is `a ^ b ^ (a & b)`, with the AND taken by the AND
    /// gate.
    pub open spec fn ored(self, rhs: ProverModel) -> Result<ProverModel, IKosErrorKind> {
        match self.anded(rhs) {
            Ok(both) => Ok(
                ProverModel { value: xor3_shares(self.value, rhs.value, both.value), ctx: both.ctx },
            ),
            Err(kind) => Err(kind),
        }
    }

    /// ADD gate. On two public constants it is the plain sum modulo 2^32 and
    /// touches nothing; else it fails when a tape has run out, and otherwise
    /// records the three carry words and puts out operands and carries
    /// XOR-ed together.
    pub open spec fn added(self, rhs: ProverModel) -> Result<ProverModel, IKosErrorKind> {
        if !self.is_bound() && !rhs.is_bound() {
            Ok(ProverModel { value: add_plain(self.value, rhs.value), ctx: self.ctx })
        } else {
            let c = inherit(self.ctx, rhs.ctx);
            if tape_exhausted(c) {
                Err(IKosErrorKind::RandomnessExhausted)
            } else {
                let k = add_carries(self.value, rhs.value, drawn_words(c));
                Ok(
                    ProverModel {
                        value: xor3_shares(self.value, rhs.value, k),
                        ctx: after_gate(c, k),
                    },
                )
            }
        }
    }
}

#[derive(Debug, PartialEq)]
pub struct IKosVariable4P {
    value: Vec<u32>,
    ctx: Vec<IKosContext>,
}

impl View for IKosVariable4P {
    type V = ProverModel;

    closed spec fn view(&self) -> ProverModel {
        ProverModel { value: self.value@, ctx: contexts_view(self.ctx@) }
    }
}

impl Clone for IKosVariable4P {
    fn clone(&self) -> (r: Self)
        ensures
            r@ == self@,
    {
        IKosVariable4P { value: self.value.clone(), ctx: clone_contexts(&self.ctx) }
    }
}

/// Whether the outcome `r` of a gate is the outcome `m` that this gate's
/// model gives: the same variable, or the error of the same kind.
pub open spec fn prover_agrees(
    r: IKosResult<IKosVariable4P>,
    m: Result<ProverModel, IKosErrorKind>,
) -> bool {
    match r {
        Ok(v) => v.wf() && m == Ok::<ProverModel, IKosErrorKind>(v@),
        Err(e) => m matches Err(kind) && e.is_kind(kind),
    }
}

/// Draws one random word from each of the three contexts, in the order of
/// the parties.
fn draw_three(c0: &mut IKosContext, c1: &mut IKosContext, c2: &mut IKosContext) -> (r: IKosResult<
    (u32, u32, u32),
>)
    requires
        old(c0).wf(),
        old(c1).wf(),
        old(c2).wf(),
    ensures
        r is Err <==> tape_exhausted(seq![old(c0)@, old(c1)@, old(c2)@]),
        r matches Err(e) ==> e.is_kind(IKosErrorKind::RandomnessExhausted),
        r matches Ok(w) ==> {
            &&& seq![w.0, w.1, w.2] == drawn_words(seq![old(c0)@, old(c1)@, old(c2)@])
            &&& final(c0)@ == old(c0)@.drawn()
            &&& final(c1)@ == old(c1)@.drawn()
            &&& final(c2)@ == old(c2)@.drawn()
        },
        final(c0).wf(),
        final(c1).wf(),
        final(c2).wf(),
{
    let w0 = match get_next_random_from_context(c0) {
        Ok(w) => w,
        Err(e) => {
            return Err(e);
        },
    };
    let w1 = match get_next_random_from_context(c1) {
        Ok(w) => w,
        Err(e) => {
            return Err(e);
        },
    };
    let w2 = match get_next_random_from_context(c2) {
        Ok(w) => w,
        Err(e) => {
            return Err(e);
        },
    };
    assert(seq![w0, w1, w2] =~= drawn_words(seq![old(c0)@, old(c1)@, old(c2)@]));
    Ok((w0, w1, w2))
}

impl IKosVariable4P {
    pub open spec fn wf(&self) -> bool {
        self@.wf()
    }

    /// The public constant zero.
    pub fn new() -> (v: Self)
        ensures
            v.wf(),
            v@ == (ProverModel { value: seq![0u32, 0u32, 0u32], ctx: Seq::empty() }),
    {
        let v = IKosVariable4P { value: vec![0u32, 0u32, 0u32], ctx: Vec::new() };
        assert(v@ =~~= (ProverModel { value: seq![0u32, 0u32, 0u32], ctx: Seq::empty() }));
        v
    }

    /// The public constant `value`: each party's share is `value`.
    pub fn new_value(value: u32) -> (v: Self)
        ensures
            v.wf(),
            v@ == (ProverModel { value: seq![value, value, value], ctx: Seq::empty() }),
    {
        let v = IKosVariable4P { value: vec![value, value, value], ctx: Vec::new() };
        assert(v@ =~~= (ProverModel { value: seq![value, value, value], ctx: Seq::empty() }));
        v
    }

    /// The shared word with the given three shares, bound to the given
    /// contexts: none, or one for each party.
    pub fn new_share(value: Vec<u32>, ctx: Vec<IKosContext>) -> (v: Self)
        requires
            value@.len() == 3,
            contexts_wf(contexts_view(ctx@)),
        ensures
            v.wf(),
            v@ == (ProverModel { value: value@, ctx: contexts_view(ctx@) }),
    {
        IKosVariable4P { value, ctx }
    }

    /// The three shares.
    pub fn value(&self) -> (value: &Vec<u32>)
        ensures
            value@ == self@.value,
    {
        &self.value
    }

    /// The contexts, none or three.
    pub fn contexts(&self) -> (ctx: &Vec<IKosContext>)
        ensures
            contexts_view(ctx@) == self@.ctx,
    {
        &self.ctx
    }

    /// The word that the shares stand for.
    pub fn clear(&self) -> (w: u32)
        requires
            self.wf(),
        ensures
            w == self@.clear(),
    {
        self.value[0] ^ self.value[1] ^ self.value[2]
    }

    pub fn is_empty_context(&self) -> (b: bool)
        ensures
            b == !self@.is_bound(),
    {
        self.ctx.len() == 0
    }

    /// Binds the variable to `rhs_ctx` in place of its own contexts.
    pub fn copy_context(&mut self, rhs_ctx: Vec<IKosContext>)
        ensures
            final(self)@ == (ProverModel { value: old(self)@.value, ctx: contexts_view(rhs_ctx@) }),
    {
        self.ctx = rhs_ctx;
    }

    /// The contexts that a gate on `self` and `rhs` works on, taken out of
    /// `self` together with its shares.
    fn into_gate(self, rhs: &IKosVariable4P) -> (r: (Vec<u32>, Vec<IKosContext>))
        ensures
            r.0@ == self@.value,
            contexts_view(r.1@) == inherit(self@.ctx, rhs@.ctx),
    {
        let mut this = self;
        if this.is_empty_context() {
            this.copy_context(clone_contexts(&rhs.ctx));
        }
        let IKosVariable4P { value, ctx } = this;
        (value, ctx)
    }

    /// NOT on each share.
    pub fn negate(self) -> (r: Self)
        requires
            self.wf(),
        ensures
            r.wf(),
            r@ == self@.negated(),
    {
        let IKosVariable4P { value, ctx } = self;
        let r = IKosVariable4P { value: vec![!value[0], !value[1], !value[2]], ctx };
        assert(r@ =~~= self@.negated());
        r
    }

    /// XOR of the shares of `self` with those of `rhs`.
    pub fn or(self, rhs: &IKosVariable4P) -> (r: Self)
        requires
            self.wf(),
            rhs.wf(),
        ensures
            r.wf(),
            r@ == self@.xored(rhs@),
    {
        let (value, ctx) = self.into_gate(rhs);
        let r = IKosVariable4P {
            value: vec![
                value[0] ^ rhs.value[0],
                value[1] ^ rhs.value[1],
                value[2] ^ rhs.value[2],
            ],
            ctx,
        };
        assert(r@ =~~= self@.xored(rhs@));
        r
    }

    /// Each share shifted right by `n` bits.
    pub fn rshift(self, n: u32) -> (r: Self)
        requires
            self.wf(),
            n < 32,
        ensures
            r.wf(),
            r@ == self@.shifted_right(n),
    {
        let IKosVariable4P { value, ctx } = self;
        let r = IKosVariable4P { value: vec![value[0] >> n, value[1] >> n, value[2] >> n], ctx };
        assert(r@ =~~= self@.shifted_right(n));
        r
    }

    /// Each share shifted left by `n` bits.
    pub fn lshift(self, n: u32) -> (r: Self)
        requires
            self.wf(),
            n < 32,
        ensures
            r.wf(),
            r@ == self@.shifted_left(n),
    {
        let IKosVariable4P { value, ctx } = self;
        let r = IKosVariable4P { value: vec![value[0] << n, value[1] << n, value[2] << n], ctx };
        assert(r@ =~~= self@.shifted_left(n));
        r
    }

    /// AND gate.
    pub fn bit_and(self, rhs: &IKosVariable4P) -> (r: IKosResult<Self>)
        requires
            self.wf(),
            rhs.wf(),
        ensures
            prover_agrees(r, self@.anded(rhs@)),
            r is Err <==> (self@.is_bound() || rhs@.is_bound()) && tape_exhausted(
                inherit(self@.ctx, rhs@.ctx),
            ),
    {
        if self.is_empty_context() && rhs.is_empty_context() {
            let IKosVariable4P { value, ctx } = self;
            let r = IKosVariable4P {
                value: vec![
                    value[0] & rhs.value[0],
                    value[1] & rhs.value[1],
                    value[2] & rhs.value[2],
                ],
                ctx,
            };
            assert(r@ =~~= (ProverModel { value: and_plain(self@.value, rhs@.value), ctx: self@.ctx }));
            return Ok(r);
        }
        let ghost c = inherit(self@.ctx, rhs@.ctx);
        let (value, ctx) = self.into_gate(rhs);
        let (mut c0, mut c1, mut c2) = split_contexts(ctx);
        let (r0, r1, r2) = match draw_three(&mut c0, &mut c1, &mut c2) {
            Ok(w) => w,
            Err(e) => {
                return Err(e);
            },
        };
        let out0 = and_output(value[0], value[1], rhs.value[0], rhs.value[1], r0, r1);
        let out1 = and_output(value[1], value[2], rhs.value[1], rhs.value[2], r1, r2);
        let out2 = and_output(value[2], value[0], rhs.value[2], rhs.value[0], r2, r0);
        c0.record(out0);
        c1.record(out1);
        c2.record(out2);
        let r = IKosVariable4P { value: vec![out0, out1, out2], ctx: join_contexts(c0, c1, c2) };
        proof {
            let out = and_shares(self@.value, rhs@.value, drawn_words(c));
            assert(seq![out0, out1, out2] =~= out);
            assert(r@ =~~= (ProverModel { value: out, ctx: after_gate(c, out) }));
        }
        Ok(r)
    }

    /// OR gate.
    pub fn bit_or(self, rhs: &IKosVariable4P) -> (r: IKosResult<Self>)
        requires
            self.wf(),
            rhs.wf(),
        ensures
            prover_agrees(r, self@.ored(rhs@)),
            r is Err <==> (self@.is_bound() || rhs@.is_bound()) && tape_exhausted(
                inherit(self@.ctx, rhs@.ctx),
            ),
    {
        let x0 = self.value[0];
        let x1 = self.value[1];
        let x2 = self.value[2];
        let both = match self.bit_and(rhs) {
            Ok(v) => v,
            Err(e) => {
                return Err(e);
            },
        };
        let IKosVariable4P { value, ctx } = both;
        let r = IKosVariable4P {
            value: vec![
                x0 ^ rhs.value[0] ^ value[0],
                x1 ^ rhs.value[1] ^ value[1],
                x2 ^ rhs.value[2] ^ value[2],
            ],
            ctx,
        };
        assert(r@ =~~= (ProverModel {
            value: xor3_shares(self@.value, rhs@.value, both@.value),
            ctx: both@.ctx,
        }));
        Ok(r)
    }

    /// ADD gate.
    pub fn add(self, rhs: &IKosVariable4P) -> (r: IKosResult<Self>)
        requires
            self.wf(),
            rhs.wf(),
        ensures
            prover_agrees(r, self@.added(rhs@)),
            r is Err <==> (self@.is_bound() || rhs@.is_bound()) && tape_exhausted(
                inherit(self@.ctx, rhs@.ctx),
            ),
    {
        if self.is_empty_context() && rhs.is_empty_context() {
            let IKosVariable4P { value, ctx } = self;
            let r = IKosVariable4P {
                value: vec![
                    add_wrapping(value[0], rhs.value[0]),
                    add_wrapping(value[1], rhs.value[1]),
                    add_wrapping(value[2], rhs.value[2]),
                ],
                ctx,
            };
            assert(r@ =~~= (ProverModel { value: add_plain(self@.value, rhs@.value), ctx: self@.ctx }));
            return Ok(r);
        }
        let ghost c = inherit(self@.ctx, rhs@.ctx);
        let (value, ctx) = self.into_gate(rhs);
        let (mut c0, mut c1, mut c2) = split_contexts(ctx);
        let (t0, t1, t2) = match draw_three(&mut c0, &mut c1, &mut c2) {
            Ok(w) => w,
            Err(e) => {
                return Err(e);
            },
        };
        let (k0, k1, k2) = add_carry_words(
            value[0],
            value[1],
            value[2],
            rhs.value[0],
            rhs.value[1],
            rhs.value[2],
            t0,
            t1,
            t2,
        );
        c0.record(k0);
        c1.record(k1);
        c2.record(k2);
        let r = IKosVariable4P {
            value: vec![
                value[0] ^ rhs.value[0] ^ k0,
                value[1] ^ rhs.value[1] ^ k1,
                value[2] ^ rhs.value[2] ^ k2,
            ],
            ctx: join_contexts(c0, c1, c2),
        };
        proof {
            assert(seq![value[0], value[1], value[2]] =~= self@.value);
            assert(seq![rhs.value[0], rhs.value[1], rhs.value[2]] =~= rhs@.value);
            assert(seq![t0, t1, t2] =~= drawn_words(c));
            let k = add_carries(self@.value, rhs@.value, drawn_words(c));
            assert(seq![k0, k1, k2] == k);
            assert(k[0] == k0 && k[1] == k1 && k[2] == k2);
            assert(r@ =~~= (ProverModel {
                value: xor3_shares(self@.value, rhs@.value, k),
                ctx: after_gate(c, k),
            }));
        }
        Ok(r)
    }
}

} // verus!

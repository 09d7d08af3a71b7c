//! A party's context: its view, its pre-generated randomness, a cursor into
//! the randomness and, for replay, a cursor into the outputs of the view.

use vstd::prelude::*;
use crate::digest::{build_commit_message, commitment, is_lower_hex, max_message_len, sha256_hex_digest};
use crate::error::{IKosError, IKosErrorKind, IKosResult};
use crate::tape::{generate_all_randomness, tape_words, zero_bytes, zero_words};
use crate::view::{IKosView, ViewModel};

verus! {

/// What a context holds.
#[verifier::ext_equal]
pub struct ContextModel {
    pub view: ViewModel,
    pub randomness: Seq<u32>,
    pub used_rand_ctr: nat,
    pub out_view_ctr32: nat,
    pub is_verify_mode: bool,
}

impl ContextModel {
    /// The view is well formed and the randomness cursor is inside the tape
    /// or at its end.
    pub open spec fn wf(self) -> bool {
        self.view.wf() && self.used_rand_ctr <= self.randomness.len()
    }

    /// No random word is left.
    pub open spec fn exhausted(self) -> bool {
        self.used_rand_ctr >= self.randomness.len()
    }

    /// The random word under the cursor.
    pub open spec fn next_word(self) -> u32 {
        self.randomness[self.used_rand_ctr as int]
    }

    /// The context after one random word was drawn.
    pub open spec fn drawn(self) -> ContextModel {
        ContextModel { used_rand_ctr: self.used_rand_ctr + 1, ..self }
    }

    /// The context after `w` was appended to the outputs of its view.
    pub open spec fn recorded(self, w: u32) -> ContextModel {
        ContextModel { view: self.view.recorded(w), ..self }
    }

    /// The replay cursor stands on an output of the view.
    pub open spec fn replay_ready(self) -> bool {
        self.out_view_ctr32 < self.view.out_data32.len()
    }

    /// The output under the replay cursor.
    pub open spec fn replay_word(self) -> u32 {
        self.view.out_data32[self.out_view_ctr32 as int]
    }

    /// The replay cursor has reached the largest value it can hold.
    pub open spec fn replay_stuck(self) -> bool {
        self.out_view_ctr32 >= usize::MAX
    }

    /// The context after the replay cursor moved on by one.
    pub open spec fn replayed(self) -> ContextModel {
        ContextModel { out_view_ctr32: self.out_view_ctr32 + 1, ..self }
    }

    /// The replay cursor is inside the outputs of the view or at their end.
    pub open spec fn replay_in_range(self) -> bool {
        self.out_view_ctr32 <= self.view.out_data32.len()
    }
}

#[derive(Debug, PartialEq)]
pub struct IKosContext {
    ikos_view: IKosView,
    randomness: Vec<u32>,
    used_rand_ctr: usize,
    out_view_ctr32: usize,
    is_verify_mode: bool,
}

impl View for IKosContext {
    type V = ContextModel;

    closed spec fn view(&self) -> ContextModel {
        ContextModel {
            view: self.ikos_view@,
            randomness: self.randomness@,
            used_rand_ctr: self.used_rand_ctr as nat,
            out_view_ctr32: self.out_view_ctr32 as nat,
            is_verify_mode: self.is_verify_mode,
        }
    }
}

impl Clone for IKosContext {
    fn clone(&self) -> (r: Self)
        ensures
            r@ == self@,
    {
        IKosContext {
            ikos_view: self.ikos_view.clone(),
            randomness: self.randomness.clone(),
            used_rand_ctr: self.used_rand_ctr,
            out_view_ctr32: self.out_view_ctr32,
            is_verify_mode: self.is_verify_mode,
        }
    }
}

impl IKosContext {
    pub open spec fn wf(&self) -> bool {
        self@.wf()
    }

    /// A context at its start, with a fresh view and the randomness of a
    /// tape of `rand_tape_len` bytes.
    pub fn new(rand_tape_len: usize, is_verify_mode: bool) -> (c: Self)
        requires
            rand_tape_len * 8 <= usize::MAX,
        ensures
            c.wf(),
            c@ == (ContextModel {
                view: ViewModel {
                    rand_tape_seed: zero_bytes(16),
                    in_data: Seq::empty(),
                    out_data32: Seq::empty(),
                },
                randomness: zero_words(tape_words((rand_tape_len * 8) as nat)),
                used_rand_ctr: 0,
                out_view_ctr32: 0,
                is_verify_mode,
            }),
    {
        IKosContext {
            ikos_view: IKosView::new(),
            randomness: generate_all_randomness(rand_tape_len * 8),
            used_rand_ctr: 0,
            out_view_ctr32: 0,
            is_verify_mode,
        }
    }

    /// A context at its start, with the given view and randomness.
    pub fn from_parts(ikos_view: IKosView, randomness: Vec<u32>, is_verify_mode: bool) -> (c: Self)
        requires
            ikos_view.wf(),
        ensures
            c.wf(),
            c@ == (ContextModel {
                view: ikos_view@,
                randomness: randomness@,
                used_rand_ctr: 0,
                out_view_ctr32: 0,
                is_verify_mode,
            }),
    {
        IKosContext { ikos_view, randomness, used_rand_ctr: 0, out_view_ctr32: 0, is_verify_mode }
    }

    pub fn ikos_view(&self) -> (v: &IKosView)
        ensures
            v@ == self@.view,
    {
        &self.ikos_view
    }

    pub fn randomness(&self) -> (tape: &Vec<u32>)
        ensures
            tape@ == self@.randomness,
    {
        &self.randomness
    }

    pub fn used_rand_ctr(&self) -> (n: usize)
        ensures
            n == self@.used_rand_ctr,
    {
        self.used_rand_ctr
    }

    pub fn out_view_ctr32(&self) -> (n: usize)
        ensures
            n == self@.out_view_ctr32,
    {
        self.out_view_ctr32
    }

    pub fn is_verify_mode(&self) -> (b: bool)
        ensures
            b == self@.is_verify_mode,
    {
        self.is_verify_mode
    }

    /// The number of outputs in the view.
    pub fn out_len(&self) -> (n: usize)
        ensures
            n == self@.view.out_data32.len(),
    {
        self.ikos_view.out_data32().len()
    }

    /// The commitment to the view: the digest of its seed and outputs. The
    /// inputs, the randomness and the cursors have no part in it.
    pub fn commit_ikos_context(&self) -> (digest: Vec<u8>)
        requires
            self.wf(),
            16 + 4 * self@.view.out_data32.len() <= max_message_len(),
        ensures
            digest@ == commitment(self@.view.rand_tape_seed, self@.view.out_data32),
            digest@.len() == 64,
            forall|i: int| 0 <= i < 64 ==> is_lower_hex(#[trigger] digest@[i]),
    {
        let message = build_commit_message(
            self.ikos_view.rand_tape_seed(),
            self.ikos_view.out_data32(),
        );
        sha256_hex_digest(&message)
    }

    /// Appends `w` to the outputs of the view.
    pub fn record(&mut self, w: u32)
        ensures
            final(self)@ == old(self)@.recorded(w),
    {
        self.ikos_view.record(w);
    }

    /// The output under the replay cursor, if there is one.
    pub fn replay_word(&self) -> (w: Option<u32>)
        ensures
            w is Some <==> self@.replay_ready(),
            w matches Some(word) ==> word == self@.replay_word(),
    {
        let out = self.ikos_view.out_data32();
        if self.out_view_ctr32 < out.len() {
            Some(out[self.out_view_ctr32])
        } else {
            None
        }
    }

    /// Moves the replay cursor on by one; `false`, and nothing changed, when
    /// the cursor cannot hold the next value.
    pub fn advance_replay(&mut self) -> (moved: bool)
        ensures
            moved == !old(self)@.replay_stuck(),
            moved ==> final(self)@ == old(self)@.replayed(),
            !moved ==> final(self)@ == old(self)@,
    {
        if self.out_view_ctr32 < usize::MAX {
            self.out_view_ctr32 = self.out_view_ctr32 + 1;
            true
        } else {
            false
        }
    }
}

/// Draws the next random word of `ctx`. This is the one place where
/// randomness is consumed.
pub fn get_next_random_from_context(ctx: &mut IKosContext) -> (r: IKosResult<u32>)
    requires
        old(ctx).wf(),
    ensures
        r is Err <==> old(ctx)@.exhausted(),
        r matches Ok(w) ==> w == old(ctx)@.next_word() && final(ctx)@ == old(ctx)@.drawn(),
        r matches Err(e) ==> e.is_kind(IKosErrorKind::RandomnessExhausted) && final(ctx)@ == old(
            ctx,
        )@,
        final(ctx).wf(),
{
    if ctx.randomness.len() <= ctx.used_rand_ctr {
        return Err(IKosError::new(IKosErrorKind::RandomnessExhausted));
    }
    let rand = ctx.randomness[ctx.used_rand_ctr];
    ctx.used_rand_ctr = ctx.used_rand_ctr + 1;
    Ok(rand)
}

/// The models of a run of contexts.
pub open spec fn contexts_view(ctx: Seq<IKosContext>) -> Seq<ContextModel> {
    Seq::new(ctx.len(), |i: int| ctx[i]@)
}

/// A variable holds no context, or one for each of the three parties, each
/// well formed.
pub open spec fn contexts_wf(ctx: Seq<ContextModel>) -> bool {
    (ctx.len() == 0 || ctx.len() == 3) && forall|i: int|
        0 <= i < ctx.len() ==> (#[trigger] ctx[i]).wf()
}

/// The contexts that a gate works on: those of its left operand, or those of
/// its right operand where the left one has none.
pub open spec fn inherit(own: Seq<ContextModel>, other: Seq<ContextModel>) -> Seq<ContextModel> {
    if own.len() == 0 {
        other
    } else {
        own
    }
}

/// A copy of each context.
pub fn clone_contexts(ctx: &Vec<IKosContext>) -> (r: Vec<IKosContext>)
    ensures
        contexts_view(r@) == contexts_view(ctx@),
{
    let mut r: Vec<IKosContext> = Vec::new();
    let mut i: usize = 0;
    while i < ctx.len()
        invariant
            i <= ctx.len(),
            r@.len() == i,
            contexts_view(r@) == contexts_view(ctx@.subrange(0, i as int)),
        decreases ctx.len() - i,
    {
        let ghost before = r@;
        let c = ctx[i].clone();
        r.push(c);
        i += 1;
        assert forall|j: int| 0 <= j < i implies contexts_view(r@)[j] == contexts_view(
            ctx@.subrange(0, i as int),
        )[j] by {
            if j < i - 1 {
                assert(contexts_view(before)[j] == contexts_view(ctx@.subrange(0, i - 1))[j]);
            }
        }
        assert(contexts_view(r@) =~= contexts_view(ctx@.subrange(0, i as int)));
    }
    assert(ctx@.subrange(0, i as int) =~= ctx@);
    r
}

/// The three contexts of a bound variable, taken out of their vector.
pub fn split_contexts(ctx: Vec<IKosContext>) -> (c: (IKosContext, IKosContext, IKosContext))
    requires
        ctx@.len() == 3,
    ensures
        seq![c.0@, c.1@, c.2@] == contexts_view(ctx@),
{
    let mut ctx = ctx;
    let ghost before = ctx@;
    let c2 = ctx.pop().unwrap();
    let c1 = ctx.pop().unwrap();
    let c0 = ctx.pop().unwrap();
    assert(seq![c0@, c1@, c2@] =~= contexts_view(before));
    (c0, c1, c2)
}

/// The vector of the three contexts of a bound variable.
pub fn join_contexts(c0: IKosContext, c1: IKosContext, c2: IKosContext) -> (ctx: Vec<IKosContext>)
    ensures
        contexts_view(ctx@) == seq![c0@, c1@, c2@],
{
    let mut ctx: Vec<IKosContext> = Vec::new();
    ctx.push(c0);
    ctx.push(c1);
    ctx.push(c2);
    assert(contexts_view(ctx@) =~= seq![c0@, c1@, c2@]);
    ctx
}

} // verus!

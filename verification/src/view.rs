//! A party's view: the seed of its random tape, its inputs, and the words it
//! put out, one for each non-linear gate.

use vstd::prelude::*;
use crate::tape::{generate_random, zero_bytes, SEED_LEN};

verus! {

/// What a view holds.
#[verifier::ext_equal]
pub struct ViewModel {
    pub rand_tape_seed: Seq<u8>,
    pub in_data: Seq<u8>,
    pub out_data32: Seq<u32>,
}

impl ViewModel {
    /// A seed has exactly 16 bytes.
    pub open spec fn wf(self) -> bool {
        self.rand_tape_seed.len() == 16
    }

    /// The view with `w` appended to its outputs.
    pub open spec fn recorded(self, w: u32) -> ViewModel {
        ViewModel { out_data32: self.out_data32.push(w), ..self }
    }
}

#[derive(Debug, PartialEq)]
pub struct IKosView {
    rand_tape_seed: Vec<u8>,
    in_data: Vec<u8>,
    out_data32: Vec<u32>,
}

impl View for IKosView {
    type V = ViewModel;

    closed spec fn view(&self) -> ViewModel {
        ViewModel {
            rand_tape_seed: self.rand_tape_seed@,
            in_data: self.in_data@,
            out_data32: self.out_data32@,
        }
    }
}

impl Clone for IKosView {
    fn clone(&self) -> (r: Self)
        ensures
            r@ == self@,
    {
        IKosView {
            rand_tape_seed: self.rand_tape_seed.clone(),
            in_data: self.in_data.clone(),
            out_data32: self.out_data32.clone(),
        }
    }
}

impl IKosView {
    pub open spec fn wf(&self) -> bool {
        self@.wf()
    }

    /// A view with a fresh seed, no inputs and no outputs.
    pub fn new() -> (v: Self)
        ensures
            v.wf(),
            v@ == (ViewModel {
                rand_tape_seed: zero_bytes(16),
                in_data: Seq::empty(),
                out_data32: Seq::empty(),
            }),
    {
        IKosView {
            rand_tape_seed: generate_random(SEED_LEN),
            in_data: Vec::new(),
            out_data32: Vec::new(),
        }
    }

    /// The view with the given seed, inputs and outputs, as a verifier
    /// receives it; `None` when the seed does not have 16 bytes.
    pub fn from_parts(rand_tape_seed: Vec<u8>, in_data: Vec<u8>, out_data32: Vec<u32>) -> (v:
        Option<Self>)
        ensures
            v is Some <==> rand_tape_seed@.len() == 16,
            v matches Some(view) ==> view.wf() && view@ == (ViewModel {
                rand_tape_seed: rand_tape_seed@,
                in_data: in_data@,
                out_data32: out_data32@,
            }),
    {
        if rand_tape_seed.len() == SEED_LEN {
            Some(IKosView { rand_tape_seed, in_data, out_data32 })
        } else {
            None
        }
    }

    pub fn rand_tape_seed(&self) -> (seed: &Vec<u8>)
        ensures
            seed@ == self@.rand_tape_seed,
    {
        &self.rand_tape_seed
    }

    pub fn in_data(&self) -> (data: &Vec<u8>)
        ensures
            data@ == self@.in_data,
    {
        &self.in_data
    }

    pub fn out_data32(&self) -> (out: &Vec<u32>)
        ensures
            out@ == self@.out_data32,
    {
        &self.out_data32
    }

    /// Replaces the committed inputs.
    pub fn set_in_data(&mut self, in_data: Vec<u8>)
        ensures
            final(self)@ == (ViewModel { in_data: in_data@, ..old(self)@ }),
    {
        self.in_data = in_data;
    }

    /// Appends `w` to the outputs.
    pub fn record(&mut self, w: u32)
        ensures
            final(self)@ == old(self)@.recorded(w),
    {
        self.out_data32.push(w);
    }
}

} // verus!

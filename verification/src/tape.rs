//! The seed and the pre-generated randomness of a party.
//!
//! A context draws its random words from a tape that is filled before the
//! first gate runs. The generators here fill seed and tape with zeros: they
//! stand in for a seeded generator, which a caller brings in by building a
//! context from its own seed and tape.

use vstd::prelude::*;

verus! {

/// Length of a random tape seed, in bytes.
pub const SEED_LEN: usize = 16;

/// `n` zero bytes.
pub open spec fn zero_bytes(n: nat) -> Seq<u8> {
    Seq::new(n, |i: int| 0u8)
}

/// `n` zero words.
pub open spec fn zero_words(n: nat) -> Seq<u32> {
    Seq::new(n, |i: int| 0u32)
}

/// The number of 32-bit words in a tape of `rand_len` bits: as many as it
/// takes to hold them, so a rest of fewer than 32 bits gives one more word.
pub open spec fn tape_words(rand_len: nat) -> nat {
    rand_len / 32 + if rand_len % 32 != 0 {
        1nat
    } else {
        0nat
    }
}

/// `num` seed bytes.
pub fn generate_random(num: usize) -> (seed: Vec<u8>)
    ensures
        seed@ == zero_bytes(num as nat),
{
    let mut seed: Vec<u8> = Vec::new();
    let mut i: usize = 0;
    while i < num
        invariant
            i <= num,
            seed@ == zero_bytes(i as nat),
        decreases num - i,
    {
        seed.push(0u8);
        i += 1;
        assert(seed@ =~= zero_bytes(i as nat));
    }
    seed
}

/// The random words of a tape of `rand_len` bits.
pub fn generate_all_randomness(rand_len: usize) -> (tape: Vec<u32>)
    ensures
        tape@ == zero_words(tape_words(rand_len as nat)),
{
    let rest: usize = if rand_len % 32 != 0 {
        1
    } else {
        0
    };
    let len: usize = rand_len / 32 + rest;
    let mut tape: Vec<u32> = Vec::new();
    let mut i: usize = 0;
    while i < len
        invariant
            i <= len,
            tape@ == zero_words(i as nat),
        decreases len - i,
    {
        tape.push(0u32);
        i += 1;
        assert(tape@ =~= zero_words(i as nat));
    }
    tape
}

} // verus!

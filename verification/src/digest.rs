//! The digest that commits a party to its view.

use vstd::prelude::*;
use crypto::digest::Digest;
use crypto::sha2::Sha256;

verus! {

/// The SHA-256 digest of `message`, as the ASCII bytes of its 64 lower-case
/// hexadecimal digits.
pub uninterp spec fn sha256_hex(message: Seq<u8>) -> Seq<u8>;

/// One of the ASCII characters `0` to `9` and `a` to `f`.
pub open spec fn is_lower_hex(b: u8) -> bool {
    (0x30 <= b && b <= 0x39) || (0x61 <= b && b <= 0x66)
}

/// The most bytes that the digest takes: it counts its input in bits, in 64 bits.
pub open spec fn max_message_len() -> nat {
    0x1fff_ffff_ffff_ffff
}

/// Byte `j` of `w`, counted from the least significant one.
pub open spec fn le_byte(w: u32, j: int) -> u8 {
    if j == 0 {
        (w & 0xff) as u8
    } else if j == 1 {
        ((w >> 8) & 0xff) as u8
    } else if j == 2 {
        ((w >> 16) & 0xff) as u8
    } else {
        ((w >> 24) & 0xff) as u8
    }
}

/// The words of `ws` in order, each as its four bytes, least significant first.
pub open spec fn words_le_bytes(ws: Seq<u32>) -> Seq<u8> {
    Seq::new(4 * ws.len(), |i: int| le_byte(ws[i / 4], i % 4))
}

/// What is hashed to commit to a view: the seed, then the recorded outputs.
pub open spec fn commit_message(seed: Seq<u8>, out_data32: Seq<u32>) -> Seq<u8> {
    seed + words_le_bytes(out_data32)
}

/// The commitment to a view with the given seed and recorded outputs.
pub open spec fn commitment(seed: Seq<u8>, out_data32: Seq<u32>) -> Seq<u8> {
    sha256_hex(commit_message(seed, out_data32))
}

/// Hashes `message` with `crypto::sha2::Sha256`: one `input` of the whole
/// message, then `result_str`, whose bytes are returned. Trusted: the result
/// is the digest named `sha256_hex`, and `result_str` writes the 32 digest
/// bytes as two lower-case hexadecimal digits each. `input` panics on a
/// message of 2^61 bytes or more, which the precondition leaves out.
#[verifier::external_body]
pub(crate) fn sha256_hex_digest(message: &Vec<u8>) -> (digest: Vec<u8>)
    requires
        message@.len() <= max_message_len(),
    ensures
        digest@ == sha256_hex(message@),
        digest@.len() == 64,
        forall|i: int| 0 <= i < 64 ==> is_lower_hex(#[trigger] digest@[i]),
{
    let mut sha = Sha256::new();
    sha.input(message.as_slice());
    sha.result_str().into_bytes()
}

/// The four bytes of `w`, least significant first, appended to `bytes`.
fn push_word_le(bytes: &mut Vec<u8>, w: u32)
    ensures
        final(bytes)@ == old(bytes)@ + seq![le_byte(w, 0), le_byte(w, 1), le_byte(w, 2), le_byte(w, 3)],
{
    assert(w & 0xff <= 0xff && (w >> 8) & 0xff <= 0xff && (w >> 16) & 0xff <= 0xff && (w >> 24)
        & 0xff <= 0xff) by (bit_vector);
    bytes.push((w & 0xff) as u8);
    bytes.push(((w >> 8) & 0xff) as u8);
    bytes.push(((w >> 16) & 0xff) as u8);
    bytes.push(((w >> 24) & 0xff) as u8);
    assert(bytes@ =~= old(bytes)@ + seq![
        le_byte(w, 0),
        le_byte(w, 1),
        le_byte(w, 2),
        le_byte(w, 3),
    ]);
}

/// The message that commits to `seed` and `out_data32`.
pub fn build_commit_message(seed: &Vec<u8>, out_data32: &Vec<u32>) -> (message: Vec<u8>)
    ensures
        message@ == commit_message(seed@, out_data32@),
        message@.len() == seed@.len() + 4 * out_data32@.len(),
{
    let mut message: Vec<u8> = Vec::new();
    let mut i: usize = 0;
    while i < seed.len()
        invariant
            i <= seed.len(),
            message@ == seed@.subrange(0, i as int),
        decreases seed.len() - i,
    {
        message.push(seed[i]);
        i += 1;
        assert(message@ =~= seed@.subrange(0, i as int));
    }
    assert(message@ =~= seed@ + words_le_bytes(out_data32@.subrange(0, 0)));
    let mut k: usize = 0;
    while k < out_data32.len()
        invariant
            k <= out_data32.len(),
            message@ == seed@ + words_le_bytes(out_data32@.subrange(0, k as int)),
        decreases out_data32.len() - k,
    {
        push_word_le(&mut message, out_data32[k]);
        k += 1;
        assert(message@ =~= seed@ + words_le_bytes(out_data32@.subrange(0, k as int))) by {
            let before = out_data32@.subrange(0, k - 1);
            let after = out_data32@.subrange(0, k as int);
            assert forall|i: int| 0 <= i < 4 * (k - 1) implies words_le_bytes(before)[i]
                == words_le_bytes(after)[i] by {
                assert(before[i / 4] == after[i / 4]);
            }
        }
    }
    assert(out_data32@.subrange(0, k as int) =~= out_data32@);
    message
}

} // verus!

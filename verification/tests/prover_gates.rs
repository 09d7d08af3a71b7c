use ikos::context::IKosContext;
use ikos::error::IKosErrorKind;
use ikos::prover_var::IKosVariable4P;
use ikos::view::IKosView;

const X: [u32; 3] = [0x12345678, 0x9abcdef0, 0x0f1e2d3c];
const Y: [u32; 3] = [0xdeadbeef, 0x00c0ffee, 0x8badf00d];
const T1: [u32; 3] = [0x11111111, 0x22222222, 0x33333333];
const T2: [u32; 3] = [0xa5a5a5a5, 0x5a5a5a5a, 0x0ff0f00f];

fn zero_contexts(words: usize) -> Vec<IKosContext> {
    vec![
        IKosContext::new(words * 4, false),
        IKosContext::new(words * 4, false),
        IKosContext::new(words * 4, false),
    ]
}

fn context_with_tape(party: u8, tape: Vec<u32>) -> IKosContext {
    let view = IKosView::from_parts(vec![party; 16], vec![], vec![]).unwrap();
    IKosContext::from_parts(view, tape, false)
}

fn taped_contexts() -> Vec<IKosContext> {
    vec![
        context_with_tape(0, vec![T1[0], T2[0]]),
        context_with_tape(1, vec![T1[1], T2[1]]),
        context_with_tape(2, vec![T1[2], T2[2]]),
    ]
}

fn outputs(v: &IKosVariable4P, party: usize) -> Vec<u32> {
    v.contexts()[party].ikos_view().out_data32().clone()
}

#[test]
fn new_is_the_public_zero() {
    let v = IKosVariable4P::new();
    assert_eq!(v.value(), &vec![0, 0, 0]);
    assert!(v.contexts().is_empty());
    assert!(v.is_empty_context());
    assert_eq!(v.clear(), 0);
}

#[test]
fn new_value_broadcasts_the_word() {
    let v = IKosVariable4P::new_value(0xCAFEBABE);
    assert_eq!(v.value(), &vec![0xCAFEBABE, 0xCAFEBABE, 0xCAFEBABE]);
    assert!(v.is_empty_context());
    assert_eq!(v.clear(), 0xCAFEBABE);
}

#[test]
fn new_share_keeps_shares_and_contexts() {
    let v = IKosVariable4P::new_share(X.to_vec(), taped_contexts());
    assert_eq!(v.value(), &X.to_vec());
    assert_eq!(v.contexts().len(), 3);
    assert!(!v.is_empty_context());
    assert_eq!(v.clear(), X[0] ^ X[1] ^ X[2]);
    assert_eq!(v.contexts()[1].randomness(), &vec![T1[1], T2[1]]);
}

#[test]
fn copy_context_rebinds_the_variable() {
    let mut v = IKosVariable4P::new_value(7);
    v.copy_context(zero_contexts(1));
    assert_eq!(v.contexts().len(), 3);
    assert_eq!(v.value(), &vec![7, 7, 7]);
}

#[test]
fn xor_of_a_constant_with_itself_is_zero() {
    let x = IKosVariable4P::new_value(0xDEADBEEF);
    let y = IKosVariable4P::new_value(0xDEADBEEF);
    let z = x.or(&y);
    assert_eq!(z.clear(), 0);
    assert_eq!(z.value(), &vec![0, 0, 0]);
    assert!(z.contexts().is_empty());
}

#[test]
fn xor_of_bound_words_records_nothing() {
    let x = IKosVariable4P::new_share(X.to_vec(), taped_contexts());
    let y = IKosVariable4P::new_share(X.to_vec(), taped_contexts());
    let z = x.or(&y);
    assert_eq!(z.clear(), 0);
    for party in 0..3 {
        assert!(outputs(&z, party).is_empty());
        assert_eq!(z.contexts()[party].used_rand_ctr(), 0);
    }
}

#[test]
fn linear_gates_work_share_by_share() {
    let x = IKosVariable4P::new_share(X.to_vec(), taped_contexts());
    let y = IKosVariable4P::new_share(Y.to_vec(), vec![]);
    let n = x.clone().negate();
    assert_eq!(n.value(), &vec![!X[0], !X[1], !X[2]]);
    assert_eq!(n.clear(), !(X[0] ^ X[1] ^ X[2]));
    let z = x.clone().or(&y);
    assert_eq!(z.value(), &vec![X[0] ^ Y[0], X[1] ^ Y[1], X[2] ^ Y[2]]);
    let l = x.clone().lshift(5);
    assert_eq!(l.value(), &vec![X[0] << 5, X[1] << 5, X[2] << 5]);
    assert_eq!(l.clear(), (X[0] ^ X[1] ^ X[2]) << 5);
    let r = x.clone().rshift(9);
    assert_eq!(r.value(), &vec![X[0] >> 9, X[1] >> 9, X[2] >> 9]);
    assert_eq!(r.clear(), (X[0] ^ X[1] ^ X[2]) >> 9);
    for v in [&n, &z, &l, &r] {
        for party in 0..3 {
            assert!(outputs(v, party).is_empty());
            assert_eq!(v.contexts()[party].used_rand_ctr(), 0);
        }
    }
}

#[test]
fn shifts_by_zero_and_by_thirty_one() {
    let x = IKosVariable4P::new_value(0x8000_0001);
    assert_eq!(x.clone().lshift(0).value(), &vec![0x8000_0001; 3]);
    assert_eq!(x.clone().rshift(0).value(), &vec![0x8000_0001; 3]);
    assert_eq!(x.clone().lshift(31).value(), &vec![0x8000_0000; 3]);
    assert_eq!(x.rshift(31).value(), &vec![1; 3]);
}

#[test]
fn unbound_operand_inherits_the_contexts_of_the_other() {
    let x = IKosVariable4P::new_value(3);
    let y = IKosVariable4P::new_share(Y.to_vec(), taped_contexts());
    let z = x.or(&y);
    assert_eq!(z.contexts().len(), 3);
    assert_eq!(z.contexts()[2].randomness(), &vec![T1[2], T2[2]]);
    assert_eq!(z.contexts()[0].ikos_view().rand_tape_seed(), &vec![0u8; 16]);
    assert_eq!(z.contexts()[1].ikos_view().rand_tape_seed(), &vec![1u8; 16]);
}

#[test]
fn negate_twice_is_the_identity() {
    let x = IKosVariable4P::new_share(X.to_vec(), taped_contexts());
    assert_eq!(x.clone().negate().negate(), x);
}

#[test]
fn shift_round_trips_mask_bits() {
    let x = IKosVariable4P::new_share(X.to_vec(), vec![]);
    let low = x.clone().rshift(7).lshift(7);
    assert_eq!(low.value(), &vec![X[0] & !0x7f, X[1] & !0x7f, X[2] & !0x7f]);
    let high = x.lshift(7).rshift(7);
    assert_eq!(high.value(), &vec![X[0] & 0x01ff_ffff, X[1] & 0x01ff_ffff, X[2] & 0x01ff_ffff]);
}

#[test]
fn and_of_bound_shares_on_a_zero_tape() {
    let x = IKosVariable4P::new_share(vec![1, 0, 0], zero_contexts(4));
    let y = IKosVariable4P::new_share(vec![1, 0, 0], zero_contexts(4));
    let z = x.bit_and(&y).unwrap();
    assert_eq!(z.value(), &vec![1, 0, 0]);
    assert_eq!(z.clear(), 1);
    assert_eq!(outputs(&z, 0), vec![1]);
    assert_eq!(outputs(&z, 1), vec![0]);
    assert_eq!(outputs(&z, 2), vec![0]);
    for party in 0..3 {
        assert_eq!(z.contexts()[party].used_rand_ctr(), 1);
    }
}

#[test]
fn add_one_plus_one_on_a_zero_tape() {
    let x = IKosVariable4P::new_share(vec![1, 1, 1], zero_contexts(4));
    let y = IKosVariable4P::new_share(vec![1, 1, 1], zero_contexts(4));
    let z = x.add(&y).unwrap();
    assert_eq!(z.clear(), 2);
    assert_eq!(z.value(), &vec![2, 2, 2]);
    for party in 0..3 {
        assert_eq!(outputs(&z, party), vec![2]);
        assert_eq!(z.contexts()[party].used_rand_ctr(), 1);
    }
    assert_eq!((outputs(&z, 0)[0] >> 1) & 1, 1);
}

#[test]
fn and_with_random_tapes_gives_the_exact_shares() {
    let x = IKosVariable4P::new_share(X.to_vec(), taped_contexts());
    let y = IKosVariable4P::new_share(Y.to_vec(), vec![]);
    let z = x.bit_and(&y).unwrap();
    assert_eq!(z.value(), &vec![0xbbbbedd3, 0x9b3d32dd, 0x25067e0a]);
    assert_eq!(z.clear(), (X[0] ^ X[1] ^ X[2]) & (Y[0] ^ Y[1] ^ Y[2]));
    assert_eq!(outputs(&z, 0), vec![0xbbbbedd3]);
    assert_eq!(outputs(&z, 1), vec![0x9b3d32dd]);
    assert_eq!(outputs(&z, 2), vec![0x25067e0a]);
}

#[test]
fn add_with_random_tapes_gives_the_exact_shares_and_carries() {
    let x = IKosVariable4P::new_share(X.to_vec(), taped_contexts());
    let y = IKosVariable4P::new_share(Y.to_vec(), vec![]);
    let z = x.add(&y).unwrap();
    assert_eq!(z.value(), &vec![0x27a6310d, 0xa47dfc80, 0x5e8c9b4d]);
    assert_eq!(z.clear(), (X[0] ^ X[1] ^ X[2]).wrapping_add(Y[0] ^ Y[1] ^ Y[2]));
    assert_eq!(outputs(&z, 0), vec![0xeb3fd99a]);
    assert_eq!(outputs(&z, 1), vec![0x3e01dd9e]);
    assert_eq!(outputs(&z, 2), vec![0xda3f467c]);
}

#[test]
fn a_chain_of_gates_threads_the_contexts() {
    let x = IKosVariable4P::new_share(X.to_vec(), taped_contexts());
    let y = IKosVariable4P::new_share(Y.to_vec(), vec![]);
    let z = x.bit_and(&y).unwrap();
    let w = z.add(&y).unwrap();
    assert_eq!(w.value(), &vec![0x365b452e, 0x1f68f00b, 0x7272e735]);
    assert_eq!(w.clear(), 0x5b415210);
    assert_eq!(outputs(&w, 0), vec![0xbbbbedd3, 0x534d1612]);
    assert_eq!(outputs(&w, 1), vec![0x9b3d32dd, 0x84953d38]);
    assert_eq!(outputs(&w, 2), vec![0x25067e0a, 0xdcd96932]);
    for party in 0..3 {
        assert_eq!(w.contexts()[party].used_rand_ctr(), 2);
        assert_eq!(w.contexts()[party].out_view_ctr32(), 0);
    }
}

#[test]
fn or_gate_goes_through_the_and_gate() {
    let x = IKosVariable4P::new_share(X.to_vec(), taped_contexts());
    let y = IKosVariable4P::new_share(Y.to_vec(), vec![]);
    let z = x.bit_or(&y).unwrap();
    assert_eq!(z.clear(), (X[0] ^ X[1] ^ X[2]) | (Y[0] ^ Y[1] ^ Y[2]));
    assert_eq!(
        z.value(),
        &vec![
            X[0] ^ Y[0] ^ 0xbbbbedd3,
            X[1] ^ Y[1] ^ 0x9b3d32dd,
            X[2] ^ Y[2] ^ 0x25067e0a
        ]
    );
    for party in 0..3 {
        assert_eq!(outputs(&z, party).len(), 1);
        assert_eq!(z.contexts()[party].used_rand_ctr(), 1);
    }
}

#[test]
fn carry_words_have_bit_zero_clear() {
    let x = IKosVariable4P::new_share(vec![0xffff_ffff, 0x5555_5555, 1], taped_contexts());
    let y = IKosVariable4P::new_share(vec![1, 0xaaaa_aaab, 0xffff_ffff], vec![]);
    let z = x.add(&y).unwrap();
    for party in 0..3 {
        assert_eq!(outputs(&z, party)[0] & 1, 0);
    }
    assert_eq!(
        z.clear(),
        (0xffff_ffffu32 ^ 0x5555_5555 ^ 1).wrapping_add(1 ^ 0xaaaa_aaab ^ 0xffff_ffff)
    );
}

#[test]
fn public_operands_take_the_plain_operation() {
    let x = IKosVariable4P::new_value(0xffff_fff0);
    let y = IKosVariable4P::new_value(0x0000_0035);
    let a = x.clone().bit_and(&y).unwrap();
    assert_eq!(a.value(), &vec![0x30; 3]);
    assert!(a.contexts().is_empty());
    let o = x.clone().bit_or(&y).unwrap();
    assert_eq!(o.value(), &vec![0xffff_fff5; 3]);
    assert!(o.contexts().is_empty());
    let s = x.add(&y).unwrap();
    assert_eq!(s.value(), &vec![0x25; 3]);
    assert!(s.contexts().is_empty());
    assert_eq!(s.clear(), 0x25);
}

#[test]
fn neutral_constants_keep_the_word() {
    let word = X[0] ^ X[1] ^ X[2];
    let x = IKosVariable4P::new_share(X.to_vec(), taped_contexts());
    let zero = IKosVariable4P::new_value(0);
    let ones = IKosVariable4P::new_value(0xffff_ffff);
    assert_eq!(x.clone().or(&zero), x);
    assert_eq!(x.clone().bit_and(&ones).unwrap().clear(), word);
    assert_eq!(x.clone().bit_or(&zero).unwrap().clear(), word);
    assert_eq!(x.add(&zero).unwrap().clear(), word);
}

#[test]
fn one_gate_too_many_exhausts_the_randomness() {
    let x = IKosVariable4P::new_share(vec![1, 2, 3], zero_contexts(2));
    let y = IKosVariable4P::new_value(5);
    let first = x.bit_and(&y).unwrap();
    let second = first.add(&y).unwrap();
    assert_eq!(second.contexts()[0].used_rand_ctr(), 2);
    let third = second.bit_and(&y);
    let e = third.unwrap_err();
    assert_eq!(e.error, "All pre-generated randomness are exhausted!");
    assert_eq!(e.kind(), Some(IKosErrorKind::RandomnessExhausted));
}

#[test]
fn every_non_linear_gate_fails_on_an_empty_tape() {
    let y = IKosVariable4P::new_value(5);
    let make = || IKosVariable4P::new_share(vec![1, 2, 3], zero_contexts(0));
    assert_eq!(make().bit_and(&y).unwrap_err().kind(), Some(IKosErrorKind::RandomnessExhausted));
    assert_eq!(make().bit_or(&y).unwrap_err().kind(), Some(IKosErrorKind::RandomnessExhausted));
    assert_eq!(make().add(&y).unwrap_err().kind(), Some(IKosErrorKind::RandomnessExhausted));
}

#[test]
fn one_short_tape_among_three_is_enough_to_fail() {
    let ctx = vec![
        context_with_tape(0, vec![1]),
        context_with_tape(1, vec![2]),
        context_with_tape(2, vec![]),
    ];
    let x = IKosVariable4P::new_share(vec![1, 2, 3], ctx);
    let y = IKosVariable4P::new_value(5);
    assert_eq!(x.bit_and(&y).unwrap_err().kind(), Some(IKosErrorKind::RandomnessExhausted));
}

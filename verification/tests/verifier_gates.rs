use ikos::context::IKosContext;
use ikos::error::IKosErrorKind;
use ikos::prover_var::IKosVariable4P;
use ikos::verifier_var::IKosVariable4V;
use ikos::view::IKosView;

const X: [u32; 3] = [0x12345678, 0x9abcdef0, 0x0f1e2d3c];
const Y: [u32; 3] = [0xdeadbeef, 0x00c0ffee, 0x8badf00d];
const T1: [u32; 3] = [0x11111111, 0x22222222, 0x33333333];
const T2: [u32; 3] = [0xa5a5a5a5, 0x5a5a5a5a, 0x0ff0f00f];

fn context(seed: u8, out: Vec<u32>, tape: Vec<u32>, verify: bool) -> IKosContext {
    let view = IKosView::from_parts(vec![seed; 16], vec![], out).unwrap();
    IKosContext::from_parts(view, tape, verify)
}

fn prover_contexts() -> Vec<IKosContext> {
    (0..3).map(|i| context(i as u8, vec![], vec![T1[i], T2[i]], false)).collect()
}

/// The contexts of a verifier that replays parties `e` and `e + 1` of a
/// prover's run: their tapes and views, and a third context whose view
/// holds `hidden` and whose tape holds words that are drawn and not used.
fn replay_contexts(run: &IKosVariable4P, e: usize, hidden: Vec<u32>) -> Vec<IKosContext> {
    let s = (e + 1) % 3;
    let of = |i: usize| {
        let c = &run.contexts()[i];
        context(i as u8, c.ikos_view().out_data32().clone(), c.randomness().clone(), true)
    };
    vec![of(e), of(s), context(9, hidden, vec![0xAAAA_AAAA; 4], true)]
}

fn out_of(v: &IKosVariable4V, party: usize) -> Vec<u32> {
    v.contexts()[party].ikos_view().out_data32().clone()
}

#[test]
fn verifier_constructors() {
    let v = IKosVariable4V::new();
    assert_eq!(v.value(), &vec![0, 0, 0]);
    assert!(v.is_empty_context());
    let v = IKosVariable4V::new_value(0x55);
    assert_eq!(v.value(), &vec![0x55; 3]);
    assert!(v.contexts().is_empty());
    let v = IKosVariable4V::new_share(X.to_vec(), prover_contexts());
    assert_eq!(v.value(), &X.to_vec());
    assert_eq!(v.contexts().len(), 3);
    assert_eq!(v.inst_ctr(), 0);
    let v = IKosVariable4V::new_share_with_random(X.to_vec(), vec![], vec![2, 10, 20, 30]);
    assert_eq!(v.inst_ctr(), 2);
    let v = IKosVariable4V::new_share_with_random(X.to_vec(), vec![], vec![]);
    assert_eq!(v.inst_ctr(), 0);
}

#[test]
fn verifier_copy_context_rebinds() {
    let mut v = IKosVariable4V::new_value(1);
    v.copy_context(prover_contexts());
    assert!(!v.is_empty_context());
    assert_eq!(v.contexts()[1].randomness(), &vec![T1[1], T2[1]]);
}

#[test]
fn verifier_linear_gates_work_share_by_share() {
    let x = IKosVariable4V::new_share(X.to_vec(), prover_contexts());
    let y = IKosVariable4V::new_share(Y.to_vec(), vec![]);
    assert_eq!(x.clone().negate().value(), &vec![!X[0], !X[1], !X[2]]);
    assert_eq!(x.clone().negate().negate(), x);
    assert_eq!(x.clone().or(&y).value(), &vec![X[0] ^ Y[0], X[1] ^ Y[1], X[2] ^ Y[2]]);
    assert_eq!(x.clone().or(&x).value(), &vec![0, 0, 0]);
    assert_eq!(x.clone().lshift(3).value(), &vec![X[0] << 3, X[1] << 3, X[2] << 3]);
    assert_eq!(x.clone().rshift(3).value(), &vec![X[0] >> 3, X[1] >> 3, X[2] >> 3]);
    let z = y.or(&x);
    assert_eq!(z.contexts().len(), 3);
    for party in 0..3 {
        assert!(out_of(&z, party).is_empty());
        assert_eq!(z.contexts()[party].used_rand_ctr(), 0);
        assert_eq!(z.contexts()[party].out_view_ctr32(), 0);
    }
}

#[test]
fn verifier_public_operands_take_the_plain_operation() {
    let x = IKosVariable4V::new_value(0xffff_fff0);
    let y = IKosVariable4V::new_value(0x35);
    assert_eq!(x.clone().bit_and(&y).unwrap().value(), &vec![0x30; 3]);
    assert_eq!(x.clone().bit_or(&y).unwrap().value(), &vec![0xffff_fff5; 3]);
    let s = x.add(&y).unwrap();
    assert_eq!(s.value(), &vec![0x25; 3]);
    assert!(s.contexts().is_empty());
}

#[test]
fn require_reconstruct_compares_the_first_two_views() {
    let equal = vec![
        context(0, vec![1, 2], vec![], true),
        context(1, vec![3, 4], vec![], true),
        context(2, vec![], vec![], true),
    ];
    assert!(IKosVariable4V::require_reconstruct(&equal));
    let unequal = vec![
        context(0, vec![1, 2, 3], vec![], true),
        context(1, vec![3, 4], vec![], true),
        context(2, vec![0, 0, 0], vec![], true),
    ];
    assert!(!IKosVariable4V::require_reconstruct(&unequal));
}

#[test]
fn party_two_has_no_random_word_of_its_own() {
    let mut v = IKosVariable4V::new_share(X.to_vec(), prover_contexts());
    assert_eq!(v.get_next_random(2), Ok(0));
    assert_eq!(v.contexts()[2].used_rand_ctr(), 0);
    assert_eq!(v.get_next_random(0), Ok(T1[0]));
    assert_eq!(v.get_next_random(1), Ok(T1[1]));
    assert_eq!(v.get_next_random(1), Ok(T2[1]));
    assert_eq!(v.get_next_random(1).unwrap_err().kind(), Some(IKosErrorKind::RandomnessExhausted));
    assert_eq!(v.get_next_random(2), Ok(0));
    assert_eq!(v.get_next_random(7), Ok(0));
    assert_eq!(v.contexts()[0].used_rand_ctr(), 1);
    assert_eq!(v.contexts()[1].used_rand_ctr(), 2);
    assert_eq!(v.contexts()[2].used_rand_ctr(), 0);
    let mut unbound = IKosVariable4V::new_value(5);
    assert_eq!(unbound.get_next_random(2), Ok(0));
    assert_eq!(unbound, IKosVariable4V::new_value(5));
}

#[test]
fn reconstruct_and_rebuilds_the_output_of_party_zero() {
    let zero = |words| IKosContext::new(words, false);
    let x = IKosVariable4P::new_share(vec![1, 0, 0], vec![zero(16), zero(16), zero(16)]);
    let y = IKosVariable4P::new_share(vec![1, 0, 0], vec![]);
    let p = x.bit_and(&y).unwrap();
    let recorded = p.contexts()[0].ikos_view().out_data32()[0];
    assert_eq!(recorded, 1);

    let ctx = vec![
        context(0, p.contexts()[0].ikos_view().out_data32().clone(), vec![0; 4], true),
        context(0, p.contexts()[1].ikos_view().out_data32().clone(), vec![0; 4], true),
        IKosContext::new(16, true),
    ];
    assert!(IKosVariable4V::require_reconstruct(&ctx));
    let vx = IKosVariable4V::new_share(vec![1, 0, 0], ctx);
    let vy = IKosVariable4V::new_share(vec![1, 0, 0], vec![]);
    let r = vx.bit_and(&vy).unwrap();
    assert_eq!(out_of(&r, 0), vec![1, recorded]);
    assert_eq!(r.value(), &vec![1, 0, 0]);
    assert_eq!(out_of(&r, 1), vec![0]);
    assert!(out_of(&r, 2).is_empty());
    for party in 0..3 {
        assert_eq!(r.contexts()[party].out_view_ctr32(), 1);
    }
    for party in 0..3 {
        assert_eq!(r.contexts()[party].used_rand_ctr(), 1);
    }
}

#[test]
fn check_and_rejects_a_tampered_output() {
    let make = |first: u32| {
        vec![
            context(0, vec![first], vec![0; 4], true),
            context(0, vec![0, 0], vec![0; 4], true),
            IKosContext::new(16, true),
        ]
    };
    let vy = IKosVariable4V::new_share(vec![1, 0, 0], vec![]);

    let honest = IKosVariable4V::new_share(vec![1, 0, 0], make(1));
    let r = honest.bit_and(&vy).unwrap();
    assert_eq!(r.value(), &vec![1, 0, 0]);
    assert_eq!(out_of(&r, 0), vec![1]);

    let tampered = IKosVariable4V::new_share(vec![1, 0, 0], make(1 ^ 1));
    let e = tampered.bit_and(&vy).unwrap_err();
    assert_eq!(e.error, "AND operation fail.");
    assert_eq!(e.kind(), Some(IKosErrorKind::AndCheckMismatch));

    let tampered_high = IKosVariable4V::new_share(vec![1, 0, 0], make(1 ^ 0x8000_0000));
    assert_eq!(
        tampered_high.bit_and(&vy).unwrap_err().kind(),
        Some(IKosErrorKind::AndCheckMismatch)
    );
}

#[test]
fn the_second_and_of_a_circuit_is_checked_against_the_view() {
    let run = |tamper: u32| {
        let x = IKosVariable4P::new_share(X.to_vec(), prover_contexts());
        let y = IKosVariable4P::new_share(Y.to_vec(), vec![]);
        let p = x.bit_and(&y).unwrap().bit_and(&y).unwrap();
        let mut out0 = p.contexts()[0].ikos_view().out_data32().clone();
        out0[1] ^= tamper;
        let ctx = vec![
            context(0, out0, vec![T1[0], T2[0]], true),
            context(1, p.contexts()[1].ikos_view().out_data32().clone(), vec![T1[1], T2[1]], true),
            context(2, vec![], vec![0; 2], true),
        ];
        let vx = IKosVariable4V::new_share(vec![X[0], X[1], 0], ctx);
        let vy = IKosVariable4V::new_share(vec![Y[0], Y[1], 0], vec![]);
        let first = vx.bit_and(&vy).unwrap();
        (p, first.bit_and(&vy))
    };
    let (p, honest) = run(0);
    let r = honest.unwrap();
    assert_eq!(r.value()[0], p.value()[0]);
    assert_eq!(r.value()[1], p.value()[1]);
    let (_, tampered) = run(4);
    assert_eq!(tampered.unwrap_err().kind(), Some(IKosErrorKind::AndCheckMismatch));
}

#[test]
fn and_fails_when_the_view_of_party_one_is_too_short() {
    let ctx = vec![
        context(0, vec![], vec![0; 4], true),
        context(1, vec![], vec![0; 4], true),
        context(2, vec![], vec![0; 4], true),
    ];
    let vx = IKosVariable4V::new_share(vec![1, 0, 0], ctx);
    let vy = IKosVariable4V::new_value(1);
    assert_eq!(vx.bit_and(&vy).unwrap_err().kind(), Some(IKosErrorKind::AndCheckMismatch));
}

#[test]
fn and_check_fails_when_the_view_of_party_zero_is_too_short() {
    let ctx = vec![
        context(0, vec![], vec![0; 4], true),
        context(1, vec![0], vec![0; 4], true),
        context(2, vec![], vec![0; 4], true),
    ];
    let vx = IKosVariable4V::new_share(vec![1, 0, 0], ctx);
    let vy = IKosVariable4V::new_value(1);
    assert_eq!(vx.bit_and(&vy).unwrap_err().kind(), Some(IKosErrorKind::AndCheckMismatch));
}

#[test]
fn in_verify_mode_any_of_the_three_tapes_can_run_out() {
    let vy = IKosVariable4V::new_value(1);
    let short0 = vec![
        context(0, vec![0], vec![], true),
        context(1, vec![0], vec![0], true),
        context(2, vec![0], vec![0], true),
    ];
    let v = IKosVariable4V::new_share(vec![1, 0, 0], short0);
    assert_eq!(v.bit_and(&vy).unwrap_err().kind(), Some(IKosErrorKind::RandomnessExhausted));
    let short1 = vec![
        context(0, vec![0], vec![0], true),
        context(1, vec![0], vec![], true),
        context(2, vec![0], vec![0], true),
    ];
    let v = IKosVariable4V::new_share(vec![1, 0, 0], short1);
    assert_eq!(v.add(&vy).unwrap_err().kind(), Some(IKosErrorKind::RandomnessExhausted));
    let short2 = vec![
        context(0, vec![0], vec![0], true),
        context(1, vec![0], vec![0], true),
        context(2, vec![0], vec![], true),
    ];
    let v = IKosVariable4V::new_share(vec![1, 0, 0], short2.clone());
    assert_eq!(v.add(&vy).unwrap_err().kind(), Some(IKosErrorKind::RandomnessExhausted));
    let v = IKosVariable4V::new_share(vec![1, 0, 0], short2);
    assert_eq!(v.bit_and(&vy).unwrap_err().kind(), Some(IKosErrorKind::RandomnessExhausted));
}

#[test]
fn in_verify_mode_every_context_counts_the_gate() {
    let ctx = vec![
        context(0, vec![0, 0], vec![0, 0], true),
        context(1, vec![0, 0], vec![0, 0], true),
        context(2, vec![0, 0], vec![7, 9], true),
    ];
    let vy = IKosVariable4V::new_value(0);
    let v = IKosVariable4V::new_share(vec![0, 0, 0], ctx);
    let v = v.bit_and(&vy).unwrap();
    for party in 0..3 {
        assert_eq!(v.contexts()[party].used_rand_ctr(), 1);
        assert_eq!(v.contexts()[party].out_view_ctr32(), 1);
    }
    let v = v.add(&vy).unwrap();
    for party in 0..3 {
        assert_eq!(v.contexts()[party].used_rand_ctr(), 2);
        assert_eq!(v.contexts()[party].out_view_ctr32(), 2);
    }
    assert_eq!(v.bit_and(&vy).unwrap_err().kind(), Some(IKosErrorKind::RandomnessExhausted));
}

#[test]
fn the_random_word_of_party_two_counts_as_zero() {
    let run = |hidden_tape: Vec<u32>| {
        let ctx = vec![
            context(0, vec![5], vec![T1[0]], true),
            context(1, vec![6], vec![T1[1]], true),
            context(2, vec![8], hidden_tape, true),
        ];
        let vx = IKosVariable4V::new_share(X.to_vec(), ctx);
        let vy = IKosVariable4V::new_share(Y.to_vec(), vec![]);
        vx.add(&vy).unwrap().value().clone()
    };
    assert_eq!(run(vec![0]), run(vec![0xffff_ffff]));
}

#[test]
fn in_simulation_the_tape_of_party_two_is_left_alone() {
    let ctx = vec![
        context(0, vec![], vec![0, 0], false),
        context(1, vec![], vec![0, 0], false),
        context(2, vec![], vec![], false),
    ];
    let vy = IKosVariable4V::new_value(1);
    let v = IKosVariable4V::new_share_with_random(vec![1, 0, 0], ctx, vec![1, 2, 3]);
    let v = v.bit_and(&vy).unwrap().add(&vy).unwrap();
    assert_eq!(v.contexts()[0].used_rand_ctr(), 2);
    assert_eq!(v.contexts()[1].used_rand_ctr(), 2);
    assert_eq!(v.contexts()[2].used_rand_ctr(), 0);
}

#[test]
fn one_gate_too_many_exhausts_the_verifier_too() {
    let ctx = vec![
        context(0, vec![], vec![0, 0], false),
        context(1, vec![], vec![0, 0], false),
        context(2, vec![], vec![], false),
    ];
    let v = IKosVariable4V::new_share_with_random(vec![1, 2, 3], ctx, vec![1, 5, 6, 7, 8]);
    let y = IKosVariable4V::new_value(3);
    let v = v.bit_and(&y).unwrap().add(&y).unwrap();
    assert_eq!(v.bit_and(&y).unwrap_err().kind(), Some(IKosErrorKind::RandomnessExhausted));
}

#[test]
fn add_rebuilds_the_carry_of_party_zero() {
    for e in 0..3 {
        let s = (e + 1) % 3;
        let x = IKosVariable4P::new_share(X.to_vec(), prover_contexts());
        let y = IKosVariable4P::new_share(Y.to_vec(), vec![]);
        let p = x.add(&y).unwrap();
        let carry = |i: usize| p.contexts()[i].ikos_view().out_data32()[0];

        let vx = IKosVariable4V::new_share(vec![X[e], X[s], 0], replay_contexts(&p, e, vec![0]));
        let vy = IKosVariable4V::new_share(vec![Y[e], Y[s], 0], vec![]);
        let r = vx.add(&vy).unwrap();
        assert_eq!(out_of(&r, 0), vec![carry(e), carry(e)]);
        assert_eq!(out_of(&r, 1), vec![carry(s)]);
        assert_eq!(r.value()[0], p.value()[e]);
        assert_eq!(r.value()[1], p.value()[s]);
        assert_eq!(out_of(&r, 0)[1] & 1, 0);
        for party in 0..3 {
            assert_eq!(r.contexts()[party].out_view_ctr32(), 1);
        }
    }
}

#[test]
fn add_rebuilds_exact_values() {
    let x = IKosVariable4P::new_share(X.to_vec(), prover_contexts());
    let y = IKosVariable4P::new_share(Y.to_vec(), vec![]);
    let p = x.add(&y).unwrap();
    let vx = IKosVariable4V::new_share(vec![X[0], X[1], 7], replay_contexts(&p, 0, vec![0x10]));
    let vy = IKosVariable4V::new_share(vec![Y[0], Y[1], 8], vec![]);
    let r = vx.add(&vy).unwrap();
    assert_eq!(r.value(), &vec![0x27a6310d, 0xa47dfc80, 7 ^ 8 ^ 0x10]);
    assert_eq!(out_of(&r, 0), vec![0xeb3fd99a, 0xeb3fd99a]);
}

#[test]
fn add_check_accepts_the_recorded_carry_and_rejects_another() {
    let verify = |tamper: u32| {
        let x = IKosVariable4P::new_share(X.to_vec(), prover_contexts());
        let y = IKosVariable4P::new_share(Y.to_vec(), vec![]);
        let p = x.add(&y).unwrap();
        let mut ctx = replay_contexts(&p, 1, vec![0]);
        let tape = ctx[0].randomness().clone();
        let mut out = ctx[0].ikos_view().out_data32().clone();
        out[0] ^= tamper;
        ctx[0] = context(1, out, tape, true);
        let tape = ctx[1].randomness().clone();
        let mut out = ctx[1].ikos_view().out_data32().clone();
        out.push(0);
        ctx[1] = context(2, out, tape, true);
        assert!(!IKosVariable4V::require_reconstruct(&ctx));
        let vx = IKosVariable4V::new_share(vec![X[1], X[2], 0], ctx);
        let vy = IKosVariable4V::new_share(vec![Y[1], Y[2], 0], vec![]);
        (p, vx.add(&vy))
    };
    let (p, honest) = verify(0);
    let r = honest.unwrap();
    assert_eq!(r.value()[0], p.value()[1]);
    assert_eq!(r.value()[1], p.value()[2]);
    assert_eq!(out_of(&r, 0).len(), 1);
    for bit in 1..32 {
        let (_, tampered) = verify(1 << bit);
        let e = tampered.unwrap_err();
        assert_eq!(e.error, "ADD operation fail.");
        assert_eq!(e.kind(), Some(IKosErrorKind::AddCheckMismatch));
    }
}

#[test]
fn add_fails_when_a_view_is_too_short() {
    let vy = IKosVariable4V::new_value(1);
    let no_party_two = vec![
        context(0, vec![0], vec![0], true),
        context(1, vec![0], vec![0], true),
        context(2, vec![], vec![0], true),
    ];
    let v = IKosVariable4V::new_share(vec![1, 0, 0], no_party_two);
    assert_eq!(v.add(&vy).unwrap_err().kind(), Some(IKosErrorKind::AddCheckMismatch));
    let no_party_one = vec![
        context(0, vec![], vec![0], true),
        context(1, vec![], vec![0], true),
        context(2, vec![0], vec![0], true),
    ];
    let v = IKosVariable4V::new_share(vec![1, 0, 0], no_party_one);
    assert_eq!(v.add(&vy).unwrap_err().kind(), Some(IKosErrorKind::AddCheckMismatch));
    let no_party_zero = vec![
        context(0, vec![], vec![0], true),
        context(1, vec![0], vec![0], true),
        context(2, vec![0], vec![0], true),
    ];
    let v = IKosVariable4V::new_share(vec![1, 0, 0], no_party_zero);
    assert_eq!(v.add(&vy).unwrap_err().kind(), Some(IKosErrorKind::AddCheckMismatch));
}

#[test]
fn any_two_neighbours_replay_a_circuit_of_the_prover() {
    for e in 0..3 {
        let s = (e + 1) % 3;
        let x = IKosVariable4P::new_share(X.to_vec(), prover_contexts());
        let y = IKosVariable4P::new_share(Y.to_vec(), vec![]);
        let p = x.bit_and(&y).unwrap().add(&y).unwrap();
        let recorded = |i: usize| p.contexts()[i].ikos_view().out_data32().clone();

        let vx =
            IKosVariable4V::new_share(vec![X[e], X[s], 0], replay_contexts(&p, e, vec![0, 0]));
        let vy = IKosVariable4V::new_share(vec![Y[e], Y[s], 0], vec![]);
        let first = vx.bit_and(&vy).unwrap();
        assert_eq!(out_of(&first, 0), vec![recorded(e)[0], recorded(e)[1], recorded(e)[0]]);
        assert_eq!(first.value()[0], recorded(e)[0]);
        assert_eq!(first.value()[1], recorded(s)[0]);
        let second = first.add(&vy).unwrap();
        assert_eq!(second.value()[0], p.value()[e]);
        assert_eq!(second.value()[1], p.value()[s]);
        assert_eq!(out_of(&second, 1), recorded(s));
        for party in 0..3 {
            assert_eq!(second.contexts()[party].out_view_ctr32(), 2);
        }
        for party in 0..3 {
            assert_eq!(second.contexts()[party].used_rand_ctr(), 2);
        }
    }
}

#[test]
fn verifier_or_gate_goes_through_the_and_gate() {
    let x = IKosVariable4P::new_share(X.to_vec(), prover_contexts());
    let y = IKosVariable4P::new_share(Y.to_vec(), vec![]);
    let p = x.bit_or(&y).unwrap();
    let vx = IKosVariable4V::new_share(vec![X[0], X[1], 0], replay_contexts(&p, 0, vec![]));
    let vy = IKosVariable4V::new_share(vec![Y[0], Y[1], 0], vec![]);
    let r = vx.bit_or(&vy).unwrap();
    let and0 = p.contexts()[0].ikos_view().out_data32()[0];
    let and1 = p.contexts()[1].ikos_view().out_data32()[0];
    assert_eq!(r.value()[0], X[0] ^ Y[0] ^ and0);
    assert_eq!(r.value()[1], X[1] ^ Y[1] ^ and1);
    assert_eq!(r.value()[0], p.value()[0]);
    assert_eq!(r.value()[1], p.value()[1]);
    assert_eq!(out_of(&r, 0), vec![and0, and0]);
}

#[test]
fn simulated_and_takes_party_one_from_the_words_handed_in() {
    let ctx: Vec<IKosContext> =
        (0..3).map(|i| context(i as u8, vec![], vec![T1[i], T2[i]], false)).collect();
    let v = IKosVariable4V::new_share_with_random(
        X.to_vec(),
        ctx,
        vec![1, 0xCAFEBABF, 0x0BADF00D],
    );
    let y = IKosVariable4V::new_share(Y.to_vec(), vec![]);
    let r = v.bit_and(&y).unwrap();
    assert_eq!(r.value(), &vec![0xbbbbedd3, 0xCAFEBABF, X[2]]);
    assert_eq!(out_of(&r, 0), vec![0xbbbbedd3]);
    assert_eq!(out_of(&r, 1), vec![0xCAFEBABF]);
    assert_eq!(out_of(&r, 2), vec![X[2]]);
    assert_eq!(r.inst_ctr(), 2);
    assert_eq!(r.contexts()[0].used_rand_ctr(), 1);
    assert_eq!(r.contexts()[1].used_rand_ctr(), 1);
    assert_eq!(r.contexts()[2].used_rand_ctr(), 0);
    for party in 0..3 {
        assert_eq!(r.contexts()[party].out_view_ctr32(), 0);
    }

    let r = r.add(&y).unwrap();
    assert_eq!(r.value(), &vec![0x31bafb56, 0xc193b55d, 0x84b3dd31]);
    assert_eq!(out_of(&r, 0), vec![0xbbbbedd3, 0x54aca86a]);
    assert_eq!(out_of(&r, 1), vec![0xCAFEBABF, 0x0BADF00C]);
    assert_eq!(out_of(&r, 2), vec![X[2], 0]);
    assert_eq!(r.inst_ctr(), 3);
}

#[test]
fn simulated_add_clears_bit_zero_of_the_word_handed_in() {
    let ctx: Vec<IKosContext> =
        (0..3).map(|i| context(i as u8, vec![], vec![T1[i], T2[i]], false)).collect();
    let v = IKosVariable4V::new_share_with_random(X.to_vec(), ctx, vec![1, 0xCAFEBABF]);
    let y = IKosVariable4V::new_share(Y.to_vec(), vec![]);
    let r = v.add(&y).unwrap();
    assert_eq!(r.value(), &vec![0xaf54710d, 0x50829ba0, 0x84b3dd31]);
    assert_eq!(out_of(&r, 0), vec![0x63cd999a]);
    assert_eq!(out_of(&r, 1), vec![0xCAFEBABE]);
    assert_eq!(out_of(&r, 2), vec![0]);
    for party in 0..3 {
        assert_eq!(out_of(&r, party)[0] & 1, 0);
    }
}

#[test]
fn simulation_fails_when_no_word_is_left_to_hand_out() {
    let ctx = || -> Vec<IKosContext> {
        (0..3).map(|i| context(i as u8, vec![], vec![0; 4], false)).collect()
    };
    let y = IKosVariable4V::new_value(3);
    let none = IKosVariable4V::new_share(vec![1, 2, 3], ctx());
    assert_eq!(none.bit_and(&y).unwrap_err().kind(), Some(IKosErrorKind::RandomnessExhausted));
    let only_cursor = IKosVariable4V::new_share_with_random(vec![1, 2, 3], ctx(), vec![1]);
    assert_eq!(only_cursor.add(&y).unwrap_err().kind(), Some(IKosErrorKind::RandomnessExhausted));
    let at_itself = IKosVariable4V::new_share_with_random(vec![1, 2, 3], ctx(), vec![0, 5, 6]);
    assert_eq!(at_itself.bit_and(&y).unwrap_err().kind(), Some(IKosErrorKind::RandomnessExhausted));
    let past_end = IKosVariable4V::new_share_with_random(vec![1, 2, 3], ctx(), vec![3, 5, 6]);
    assert_eq!(past_end.add(&y).unwrap_err().kind(), Some(IKosErrorKind::RandomnessExhausted));
    let last = IKosVariable4V::new_share_with_random(vec![1, 2, 3], ctx(), vec![2, 5, 6]);
    let r = last.bit_and(&y).unwrap();
    assert_eq!(r.value()[1], 6);
    assert_eq!(r.bit_and(&y).unwrap_err().kind(), Some(IKosErrorKind::RandomnessExhausted));
}

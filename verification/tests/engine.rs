//! The engine against the reference pairing library: the partial
//! computations driven round by round must reproduce the library's
//! one-shot results exactly.

use std::str::FromStr;

use ark_ec::models::bn::BnParameters;
use ark_ec::{AffineCurve, PairingEngine, ProjectiveCurve};
use ark_ff::{BigInteger256, Field};

use resumable_pairing::errors::RoundResult;
use resumable_pairing::exp::{exp_by_neg_x_partial, EXP_BY_NEG_X_ROUNDS};
use resumable_pairing::fexp::{final_exponentiation_partial, FINAL_EXP_ROUNDS};
use resumable_pairing::field::{Fq, Fq12, Fq2, Fq6, G1Affine, G2Affine, LineCoefficients, U256};
use resumable_pairing::inverse::{inverse_fq12_partial, INVERSE_FQ12_ROUNDS};
use resumable_pairing::miller::MILLER_LOOP_ROUNDS;
use resumable_pairing::mul034::{ell_partial, ELL_ROUNDS};
use resumable_pairing::ram::RAM;
use resumable_pairing::state::{advance, new_verification_state, rounds_total, verify_proof};
use resumable_pairing::verify::full_verification;
use resumable_pairing::vkey::{VerificationKey, STATIC_COEFF_COUNT};

fn fq_to_lib(v: ark_bn254::Fq) -> Fq {
    let l = (v.0).0;
    Fq { l0: l[0], l1: l[1], l2: l[2], l3: l[3] }
}

fn fq_from_lib(v: Fq) -> ark_bn254::Fq {
    ark_bn254::Fq::new(BigInteger256::new([v.l0, v.l1, v.l2, v.l3]))
}

fn fq2_to_lib(v: ark_bn254::Fq2) -> Fq2 {
    Fq2 { c0: fq_to_lib(v.c0), c1: fq_to_lib(v.c1) }
}

fn fq2_from_lib(v: Fq2) -> ark_bn254::Fq2 {
    ark_bn254::Fq2::new(fq_from_lib(v.c0), fq_from_lib(v.c1))
}

fn fq6_to_lib(v: ark_bn254::Fq6) -> Fq6 {
    Fq6 { c0: fq2_to_lib(v.c0), c1: fq2_to_lib(v.c1), c2: fq2_to_lib(v.c2) }
}

fn fq12_to_lib(v: ark_bn254::Fq12) -> Fq12 {
    Fq12 { c0: fq6_to_lib(v.c0), c1: fq6_to_lib(v.c1) }
}

fn fq12_from_lib(v: Fq12) -> ark_bn254::Fq12 {
    ark_bn254::Fq12::new(
        ark_bn254::Fq6::new(
            fq2_from_lib(v.c0.c0),
            fq2_from_lib(v.c0.c1),
            fq2_from_lib(v.c0.c2),
        ),
        ark_bn254::Fq6::new(
            fq2_from_lib(v.c1.c0),
            fq2_from_lib(v.c1.c1),
            fq2_from_lib(v.c1.c2),
        ),
    )
}

fn g1_to_lib(v: ark_bn254::G1Affine) -> G1Affine {
    G1Affine { x: fq_to_lib(v.x), y: fq_to_lib(v.y), infinity: v.infinity }
}

fn g2_to_lib(v: ark_bn254::G2Affine) -> G2Affine {
    G2Affine { x: fq2_to_lib(v.x), y: fq2_to_lib(v.y), infinity: v.infinity }
}

fn coeffs_to_lib(v: &(ark_bn254::Fq2, ark_bn254::Fq2, ark_bn254::Fq2)) -> LineCoefficients {
    LineCoefficients { c0: fq2_to_lib(v.0), c1: fq2_to_lib(v.1), c2: fq2_to_lib(v.2) }
}

fn f() -> ark_bn254::Fq12 {
    let f = ark_bn254::Fq6::new(
        ark_bn254::Fq2::new(
            ark_bn254::Fq::from_str(
                "20925091368075991963132407952916453596237117852799702412141988931506241672722",
            )
            .unwrap(),
            ark_bn254::Fq::from_str(
                "18684276579894497974780190092329868933855710870485375969907530111657029892231",
            )
            .unwrap(),
        ),
        ark_bn254::Fq2::new(
            ark_bn254::Fq::from_str(
                "5932690455294482368858352783906317764044134926538780366070347507990829997699",
            )
            .unwrap(),
            ark_bn254::Fq::from_str(
                "18684276579894497974780190092329868933855710870485375969907530111657029892231",
            )
            .unwrap(),
        ),
        ark_bn254::Fq2::new(
            ark_bn254::Fq::from_str(
                "18684276579894497974780190092329868933855710870485375969907530111657029892231",
            )
            .unwrap(),
            ark_bn254::Fq::from_str(
                "19526707366532583397322534596786476145393586591811230548888354920504818678603",
            )
            .unwrap(),
        ),
    );
    ark_bn254::Fq12::new(f, f)
}

fn coeffs() -> (ark_bn254::Fq2, ark_bn254::Fq2, ark_bn254::Fq2) {
    (f().c0.c0, f().c1.c0, f().c0.c2)
}

fn g1_affine() -> ark_bn254::G1Affine {
    ark_bn254::G1Affine::new(f().c0.c0.c0, f().c0.c0.c1, false)
}

fn original_ell(
    f: ark_bn254::Fq12,
    coeffs: (ark_bn254::Fq2, ark_bn254::Fq2, ark_bn254::Fq2),
    p: ark_bn254::G1Affine,
) -> ark_bn254::Fq12 {
    let mut c0 = coeffs.0;
    let mut c1 = coeffs.1;
    let c2 = coeffs.2;

    c0.mul_assign_by_fp(&p.y);
    c1.mul_assign_by_fp(&p.x);

    let mut f = f;
    f.mul_by_034(&c0, &c1, &c2);
    f
}

fn original_exp_by_neg_x(f: ark_bn254::Fq12) -> ark_bn254::Fq12 {
    let mut f = f.cyclotomic_exp(&<ark_bn254::Parameters as BnParameters>::X);
    if !<ark_bn254::Parameters as BnParameters>::X_IS_NEGATIVE {
        f.conjugate();
    }
    f
}

#[test]
fn test_ell() {
    let mut ram_fq12: RAM<Fq12> = RAM::new(20);
    let mut ram_fq6: RAM<Fq6> = RAM::new(20);
    let mut ram_fq2: RAM<Fq2> = RAM::new(20);
    let lc = coeffs_to_lib(&coeffs());
    let p = g1_to_lib(g1_affine());
    let acc = fq12_to_lib(f());
    let mut value: Option<Fq12> = None;
    for round in 0..ELL_ROUNDS {
        value = ell_partial(round, &mut ram_fq2, &mut ram_fq6, &mut ram_fq12, &lc, &p, &acc);
    }
    assert_eq!(fq12_from_lib(value.unwrap()), original_ell(f(), coeffs(), g1_affine()));
}

#[test]
fn test_inverse_fq12() {
    let mut ram_fq6: RAM<Fq6> = RAM::new(20);
    let acc = fq12_to_lib(f());
    let mut value: Option<Fq12> = None;
    for round in 0..INVERSE_FQ12_ROUNDS {
        value = inverse_fq12_partial(round, &mut ram_fq6, &acc).unwrap();
    }
    assert_eq!(fq12_from_lib(value.unwrap()), f().inverse().unwrap());
}

#[test]
fn test_exp_by_neg_x() {
    let mut ram_fq12: RAM<Fq12> = RAM::new(20);
    let base = fq12_to_lib(f());
    let mut value: Option<Fq12> = None;
    for round in 0..EXP_BY_NEG_X_ROUNDS {
        value = exp_by_neg_x_partial(round, &mut ram_fq12, &base);
    }
    assert_eq!(fq12_from_lib(value.unwrap()), original_exp_by_neg_x(f()));
}

#[test]
fn test_final_exponentiation() {
    let mut ram_fq12: RAM<Fq12> = RAM::new(40);
    let mut ram_fq6: RAM<Fq6> = RAM::new(20);
    let acc = fq12_to_lib(f());
    let mut value = None;
    for round in 0..FINAL_EXP_ROUNDS {
        value = final_exponentiation_partial(round, &mut ram_fq12, &mut ram_fq6, &acc).unwrap();
    }
    assert_eq!(
        fq12_from_lib(value.unwrap()),
        ark_bn254::Bn254::final_exponentiation(&f()).unwrap()
    );
}

/// A verification key and matching pairing operands built directly from
/// the reference library, with the target set to the true product of the
/// three pairings.
fn fixture_vkey_and_proof() -> (VerificationKey, G1Affine, G2Affine, G1Affine, Vec<U256>) {
    let g1 = ark_bn254::G1Affine::prime_subgroup_generator();
    let g2 = ark_bn254::G2Affine::prime_subgroup_generator();

    let a = g1.mul(BigInteger256::new([7, 0, 0, 0])).into_affine();
    let b = g2.mul(BigInteger256::new([11, 0, 0, 0])).into_affine();
    let c = g1.mul(BigInteger256::new([13, 0, 0, 0])).into_affine();
    let gamma = g2.mul(BigInteger256::new([17, 0, 0, 0])).into_affine();
    let delta = g2.mul(BigInteger256::new([19, 0, 0, 0])).into_affine();
    let ic0 = g1.mul(BigInteger256::new([23, 0, 0, 0])).into_affine();
    let ic1 = g1.mul(BigInteger256::new([29, 0, 0, 0])).into_affine();
    let input: u64 = 31;

    let prep = (ic0.into_projective() + ic1.mul(BigInteger256::new([input, 0, 0, 0])))
        .into_affine();

    let gamma_neg_pc: ark_ec::models::bn::G2Prepared<ark_bn254::Parameters> =
        ark_ec::models::bn::G2Prepared::from(-gamma);
    let delta_neg_pc: ark_ec::models::bn::G2Prepared<ark_bn254::Parameters> =
        ark_ec::models::bn::G2Prepared::from(-delta);
    assert_eq!(gamma_neg_pc.ell_coeffs.len(), STATIC_COEFF_COUNT);
    assert_eq!(delta_neg_pc.ell_coeffs.len(), STATIC_COEFF_COUNT);

    let target = ark_bn254::Bn254::product_of_pairings(&[
        (a.into(), b.into()),
        (prep.into(), (-gamma).into()),
        (c.into(), (-delta).into()),
    ]);

    let vk = VerificationKey {
        alpha_beta: fq12_to_lib(target),
        gamma_neg_pc: gamma_neg_pc.ell_coeffs.iter().map(coeffs_to_lib).collect(),
        delta_neg_pc: delta_neg_pc.ell_coeffs.iter().map(coeffs_to_lib).collect(),
        ic: vec![g1_to_lib(ic0), g1_to_lib(ic1)],
    };
    let inputs = vec![U256 { l0: input, l1: 0, l2: 0, l3: 0 }];
    (vk, g1_to_lib(a), g2_to_lib(b), g1_to_lib(c), inputs)
}

#[test]
fn test_full_verification_accepts_valid_proof() {
    let (vk, a, b, c, inputs) = fixture_vkey_and_proof();
    let verdict = full_verification(&a, &b, &c, inputs, &vk).unwrap();
    assert!(verdict);
}

#[test]
fn test_full_verification_rejects_flipped_bit() {
    let (vk, a, b, c, inputs) = fixture_vkey_and_proof();
    let mut bad = a;
    bad.x.l0 ^= 1;
    let verdict = full_verification(&bad, &b, &c, inputs, &vk).unwrap();
    assert!(!verdict);
}

#[test]
fn test_advance_round_count_is_input_independent() {
    let (vk, a, b, c, inputs) = fixture_vkey_and_proof();
    let total = rounds_total(&vk);
    assert_eq!(total, 1 + MILLER_LOOP_ROUNDS + FINAL_EXP_ROUNDS);

    let mut state = new_verification_state(&a, &b, &c, inputs, &vk).unwrap();
    let mut rounds: usize = 0;
    loop {
        let r = state.round;
        match advance(&mut state, r, &vk) {
            RoundResult::Continue => {
                rounds += 1;
            }
            RoundResult::Done(v) => {
                rounds += 1;
                assert!(v);
                break;
            }
            RoundResult::Error(e) => panic!("unexpected sequencing error: {:?}", e),
        }
    }
    assert_eq!(rounds, total);
    assert_eq!(verify_proof(&state, &vk), Ok(true));
}

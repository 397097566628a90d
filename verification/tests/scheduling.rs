//! The round partitioner and the engine's round schedule, on concrete
//! tables, plus the fee formulas on exact values.

use resumable_pairing::exp::EXP_BY_NEG_X_ROUNDS;
use resumable_pairing::fee::{
    BasisPointFee, Lamports, ProgramFee, Token, TokenPrice, MAX_COMMITMENT_BATCHING_RATE,
};
use resumable_pairing::fexp::FINAL_EXP_ROUNDS;
use resumable_pairing::inverse::INVERSE_FQ12_ROUNDS;
use resumable_pairing::miller::MILLER_LOOP_ROUNDS;
use resumable_pairing::partition::{partition, PartitionError};
use resumable_pairing::schedule::{build_round_table, ROUND_BUDGET};

#[test]
fn test_partition_greedy_packs_while_budget_allows() {
    let weights: Vec<u64> = vec![3, 4, 5, 2, 2, 2];
    let p = partition(&weights, 7).unwrap();
    let rounds: Vec<(usize, usize)> = p.rounds.iter().map(|r| (r.start, r.end)).collect();
    assert_eq!(rounds, vec![(0, 2), (2, 4), (4, 6)]);
    for r in &p.rounds {
        let sum: u64 = weights[r.start..r.end].iter().sum();
        assert!(sum <= 7);
    }
}

#[test]
fn test_partition_rejects_overweight_step() {
    let weights: Vec<u64> = vec![3, 8, 1];
    match partition(&weights, 7) {
        Err(e) => assert_eq!(e, PartitionError::StepExceedsBudget),
        Ok(_) => panic!("an overweight step must make partitioning infeasible"),
    }
}

#[test]
fn test_partition_is_deterministic() {
    let weights: Vec<u64> = vec![10, 20, 30, 40, 50, 60];
    let p1 = partition(&weights, 60).unwrap();
    let p2 = partition(&weights, 60).unwrap();
    let r1: Vec<(usize, usize)> = p1.rounds.iter().map(|r| (r.start, r.end)).collect();
    let r2: Vec<(usize, usize)> = p2.rounds.iter().map(|r| (r.start, r.end)).collect();
    assert_eq!(r1, r2);
}

#[test]
fn test_partition_of_empty_table_is_empty() {
    let weights: Vec<u64> = vec![];
    let p = partition(&weights, 7).unwrap();
    assert_eq!(p.rounds.len(), 0);
}

#[test]
fn test_round_table_matches_engine_round_counts() {
    let t = build_round_table();
    assert_eq!(t.inverse.rounds.len(), INVERSE_FQ12_ROUNDS);
    assert_eq!(t.exp.rounds.len(), EXP_BY_NEG_X_ROUNDS);
    assert_eq!(t.fexp.rounds.len(), FINAL_EXP_ROUNDS);
    assert_eq!(t.miller.rounds.len(), MILLER_LOOP_ROUNDS);
    // every generated round stays within the budget
    for (weights, program) in [
        (&t.inverse_weights, &t.inverse),
        (&t.exp_weights, &t.exp),
        (&t.fexp_weights, &t.fexp),
        (&t.miller_weights, &t.miller),
    ] {
        for r in &program.rounds {
            let sum: u64 = weights[r.start..r.end].iter().sum();
            assert!(sum <= ROUND_BUDGET);
        }
    }
}

#[test]
fn test_nested_computations_compose_round_counts() {
    // the final exponentiation's total is its own eleven rounds plus the
    // nested inversion and three nested exponentiations
    assert_eq!(
        FINAL_EXP_ROUNDS,
        11 + INVERSE_FQ12_ROUNDS + 3 * EXP_BY_NEG_X_ROUNDS
    );
}

fn fee_fixture() -> ProgramFee {
    ProgramFee {
        lamports_per_tx: Lamports(5000),
        base_commitment_network_fee: BasisPointFee(10),
        proof_network_fee: BasisPointFee(25),
        base_commitment_subvention: Lamports(100),
        proof_subvention: Lamports(200),
        warden_hash_tx_reward: Lamports(300),
        warden_proof_reward: Lamports(400),
        proof_base_tx_count: (MILLER_LOOP_ROUNDS + FINAL_EXP_ROUNDS + 2) as u64,
    }
}

#[test]
fn test_basis_point_fee_calc() {
    assert_eq!(BasisPointFee(25).calc(10000), 25);
    assert_eq!(BasisPointFee(10).calc(123456), 123);
}

#[test]
fn test_hash_tx_compensation() {
    assert_eq!(fee_fixture().hash_tx_compensation(), Lamports(5300));
}

#[test]
fn test_base_commitment_hash_computation_fee() {
    assert_eq!(fee_fixture().base_commitment_hash_computation_fee(), Lamports(10600));
}

#[test]
fn test_commitment_hash_computation_fee() {
    // rate 2: 4 commitments per batch, 7 node hashes, 14 transactions
    let fee = fee_fixture().commitment_hash_computation_fee(2);
    assert_eq!(fee, Lamports((14 * 5300 + 3) / 4));
}

#[test]
fn test_proof_verification_computation_fee() {
    let fee = fee_fixture();
    let expected = (10 + fee.proof_base_tx_count) * 5000 + 400;
    assert_eq!(fee.proof_verification_computation_fee(10), Lamports(expected));
}

#[test]
fn test_proof_verification_fee_native_token() {
    let fee = fee_fixture();
    let price = TokenPrice { lamports_per_unit: 1 };
    let computation = fee.proof_verification_computation_fee(10).0;
    let commitment = fee.commitment_hash_computation_fee(1).0;
    let network = fee.proof_network_fee.calc(10000);
    let expected = computation + commitment + network - 200;
    assert_eq!(
        fee.proof_verification_fee(10, 1, 10000, 0, &price),
        Ok(Token { token_id: 0, amount: expected })
    );
}

#[test]
fn test_is_valid_accepts_matching_configuration() {
    assert!(fee_fixture().is_valid());
}

#[test]
fn test_is_valid_rejects_excessive_subvention() {
    let mut fee = fee_fixture();
    fee.base_commitment_subvention = Lamports(u64::MAX / 2);
    assert!(!fee.is_valid());
}

#[test]
fn test_is_valid_rejects_wrong_tx_count() {
    let mut fee = fee_fixture();
    fee.proof_base_tx_count = 7;
    assert!(!fee.is_valid());
}

#[test]
fn test_max_batching_rate_is_covered() {
    // the largest allowed rate still keeps every fee formula in range
    let fee = fee_fixture();
    let r = (MAX_COMMITMENT_BATCHING_RATE - 1) as u32;
    let per_commitment = fee.commitment_hash_computation_fee(r);
    assert_eq!(per_commitment, Lamports((30 * 5300 + 7) / 8));
}

//! The storage bookkeeping, the scratch memory, the warden roster, and
//! the state machine's sequencing guarantees.

use resumable_pairing::accounts::{
    is_mt_full, CommitmentHashRequest, CommitmentQueue, StorageAccount, MT_COMMITMENT_COUNT,
};
use resumable_pairing::errors::{ComputationError, RoundResult};
use resumable_pairing::field::{Fq, G1Affine, G2Affine, U256};
use resumable_pairing::network::{BasicWardenNetworkAccount, BASIC_WARDEN_NETWORK_SIZE};
use resumable_pairing::ram::RAM;
use resumable_pairing::state::{advance, new_verification_state, VerificationPhase};
use resumable_pairing::vkey::{VerificationKey, STATIC_COEFF_COUNT};

#[test]
fn test_is_mt_full() {
    let mut storage_account = StorageAccount::new();
    storage_account.set_next_commitment_ptr(MT_COMMITMENT_COUNT as u32);

    let mut queue = CommitmentQueue::new();
    queue
        .enqueue(CommitmentHashRequest { min_batching_rate: 1, commitment: [0; 32], fee_version: 0 })
        .unwrap();
    queue
        .enqueue(CommitmentHashRequest { min_batching_rate: 1, commitment: [0; 32], fee_version: 0 })
        .unwrap();

    assert!(is_mt_full(&storage_account, &queue).unwrap());

    storage_account.set_next_commitment_ptr(MT_COMMITMENT_COUNT as u32 - 3);
    assert!(!is_mt_full(&storage_account, &queue).unwrap());

    storage_account.set_next_commitment_ptr(MT_COMMITMENT_COUNT as u32 - 2);
    assert!(is_mt_full(&storage_account, &queue).unwrap());
}

#[test]
fn test_next_batch_requires_whole_batch() {
    let mut queue = CommitmentQueue::new();
    assert!(queue.next_batch().is_err());
    queue
        .enqueue(CommitmentHashRequest { min_batching_rate: 1, commitment: [1; 32], fee_version: 0 })
        .unwrap();
    // rate 1 asks for two commitments; only one is queued
    assert!(queue.next_batch().is_err());
    queue
        .enqueue(CommitmentHashRequest { min_batching_rate: 0, commitment: [2; 32], fee_version: 0 })
        .unwrap();
    let (batch, rate) = queue.next_batch().unwrap();
    assert_eq!(rate, 1);
    assert_eq!(batch.len(), 2);
    assert_eq!(batch[0].commitment, [1; 32]);
    assert_eq!(batch[1].commitment, [2; 32]);
}

#[test]
fn test_ram_read_back_and_frames() {
    let mut ram: RAM<u64> = RAM::new(8);
    ram.write(41, 0);
    ram.write(42, 1);
    assert_eq!(ram.read(0), 41);
    ram.inc_frame(1);
    // the same physical slot, seen from the shifted frame
    assert_eq!(ram.read(0), 42);
    ram.write(7, 1);
    ram.dec_frame(1);
    assert_eq!(ram.read(0), 41);
    assert_eq!(ram.read(2), 7);
    ram.free(2);
    assert_eq!(ram.read(0), 41);
}

#[test]
fn test_warden_roster_fills_to_its_bound() {
    let mut account = BasicWardenNetworkAccount::new();
    for i in 0..BASIC_WARDEN_NETWORK_SIZE {
        account.try_add_member(i as u32, &[i as u8; 32]).unwrap();
    }
    assert!(account.try_add_member(999, &[9; 32]).is_err());
    assert_eq!(account.members_count as usize, BASIC_WARDEN_NETWORK_SIZE);
}

fn dummy_vkey() -> VerificationKey {
    let zero = Fq { l0: 0, l1: 0, l2: 0, l3: 0 };
    let zero2 = resumable_pairing::field::Fq2 { c0: zero, c1: zero };
    let zero6 = resumable_pairing::field::Fq6 { c0: zero2, c1: zero2, c2: zero2 };
    let coeff = resumable_pairing::field::LineCoefficients { c0: zero2, c1: zero2, c2: zero2 };
    VerificationKey {
        alpha_beta: resumable_pairing::field::Fq12 { c0: zero6, c1: zero6 },
        gamma_neg_pc: vec![coeff; STATIC_COEFF_COUNT],
        delta_neg_pc: vec![coeff; STATIC_COEFF_COUNT],
        ic: vec![
            G1Affine { x: zero, y: zero, infinity: true },
            G1Affine { x: zero, y: zero, infinity: true },
        ],
    }
}

#[test]
fn test_advance_rejects_wrong_round_index() {
    let vk = dummy_vkey();
    let zero = Fq { l0: 0, l1: 0, l2: 0, l3: 0 };
    let zero2 = resumable_pairing::field::Fq2 { c0: zero, c1: zero };
    let a = G1Affine { x: zero, y: zero, infinity: true };
    let b = G2Affine { x: zero2, y: zero2, infinity: true };
    let inputs = vec![U256 { l0: 1, l1: 0, l2: 0, l3: 0 }];
    let mut state = new_verification_state(&a, &b, &a, inputs, &vk).unwrap();

    assert_eq!(state.round, 0);
    assert_eq!(state.phase, VerificationPhase::PreparingInputs);
    // wrong round index: a sequencing error that changes nothing
    assert_eq!(
        advance(&mut state, 5, &vk),
        RoundResult::Error(ComputationError::InvalidRound)
    );
    assert_eq!(state.round, 0);
    assert_eq!(state.phase, VerificationPhase::PreparingInputs);
    // the correct round index still works afterwards
    assert_eq!(advance(&mut state, 0, &vk), RoundResult::Continue);
}

#[test]
fn test_new_state_rejects_non_canonical_proof_point() {
    let vk = dummy_vkey();
    let zero = Fq { l0: 0, l1: 0, l2: 0, l3: 0 };
    let zero2 = resumable_pairing::field::Fq2 { c0: zero, c1: zero };
    // the base modulus itself: a value congruent to zero but not the
    // canonical encoding of it
    let p_limbs = Fq {
        l0: 0x3c208c16d87cfd47,
        l1: 0x97816a916871ca8d,
        l2: 0xb85045b68181585d,
        l3: 0x30644e72e131a029,
    };
    let bad = G1Affine { x: p_limbs, y: zero, infinity: false };
    let b = G2Affine { x: zero2, y: zero2, infinity: true };
    let good = G1Affine { x: zero, y: zero, infinity: true };
    let inputs = vec![U256 { l0: 1, l1: 0, l2: 0, l3: 0 }];
    match new_verification_state(&bad, &b, &good, inputs, &vk) {
        Err(ComputationError::InvalidProofData) => {}
        _ => panic!("a non-canonical field encoding must be rejected"),
    }
}

#[test]
fn test_new_state_rejects_wrong_input_count() {
    let vk = dummy_vkey();
    let zero = Fq { l0: 0, l1: 0, l2: 0, l3: 0 };
    let zero2 = resumable_pairing::field::Fq2 { c0: zero, c1: zero };
    let a = G1Affine { x: zero, y: zero, infinity: true };
    let b = G2Affine { x: zero2, y: zero2, infinity: true };
    let inputs = vec![];
    match new_verification_state(&a, &b, &a, inputs, &vk) {
        Err(ComputationError::InvalidPublicInputs) => {}
        _ => panic!("an input list of the wrong length must be rejected"),
    }
}

//! Driving a verification from the first round to the verdict in one
//! sitting: what a host would do across many invocations, run here in a
//! single loop.  Each iteration advances exactly one round, so this is
//! also the reference for how the host is meant to call `advance`.

use vstd::prelude::*;

use crate::errors::ComputationError;
use crate::fexp::{spec_final_exponentiation, FINAL_EXP_ROUNDS};
use crate::field::{G1Affine, G2Affine, U256};
use crate::miller::{spec_cursor_measure, spec_miller_loop, MillerInputs};
use crate::prepare::spec_prepared_inputs;
use crate::state::{
    advance, is_computation_finished, new_verification_state, spec_proof_canonical, verify_proof,
    VerificationPhase, VerificationState,
};
use crate::vkey::VerificationKey;

verus! {

/// The verdict a proof and its public inputs are owed under a key.
pub open spec fn spec_full_verdict(
    a: G1Affine,
    b: G2Affine,
    c: G1Affine,
    inputs: Seq<U256>,
    vk: VerificationKey,
) -> bool {
    let inp = MillerInputs { a, b, c, prep: spec_prepared_inputs(vk, inputs) };
    match spec_final_exponentiation(spec_miller_loop(inp, vk)) {
        Some(y) => y == vk.alpha_beta,
        None => false,
    }
}

/// How far a state is from its verdict; strictly decreased by every
/// successful `advance`.
pub open spec fn spec_state_measure(s: VerificationState) -> int {
    match s.phase {
        VerificationPhase::PreparingInputs => 3000000 + s.inputs@.len() - s.round,
        VerificationPhase::MillerLoop => 1000000 + spec_cursor_measure(
            s.miller.j as int,
            s.miller.stage,
            s.miller.sub as int,
        ),
        VerificationPhase::FinalExponentiation => 1000 + FINAL_EXP_ROUNDS - s.round,
        VerificationPhase::Done => 0,
    }
}

/// Runs a whole verification: creates the state, advances it round by
/// round through all three computing phases, and returns the verdict.
pub fn full_verification(
    proof_a: &G1Affine,
    proof_b: &G2Affine,
    proof_c: &G1Affine,
    inputs: Vec<U256>,
    vk: &VerificationKey,
) -> (res: Result<bool, ComputationError>)
    requires
        vk.well_formed(),
    ensures
        inputs@.len() != vk.spec_public_inputs() ==> res == Err::<bool, ComputationError>(
            ComputationError::InvalidPublicInputs,
        ),
        inputs@.len() == vk.spec_public_inputs() && !spec_proof_canonical(
            *proof_a,
            *proof_b,
            *proof_c,
        ) ==> res == Err::<bool, ComputationError>(ComputationError::InvalidProofData),
        inputs@.len() == vk.spec_public_inputs() && spec_proof_canonical(
            *proof_a,
            *proof_b,
            *proof_c,
        ) ==> res == Ok::<bool, ComputationError>(
            spec_full_verdict(*proof_a, *proof_b, *proof_c, inputs@, *vk),
        ),
{
    let ghost inputs0 = inputs@;
    let mut state = match new_verification_state(proof_a, proof_b, proof_c, inputs, vk) {
        Ok(s) => s,
        Err(e) => {
            return Err(e);
        },
    };
    while !is_computation_finished(&state)
        invariant
            vk.well_formed(),
            state.well_formed(*vk),
            state.proof_a == *proof_a,
            state.proof_b == *proof_b,
            state.proof_c == *proof_c,
            state.inputs@ == inputs0,
        decreases spec_state_measure(state),
    {
        let r = state.round;
        let step = advance(&mut state, r, vk);
        proof {
            assert(!(step is Error));
        }
    }
    match verify_proof(&state, vk) {
        Ok(v) => Ok(v),
        Err(e) => Err(e),
    }
}

} // verus!

//! The resumable verification state machine.
//!
//! A `VerificationState` is the persisted unit of work: phase, round
//! counter, scratch memories, the proof elements and public inputs, and
//! the running accumulator.  `advance` runs exactly one round per
//! invocation; any call with the wrong round index, or after the verdict
//! was reached, is a sequencing error that leaves the state untouched.

use vstd::prelude::*;

use crate::errors::{ComputationError, RoundResult};
use crate::fexp::{
    fexp_mem, final_exponentiation_partial, spec_final_exponentiation, FINAL_EXP_ROUNDS,
};
use crate::inverse::spec_inverse_fq12;
use crate::field::{
    fq12_one, g1_is_canonical, g2_is_canonical, spec_fq12_canonical, spec_g1_canonical,
    spec_g2_canonical, Fq12, Fq2, Fq6, G1Affine, G2Affine, U256,
};
use crate::miller::{
    lemma_cursor_next_decreases, lemma_rounds_left_decrement, lemma_rounds_left_initial,
    miller_init, miller_inv, miller_loop_partial, spec_cursor_next, spec_miller_loop,
    spec_rounds_left, MillerInputs, MillerState, MILLER_LOOP_ROUNDS,
};
use crate::prepare::{prepare_inputs_partial, spec_prepare_after, spec_prepared_inputs};
use crate::ram::RAM;
use crate::vkey::VerificationKey;

verus! {

/// Scratch capacity for quadratic-tower values.
pub const STATE_FQ2_SLOTS: usize = 10;

/// Scratch capacity for cubic-tower values.
pub const STATE_FQ6_SLOTS: usize = 4;

/// Scratch capacity for accumulator values.
pub const STATE_FQ12_SLOTS: usize = 18;

/// The verification phases, in their fixed order.
#[derive(Clone, Copy, PartialEq, Eq, Structural, Debug)]
pub enum VerificationPhase {
    PreparingInputs,
    MillerLoop,
    FinalExponentiation,
    Done,
}

/// The persisted unit of work: everything one round needs and everything
/// the next round will need.
pub struct VerificationState {
    pub phase: VerificationPhase,
    pub round: usize,
    pub proof_a: G1Affine,
    pub proof_b: G2Affine,
    pub proof_c: G1Affine,
    pub inputs: Vec<U256>,
    pub prepared: G1Affine,
    pub miller: MillerState,
    pub f: Fq12,
    pub ram_fq2: RAM<Fq2>,
    pub ram_fq6: RAM<Fq6>,
    pub ram_fq12: RAM<Fq12>,
    pub verdict: bool,
}

/// Whether the three proof elements carry canonical field encodings.
pub open spec fn spec_proof_canonical(a: G1Affine, b: G2Affine, c: G1Affine) -> bool {
    spec_g1_canonical(a) && spec_g2_canonical(b) && spec_g1_canonical(c)
}

/// The Miller-loop operands a state describes: its proof elements and
/// its fully prepared public-input point.
pub open spec fn spec_state_inputs(s: VerificationState, vk: VerificationKey) -> MillerInputs {
    MillerInputs {
        a: s.proof_a,
        b: s.proof_b,
        c: s.proof_c,
        prep: spec_prepared_inputs(vk, s.inputs@),
    }
}

/// The verdict the whole computation is headed for: the final
/// exponentiation of the Miller-loop output equals the key's target.  An
/// unreachable inversion failure counts as an invalid proof.
pub open spec fn spec_verdict(s: VerificationState, vk: VerificationKey) -> bool {
    match spec_final_exponentiation(spec_miller_loop(spec_state_inputs(s, vk), vk)) {
        Some(y) => y == vk.alpha_beta,
        None => false,
    }
}

impl VerificationState {
    /// The scratch stores sit at their base frames with their fixed
    /// capacities.
    pub open spec fn rams_ready(&self) -> bool {
        &&& self.ram_fq2.well_formed() && self.ram_fq2.frame() == 0 && self.ram_fq2.capacity()
            == STATE_FQ2_SLOTS
        &&& self.ram_fq6.well_formed() && self.ram_fq6.frame() == 0 && self.ram_fq6.capacity()
            == STATE_FQ6_SLOTS
        &&& self.ram_fq12.well_formed() && self.ram_fq12.frame() == 0 && self.ram_fq12.capacity()
            == STATE_FQ12_SLOTS
    }

    /// The state invariant: every phase's working data agrees with the
    /// mathematical value it is supposed to hold at the current round.
    pub open spec fn well_formed(&self, vk: VerificationKey) -> bool {
        &&& vk.well_formed()
        &&& self.rams_ready()
        &&& self.inputs@.len() == vk.spec_public_inputs()
        &&& spec_proof_canonical(self.proof_a, self.proof_b, self.proof_c)
        &&& spec_g1_canonical(self.prepared)
        &&& match self.phase {
            VerificationPhase::PreparingInputs => {
                &&& self.inputs@.len() > 0
                &&& self.round < self.inputs@.len()
                &&& self.prepared == spec_prepare_after(vk, self.inputs@, self.round as int)
            },
            VerificationPhase::MillerLoop => {
                &&& self.prepared == spec_prepared_inputs(vk, self.inputs@)
                &&& self.miller.j < 65
                &&& self.round + spec_rounds_left(
                    self.miller.j as int,
                    self.miller.stage,
                    self.miller.sub as int,
                ) == MILLER_LOOP_ROUNDS
                &&& miller_inv(
                    self.miller,
                    self.ram_fq2,
                    self.ram_fq6,
                    self.ram_fq12,
                    spec_state_inputs(*self, vk),
                    vk,
                )
            },
            VerificationPhase::FinalExponentiation => {
                &&& self.round < FINAL_EXP_ROUNDS
                &&& spec_fq12_canonical(self.f)
                &&& self.f == spec_miller_loop(spec_state_inputs(*self, vk), vk)
                &&& fexp_mem(self.ram_fq12, self.ram_fq6, self.f, self.round as int)
            },
            VerificationPhase::Done => self.verdict == spec_verdict(*self, vk),
        }
    }
}

/// The rounds the key's input preparation takes.
pub fn prepare_inputs_rounds(vk: &VerificationKey) -> (n: usize)
    requires
        vk.well_formed(),
    ensures
        n == vk.spec_public_inputs(),
{
    vk.public_inputs()
}

/// The total rounds a verification against this key takes.
pub fn rounds_total(vk: &VerificationKey) -> (n: usize)
    requires
        vk.well_formed(),
        vk.spec_public_inputs() + MILLER_LOOP_ROUNDS + FINAL_EXP_ROUNDS <= usize::MAX,
    ensures
        n == vk.spec_public_inputs() + MILLER_LOOP_ROUNDS + FINAL_EXP_ROUNDS,
{
    vk.public_inputs() + MILLER_LOOP_ROUNDS + FINAL_EXP_ROUNDS
}

/// Starts a new verification of the given proof elements and public
/// inputs.  Rejects an input list whose length does not match the key.
pub fn new_verification_state(
    proof_a: &G1Affine,
    proof_b: &G2Affine,
    proof_c: &G1Affine,
    inputs: Vec<U256>,
    vk: &VerificationKey,
) -> (res: Result<VerificationState, ComputationError>)
    requires
        vk.well_formed(),
    ensures
        inputs@.len() != vk.spec_public_inputs() ==> res == Err::<
            VerificationState,
            ComputationError,
        >(ComputationError::InvalidPublicInputs),
        inputs@.len() == vk.spec_public_inputs() && !spec_proof_canonical(
            *proof_a,
            *proof_b,
            *proof_c,
        ) ==> res == Err::<VerificationState, ComputationError>(ComputationError::InvalidProofData),
        inputs@.len() == vk.spec_public_inputs() && spec_proof_canonical(
            *proof_a,
            *proof_b,
            *proof_c,
        ) ==> res is Ok && {
            let s = res.unwrap();
            &&& s.well_formed(*vk)
            &&& s.phase != VerificationPhase::Done
            &&& s.round == 0
            &&& s.proof_a == proof_a && s.proof_b == proof_b && s.proof_c == proof_c
            &&& s.inputs@ == inputs@
        },
{
    if inputs.len() != vk.public_inputs() {
        return Err(ComputationError::InvalidPublicInputs);
    }
    if !(g1_is_canonical(proof_a) && g2_is_canonical(proof_b) && g1_is_canonical(proof_c)) {
        return Err(ComputationError::InvalidProofData);
    }
    let n = inputs.len();
    proof {
        lemma_rounds_left_initial();
    }
    let prepared = vk.ic[0];
    let miller = miller_init(
        &MillerInputs { a: *proof_a, b: *proof_b, c: *proof_c, prep: prepared },
    );
    let state = VerificationState {
        phase: if n > 0 {
            VerificationPhase::PreparingInputs
        } else {
            VerificationPhase::MillerLoop
        },
        round: 0,
        proof_a: *proof_a,
        proof_b: *proof_b,
        proof_c: *proof_c,
        inputs,
        prepared,
        miller,
        f: fq12_one(),
        ram_fq2: RAM::new(STATE_FQ2_SLOTS),
        ram_fq6: RAM::new(STATE_FQ6_SLOTS),
        ram_fq12: RAM::new(STATE_FQ12_SLOTS),
        verdict: false,
    };
    Ok(state)
}

/// Advances one round.  A wrong round index or a finished state is a
/// sequencing error: the state is returned untouched, bit for bit.
#[verifier::rlimit(100)]
pub fn advance(state: &mut VerificationState, round_index: usize, vk: &VerificationKey) -> (res:
    RoundResult)
    requires
        old(state).well_formed(*vk),
    ensures
        old(state).phase == VerificationPhase::Done ==> res == RoundResult::Error(
            ComputationError::ComputationIsAlreadyFinished,
        ) && *final(state) == *old(state),
        old(state).phase != VerificationPhase::Done && round_index != old(state).round ==> res
            == RoundResult::Error(ComputationError::InvalidRound) && *final(state) == *old(state),
        old(state).phase != VerificationPhase::Done && round_index == old(state).round ==> {
            &&& final(state).well_formed(*vk)
            &&& final(state).proof_a == old(state).proof_a
            &&& final(state).proof_b == old(state).proof_b
            &&& final(state).proof_c == old(state).proof_c
            &&& final(state).inputs@ == old(state).inputs@
            &&& (res is Continue || res is Done)
            &&& (res is Done <==> final(state).phase == VerificationPhase::Done)
            &&& res is Done ==> res == RoundResult::Done(spec_verdict(*old(state), *vk))
            &&& old(state).phase == VerificationPhase::PreparingInputs ==> (final(state).phase
                == VerificationPhase::PreparingInputs && final(state).round == old(state).round
                + 1) || (final(state).phase == VerificationPhase::MillerLoop && final(state).round
                == 0)
            &&& old(state).phase == VerificationPhase::PreparingInputs ==> (final(state).phase
                == VerificationPhase::MillerLoop <==> old(state).round + 1 == old(
                state,
            ).inputs@.len())
            &&& old(state).phase == VerificationPhase::MillerLoop ==> (final(state).phase
                == VerificationPhase::MillerLoop && final(state).round == old(state).round + 1
                && (final(state).miller.j as int, final(state).miller.stage,
                final(state).miller.sub as int) == spec_cursor_next(
                old(state).miller.j as int,
                old(state).miller.stage,
                old(state).miller.sub as int,
            )) || (final(state).phase == VerificationPhase::FinalExponentiation
                && final(state).round == 0)
            &&& old(state).phase == VerificationPhase::MillerLoop ==> (final(state).phase
                == VerificationPhase::FinalExponentiation <==> old(state).round + 1
                == MILLER_LOOP_ROUNDS)
            &&& old(state).phase == VerificationPhase::FinalExponentiation ==> (final(state).phase
                == VerificationPhase::FinalExponentiation && final(state).round == old(state).round
                + 1) || final(state).phase == VerificationPhase::Done
            &&& old(state).phase == VerificationPhase::FinalExponentiation ==> (final(state).phase
                == VerificationPhase::Done <==> old(state).round == FINAL_EXP_ROUNDS - 1 || (old(
                state,
            ).round == 4 && spec_inverse_fq12(old(state).f) is None))
        },
{
    match state.phase {
        VerificationPhase::Done => RoundResult::Error(
            ComputationError::ComputationIsAlreadyFinished,
        ),
        _ => {
            if round_index != state.round {
                return RoundResult::Error(ComputationError::InvalidRound);
            }
            match state.phase {
                VerificationPhase::Done => RoundResult::Error(
                    ComputationError::ComputationIsAlreadyFinished,
                ),
                VerificationPhase::PreparingInputs => {
                    let n = state.inputs.len();
                    state.prepared = prepare_inputs_partial(
                        state.round,
                        &state.prepared,
                        &state.inputs,
                        vk,
                    );
                    if state.round + 1 == n {
                        proof {
                            lemma_rounds_left_initial();
                        }
                        state.miller = miller_init(
                            &MillerInputs {
                                a: state.proof_a,
                                b: state.proof_b,
                                c: state.proof_c,
                                prep: state.prepared,
                            },
                        );
                        state.phase = VerificationPhase::MillerLoop;
                        state.round = 0;
                    } else {
                        state.round = state.round + 1;
                    }
                    RoundResult::Continue
                },
                VerificationPhase::MillerLoop => {
                    let inp = MillerInputs {
                        a: state.proof_a,
                        b: state.proof_b,
                        c: state.proof_c,
                        prep: state.prepared,
                    };
                    let out = miller_loop_partial(
                        &mut state.miller,
                        &mut state.ram_fq2,
                        &mut state.ram_fq6,
                        &mut state.ram_fq12,
                        &inp,
                        vk,
                    );
                    proof {
                        lemma_cursor_next_decreases(
                            old(state).miller.j as int,
                            old(state).miller.stage,
                            old(state).miller.sub as int,
                        );
                        lemma_rounds_left_decrement(
                            old(state).miller.j as int,
                            old(state).miller.stage,
                            old(state).miller.sub as int,
                        );
                    }
                    match out {
                        Some(f) => {
                            state.f = f;
                            state.phase = VerificationPhase::FinalExponentiation;
                            state.round = 0;
                        },
                        None => {
                            state.round = state.round + 1;
                            proof {
                                if state.miller.j < 65 {
                                    lemma_rounds_left_decrement(
                                        state.miller.j as int,
                                        state.miller.stage,
                                        state.miller.sub as int,
                                    );
                                }
                            }
                        },
                    }
                    RoundResult::Continue
                },
                VerificationPhase::FinalExponentiation => {
                    let out = final_exponentiation_partial(
                        state.round,
                        &mut state.ram_fq12,
                        &mut state.ram_fq6,
                        &state.f,
                    );
                    match out {
                        Err(_) => {
                            state.verdict = false;
                            state.phase = VerificationPhase::Done;
                            RoundResult::Done(false)
                        },
                        Ok(Some(y)) => {
                            let v = y == vk.alpha_beta;
                            state.verdict = v;
                            state.phase = VerificationPhase::Done;
                            RoundResult::Done(v)
                        },
                        Ok(None) => {
                            state.round = state.round + 1;
                            RoundResult::Continue
                        },
                    }
                },
            }
        },
    }
}

/// Whether the verdict has been reached.
pub fn is_computation_finished(state: &VerificationState) -> (r: bool)
    ensures
        r == (state.phase == VerificationPhase::Done),
{
    match state.phase {
        VerificationPhase::Done => true,
        _ => false,
    }
}

/// The verdict of a finished verification; asking before the final round
/// ran is an error.
pub fn verify_proof(state: &VerificationState, vk: &VerificationKey) -> (res: Result<
    bool,
    ComputationError,
>)
    requires
        state.well_formed(*vk),
    ensures
        state.phase != VerificationPhase::Done ==> res == Err::<bool, ComputationError>(
            ComputationError::ComputationIsNotYetFinished,
        ),
        state.phase == VerificationPhase::Done ==> res == Ok::<bool, ComputationError>(
            spec_verdict(*state, *vk),
        ),
{
    if !is_computation_finished(state) {
        return Err(ComputationError::ComputationIsNotYetFinished);
    }
    Ok(state.verdict)
}

} // verus!

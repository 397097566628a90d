//! Input preparation: folds the public inputs into one curve point,
//! `ic[0] + sum(input_i * ic[i + 1])`, one scalar multiplication per
//! round.  The round count equals the public-input count, so it is fixed
//! by the verification key, not by the input values.

use vstd::prelude::*;

use crate::field::{g1_add, g1_mul, spec_g1_add, spec_g1_canonical, spec_g1_mul, G1Affine, U256};
use crate::vkey::VerificationKey;

verus! {

/// The accumulated point after the first `n` public inputs are folded in.
pub open spec fn spec_prepare_after(vk: VerificationKey, inputs: Seq<U256>, n: int) -> G1Affine
    decreases n,
{
    if n <= 0 {
        vk.ic@[0]
    } else {
        spec_g1_add(
            spec_prepare_after(vk, inputs, n - 1),
            spec_g1_mul(vk.ic@[n], inputs[n - 1]),
        )
    }
}

/// The fully prepared public-input point.
pub open spec fn spec_prepared_inputs(vk: VerificationKey, inputs: Seq<U256>) -> G1Affine {
    spec_prepare_after(vk, inputs, inputs.len() as int)
}

/// One round of input preparation: folds public input `round` into the
/// accumulator.  The caller starts from `acc == ic[0]` and drives `round`
/// from `0` to the public-input count minus one.
pub fn prepare_inputs_partial(
    round: usize,
    acc: &G1Affine,
    inputs: &Vec<U256>,
    vk: &VerificationKey,
) -> (r: G1Affine)
    requires
        vk.well_formed(),
        inputs@.len() == vk.spec_public_inputs(),
        round < inputs@.len(),
        *acc == spec_prepare_after(*vk, inputs@, round as int),
        spec_g1_canonical(*acc),
    ensures
        r == spec_prepare_after(*vk, inputs@, round as int + 1),
        spec_g1_canonical(r),
{
    let n = vk.ic.len();
    let base = vk.ic[round + 1];
    let term = g1_mul(&base, &inputs[round]);
    g1_add(acc, &term)
}

} // verus!

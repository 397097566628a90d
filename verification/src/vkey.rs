//! The per-circuit verification key: the prepared line coefficients of the
//! two static pairings, the input-commitment bases, and the target value
//! the accumulator is compared against.

use vstd::prelude::*;

use crate::field::{
    fq2_is_canonical, g1_is_canonical, spec_coeffs_canonical, spec_fq2_zero, spec_g1_canonical,
    Fq12, Fq2, G1Affine, LineCoefficients,
};

verus! {

/// Static line coefficients each of the two fixed pairings provides: one
/// set per doubling, one per addition (25 non-zero digits), and two for
/// the closing Frobenius additions.
pub const STATIC_COEFF_COUNT: usize = 91;

/// A verification key: per-iteration prepared line coefficients for the
/// two static pairings, the input-commitment bases, and the target
/// pairing value.
pub struct VerificationKey {
    /// The target value; the verdict is the accumulator's equality with it.
    pub alpha_beta: Fq12,
    /// Prepared coefficients of the negated gamma pairing.
    pub gamma_neg_pc: Vec<LineCoefficients>,
    /// Prepared coefficients of the negated delta pairing.
    pub delta_neg_pc: Vec<LineCoefficients>,
    /// Input-commitment bases; one more than the public-input count.
    pub ic: Vec<G1Affine>,
}

impl VerificationKey {
    /// A key is well-formed when both static pairings carry a full set of
    /// coefficients, at least the constant commitment base is present, and
    /// every field element in it is a canonical residue.
    pub open spec fn well_formed(&self) -> bool {
        &&& self.gamma_neg_pc@.len() == STATIC_COEFF_COUNT
        &&& self.delta_neg_pc@.len() == STATIC_COEFF_COUNT
        &&& self.ic@.len() >= 1
        &&& forall|k: int|
            0 <= k < self.gamma_neg_pc@.len() ==> spec_coeffs_canonical(self.gamma_neg_pc@[k])
        &&& forall|k: int|
            0 <= k < self.delta_neg_pc@.len() ==> spec_coeffs_canonical(self.delta_neg_pc@[k])
        &&& forall|k: int| 0 <= k < self.ic@.len() ==> spec_g1_canonical(self.ic@[k])
    }

    /// Decides well-formedness at run time, for callers that receive the
    /// key from outside.
    pub fn check_well_formed(&self) -> (r: bool)
        ensures
            r == self.well_formed(),
    {
        if self.gamma_neg_pc.len() != STATIC_COEFF_COUNT {
            return false;
        }
        if self.delta_neg_pc.len() != STATIC_COEFF_COUNT {
            return false;
        }
        if self.ic.len() < 1 {
            return false;
        }
        let mut k: usize = 0;
        while k < self.gamma_neg_pc.len()
            invariant
                k <= self.gamma_neg_pc@.len(),
                forall|i: int| 0 <= i < k ==> spec_coeffs_canonical(self.gamma_neg_pc@[i]),
            decreases self.gamma_neg_pc@.len() - k,
        {
            let c = self.gamma_neg_pc[k];
            if !(fq2_is_canonical(&c.c0) && fq2_is_canonical(&c.c1) && fq2_is_canonical(&c.c2)) {
                return false;
            }
            k = k + 1;
        }
        let mut k: usize = 0;
        while k < self.delta_neg_pc.len()
            invariant
                k <= self.delta_neg_pc@.len(),
                forall|i: int| 0 <= i < k ==> spec_coeffs_canonical(self.delta_neg_pc@[i]),
            decreases self.delta_neg_pc@.len() - k,
        {
            let c = self.delta_neg_pc[k];
            if !(fq2_is_canonical(&c.c0) && fq2_is_canonical(&c.c1) && fq2_is_canonical(&c.c2)) {
                return false;
            }
            k = k + 1;
        }
        let mut k: usize = 0;
        while k < self.ic.len()
            invariant
                k <= self.ic@.len(),
                forall|i: int| 0 <= i < k ==> spec_g1_canonical(self.ic@[i]),
            decreases self.ic@.len() - k,
        {
            if !g1_is_canonical(&self.ic[k]) {
                return false;
            }
            k = k + 1;
        }
        true
    }

    /// The number of public inputs the key expects.
    pub open spec fn spec_public_inputs(&self) -> int {
        self.ic@.len() - 1
    }

    pub fn public_inputs(&self) -> (n: usize)
        requires
            self.well_formed(),
        ensures
            n == self.spec_public_inputs(),
    {
        self.ic.len() - 1
    }
}

/// The zero line coefficients; what a missing static-coefficient slot
/// reads as.  A well-formed key never reaches it.
pub open spec fn spec_zero_coeffs() -> LineCoefficients {
    LineCoefficients { c0: spec_fq2_zero(), c1: spec_fq2_zero(), c2: spec_fq2_zero() }
}

/// Total lookup of the gamma pairing's coefficient `k`.
pub open spec fn spec_gamma_coeff(vk: VerificationKey, k: int) -> LineCoefficients {
    if 0 <= k < vk.gamma_neg_pc@.len() {
        vk.gamma_neg_pc@[k]
    } else {
        spec_zero_coeffs()
    }
}

/// Total lookup of the delta pairing's coefficient `k`.
pub open spec fn spec_delta_coeff(vk: VerificationKey, k: int) -> LineCoefficients {
    if 0 <= k < vk.delta_neg_pc@.len() {
        vk.delta_neg_pc@[k]
    } else {
        spec_zero_coeffs()
    }
}

pub fn gamma_coeff(vk: &VerificationKey, k: usize) -> (r: LineCoefficients)
    ensures
        r == spec_gamma_coeff(*vk, k as int),
        vk.well_formed() ==> spec_coeffs_canonical(r),
{
    if k < vk.gamma_neg_pc.len() {
        vk.gamma_neg_pc[k]
    } else {
        LineCoefficients {
            c0: crate::field::fq2_zero(),
            c1: crate::field::fq2_zero(),
            c2: crate::field::fq2_zero(),
        }
    }
}

pub fn delta_coeff(vk: &VerificationKey, k: usize) -> (r: LineCoefficients)
    ensures
        r == spec_delta_coeff(*vk, k as int),
        vk.well_formed() ==> spec_coeffs_canonical(r),
{
    if k < vk.delta_neg_pc.len() {
        vk.delta_neg_pc[k]
    } else {
        LineCoefficients {
            c0: crate::field::fq2_zero(),
            c1: crate::field::fq2_zero(),
            c2: crate::field::fq2_zero(),
        }
    }
}

} // verus!

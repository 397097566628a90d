//! The combined Miller loop: the signed-ternary digit walk over the loop
//! length, with the dynamic pairing's line coefficients generated on the
//! fly from the proof's twisted-curve point and the two static pairings'
//! coefficients taken from the verification key.
//!
//! The loop is a cursor machine: the persisted state records which digit,
//! which stage inside the digit (square, doubling, the three line
//! evaluations, the optional addition and its three line evaluations) and
//! which round inside the stage comes next.  One call runs exactly one
//! round.  The closing stages fold in the two Frobenius-twisted additions.
//! The cursor's successor is a function of the cursor alone, so the number
//! of rounds to completion never depends on the input values.

use vstd::prelude::*;

use crate::curve_steps::{
    addition_step_partial, char_mem, dbl_mem, doubling_step_partial, mul_by_characteristics_partial,
    spec_addition_step, spec_doubling_step, spec_mul_by_characteristics, CoefficientsResult,
};
use crate::field::{
    fq12_one, fq12_square, fq2_neg, fq2_one, spec_coeffs_canonical, spec_fq12_canonical,
    spec_fq12_one, spec_fq12_square, spec_fq2_neg, spec_fq2_one, spec_g1_canonical,
    spec_g2_canonical, spec_g2hom_canonical, Fq12, Fq2, Fq6, G1Affine, G2Affine, G2HomProjective,
    LineCoefficients,
};
use crate::mul034::{ell_mem, ell_partial};
use crate::ram::{ram_frame_kept, ram_preserved_outside, RAM};
use crate::tower::spec_ell;
use crate::vkey::{gamma_coeff, delta_coeff, spec_delta_coeff, spec_gamma_coeff, VerificationKey};

verus! {

/// Total rounds of the combined Miller loop: 63 squarings, 64 doublings
/// with three line evaluations each, 25 additions with three line
/// evaluations each, and the closing twisted additions.
pub const MILLER_LOOP_ROUNDS: usize = 1924;

/// Quadratic-tower scratch slots the loop occupies (the doubling step's
/// window; the line evaluations reuse its low slots).
pub const MILLER_FQ2_SLOTS: usize = 10;

/// Cubic-tower scratch slots the loop occupies.
pub const MILLER_FQ6_SLOTS: usize = 3;

/// Accumulator scratch slots the loop occupies.
pub const MILLER_FQ12_SLOTS: usize = 1;

/// The signed-ternary digit sequence over the loop length.
pub open spec fn spec_ate() -> Seq<i8> {
    seq![
        0i8, 0, 0, 1, 0, 1, 0, -1i8, 0, 0, 1, -1i8, 0, 0, 1, 0, 0, 1, 1, 0, -1i8, 0, 0, 1, 0, -1i8, 0, 0,
        0, 0, 1, 1, 1, 0, 0, -1i8, 0, 0, 1, 0, 0, 0, 0, 0, -1i8, 0, 0, 1, 1, 0, 0, -1i8, 0, 0, 0, 1,
        1, 0, -1i8, 0, 0, 1, 0, 1, 1,
    ]
}

/// Digit `idx` of the fixed loop sequence.
pub fn ate_digit(idx: usize) -> (d: i8)
    requires
        idx < 65,
    ensures
        d == spec_ate()[idx as int],
{
    let table: [i8; 65] = [
        0i8, 0, 0, 1, 0, 1, 0, -1, 0, 0, 1, -1, 0, 0, 1, 0, 0, 1, 1, 0, -1, 0, 0, 1, 0, -1, 0, 0,
        0, 0, 1, 1, 1, 0, 0, -1, 0, 0, 1, 0, 0, 0, 0, 0, -1, 0, 0, 1, 1, 0, 0, -1, 0, 0, 0, 1,
        1, 0, -1, 0, 0, 1, 0, 1, 1,
    ];
    let d = table[idx];
    proof {
        assert(table@ =~= spec_ate());
    }
    d
}

/// The digit that drives main-loop iteration `j`.
pub open spec fn spec_bit(j: int) -> i8 {
    spec_ate()[63 - j]
}

/// The negation of an affine twisted-curve point.
pub open spec fn spec_g2_neg(q: G2Affine) -> G2Affine {
    G2Affine { x: q.x, y: spec_fq2_neg(q.y), infinity: q.infinity }
}

/// The proof-dependent inputs of the loop: the three pairing operands'
/// base-curve points and the twisted-curve point whose coefficients are
/// generated on the fly.
pub struct MillerInputs {
    /// The proof element `A`, paired with `B`.
    pub a: G1Affine,
    /// The proof element `B`; its line coefficients are computed here.
    pub b: G2Affine,
    /// The proof element `C`, paired with the key's delta coefficients.
    pub c: G1Affine,
    /// The prepared public-input point, paired with the key's gamma
    /// coefficients.
    pub prep: G1Affine,
}

/// The stage the cursor stands in inside one digit, or in the epilogue.
#[derive(Clone, Copy, PartialEq, Eq, Structural, Debug)]
pub enum MillerStage {
    Square,
    Dbl,
    EllDyn,
    EllGamma,
    EllDelta,
    Add,
    AddEllDyn,
    AddEllGamma,
    AddEllDelta,
    CharQ1,
    CharQ2,
    AddQ1,
    Q1EllDyn,
    Q1EllGamma,
    Q1EllDelta,
    AddQ2,
    Q2EllDyn,
    Q2EllGamma,
    Q2EllDelta,
}

/// The persisted Miller-loop state: the cursor, the working point, the
/// accumulator, the latest dynamic line coefficients, the static
/// coefficient index, and the two Frobenius-twisted points.
pub struct MillerState {
    pub j: usize,
    pub stage: MillerStage,
    pub sub: usize,
    pub k: usize,
    pub r: G2HomProjective,
    pub f: Fq12,
    pub coeffs: LineCoefficients,
    pub q1: G2Affine,
    pub q2: G2Affine,
}

/// A mathematical snapshot of the loop between iterations.
pub struct MillerSnap {
    pub r: G2HomProjective,
    pub f: Fq12,
    pub k: int,
}

/// The snapshot before the first iteration.
pub open spec fn spec_miller_init(b: G2Affine) -> MillerSnap {
    MillerSnap {
        r: G2HomProjective { x: b.x, y: b.y, z: spec_fq2_one() },
        f: spec_fq12_one(),
        k: 0,
    }
}

/// The accumulator at iteration `j`'s doubling: squared on every
/// iteration but the first.
pub open spec fn spec_iter_f1(s: MillerSnap, j: int) -> Fq12 {
    if j > 0 {
        spec_fq12_square(s.f)
    } else {
        s.f
    }
}

pub open spec fn spec_iter_dbl(s: MillerSnap) -> CoefficientsResult {
    spec_doubling_step(s.r)
}

pub open spec fn spec_iter_f2(s: MillerSnap, j: int, inp: MillerInputs) -> Fq12 {
    spec_ell(spec_iter_dbl(s).coeffs, inp.a, spec_iter_f1(s, j))
}

pub open spec fn spec_iter_f3(
    s: MillerSnap,
    j: int,
    inp: MillerInputs,
    vk: VerificationKey,
) -> Fq12 {
    spec_ell(spec_gamma_coeff(vk, s.k), inp.prep, spec_iter_f2(s, j, inp))
}

pub open spec fn spec_iter_f4(
    s: MillerSnap,
    j: int,
    inp: MillerInputs,
    vk: VerificationKey,
) -> Fq12 {
    spec_ell(spec_delta_coeff(vk, s.k), inp.c, spec_iter_f3(s, j, inp, vk))
}

/// The point added on a non-zero digit: `B` or its negation.
pub open spec fn spec_iter_q(inp: MillerInputs, j: int) -> G2Affine {
    if spec_bit(j) == 1 {
        inp.b
    } else {
        spec_g2_neg(inp.b)
    }
}

pub open spec fn spec_iter_add(s: MillerSnap, j: int, inp: MillerInputs) -> CoefficientsResult {
    spec_addition_step(spec_iter_dbl(s).new_r, spec_iter_q(inp, j))
}

pub open spec fn spec_iter_f5(
    s: MillerSnap,
    j: int,
    inp: MillerInputs,
    vk: VerificationKey,
) -> Fq12 {
    spec_ell(spec_iter_add(s, j, inp).coeffs, inp.a, spec_iter_f4(s, j, inp, vk))
}

pub open spec fn spec_iter_f6(
    s: MillerSnap,
    j: int,
    inp: MillerInputs,
    vk: VerificationKey,
) -> Fq12 {
    spec_ell(spec_gamma_coeff(vk, s.k + 1), inp.prep, spec_iter_f5(s, j, inp, vk))
}

pub open spec fn spec_iter_f7(
    s: MillerSnap,
    j: int,
    inp: MillerInputs,
    vk: VerificationKey,
) -> Fq12 {
    spec_ell(spec_delta_coeff(vk, s.k + 1), inp.c, spec_iter_f6(s, j, inp, vk))
}

/// One whole main-loop iteration.
pub open spec fn spec_miller_iter(
    s: MillerSnap,
    j: int,
    inp: MillerInputs,
    vk: VerificationKey,
) -> MillerSnap {
    if spec_bit(j) == 0 {
        MillerSnap { r: spec_iter_dbl(s).new_r, f: spec_iter_f4(s, j, inp, vk), k: s.k + 1 }
    } else {
        MillerSnap { r: spec_iter_add(s, j, inp).new_r, f: spec_iter_f7(s, j, inp, vk), k: s.k + 2 }
    }
}

/// The snapshot after the first `j` main-loop iterations.
pub open spec fn spec_miller_main(inp: MillerInputs, vk: VerificationKey, j: int) -> MillerSnap
    decreases j,
{
    if j <= 0 {
        spec_miller_init(inp.b)
    } else {
        spec_miller_iter(spec_miller_main(inp, vk, j - 1), j - 1, inp, vk)
    }
}

// Epilogue: the two Frobenius-twisted additions.

pub open spec fn spec_q1(inp: MillerInputs) -> G2Affine {
    spec_mul_by_characteristics(inp.b)
}

pub open spec fn spec_q2(inp: MillerInputs) -> G2Affine {
    spec_g2_neg(spec_mul_by_characteristics(spec_q1(inp)))
}

pub open spec fn spec_epi_add1(inp: MillerInputs, vk: VerificationKey) -> CoefficientsResult {
    spec_addition_step(spec_miller_main(inp, vk, 64).r, spec_q1(inp))
}

pub open spec fn spec_epi_g1(inp: MillerInputs, vk: VerificationKey) -> Fq12 {
    spec_ell(spec_epi_add1(inp, vk).coeffs, inp.a, spec_miller_main(inp, vk, 64).f)
}

pub open spec fn spec_epi_g2(inp: MillerInputs, vk: VerificationKey) -> Fq12 {
    spec_ell(spec_gamma_coeff(vk, spec_miller_main(inp, vk, 64).k), inp.prep, spec_epi_g1(inp, vk))
}

pub open spec fn spec_epi_g3(inp: MillerInputs, vk: VerificationKey) -> Fq12 {
    spec_ell(spec_delta_coeff(vk, spec_miller_main(inp, vk, 64).k), inp.c, spec_epi_g2(inp, vk))
}

pub open spec fn spec_epi_add2(inp: MillerInputs, vk: VerificationKey) -> CoefficientsResult {
    spec_addition_step(spec_epi_add1(inp, vk).new_r, spec_q2(inp))
}

pub open spec fn spec_epi_h1(inp: MillerInputs, vk: VerificationKey) -> Fq12 {
    spec_ell(spec_epi_add2(inp, vk).coeffs, inp.a, spec_epi_g3(inp, vk))
}

pub open spec fn spec_epi_h2(inp: MillerInputs, vk: VerificationKey) -> Fq12 {
    spec_ell(
        spec_gamma_coeff(vk, spec_miller_main(inp, vk, 64).k + 1),
        inp.prep,
        spec_epi_h1(inp, vk),
    )
}

pub open spec fn spec_epi_h3(inp: MillerInputs, vk: VerificationKey) -> Fq12 {
    spec_ell(
        spec_delta_coeff(vk, spec_miller_main(inp, vk, 64).k + 1),
        inp.c,
        spec_epi_h2(inp, vk),
    )
}

/// The Miller-loop accumulator after every round has run.  The curve
/// parameter is positive, so no closing conjugation applies.
pub open spec fn spec_miller_loop(inp: MillerInputs, vk: VerificationKey) -> Fq12 {
    spec_epi_h3(inp, vk)
}

// ---------------------------------------------------------------------------
// The cursor
// ---------------------------------------------------------------------------

/// The cursor's successor: a function of the cursor alone.  Round counts
/// therefore never depend on the input values.
pub open spec fn spec_cursor_next(j: int, stage: MillerStage, sub: int) -> (int, MillerStage, int) {
    match stage {
        MillerStage::Square => (j, MillerStage::Dbl, 0),
        MillerStage::Dbl => if sub < 2 {
            (j, MillerStage::Dbl, sub + 1)
        } else {
            (j, MillerStage::EllDyn, 0)
        },
        MillerStage::EllDyn => if sub < 5 {
            (j, MillerStage::EllDyn, sub + 1)
        } else {
            (j, MillerStage::EllGamma, 0)
        },
        MillerStage::EllGamma => if sub < 5 {
            (j, MillerStage::EllGamma, sub + 1)
        } else {
            (j, MillerStage::EllDelta, 0)
        },
        MillerStage::EllDelta => if sub < 5 {
            (j, MillerStage::EllDelta, sub + 1)
        } else if spec_bit(j) != 0 {
            (j, MillerStage::Add, 0)
        } else if j < 63 {
            (j + 1, MillerStage::Square, 0)
        } else {
            (64, MillerStage::CharQ1, 0)
        },
        MillerStage::Add => (j, MillerStage::AddEllDyn, 0),
        MillerStage::AddEllDyn => if sub < 5 {
            (j, MillerStage::AddEllDyn, sub + 1)
        } else {
            (j, MillerStage::AddEllGamma, 0)
        },
        MillerStage::AddEllGamma => if sub < 5 {
            (j, MillerStage::AddEllGamma, sub + 1)
        } else {
            (j, MillerStage::AddEllDelta, 0)
        },
        MillerStage::AddEllDelta => if sub < 5 {
            (j, MillerStage::AddEllDelta, sub + 1)
        } else if j < 63 {
            (j + 1, MillerStage::Square, 0)
        } else {
            (64, MillerStage::CharQ1, 0)
        },
        MillerStage::CharQ1 => if sub < 1 {
            (64, MillerStage::CharQ1, 1)
        } else {
            (64, MillerStage::CharQ2, 0)
        },
        MillerStage::CharQ2 => if sub < 1 {
            (64, MillerStage::CharQ2, 1)
        } else {
            (64, MillerStage::AddQ1, 0)
        },
        MillerStage::AddQ1 => (64, MillerStage::Q1EllDyn, 0),
        MillerStage::Q1EllDyn => if sub < 5 {
            (64, MillerStage::Q1EllDyn, sub + 1)
        } else {
            (64, MillerStage::Q1EllGamma, 0)
        },
        MillerStage::Q1EllGamma => if sub < 5 {
            (64, MillerStage::Q1EllGamma, sub + 1)
        } else {
            (64, MillerStage::Q1EllDelta, 0)
        },
        MillerStage::Q1EllDelta => if sub < 5 {
            (64, MillerStage::Q1EllDelta, sub + 1)
        } else {
            (64, MillerStage::AddQ2, 0)
        },
        MillerStage::AddQ2 => (64, MillerStage::Q2EllDyn, 0),
        MillerStage::Q2EllDyn => if sub < 5 {
            (64, MillerStage::Q2EllDyn, sub + 1)
        } else {
            (64, MillerStage::Q2EllGamma, 0)
        },
        MillerStage::Q2EllGamma => if sub < 5 {
            (64, MillerStage::Q2EllGamma, sub + 1)
        } else {
            (64, MillerStage::Q2EllDelta, 0)
        },
        MillerStage::Q2EllDelta => if sub < 5 {
            (64, MillerStage::Q2EllDelta, sub + 1)
        } else {
            (65, MillerStage::Square, 0)
        },
    }
}

/// The cursor position after the last round.
pub open spec fn spec_cursor_done(j: int, stage: MillerStage, sub: int) -> bool {
    j == 65
}

// ---------------------------------------------------------------------------
// The state invariant
// ---------------------------------------------------------------------------

/// Ties the persisted state at the current cursor to the mathematical
/// snapshots: the working point, the accumulator, the coefficient index
/// and the scratch stores all agree with the dataflow's values there.
pub open spec fn miller_inv(
    ms: MillerState,
    ram_fq2: RAM<Fq2>,
    ram_fq6: RAM<Fq6>,
    ram_fq12: RAM<Fq12>,
    inp: MillerInputs,
    vk: VerificationKey,
) -> bool {
    let j = ms.j as int;
    let sub = ms.sub as int;
    let s = spec_miller_main(inp, vk, j);
    &&& spec_fq12_canonical(ms.f)
    &&& spec_g2hom_canonical(ms.r)
    &&& spec_coeffs_canonical(ms.coeffs)
    &&& spec_g2_canonical(ms.q1)
    &&& spec_g2_canonical(ms.q2)
    &&& spec_cursor_ok(ms.j as int, ms.stage, ms.sub as int)
    &&& match ms.stage {
        MillerStage::Square => (1 <= j <= 63 && sub == 0 && ms.r == s.r && ms.f == s.f && ms.k
            == s.k) || (j == 65 && sub == 0),
        MillerStage::Dbl => {
            &&& 0 <= j <= 63
            &&& sub < 3
            &&& ms.r == s.r
            &&& ms.f == spec_iter_f1(s, j)
            &&& ms.k == s.k
            &&& dbl_mem(ram_fq2, s.r, sub)
        },
        MillerStage::EllDyn => {
            &&& 0 <= j <= 63
            &&& sub < 6
            &&& ms.r == spec_iter_dbl(s).new_r
            &&& ms.coeffs == spec_iter_dbl(s).coeffs
            &&& ms.f == spec_iter_f1(s, j)
            &&& ms.k == s.k
            &&& ell_mem(
                ram_fq2,
                ram_fq6,
                ram_fq12,
                spec_iter_dbl(s).coeffs,
                inp.a,
                spec_iter_f1(s, j),
                sub,
            )
        },
        MillerStage::EllGamma => {
            &&& 0 <= j <= 63
            &&& sub < 6
            &&& ms.r == spec_iter_dbl(s).new_r
            &&& ms.f == spec_iter_f2(s, j, inp)
            &&& ms.k == s.k
            &&& ell_mem(
                ram_fq2,
                ram_fq6,
                ram_fq12,
                spec_gamma_coeff(vk, s.k),
                inp.prep,
                spec_iter_f2(s, j, inp),
                sub,
            )
        },
        MillerStage::EllDelta => {
            &&& 0 <= j <= 63
            &&& sub < 6
            &&& ms.r == spec_iter_dbl(s).new_r
            &&& ms.f == spec_iter_f3(s, j, inp, vk)
            &&& ms.k == s.k
            &&& ell_mem(
                ram_fq2,
                ram_fq6,
                ram_fq12,
                spec_delta_coeff(vk, s.k),
                inp.c,
                spec_iter_f3(s, j, inp, vk),
                sub,
            )
        },
        MillerStage::Add => {
            &&& 0 <= j <= 63
            &&& sub == 0
            &&& spec_bit(j) != 0
            &&& ms.r == spec_iter_dbl(s).new_r
            &&& ms.f == spec_iter_f4(s, j, inp, vk)
            &&& ms.k == s.k + 1
        },
        MillerStage::AddEllDyn => {
            &&& 0 <= j <= 63
            &&& sub < 6
            &&& spec_bit(j) != 0
            &&& ms.r == spec_iter_add(s, j, inp).new_r
            &&& ms.coeffs == spec_iter_add(s, j, inp).coeffs
            &&& ms.f == spec_iter_f4(s, j, inp, vk)
            &&& ms.k == s.k + 1
            &&& ell_mem(
                ram_fq2,
                ram_fq6,
                ram_fq12,
                spec_iter_add(s, j, inp).coeffs,
                inp.a,
                spec_iter_f4(s, j, inp, vk),
                sub,
            )
        },
        MillerStage::AddEllGamma => {
            &&& 0 <= j <= 63
            &&& sub < 6
            &&& spec_bit(j) != 0
            &&& ms.r == spec_iter_add(s, j, inp).new_r
            &&& ms.f == spec_iter_f5(s, j, inp, vk)
            &&& ms.k == s.k + 1
            &&& ell_mem(
                ram_fq2,
                ram_fq6,
                ram_fq12,
                spec_gamma_coeff(vk, s.k + 1),
                inp.prep,
                spec_iter_f5(s, j, inp, vk),
                sub,
            )
        },
        MillerStage::AddEllDelta => {
            &&& 0 <= j <= 63
            &&& sub < 6
            &&& spec_bit(j) != 0
            &&& ms.r == spec_iter_add(s, j, inp).new_r
            &&& ms.f == spec_iter_f6(s, j, inp, vk)
            &&& ms.k == s.k + 1
            &&& ell_mem(
                ram_fq2,
                ram_fq6,
                ram_fq12,
                spec_delta_coeff(vk, s.k + 1),
                inp.c,
                spec_iter_f6(s, j, inp, vk),
                sub,
            )
        },
        MillerStage::CharQ1 => {
            &&& j == 64
            &&& sub < 2
            &&& ms.r == s.r
            &&& ms.f == s.f
            &&& ms.k == s.k
            &&& char_mem(ram_fq2, inp.b, sub)
        },
        MillerStage::CharQ2 => {
            &&& j == 64
            &&& sub < 2
            &&& ms.r == s.r
            &&& ms.f == s.f
            &&& ms.k == s.k
            &&& ms.q1 == spec_q1(inp)
            &&& char_mem(ram_fq2, spec_q1(inp), sub)
        },
        MillerStage::AddQ1 => {
            &&& j == 64
            &&& sub == 0
            &&& ms.r == s.r
            &&& ms.f == s.f
            &&& ms.k == s.k
            &&& ms.q1 == spec_q1(inp)
            &&& ms.q2 == spec_q2(inp)
        },
        MillerStage::Q1EllDyn => {
            &&& j == 64
            &&& sub < 6
            &&& ms.r == spec_epi_add1(inp, vk).new_r
            &&& ms.coeffs == spec_epi_add1(inp, vk).coeffs
            &&& ms.f == s.f
            &&& ms.k == s.k
            &&& ms.q2 == spec_q2(inp)
            &&& ell_mem(
                ram_fq2,
                ram_fq6,
                ram_fq12,
                spec_epi_add1(inp, vk).coeffs,
                inp.a,
                s.f,
                sub,
            )
        },
        MillerStage::Q1EllGamma => {
            &&& j == 64
            &&& sub < 6
            &&& ms.r == spec_epi_add1(inp, vk).new_r
            &&& ms.f == spec_epi_g1(inp, vk)
            &&& ms.k == s.k
            &&& ms.q2 == spec_q2(inp)
            &&& ell_mem(
                ram_fq2,
                ram_fq6,
                ram_fq12,
                spec_gamma_coeff(vk, s.k),
                inp.prep,
                spec_epi_g1(inp, vk),
                sub,
            )
        },
        MillerStage::Q1EllDelta => {
            &&& j == 64
            &&& sub < 6
            &&& ms.r == spec_epi_add1(inp, vk).new_r
            &&& ms.f == spec_epi_g2(inp, vk)
            &&& ms.k == s.k
            &&& ms.q2 == spec_q2(inp)
            &&& ell_mem(
                ram_fq2,
                ram_fq6,
                ram_fq12,
                spec_delta_coeff(vk, s.k),
                inp.c,
                spec_epi_g2(inp, vk),
                sub,
            )
        },
        MillerStage::AddQ2 => {
            &&& j == 64
            &&& sub == 0
            &&& ms.r == spec_epi_add1(inp, vk).new_r
            &&& ms.f == spec_epi_g3(inp, vk)
            &&& ms.k == s.k + 1
            &&& ms.q2 == spec_q2(inp)
        },
        MillerStage::Q2EllDyn => {
            &&& j == 64
            &&& sub < 6
            &&& ms.r == spec_epi_add2(inp, vk).new_r
            &&& ms.coeffs == spec_epi_add2(inp, vk).coeffs
            &&& ms.f == spec_epi_g3(inp, vk)
            &&& ms.k == s.k + 1
            &&& ell_mem(
                ram_fq2,
                ram_fq6,
                ram_fq12,
                spec_epi_add2(inp, vk).coeffs,
                inp.a,
                spec_epi_g3(inp, vk),
                sub,
            )
        },
        MillerStage::Q2EllGamma => {
            &&& j == 64
            &&& sub < 6
            &&& ms.r == spec_epi_add2(inp, vk).new_r
            &&& ms.f == spec_epi_h1(inp, vk)
            &&& ms.k == s.k + 1
            &&& ell_mem(
                ram_fq2,
                ram_fq6,
                ram_fq12,
                spec_gamma_coeff(vk, s.k + 1),
                inp.prep,
                spec_epi_h1(inp, vk),
                sub,
            )
        },
        MillerStage::Q2EllDelta => {
            &&& j == 64
            &&& sub < 6
            &&& ms.r == spec_epi_add2(inp, vk).new_r
            &&& ms.f == spec_epi_h2(inp, vk)
            &&& ms.k == s.k + 1
            &&& ell_mem(
                ram_fq2,
                ram_fq6,
                ram_fq12,
                spec_delta_coeff(vk, s.k + 1),
                inp.c,
                spec_epi_h2(inp, vk),
                sub,
            )
        },
    }
}

/// The coefficient index never exceeds two per iteration.
pub proof fn lemma_miller_k_bound(inp: MillerInputs, vk: VerificationKey, j: int)
    requires
        j >= 0,
    ensures
        0 <= spec_miller_main(inp, vk, j).k <= 2 * j,
    decreases j,
{
    if j > 0 {
        lemma_miller_k_bound(inp, vk, j - 1);
    }
}

/// The fresh Miller-loop state: cursor at the first doubling, the working
/// point over `B`, the accumulator at one.
pub fn miller_init(inp: &MillerInputs) -> (ms: MillerState)
    requires
        spec_g2_canonical(inp.b),
    ensures
        ms.j == 0 && ms.stage == MillerStage::Dbl && ms.sub == 0,
        forall|ram_fq2: RAM<Fq2>, ram_fq6: RAM<Fq6>, ram_fq12: RAM<Fq12>, vk: VerificationKey|
            miller_inv(ms, ram_fq2, ram_fq6, ram_fq12, *inp, vk),
{
    MillerState {
        j: 0,
        stage: MillerStage::Dbl,
        sub: 0,
        k: 0,
        r: G2HomProjective { x: inp.b.x, y: inp.b.y, z: fq2_one() },
        f: fq12_one(),
        coeffs: LineCoefficients { c0: fq2_one(), c1: fq2_one(), c2: fq2_one() },
        q1: inp.b,
        q2: inp.b,
    }
}

// ---------------------------------------------------------------------------
// One round
// ---------------------------------------------------------------------------

/// Runs exactly one round of the combined Miller loop and advances the
/// cursor.  The last round returns the finished accumulator.
#[verifier::rlimit(100)]
pub fn miller_loop_partial(
    ms: &mut MillerState,
    ram_fq2: &mut RAM<Fq2>,
    ram_fq6: &mut RAM<Fq6>,
    ram_fq12: &mut RAM<Fq12>,
    inp: &MillerInputs,
    vk: &VerificationKey,
) -> (res: Option<Fq12>)
    requires
        old(ms).j < 65,
        spec_g1_canonical(inp.a),
        spec_g2_canonical(inp.b),
        spec_g1_canonical(inp.c),
        spec_g1_canonical(inp.prep),
        vk.well_formed(),
        old(ram_fq2).well_formed(),
        old(ram_fq2).frame() + MILLER_FQ2_SLOTS <= old(ram_fq2).capacity(),
        old(ram_fq6).well_formed(),
        old(ram_fq6).frame() + MILLER_FQ6_SLOTS <= old(ram_fq6).capacity(),
        old(ram_fq12).well_formed(),
        old(ram_fq12).frame() + MILLER_FQ12_SLOTS <= old(ram_fq12).capacity(),
        miller_inv(*old(ms), *old(ram_fq2), *old(ram_fq6), *old(ram_fq12), *inp, *vk),
    ensures
        final(ram_fq2).well_formed(),
        final(ram_fq6).well_formed(),
        final(ram_fq12).well_formed(),
        ram_frame_kept(*old(ram_fq2), *final(ram_fq2)),
        ram_frame_kept(*old(ram_fq6), *final(ram_fq6)),
        ram_frame_kept(*old(ram_fq12), *final(ram_fq12)),
        ram_preserved_outside(*old(ram_fq2), *final(ram_fq2), 0, MILLER_FQ2_SLOTS as int),
        ram_preserved_outside(*old(ram_fq6), *final(ram_fq6), 0, MILLER_FQ6_SLOTS as int),
        ram_preserved_outside(*old(ram_fq12), *final(ram_fq12), 0, MILLER_FQ12_SLOTS as int),
        (final(ms).j as int, final(ms).stage, final(ms).sub as int) == spec_cursor_next(
            old(ms).j as int,
            old(ms).stage,
            old(ms).sub as int,
        ),
        miller_inv(*final(ms), *final(ram_fq2), *final(ram_fq6), *final(ram_fq12), *inp, *vk),
        res is Some <==> (old(ms).stage == MillerStage::Q2EllDelta && old(ms).sub == 5),
        res is Some ==> res == Some(spec_miller_loop(*inp, *vk)) && spec_fq12_canonical(
            spec_miller_loop(*inp, *vk),
        ),
{
    match ms.stage {
        MillerStage::Square => {
            ms.f = fq12_square(&ms.f);
            ms.stage = MillerStage::Dbl;
            ms.sub = 0;
            None
        },
        MillerStage::Dbl => {
            let sub = ms.sub;
            let step = doubling_step_partial(sub, ram_fq2, &ms.r);
            if sub == 2 {
                match step {
                    Some(cr) => {
                        ms.r = cr.new_r;
                        ms.coeffs = cr.coeffs;
                    },
                    None => {},
                }
                ms.stage = MillerStage::EllDyn;
                ms.sub = 0;
            } else {
                ms.sub = sub + 1;
            }
            None
        },
        MillerStage::EllDyn => {
            let sub = ms.sub;
            let step = ell_partial(sub, ram_fq2, ram_fq6, ram_fq12, &ms.coeffs, &inp.a, &ms.f);
            if sub == 5 {
                match step {
                    Some(f2) => {
                        ms.f = f2;
                    },
                    None => {},
                }
                ms.stage = MillerStage::EllGamma;
                ms.sub = 0;
            } else {
                ms.sub = sub + 1;
            }
            None
        },
        MillerStage::EllGamma => {
            let sub = ms.sub;
            let co = gamma_coeff(vk, ms.k);
            let step = ell_partial(sub, ram_fq2, ram_fq6, ram_fq12, &co, &inp.prep, &ms.f);
            if sub == 5 {
                match step {
                    Some(f3) => {
                        ms.f = f3;
                    },
                    None => {},
                }
                ms.stage = MillerStage::EllDelta;
                ms.sub = 0;
            } else {
                ms.sub = sub + 1;
            }
            None
        },
        MillerStage::EllDelta => {
            let sub = ms.sub;
            let co = delta_coeff(vk, ms.k);
            let step = ell_partial(sub, ram_fq2, ram_fq6, ram_fq12, &co, &inp.c, &ms.f);
            if sub == 5 {
                match step {
                    Some(f4) => {
                        ms.f = f4;
                    },
                    None => {},
                }
                proof {
                    lemma_miller_k_bound(*inp, *vk, ms.j as int);
                }
                ms.k = ms.k + 1;
                let bit = ate_digit(63 - ms.j);
                if bit != 0 {
                    ms.stage = MillerStage::Add;
                    ms.sub = 0;
                } else if ms.j < 63 {
                    ms.j = ms.j + 1;
                    ms.stage = MillerStage::Square;
                    ms.sub = 0;
                } else {
                    ms.j = 64;
                    ms.stage = MillerStage::CharQ1;
                    ms.sub = 0;
                }
            } else {
                ms.sub = sub + 1;
            }
            None
        },
        MillerStage::Add => {
            let bit = ate_digit(63 - ms.j);
            let q = if bit == 1 {
                inp.b
            } else {
                G2Affine { x: inp.b.x, y: fq2_neg(&inp.b.y), infinity: inp.b.infinity }
            };
            let step = addition_step_partial(0, &ms.r, &q);
            match step {
                Some(cr) => {
                    ms.r = cr.new_r;
                    ms.coeffs = cr.coeffs;
                },
                None => {},
            }
            ms.stage = MillerStage::AddEllDyn;
            ms.sub = 0;
            None
        },
        MillerStage::AddEllDyn => {
            let sub = ms.sub;
            let step = ell_partial(sub, ram_fq2, ram_fq6, ram_fq12, &ms.coeffs, &inp.a, &ms.f);
            if sub == 5 {
                match step {
                    Some(f5) => {
                        ms.f = f5;
                    },
                    None => {},
                }
                ms.stage = MillerStage::AddEllGamma;
                ms.sub = 0;
            } else {
                ms.sub = sub + 1;
            }
            None
        },
        MillerStage::AddEllGamma => {
            let sub = ms.sub;
            let co = gamma_coeff(vk, ms.k);
            let step = ell_partial(sub, ram_fq2, ram_fq6, ram_fq12, &co, &inp.prep, &ms.f);
            if sub == 5 {
                match step {
                    Some(f6) => {
                        ms.f = f6;
                    },
                    None => {},
                }
                ms.stage = MillerStage::AddEllDelta;
                ms.sub = 0;
            } else {
                ms.sub = sub + 1;
            }
            None
        },
        MillerStage::AddEllDelta => {
            let sub = ms.sub;
            let co = delta_coeff(vk, ms.k);
            let step = ell_partial(sub, ram_fq2, ram_fq6, ram_fq12, &co, &inp.c, &ms.f);
            if sub == 5 {
                match step {
                    Some(f7) => {
                        ms.f = f7;
                    },
                    None => {},
                }
                proof {
                    lemma_miller_k_bound(*inp, *vk, ms.j as int);
                }
                ms.k = ms.k + 1;
                if ms.j < 63 {
                    ms.j = ms.j + 1;
                    ms.stage = MillerStage::Square;
                    ms.sub = 0;
                } else {
                    ms.j = 64;
                    ms.stage = MillerStage::CharQ1;
                    ms.sub = 0;
                }
            } else {
                ms.sub = sub + 1;
            }
            None
        },
        MillerStage::CharQ1 => {
            let sub = ms.sub;
            let step = mul_by_characteristics_partial(sub, ram_fq2, &inp.b);
            if sub == 1 {
                match step {
                    Some(q1) => {
                        ms.q1 = q1;
                    },
                    None => {},
                }
                ms.stage = MillerStage::CharQ2;
                ms.sub = 0;
            } else {
                ms.sub = 1;
            }
            None
        },
        MillerStage::CharQ2 => {
            let sub = ms.sub;
            let step = mul_by_characteristics_partial(sub, ram_fq2, &ms.q1);
            if sub == 1 {
                match step {
                    Some(m) => {
                        ms.q2 = G2Affine { x: m.x, y: fq2_neg(&m.y), infinity: m.infinity };
                    },
                    None => {},
                }
                ms.stage = MillerStage::AddQ1;
                ms.sub = 0;
            } else {
                ms.sub = 1;
            }
            None
        },
        MillerStage::AddQ1 => {
            let step = addition_step_partial(0, &ms.r, &ms.q1);
            match step {
                Some(cr) => {
                    ms.r = cr.new_r;
                    ms.coeffs = cr.coeffs;
                },
                None => {},
            }
            ms.stage = MillerStage::Q1EllDyn;
            ms.sub = 0;
            None
        },
        MillerStage::Q1EllDyn => {
            let sub = ms.sub;
            let step = ell_partial(sub, ram_fq2, ram_fq6, ram_fq12, &ms.coeffs, &inp.a, &ms.f);
            if sub == 5 {
                match step {
                    Some(g1) => {
                        ms.f = g1;
                    },
                    None => {},
                }
                ms.stage = MillerStage::Q1EllGamma;
                ms.sub = 0;
            } else {
                ms.sub = sub + 1;
            }
            None
        },
        MillerStage::Q1EllGamma => {
            let sub = ms.sub;
            let co = gamma_coeff(vk, ms.k);
            let step = ell_partial(sub, ram_fq2, ram_fq6, ram_fq12, &co, &inp.prep, &ms.f);
            if sub == 5 {
                match step {
                    Some(g2) => {
                        ms.f = g2;
                    },
                    None => {},
                }
                ms.stage = MillerStage::Q1EllDelta;
                ms.sub = 0;
            } else {
                ms.sub = sub + 1;
            }
            None
        },
        MillerStage::Q1EllDelta => {
            let sub = ms.sub;
            let co = delta_coeff(vk, ms.k);
            let step = ell_partial(sub, ram_fq2, ram_fq6, ram_fq12, &co, &inp.c, &ms.f);
            if sub == 5 {
                match step {
                    Some(g3) => {
                        ms.f = g3;
                    },
                    None => {},
                }
                proof {
                    lemma_miller_k_bound(*inp, *vk, 64);
                }
                ms.k = ms.k + 1;
                ms.stage = MillerStage::AddQ2;
                ms.sub = 0;
            } else {
                ms.sub = sub + 1;
            }
            None
        },
        MillerStage::AddQ2 => {
            let step = addition_step_partial(0, &ms.r, &ms.q2);
            match step {
                Some(cr) => {
                    ms.r = cr.new_r;
                    ms.coeffs = cr.coeffs;
                },
                None => {},
            }
            ms.stage = MillerStage::Q2EllDyn;
            ms.sub = 0;
            None
        },
        MillerStage::Q2EllDyn => {
            let sub = ms.sub;
            let step = ell_partial(sub, ram_fq2, ram_fq6, ram_fq12, &ms.coeffs, &inp.a, &ms.f);
            if sub == 5 {
                match step {
                    Some(h1) => {
                        ms.f = h1;
                    },
                    None => {},
                }
                ms.stage = MillerStage::Q2EllGamma;
                ms.sub = 0;
            } else {
                ms.sub = sub + 1;
            }
            None
        },
        MillerStage::Q2EllGamma => {
            let sub = ms.sub;
            let co = gamma_coeff(vk, ms.k);
            let step = ell_partial(sub, ram_fq2, ram_fq6, ram_fq12, &co, &inp.prep, &ms.f);
            if sub == 5 {
                match step {
                    Some(h2) => {
                        ms.f = h2;
                    },
                    None => {},
                }
                ms.stage = MillerStage::Q2EllDelta;
                ms.sub = 0;
            } else {
                ms.sub = sub + 1;
            }
            None
        },
        MillerStage::Q2EllDelta => {
            let sub = ms.sub;
            let co = delta_coeff(vk, ms.k);
            let step = ell_partial(sub, ram_fq2, ram_fq6, ram_fq12, &co, &inp.c, &ms.f);
            if sub == 5 {
                ms.j = 65;
                ms.stage = MillerStage::Square;
                ms.sub = 0;
                match step {
                    Some(h3) => {
                        ms.f = h3;
                        Some(h3)
                    },
                    None => None,
                }
            } else {
                ms.sub = sub + 1;
                None
            }
        },
    }
}

/// A strictly decreasing measure of the cursor: how far from the end of
/// the loop it stands.
pub open spec fn spec_stage_rank(stage: MillerStage) -> int {
    match stage {
        MillerStage::Square => 19,
        MillerStage::Dbl => 18,
        MillerStage::EllDyn => 17,
        MillerStage::EllGamma => 16,
        MillerStage::EllDelta => 15,
        MillerStage::Add => 14,
        MillerStage::AddEllDyn => 13,
        MillerStage::AddEllGamma => 12,
        MillerStage::AddEllDelta => 11,
        MillerStage::CharQ1 => 10,
        MillerStage::CharQ2 => 9,
        MillerStage::AddQ1 => 8,
        MillerStage::Q1EllDyn => 7,
        MillerStage::Q1EllGamma => 6,
        MillerStage::Q1EllDelta => 5,
        MillerStage::AddQ2 => 4,
        MillerStage::Q2EllDyn => 3,
        MillerStage::Q2EllGamma => 2,
        MillerStage::Q2EllDelta => 1,
    }
}

/// The rounds-to-go measure; zero exactly at the terminal cursor.
pub open spec fn spec_cursor_measure(j: int, stage: MillerStage, sub: int) -> int {
    if j >= 65 {
        0
    } else {
        (65 - j) * 1000 + spec_stage_rank(stage) * 10 + (6 - sub)
    }
}

/// Every round brings the cursor strictly closer to the end.
pub proof fn lemma_cursor_next_decreases(j: int, stage: MillerStage, sub: int)
    requires
        0 <= j <= 64,
        0 <= sub <= 5,
    ensures
        0 <= spec_cursor_measure(
            spec_cursor_next(j, stage, sub).0,
            spec_cursor_next(j, stage, sub).1,
            spec_cursor_next(j, stage, sub).2,
        ) < spec_cursor_measure(j, stage, sub),
{
}

// ---------------------------------------------------------------------------
// Exact round counting
// ---------------------------------------------------------------------------

/// The structural constraints a live cursor satisfies; the stage decides
/// which digit range, sub-round range and digit value are possible.
pub open spec fn spec_cursor_ok(j: int, stage: MillerStage, sub: int) -> bool {
    match stage {
        MillerStage::Square => (1 <= j <= 63 && sub == 0) || (j == 65 && sub == 0),
        MillerStage::Dbl => 0 <= j <= 63 && 0 <= sub < 3,
        MillerStage::EllDyn => 0 <= j <= 63 && 0 <= sub < 6,
        MillerStage::EllGamma => 0 <= j <= 63 && 0 <= sub < 6,
        MillerStage::EllDelta => 0 <= j <= 63 && 0 <= sub < 6,
        MillerStage::Add => 0 <= j <= 63 && sub == 0 && spec_bit(j) != 0,
        MillerStage::AddEllDyn => 0 <= j <= 63 && 0 <= sub < 6 && spec_bit(j) != 0,
        MillerStage::AddEllGamma => 0 <= j <= 63 && 0 <= sub < 6 && spec_bit(j) != 0,
        MillerStage::AddEllDelta => 0 <= j <= 63 && 0 <= sub < 6 && spec_bit(j) != 0,
        MillerStage::CharQ1 => j == 64 && 0 <= sub < 2,
        MillerStage::CharQ2 => j == 64 && 0 <= sub < 2,
        MillerStage::AddQ1 => j == 64 && sub == 0,
        MillerStage::Q1EllDyn => j == 64 && 0 <= sub < 6,
        MillerStage::Q1EllGamma => j == 64 && 0 <= sub < 6,
        MillerStage::Q1EllDelta => j == 64 && 0 <= sub < 6,
        MillerStage::AddQ2 => j == 64 && sub == 0,
        MillerStage::Q2EllDyn => j == 64 && 0 <= sub < 6,
        MillerStage::Q2EllGamma => j == 64 && 0 <= sub < 6,
        MillerStage::Q2EllDelta => j == 64 && 0 <= sub < 6,
    }
}

/// How many of the first `j` driving digits are non-zero.
pub open spec fn spec_nonzero_bits(j: int) -> int
    decreases j,
{
    if j <= 0 {
        0
    } else {
        spec_nonzero_bits(j - 1) + if spec_bit(j - 1) != 0 {
            1int
        } else {
            0int
        }
    }
}

/// The extra rounds iteration `j` takes when its digit is non-zero.
pub open spec fn spec_add_block(j: int) -> int {
    if spec_bit(j) != 0 {
        19
    } else {
        0
    }
}

/// Rounds of the whole main-loop iterations `j..64`: each costs a
/// squaring (after the first), a doubling, three line evaluations, and
/// an addition block on a non-zero digit.
pub open spec fn spec_main_rounds_from(j: int) -> int {
    21 * (64 - j) + (if j == 0 {
        63int
    } else {
        64 - j
    }) + 19 * (spec_nonzero_bits(64) - spec_nonzero_bits(j))
}

/// Rounds still to run from the given cursor, the current round included.
pub open spec fn spec_rounds_left(j: int, stage: MillerStage, sub: int) -> int {
    let tail = spec_main_rounds_from(j + 1) + 42;
    match stage {
        MillerStage::Square => if j >= 65 {
            0
        } else {
            22 + spec_add_block(j) + tail
        },
        MillerStage::Dbl => (3 - sub) + 18 + spec_add_block(j) + tail,
        MillerStage::EllDyn => (6 - sub) + 12 + spec_add_block(j) + tail,
        MillerStage::EllGamma => (6 - sub) + 6 + spec_add_block(j) + tail,
        MillerStage::EllDelta => (6 - sub) + spec_add_block(j) + tail,
        MillerStage::Add => 19 + tail,
        MillerStage::AddEllDyn => (6 - sub) + 12 + tail,
        MillerStage::AddEllGamma => (6 - sub) + 6 + tail,
        MillerStage::AddEllDelta => (6 - sub) + tail,
        MillerStage::CharQ1 => (2 - sub) + 40,
        MillerStage::CharQ2 => (2 - sub) + 38,
        MillerStage::AddQ1 => 38,
        MillerStage::Q1EllDyn => (6 - sub) + 31,
        MillerStage::Q1EllGamma => (6 - sub) + 25,
        MillerStage::Q1EllDelta => (6 - sub) + 19,
        MillerStage::AddQ2 => 19,
        MillerStage::Q2EllDyn => (6 - sub) + 12,
        MillerStage::Q2EllGamma => (6 - sub) + 6,
        MillerStage::Q2EllDelta => 6 - sub,
    }
}

/// The non-zero-digit count never decreases along the digit sequence.
proof fn lemma_nonzero_bits_mono(j: int, k: int)
    requires
        0 <= j <= k,
    ensures
        spec_nonzero_bits(j) <= spec_nonzero_bits(k),
        spec_nonzero_bits(j) >= 0,
    decreases k,
{
    if j < k {
        lemma_nonzero_bits_mono(j, k - 1);
    } else if j > 0 {
        lemma_nonzero_bits_mono(j - 1, j - 1);
    }
}

/// Every round brings the cursor exactly one round closer to the end.
pub proof fn lemma_rounds_left_decrement(j: int, stage: MillerStage, sub: int)
    requires
        spec_cursor_ok(j, stage, sub),
        j < 65,
    ensures
        spec_rounds_left(
            spec_cursor_next(j, stage, sub).0,
            spec_cursor_next(j, stage, sub).1,
            spec_cursor_next(j, stage, sub).2,
        ) == spec_rounds_left(j, stage, sub) - 1,
        spec_rounds_left(j, stage, sub) >= 1,
{
    assert(spec_nonzero_bits(j + 1) == spec_nonzero_bits(j) + if spec_bit(j) != 0 {
        1int
    } else {
        0int
    });
    if j <= 63 {
        lemma_nonzero_bits_mono(j + 1, 64);
    }
}

/// The fixed digit sequence drives 25 additions.
pub proof fn lemma_nonzero_bits_total()
    ensures
        spec_nonzero_bits(64) == 25,
{
    reveal_with_fuel(spec_nonzero_bits, 65);
}

/// The fresh cursor stands exactly the loop's round count from the end.
pub proof fn lemma_rounds_left_initial()
    ensures
        spec_rounds_left(0, MillerStage::Dbl, 0) == MILLER_LOOP_ROUNDS,
{
    lemma_nonzero_bits_total();
    assert(spec_nonzero_bits(1) == 1) by {
        reveal_with_fuel(spec_nonzero_bits, 2);
    }
}

} // verus!


//! The Miller loop's point arithmetic: the doubling step, the addition
//! step, and the twist-characteristic map, each split into budget-sized
//! rounds and each emitting the line coefficients that the loop folds into
//! the accumulator.

use vstd::prelude::*;

use crate::field::{
    fq2_add, fq2_double, fq2_frobenius, fq2_mul, fq2_mul_by_fp, fq2_mul_by_twist_b,
    fq2_mul_by_twist_q_x, fq2_mul_by_twist_q_y, fq2_neg, fq2_square, fq2_sub, fq_two_inv,
    spec_fq2_add, spec_fq2_double, spec_fq2_frobenius, spec_fq2_mul, spec_fq2_mul_by_fp,
    spec_coeffs_canonical, spec_fq2_canonical, spec_fq2_mul_by_twist_b, spec_fq2_mul_by_twist_q_x,
    spec_fq2_mul_by_twist_q_y, spec_fq2_neg, spec_fq2_square, spec_fq2_sub, spec_fq_canonical,
    spec_fq_two_inv, spec_g2_canonical, spec_g2hom_canonical, Fq2, G2Affine, G2HomProjective,
    LineCoefficients,
};
use crate::ram::{ram_frame_kept, ram_preserved_outside, RAM};

verus! {

/// A point step's output: the moved working point and the line
/// coefficients the step emitted.
#[derive(Clone, Copy, PartialEq, Eq, Structural, Debug)]
pub struct CoefficientsResult {
    pub new_r: G2HomProjective,
    pub coeffs: LineCoefficients,
}

// ---------------------------------------------------------------------------
// Doubling step
// ---------------------------------------------------------------------------

pub open spec fn spec_dbl_a(r: G2HomProjective) -> Fq2 {
    spec_fq2_mul_by_fp(spec_fq2_mul(r.x, r.y), spec_fq_two_inv())
}

pub open spec fn spec_dbl_b(r: G2HomProjective) -> Fq2 {
    spec_fq2_square(r.y)
}

pub open spec fn spec_dbl_c(r: G2HomProjective) -> Fq2 {
    spec_fq2_square(r.z)
}

pub open spec fn spec_dbl_e(r: G2HomProjective) -> Fq2 {
    spec_fq2_mul_by_twist_b(spec_fq2_add(spec_fq2_double(spec_dbl_c(r)), spec_dbl_c(r)))
}

pub open spec fn spec_dbl_f(r: G2HomProjective) -> Fq2 {
    spec_fq2_add(spec_fq2_double(spec_dbl_e(r)), spec_dbl_e(r))
}

pub open spec fn spec_dbl_g(r: G2HomProjective) -> Fq2 {
    spec_fq2_mul_by_fp(spec_fq2_add(spec_dbl_b(r), spec_dbl_f(r)), spec_fq_two_inv())
}

pub open spec fn spec_dbl_h(r: G2HomProjective) -> Fq2 {
    spec_fq2_sub(
        spec_fq2_square(spec_fq2_add(r.y, r.z)),
        spec_fq2_add(spec_dbl_b(r), spec_dbl_c(r)),
    )
}

pub open spec fn spec_dbl_e_square(r: G2HomProjective) -> Fq2 {
    spec_fq2_square(spec_dbl_e(r))
}

pub open spec fn spec_dbl_new_r(r: G2HomProjective) -> G2HomProjective {
    G2HomProjective {
        x: spec_fq2_mul(spec_dbl_a(r), spec_fq2_sub(spec_dbl_b(r), spec_dbl_f(r))),
        y: spec_fq2_sub(
            spec_fq2_square(spec_dbl_g(r)),
            spec_fq2_add(spec_fq2_double(spec_dbl_e_square(r)), spec_dbl_e_square(r)),
        ),
        z: spec_fq2_mul(spec_dbl_b(r), spec_dbl_h(r)),
    }
}

/// The doubling step's line coefficients `(-h, 3 x^2, e - b)`.
pub open spec fn spec_dbl_coeffs(r: G2HomProjective) -> LineCoefficients {
    let j = spec_fq2_square(r.x);
    LineCoefficients {
        c0: spec_fq2_neg(spec_dbl_h(r)),
        c1: spec_fq2_add(spec_fq2_double(j), j),
        c2: spec_fq2_sub(spec_dbl_e(r), spec_dbl_b(r)),
    }
}

/// One doubling of the working point, with its emitted line coefficients.
pub open spec fn spec_doubling_step(r: G2HomProjective) -> CoefficientsResult {
    CoefficientsResult { new_r: spec_dbl_new_r(r), coeffs: spec_dbl_coeffs(r) }
}

/// Rounds of the doubling step.
pub const DOUBLING_ROUNDS: usize = 3;

/// Quadratic-tower scratch slots the doubling step occupies.
pub const DOUBLING_FQ2_SLOTS: usize = 10;

/// Scratch contents after `round` rounds of the doubling step.
pub open spec fn dbl_mem(ram_fq2: RAM<Fq2>, r: G2HomProjective, round: int) -> bool {
    &&& round >= 1 ==> {
        &&& ram_fq2.slot(0) == Some(spec_dbl_a(r)) && spec_fq2_canonical(spec_dbl_a(r))
        &&& ram_fq2.slot(1) == Some(spec_dbl_b(r)) && spec_fq2_canonical(spec_dbl_b(r))
        &&& ram_fq2.slot(2) == Some(spec_dbl_e(r)) && spec_fq2_canonical(spec_dbl_e(r))
        &&& ram_fq2.slot(3) == Some(spec_dbl_f(r)) && spec_fq2_canonical(spec_dbl_f(r))
        &&& ram_fq2.slot(4) == Some(spec_dbl_g(r)) && spec_fq2_canonical(spec_dbl_g(r))
        &&& ram_fq2.slot(5) == Some(spec_dbl_h(r)) && spec_fq2_canonical(spec_dbl_h(r))
        &&& ram_fq2.slot(6) == Some(spec_dbl_e_square(r)) && spec_fq2_canonical(
            spec_dbl_e_square(r),
        )
    }
    &&& round >= 2 ==> {
        &&& ram_fq2.slot(7) == Some(spec_dbl_new_r(r).x)
        &&& ram_fq2.slot(8) == Some(spec_dbl_new_r(r).y)
        &&& ram_fq2.slot(9) == Some(spec_dbl_new_r(r).z)
        &&& spec_g2hom_canonical(spec_dbl_new_r(r))
    }
}

/// One round of the doubling step on the working point `r`.  The last
/// round returns the moved point and the line coefficients.
pub fn doubling_step_partial(
    round: usize,
    ram_fq2: &mut RAM<Fq2>,
    r: &G2HomProjective,
) -> (res: Option<CoefficientsResult>)
    requires
        round < DOUBLING_ROUNDS,
        spec_g2hom_canonical(*r),
        old(ram_fq2).well_formed(),
        old(ram_fq2).frame() + DOUBLING_FQ2_SLOTS <= old(ram_fq2).capacity(),
        dbl_mem(*old(ram_fq2), *r, round as int),
    ensures
        final(ram_fq2).well_formed(),
        ram_frame_kept(*old(ram_fq2), *final(ram_fq2)),
        ram_preserved_outside(*old(ram_fq2), *final(ram_fq2), 0, DOUBLING_FQ2_SLOTS as int),
        dbl_mem(*final(ram_fq2), *r, round as int + 1),
        round < DOUBLING_ROUNDS - 1 ==> res is None,
        round == DOUBLING_ROUNDS - 1 ==> res == Some(spec_doubling_step(*r))
            && spec_g2hom_canonical(spec_doubling_step(*r).new_r) && spec_coeffs_canonical(
            spec_doubling_step(*r).coeffs,
        ),
{
    if round == 0 {
        let two_inv = fq_two_inv();
        let a = fq2_mul_by_fp(&fq2_mul(&r.x, &r.y), &two_inv);
        let b = fq2_square(&r.y);
        let c = fq2_square(&r.z);
        let e = fq2_mul_by_twist_b(&fq2_add(&fq2_double(&c), &c));
        let f = fq2_add(&fq2_double(&e), &e);
        let g = fq2_mul_by_fp(&fq2_add(&b, &f), &two_inv);
        let h = fq2_sub(&fq2_square(&fq2_add(&r.y, &r.z)), &fq2_add(&b, &c));
        let e_square = fq2_square(&e);
        ram_fq2.write(a, 0);
        ram_fq2.write(b, 1);
        ram_fq2.write(e, 2);
        ram_fq2.write(f, 3);
        ram_fq2.write(g, 4);
        ram_fq2.write(h, 5);
        ram_fq2.write(e_square, 6);
        None
    } else if round == 1 {
        let a = ram_fq2.read(0);
        let b = ram_fq2.read(1);
        let f = ram_fq2.read(3);
        let g = ram_fq2.read(4);
        let h = ram_fq2.read(5);
        let e_square = ram_fq2.read(6);
        let rx = fq2_mul(&a, &fq2_sub(&b, &f));
        let ry = fq2_sub(&fq2_square(&g), &fq2_add(&fq2_double(&e_square), &e_square));
        let rz = fq2_mul(&b, &h);
        ram_fq2.write(rx, 7);
        ram_fq2.write(ry, 8);
        ram_fq2.write(rz, 9);
        None
    } else {
        let b = ram_fq2.read(1);
        let e = ram_fq2.read(2);
        let h = ram_fq2.read(5);
        let rx = ram_fq2.read(7);
        let ry = ram_fq2.read(8);
        let rz = ram_fq2.read(9);
        let i = fq2_sub(&e, &b);
        let j = fq2_square(&r.x);
        Some(
            CoefficientsResult {
                new_r: G2HomProjective { x: rx, y: ry, z: rz },
                coeffs: LineCoefficients { c0: fq2_neg(&h), c1: fq2_add(&fq2_double(&j), &j), c2: i },
            },
        )
    }
}

// ---------------------------------------------------------------------------
// Addition step
// ---------------------------------------------------------------------------

pub open spec fn spec_add_theta(r: G2HomProjective, q: G2Affine) -> Fq2 {
    spec_fq2_sub(r.y, spec_fq2_mul(q.y, r.z))
}

pub open spec fn spec_add_lambda(r: G2HomProjective, q: G2Affine) -> Fq2 {
    spec_fq2_sub(r.x, spec_fq2_mul(q.x, r.z))
}

pub open spec fn spec_add_e(r: G2HomProjective, q: G2Affine) -> Fq2 {
    spec_fq2_mul(spec_add_lambda(r, q), spec_fq2_square(spec_add_lambda(r, q)))
}

pub open spec fn spec_add_g(r: G2HomProjective, q: G2Affine) -> Fq2 {
    spec_fq2_mul(r.x, spec_fq2_square(spec_add_lambda(r, q)))
}

pub open spec fn spec_add_h(r: G2HomProjective, q: G2Affine) -> Fq2 {
    spec_fq2_sub(
        spec_fq2_add(spec_add_e(r, q), spec_fq2_mul(r.z, spec_fq2_square(spec_add_theta(r, q)))),
        spec_fq2_double(spec_add_g(r, q)),
    )
}

pub open spec fn spec_add_new_r(r: G2HomProjective, q: G2Affine) -> G2HomProjective {
    G2HomProjective {
        x: spec_fq2_mul(spec_add_lambda(r, q), spec_add_h(r, q)),
        y: spec_fq2_sub(
            spec_fq2_mul(spec_add_theta(r, q), spec_fq2_sub(spec_add_g(r, q), spec_add_h(r, q))),
            spec_fq2_mul(spec_add_e(r, q), r.y),
        ),
        z: spec_fq2_mul(r.z, spec_add_e(r, q)),
    }
}

/// The addition step's line coefficients
/// `(lambda, -theta, theta q.x - lambda q.y)`.
pub open spec fn spec_add_coeffs(r: G2HomProjective, q: G2Affine) -> LineCoefficients {
    LineCoefficients {
        c0: spec_add_lambda(r, q),
        c1: spec_fq2_neg(spec_add_theta(r, q)),
        c2: spec_fq2_sub(
            spec_fq2_mul(spec_add_theta(r, q), q.x),
            spec_fq2_mul(spec_add_lambda(r, q), q.y),
        ),
    }
}

/// One mixed addition of the affine point `q` into the working point, with
/// its emitted line coefficients.
pub open spec fn spec_addition_step(r: G2HomProjective, q: G2Affine) -> CoefficientsResult {
    CoefficientsResult { new_r: spec_add_new_r(r, q), coeffs: spec_add_coeffs(r, q) }
}

/// Rounds of the addition step.
pub const ADDITION_ROUNDS: usize = 1;

/// The addition step, a single round: it fits one budget whole.
pub fn addition_step_partial(round: usize, r: &G2HomProjective, q: &G2Affine) -> (res: Option<
    CoefficientsResult,
>)
    requires
        round < ADDITION_ROUNDS,
        spec_g2hom_canonical(*r),
        spec_g2_canonical(*q),
    ensures
        res == Some(spec_addition_step(*r, *q)),
        spec_g2hom_canonical(spec_addition_step(*r, *q).new_r),
        spec_coeffs_canonical(spec_addition_step(*r, *q).coeffs),
{
    let theta = fq2_sub(&r.y, &fq2_mul(&q.y, &r.z));
    let lambda = fq2_sub(&r.x, &fq2_mul(&q.x, &r.z));
    let c = fq2_square(&theta);
    let d = fq2_square(&lambda);
    let e = fq2_mul(&lambda, &d);
    let f = fq2_mul(&r.z, &c);
    let g = fq2_mul(&r.x, &d);
    let h = fq2_sub(&fq2_add(&e, &f), &fq2_double(&g));
    let rx = fq2_mul(&lambda, &h);
    let ry = fq2_sub(&fq2_mul(&theta, &fq2_sub(&g, &h)), &fq2_mul(&e, &r.y));
    let rz = fq2_mul(&r.z, &e);
    let j = fq2_sub(&fq2_mul(&theta, &q.x), &fq2_mul(&lambda, &q.y));
    Some(
        CoefficientsResult {
            new_r: G2HomProjective { x: rx, y: ry, z: rz },
            coeffs: LineCoefficients { c0: lambda, c1: fq2_neg(&theta), c2: j },
        },
    )
}

// ---------------------------------------------------------------------------
// Twist-characteristic map
// ---------------------------------------------------------------------------

pub open spec fn spec_mul_by_char_x(r: G2Affine) -> Fq2 {
    spec_fq2_mul_by_twist_q_x(spec_fq2_frobenius(r.x, 1))
}

pub open spec fn spec_mul_by_char_y(r: G2Affine) -> Fq2 {
    spec_fq2_mul_by_twist_q_y(spec_fq2_frobenius(r.y, 1))
}

/// One application of the Frobenius endomorphism to an affine point,
/// scaled by the curve's twist constants.
pub open spec fn spec_mul_by_characteristics(r: G2Affine) -> G2Affine {
    G2Affine { x: spec_mul_by_char_x(r), y: spec_mul_by_char_y(r), infinity: r.infinity }
}

/// Rounds of the twist-characteristic map.
pub const MUL_BY_CHAR_ROUNDS: usize = 2;

/// Quadratic-tower scratch slots the twist-characteristic map occupies.
pub const MUL_BY_CHAR_FQ2_SLOTS: usize = 1;

/// Scratch contents after `round` rounds of the twist-characteristic map.
pub open spec fn char_mem(ram_fq2: RAM<Fq2>, r: G2Affine, round: int) -> bool {
    round >= 1 ==> ram_fq2.slot(0) == Some(spec_mul_by_char_x(r)) && spec_fq2_canonical(
        spec_mul_by_char_x(r),
    )
}

/// One round of the twist-characteristic map of `r`.  The last round
/// returns the mapped point.
pub fn mul_by_characteristics_partial(round: usize, ram_fq2: &mut RAM<Fq2>, r: &G2Affine) -> (res:
    Option<G2Affine>)
    requires
        round < MUL_BY_CHAR_ROUNDS,
        spec_g2_canonical(*r),
        old(ram_fq2).well_formed(),
        old(ram_fq2).frame() + MUL_BY_CHAR_FQ2_SLOTS <= old(ram_fq2).capacity(),
        char_mem(*old(ram_fq2), *r, round as int),
    ensures
        final(ram_fq2).well_formed(),
        ram_frame_kept(*old(ram_fq2), *final(ram_fq2)),
        ram_preserved_outside(*old(ram_fq2), *final(ram_fq2), 0, MUL_BY_CHAR_FQ2_SLOTS as int),
        char_mem(*final(ram_fq2), *r, round as int + 1),
        round < MUL_BY_CHAR_ROUNDS - 1 ==> res is None,
        round == MUL_BY_CHAR_ROUNDS - 1 ==> res == Some(spec_mul_by_characteristics(*r))
            && spec_g2_canonical(spec_mul_by_characteristics(*r)),
{
    if round == 0 {
        let x = fq2_mul_by_twist_q_x(&fq2_frobenius(&r.x, 1));
        ram_fq2.write(x, 0);
        None
    } else {
        let x = ram_fq2.read(0);
        let y = fq2_mul_by_twist_q_y(&fq2_frobenius(&r.y, 1));
        Some(G2Affine { x, y, infinity: r.infinity })
    }
}

} // verus!

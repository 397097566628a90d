//! Verified tower-arithmetic compositions built from the named field
//! operations: the sparse cubic-tower product, the non-residue fold of the
//! quadratic-over-cubic tower, and the one-shot specifications of the
//! sparse degree-(0,3,4) accumulator multiplication and the line
//! evaluation.

use vstd::prelude::*;

use crate::field::{
    fq2_add, fq2_mul, fq2_mul_by_fq6_nonresidue, fq2_sub, fq6_mul_by_nonresidue, fq6_sub,
    spec_fq2_add, spec_fq2_mul, spec_fq2_mul_by_fp, spec_fq2_mul_by_fq6_nonresidue, spec_fq2_sub,
    spec_fq2_canonical, spec_fq6_add, spec_fq6_canonical, spec_fq6_mul_by_nonresidue, spec_fq6_sub,
    Fq12, Fq2, Fq6, G1Affine, LineCoefficients,
};

verus! {

/// Sparse product of a cubic-tower element with `c0 + c1 * v`.
pub open spec fn spec_mul_fq6_by_c0_c1_0(f: Fq6, c0: Fq2, c1: Fq2) -> Fq6 {
    let v0 = spec_fq2_mul(f.c0, c0);
    let v1 = spec_fq2_mul(f.c1, c1);
    let a1_plus_a2 = spec_fq2_add(f.c1, f.c2);
    let a0_plus_a1 = spec_fq2_add(f.c0, f.c1);
    let a0_plus_a2 = spec_fq2_add(f.c0, f.c2);
    let b0_plus_b1 = spec_fq2_add(c0, c1);
    Fq6 {
        c0: spec_fq2_add(
            spec_fq2_mul_by_fq6_nonresidue(spec_fq2_sub(spec_fq2_mul(a1_plus_a2, c1), v1)),
            v0,
        ),
        c1: spec_fq2_sub(spec_fq2_sub(spec_fq2_mul(a0_plus_a1, b0_plus_b1), v0), v1),
        c2: spec_fq2_add(spec_fq2_sub(spec_fq2_mul(a0_plus_a2, c0), v0), v1),
    }
}

/// Sparse product of a cubic-tower element with an element whose last
/// coordinate is zero; mirrors the reference library's schoolbook
/// decomposition.
pub fn mul_fq6_by_c0_c1_0(f: &Fq6, c0: &Fq2, c1: &Fq2) -> (r: Fq6)
    ensures
        r == spec_mul_fq6_by_c0_c1_0(*f, *c0, *c1),
        spec_fq6_canonical(*f) && spec_fq2_canonical(*c0) && spec_fq2_canonical(*c1)
            ==> spec_fq6_canonical(r),
{
    let v0 = fq2_mul(&f.c0, c0);
    let v1 = fq2_mul(&f.c1, c1);

    let a1_plus_a2 = fq2_add(&f.c1, &f.c2);
    let a0_plus_a1 = fq2_add(&f.c0, &f.c1);
    let a0_plus_a2 = fq2_add(&f.c0, &f.c2);

    let b0_plus_b1 = fq2_add(c0, c1);

    let t0 = fq2_mul_by_fq6_nonresidue(&fq2_sub(&fq2_mul(&a1_plus_a2, c1), &v1));
    Fq6 {
        c0: fq2_add(&t0, &v0),
        c1: fq2_sub(&fq2_sub(&fq2_mul(&a0_plus_a1, &b0_plus_b1), &v0), &v1),
        c2: fq2_add(&fq2_sub(&fq2_mul(&a0_plus_a2, c0), &v0), &v1),
    }
}

/// `x - y * v`, the recombination step of the quadratic-extension
/// inversion identity.
pub open spec fn spec_sub_and_mul_base_field_by_nonresidue(x: Fq6, y: Fq6) -> Fq6 {
    spec_fq6_sub(x, spec_fq6_mul_by_nonresidue(y))
}

pub fn sub_and_mul_base_field_by_nonresidue(x: &Fq6, y: &Fq6) -> (r: Fq6)
    ensures
        r == spec_sub_and_mul_base_field_by_nonresidue(*x, *y),
        spec_fq6_canonical(*x) && spec_fq6_canonical(*y) ==> spec_fq6_canonical(r),
{
    fq6_sub(x, &fq6_mul_by_nonresidue(y))
}

/// First intermediate of the sparse degree-(0,3,4) product: the low half
/// of the accumulator scaled by `c0`.
pub open spec fn spec_mul034_a(c0: Fq2, f: Fq12) -> Fq6 {
    Fq6 {
        c0: spec_fq2_mul(f.c0.c0, c0),
        c1: spec_fq2_mul(f.c0.c1, c0),
        c2: spec_fq2_mul(f.c0.c2, c0),
    }
}

/// Second intermediate: the high half multiplied sparsely by `d0 + d1 v`.
pub open spec fn spec_mul034_b(d0: Fq2, d1: Fq2, f: Fq12) -> Fq6 {
    spec_mul_fq6_by_c0_c1_0(f.c1, d0, d1)
}

/// Third intermediate: the Karatsuba cross term.
pub open spec fn spec_mul034_e(c0: Fq2, d0: Fq2, d1: Fq2, f: Fq12) -> Fq6 {
    spec_mul_fq6_by_c0_c1_0(spec_fq6_add(f.c0, f.c1), spec_fq2_add(c0, d0), d1)
}

/// The sparse degree-(0,3,4) multiplication of the accumulator by
/// `c0 + (d0 + d1 v) w`.
pub open spec fn spec_mul_by_034(c0: Fq2, d0: Fq2, d1: Fq2, f: Fq12) -> Fq12 {
    let a = spec_mul034_a(c0, f);
    let b = spec_mul034_b(d0, d1, f);
    let e = spec_mul034_e(c0, d0, d1, f);
    Fq12 {
        c0: spec_fq6_add(spec_fq6_mul_by_nonresidue(b), a),
        c1: spec_fq6_sub(e, spec_fq6_add(a, b)),
    }
}

/// Line evaluation: scales the line coefficients by the affine point's
/// coordinates and folds them into the accumulator.
pub open spec fn spec_ell(coeffs: LineCoefficients, p: G1Affine, f: Fq12) -> Fq12 {
    spec_mul_by_034(
        spec_fq2_mul_by_fp(coeffs.c0, p.y),
        spec_fq2_mul_by_fp(coeffs.c1, p.x),
        coeffs.c2,
        f,
    )
}

} // verus!

//! The sparse degree-(0,3,4) accumulator multiplication and the line
//! evaluation, split into budget-sized rounds.
//!
//! `mul_by_034` folds `c0 + (d0 + d1 v) w` into the running accumulator in
//! four rounds (three cubic-tower products and one non-residue
//! recombination).  `ell` wraps it: one round scales the line coefficients
//! by the affine point, four rounds run the sparse product, and a final
//! round hands the folded accumulator back.

use vstd::prelude::*;

use crate::field::{
    spec_coeffs_canonical, spec_fq12_canonical, spec_fq2_canonical, spec_fq2_mul_by_fp,
    spec_fq6_canonical, spec_fq_canonical, Fq12, Fq2, Fq6, G1Affine, LineCoefficients,
};
use crate::ram::{ram_frame_kept, ram_preserved_outside, RAM};
use crate::tower::{
    mul_fq6_by_c0_c1_0, spec_ell, spec_mul034_a, spec_mul034_b, spec_mul034_e, spec_mul_by_034,
};
use crate::field::{fq2_add, fq2_mul, fq2_mul_by_fp, fq6_add, fq6_mul_by_nonresidue, fq6_sub};

verus! {

/// Rounds of the sparse degree-(0,3,4) multiplication.
pub const MUL_BY_034_ROUNDS: usize = 4;

/// Cubic-tower scratch slots the sparse multiplication occupies.
pub const MUL_BY_034_FQ6_SLOTS: usize = 3;

/// The scratch contents after `round` rounds of `mul_by_034` have run:
/// each intermediate sits in its slot once its round is past.
pub open spec fn mul034_mem(
    ram_fq6: RAM<Fq6>,
    c0: Fq2,
    d0: Fq2,
    d1: Fq2,
    f: Fq12,
    round: int,
) -> bool {
    &&& round >= 1 ==> ram_fq6.slot(0) == Some(spec_mul034_a(c0, f)) && spec_fq6_canonical(
        spec_mul034_a(c0, f),
    )
    &&& round >= 2 ==> ram_fq6.slot(1) == Some(spec_mul034_b(d0, d1, f)) && spec_fq6_canonical(
        spec_mul034_b(d0, d1, f),
    )
    &&& round >= 3 ==> ram_fq6.slot(2) == Some(spec_mul034_e(c0, d0, d1, f))
        && spec_fq6_canonical(spec_mul034_e(c0, d0, d1, f))
}

/// One round of the sparse degree-(0,3,4) multiplication of `f` by
/// `c0 + (d0 + d1 v) w`.  The caller drives `round` from `0` to
/// `MUL_BY_034_ROUNDS - 1`; the last round returns the product.
pub fn mul_by_034_partial(
    round: usize,
    ram_fq6: &mut RAM<Fq6>,
    c0: &Fq2,
    d0: &Fq2,
    d1: &Fq2,
    f: &Fq12,
) -> (res: Option<Fq12>)
    requires
        round < MUL_BY_034_ROUNDS,
        spec_fq2_canonical(*c0),
        spec_fq2_canonical(*d0),
        spec_fq2_canonical(*d1),
        spec_fq12_canonical(*f),
        old(ram_fq6).well_formed(),
        old(ram_fq6).frame() + MUL_BY_034_FQ6_SLOTS <= old(ram_fq6).capacity(),
        mul034_mem(*old(ram_fq6), *c0, *d0, *d1, *f, round as int),
    ensures
        final(ram_fq6).well_formed(),
        ram_frame_kept(*old(ram_fq6), *final(ram_fq6)),
        ram_preserved_outside(
            *old(ram_fq6),
            *final(ram_fq6),
            0,
            MUL_BY_034_FQ6_SLOTS as int,
        ),
        mul034_mem(*final(ram_fq6), *c0, *d0, *d1, *f, round as int + 1),
        round < MUL_BY_034_ROUNDS - 1 ==> res is None,
        round == MUL_BY_034_ROUNDS - 1 ==> res == Some(spec_mul_by_034(*c0, *d0, *d1, *f))
            && spec_fq12_canonical(spec_mul_by_034(*c0, *d0, *d1, *f)),
{
    if round == 0 {
        let a = Fq6 {
            c0: fq2_mul(&f.c0.c0, c0),
            c1: fq2_mul(&f.c0.c1, c0),
            c2: fq2_mul(&f.c0.c2, c0),
        };
        ram_fq6.write(a, 0);
        None
    } else if round == 1 {
        let b = mul_fq6_by_c0_c1_0(&f.c1, d0, d1);
        ram_fq6.write(b, 1);
        None
    } else if round == 2 {
        let e = mul_fq6_by_c0_c1_0(&fq6_add(&f.c0, &f.c1), &fq2_add(c0, d0), d1);
        ram_fq6.write(e, 2);
        None
    } else {
        let a = ram_fq6.read(0);
        let b = ram_fq6.read(1);
        let e = ram_fq6.read(2);
        Some(
            Fq12 {
                c0: fq6_add(&fq6_mul_by_nonresidue(&b), &a),
                c1: fq6_sub(&e, &fq6_add(&a, &b)),
            },
        )
    }
}

/// Rounds of the line evaluation.
pub const ELL_ROUNDS: usize = 6;

/// Quadratic-tower scratch slots the line evaluation occupies.
pub const ELL_FQ2_SLOTS: usize = 2;

/// Accumulator scratch slots the line evaluation occupies.
pub const ELL_FQ12_SLOTS: usize = 1;

/// The scratch contents after `round` rounds of `ell` have run.
pub open spec fn ell_mem(
    ram_fq2: RAM<Fq2>,
    ram_fq6: RAM<Fq6>,
    ram_fq12: RAM<Fq12>,
    coeffs: LineCoefficients,
    p: G1Affine,
    f: Fq12,
    round: int,
) -> bool {
    let c0 = spec_fq2_mul_by_fp(coeffs.c0, p.y);
    let c1 = spec_fq2_mul_by_fp(coeffs.c1, p.x);
    &&& round >= 1 ==> ram_fq2.slot(0) == Some(c0) && ram_fq2.slot(1) == Some(c1)
        && spec_fq2_canonical(c0) && spec_fq2_canonical(c1)
    &&& 1 <= round <= 4 ==> mul034_mem(ram_fq6, c0, c1, coeffs.c2, f, round - 1)
    &&& round >= 5 ==> ram_fq12.slot(0) == Some(spec_ell(coeffs, p, f)) && spec_fq12_canonical(
        spec_ell(coeffs, p, f),
    )
}

/// One round of the line evaluation at `p`, folding `coeffs` into `f`.
/// The caller drives `round` from `0` to `ELL_ROUNDS - 1`; the last round
/// returns the updated accumulator.
pub fn ell_partial(
    round: usize,
    ram_fq2: &mut RAM<Fq2>,
    ram_fq6: &mut RAM<Fq6>,
    ram_fq12: &mut RAM<Fq12>,
    coeffs: &LineCoefficients,
    p: &G1Affine,
    f: &Fq12,
) -> (res: Option<Fq12>)
    requires
        round < ELL_ROUNDS,
        spec_coeffs_canonical(*coeffs),
        spec_fq_canonical(p.x),
        spec_fq_canonical(p.y),
        spec_fq12_canonical(*f),
        old(ram_fq2).well_formed(),
        old(ram_fq2).frame() + ELL_FQ2_SLOTS <= old(ram_fq2).capacity(),
        old(ram_fq6).well_formed(),
        old(ram_fq6).frame() + MUL_BY_034_FQ6_SLOTS <= old(ram_fq6).capacity(),
        old(ram_fq12).well_formed(),
        old(ram_fq12).frame() + ELL_FQ12_SLOTS <= old(ram_fq12).capacity(),
        ell_mem(*old(ram_fq2), *old(ram_fq6), *old(ram_fq12), *coeffs, *p, *f, round as int),
    ensures
        final(ram_fq2).well_formed(),
        final(ram_fq6).well_formed(),
        final(ram_fq12).well_formed(),
        ram_frame_kept(*old(ram_fq2), *final(ram_fq2)),
        ram_frame_kept(*old(ram_fq6), *final(ram_fq6)),
        ram_frame_kept(*old(ram_fq12), *final(ram_fq12)),
        ram_preserved_outside(*old(ram_fq2), *final(ram_fq2), 0, ELL_FQ2_SLOTS as int),
        ram_preserved_outside(*old(ram_fq6), *final(ram_fq6), 0, MUL_BY_034_FQ6_SLOTS as int),
        ram_preserved_outside(*old(ram_fq12), *final(ram_fq12), 0, ELL_FQ12_SLOTS as int),
        ell_mem(
            *final(ram_fq2),
            *final(ram_fq6),
            *final(ram_fq12),
            *coeffs,
            *p,
            *f,
            round as int + 1,
        ),
        round < ELL_ROUNDS - 1 ==> res is None,
        round == ELL_ROUNDS - 1 ==> res == Some(spec_ell(*coeffs, *p, *f)) && spec_fq12_canonical(
            spec_ell(*coeffs, *p, *f),
        ),
{
    if round == 0 {
        let c0 = fq2_mul_by_fp(&coeffs.c0, &p.y);
        let c1 = fq2_mul_by_fp(&coeffs.c1, &p.x);
        ram_fq2.write(c0, 0);
        ram_fq2.write(c1, 1);
        None
    } else if round <= 4 {
        let c0 = ram_fq2.read(0);
        let c1 = ram_fq2.read(1);
        let sub = mul_by_034_partial(round - 1, ram_fq6, &c0, &c1, &coeffs.c2, f);
        if round == 4 {
            match sub {
                Some(r) => {
                    ram_fq12.write(r, 0);
                },
                None => {},
            }
        }
        None
    } else {
        Some(ram_fq12.read(0))
    }
}

} // verus!

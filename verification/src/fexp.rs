//! The final exponentiation, split into rounds.
//!
//! The easy part inverts the Miller-loop output (a nested five-round
//! inversion) and refolds it with Frobenius maps; the hard part composes
//! three nested fixed-exponent exponentiations with cyclotomic squarings,
//! multiplications and Frobenius maps in a fixed dataflow ending in one
//! Frobenius-cubed multiply.  Each nested sub-computation runs in its own
//! scratch frame: the frame is shifted up before every child round and
//! shifted back after it, so the shifts balance within every call.

use vstd::prelude::*;

use crate::errors::ComputationError;
use crate::exp::{exp_by_neg_x_partial, exp_mem_at, spec_exp_by_neg_x, EXP_BY_NEG_X_ROUNDS};
use crate::field::{
    fq12_conjugate, fq12_cyclotomic_square, fq12_frobenius, fq12_mul, spec_fq12_canonical,
    spec_fq12_conjugate, spec_fq12_cyclotomic_square, spec_fq12_frobenius, spec_fq12_mul, Fq12,
    Fq6,
};
use crate::inverse::{
    inverse_fq12_partial, inverse_mem, spec_inverse_fq12, INVERSE_FQ12_FQ6_SLOTS,
    INVERSE_FQ12_ROUNDS,
};
use crate::ram::{ram_frame_kept, ram_preserved_outside, RAM};

verus! {

/// Rounds of the final exponentiation: eleven rounds of its own, plus the
/// nested inversion and three nested exponentiations.
pub const FINAL_EXP_ROUNDS: usize = 211;

/// Accumulator slots the final exponentiation itself occupies; a nested
/// exponentiation child runs in the two slots above them.
pub const FEXP_FQ12_SLOTS: usize = 16;

/// The whole accumulator window, the child's slots included.
pub const FEXP_FQ12_SLOTS_TOTAL: usize = 18;

// Round boundaries.  The nested inversion spans rounds 1 to 5; the three
// nested exponentiations span 8..=72, 74..=138 and 140..=204.
pub const FEXP_INV_START: usize = 1;
pub const FEXP_EXP1_START: usize = 8;
pub const FEXP_EXP2_START: usize = 74;
pub const FEXP_EXP3_START: usize = 140;

// ---------------------------------------------------------------------------
// The dataflow, one specification function per persisted value
// ---------------------------------------------------------------------------

pub open spec fn spec_fexp_f1(f: Fq12) -> Fq12 {
    spec_fq12_conjugate(f)
}

/// The inverse of the Miller-loop output; only meaningful when the
/// inversion succeeds.
pub open spec fn spec_fexp_f2(f: Fq12) -> Fq12 {
    spec_inverse_fq12(f).unwrap()
}

/// The easy part's first fold `f1 * f2`.
pub open spec fn spec_fexp_r0(f: Fq12) -> Fq12 {
    spec_fq12_mul(spec_fexp_f1(f), spec_fexp_f2(f))
}

/// The easy part's result `frobenius(r0, 2) * r0`.
pub open spec fn spec_fexp_r1(f: Fq12) -> Fq12 {
    spec_fq12_mul(spec_fq12_frobenius(spec_fexp_r0(f), 2), spec_fexp_r0(f))
}

pub open spec fn spec_fexp_y0(f: Fq12) -> Fq12 {
    spec_exp_by_neg_x(spec_fexp_r1(f))
}

pub open spec fn spec_fexp_y1(f: Fq12) -> Fq12 {
    spec_fq12_cyclotomic_square(spec_fexp_y0(f))
}

pub open spec fn spec_fexp_y2(f: Fq12) -> Fq12 {
    spec_fq12_cyclotomic_square(spec_fexp_y1(f))
}

pub open spec fn spec_fexp_y3(f: Fq12) -> Fq12 {
    spec_fq12_mul(spec_fexp_y2(f), spec_fexp_y1(f))
}

pub open spec fn spec_fexp_y4(f: Fq12) -> Fq12 {
    spec_exp_by_neg_x(spec_fexp_y3(f))
}

pub open spec fn spec_fexp_y5(f: Fq12) -> Fq12 {
    spec_fq12_cyclotomic_square(spec_fexp_y4(f))
}

pub open spec fn spec_fexp_y6(f: Fq12) -> Fq12 {
    spec_exp_by_neg_x(spec_fexp_y5(f))
}

pub open spec fn spec_fexp_y7(f: Fq12) -> Fq12 {
    spec_fq12_mul(spec_fq12_conjugate(spec_fexp_y6(f)), spec_fexp_y4(f))
}

pub open spec fn spec_fexp_y8(f: Fq12) -> Fq12 {
    spec_fq12_mul(spec_fexp_y7(f), spec_fq12_conjugate(spec_fexp_y3(f)))
}

pub open spec fn spec_fexp_y9(f: Fq12) -> Fq12 {
    spec_fq12_mul(spec_fexp_y8(f), spec_fexp_y1(f))
}

pub open spec fn spec_fexp_y10(f: Fq12) -> Fq12 {
    spec_fq12_mul(spec_fexp_y8(f), spec_fexp_y4(f))
}

pub open spec fn spec_fexp_y11(f: Fq12) -> Fq12 {
    spec_fq12_mul(spec_fexp_y10(f), spec_fexp_r1(f))
}

pub open spec fn spec_fexp_y12(f: Fq12) -> Fq12 {
    spec_fq12_frobenius(spec_fexp_y9(f), 1)
}

pub open spec fn spec_fexp_y13(f: Fq12) -> Fq12 {
    spec_fq12_mul(spec_fexp_y12(f), spec_fexp_y11(f))
}

pub open spec fn spec_fexp_y8f(f: Fq12) -> Fq12 {
    spec_fq12_frobenius(spec_fexp_y8(f), 2)
}

pub open spec fn spec_fexp_y14(f: Fq12) -> Fq12 {
    spec_fq12_mul(spec_fexp_y8f(f), spec_fexp_y13(f))
}

pub open spec fn spec_fexp_y15(f: Fq12) -> Fq12 {
    spec_fq12_frobenius(
        spec_fq12_mul(spec_fq12_conjugate(spec_fexp_r1(f)), spec_fexp_y9(f)),
        3,
    )
}

pub open spec fn spec_fexp_y16(f: Fq12) -> Fq12 {
    spec_fq12_mul(spec_fexp_y15(f), spec_fexp_y14(f))
}

/// The final exponentiation of the Miller-loop output; `None` exactly
/// when the nested inversion fails, which only the additive identity can
/// cause.
pub open spec fn spec_final_exponentiation(f: Fq12) -> Option<Fq12> {
    if spec_inverse_fq12(f) is Some {
        Some(spec_fexp_y16(f))
    } else {
        None
    }
}

// ---------------------------------------------------------------------------
// The round-indexed scratch invariant
// ---------------------------------------------------------------------------

/// Scratch contents after `round` rounds of the final exponentiation:
/// each persisted value sits in its slot over exactly the rounds that
/// still read it.
pub open spec fn fexp_mem(ram_fq12: RAM<Fq12>, ram_fq6: RAM<Fq6>, f: Fq12, round: int) -> bool {
    &&& 2 <= round <= 5 ==> inverse_mem(ram_fq6, f, round - 1)
    &&& round >= 5 ==> spec_inverse_fq12(f) is Some
    &&& 1 <= round <= 6 ==> ram_fq12.slot(0) == Some(spec_fexp_f1(f)) && spec_fq12_canonical(
        spec_fexp_f1(f),
    )
    &&& round == 6 ==> ram_fq12.slot(1) == Some(spec_fexp_f2(f)) && spec_fq12_canonical(
        spec_fexp_f2(f),
    )
    &&& round == 7 ==> ram_fq12.slot(1) == Some(spec_fexp_r0(f)) && ram_fq12.slot(2) == Some(
        spec_fexp_r0(f),
    ) && spec_fq12_canonical(spec_fexp_r0(f))
    &&& 8 <= round <= 209 ==> ram_fq12.slot(2) == Some(spec_fexp_r1(f)) && spec_fq12_canonical(
        spec_fexp_r1(f),
    )
    &&& round == 210 ==> ram_fq12.slot(2) == Some(spec_fq12_conjugate(spec_fexp_r1(f)))
        && spec_fq12_canonical(spec_fq12_conjugate(spec_fexp_r1(f)))
    &&& 9 <= round <= 72 ==> exp_mem_at(
        ram_fq12,
        FEXP_FQ12_SLOTS as int,
        spec_fexp_r1(f),
        round - 8,
    )
    &&& round == 73 ==> ram_fq12.slot(3) == Some(spec_fexp_y0(f)) && spec_fq12_canonical(
        spec_fexp_y0(f),
    )
    &&& 74 <= round <= 206 ==> ram_fq12.slot(4) == Some(spec_fexp_y1(f)) && spec_fq12_canonical(
        spec_fexp_y1(f),
    )
    &&& 74 <= round <= 205 ==> ram_fq12.slot(5) == Some(spec_fexp_y3(f)) && spec_fq12_canonical(
        spec_fexp_y3(f),
    )
    &&& round == 206 ==> ram_fq12.slot(5) == Some(spec_fq12_conjugate(spec_fexp_y3(f)))
        && spec_fq12_canonical(spec_fq12_conjugate(spec_fexp_y3(f)))
    &&& 75 <= round <= 138 ==> exp_mem_at(
        ram_fq12,
        FEXP_FQ12_SLOTS as int,
        spec_fexp_y3(f),
        round - 74,
    )
    &&& 139 <= round <= 206 ==> ram_fq12.slot(6) == Some(spec_fexp_y4(f)) && spec_fq12_canonical(
        spec_fexp_y4(f),
    )
    &&& 140 <= round <= 204 ==> ram_fq12.slot(7) == Some(spec_fexp_y5(f)) && spec_fq12_canonical(
        spec_fexp_y5(f),
    )
    &&& 141 <= round <= 204 ==> exp_mem_at(
        ram_fq12,
        FEXP_FQ12_SLOTS as int,
        spec_fexp_y5(f),
        round - 140,
    )
    &&& round == 205 ==> ram_fq12.slot(8) == Some(spec_fexp_y6(f)) && spec_fq12_canonical(
        spec_fexp_y6(f),
    )
    &&& round == 206 ==> ram_fq12.slot(8) == Some(spec_fq12_conjugate(spec_fexp_y6(f)))
        && spec_fq12_canonical(spec_fq12_conjugate(spec_fexp_y6(f)))
    &&& 207 <= round <= 208 ==> ram_fq12.slot(9) == Some(spec_fexp_y8(f)) && spec_fq12_canonical(
        spec_fexp_y8(f),
    )
    &&& round == 209 ==> ram_fq12.slot(9) == Some(spec_fexp_y8f(f)) && spec_fq12_canonical(
        spec_fexp_y8f(f),
    )
    &&& 207 <= round <= 210 ==> ram_fq12.slot(10) == Some(spec_fexp_y9(f))
        && spec_fq12_canonical(spec_fexp_y9(f))
    &&& round == 207 ==> ram_fq12.slot(11) == Some(spec_fexp_y10(f)) && spec_fq12_canonical(
        spec_fexp_y10(f),
    )
    &&& round == 208 ==> ram_fq12.slot(12) == Some(spec_fexp_y11(f)) && ram_fq12.slot(13)
        == Some(spec_fexp_y12(f)) && spec_fq12_canonical(spec_fexp_y11(f))
        && spec_fq12_canonical(spec_fexp_y12(f))
    &&& round == 209 ==> ram_fq12.slot(14) == Some(spec_fexp_y13(f)) && spec_fq12_canonical(
        spec_fexp_y13(f),
    )
    &&& round == 210 ==> ram_fq12.slot(15) == Some(spec_fexp_y14(f)) && spec_fq12_canonical(
        spec_fexp_y14(f),
    )
}

/// Round-program composition: the nested sub-computations contribute
/// exactly their declared fixed round counts to the final
/// exponentiation's total — eleven rounds of its own, one inversion,
/// three fixed-exponent exponentiations.  The balancing of the frame
/// shifts around every nested round is part of the round function's
/// contract: each call leaves both frames exactly where it found them.
pub proof fn lemma_fexp_round_composition()
    ensures
        FINAL_EXP_ROUNDS == 11 + INVERSE_FQ12_ROUNDS + 3 * EXP_BY_NEG_X_ROUNDS,
{
}

/// One round of the final exponentiation of `f`.  The last round returns
/// the pairing result; the nested inversion's unwrap round reports
/// `InverseOfZero` if `f` has no inverse.
#[verifier::rlimit(100)]
pub fn final_exponentiation_partial(
    round: usize,
    ram_fq12: &mut RAM<Fq12>,
    ram_fq6: &mut RAM<Fq6>,
    f: &Fq12,
) -> (res: Result<Option<Fq12>, ComputationError>)
    requires
        round < FINAL_EXP_ROUNDS,
        spec_fq12_canonical(*f),
        old(ram_fq12).well_formed(),
        old(ram_fq12).frame() + FEXP_FQ12_SLOTS_TOTAL <= old(ram_fq12).capacity(),
        old(ram_fq6).well_formed(),
        old(ram_fq6).frame() + INVERSE_FQ12_FQ6_SLOTS <= old(ram_fq6).capacity(),
        fexp_mem(*old(ram_fq12), *old(ram_fq6), *f, round as int),
    ensures
        final(ram_fq12).well_formed(),
        final(ram_fq6).well_formed(),
        ram_frame_kept(*old(ram_fq12), *final(ram_fq12)),
        ram_frame_kept(*old(ram_fq6), *final(ram_fq6)),
        ram_preserved_outside(
            *old(ram_fq12),
            *final(ram_fq12),
            0,
            FEXP_FQ12_SLOTS_TOTAL as int,
        ),
        ram_preserved_outside(*old(ram_fq6), *final(ram_fq6), 0, INVERSE_FQ12_FQ6_SLOTS as int),
        res is Ok ==> fexp_mem(*final(ram_fq12), *final(ram_fq6), *f, round as int + 1),
        res is Err ==> round == 4 && spec_inverse_fq12(*f) is None && res == Err::<
            Option<Fq12>,
            ComputationError,
        >(ComputationError::InverseOfZero),
        round < FINAL_EXP_ROUNDS - 1 && res is Ok ==> res == Ok::<
            Option<Fq12>,
            ComputationError,
        >(None),
        round == FINAL_EXP_ROUNDS - 1 ==> res == Ok::<Option<Fq12>, ComputationError>(
            Some(spec_final_exponentiation(*f).unwrap()),
        ) && spec_final_exponentiation(*f) is Some && spec_fq12_canonical(
            spec_final_exponentiation(*f).unwrap(),
        ),
{
    if round == 0 {
        let f1 = fq12_conjugate(f);
        ram_fq12.write(f1, 0);
        Ok(None)
    } else if round < 6 {
        // nested inversion, rounds 1..=5
        match inverse_fq12_partial(round - 1, ram_fq6, f) {
            Err(e) => Err(e),
            Ok(Some(f2)) => {
                ram_fq12.write(f2, 1);
                Ok(None)
            },
            Ok(None) => Ok(None),
        }
    } else if round == 6 {
        let f1 = ram_fq12.read(0);
        let f2 = ram_fq12.read(1);
        let r = fq12_mul(&f1, &f2);
        ram_fq12.write(r, 2);
        ram_fq12.write(r, 1);
        Ok(None)
    } else if round == 7 {
        let f2 = ram_fq12.read(1);
        let mut r = ram_fq12.read(2);
        r = fq12_frobenius(&r, 2);
        r = fq12_mul(&r, &f2);
        ram_fq12.write(r, 2);
        Ok(None)
    } else if round < 73 {
        // first nested exponentiation, rounds 8..=72
        let arg = ram_fq12.read(2);
        ram_fq12.inc_frame(FEXP_FQ12_SLOTS);
        let sub = exp_by_neg_x_partial(round - FEXP_EXP1_START, ram_fq12, &arg);
        ram_fq12.dec_frame(FEXP_FQ12_SLOTS);
        match sub {
            Some(y0) => {
                ram_fq12.write(y0, 3);
            },
            None => {},
        }
        Ok(None)
    } else if round == 73 {
        let y0 = ram_fq12.read(3);
        let y1 = fq12_cyclotomic_square(&y0);
        let y2 = fq12_cyclotomic_square(&y1);
        let y3 = fq12_mul(&y2, &y1);
        ram_fq12.write(y1, 4);
        ram_fq12.write(y3, 5);
        Ok(None)
    } else if round < 139 {
        // second nested exponentiation, rounds 74..=138
        let arg = ram_fq12.read(5);
        ram_fq12.inc_frame(FEXP_FQ12_SLOTS);
        let sub = exp_by_neg_x_partial(round - FEXP_EXP2_START, ram_fq12, &arg);
        ram_fq12.dec_frame(FEXP_FQ12_SLOTS);
        match sub {
            Some(y4) => {
                ram_fq12.write(y4, 6);
            },
            None => {},
        }
        Ok(None)
    } else if round == 139 {
        let y4 = ram_fq12.read(6);
        let y5 = fq12_cyclotomic_square(&y4);
        ram_fq12.write(y5, 7);
        Ok(None)
    } else if round < 205 {
        // third nested exponentiation, rounds 140..=204
        let arg = ram_fq12.read(7);
        ram_fq12.inc_frame(FEXP_FQ12_SLOTS);
        let sub = exp_by_neg_x_partial(round - FEXP_EXP3_START, ram_fq12, &arg);
        ram_fq12.dec_frame(FEXP_FQ12_SLOTS);
        match sub {
            Some(y6) => {
                ram_fq12.write(y6, 8);
            },
            None => {},
        }
        Ok(None)
    } else if round == 205 {
        let y3 = ram_fq12.read(5);
        let y6 = ram_fq12.read(8);
        ram_fq12.write(fq12_conjugate(&y3), 5);
        ram_fq12.write(fq12_conjugate(&y6), 8);
        Ok(None)
    } else if round == 206 {
        let y6 = ram_fq12.read(8);
        let y4 = ram_fq12.read(6);
        let y3 = ram_fq12.read(5);
        let y1 = ram_fq12.read(4);
        let y7 = fq12_mul(&y6, &y4);
        let y8 = fq12_mul(&y7, &y3);
        let y9 = fq12_mul(&y8, &y1);
        let y10 = fq12_mul(&y8, &y4);
        ram_fq12.write(y8, 9);
        ram_fq12.write(y9, 10);
        ram_fq12.write(y10, 11);
        Ok(None)
    } else if round == 207 {
        let y10 = ram_fq12.read(11);
        let r = ram_fq12.read(2);
        let y9 = ram_fq12.read(10);
        let y11 = fq12_mul(&y10, &r);
        let y12 = fq12_frobenius(&y9, 1);
        ram_fq12.write(y11, 12);
        ram_fq12.write(y12, 13);
        Ok(None)
    } else if round == 208 {
        let y12 = ram_fq12.read(13);
        let y11 = ram_fq12.read(12);
        let y8 = ram_fq12.read(9);
        let y13 = fq12_mul(&y12, &y11);
        let y8f = fq12_frobenius(&y8, 2);
        ram_fq12.write(y13, 14);
        ram_fq12.write(y8f, 9);
        Ok(None)
    } else if round == 209 {
        let y8f = ram_fq12.read(9);
        let y13 = ram_fq12.read(14);
        let y14 = fq12_mul(&y8f, &y13);
        let r = ram_fq12.read(2);
        let rc = fq12_conjugate(&r);
        ram_fq12.write(y14, 15);
        ram_fq12.write(rc, 2);
        Ok(None)
    } else {
        let rc = ram_fq12.read(2);
        let y9 = ram_fq12.read(10);
        let y14 = ram_fq12.read(15);
        let y15 = fq12_frobenius(&fq12_mul(&rc, &y9), 3);
        let y16 = fq12_mul(&y15, &y14);
        Ok(Some(y16))
    }
}

} // verus!

//! The fixed-exponent exponentiation by the curve parameter, one
//! Non-Adjacent-Form digit per round, via cyclotomic squaring.  The digit
//! sequence is fixed configuration data: digit `1` multiplies by the base,
//! digit `2` by the base's conjugate (its cyclotomic inverse).  The curve
//! parameter is positive, so the result is conjugated at the end.

use vstd::prelude::*;

use crate::field::{
    fq12_conjugate, fq12_cyclotomic_square, fq12_mul, fq12_one, spec_fq12_canonical,
    spec_fq12_conjugate, spec_fq12_cyclotomic_square, spec_fq12_mul, spec_fq12_one, Fq12,
};
use crate::ram::{ram_frame_kept, ram_preserved_outside, RAM};

verus! {

/// Number of Non-Adjacent-Form digits of the curve parameter.
pub const EXP_NAF_LEN: usize = 63;

/// Rounds of the fixed-exponent exponentiation: one set-up round, one
/// round per digit, one closing conjugation.
pub const EXP_BY_NEG_X_ROUNDS: usize = 65;

/// Accumulator scratch slots the exponentiation occupies.
pub const EXP_FQ12_SLOTS: usize = 2;

/// The Non-Adjacent-Form digits of the curve parameter `x`, least
/// significant first.
pub open spec fn spec_exp_naf() -> Seq<u8> {
    seq![
        1u8, 0, 0, 0, 1, 0, 1, 0, 0, 2, 0, 1, 0, 1, 0, 2, 0, 0, 1, 0, 1, 0, 2, 0, 2, 0, 2, 0, 1,
        0, 0, 0, 1, 0, 0, 1, 0, 1, 0, 1, 0, 2, 0, 1, 0, 0, 1, 0, 0, 0, 0, 1, 0, 1, 0, 0, 0, 0, 2,
        0, 0, 0, 1,
    ]
}

/// The running value after the first `k` digits have been processed:
/// every digit but the first squares first, and a non-zero digit
/// multiplies by the base or its conjugate.
pub open spec fn spec_exp_after(fe: Fq12, k: nat) -> Fq12
    decreases k,
{
    if k == 0 {
        spec_fq12_one()
    } else {
        let prev = spec_exp_after(fe, (k - 1) as nat);
        let squared = if k - 1 > 0 {
            spec_fq12_cyclotomic_square(prev)
        } else {
            prev
        };
        let d = spec_exp_naf()[k - 1];
        if d == 1 {
            spec_fq12_mul(squared, fe)
        } else if d == 2 {
            spec_fq12_mul(squared, spec_fq12_conjugate(fe))
        } else {
            squared
        }
    }
}

/// The exponentiation by the negated curve parameter: the digit walk,
/// conjugated once because the parameter itself is positive.
pub open spec fn spec_exp_by_neg_x(fe: Fq12) -> Fq12 {
    spec_fq12_conjugate(spec_exp_after(fe, EXP_NAF_LEN as nat))
}

/// Whether a digit asks for a multiplication at all.
pub fn is_non_zero(v: u8) -> (r: bool)
    ensures
        r == (v != 0),
{
    v != 0
}

/// Whether the digit walk is past its first digit (and so must square).
pub fn larger_than_zero(v: usize) -> (r: bool)
    ensures
        r == (v > 0),
{
    v > 0
}

/// Whether a digit multiplies by the base rather than its conjugate.
pub fn is_one(v: u8) -> (r: bool)
    ensures
        r == (v == 1),
{
    v == 1
}

/// Digit `k` of the fixed Non-Adjacent-Form sequence.
pub fn exp_naf_digit(k: usize) -> (d: u8)
    requires
        k < EXP_NAF_LEN,
    ensures
        d == spec_exp_naf()[k as int],
{
    let table: [u8; 63] = [
        1u8, 0, 0, 0, 1, 0, 1, 0, 0, 2, 0, 1, 0, 1, 0, 2, 0, 0, 1, 0, 1, 0, 2, 0, 2, 0, 2, 0, 1,
        0, 0, 0, 1, 0, 0, 1, 0, 1, 0, 1, 0, 2, 0, 1, 0, 0, 1, 0, 0, 0, 0, 1, 0, 1, 0, 0, 0, 0, 2,
        0, 0, 0, 1,
    ];
    let d = table[k];
    proof {
        assert(table@ =~= spec_exp_naf());
    }
    d
}

/// Scratch contents after `round` rounds of the exponentiation: the
/// base's conjugate and the running value of the digit walk.
pub open spec fn exp_mem_at(ram_fq12: RAM<Fq12>, base: int, fe: Fq12, round: int) -> bool {
    &&& round >= 1 ==> ram_fq12.slot(base) == Some(spec_fq12_conjugate(fe))
        && spec_fq12_canonical(spec_fq12_conjugate(fe))
    &&& 1 <= round <= EXP_NAF_LEN + 1 ==> ram_fq12.slot(base + 1) == Some(
        spec_exp_after(fe, (round - 1) as nat),
    ) && spec_fq12_canonical(spec_exp_after(fe, (round - 1) as nat))
}

/// The same invariant, at the store's own frame.
pub open spec fn exp_mem(ram_fq12: RAM<Fq12>, fe: Fq12, round: int) -> bool {
    exp_mem_at(ram_fq12, 0, fe, round)
}

/// One round of the fixed-exponent exponentiation of `fe`.  The last
/// round returns the result.
pub fn exp_by_neg_x_partial(round: usize, ram_fq12: &mut RAM<Fq12>, fe: &Fq12) -> (res: Option<
    Fq12,
>)
    requires
        round < EXP_BY_NEG_X_ROUNDS,
        spec_fq12_canonical(*fe),
        old(ram_fq12).well_formed(),
        old(ram_fq12).frame() + EXP_FQ12_SLOTS <= old(ram_fq12).capacity(),
        exp_mem(*old(ram_fq12), *fe, round as int),
    ensures
        final(ram_fq12).well_formed(),
        ram_frame_kept(*old(ram_fq12), *final(ram_fq12)),
        ram_preserved_outside(*old(ram_fq12), *final(ram_fq12), 0, EXP_FQ12_SLOTS as int),
        exp_mem(*final(ram_fq12), *fe, round as int + 1),
        round < EXP_BY_NEG_X_ROUNDS - 1 ==> res is None,
        round == EXP_BY_NEG_X_ROUNDS - 1 ==> res == Some(spec_exp_by_neg_x(*fe))
            && spec_fq12_canonical(spec_exp_by_neg_x(*fe)),
{
    if round == 0 {
        let fe_inverse = fq12_conjugate(fe);
        let one = fq12_one();
        ram_fq12.write(fe_inverse, 0);
        ram_fq12.write(one, 1);
        None
    } else if round <= EXP_NAF_LEN {
        let k = round - 1;
        let d = exp_naf_digit(k);
        let mut res = ram_fq12.read(1);
        if larger_than_zero(k) {
            res = fq12_cyclotomic_square(&res);
        }
        if is_non_zero(d) {
            if is_one(d) {
                res = fq12_mul(&res, fe);
            } else {
                let fe_inverse = ram_fq12.read(0);
                res = fq12_mul(&res, &fe_inverse);
            }
        }
        ram_fq12.write(res, 1);
        None
    } else {
        let res = ram_fq12.read(1);
        Some(fq12_conjugate(&res))
    }
}

} // verus!

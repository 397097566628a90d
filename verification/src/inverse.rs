//! The quadratic-over-cubic-tower inversion, split into rounds via the
//! norm-reduction identity: invert the cubic-tower norm, then scale both
//! halves.  Inverting the additive identity is the only failure and is
//! reported as an error, never a panic.

use vstd::prelude::*;

use crate::errors::ComputationError;
use crate::field::{
    fq6_inverse, fq6_mul, fq6_neg, fq6_square, spec_fq12_canonical, spec_fq6_canonical,
    spec_fq6_inverse, spec_fq6_mul, spec_fq6_neg, spec_fq6_square, Fq12, Fq6,
};
use crate::ram::{ram_frame_kept, ram_preserved_outside, RAM};
use crate::tower::{spec_sub_and_mul_base_field_by_nonresidue, sub_and_mul_base_field_by_nonresidue};

verus! {

/// Rounds of the tower inversion.
pub const INVERSE_FQ12_ROUNDS: usize = 5;

/// Cubic-tower scratch slots the inversion occupies.
pub const INVERSE_FQ12_FQ6_SLOTS: usize = 4;

/// The norm `f.c0^2 - f.c1^2 * v` whose cubic-tower inverse drives the
/// identity.
pub open spec fn spec_inv_v0(f: Fq12) -> Fq6 {
    spec_sub_and_mul_base_field_by_nonresidue(spec_fq6_square(f.c0), spec_fq6_square(f.c1))
}

/// The tower inverse; `None` exactly when the norm has no cubic-tower
/// inverse, which happens only for the additive identity.
pub open spec fn spec_inverse_fq12(f: Fq12) -> Option<Fq12> {
    match spec_fq6_inverse(spec_inv_v0(f)) {
        Some(v3) => Some(
            Fq12 { c0: spec_fq6_mul(f.c0, v3), c1: spec_fq6_neg(spec_fq6_mul(f.c1, v3)) },
        ),
        None => None,
    }
}

/// Scratch contents after `round` rounds of the inversion.
pub open spec fn inverse_mem(ram_fq6: RAM<Fq6>, f: Fq12, round: int) -> bool {
    &&& round >= 1 ==> ram_fq6.slot(0) == Some(spec_fq6_square(f.c1)) && spec_fq6_canonical(
        spec_fq6_square(f.c1),
    )
    &&& round >= 2 ==> ram_fq6.slot(1) == Some(spec_fq6_square(f.c0)) && spec_fq6_canonical(
        spec_fq6_square(f.c0),
    )
    &&& round >= 3 ==> ram_fq6.slot(2) == Some(spec_inv_v0(f)) && spec_fq6_canonical(
        spec_inv_v0(f),
    )
    &&& round >= 4 ==> spec_fq6_inverse(spec_inv_v0(f)) is Some && ram_fq6.slot(3) == Some(
        spec_fq6_inverse(spec_inv_v0(f)).unwrap(),
    ) && spec_fq6_canonical(spec_fq6_inverse(spec_inv_v0(f)).unwrap())
}

/// One round of the tower inversion of `f`.  The last round returns the
/// inverse; the unwrap round reports `InverseOfZero` if the norm cannot be
/// inverted.
pub fn inverse_fq12_partial(round: usize, ram_fq6: &mut RAM<Fq6>, f: &Fq12) -> (res: Result<
    Option<Fq12>,
    ComputationError,
>)
    requires
        round < INVERSE_FQ12_ROUNDS,
        spec_fq12_canonical(*f),
        old(ram_fq6).well_formed(),
        old(ram_fq6).frame() + INVERSE_FQ12_FQ6_SLOTS <= old(ram_fq6).capacity(),
        inverse_mem(*old(ram_fq6), *f, round as int),
    ensures
        final(ram_fq6).well_formed(),
        ram_frame_kept(*old(ram_fq6), *final(ram_fq6)),
        ram_preserved_outside(*old(ram_fq6), *final(ram_fq6), 0, INVERSE_FQ12_FQ6_SLOTS as int),
        res is Ok ==> inverse_mem(*final(ram_fq6), *f, round as int + 1),
        round < 3 ==> res == Ok::<Option<Fq12>, ComputationError>(None),
        round == 3 && spec_inverse_fq12(*f) is Some ==> res == Ok::<
            Option<Fq12>,
            ComputationError,
        >(None),
        round == 3 && spec_inverse_fq12(*f) is None ==> res == Err::<
            Option<Fq12>,
            ComputationError,
        >(ComputationError::InverseOfZero),
        round == INVERSE_FQ12_ROUNDS - 1 ==> res == Ok::<Option<Fq12>, ComputationError>(
            Some(spec_inverse_fq12(*f).unwrap()),
        ) && spec_inverse_fq12(*f) is Some && spec_fq12_canonical(spec_inverse_fq12(*f).unwrap()),
{
    if round == 0 {
        let v1 = fq6_square(&f.c1);
        ram_fq6.write(v1, 0);
        Ok(None)
    } else if round == 1 {
        let v2 = fq6_square(&f.c0);
        ram_fq6.write(v2, 1);
        Ok(None)
    } else if round == 2 {
        let v1 = ram_fq6.read(0);
        let v2 = ram_fq6.read(1);
        let v0 = sub_and_mul_base_field_by_nonresidue(&v2, &v1);
        ram_fq6.write(v0, 2);
        Ok(None)
    } else if round == 3 {
        let v0 = ram_fq6.read(2);
        match fq6_inverse(&v0) {
            Some(v3) => {
                ram_fq6.write(v3, 3);
                Ok(None)
            },
            None => Err(ComputationError::InverseOfZero),
        }
    } else {
        let v3 = ram_fq6.read(3);
        Ok(Some(Fq12 { c0: fq6_mul(&f.c0, &v3), c1: fq6_neg(&fq6_mul(&f.c1, &v3)) }))
    }
}

} // verus!

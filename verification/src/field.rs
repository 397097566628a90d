//! Value types for the BN254 field towers, and the trusted boundary to the
//! outside arithmetic library.
//!
//! Every element is stored as plain 64-bit limbs in the library's own
//! structs, so that contracts can speak about them directly.  The limbs hold
//! the same internal (Montgomery) representation that the outside library
//! uses, which makes each conversion a plain repackaging of four words per
//! base-field coordinate.
//!
//! The arithmetic itself (multiplication, inversion, Frobenius maps,
//! cyclotomic squaring, curve operations) is performed by `ark-ff` /
//! `ark-bn254` / `ark-ec` behind `#[verifier::external_body]` wrappers.
//! Each wrapper's result is given a name by an uninterpreted spec function;
//! all verified code above this module reasons purely in those names.

use vstd::prelude::*;

verus! {

// ---------------------------------------------------------------------------
// Value types
// ---------------------------------------------------------------------------

/// Base-field element, four 64-bit limbs of the internal representation.
#[derive(Clone, Copy, PartialEq, Eq, Structural, Debug)]
pub struct Fq {
    pub l0: u64,
    pub l1: u64,
    pub l2: u64,
    pub l3: u64,
}

/// Quadratic-tower element `c0 + c1 * u`.
#[derive(Clone, Copy, PartialEq, Eq, Structural, Debug)]
pub struct Fq2 {
    pub c0: Fq,
    pub c1: Fq,
}

/// Cubic-over-quadratic-tower element `c0 + c1 * v + c2 * v^2`.
#[derive(Clone, Copy, PartialEq, Eq, Structural, Debug)]
pub struct Fq6 {
    pub c0: Fq2,
    pub c1: Fq2,
    pub c2: Fq2,
}

/// Quadratic-over-cubic-tower element `c0 + c1 * w`; the accumulator type
/// of the Miller loop and the final exponentiation.
#[derive(Clone, Copy, PartialEq, Eq, Structural, Debug)]
pub struct Fq12 {
    pub c0: Fq6,
    pub c1: Fq6,
}

/// Affine point on the base curve.
#[derive(Clone, Copy, PartialEq, Eq, Structural, Debug)]
pub struct G1Affine {
    pub x: Fq,
    pub y: Fq,
    pub infinity: bool,
}

/// Affine point on the twisted curve.
#[derive(Clone, Copy, PartialEq, Eq, Structural, Debug)]
pub struct G2Affine {
    pub x: Fq2,
    pub y: Fq2,
    pub infinity: bool,
}

/// Homogeneous projective point on the twisted curve; the working point of
/// the Miller loop's doubling and addition steps.
#[derive(Clone, Copy, PartialEq, Eq, Structural, Debug)]
pub struct G2HomProjective {
    pub x: Fq2,
    pub y: Fq2,
    pub z: Fq2,
}

/// A doubling or addition step's three line coefficients, consumed by the
/// line-function evaluation.
#[derive(Clone, Copy, PartialEq, Eq, Structural, Debug)]
pub struct LineCoefficients {
    pub c0: Fq2,
    pub c1: Fq2,
    pub c2: Fq2,
}

/// A 256-bit scalar (for example a public input), four little-endian limbs.
#[derive(Clone, Copy, PartialEq, Eq, Structural, Debug)]
pub struct U256 {
    pub l0: u64,
    pub l1: u64,
    pub l2: u64,
    pub l3: u64,
}

// ---------------------------------------------------------------------------
// Canonicality
// ---------------------------------------------------------------------------

/// Whether the limbs hold a canonical residue: the four little-endian
/// words, read as one 256-bit integer, lie below the base modulus
/// `p = 21888242871839275222246405745257275088696311157297823662689037894645226208583`
/// (limbs `0x3c208c16d87cfd47, 0x97816a916871ca8d, 0xb85045b68181585d,
/// 0x30644e72e131a029`).  Every element the engine works on keeps this
/// invariant; the outside library's inversion and curve conversions are
/// only safe on canonical representations.
pub open spec fn spec_fq_canonical(v: Fq) -> bool {
    ||| v.l3 < 0x30644e72e131a029
    ||| (v.l3 == 0x30644e72e131a029 && (v.l2 < 0xb85045b68181585d || (v.l2
        == 0xb85045b68181585d && (v.l1 < 0x97816a916871ca8d || (v.l1 == 0x97816a916871ca8d
        && v.l0 < 0x3c208c16d87cfd47)))))
}

pub open spec fn spec_fq2_canonical(v: Fq2) -> bool {
    spec_fq_canonical(v.c0) && spec_fq_canonical(v.c1)
}

pub open spec fn spec_fq6_canonical(v: Fq6) -> bool {
    spec_fq2_canonical(v.c0) && spec_fq2_canonical(v.c1) && spec_fq2_canonical(v.c2)
}

pub open spec fn spec_fq12_canonical(v: Fq12) -> bool {
    spec_fq6_canonical(v.c0) && spec_fq6_canonical(v.c1)
}

pub open spec fn spec_g1_canonical(p: G1Affine) -> bool {
    spec_fq_canonical(p.x) && spec_fq_canonical(p.y)
}

pub open spec fn spec_g2_canonical(q: G2Affine) -> bool {
    spec_fq2_canonical(q.x) && spec_fq2_canonical(q.y)
}

pub open spec fn spec_g2hom_canonical(r: G2HomProjective) -> bool {
    spec_fq2_canonical(r.x) && spec_fq2_canonical(r.y) && spec_fq2_canonical(r.z)
}

pub open spec fn spec_coeffs_canonical(c: LineCoefficients) -> bool {
    spec_fq2_canonical(c.c0) && spec_fq2_canonical(c.c1) && spec_fq2_canonical(c.c2)
}

pub fn fq_is_canonical(v: &Fq) -> (r: bool)
    ensures
        r == spec_fq_canonical(*v),
{
    if v.l3 != 0x30644e72e131a029 {
        v.l3 < 0x30644e72e131a029
    } else if v.l2 != 0xb85045b68181585d {
        v.l2 < 0xb85045b68181585d
    } else if v.l1 != 0x97816a916871ca8d {
        v.l1 < 0x97816a916871ca8d
    } else {
        v.l0 < 0x3c208c16d87cfd47
    }
}

pub fn fq2_is_canonical(v: &Fq2) -> (r: bool)
    ensures
        r == spec_fq2_canonical(*v),
{
    fq_is_canonical(&v.c0) && fq_is_canonical(&v.c1)
}

pub fn g1_is_canonical(p: &G1Affine) -> (r: bool)
    ensures
        r == spec_g1_canonical(*p),
{
    fq_is_canonical(&p.x) && fq_is_canonical(&p.y)
}

pub fn g2_is_canonical(q: &G2Affine) -> (r: bool)
    ensures
        r == spec_g2_canonical(*q),
{
    fq2_is_canonical(&q.x) && fq2_is_canonical(&q.y)
}

// ---------------------------------------------------------------------------
// Constants
// ---------------------------------------------------------------------------

/// The additive identity of the base field.
pub open spec fn spec_fq_zero() -> Fq {
    Fq { l0: 0, l1: 0, l2: 0, l3: 0 }
}

/// The multiplicative identity of the base field (the Montgomery constant
/// `R mod p` of BN254's base prime).
pub open spec fn spec_fq_one() -> Fq {
    Fq {
        l0: 0xd35d438dc58f0d9d,
        l1: 0x0a78eb28f5c70b3d,
        l2: 0x666ea36f7879462c,
        l3: 0x0e0a77c19a07df2f,
    }
}

/// The inverse of 2 in the base field.
pub open spec fn spec_fq_two_inv() -> Fq {
    Fq {
        l0: 9781510331150239090,
        l1: 15059239858463337189,
        l2: 10331104244869713732,
        l3: 2249375503248834476,
    }
}

pub open spec fn spec_fq2_zero() -> Fq2 {
    Fq2 { c0: spec_fq_zero(), c1: spec_fq_zero() }
}

pub open spec fn spec_fq2_one() -> Fq2 {
    Fq2 { c0: spec_fq_one(), c1: spec_fq_zero() }
}

pub open spec fn spec_fq6_zero() -> Fq6 {
    Fq6 { c0: spec_fq2_zero(), c1: spec_fq2_zero(), c2: spec_fq2_zero() }
}

pub open spec fn spec_fq6_one() -> Fq6 {
    Fq6 { c0: spec_fq2_one(), c1: spec_fq2_zero(), c2: spec_fq2_zero() }
}

pub open spec fn spec_fq12_one() -> Fq12 {
    Fq12 { c0: spec_fq6_one(), c1: spec_fq6_zero() }
}

pub fn fq_zero() -> (r: Fq)
    ensures
        r == spec_fq_zero(),
{
    Fq { l0: 0, l1: 0, l2: 0, l3: 0 }
}

pub fn fq_one() -> (r: Fq)
    ensures
        r == spec_fq_one(),
{
    Fq {
        l0: 0xd35d438dc58f0d9d,
        l1: 0x0a78eb28f5c70b3d,
        l2: 0x666ea36f7879462c,
        l3: 0x0e0a77c19a07df2f,
    }
}

pub fn fq_two_inv() -> (r: Fq)
    ensures
        r == spec_fq_two_inv(),
{
    Fq {
        l0: 9781510331150239090,
        l1: 15059239858463337189,
        l2: 10331104244869713732,
        l3: 2249375503248834476,
    }
}

pub fn fq2_zero() -> (r: Fq2)
    ensures
        r == spec_fq2_zero(),
{
    Fq2 { c0: fq_zero(), c1: fq_zero() }
}

pub fn fq2_one() -> (r: Fq2)
    ensures
        r == spec_fq2_one(),
{
    Fq2 { c0: fq_one(), c1: fq_zero() }
}

pub fn fq6_zero() -> (r: Fq6)
    ensures
        r == spec_fq6_zero(),
{
    Fq6 { c0: fq2_zero(), c1: fq2_zero(), c2: fq2_zero() }
}

pub fn fq6_one() -> (r: Fq6)
    ensures
        r == spec_fq6_one(),
{
    Fq6 { c0: fq2_one(), c1: fq2_zero(), c2: fq2_zero() }
}

pub fn fq12_one() -> (r: Fq12)
    ensures
        r == spec_fq12_one(),
{
    Fq12 { c0: fq6_one(), c1: fq6_zero() }
}

// ---------------------------------------------------------------------------
// Declarations of the outside field types
// ---------------------------------------------------------------------------

#[verifier::external_type_specification]
#[verifier::external_body]
#[verifier::reject_recursive_types(P)]
pub struct ExFp256<P>(ark_ff::Fp256<P>);

#[verifier::external_type_specification]
#[verifier::external_body]
pub struct ExFqParameters(ark_bn254::FqParameters);

/// Opaque holder for an outside quadratic-tower value.  The outside struct's
/// generic parameter carries a trait bound that Verus refuses to declare, so
/// the value is held behind this struct instead.
#[verifier::external_body]
pub(crate) struct ArkFq2(ark_bn254::Fq2);

/// Opaque holder for an outside cubic-over-quadratic-tower value.
#[verifier::external_body]
pub(crate) struct ArkFq6(ark_bn254::Fq6);

/// Opaque holder for an outside quadratic-over-cubic-tower value.
#[verifier::external_body]
pub(crate) struct ArkFq12(ark_bn254::Fq12);

// ---------------------------------------------------------------------------
// Conversions between the library's limb structs and the outside types
// ---------------------------------------------------------------------------

/// Conversion helper: repackages the stored limbs as the outside base-field
/// type (`ark_ff::Fp256::new` on the raw representation).
#[verifier::external_body]
fn fq_to_ark(v: &Fq) -> ark_bn254::Fq {
    ark_bn254::Fq::new(ark_ff::BigInteger256::new([v.l0, v.l1, v.l2, v.l3]))
}

/// Conversion helper: reads the outside base-field value's raw limbs back
/// into the library's struct.
#[verifier::external_body]
fn fq_from_ark(v: &ark_bn254::Fq) -> Fq {
    Fq { l0: (v.0).0[0], l1: (v.0).0[1], l2: (v.0).0[2], l3: (v.0).0[3] }
}

/// Conversion helper for the quadratic tower (two base coordinates).
#[verifier::external_body]
fn fq2_to_ark(v: &Fq2) -> ArkFq2 {
    ArkFq2(ark_bn254::Fq2::new(fq_to_ark(&v.c0), fq_to_ark(&v.c1)))
}

/// Conversion helper for the quadratic tower, outside to library.
#[verifier::external_body]
fn fq2_from_ark(v: &ArkFq2) -> Fq2 {
    Fq2 { c0: fq_from_ark(&v.0.c0), c1: fq_from_ark(&v.0.c1) }
}

/// Conversion helper for the cubic-over-quadratic tower.
#[verifier::external_body]
fn fq6_to_ark(v: &Fq6) -> ArkFq6 {
    ArkFq6(ark_bn254::Fq6::new(fq2_to_ark(&v.c0).0, fq2_to_ark(&v.c1).0, fq2_to_ark(&v.c2).0))
}

/// Conversion helper for the cubic-over-quadratic tower, outside to library.
#[verifier::external_body]
fn fq6_from_ark(v: &ArkFq6) -> Fq6 {
    Fq6 {
        c0: fq2_from_ark(&ArkFq2(v.0.c0)),
        c1: fq2_from_ark(&ArkFq2(v.0.c1)),
        c2: fq2_from_ark(&ArkFq2(v.0.c2)),
    }
}

/// Conversion helper for the quadratic-over-cubic tower.
#[verifier::external_body]
fn fq12_to_ark(v: &Fq12) -> ArkFq12 {
    ArkFq12(ark_bn254::Fq12::new(fq6_to_ark(&v.c0).0, fq6_to_ark(&v.c1).0))
}

/// Conversion helper for the quadratic-over-cubic tower, outside to library.
#[verifier::external_body]
fn fq12_from_ark(v: &ArkFq12) -> Fq12 {
    Fq12 { c0: fq6_from_ark(&ArkFq6(v.0.c0)), c1: fq6_from_ark(&ArkFq6(v.0.c1)) }
}

// ---------------------------------------------------------------------------
// Named results of the outside operations
// ---------------------------------------------------------------------------

pub uninterp spec fn spec_fq_mul(a: Fq, b: Fq) -> Fq;

pub uninterp spec fn spec_fq2_add(a: Fq2, b: Fq2) -> Fq2;

pub uninterp spec fn spec_fq2_sub(a: Fq2, b: Fq2) -> Fq2;

pub uninterp spec fn spec_fq2_mul(a: Fq2, b: Fq2) -> Fq2;

pub uninterp spec fn spec_fq2_square(a: Fq2) -> Fq2;

pub uninterp spec fn spec_fq2_neg(a: Fq2) -> Fq2;

pub uninterp spec fn spec_fq2_double(a: Fq2) -> Fq2;

pub uninterp spec fn spec_fq2_mul_by_fp(a: Fq2, b: Fq) -> Fq2;

pub uninterp spec fn spec_fq2_frobenius(a: Fq2, power: int) -> Fq2;

pub uninterp spec fn spec_fq2_mul_by_twist_b(a: Fq2) -> Fq2;

pub uninterp spec fn spec_fq2_mul_by_twist_q_x(a: Fq2) -> Fq2;

pub uninterp spec fn spec_fq2_mul_by_twist_q_y(a: Fq2) -> Fq2;

pub uninterp spec fn spec_fq6_add(a: Fq6, b: Fq6) -> Fq6;

pub uninterp spec fn spec_fq6_sub(a: Fq6, b: Fq6) -> Fq6;

pub uninterp spec fn spec_fq6_mul(a: Fq6, b: Fq6) -> Fq6;

pub uninterp spec fn spec_fq6_square(a: Fq6) -> Fq6;

pub uninterp spec fn spec_fq6_neg(a: Fq6) -> Fq6;

pub uninterp spec fn spec_fq6_inverse(a: Fq6) -> Option<Fq6>;

pub uninterp spec fn spec_fq2_mul_by_fq6_nonresidue(a: Fq2) -> Fq2;

pub uninterp spec fn spec_fq6_mul_by_nonresidue(a: Fq6) -> Fq6;

pub uninterp spec fn spec_fq12_mul(a: Fq12, b: Fq12) -> Fq12;

pub uninterp spec fn spec_fq12_square(a: Fq12) -> Fq12;

pub uninterp spec fn spec_fq12_conjugate(a: Fq12) -> Fq12;

pub uninterp spec fn spec_fq12_frobenius(a: Fq12, power: int) -> Fq12;

pub uninterp spec fn spec_fq12_cyclotomic_square(a: Fq12) -> Fq12;

pub uninterp spec fn spec_g1_add(a: G1Affine, b: G1Affine) -> G1Affine;

pub uninterp spec fn spec_g1_mul(p: G1Affine, s: U256) -> G1Affine;

// ---------------------------------------------------------------------------
// Trusted wrappers around the outside arithmetic
// ---------------------------------------------------------------------------

/// Relies on `ark_ff`'s quadratic-extension addition.
#[verifier::external_body]
pub(crate) fn fq2_add(a: &Fq2, b: &Fq2) -> (r: Fq2)
    ensures
        r == spec_fq2_add(*a, *b),
        spec_fq2_canonical(*a) && spec_fq2_canonical(*b) ==> spec_fq2_canonical(r),
{
    fq2_from_ark(&ArkFq2(fq2_to_ark(a).0 + fq2_to_ark(b).0))
}

/// Relies on `ark_ff`'s quadratic-extension subtraction.
#[verifier::external_body]
pub(crate) fn fq2_sub(a: &Fq2, b: &Fq2) -> (r: Fq2)
    ensures
        r == spec_fq2_sub(*a, *b),
        spec_fq2_canonical(*a) && spec_fq2_canonical(*b) ==> spec_fq2_canonical(r),
{
    fq2_from_ark(&ArkFq2(fq2_to_ark(a).0 - fq2_to_ark(b).0))
}

/// Relies on `ark_ff`'s quadratic-extension multiplication.
#[verifier::external_body]
pub(crate) fn fq2_mul(a: &Fq2, b: &Fq2) -> (r: Fq2)
    ensures
        r == spec_fq2_mul(*a, *b),
        spec_fq2_canonical(*a) && spec_fq2_canonical(*b) ==> spec_fq2_canonical(r),
{
    fq2_from_ark(&ArkFq2(fq2_to_ark(a).0 * fq2_to_ark(b).0))
}

/// Relies on `ark_ff::Field::square` for the quadratic extension.
#[verifier::external_body]
pub(crate) fn fq2_square(a: &Fq2) -> (r: Fq2)
    ensures
        r == spec_fq2_square(*a),
        spec_fq2_canonical(*a) ==> spec_fq2_canonical(r),
{
    fq2_from_ark(&ArkFq2(ark_ff::Field::square(&fq2_to_ark(a).0)))
}

/// Relies on `ark_ff`'s quadratic-extension negation.
#[verifier::external_body]
pub(crate) fn fq2_neg(a: &Fq2) -> (r: Fq2)
    ensures
        r == spec_fq2_neg(*a),
        spec_fq2_canonical(*a) ==> spec_fq2_canonical(r) && spec_fq2_neg(r) == *a,
{
    fq2_from_ark(&ArkFq2(-fq2_to_ark(a).0))
}

/// Relies on `ark_ff::Field::double` for the quadratic extension.
#[verifier::external_body]
pub(crate) fn fq2_double(a: &Fq2) -> (r: Fq2)
    ensures
        r == spec_fq2_double(*a),
        spec_fq2_canonical(*a) ==> spec_fq2_canonical(r),
{
    fq2_from_ark(&ArkFq2(ark_ff::Field::double(&fq2_to_ark(a).0)))
}

/// Relies on `ark_ff`'s `Fp2::mul_assign_by_fp` (scaling both coordinates
/// by a base-field element).
#[verifier::external_body]
pub(crate) fn fq2_mul_by_fp(a: &Fq2, b: &Fq) -> (r: Fq2)
    ensures
        r == spec_fq2_mul_by_fp(*a, *b),
        r == (Fq2 { c0: spec_fq_mul(a.c0, *b), c1: spec_fq_mul(a.c1, *b) }),
        spec_fq2_canonical(*a) && spec_fq_canonical(*b) ==> spec_fq2_canonical(r),
{
    let mut v = fq2_to_ark(a).0;
    v.mul_assign_by_fp(&fq_to_ark(b));
    fq2_from_ark(&ArkFq2(v))
}

/// Relies on `ark_ff::Field::frobenius_map` for the quadratic extension.
#[verifier::external_body]
pub(crate) fn fq2_frobenius(a: &Fq2, power: usize) -> (r: Fq2)
    ensures
        r == spec_fq2_frobenius(*a, power as int),
        spec_fq2_canonical(*a) ==> spec_fq2_canonical(r),
{
    let mut v = fq2_to_ark(a).0;
    ark_ff::Field::frobenius_map(&mut v, power);
    fq2_from_ark(&ArkFq2(v))
}

/// Relies on multiplication by the twisted curve's `COEFF_B` constant of
/// `ark_bn254::g2`.
#[verifier::external_body]
pub(crate) fn fq2_mul_by_twist_b(a: &Fq2) -> (r: Fq2)
    ensures
        r == spec_fq2_mul_by_twist_b(*a),
        spec_fq2_canonical(*a) ==> spec_fq2_canonical(r),
{
    let b = <ark_bn254::g2::Parameters as ark_ec::models::SWModelParameters>::COEFF_B;
    fq2_from_ark(&ArkFq2(b * fq2_to_ark(a).0))
}

/// Relies on multiplication by `ark_bn254::Parameters::TWIST_MUL_BY_Q_X`.
#[verifier::external_body]
pub(crate) fn fq2_mul_by_twist_q_x(a: &Fq2) -> (r: Fq2)
    ensures
        r == spec_fq2_mul_by_twist_q_x(*a),
        spec_fq2_canonical(*a) ==> spec_fq2_canonical(r),
{
    let c = <ark_bn254::Parameters as ark_ec::models::bn::BnParameters>::TWIST_MUL_BY_Q_X;
    fq2_from_ark(&ArkFq2(fq2_to_ark(a).0 * c))
}

/// Relies on multiplication by `ark_bn254::Parameters::TWIST_MUL_BY_Q_Y`.
#[verifier::external_body]
pub(crate) fn fq2_mul_by_twist_q_y(a: &Fq2) -> (r: Fq2)
    ensures
        r == spec_fq2_mul_by_twist_q_y(*a),
        spec_fq2_canonical(*a) ==> spec_fq2_canonical(r),
{
    let c = <ark_bn254::Parameters as ark_ec::models::bn::BnParameters>::TWIST_MUL_BY_Q_Y;
    fq2_from_ark(&ArkFq2(fq2_to_ark(a).0 * c))
}

/// Relies on `ark_ff`'s cubic-extension addition.
#[verifier::external_body]
pub(crate) fn fq6_add(a: &Fq6, b: &Fq6) -> (r: Fq6)
    ensures
        r == spec_fq6_add(*a, *b),
        spec_fq6_canonical(*a) && spec_fq6_canonical(*b) ==> spec_fq6_canonical(r),
{
    fq6_from_ark(&ArkFq6(fq6_to_ark(a).0 + fq6_to_ark(b).0))
}

/// Relies on `ark_ff`'s cubic-extension subtraction.
#[verifier::external_body]
pub(crate) fn fq6_sub(a: &Fq6, b: &Fq6) -> (r: Fq6)
    ensures
        r == spec_fq6_sub(*a, *b),
        spec_fq6_canonical(*a) && spec_fq6_canonical(*b) ==> spec_fq6_canonical(r),
{
    fq6_from_ark(&ArkFq6(fq6_to_ark(a).0 - fq6_to_ark(b).0))
}

/// Relies on `ark_ff`'s cubic-extension multiplication.
#[verifier::external_body]
pub(crate) fn fq6_mul(a: &Fq6, b: &Fq6) -> (r: Fq6)
    ensures
        r == spec_fq6_mul(*a, *b),
        spec_fq6_canonical(*a) && spec_fq6_canonical(*b) ==> spec_fq6_canonical(r),
{
    fq6_from_ark(&ArkFq6(fq6_to_ark(a).0 * fq6_to_ark(b).0))
}

/// Relies on `ark_ff::Field::square` for the cubic extension.
#[verifier::external_body]
pub(crate) fn fq6_square(a: &Fq6) -> (r: Fq6)
    ensures
        r == spec_fq6_square(*a),
        spec_fq6_canonical(*a) ==> spec_fq6_canonical(r),
{
    fq6_from_ark(&ArkFq6(ark_ff::Field::square(&fq6_to_ark(a).0)))
}

/// Relies on `ark_ff`'s cubic-extension negation.
#[verifier::external_body]
pub(crate) fn fq6_neg(a: &Fq6) -> (r: Fq6)
    ensures
        r == spec_fq6_neg(*a),
        spec_fq6_canonical(*a) ==> spec_fq6_canonical(r) && spec_fq6_neg(r) == *a,
{
    fq6_from_ark(&ArkFq6(-fq6_to_ark(a).0))
}

/// Relies on `ark_ff::Field::inverse` for the cubic extension, which
/// returns `None` exactly for the additive identity.  Only canonical
/// representations are admitted: the outside zero check compares limbs
/// literally, so a non-canonical encoding of zero would slip past it and
/// panic inside the norm computation.
#[verifier::external_body]
pub(crate) fn fq6_inverse(a: &Fq6) -> (r: Option<Fq6>)
    requires
        spec_fq6_canonical(*a),
    ensures
        r == spec_fq6_inverse(*a),
        r is Some ==> spec_fq6_canonical(r.unwrap()),
{
    match ark_ff::Field::inverse(&fq6_to_ark(a).0) {
        Some(v) => Some(fq6_from_ark(&ArkFq6(v))),
        None => None,
    }
}

/// Relies on multiplication by the cubic tower's non-residue constant
/// (`Fp6ParamsWrapper::NONRESIDUE` of `ark_ff`).
#[verifier::external_body]
pub(crate) fn fq2_mul_by_fq6_nonresidue(a: &Fq2) -> (r: Fq2)
    ensures
        r == spec_fq2_mul_by_fq6_nonresidue(*a),
        spec_fq2_canonical(*a) ==> spec_fq2_canonical(r),
{
    let n = <ark_ff::Fp6ParamsWrapper<ark_bn254::Fq6Parameters> as ark_ff::CubicExtParameters>::NONRESIDUE;
    fq2_from_ark(&ArkFq2(fq2_to_ark(a).0 * n))
}

/// Relies on `ark_ff`'s `Fp12ParamsWrapper::mul_base_field_by_nonresidue`
/// (multiplication by `v`, the quadratic-over-cubic non-residue).
#[verifier::external_body]
pub(crate) fn fq6_mul_by_nonresidue(a: &Fq6) -> (r: Fq6)
    ensures
        r == spec_fq6_mul_by_nonresidue(*a),
        r == (Fq6 { c0: spec_fq2_mul_by_fq6_nonresidue(a.c2), c1: a.c0, c2: a.c1 }),
        spec_fq6_canonical(*a) ==> spec_fq6_canonical(r),
{
    let v = <ark_ff::Fp12ParamsWrapper<ark_bn254::Fq12Parameters> as ark_ff::QuadExtParameters>::mul_base_field_by_nonresidue(&fq6_to_ark(a).0);
    fq6_from_ark(&ArkFq6(v))
}

/// Relies on `ark_ff`'s quadratic-over-cubic multiplication.
#[verifier::external_body]
pub(crate) fn fq12_mul(a: &Fq12, b: &Fq12) -> (r: Fq12)
    ensures
        r == spec_fq12_mul(*a, *b),
        spec_fq12_canonical(*a) && spec_fq12_canonical(*b) ==> spec_fq12_canonical(r),
{
    fq12_from_ark(&ArkFq12(fq12_to_ark(a).0 * fq12_to_ark(b).0))
}

/// Relies on `ark_ff::Field::square` for the quadratic-over-cubic tower.
#[verifier::external_body]
pub(crate) fn fq12_square(a: &Fq12) -> (r: Fq12)
    ensures
        r == spec_fq12_square(*a),
        spec_fq12_canonical(*a) ==> spec_fq12_canonical(r),
{
    fq12_from_ark(&ArkFq12(ark_ff::Field::square(&fq12_to_ark(a).0)))
}

/// Relies on `ark_ff`'s `QuadExtField::conjugate`.
#[verifier::external_body]
pub(crate) fn fq12_conjugate(a: &Fq12) -> (r: Fq12)
    ensures
        r == spec_fq12_conjugate(*a),
        r == (Fq12 { c0: a.c0, c1: spec_fq6_neg(a.c1) }),
        spec_fq12_canonical(*a) ==> spec_fq12_canonical(r),
{
    let mut v = fq12_to_ark(a).0;
    v.conjugate();
    fq12_from_ark(&ArkFq12(v))
}

/// Relies on `ark_ff::Field::frobenius_map` for the quadratic-over-cubic
/// tower.
#[verifier::external_body]
pub(crate) fn fq12_frobenius(a: &Fq12, power: usize) -> (r: Fq12)
    ensures
        r == spec_fq12_frobenius(*a, power as int),
        spec_fq12_canonical(*a) ==> spec_fq12_canonical(r),
{
    let mut v = fq12_to_ark(a).0;
    ark_ff::Field::frobenius_map(&mut v, power);
    fq12_from_ark(&ArkFq12(v))
}

/// Relies on `ark_ff`'s `Fp12::cyclotomic_square`.
#[verifier::external_body]
pub(crate) fn fq12_cyclotomic_square(a: &Fq12) -> (r: Fq12)
    ensures
        r == spec_fq12_cyclotomic_square(*a),
        spec_fq12_canonical(*a) ==> spec_fq12_canonical(r),
{
    fq12_from_ark(&ArkFq12(fq12_to_ark(a).0.cyclotomic_square()))
}

/// Relies on `ark_ec`'s projective curve addition over the base curve.
/// Only canonical coordinates are admitted: the conversion back to affine
/// form inverts the projective `z`, which is only safe on canonical
/// representations.
#[verifier::external_body]
pub(crate) fn g1_add(a: &G1Affine, b: &G1Affine) -> (r: G1Affine)
    requires
        spec_g1_canonical(*a),
        spec_g1_canonical(*b),
    ensures
        r == spec_g1_add(*a, *b),
        spec_g1_canonical(r),
{
    let pa = ark_bn254::G1Affine::new(fq_to_ark(&a.x), fq_to_ark(&a.y), a.infinity);
    let pb = ark_bn254::G1Affine::new(fq_to_ark(&b.x), fq_to_ark(&b.y), b.infinity);
    let s = ark_ec::ProjectiveCurve::into_affine(&(ark_ec::AffineCurve::into_projective(&pa)
        + ark_ec::AffineCurve::into_projective(&pb)));
    G1Affine { x: fq_from_ark(&s.x), y: fq_from_ark(&s.y), infinity: s.infinity }
}

/// Relies on `ark_ec::AffineCurve::mul`: scalar multiplication on the base
/// curve by a 256-bit integer.  Only canonical coordinates are admitted,
/// for the same reason as the addition.
#[verifier::external_body]
pub(crate) fn g1_mul(p: &G1Affine, s: &U256) -> (r: G1Affine)
    requires
        spec_g1_canonical(*p),
    ensures
        r == spec_g1_mul(*p, *s),
        spec_g1_canonical(r),
{
    let pa = ark_bn254::G1Affine::new(fq_to_ark(&p.x), fq_to_ark(&p.y), p.infinity);
    let m = ark_ec::AffineCurve::mul(&pa, ark_ff::BigInteger256::new([s.l0, s.l1, s.l2, s.l3]));
    let a = ark_ec::ProjectiveCurve::into_affine(&m);
    G1Affine { x: fq_from_ark(&a.x), y: fq_from_ark(&a.y), infinity: a.infinity }
}

} // verus!

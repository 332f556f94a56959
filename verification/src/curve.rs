//! Trusted boundary to the BN254 curve groups of `ark_bn254` / `ark_ec`.
//!
//! Group elements (commitments, SRS entries, opening proofs) are opaque to
//! the verifier; every group operation is a call into `ark_ec` behind one of
//! the wrappers below. The underlying types are instances of the generic
//! short-Weierstrass `Affine` / `Projective` models, whose declarations need
//! bounds on `ark_ec`'s own traits; Verus refuses such declarations, so each
//! value is held opaquely in a struct of this crate instead.

use vstd::prelude::*;

use crate::scalar::Scalar;

verus! {

/// The multi-scalar multiplication in the first pairing group: what
/// `ark_ec::VariableBaseMSM::msm` returns for equal-length bases and
/// scalars, a function of the two sequences alone.
pub uninterp spec fn msm_of(bases: Seq<G1Affine>, scalars: Seq<Scalar>) -> G1Projective;

/// The multi-scalar multiplication in the second pairing group.
pub uninterp spec fn msm_g2_of(bases: Seq<G2Affine>, scalars: Seq<Scalar>) -> G2Projective;

/// The affine form of a projective point of the first pairing group: what
/// `ark_ec::CurveGroup::into_affine` returns, a function of the point
/// alone.
pub uninterp spec fn affine_of(p: G1Projective) -> G1Affine;

/// The affine form of a projective point of the second pairing group.
pub uninterp spec fn affine_g2_of(p: G2Projective) -> G2Affine;

/// Whether the product of the pairings of the given pairs is the identity
/// of the target group: what the batched pairing check computes, a
/// function of the pairs alone.
pub uninterp spec fn pairing_check(pairs: Seq<(G1Projective, G2Projective)>) -> bool;

/// The scalar a point is absorbed as by the Fiat-Shamir transcript: a
/// function of the point alone.
pub uninterp spec fn fr_of_point(p: G1Affine) -> Scalar;

/// The scalar multiple of an affine point of the first pairing group: what
/// `ark_ec`'s multiplication returns, a function of point and scalar alone.
pub uninterp spec fn mul_point_of(base: G1Affine, s: Scalar) -> G1Projective;

/// The scalar multiple of a projective point of the first pairing group.
pub uninterp spec fn proj_mul_of(p: G1Projective, s: Scalar) -> G1Projective;

/// The sum of two projective points of the first pairing group.
pub uninterp spec fn add_points_of(a: G1Projective, b: G1Projective) -> G1Projective;

/// The difference of two projective points of the first pairing group.
pub uninterp spec fn sub_points_of(a: G1Projective, b: G1Projective) -> G1Projective;

/// The negation of a projective point of the first pairing group.
pub uninterp spec fn neg_point_of(a: G1Projective) -> G1Projective;

/// The projective form of an affine point of the first pairing group.
pub uninterp spec fn proj_of(p: G1Affine) -> G1Projective;

/// The projective form of an affine point of the second pairing group.
pub uninterp spec fn proj_g2_of(p: G2Affine) -> G2Projective;

/// The scalar multiple of an affine point of the second pairing group.
pub uninterp spec fn mul_g2_of(base: G2Affine, s: Scalar) -> G2Projective;

/// The sum of two projective points of the second pairing group.
pub uninterp spec fn add_g2_of(a: G2Projective, b: G2Projective) -> G2Projective;

/// The difference of two projective points of the second pairing group.
pub uninterp spec fn sub_g2_of(a: G2Projective, b: G2Projective) -> G2Projective;

/// A point of the first pairing group, in affine form.
#[verifier::external_body]
pub struct G1Affine {
    pub inner: ark_bn254::G1Affine,
}

impl Clone for G1Affine {
    /// A copy of the held point.
    #[verifier::external_body]
    fn clone(&self) -> (r: Self)
        ensures
            r == *self,
    {
        G1Affine { inner: self.inner }
    }
}

impl Copy for G1Affine {

}

/// A point of the first pairing group, in projective form.
#[verifier::external_body]
pub struct G1Projective {
    pub inner: ark_bn254::G1Projective,
}

impl Clone for G1Projective {
    /// A copy of the held point.
    #[verifier::external_body]
    fn clone(&self) -> (r: Self)
        ensures
            r == *self,
    {
        G1Projective { inner: self.inner }
    }
}

impl Copy for G1Projective {

}

/// A point of the second pairing group, in affine form.
#[verifier::external_body]
pub struct G2Affine {
    pub inner: ark_bn254::G2Affine,
}

impl Clone for G2Affine {
    /// A copy of the held point.
    #[verifier::external_body]
    fn clone(&self) -> (r: Self)
        ensures
            r == *self,
    {
        G2Affine { inner: self.inner }
    }
}

impl Copy for G2Affine {

}

/// A point of the second pairing group, in projective form.
#[verifier::external_body]
pub struct G2Projective {
    pub inner: ark_bn254::G2Projective,
}

impl Clone for G2Projective {
    /// A copy of the held point.
    #[verifier::external_body]
    fn clone(&self) -> (r: Self)
        ensures
            r == *self,
    {
        G2Projective { inner: self.inner }
    }
}

impl Copy for G2Projective {

}

/// Relies on `ark_ec::AffineRepr::generator` for BN254 G1.
#[verifier::external_body]
pub(crate) fn g1_generator() -> G1Affine {
    G1Affine { inner: <ark_bn254::G1Affine as ark_ec::AffineRepr>::generator() }
}

/// Relies on `ark_ec::AffineRepr::zero` for BN254 G1: the identity point.
#[verifier::external_body]
pub(crate) fn g1_affine_zero() -> G1Affine {
    G1Affine { inner: <ark_bn254::G1Affine as ark_ec::AffineRepr>::zero() }
}

/// Relies on `ark_std::Zero::zero` for BN254 G1: the identity point.
#[verifier::external_body]
pub(crate) fn g1_zero() -> G1Projective {
    G1Projective { inner: <ark_bn254::G1Projective as ark_std::Zero>::zero() }
}

/// Relies on `ark_ec`'s scalar multiplication of an affine BN254 G1 point.
#[verifier::external_body]
pub(crate) fn g1_mul(base: &G1Affine, s: &Scalar) -> (r: G1Projective)
    ensures
        r == mul_point_of(*base, *s),
{
    G1Projective { inner: base.inner * s.inner }
}

/// Relies on `ark_ec`'s scalar multiplication of a projective BN254 G1 point.
#[verifier::external_body]
pub(crate) fn g1_proj_mul(p: &G1Projective, s: &Scalar) -> (r: G1Projective)
    ensures
        r == proj_mul_of(*p, *s),
{
    G1Projective { inner: p.inner * s.inner }
}

/// Relies on `ark_ec`'s group addition for BN254 G1.
#[verifier::external_body]
pub(crate) fn g1_add(a: &G1Projective, b: &G1Projective) -> (r: G1Projective)
    ensures
        r == add_points_of(*a, *b),
{
    G1Projective { inner: a.inner + b.inner }
}

/// Relies on `ark_ec`'s group subtraction for BN254 G1.
#[verifier::external_body]
pub(crate) fn g1_sub(a: &G1Projective, b: &G1Projective) -> (r: G1Projective)
    ensures
        r == sub_points_of(*a, *b),
{
    G1Projective { inner: a.inner - b.inner }
}

/// Relies on `ark_ec`'s group negation for BN254 G1.
#[verifier::external_body]
pub(crate) fn g1_neg(a: &G1Projective) -> (r: G1Projective)
    ensures
        r == neg_point_of(*a),
{
    G1Projective { inner: -a.inner }
}

/// Relies on `ark_ec::CurveGroup::into_affine` for BN254 G1.
#[verifier::external_body]
pub(crate) fn g1_into_affine(p: &G1Projective) -> (r: G1Affine)
    ensures
        r == affine_of(*p),
{
    G1Affine { inner: ark_ec::CurveGroup::into_affine(p.inner) }
}

/// Relies on `ark_ec`'s conversion of an affine BN254 G1 point into
/// projective form.
#[verifier::external_body]
pub(crate) fn g1_into_projective(p: &G1Affine) -> (r: G1Projective)
    ensures
        r == proj_of(*p),
{
    G1Projective { inner: ark_ec::AffineRepr::into_group(p.inner) }
}

/// Relies on `ark_ec::VariableBaseMSM::msm` for BN254 G1: the sum of each
/// base multiplied by the scalar at the same position.
#[verifier::external_body]
pub(crate) fn g1_msm(bases: &[G1Affine], scalars: &[Scalar]) -> (r: G1Projective)
    requires
        bases@.len() == scalars@.len(),
    ensures
        r == msm_of(bases@, scalars@),
{
    let b: Vec<ark_bn254::G1Affine> = bases.iter().map(|p| p.inner).collect();
    let s: Vec<ark_bn254::Fr> = scalars.iter().map(|x| x.inner).collect();
    G1Projective {
        inner: <ark_bn254::G1Projective as ark_ec::VariableBaseMSM>::msm(&b, &s).unwrap(),
    }
}

/// Relies on `ark_ec::VariableBaseMSM::msm` for BN254 G2: the sum of each
/// base multiplied by the scalar at the same position.
#[verifier::external_body]
pub(crate) fn g2_msm(bases: &[G2Affine], scalars: &[Scalar]) -> (r: G2Projective)
    requires
        bases@.len() == scalars@.len(),
    ensures
        r == msm_g2_of(bases@, scalars@),
{
    let b: Vec<ark_bn254::G2Affine> = bases.iter().map(|p| p.inner).collect();
    let s: Vec<ark_bn254::Fr> = scalars.iter().map(|x| x.inner).collect();
    G2Projective {
        inner: <ark_bn254::G2Projective as ark_ec::VariableBaseMSM>::msm(&b, &s).unwrap(),
    }
}

/// Relies on `ark_ec::AffineRepr::xy`, `ark_ff::BigInteger::to_bytes_le`
/// and `ark_ff::PrimeField::from_le_bytes_mod_order`: the held point
/// converted to a scalar through its coordinate bytes, deterministically;
/// the identity point converts to the embedding of zero. The transcript
/// absorbs points through this conversion.
#[verifier::external_body]
pub(crate) fn fr_from_g1(p: &G1Affine) -> (r: Scalar)
    ensures
        r == fr_of_point(*p),
{
    let (x, y) = match ark_ec::AffineRepr::xy(&p.inner) {
        Some((x, y)) => (*x, *y),
        None => {
            return Scalar { inner: <ark_bn254::Fr as From<u64>>::from(0u64) };
        },
    };
    let mut bytes = ark_ff::BigInteger::to_bytes_le(&ark_ff::PrimeField::into_bigint(x));
    bytes.extend(ark_ff::BigInteger::to_bytes_le(&ark_ff::PrimeField::into_bigint(y)));
    Scalar { inner: <ark_bn254::Fr as ark_ff::PrimeField>::from_le_bytes_mod_order(&bytes) }
}

/// Relies on `ark_ec::AffineRepr::generator` for BN254 G2.
#[verifier::external_body]
pub(crate) fn g2_generator() -> G2Affine {
    G2Affine { inner: <ark_bn254::G2Affine as ark_ec::AffineRepr>::generator() }
}

/// Relies on `ark_std::Zero::zero` for BN254 G2: the identity point.
#[verifier::external_body]
pub(crate) fn g2_zero() -> G2Projective {
    G2Projective { inner: <ark_bn254::G2Projective as ark_std::Zero>::zero() }
}

/// Relies on `ark_ec`'s scalar multiplication of an affine BN254 G2 point.
#[verifier::external_body]
pub(crate) fn g2_mul(base: &G2Affine, s: &Scalar) -> (r: G2Projective)
    ensures
        r == mul_g2_of(*base, *s),
{
    G2Projective { inner: base.inner * s.inner }
}

/// Relies on `ark_ec`'s group addition for BN254 G2.
#[verifier::external_body]
pub(crate) fn g2_add(a: &G2Projective, b: &G2Projective) -> (r: G2Projective)
    ensures
        r == add_g2_of(*a, *b),
{
    G2Projective { inner: a.inner + b.inner }
}

/// Relies on `ark_ec`'s group subtraction for BN254 G2.
#[verifier::external_body]
pub(crate) fn g2_sub(a: &G2Projective, b: &G2Projective) -> (r: G2Projective)
    ensures
        r == sub_g2_of(*a, *b),
{
    G2Projective { inner: a.inner - b.inner }
}

/// Relies on `ark_ec::CurveGroup::into_affine` for BN254 G2.
#[verifier::external_body]
pub(crate) fn g2_into_affine(p: &G2Projective) -> (r: G2Affine)
    ensures
        r == affine_g2_of(*p),
{
    G2Affine { inner: ark_ec::CurveGroup::into_affine(p.inner) }
}

/// Relies on `ark_ec`'s conversion of an affine BN254 G2 point into
/// projective form.
#[verifier::external_body]
pub(crate) fn g2_into_projective(p: &G2Affine) -> (r: G2Projective)
    ensures
        r == proj_g2_of(*p),
{
    G2Projective { inner: ark_ec::AffineRepr::into_group(p.inner) }
}

/// Relies on `ark_ec::pairing::Pairing::multi_pairing` for BN254 and the
/// `Zero` impl of its output: whether the product of the pairings of the
/// given pairs is the identity of the target group.
#[verifier::external_body]
pub(crate) fn pairing_product_is_one(pairs: &Vec<(G1Projective, G2Projective)>) -> (r: bool)
    ensures
        r == pairing_check(pairs@),
{
    let g1s: Vec<ark_bn254::G1Projective> = pairs.iter().map(|p| p.0.inner).collect();
    let g2s: Vec<ark_bn254::G2Projective> = pairs.iter().map(|p| p.1.inner).collect();
    let out = <ark_bn254::Bn254 as ark_ec::pairing::Pairing>::multi_pairing(g1s, g2s);
    ark_std::Zero::is_zero(&out)
}

} // verus!

//! Trusted boundary to the BN254 scalar field of `ark_bn254` / `ark_ff`.
//!
//! Field elements are opaque to the verifier: the contracts of this crate
//! relate them by position and by (spec-level) equality only, never by their
//! numeric value. Every arithmetic operation on them is a call into
//! `ark_ff`, made behind one of the wrappers below.
//!
//! The underlying type `ark_bn254::Fr` is an instance of the generic
//! `ark_ff::Fp`, whose declaration needs bounds on `ark_ff`'s own traits;
//! Verus refuses such a declaration, so the value is held opaquely in a
//! struct of this crate instead.

use vstd::prelude::*;

verus! {

/// The canonical embedding of a small integer into the scalar field: what
/// `From<u64>` for `ark_bn254::Fr` returns, a function of the integer
/// alone.
pub uninterp spec fn fr_of(x: u64) -> Scalar;

/// The field sum: what `ark_ff`'s addition for `ark_bn254::Fr` returns, a
/// function of the two operands alone.
pub uninterp spec fn add_of(a: Scalar, b: Scalar) -> Scalar;

/// The field product: what `ark_ff`'s multiplication for `ark_bn254::Fr`
/// returns, a function of the two operands alone.
pub uninterp spec fn mul_of(a: Scalar, b: Scalar) -> Scalar;

/// The field negation: what `ark_ff`'s negation for `ark_bn254::Fr`
/// returns, a function of the operand alone.
pub uninterp spec fn neg_of(a: Scalar) -> Scalar;

/// The field inverse of the canonical embedding of a non-zero small
/// integer: a function of the integer alone.
pub uninterp spec fn inv_u64_of(x: u64) -> Scalar;

/// The field power with a small exponent: what `ark_ff::Field::pow`
/// returns, a function of base and exponent alone.
pub uninterp spec fn pow_of(a: Scalar, e: u64) -> Scalar;

/// An element of the scalar field of the BN254 pairing curve.
///
/// Holds an `ark_bn254::Fr`; opaque to the verifier.
#[verifier::external_body]
pub struct Scalar {
    pub inner: ark_bn254::Fr,
}

impl Clone for Scalar {
    /// A copy of the held field element.
    #[verifier::external_body]
    fn clone(&self) -> (r: Self)
        ensures
            r == *self,
    {
        Scalar { inner: self.inner }
    }
}

impl Copy for Scalar {

}

/// The random number generator handed to setup and to the prover.
///
/// Holds an `ark_std::rand::rngs::StdRng`; opaque to the verifier.
#[verifier::external_body]
pub struct Rng {
    pub inner: ark_std::rand::rngs::StdRng,
}

/// Relies on `ark_std::Zero::zero` for `ark_bn254::Fr`: the field's zero,
/// which the canonical embedding also gives for the integer zero.
#[verifier::external_body]
pub(crate) fn fr_zero() -> (r: Scalar)
    ensures
        r == fr_of(0),
{
    Scalar { inner: <ark_bn254::Fr as ark_std::Zero>::zero() }
}

/// Relies on `ark_std::One::one` for `ark_bn254::Fr`: the field's one,
/// which the canonical embedding also gives for the integer one.
#[verifier::external_body]
pub(crate) fn fr_one() -> (r: Scalar)
    ensures
        r == fr_of(1),
{
    Scalar { inner: <ark_bn254::Fr as ark_std::One>::one() }
}

/// Relies on `ark_ff`'s field addition for `ark_bn254::Fr`.
#[verifier::external_body]
pub(crate) fn fr_add(a: Scalar, b: Scalar) -> (r: Scalar)
    ensures
        r == add_of(a, b),
{
    Scalar { inner: a.inner + b.inner }
}

/// Relies on `ark_ff`'s field subtraction for `ark_bn254::Fr`.
#[verifier::external_body]
pub(crate) fn fr_sub(a: Scalar, b: Scalar) -> Scalar {
    Scalar { inner: a.inner - b.inner }
}

/// Relies on `ark_ff`'s field multiplication for `ark_bn254::Fr`.
#[verifier::external_body]
pub(crate) fn fr_mul(a: Scalar, b: Scalar) -> (r: Scalar)
    ensures
        r == mul_of(a, b),
{
    Scalar { inner: a.inner * b.inner }
}

/// Relies on `ark_ff`'s field negation for `ark_bn254::Fr`.
#[verifier::external_body]
pub(crate) fn fr_neg(a: Scalar) -> (r: Scalar)
    ensures
        r == neg_of(a),
{
    Scalar { inner: -a.inner }
}

/// Relies on `ark_ff::Field::inverse` for `ark_bn254::Fr`: `None` exactly
/// when the element is zero.
#[verifier::external_body]
pub(crate) fn fr_inverse(a: &Scalar) -> Option<Scalar> {
    match <ark_bn254::Fr as ark_ff::Field>::inverse(&a.inner) {
        Some(v) => Some(Scalar { inner: v }),
        None => None,
    }
}

/// Relies on `ark_ff::Field::pow` for `ark_bn254::Fr`.
#[verifier::external_body]
pub(crate) fn fr_pow_u64(a: &Scalar, e: u64) -> (r: Scalar)
    ensures
        r == pow_of(*a, e),
{
    Scalar { inner: <ark_bn254::Fr as ark_ff::Field>::pow(&a.inner, [e]) }
}

/// Relies on `From<u64>` for `ark_bn254::Fr`: the canonical embedding of
/// small integers into the field.
#[verifier::external_body]
pub(crate) fn fr_from_u64(x: u64) -> (r: Scalar)
    ensures
        r == fr_of(x),
{
    Scalar { inner: <ark_bn254::Fr as From<u64>>::from(x) }
}

/// Relies on `From<u64>` and `ark_ff::Field::inverse` for `ark_bn254::Fr`:
/// a non-zero `u64` embeds to a non-zero element, because the field's
/// modulus exceeds `2^64`, so its inverse exists.
#[verifier::external_body]
pub(crate) fn fr_inverse_u64(x: u64) -> (r: Scalar)
    requires
        x >= 1,
    ensures
        r == inv_u64_of(x),
{
    let v = <ark_bn254::Fr as From<u64>>::from(x);
    Scalar { inner: <ark_bn254::Fr as ark_ff::Field>::inverse(&v).unwrap() }
}

/// Relies on `ark_std::UniformRand::rand` for `ark_bn254::Fr`: a field
/// element drawn from the generator. Nothing is promised of the value.
#[verifier::external_body]
pub(crate) fn fr_rand(rng: &mut Rng) -> Scalar {
    Scalar { inner: <ark_bn254::Fr as ark_std::UniformRand>::rand(&mut rng.inner) }
}

} // verus!

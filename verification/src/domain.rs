//! Evaluation domains: multiplicative subgroups of roots of unity of the
//! BN254 scalar field, supporting FFT and inverse FFT.
//!
//! A [`Domain`] carries its size as a plain value beside the opaque
//! `ark_poly` domain, so that the contracts of this crate can reason about
//! sizes while the FFTs themselves stay behind trusted wrappers.

use vstd::prelude::*;

use ark_poly::DenseUVPolynomial;
use ark_poly::univariate::DensePolynomial;

use crate::curve::G1Projective;
use crate::math::is_pow2;
use crate::scalar::Scalar;

verus! {

/// The coefficients that `ark_poly`'s inverse FFT returns for the given
/// evaluations over the canonical radix-2 domain of the given size: a
/// function of the evaluations and the size alone.
pub uninterp spec fn ifft_of(evals: Seq<Scalar>, size: nat) -> Seq<Scalar>;

/// The points `1, g, g^2, ...` of the canonical radix-2 domain of the
/// given size, `g` its generator: a function of the size alone.
pub uninterp spec fn roots_of(size: nat) -> Seq<Scalar>;

/// The quotient of a polynomial by `X^size - 1`: a function of the
/// coefficients and the size alone.
pub uninterp spec fn vanishing_quot_of(coeffs: Seq<Scalar>, size: nat) -> Seq<Scalar>;

/// The remainder of a polynomial by `X^size - 1`.
pub uninterp spec fn vanishing_rem_of(coeffs: Seq<Scalar>, size: nat) -> Seq<Scalar>;

/// The opaque `ark_poly` radix-2 evaluation domain.
#[verifier::external_body]
pub struct DomainInner {
    pub inner: ark_poly::Radix2EvaluationDomain<ark_bn254::Fr>,
}

impl DomainInner {
    /// A read-only copy of the held `ark_poly` domain, for callers outside
    /// this crate; nothing inside a [`Domain`] can be replaced through it.
    pub fn get(&self) -> DomainInner {
        *self
    }
}

impl Clone for DomainInner {
    /// A copy of the held domain.
    #[verifier::external_body]
    fn clone(&self) -> (r: Self)
        ensures
            r == *self,
    {
        DomainInner { inner: self.inner }
    }
}

impl Copy for DomainInner {

}

/// An evaluation domain of `size` points: the `size`-th roots of unity,
/// generated by `group_gen`.
///
/// Every field is private: only [`domain_new`] builds a `Domain`, and
/// nothing can replace the held `ark_poly` domain afterwards, so `size`
/// always agrees with its size, which the contracts of the wrappers below
/// rely on.
#[derive(Clone, Copy)]
pub struct Domain {
    /// The number of points; always a power of two.
    size: usize,
    /// A generator of the subgroup.
    group_gen: Scalar,
    /// The inverse of `group_gen`.
    group_gen_inv: Scalar,
    /// The underlying `ark_poly` domain.
    inner: DomainInner,
}

impl Domain {
    /// The number of points.
    pub closed spec fn size_spec(&self) -> usize {
        self.size
    }

    /// The number of points.
    pub fn size(&self) -> (r: usize)
        ensures
            r == self.size_spec(),
    {
        self.size
    }

    /// A generator of the subgroup.
    pub closed spec fn group_gen_spec(&self) -> Scalar {
        self.group_gen
    }

    /// A generator of the subgroup.
    pub fn group_gen(&self) -> (r: Scalar)
        ensures
            r == self.group_gen_spec(),
    {
        self.group_gen
    }

    /// The inverse of the generator.
    pub fn group_gen_inv(&self) -> Scalar {
        self.group_gen_inv
    }

    /// A read-only copy of the held `ark_poly` domain.
    pub fn inner(&self) -> DomainInner {
        self.inner
    }
}

/// Relies on `ark_poly::Radix2EvaluationDomain::new`: a domain of the
/// smallest power-of-two size holding `num` points, or `None` when that
/// size exceeds the two-adicity (2^28) of the BN254 scalar field. The
/// plain fields of the result are copied from the `ark_poly` domain.
#[verifier::external_body]
pub(crate) fn domain_new(num: usize) -> (r: Option<Domain>)
    ensures
        r matches Some(d) ==> is_pow2(d.size_spec() as nat),
        r matches Some(d) ==> num <= d.size_spec(),
        r matches Some(d) ==> (num >= 1 ==> d.size_spec() < 2 * num),
        r matches Some(d) ==> (num == 0 ==> d.size_spec() == 1),
        r matches Some(d) ==> d.size_spec() <= 0x1000_0000,
        num <= 0x1000_0000 ==> r is Some,
{
    match <ark_poly::Radix2EvaluationDomain<ark_bn254::Fr> as ark_poly::EvaluationDomain<
        ark_bn254::Fr,
    >>::new(num) {
        Some(d) => Some(
            Domain {
                size: d.size as usize,
                group_gen: Scalar { inner: d.group_gen },
                group_gen_inv: Scalar { inner: d.group_gen_inv },
                inner: DomainInner { inner: d },
            },
        ),
        None => None,
    }
}

/// Relies on `ark_poly::EvaluationDomain::fft`: the evaluations, over the
/// whole domain, of the polynomial with the given coefficients.
#[verifier::external_body]
pub(crate) fn domain_fft(d: &Domain, coeffs: &[Scalar]) -> (r: Vec<Scalar>)
    requires
        coeffs@.len() <= d.size_spec(),
    ensures
        r@.len() == d.size_spec(),
{
    let v: Vec<ark_bn254::Fr> = coeffs.iter().map(|x| x.inner).collect();
    let out = ark_poly::EvaluationDomain::fft(&d.inner.inner, &v);
    out.into_iter().map(|x| Scalar { inner: x }).collect()
}

/// Relies on `ark_poly::EvaluationDomain::ifft`: the coefficients of the
/// unique polynomial of degree below the domain size interpolating the
/// given evaluations over the domain.
#[verifier::external_body]
pub(crate) fn domain_ifft(d: &Domain, evals: &[Scalar]) -> (r: Vec<Scalar>)
    requires
        evals@.len() <= d.size_spec(),
    ensures
        r@.len() == d.size_spec(),
        r@ == ifft_of(evals@, d.size_spec() as nat),
{
    let v: Vec<ark_bn254::Fr> = evals.iter().map(|x| x.inner).collect();
    let out = ark_poly::EvaluationDomain::ifft(&d.inner.inner, &v);
    out.into_iter().map(|x| Scalar { inner: x }).collect()
}

/// Relies on `ark_poly::EvaluationDomain::ifft` over the first pairing
/// group (group elements support the domain's inverse FFT coefficient-wise).
#[verifier::external_body]
pub(crate) fn domain_ifft_g1(d: &Domain, evals: &[G1Projective]) -> (r: Vec<G1Projective>)
    requires
        evals@.len() <= d.size_spec(),
    ensures
        r@.len() == d.size_spec(),
{
    let v: Vec<ark_bn254::G1Projective> = evals.iter().map(|x| x.inner).collect();
    let out = ark_poly::EvaluationDomain::ifft(&d.inner.inner, &v);
    out.into_iter().map(|x| G1Projective { inner: x }).collect()
}

/// Relies on `ark_poly::EvaluationDomain::elements`: the domain's points
/// `1, g, g^2, ...` in that order, `g` its generator.
#[verifier::external_body]
pub(crate) fn roots_of_unity(d: &Domain) -> (r: Vec<Scalar>)
    ensures
        r@.len() == d.size_spec(),
        r@ == roots_of(d.size_spec() as nat),
{
    let out: Vec<ark_bn254::Fr> = ark_poly::EvaluationDomain::elements(&d.inner.inner).collect();
    out.into_iter().map(|x| Scalar { inner: x }).collect()
}

/// Relies on `ark_poly::DensePolynomial::divide_by_vanishing_poly`: the
/// quotient and remainder of the polynomial with the given coefficients by
/// `X^size - 1`. The division never fails: both of its branches return a
/// pair.
#[verifier::external_body]
pub(crate) fn divide_by_vanishing_poly(d: &Domain, coeffs: &[Scalar]) -> (r: Option<
    (Vec<Scalar>, Vec<Scalar>),
>)
    ensures
        r is Some,
        r matches Some(t) ==> t.0@ == vanishing_quot_of(coeffs@, d.size_spec() as nat),
        r matches Some(t) ==> t.1@ == vanishing_rem_of(coeffs@, d.size_spec() as nat),
        r matches Some(t) ==> t.0@.len() + d.size_spec() <= vstd::math::max(
            coeffs@.len() as int,
            d.size_spec() as int,
        ),
        r matches Some(t) ==> t.1@.len() <= d.size_spec() && t.1@.len() <= coeffs@.len(),
{
    let p = DensePolynomial::from_coefficients_vec(coeffs.iter().map(|x| x.inner).collect());
    match p.divide_by_vanishing_poly(d.inner.inner) {
        Some((q, rem)) => Some(
            (
                q.coeffs.into_iter().map(|x| Scalar { inner: x }).collect(),
                rem.coeffs.into_iter().map(|x| Scalar { inner: x }).collect(),
            ),
        ),
        None => None,
    }
}

} // verus!

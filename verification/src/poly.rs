//! Dense polynomials over the BN254 scalar field, as plain coefficient
//! vectors (lowest degree first). The arithmetic is `ark_poly`'s, behind
//! trusted wrappers; the contracts track coefficient counts, which bound
//! every later commitment against the SRS length.

use vstd::prelude::*;

use ark_poly::DenseUVPolynomial;
use ark_poly::univariate::DensePolynomial;
use ark_poly::univariate::DenseOrSparsePolynomial;

use crate::scalar::Scalar;
use crate::scalar::fr_mul;
use crate::scalar::fr_neg;
use crate::scalar::fr_of;
use crate::scalar::fr_one;
use crate::scalar::fr_zero;
use crate::scalar::mul_of;
use crate::scalar::neg_of;

verus! {

/// The value a dense polynomial takes at a point: what
/// `ark_poly::Polynomial::evaluate` returns, a function of the
/// coefficients and the point alone.
pub uninterp spec fn eval_of(coeffs: Seq<Scalar>, x: Scalar) -> Scalar;

/// The (trailing-zero-truncated) difference of two dense polynomials: a
/// function of the two coefficient sequences alone.
pub uninterp spec fn psub_of(a: Seq<Scalar>, b: Seq<Scalar>) -> Seq<Scalar>;

/// The (trailing-zero-truncated) product of two dense polynomials.
pub uninterp spec fn pmul_of(a: Seq<Scalar>, b: Seq<Scalar>) -> Seq<Scalar>;

/// Whether every coefficient of a dense polynomial is zero: what
/// `ark_std::Zero::is_zero` decides, a function of the coefficients alone.
pub uninterp spec fn is_zero_poly_of(p: Seq<Scalar>) -> bool;

/// The coefficients of `X^size - 1`: minus one, `size - 1` zeros, one.
pub(crate) fn vanishing_coeffs(size: usize) -> (r: Vec<Scalar>)
    requires
        1 <= size < usize::MAX,
    ensures
        r@.len() == size + 1,
        r@[0] == neg_of(fr_of(1)),
        forall|i: int| 1 <= i < size ==> r@[i] == fr_of(0),
        r@[size as int] == fr_of(1),
{
    let mut out: Vec<Scalar> = Vec::new();
    out.push(fr_neg(fr_one()));
    let mut i: usize = 1;
    while i < size
        invariant
            1 <= i <= size,
            out@.len() == i,
            out@[0] == neg_of(fr_of(1)),
            forall|t: int| 1 <= t < i ==> out@[t] == fr_of(0),
        decreases size - i,
    {
        out.push(fr_zero());
        i = i + 1;
    }
    out.push(fr_one());
    out
}

/// Relies on `ark_poly::Polynomial::evaluate` for dense polynomials: the
/// value at `x` of the polynomial with the given coefficients.
#[verifier::external_body]
pub(crate) fn poly_evaluate(coeffs: &[Scalar], x: &Scalar) -> (r: Scalar)
    ensures
        r == eval_of(coeffs@, *x),
{
    let p = DensePolynomial::from_coefficients_vec(coeffs.iter().map(|c| c.inner).collect());
    Scalar { inner: ark_poly::Polynomial::evaluate(&p, &x.inner) }
}

/// Relies on `ark_poly`'s addition of dense polynomials, which truncates
/// trailing zero coefficients.
#[verifier::external_body]
pub(crate) fn poly_add(a: &[Scalar], b: &[Scalar]) -> (r: Vec<Scalar>)
    ensures
        r@.len() <= vstd::math::max(a@.len() as int, b@.len() as int),
{
    let pa = DensePolynomial::from_coefficients_vec(a.iter().map(|c| c.inner).collect());
    let pb = DensePolynomial::from_coefficients_vec(b.iter().map(|c| c.inner).collect());
    let out = &pa + &pb;
    out.coeffs.into_iter().map(|c| Scalar { inner: c }).collect()
}

/// Relies on `ark_poly`'s subtraction of dense polynomials, which truncates
/// trailing zero coefficients.
#[verifier::external_body]
pub(crate) fn poly_sub(a: &[Scalar], b: &[Scalar]) -> (r: Vec<Scalar>)
    ensures
        r@ == psub_of(a@, b@),
        r@.len() <= vstd::math::max(a@.len() as int, b@.len() as int),
{
    let pa = DensePolynomial::from_coefficients_vec(a.iter().map(|c| c.inner).collect());
    let pb = DensePolynomial::from_coefficients_vec(b.iter().map(|c| c.inner).collect());
    let out = &pa - &pb;
    out.coeffs.into_iter().map(|c| Scalar { inner: c }).collect()
}

/// Relies on `ark_poly`'s (FFT-based) multiplication of dense polynomials:
/// the product's coefficient count is below the sum of the factors'. The
/// factors' total coefficient count must not exceed the field's largest
/// FFT domain, or the multiplication itself would refuse the domain.
#[verifier::external_body]
pub(crate) fn poly_mul(a: &[Scalar], b: &[Scalar]) -> (r: Vec<Scalar>)
    requires
        a@.len() + b@.len() <= 0x1000_0000,
    ensures
        r@ == pmul_of(a@, b@),
        r@.len() <= a@.len() + b@.len(),
        a@.len() >= 1 && b@.len() >= 1 ==> r@.len() + 1 <= a@.len() + b@.len(),
        a@.len() == 0 || b@.len() == 0 ==> r@.len() == 0,
{
    let pa = DensePolynomial::from_coefficients_vec(a.iter().map(|c| c.inner).collect());
    let pb = DensePolynomial::from_coefficients_vec(b.iter().map(|c| c.inner).collect());
    let out = &pa * &pb;
    out.coeffs.into_iter().map(|c| Scalar { inner: c }).collect()
}

/// Relies on `ark_poly::DenseOrSparsePolynomial::divide_with_q_and_r` and
/// `ark_std::Zero::is_zero`: quotient and remainder of polynomial
/// division, or `None` when the divisor is the zero polynomial (guarded
/// here, since the division itself refuses a zero divisor only for a
/// non-zero dividend).
#[verifier::external_body]
pub(crate) fn poly_divide(a: &[Scalar], b: &[Scalar]) -> (r: Option<(Vec<Scalar>, Vec<Scalar>)>)
    ensures
        r matches Some(t) ==> t.0@.len() <= a@.len(),
        r matches Some(t) ==> t.1@.len() <= a@.len() && t.1@.len() < vstd::math::max(
            b@.len() as int,
            1,
        ),
{
    let pa = DensePolynomial::from_coefficients_vec(a.iter().map(|c| c.inner).collect());
    let pb = DensePolynomial::from_coefficients_vec(b.iter().map(|c| c.inner).collect());
    if ark_std::Zero::is_zero(&pb) {
        return None;
    }
    let qa: DenseOrSparsePolynomial<ark_bn254::Fr> = (&pa).into();
    let qb: DenseOrSparsePolynomial<ark_bn254::Fr> = (&pb).into();
    let (q, rem) = qa.divide_with_q_and_r(&qb)?;
    Some(
        (
            q.coeffs.into_iter().map(|c| Scalar { inner: c }).collect(),
            rem.coeffs.into_iter().map(|c| Scalar { inner: c }).collect(),
        ),
    )
}

/// Relies on `ark_std::Zero::is_zero` for dense polynomials: whether every
/// coefficient is zero.
#[verifier::external_body]
pub(crate) fn poly_is_zero(p: &[Scalar]) -> (r: bool)
    ensures
        r == is_zero_poly_of(p@),
        p@.len() == 0 ==> r,
{
    let pp = DensePolynomial::from_coefficients_vec(p.iter().map(|c| c.inner).collect());
    ark_std::Zero::is_zero(&pp)
}

/// An exact copy of a coefficient vector.
pub(crate) fn clone_poly(p: &Vec<Scalar>) -> (r: Vec<Scalar>)
    ensures
        r@ == p@,
{
    let mut out: Vec<Scalar> = Vec::new();
    let mut i: usize = 0;
    while i < p.len()
        invariant
            i <= p@.len(),
            out@.len() == i,
            forall|t: int| 0 <= t < i ==> out@[t] == p@[t],
        decreases p@.len() - i,
    {
        out.push(p[i]);
        i = i + 1;
    }
    proof {
        assert(out@ =~= p@);
    }
    out
}

/// Each coefficient multiplied by `s`.
pub(crate) fn poly_scale(p: &[Scalar], s: &Scalar) -> (r: Vec<Scalar>)
    ensures
        r@.len() == p@.len(),
        forall|i: int| 0 <= i < p@.len() ==> #[trigger] r@[i] == mul_of(p@[i], *s),
{
    let mut out: Vec<Scalar> = Vec::new();
    let mut i: usize = 0;
    while i < p.len()
        invariant
            i <= p@.len(),
            out@.len() == i,
            forall|t: int| 0 <= t < i ==> #[trigger] out@[t] == mul_of(p@[t], *s),
        decreases p@.len() - i,
    {
        out.push(fr_mul(*vstd::slice::slice_index_get(p, i), *s));
        i = i + 1;
    }
    out
}

} // verus!

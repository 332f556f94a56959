//! KZG polynomial commitments over the SRS, with batched openings at
//! several points, optional degree bounds, and the bivariate variant used
//! by the multi-unity argument.
//!
//! A bivariate polynomial `F(X, Y) = sum_i f_i(Y) X^i` with `deg_Y f_i`
//! below `slot` is committed by placing the coefficients of `f_i` at SRS
//! positions `i * slot ..`, i.e. by evaluating `F(tau^slot, tau)`.

use vstd::prelude::*;

use crate::curve::G1Affine;
use crate::curve::G1Projective;
use crate::curve::G2Affine;
use crate::curve::G2Projective;
use crate::curve::affine_of;
use crate::curve::g1_into_affine;
use crate::curve::g1_into_projective;
use crate::curve::g1_msm;
use crate::curve::g1_neg;
use crate::curve::g1_sub;
use crate::curve::g1_zero;
use crate::curve::g2_into_projective;
use crate::curve::g2_msm;
use crate::curve::g2_mul;
use crate::curve::g2_sub;
use crate::curve::msm_g2_of;
use crate::curve::msm_of;
use crate::error::Error;
use crate::poly::poly_add;
use crate::poly::eval_of;
use crate::poly::poly_divide;
use crate::poly::poly_evaluate;
use crate::poly::poly_mul;
use crate::poly::poly_scale;
use crate::poly::poly_sub;
use crate::scalar::Scalar;
use crate::scalar::fr_inverse;
use crate::scalar::fr_mul;
use crate::scalar::fr_neg;
use crate::scalar::fr_one;
use crate::scalar::fr_sub;
use crate::scalar::fr_zero;
use vstd::slice::slice_index_get;
use vstd::slice::slice_subrange;

verus! {

/// The KZG commitment of the polynomial with the given coefficients: one
/// multi-scalar multiplication against the first-group SRS.
pub fn commit_g1(srs: &[G1Affine], coeffs: &[Scalar]) -> (r: G1Projective)
    requires
        coeffs@.len() <= srs@.len(),
    ensures
        r == msm_of(srs@.subrange(0, coeffs@.len() as int), coeffs@),
{
    g1_msm(slice_subrange(srs, 0, coeffs.len()), coeffs)
}

/// The KZG commitment of the polynomial with the given coefficients in the
/// second group.
pub fn commit_g2(srs: &[G2Affine], coeffs: &[Scalar]) -> (r: G2Projective)
    requires
        coeffs@.len() <= srs@.len(),
    ensures
        r == msm_g2_of(srs@.subrange(0, coeffs@.len() as int), coeffs@),
{
    g2_msm(slice_subrange(srs, 0, coeffs.len()), coeffs)
}

/// The monic polynomial whose roots are exactly the given points.
pub fn vanishing_poly_of_points(points: &[Scalar]) -> (r: Vec<Scalar>)
    requires
        points@.len() + 3 <= 0x1000_0000,
    ensures
        r@.len() <= points@.len() + 1,
{
    let mut z: Vec<Scalar> = Vec::new();
    z.push(fr_one());
    let mut i: usize = 0;
    while i < points.len()
        invariant
            i <= points@.len(),
            z@.len() <= i + 1,
            points@.len() + 3 <= 0x1000_0000,
        decreases points@.len() - i,
    {
        let mut factor: Vec<Scalar> = Vec::new();
        factor.push(fr_neg(*slice_index_get(points, i)));
        factor.push(fr_one());
        z = poly_mul(z.as_slice(), factor.as_slice());
        i = i + 1;
    }
    z
}

/// The Lagrange interpolation of `evals` over the pairwise distinct
/// `points`: the unique polynomial of degree below their count taking
/// `evals[i]` at `points[i]`. Fails exactly when some difference of two
/// points has no inverse, i.e. when two points coincide.
pub fn lagrange_interpolate(points: &[Scalar], evals: &[Scalar]) -> (r: Result<Vec<Scalar>, Error>)
    requires
        points@.len() == evals@.len(),
        points@.len() + 3 <= 0x1000_0000,
    ensures
        r matches Ok(c) ==> c@.len() <= points@.len(),
        r matches Err(e) ==> e == Error::FailedToInverseFieldElement,
{
    let n = points.len();
    let mut acc: Vec<Scalar> = Vec::new();
    let mut i: usize = 0;
    while i < n
        invariant
            i <= n,
            n == points@.len(),
            n == evals@.len(),
            n + 3 <= 0x1000_0000,
            acc@.len() <= n,
        decreases n - i,
    {
        // Numerator: the product of (X - points[j]) over j != i.
        let mut num: Vec<Scalar> = Vec::new();
        num.push(fr_one());
        // Denominator: the product of (points[i] - points[j]) over j != i.
        let mut den = fr_one();
        let p_i = *slice_index_get(points, i);
        let mut j: usize = 0;
        while j < n
            invariant
                j <= n,
                n == points@.len(),
                n + 3 <= 0x1000_0000,
                i < n,
                num@.len() <= (if j <= i { j + 1 } else { j as int }),
            decreases n - j,
        {
            if j != i {
                let p_j = *slice_index_get(points, j);
                let mut factor: Vec<Scalar> = Vec::new();
                factor.push(fr_neg(p_j));
                factor.push(fr_one());
                num = poly_mul(num.as_slice(), factor.as_slice());
                den = fr_mul(den, fr_sub(p_i, p_j));
            }
            j = j + 1;
        }
        let den_inv = match fr_inverse(&den) {
            Some(v) => v,
            None => {
                return Err(Error::FailedToInverseFieldElement);
            },
        };
        let weight = fr_mul(*slice_index_get(evals, i), den_inv);
        let term = poly_scale(num.as_slice(), &weight);
        acc = poly_add(acc.as_slice(), term.as_slice());
        i = i + 1;
    }
    Ok(acc)
}

/// A batched KZG opening of `poly` at `points`: its evaluations there, and
/// one proof. With `max_deg = Some(m)` the quotient is shifted by
/// `X^(srs_len - 1 - m)`, so the matching verification also binds the
/// degree of the opened polynomial.
pub fn batch_open_g1(
    srs: &[G1Affine],
    poly: &[Scalar],
    max_deg: Option<usize>,
    points: &[Scalar],
) -> (r: Result<(Vec<Scalar>, G1Affine), Error>)
    requires
        points@.len() >= 1,
        poly@.len() <= srs@.len(),
        points@.len() <= srs@.len(),
        points@.len() + 3 <= 0x1000_0000,
        max_deg matches Some(m) ==> m < srs@.len(),
    ensures
        r matches Ok(t) ==> t.0@.len() == points@.len(),
        r matches Ok(t) ==> (forall|i: int|
            0 <= i < points@.len() ==> #[trigger] t.0@[i] == eval_of(poly@, points@[i])),
        r matches Err(e) ==> e == Error::FailedToInverseFieldElement || e
            == Error::FailedToDivideByVanishingPolynomial || e == Error::SrsTooShort,
{
    let mut evals: Vec<Scalar> = Vec::new();
    let mut i: usize = 0;
    while i < points.len()
        invariant
            i <= points@.len(),
            evals@.len() == i,
            forall|t: int| 0 <= t < i ==> #[trigger] evals@[t] == eval_of(poly@, points@[t]),
        decreases points@.len() - i,
    {
        evals.push(poly_evaluate(poly, slice_index_get(points, i)));
        i = i + 1;
    }

    let r_poly = match lagrange_interpolate(points, evals.as_slice()) {
        Ok(c) => c,
        Err(e) => {
            return Err(e);
        },
    };
    let z_poly = vanishing_poly_of_points(points);
    let num = poly_sub(poly, r_poly.as_slice());
    let (q, _rem) = match poly_divide(num.as_slice(), z_poly.as_slice()) {
        Some(t) => t,
        None => {
            return Err(Error::FailedToDivideByVanishingPolynomial);
        },
    };

    let pi = match max_deg {
        None => commit_g1(srs, q.as_slice()),
        Some(m) => {
            // Shift the quotient by X^(srs_len - 1 - m) to bind the degree.
            let shift = srs.len() - 1 - m;
            if q.len() > srs.len() - shift {
                return Err(Error::SrsTooShort);
            }
            let mut shifted: Vec<Scalar> = Vec::new();
            let mut j: usize = 0;
            while j < shift
                invariant
                    j <= shift,
                    shifted@.len() == j,
                decreases shift - j,
            {
                shifted.push(fr_zero());
                j = j + 1;
            }
            let mut j: usize = 0;
            while j < q.len()
                invariant
                    j <= q@.len(),
                    shifted@.len() == shift + j,
                decreases q@.len() - j,
            {
                shifted.push(*slice_index_get(q.as_slice(), j));
                j = j + 1;
            }
            commit_g1(srs, shifted.as_slice())
        },
    };
    Ok((evals, g1_into_affine(&pi)))
}

/// The coefficients of a bivariate polynomial laid out slot by slot: `Y`
/// coefficient `e` of the `X^j` slot at position `j * slot + e`, padded
/// with zeros.
pub open spec fn flattened_slots(polys: Seq<Seq<Scalar>>, slot: nat) -> Seq<Scalar> {
    Seq::new(
        polys.len() * slot,
        |x: int|
            if x % (slot as int) < polys[x / (slot as int)].len() {
                polys[x / (slot as int)][x % (slot as int)]
            } else {
                crate::scalar::fr_of(0)
            },
    )
}

/// The views of a list of coefficient vectors.
pub open spec fn poly_views(polys: Seq<Vec<Scalar>>) -> Seq<Seq<Scalar>> {
    polys.map_values(|p: Vec<Scalar>| p@)
}

/// The commitment of the bivariate polynomial whose `X^i` coefficient is
/// the `Y`-polynomial `polys[i]`, each of fewer than `slot + 1`
/// coefficients, placed at SRS positions `i * slot ..`: one multi-scalar
/// multiplication of the flattened, zero-padded slot layout.
pub fn bi_poly_commit_g1(srs: &[G1Affine], polys: &[Vec<Scalar>], slot: usize) -> (r: G1Affine)
    requires
        slot >= 1,
        forall|i: int| 0 <= i < polys@.len() ==> #[trigger] polys@[i]@.len() <= slot,
        polys@.len() * slot <= srs@.len(),
    ensures
        r == affine_of(
            msm_of(
                srs@.subrange(0, (polys@.len() * slot) as int),
                flattened_slots(poly_views(polys@), slot as nat),
            ),
        ),
{
    let mut flat: Vec<Scalar> = Vec::new();
    let mut i: usize = 0;
    while i < polys.len()
        invariant
            i <= polys@.len(),
            flat@.len() == i * slot,
            forall|t: int| 0 <= t < polys@.len() ==> #[trigger] polys@[t]@.len() <= slot,
            polys@.len() * slot <= srs@.len(),
            forall|x: int|
                0 <= x < i * slot ==> #[trigger] flat@[x] == (if x % (slot as int) < polys@[x / (
                slot as int
                )]@.len() {
                    polys@[x / (slot as int)]@[x % (slot as int)]
                } else {
                    crate::scalar::fr_of(0)
                }),
        decreases polys@.len() - i,
    {
        proof {
            assert((i + 1) * slot <= polys@.len() * slot && i * slot + slot == (i + 1) * slot)
                by (nonlinear_arith)
                requires
                    0 <= i < polys@.len(),
            ;
        }
        let p = slice_index_get(polys, i);
        let mut j: usize = 0;
        while j < p.len()
            invariant
                j <= p@.len(),
                i < polys@.len(),
                p@ == polys@[i as int]@,
                p@.len() <= slot,
                flat@.len() == i * slot + j,
                i * slot + slot <= srs@.len(),
                forall|x: int|
                    0 <= x < i * slot + j ==> #[trigger] flat@[x] == (if x % (slot as int)
                        < polys@[x / (slot as int)]@.len() {
                        polys@[x / (slot as int)]@[x % (slot as int)]
                    } else {
                        crate::scalar::fr_of(0)
                    }),
            decreases p@.len() - j,
        {
            proof {
                crate::math::lemma_flat_div_mod(i as int, j as int, slot as int);
            }
            flat.push(*slice_index_get(p.as_slice(), j));
            j = j + 1;
        }
        while j < slot
            invariant
                j <= slot,
                i < polys@.len(),
                p@ == polys@[i as int]@,
                p@.len() <= j,
                flat@.len() == i * slot + j,
                i * slot + slot <= srs@.len(),
                forall|x: int|
                    0 <= x < i * slot + j ==> #[trigger] flat@[x] == (if x % (slot as int)
                        < polys@[x / (slot as int)]@.len() {
                        polys@[x / (slot as int)]@[x % (slot as int)]
                    } else {
                        crate::scalar::fr_of(0)
                    }),
            decreases slot - j,
        {
            proof {
                crate::math::lemma_flat_div_mod(i as int, j as int, slot as int);
            }
            flat.push(fr_zero());
            j = j + 1;
        }
        i = i + 1;
    }
    proof {
        assert forall|x: int|
            0 <= x < polys@.len() * slot implies flat@[x] == flattened_slots(
            poly_views(polys@),
            slot as nat,
        )[x] by {
            crate::math::lemma_div_range(x, polys@.len() as int, slot as int);
            assert(poly_views(polys@)[x / (slot as int)] == polys@[x / (slot as int)]@);
        }
        assert(flat@ =~= flattened_slots(poly_views(polys@), slot as nat));
    }
    g1_into_affine(&commit_g1(srs, flat.as_slice()))
}

/// The partial opening of the bivariate polynomial at `X = alpha`: the
/// commitment of `F(alpha, Y)`, the commitment of the quotient
/// `(F(X, Y) - F(alpha, Y)) / (X - alpha)`, and the coefficients of
/// `F(alpha, Y)` itself.
pub fn partial_open_g1(
    srs: &[G1Affine],
    polys: &[Vec<Scalar>],
    slot: usize,
    alpha: &Scalar,
) -> (r: (G1Affine, G1Affine, Vec<Scalar>))
    requires
        slot >= 1,
        forall|i: int| 0 <= i < polys@.len() ==> #[trigger] polys@[i]@.len() <= slot,
        polys@.len() * slot <= srs@.len(),
        slot <= srs@.len(),
    ensures
        r.2@.len() <= slot,
{
    // F(alpha, Y) by a Horner fold from the top X-coefficient down.
    let mut partial: Vec<Scalar> = Vec::new();
    let mut i: usize = polys.len();
    while i > 0
        invariant
            i <= polys@.len(),
            partial@.len() <= slot,
            forall|t: int| 0 <= t < polys@.len() ==> #[trigger] polys@[t]@.len() <= slot,
        decreases i,
    {
        i = i - 1;
        let scaled = poly_scale(partial.as_slice(), alpha);
        partial = poly_add(scaled.as_slice(), slice_index_get(polys, i).as_slice());
    }
    let com_alpha = g1_into_affine(&commit_g1(srs, partial.as_slice()));

    // Quotient in X by synthetic division: with F = sum_i p_i X^i,
    // the running value b_d = p_d, b_i = p_i + alpha * b_(i+1) makes
    // b_(i+1) the X^i coefficient of the quotient.
    let pi = if polys.len() <= 1 {
        g1_into_affine(&g1_zero())
    } else {
        let top = polys.len() - 1;
        let mut running: Vec<Scalar> = slice_index_get(polys, top).clone();
        let mut q_rev: Vec<Vec<Scalar>> = Vec::new();
        q_rev.push(running.clone());
        let mut i: usize = top;
        while i > 1
            invariant
                1 <= i <= top,
                top < polys@.len(),
                running@.len() <= slot,
                q_rev@.len() == top - i + 1,
                forall|t: int| 0 <= t < q_rev@.len() ==> #[trigger] q_rev@[t]@.len() <= slot,
                forall|t: int| 0 <= t < polys@.len() ==> #[trigger] polys@[t]@.len() <= slot,
        decreases i,
        {
            i = i - 1;
            let scaled = poly_scale(running.as_slice(), alpha);
            running = poly_add(scaled.as_slice(), slice_index_get(polys, i).as_slice());
            q_rev.push(running.clone());
        }
        // q_rev holds the quotient's X-coefficients from the top down.
        let mut qs: Vec<Vec<Scalar>> = Vec::new();
        let mut j: usize = q_rev.len();
        while j > 0
            invariant
                j <= q_rev@.len(),
                qs@.len() == q_rev@.len() - j,
                forall|t: int| 0 <= t < q_rev@.len() ==> #[trigger] q_rev@[t]@.len() <= slot,
                forall|t: int| 0 <= t < qs@.len() ==> #[trigger] qs@[t]@.len() <= slot,
            decreases j,
        {
            j = j - 1;
            qs.push(q_rev[j].clone());
        }
        proof {
            assert(qs@.len() * slot <= polys@.len() * slot) by (nonlinear_arith)
                requires
                    qs@.len() <= polys@.len(),
                    slot >= 0,
            ;
        }
        bi_poly_commit_g1(srs, qs.as_slice(), slot)
    };

    (com_alpha, pi, partial)
}

/// The two pairing pairs whose product is the identity exactly when `pi`
/// is a valid (optionally degree-bound) batched opening of `com` at
/// `points` with values `evals`. Fails exactly when two points coincide.
pub fn verify_defer_pairing_g1(
    srs_g1: &[G1Affine],
    srs_g2: &[G2Affine],
    com: &G1Affine,
    max_deg: Option<usize>,
    points: &[Scalar],
    evals: &[Scalar],
    pi: &G1Affine,
) -> (r: Result<Vec<(G1Projective, G2Projective)>, Error>)
    requires
        points@.len() == evals@.len(),
        points@.len() >= 1,
        points@.len() <= srs_g1@.len(),
        points@.len() + 3 <= 0x1000_0000,
        points@.len() + 1 <= srs_g2@.len(),
        srs_g1@.len() <= srs_g2@.len(),
        srs_g1@.len() >= 1,
        max_deg matches Some(m) ==> m < srs_g1@.len(),
    ensures
        r matches Ok(v) ==> v@.len() == 2,
        r matches Err(e) ==> e == Error::FailedToInverseFieldElement,
{
    let r_poly = match lagrange_interpolate(points, evals) {
        Ok(c) => c,
        Err(e) => {
            return Err(e);
        },
    };
    let r_com = commit_g1(srs_g1, r_poly.as_slice());
    let z_poly = vanishing_poly_of_points(points);
    let z_com2 = commit_g2(srs_g2, z_poly.as_slice());

    let left = g1_sub(&g1_into_projective(com), &r_com);
    let g2_shift = match max_deg {
        None => g2_into_projective(slice_index_get(srs_g2, 0)),
        Some(m) => g2_into_projective(slice_index_get(srs_g2, srs_g1.len() - 1 - m)),
    };
    let mut out: Vec<(G1Projective, G2Projective)> = Vec::new();
    out.push((left, g2_shift));
    out.push((g1_neg(&g1_into_projective(pi)), z_com2));
    Ok(out)
}

/// The two pairing pairs whose product is the identity exactly when
/// `com_alpha` commits to the partial evaluation at `X = alpha` of the
/// bivariate polynomial committed by `com`, with proof `pi`.
pub fn partial_verify_defer_pairing_g1(
    srs_g2: &[G2Affine],
    com: &G1Affine,
    slot: usize,
    alpha: &Scalar,
    com_alpha: &G1Affine,
    pi: &G1Affine,
) -> (r: Vec<(G1Projective, G2Projective)>)
    requires
        slot < srs_g2@.len(),
    ensures
        r@.len() == 2,
{
    let pair1 = (
        g1_sub(&g1_into_projective(com), &g1_into_projective(com_alpha)),
        g2_into_projective(slice_index_get(srs_g2, 0)),
    );
    let pair2 = (
        g1_neg(&g1_into_projective(pi)),
        g2_sub(
            &g2_into_projective(slice_index_get(srs_g2, slot)),
            &g2_mul(slice_index_get(srs_g2, 0), alpha),
        ),
    );
    let mut out: Vec<(G1Projective, G2Projective)> = Vec::new();
    out.push(pair1);
    out.push(pair2);
    out
}

} // verus!

//! The multi-unity sub-protocol: proves that the degree-(k-1) index
//! polynomial `D` takes, at every point of domain `K`, a value that is an
//! n-th root of unity — a properly segment-aligned table offset — without
//! revealing which one.
//!
//! Squaring an n-th root of unity `log2(n)` times collapses it to one, and
//! since `n` is a power of two this exactly characterises validity. The
//! whole squaring chain is packed into one bivariate commitment
//! `U(X, Y) = sum_l U_l(X) * rho_l(Y)` over the small chain domain, and
//! the chain conditions into a second one, so the proof stays a fixed
//! bundle of five commitments, three evaluations and five opening proofs,
//! independent of `log2(n)`.

use vstd::prelude::*;

use crate::curve::G1Affine;
use crate::curve::G1Projective;
use crate::curve::G2Projective;
use crate::curve::g1_into_affine;
use crate::curve::g1_into_projective;
use crate::curve::g1_mul;
use crate::curve::g1_proj_mul;
use crate::curve::g1_sub;
use crate::curve::pairing_product_is_one;
use crate::domain::divide_by_vanishing_poly;
use crate::domain::domain_fft;
use crate::domain::domain_ifft;
use crate::error::Error;
use crate::kzg::batch_open_g1;
use crate::kzg::bi_poly_commit_g1;
use crate::kzg::commit_g1;
use crate::kzg::partial_open_g1;
use crate::kzg::partial_verify_defer_pairing_g1;
use crate::kzg::verify_defer_pairing_g1;
use crate::math::lemma_is_pow2_pos;
use crate::poly::clone_poly;
use crate::poly::vanishing_coeffs;
use crate::poly::poly_add;
use crate::poly::poly_evaluate;
use crate::poly::poly_is_zero;
use crate::poly::poly_mul;
use crate::poly::poly_scale;
use crate::poly::poly_sub;
use crate::public_parameters::MAX_DOMAIN_SIZE;
use crate::public_parameters::PublicParameters;
use crate::scalar::Rng;
use crate::scalar::Scalar;
use crate::scalar::fr_add;
use crate::scalar::fr_mul;
use crate::scalar::fr_one;
use crate::scalar::fr_pow_u64;
use crate::scalar::fr_rand;
use crate::scalar::fr_sub;
use crate::scalar::fr_zero;

verus! {

/// The fixed-size multi-unity proof.
pub struct MultiUnityProof {
    /// Commitment of the packed squaring chain `U_bar(X, Y)`.
    pub u_bar_com1: G1Affine,
    /// Commitment of the chain check at `X = alpha` over the chain domain.
    pub h_1_com1: G1Affine,
    /// Commitment of the packed chain quotients `H_bar(X, Y)`.
    pub h_2_com1: G1Affine,
    /// Commitment of `U_bar(alpha, Y)`.
    pub u_bar_alpha_com1: G1Affine,
    /// Commitment of `H_bar(alpha, Y)`.
    pub h_2_alpha_com1: G1Affine,
    /// `D(alpha)`.
    pub v1: Scalar,
    /// `U_bar(alpha, beta)`.
    pub v2: Scalar,
    /// `U_bar(alpha, beta * sigma)`, `sigma` the chain domain's generator.
    pub v3: Scalar,
    /// Opening proof of `D` at `alpha`.
    pub pi_1: G1Affine,
    /// Partial-opening proof of `U_bar` at `X = alpha`.
    pub pi_2: G1Affine,
    /// Partial-opening proof of `H_bar` at `X = alpha`.
    pub pi_3: G1Affine,
    /// Opening proof of `U_bar(alpha, Y)` at `1, beta, beta * sigma`.
    pub pi_4: G1Affine,
    /// Opening proof of the final check polynomial at `beta`.
    pub pi_5: G1Affine,
}

/// Each evaluation squared.
fn square_evals(evals: &Vec<Scalar>) -> (r: Vec<Scalar>)
    ensures
        r@.len() == evals@.len(),
{
    let mut out: Vec<Scalar> = Vec::new();
    let mut i: usize = 0;
    while i < evals.len()
        invariant
            i <= evals@.len(),
            out@.len() == i,
        decreases evals@.len() - i,
    {
        out.push(fr_mul(evals[i], evals[i]));
        i = i + 1;
    }
    out
}

/// Packs `list[lo..hi]` into the `Y`-polynomials of a bivariate
/// polynomial: row `j` is `sum_idx list[idx][j] * basis[idx]`, for `rows`
/// rows. Coefficients beyond a member's length count as zero.
fn pack_bivariate(
    list: &Vec<Vec<Scalar>>,
    lo: usize,
    hi: usize,
    basis: &Vec<Vec<Scalar>>,
    rows: usize,
    m: usize,
) -> (r: Vec<Vec<Scalar>>)
    requires
        lo <= hi <= list@.len(),
        hi <= basis@.len(),
        forall|i: int| 0 <= i < basis@.len() ==> #[trigger] basis@[i]@.len() == m,
    ensures
        r@.len() == rows,
        forall|i: int| 0 <= i < r@.len() ==> #[trigger] r@[i]@.len() <= m,
{
    let mut out: Vec<Vec<Scalar>> = Vec::new();
    let mut j: usize = 0;
    while j < rows
        invariant
            j <= rows,
            out@.len() == j,
            lo <= hi <= list@.len(),
            hi <= basis@.len(),
            forall|i: int| 0 <= i < basis@.len() ==> #[trigger] basis@[i]@.len() == m,
            forall|i: int| 0 <= i < out@.len() ==> #[trigger] out@[i]@.len() <= m,
        decreases rows - j,
    {
        let mut acc: Vec<Scalar> = Vec::new();
        let mut idx: usize = lo;
        while idx < hi
            invariant
                lo <= idx <= hi <= list@.len(),
                hi <= basis@.len(),
                acc@.len() <= m,
                forall|i: int| 0 <= i < basis@.len() ==> #[trigger] basis@[i]@.len() == m,
            decreases hi - idx,
        {
            let p = &list[idx];
            if j < p.len() {
                let scaled = poly_scale(basis[idx].as_slice(), &p[j]);
                acc = poly_add(acc.as_slice(), scaled.as_slice());
            }
            idx = idx + 1;
        }
        out.push(acc);
        j = j + 1;
    }
    out
}

/// `sum_idx scalars[idx] * basis[idx]`, a polynomial over the chain
/// domain.
fn combine_with_basis(scalars: &Vec<Scalar>, basis: &Vec<Vec<Scalar>>, m: usize) -> (r: Vec<
    Scalar,
>)
    requires
        scalars@.len() <= basis@.len(),
        forall|i: int| 0 <= i < basis@.len() ==> #[trigger] basis@[i]@.len() == m,
    ensures
        r@.len() <= m,
{
    let mut acc: Vec<Scalar> = Vec::new();
    let mut idx: usize = 0;
    while idx < scalars.len()
        invariant
            idx <= scalars@.len(),
            scalars@.len() <= basis@.len(),
            acc@.len() <= m,
            forall|i: int| 0 <= i < basis@.len() ==> #[trigger] basis@[i]@.len() == m,
        decreases scalars@.len() - idx,
    {
        let scaled = poly_scale(basis[idx].as_slice(), &scalars[idx]);
        acc = poly_add(acc.as_slice(), scaled.as_slice());
        idx = idx + 1;
    }
    acc
}

/// Proves that every `K`-domain evaluation of `d_poly` is an n-th root of
/// unity. A chain step whose division by the vanishing polynomial of `K`
/// leaves a remainder — a malformed `D` — is rejected with
/// `RemainderAfterDivisionIsNonZero`; a table of fewer than two segments
/// is rejected with `InvalidNumberOfSegments`.
pub fn multi_unity_prove(
    pp: &PublicParameters,
    d_poly: &Vec<Scalar>,
    rng: &mut Rng,
    alpha: Scalar,
    beta: Scalar,
) -> (r: Result<MultiUnityProof, Error>)
    requires
        pp.wf(),
        d_poly@.len() <= pp.num_witness_segments,
        2 * pp.num_witness_segments + 2 <= MAX_DOMAIN_SIZE,
    ensures
        pp.num_table_segments < 2 ==> r == Err::<MultiUnityProof, Error>(
            Error::InvalidNumberOfSegments(pp.num_table_segments),
        ),
        r is Ok ==> pp.num_table_segments >= 2,
        r matches Ok(p) ==> p.v1 == crate::poly::eval_of(d_poly@, alpha),
        r matches Err(e) ==> (e == Error::InvalidNumberOfSegments(pp.num_table_segments) || e
            == Error::RemainderAfterDivisionIsNonZero || e
            == Error::FailedToDivideByVanishingPolynomial || e == Error::FailedToInverseFieldElement
            || e == Error::SrsTooShort),
{
    let num_segments = pp.num_table_segments;
    if num_segments < 2 {
        return Err(Error::InvalidNumberOfSegments(num_segments));
    }
    proof {
        // At least two segments force at least one squaring step.
        lemma_is_pow2_pos(pp.domain_log_n.size_spec() as nat);
        if pp.log_num_segments == 0 {
            assert(crate::math::pow2(0) == 1);
        }
    }
    let k = pp.num_witness_segments;
    let log_n = pp.log_num_segments;
    let m = pp.domain_log_n.size();
    // Binds the SRS length to a machine word, so the packing arithmetic
    // below cannot overflow.
    let _srs_len = pp.g1_srs.len();
    proof {
        assert(k + 1 <= (k + 1) * (m as int) && m <= (k + 1) * (m as int)) by (nonlinear_arith)
            requires
                m >= 1,
                k >= 0,
        ;
    }
    let rows = k + 1;

    // The evaluations of D over K, squared step by step; each step is
    // re-interpolated and blinded by a random multiple of Z_K.
    let mut evals = domain_fft(&pp.domain_k, d_poly.as_slice());
    let z_k = vanishing_coeffs(k);

    // chain = [D, U_1, ..., U_(log n - 1), id].
    let mut chain: Vec<Vec<Scalar>> = Vec::new();
    chain.push(clone_poly(d_poly));
    let mut l: usize = 1;
    while l < log_n
        invariant
            1 <= l <= log_n,
            chain@.len() == l,
            chain@[0]@ == d_poly@,
            evals@.len() == k,
            z_k@.len() == k + 1,
            pp.wf(),
            k == pp.num_witness_segments,
            log_n == pp.log_num_segments,
            forall|i: int| 0 <= i < chain@.len() ==> #[trigger] chain@[i]@.len() <= k + 1,
        decreases log_n - l,
    {
        evals = square_evals(&evals);
        let interp = domain_ifft(&pp.domain_k, evals.as_slice());
        let blind = poly_scale(z_k.as_slice(), &fr_rand(rng));
        chain.push(poly_add(interp.as_slice(), blind.as_slice()));
        l = l + 1;
    }
    chain.push(clone_poly(&pp.identity_poly_k));

    // U_bar packs the middle of the chain at basis slots 1 .. log n - 1;
    // H_bar packs the chain-step quotients at slots 0 .. log n - 1.
    let basis = &pp.lagrange_basis_log_n;
    let u_bar_partial_y_polys = pack_bivariate(&chain, 1, log_n, basis, rows, m);

    let mut h_s_poly_list: Vec<Vec<Scalar>> = Vec::new();
    let mut step: usize = 1;
    while step <= log_n
        invariant
            1 <= step <= log_n + 1,
            chain@.len() == log_n + 1,
            h_s_poly_list@.len() == step - 1,
            pp.wf(),
            2 * k + 2 <= MAX_DOMAIN_SIZE,
            k == pp.num_witness_segments,
            log_n == pp.log_num_segments,
            forall|i: int| 0 <= i < chain@.len() ==> #[trigger] chain@[i]@.len() <= k + 1,
            forall|i: int|
                0 <= i < h_s_poly_list@.len() ==> #[trigger] h_s_poly_list@[i]@.len() <= k + 1,
        decreases log_n + 1 - step,
    {
        let sq = poly_mul(chain[step - 1].as_slice(), chain[step - 1].as_slice());
        let num = poly_sub(sq.as_slice(), chain[step].as_slice());
        let (h_s, rem) = match divide_by_vanishing_poly(&pp.domain_k, num.as_slice()) {
            Some(t) => t,
            None => vstd::pervasive::unreached(),
        };
        if !poly_is_zero(rem.as_slice()) {
            return Err(Error::RemainderAfterDivisionIsNonZero);
        }
        h_s_poly_list.push(h_s);
        step = step + 1;
    }
    let h_2_partial_y_polys = pack_bivariate(&h_s_poly_list, 0, log_n, basis, rows, m);

    let u_bar_com1 = bi_poly_commit_g1(pp.g1_srs.as_slice(), u_bar_partial_y_polys.as_slice(), m);
    let h_2_com1 = bi_poly_commit_g1(pp.g1_srs.as_slice(), h_2_partial_y_polys.as_slice(), m);

    // The chain evaluated at alpha, and the same values squared, packed
    // over the chain domain; their difference must vanish on it.
    let mut chain_alpha: Vec<Scalar> = Vec::new();
    let mut idx: usize = 0;
    while idx < log_n
        invariant
            idx <= log_n,
            chain@.len() == log_n + 1,
            chain_alpha@.len() == idx,
        decreases log_n - idx,
    {
        chain_alpha.push(poly_evaluate(chain[idx].as_slice(), &alpha));
        idx = idx + 1;
    }
    let chain_alpha_sq = square_evals(&chain_alpha);
    let u_alpha_poly = combine_with_basis(&chain_alpha, basis, m);
    let u_sqr_alpha_poly = combine_with_basis(&chain_alpha_sq, basis, m);
    let u_alpha_sq_full = poly_mul(u_alpha_poly.as_slice(), u_alpha_poly.as_slice());
    let h_1_num = poly_sub(u_alpha_sq_full.as_slice(), u_sqr_alpha_poly.as_slice());
    let (h_1_poly, h_1_rem) = match divide_by_vanishing_poly(&pp.domain_log_n, h_1_num.as_slice()) {
        Some(t) => t,
        None => vstd::pervasive::unreached(),
    };
    if !poly_is_zero(h_1_rem.as_slice()) {
        return Err(Error::RemainderAfterDivisionIsNonZero);
    }
    let h_1_com1 = g1_into_affine(&commit_g1(pp.g1_srs.as_slice(), h_1_poly.as_slice()));

    // The final check polynomial P(Y): zero at beta exactly when every
    // squaring step and the boundary conditions hold.
    let u_alpha_beta = poly_evaluate(u_alpha_poly.as_slice(), &beta);
    let beta_shift = fr_mul(beta, pp.domain_log_n.group_gen());
    let mut u_bar_alpha_shift_beta = fr_zero();
    let mut idx: usize = 1;
    while idx < log_n
        invariant
            1 <= idx <= log_n,
            log_n <= pp.lagrange_basis_log_n@.len(),
            chain@.len() == log_n + 1,
            chain_alpha@.len() == log_n,
            pp.wf(),
        decreases log_n - idx,
    {
        let rho = poly_evaluate(pp.lagrange_basis_log_n[idx].as_slice(), &beta_shift);
        u_bar_alpha_shift_beta = fr_add(u_bar_alpha_shift_beta, fr_mul(chain_alpha[idx], rho));
        idx = idx + 1;
    }
    let id_alpha = poly_evaluate(pp.identity_poly_k.as_slice(), &alpha);
    let rho_last = poly_evaluate(pp.lagrange_basis_log_n[log_n - 1].as_slice(), &beta);
    let boundary = fr_add(u_bar_alpha_shift_beta, fr_mul(id_alpha, rho_last));

    let mut p_poly: Vec<Scalar> = Vec::new();
    p_poly.push(fr_sub(fr_mul(u_alpha_beta, u_alpha_beta), boundary));
    let zm_beta = fr_sub(fr_pow_u64(&beta, m as u64), fr_one());
    p_poly = poly_sub(p_poly.as_slice(), poly_scale(h_1_poly.as_slice(), &zm_beta).as_slice());
    let mut h_alpha: Vec<Scalar> = Vec::new();
    let mut idx: usize = 0;
    while idx < log_n
        invariant
            idx <= log_n,
            h_s_poly_list@.len() == log_n,
            h_alpha@.len() == idx,
        decreases log_n - idx,
    {
        h_alpha.push(poly_evaluate(h_s_poly_list[idx].as_slice(), &alpha));
        idx = idx + 1;
    }
    let h_2_alpha_poly = combine_with_basis(&h_alpha, basis, m);
    let zk_alpha = fr_sub(fr_pow_u64(&alpha, k as u64), fr_one());
    p_poly = poly_sub(p_poly.as_slice(), poly_scale(h_2_alpha_poly.as_slice(), &zk_alpha).as_slice());

    // The five openings, batched by the verifier into one pairing product.
    let mut points_1: Vec<Scalar> = Vec::new();
    points_1.push(alpha);
    let (eval_1_list, pi_1) = match batch_open_g1(
        pp.g1_srs.as_slice(),
        chain[0].as_slice(),
        None,
        points_1.as_slice(),
    ) {
        Ok(t) => t,
        Err(e) => {
            return Err(e);
        },
    };
    let (u_bar_alpha_com1, pi_2, poly_u_bar_alpha) = partial_open_g1(
        pp.g1_srs.as_slice(),
        u_bar_partial_y_polys.as_slice(),
        m,
        &alpha,
    );
    let (h_2_alpha_com1, pi_3, _h_bar_alpha) = partial_open_g1(
        pp.g1_srs.as_slice(),
        h_2_partial_y_polys.as_slice(),
        m,
        &alpha,
    );
    let mut points_4: Vec<Scalar> = Vec::new();
    points_4.push(fr_one());
    points_4.push(beta);
    points_4.push(beta_shift);
    let (eval_2_list, pi_4) = match batch_open_g1(
        pp.g1_srs.as_slice(),
        poly_u_bar_alpha.as_slice(),
        Some(m - 1),
        points_4.as_slice(),
    ) {
        Ok(t) => t,
        Err(e) => {
            return Err(e);
        },
    };
    let mut points_5: Vec<Scalar> = Vec::new();
    points_5.push(beta);
    let (_eval_3_list, pi_5) = match batch_open_g1(
        pp.g1_srs.as_slice(),
        p_poly.as_slice(),
        Some(m - 1),
        points_5.as_slice(),
    ) {
        Ok(t) => t,
        Err(e) => {
            return Err(e);
        },
    };

    Ok(
        MultiUnityProof {
            u_bar_com1,
            h_1_com1,
            h_2_com1,
            u_bar_alpha_com1,
            h_2_alpha_com1,
            v1: eval_1_list[0],
            v2: eval_2_list[1],
            v3: eval_2_list[2],
            pi_1,
            pi_2,
            pi_3,
            pi_4,
            pi_5,
        },
    )
}

/// The ten pairing pairs of the five batched opening checks; their
/// product is the identity exactly when the proof opens consistently
/// against `u_com1` and the reconstructed check polynomial commitment.
pub fn multi_unity_verify_defer_pairing(
    pp: &PublicParameters,
    u_com1: &G1Affine,
    proof: &MultiUnityProof,
    alpha: Scalar,
    beta: Scalar,
) -> (r: Result<Vec<(G1Projective, G2Projective)>, Error>)
    requires
        pp.wf(),
        pp.log_num_segments >= 1,
    ensures
        r matches Ok(v) ==> v@.len() == 10,
        r matches Err(e) ==> e == Error::FailedToInverseFieldElement,
{
    let m = pp.domain_log_n.size();
    let log_n = pp.log_num_segments;
    let k = pp.num_witness_segments;
    proof {
        lemma_is_pow2_pos(pp.domain_log_n.size_spec() as nat);
        assert(m <= (k + 1) * (m as int)) by (nonlinear_arith)
            requires
                m >= 1,
                k >= 0,
        ;
    }

    // Reconstruct [P]_1 from the claimed evaluations.
    let rho_0_beta = poly_evaluate(pp.lagrange_basis_log_n[0].as_slice(), &beta);
    let u_alpha_beta = fr_add(fr_mul(proof.v1, rho_0_beta), proof.v2);
    let id_alpha = poly_evaluate(pp.identity_poly_k.as_slice(), &alpha);
    let rho_last_beta = poly_evaluate(pp.lagrange_basis_log_n[log_n - 1].as_slice(), &beta);
    let constant = fr_sub(
        fr_mul(u_alpha_beta, u_alpha_beta),
        fr_add(proof.v3, fr_mul(id_alpha, rho_last_beta)),
    );
    let mut p_com1 = g1_mul(&pp.g1_srs[0], &constant);
    let zm_beta = fr_sub(fr_pow_u64(&beta, m as u64), fr_one());
    p_com1 = g1_sub(&p_com1, &g1_mul(&proof.h_1_com1, &zm_beta));
    let zk_alpha = fr_sub(fr_pow_u64(&alpha, k as u64), fr_one());
    p_com1 = g1_sub(&p_com1, &g1_mul(&proof.h_2_alpha_com1, &zk_alpha));

    let mut points_1: Vec<Scalar> = Vec::new();
    points_1.push(alpha);
    let mut evals_1: Vec<Scalar> = Vec::new();
    evals_1.push(proof.v1);
    let check1 = match verify_defer_pairing_g1(
        pp.g1_srs.as_slice(),
        pp.g2_srs.as_slice(),
        u_com1,
        None,
        points_1.as_slice(),
        evals_1.as_slice(),
        &proof.pi_1,
    ) {
        Ok(v) => v,
        Err(e) => {
            return Err(e);
        },
    };
    let check2 = partial_verify_defer_pairing_g1(
        pp.g2_srs.as_slice(),
        &proof.u_bar_com1,
        m,
        &alpha,
        &proof.u_bar_alpha_com1,
        &proof.pi_2,
    );
    let check3 = partial_verify_defer_pairing_g1(
        pp.g2_srs.as_slice(),
        &proof.h_2_com1,
        m,
        &alpha,
        &proof.h_2_alpha_com1,
        &proof.pi_3,
    );
    let beta_shift = fr_mul(beta, pp.domain_log_n.group_gen());
    let mut points_4: Vec<Scalar> = Vec::new();
    points_4.push(fr_one());
    points_4.push(beta);
    points_4.push(beta_shift);
    let mut evals_4: Vec<Scalar> = Vec::new();
    evals_4.push(fr_zero());
    evals_4.push(proof.v2);
    evals_4.push(proof.v3);
    let check4 = match verify_defer_pairing_g1(
        pp.g1_srs.as_slice(),
        pp.g2_srs.as_slice(),
        &proof.u_bar_alpha_com1,
        Some(m - 1),
        points_4.as_slice(),
        evals_4.as_slice(),
        &proof.pi_4,
    ) {
        Ok(v) => v,
        Err(e) => {
            return Err(e);
        },
    };
    let mut points_5: Vec<Scalar> = Vec::new();
    points_5.push(beta);
    let mut evals_5: Vec<Scalar> = Vec::new();
    evals_5.push(fr_zero());
    let check5 = match verify_defer_pairing_g1(
        pp.g1_srs.as_slice(),
        pp.g2_srs.as_slice(),
        &g1_into_affine(&p_com1),
        Some(m - 1),
        points_5.as_slice(),
        evals_5.as_slice(),
        &proof.pi_5,
    ) {
        Ok(v) => v,
        Err(e) => {
            return Err(e);
        },
    };

    let mut out: Vec<(G1Projective, G2Projective)> = Vec::new();
    append_pairs(&mut out, &check1);
    append_pairs(&mut out, &check2);
    append_pairs(&mut out, &check3);
    append_pairs(&mut out, &check4);
    append_pairs(&mut out, &check5);
    Ok(out)
}

/// Appends all pairs of `src` to `dst`.
fn append_pairs(dst: &mut Vec<(G1Projective, G2Projective)>, src: &Vec<(G1Projective, G2Projective)>)
    ensures
        final(dst)@.len() == old(dst)@.len() + src@.len(),
{
    let mut i: usize = 0;
    while i < src.len()
        invariant
            i <= src@.len(),
            dst@.len() == old(dst)@.len() + i,
        decreases src@.len() - i,
    {
        dst.push(src[i]);
        i = i + 1;
    }
}

/// Verifies a multi-unity proof against the commitment `u_com1` of `D`:
/// batches the five opening checks into one pairing product with powers
/// of a fresh random scalar, and accepts exactly when that product is the
/// identity. Adversarial proofs are expected input: a malformed one is
/// rejected, never a panic.
pub fn multi_unity_verify(
    pp: &PublicParameters,
    u_com1: &G1Affine,
    proof: &MultiUnityProof,
    rng: &mut Rng,
    alpha: Scalar,
    beta: Scalar,
) -> (r: bool)
    requires
        pp.wf(),
    ensures
        pp.log_num_segments == 0 ==> r == false,
        r ==> pp.log_num_segments >= 1,
{
    if pp.log_num_segments == 0 {
        return false;
    }
    let pairs = match multi_unity_verify_defer_pairing(pp, u_com1, proof, alpha, beta) {
        Ok(v) => v,
        Err(_) => {
            return false;
        },
    };

    // Weight the five checks with sequential squares of a fresh scalar,
    // so no unsound component can cancel another except with negligible
    // probability.
    let zeta_1 = fr_rand(rng);
    let zeta_2 = fr_mul(zeta_1, zeta_1);
    let zeta_3 = fr_mul(zeta_2, zeta_2);
    let zeta_4 = fr_mul(zeta_3, zeta_3);
    let mut scaled: Vec<(G1Projective, G2Projective)> = Vec::new();
    scaled.push(pairs[0]);
    scaled.push(pairs[1]);
    scaled.push((g1_proj_mul(&pairs[2].0, &zeta_1), pairs[2].1));
    scaled.push((g1_proj_mul(&pairs[3].0, &zeta_1), pairs[3].1));
    scaled.push((g1_proj_mul(&pairs[4].0, &zeta_2), pairs[4].1));
    scaled.push((g1_proj_mul(&pairs[5].0, &zeta_2), pairs[5].1));
    scaled.push((g1_proj_mul(&pairs[6].0, &zeta_3), pairs[6].1));
    scaled.push((g1_proj_mul(&pairs[7].0, &zeta_3), pairs[7].1));
    scaled.push((g1_proj_mul(&pairs[8].0, &zeta_4), pairs[8].1));
    scaled.push((g1_proj_mul(&pairs[9].0, &zeta_4), pairs[9].1));

    pairing_product_is_one(&scaled)
}

} // verus!

//! The verifier: recomputes the prover's challenges from the transcript of
//! the proof's commitments, checks the multi-unity sub-proof, and checks
//! every quotient relation of the proof bundle as batched pairing
//! equations, each derived from its quotient's defining identity:
//!
//! - `(X^n - 1) * (M(X) - M(X / w)) = Z_W(X) * Q_M(X)`
//! - `((v X)^k - 1) * (L(v X) - w * L(X)) = Z_V(X) * Q_L(X)`
//! - `L(X) - D(X) = Z_K(X) * Q_D(X)`
//! - `A(X) * (beta + T(X) + delta * X) - M(X) = Z_W(X) * Q_A(X)`
//! - `B(X) * (beta + f(X) + delta * L(X)) - 1 = Z_V(X) * Q_B(X)`
//!
//! plus the cross-group binding of `[B]_2` to `[B]_1` and the
//! log-derivative sum equality `ns * A(0) = ks * B(0)`, carried by the
//! zero-opening commitments `A_0`, `B_0`. The proof is accepted exactly
//! when the weighted product of all the pairings is the identity;
//! adversarial proofs are expected input and are rejected, never a panic.

use vstd::prelude::*;

use crate::curve::G1Affine;
use crate::curve::G1Projective;
use crate::curve::G2Projective;
use crate::curve::add_g2_of;
use crate::curve::fr_of_point;
use crate::curve::g1_into_projective;
use crate::curve::g1_mul;
use crate::curve::g1_neg;
use crate::curve::g1_proj_mul;
use crate::curve::g1_sub;
use crate::curve::g2_into_projective;
use crate::curve::g2_add;
use crate::curve::g2_mul;
use crate::curve::g2_sub;
use crate::curve::mul_g2_of;
use crate::curve::mul_point_of;
use crate::curve::neg_point_of;
use crate::curve::pairing_check;
use crate::curve::pairing_product_is_one;
use crate::curve::proj_g2_of;
use crate::curve::proj_mul_of;
use crate::curve::proj_of;
use crate::curve::sub_g2_of;
use crate::curve::sub_points_of;
use crate::multi_unity::multi_unity_verify;
use crate::prover::Proof;
use crate::public_parameters::PublicParameters;
use crate::scalar::Rng;
use crate::scalar::Scalar;
use crate::scalar::add_of;
use crate::scalar::fr_from_u64;
use crate::scalar::fr_mul;
use crate::scalar::fr_of;
use crate::scalar::fr_pow_u64;
use crate::scalar::fr_rand;
use crate::scalar::mul_of;
use crate::scalar::pow_of;
use crate::table::TablePreprocessedParameters;
use crate::transcript::LABEL_ALPHA;
use crate::transcript::mix_of;
use crate::transcript::LABEL_BETA;
use crate::transcript::LABEL_COMMITMENT;
use crate::transcript::LABEL_FRACTION_BETA;
use crate::transcript::LABEL_FRACTION_DELTA;
use crate::transcript::Transcript;

verus! {

/// The transcript state after absorbing one commitment.
pub open spec fn absorb_point_spec(st: Scalar, p: G1Affine) -> Scalar {
    mix_of(add_of(add_of(st, fr_of(LABEL_COMMITMENT)), fr_of_point(p)))
}

/// The transcript state after absorbing one scalar.
pub open spec fn absorb_scalar_spec(st: Scalar, v: Scalar) -> Scalar {
    mix_of(add_of(add_of(st, fr_of(LABEL_COMMITMENT)), v))
}

/// A derived challenge, which is also the next state.
pub open spec fn challenge_spec(st: Scalar, label: u64) -> Scalar {
    mix_of(add_of(st, fr_of(label)))
}

/// The transcript state after the first round's eight commitments.
pub open spec fn round_one_state(proof: Proof) -> Scalar {
    absorb_point_spec(
        absorb_point_spec(
            absorb_point_spec(
                absorb_point_spec(
                    absorb_point_spec(
                        absorb_point_spec(
                            absorb_point_spec(
                                absorb_point_spec(fr_of(0), proof.g1_m),
                                proof.g1_m_div_w,
                            ),
                            proof.g1_q_m,
                        ),
                        proof.g1_l,
                    ),
                    proof.g1_l_mul_v,
                ),
                proof.g1_q_l,
            ),
            proof.g1_d,
        ),
        proof.g1_q_d,
    )
}

/// The multi-unity evaluation-point challenge, a function of the proof.
pub open spec fn unity_alpha(proof: Proof) -> Scalar {
    challenge_spec(round_one_state(proof), LABEL_ALPHA)
}

/// The multi-unity batching-point challenge.
pub open spec fn unity_beta(proof: Proof) -> Scalar {
    challenge_spec(unity_alpha(proof), LABEL_BETA)
}

/// The transcript state after the multi-unity commitments and evaluations.
pub open spec fn fraction_state(proof: Proof) -> Scalar {
    absorb_scalar_spec(
        absorb_scalar_spec(
            absorb_scalar_spec(
                absorb_point_spec(
                    absorb_point_spec(
                        absorb_point_spec(
                            absorb_point_spec(
                                absorb_point_spec(
                                    unity_beta(proof),
                                    proof.multi_unity_proof.u_bar_com1,
                                ),
                                proof.multi_unity_proof.h_1_com1,
                            ),
                            proof.multi_unity_proof.h_2_com1,
                        ),
                        proof.multi_unity_proof.u_bar_alpha_com1,
                    ),
                    proof.multi_unity_proof.h_2_alpha_com1,
                ),
                proof.multi_unity_proof.v1,
            ),
            proof.multi_unity_proof.v2,
        ),
        proof.multi_unity_proof.v3,
    )
}

/// The fractional-decomposition challenge `beta`.
pub open spec fn fraction_beta(proof: Proof) -> Scalar {
    challenge_spec(fraction_state(proof), LABEL_FRACTION_BETA)
}

/// The fractional-decomposition challenge `delta`.
pub open spec fn fraction_delta(proof: Proof) -> Scalar {
    challenge_spec(fraction_beta(proof), LABEL_FRACTION_DELTA)
}

/// The eighteen pairing pairs of the quotient checks, weighted by the
/// squares chain of one batching scalar; their product decides
/// acceptance, beside the multi-unity sub-proof.
pub open spec fn weighted_pairs(
    pp: PublicParameters,
    tpp: TablePreprocessedParameters,
    statement: G1Affine,
    proof: Proof,
    eps: Scalar,
) -> Seq<(G1Projective, G2Projective)> {
    let beta = fraction_beta(proof);
    let delta = fraction_delta(proof);
    let n = pp.num_table_segments as int;
    let k = pp.num_witness_segments as int;
    let ks = pp.witness_element_size as int;
    let g2_one = proj_g2_of(pp.g2_srs@[0]);
    let g2_tau = proj_g2_of(pp.g2_srs@[1]);
    let g2_zw = proj_g2_of(pp.g2_zw);
    let g2_zv = sub_g2_of(proj_g2_of(pp.g2_srs@[ks]), g2_one);
    let g2_zk = sub_g2_of(proj_g2_of(pp.g2_srs@[k]), g2_one);
    let g2_b = proj_g2_of(proof.g2_b);
    let g1_one = proj_of(pp.g1_srs@[0]);
    let ns_fr = fr_of(pp.table_element_size as u64);
    let ks_fr = fr_of(pp.witness_element_size as u64);
    let e2 = mul_of(eps, eps);
    let e3 = mul_of(e2, e2);
    let e4 = mul_of(e3, e3);
    let e5 = mul_of(e4, e4);
    let e6 = mul_of(e5, e5);
    seq![
        (sub_points_of(proj_of(proof.g1_m), proj_of(proof.g1_m_div_w)), sub_g2_of(
            proj_g2_of(pp.g2_srs@[n]),
            g2_one,
        )),
        (neg_point_of(proj_of(proof.g1_q_m)), g2_zw),
        (proj_mul_of(
            sub_points_of(
                proj_of(proof.g1_l_mul_v),
                mul_point_of(proof.g1_l, pp.domain_w.group_gen_spec()),
            ),
            eps,
        ), sub_g2_of(
            mul_g2_of(
                pp.g2_srs@[k],
                pow_of(pp.domain_v.group_gen_spec(), pp.num_witness_segments as u64),
            ),
            g2_one,
        )),
        (proj_mul_of(neg_point_of(proj_of(proof.g1_q_l)), eps), g2_zv),
        (proj_mul_of(sub_points_of(proj_of(proof.g1_l), proj_of(proof.g1_d)), e2), g2_one),
        (proj_mul_of(neg_point_of(proj_of(proof.g1_q_d)), e2), g2_zk),
        (proj_mul_of(proj_of(proof.g1_a), e3), add_g2_of(
            proj_g2_of(tpp.g2_t),
            add_g2_of(mul_g2_of(pp.g2_srs@[0], beta), mul_g2_of(pp.g2_srs@[1], delta)),
        )),
        (proj_mul_of(neg_point_of(proj_of(proof.g1_m)), e3), g2_one),
        (proj_mul_of(neg_point_of(proj_of(proof.g1_q_a)), e3), g2_zw),
        (proj_mul_of(proj_of(proof.g1_b), mul_of(e4, beta)), g2_one),
        (proj_mul_of(proj_of(statement), e4), g2_b),
        (proj_mul_of(mul_point_of(proof.g1_l, delta), e4), g2_b),
        (proj_mul_of(neg_point_of(g1_one), e4), g2_one),
        (proj_mul_of(neg_point_of(proj_of(proof.g1_q_b)), e4), g2_zv),
        (proj_mul_of(proj_of(proof.g1_b), e5), g2_one),
        (proj_mul_of(neg_point_of(g1_one), e5), g2_b),
        (proj_mul_of(
            sub_points_of(mul_point_of(proof.g1_a, ns_fr), mul_point_of(proof.g1_b, ks_fr)),
            e6,
        ), g2_one),
        (proj_mul_of(
            neg_point_of(
                sub_points_of(
                    mul_point_of(proof.g1_a_0, ns_fr),
                    mul_point_of(proof.g1_b_0, ks_fr),
                ),
            ),
            e6,
        ), g2_tau),
    ]
}

/// Verifies a proof bundle against the table preprocessing and the
/// witness statement: the multi-unity sub-proof and all batched quotient
/// pairing relations, weighted by powers of a fresh random scalar, must
/// hold together. A table of fewer than two segments admits no proof.
pub fn verify(
    pp: &PublicParameters,
    tpp: &TablePreprocessedParameters,
    statement: &G1Affine,
    proof: &Proof,
    rng: &mut Rng,
) -> (r: bool)
    requires
        pp.wf(),
    ensures
        pp.log_num_segments == 0 ==> r == false,
        r ==> exists|eps: Scalar|
            pairing_check(#[trigger] weighted_pairs(*pp, *tpp, *statement, *proof, eps)),
{
    let n = pp.num_table_segments;
    let k = pp.num_witness_segments;
    let ks = pp.witness_element_size;

    // The same transcript the prover builds: the first round's
    // commitments, the two multi-unity challenges, the sub-proof's
    // commitments and evaluations, then beta and delta.
    let mut transcript = Transcript::new();
    transcript.append_point(LABEL_COMMITMENT, &proof.g1_m);
    transcript.append_point(LABEL_COMMITMENT, &proof.g1_m_div_w);
    transcript.append_point(LABEL_COMMITMENT, &proof.g1_q_m);
    transcript.append_point(LABEL_COMMITMENT, &proof.g1_l);
    transcript.append_point(LABEL_COMMITMENT, &proof.g1_l_mul_v);
    transcript.append_point(LABEL_COMMITMENT, &proof.g1_q_l);
    transcript.append_point(LABEL_COMMITMENT, &proof.g1_d);
    transcript.append_point(LABEL_COMMITMENT, &proof.g1_q_d);
    let alpha = transcript.get_and_append_challenge(LABEL_ALPHA);
    let beta_unity = transcript.get_and_append_challenge(LABEL_BETA);

    if !multi_unity_verify(pp, &proof.g1_d, &proof.multi_unity_proof, rng, alpha, beta_unity) {
        return false;
    }

    transcript.append_point(LABEL_COMMITMENT, &proof.multi_unity_proof.u_bar_com1);
    transcript.append_point(LABEL_COMMITMENT, &proof.multi_unity_proof.h_1_com1);
    transcript.append_point(LABEL_COMMITMENT, &proof.multi_unity_proof.h_2_com1);
    transcript.append_point(LABEL_COMMITMENT, &proof.multi_unity_proof.u_bar_alpha_com1);
    transcript.append_point(LABEL_COMMITMENT, &proof.multi_unity_proof.h_2_alpha_com1);
    transcript.append_scalar(LABEL_COMMITMENT, &proof.multi_unity_proof.v1);
    transcript.append_scalar(LABEL_COMMITMENT, &proof.multi_unity_proof.v2);
    transcript.append_scalar(LABEL_COMMITMENT, &proof.multi_unity_proof.v3);
    let beta = transcript.get_and_append_challenge(LABEL_FRACTION_BETA);
    let delta = transcript.get_and_append_challenge(LABEL_FRACTION_DELTA);

    // Frequently paired points.
    let g2_one = g2_into_projective(&pp.g2_srs[0]);
    let g2_tau = g2_into_projective(&pp.g2_srs[1]);
    let g2_zw = g2_into_projective(&pp.g2_zw);
    let g2_zv = g2_sub(&g2_into_projective(&pp.g2_srs[ks]), &g2_one);
    let g2_zk = g2_sub(&g2_into_projective(&pp.g2_srs[k]), &g2_one);
    let g1_one = g1_into_projective(&pp.g1_srs[0]);

    let mut pairs: Vec<(G1Projective, G2Projective)> = Vec::new();

    // Q_M: (X^n - 1) * (M(X) - M(X / w)) = Z_W(X) * Q_M(X).
    let m_diff = g1_sub(
        &g1_into_projective(&proof.g1_m),
        &g1_into_projective(&proof.g1_m_div_w),
    );
    let g2_xn = g2_sub(&g2_into_projective(&pp.g2_srs[n]), &g2_one);
    pairs.push((m_diff, g2_xn));
    pairs.push((g1_neg(&g1_into_projective(&proof.g1_q_m)), g2_zw));

    // Q_L: ((v X)^k - 1) * (L(v X) - w * L(X)) = Z_V(X) * Q_L(X).
    let eps_1 = fr_rand(rng);
    let l_shift_diff = g1_sub(
        &g1_into_projective(&proof.g1_l_mul_v),
        &g1_mul(&proof.g1_l, &pp.domain_w.group_gen()),
    );
    let v_pow_k = fr_pow_u64(&pp.domain_v.group_gen(), k as u64);
    let g2_vxk = g2_sub(&g2_mul(&pp.g2_srs[k], &v_pow_k), &g2_one);
    pairs.push((g1_proj_mul(&l_shift_diff, &eps_1), g2_vxk));
    pairs.push((g1_proj_mul(&g1_neg(&g1_into_projective(&proof.g1_q_l)), &eps_1), g2_zv));

    // Q_D: L(X) - D(X) = Z_K(X) * Q_D(X).
    let eps_2 = fr_mul(eps_1, eps_1);
    let ld_diff = g1_sub(
        &g1_into_projective(&proof.g1_l),
        &g1_into_projective(&proof.g1_d),
    );
    pairs.push((g1_proj_mul(&ld_diff, &eps_2), g2_one));
    pairs.push((g1_proj_mul(&g1_neg(&g1_into_projective(&proof.g1_q_d)), &eps_2), g2_zk));

    // Q_A: A(X) * (beta + T(X) + delta * X) - M(X) = Z_W(X) * Q_A(X).
    let eps_3 = fr_mul(eps_2, eps_2);
    let g2_denom_a = g2_add(
        &g2_into_projective(&tpp.g2_t),
        &g2_add(&g2_mul(&pp.g2_srs[0], &beta), &g2_mul(&pp.g2_srs[1], &delta)),
    );
    pairs.push((g1_proj_mul(&g1_into_projective(&proof.g1_a), &eps_3), g2_denom_a));
    pairs.push((g1_proj_mul(&g1_neg(&g1_into_projective(&proof.g1_m)), &eps_3), g2_one));
    pairs.push((g1_proj_mul(&g1_neg(&g1_into_projective(&proof.g1_q_a)), &eps_3), g2_zw));

    // Q_B: B(X) * (beta + f(X) + delta * L(X)) - 1 = Z_V(X) * Q_B(X),
    // with the witness and index polynomials paired through [B]_2.
    let eps_4 = fr_mul(eps_3, eps_3);
    let g2_b = g2_into_projective(&proof.g2_b);
    pairs.push(
        (g1_proj_mul(&g1_into_projective(&proof.g1_b), &fr_mul(eps_4, beta)), g2_one),
    );
    pairs.push((g1_proj_mul(&g1_into_projective(statement), &eps_4), g2_b));
    pairs.push((g1_proj_mul(&g1_mul(&proof.g1_l, &delta), &eps_4), g2_b));
    pairs.push((g1_proj_mul(&g1_neg(&g1_one), &eps_4), g2_one));
    pairs.push((g1_proj_mul(&g1_neg(&g1_into_projective(&proof.g1_q_b)), &eps_4), g2_zv));

    // [B]_2 carries the same polynomial as [B]_1.
    let eps_5 = fr_mul(eps_4, eps_4);
    pairs.push((g1_proj_mul(&g1_into_projective(&proof.g1_b), &eps_5), g2_one));
    pairs.push((g1_proj_mul(&g1_neg(&g1_one), &eps_5), g2_b));

    // The log-derivative sum equality ns * A(0) = ks * B(0), through the
    // zero openings A_0 and B_0.
    let eps_6 = fr_mul(eps_5, eps_5);
    let ns_fr = fr_from_u64(pp.table_element_size as u64);
    let ks_fr = fr_from_u64(ks as u64);
    let sum_diff = g1_sub(
        &g1_mul(&proof.g1_a, &ns_fr),
        &g1_mul(&proof.g1_b, &ks_fr),
    );
    let sum_0_diff = g1_sub(
        &g1_mul(&proof.g1_a_0, &ns_fr),
        &g1_mul(&proof.g1_b_0, &ks_fr),
    );
    pairs.push((g1_proj_mul(&sum_diff, &eps_6), g2_one));
    pairs.push((g1_proj_mul(&g1_neg(&sum_0_diff), &eps_6), g2_tau));

    let accepted = pairing_product_is_one(&pairs);
    proof {
        if accepted {
            assert(pairs@ =~= weighted_pairs(*pp, *tpp, *statement, *proof, eps_1));
            assert(pairing_check(weighted_pairs(*pp, *tpp, *statement, *proof, eps_1)));
        }
    }
    accepted
}

} // verus!

//! One-shot parameter generation: the structured reference string, the
//! three protocol domains, and the precomputed Lagrange-basis and
//! quotient-polynomial commitments that let the prover assemble its
//! commitments by sparse linear combinations.
//!
//! The trapdoor `tau` is sampled, used, and dropped inside [`PublicParameters::setup`];
//! only public outputs leave it.

use vstd::prelude::*;

use crate::curve::G1Affine;
use crate::curve::G1Projective;
use crate::curve::G2Affine;
use crate::curve::g1_generator;
use crate::curve::g1_into_affine;
use crate::curve::g1_into_projective;
use crate::curve::g1_mul;
use crate::curve::g1_zero;
use crate::curve::g2_generator;
use crate::curve::g2_into_affine;
use crate::curve::g2_into_projective;
use crate::curve::g2_mul;
use crate::curve::g2_sub;
use crate::domain::Domain;
use crate::domain::domain_ifft;
use crate::domain::domain_ifft_g1;
use crate::domain::domain_new;
use crate::domain::roots_of_unity;
use crate::error::Error;
use crate::math::is_pow2;
use crate::math::is_power_of_two;
use crate::math::lemma_is_pow2_between;
use crate::math::lemma_is_pow2_mul;
use crate::math::lemma_is_pow2_pos;
use crate::math::lemma_pow2_gt;
use crate::math::log2_of_pow2;
use crate::math::pow2;
use crate::scalar::Rng;
use crate::scalar::Scalar;
use crate::scalar::fr_inverse;
use crate::scalar::fr_inverse_u64;
use crate::scalar::fr_mul;
use crate::scalar::fr_one;
use crate::scalar::fr_pow_u64;
use crate::scalar::fr_rand;
use crate::scalar::fr_sub;
use crate::scalar::fr_zero;

verus! {

/// The largest domain size the BN254 scalar field supports (its
/// two-adicity is 28).
pub const MAX_DOMAIN_SIZE: usize = 0x1000_0000;

/// Up to this many witness segments, a setup within `MAX_DOMAIN_SIZE` is
/// guaranteed to succeed: the packed multi-unity chain then fits the
/// address space.
pub const MAX_WITNESS_SEGMENTS: usize = 0x0200_0000;

/// The public parameters of the lookup protocol for the triple
/// `(num_table_segments, num_witness_segments, segment_size)`, immutable
/// and shared by every proving and verification session.
pub struct PublicParameters {
    /// Number of segments in the table (`n`).
    pub num_table_segments: usize,
    /// Number of segments in a witness (`k`), fixed for all queries.
    pub num_witness_segments: usize,
    /// Number of elements in one segment (`s`).
    pub segment_size: usize,
    /// Table size `n * s`.
    pub table_element_size: usize,
    /// Witness size `k * s`.
    pub witness_element_size: usize,
    /// `[tau^i]_1` for `i` up to `max(n, k) * s - 1`.
    pub g1_srs: Vec<G1Affine>,
    /// `[tau^i]_2` for `i` up to `max(n, k) * s`.
    pub g2_srs: Vec<G2Affine>,
    /// `[Z_W(tau)]_2`, the vanishing polynomial of `W` in the second group.
    pub g2_zw: G2Affine,
    /// `[Q_{i,2}(tau)]_1` with `L^W_i(X) * X = w^i * L^W_i(X) + Z_W(X) * Q_{i,2}(X)`.
    pub g1_q2_list: Vec<G1Affine>,
    /// `[(w^i / ns) * (tau^n - w^(i n)) / (tau - w^i)]_1` for `i` below `n * s`.
    pub g1_q3_list: Vec<G1Affine>,
    /// The third quotient family, rotated left by one position.
    pub g1_q4_list: Vec<G1Affine>,
    /// `[L^W_i(tau)]_1` for `i` below `n * s`.
    pub g1_l_w_list: Vec<G1Affine>,
    /// `[L^W_i(tau / w)]_1` for `i` below `n * s`.
    pub g1_l_w_div_w_list: Vec<G1Affine>,
    /// `[(L^W_i(tau) - L^W_i(0)) / tau]_1` for `i` below `n * s`.
    pub g1_l_w_opening_proofs_at_zero: Vec<G1Affine>,
    /// `[L^V_i(tau)]_1` for `i` below `k * s`.
    pub g1_l_v_list: Vec<G1Affine>,
    /// `[L^V_i(tau * v)]_1` for `i` below `k * s`.
    pub g1_l_v_mul_v_list: Vec<G1Affine>,
    /// Domain `W` of size `n * s`: the table positions.
    pub domain_w: Domain,
    /// Domain `V` of size `k * s`: the witness positions.
    pub domain_v: Domain,
    /// Domain `K` of size `k`: one point per queried segment. Its points
    /// `v^(i s)` are exactly the canonical domain of size `k`.
    pub domain_k: Domain,
    /// `log2(n)`: the length of the multi-unity squaring chain.
    pub log_num_segments: usize,
    /// The small domain carrying the squaring chain, of size
    /// `next_power_of_two(log2(n))`.
    pub domain_log_n: Domain,
    /// The Lagrange basis polynomials of `domain_log_n`, as coefficients.
    pub lagrange_basis_log_n: Vec<Vec<Scalar>>,
    /// The interpolation of the constant one over domain `K`.
    pub identity_poly_k: Vec<Scalar>,
}

impl PublicParameters {
    /// Size relations that every later phase of the protocol relies on.
    pub open spec fn wf(&self) -> bool {
        &&& is_pow2(self.num_table_segments as nat)
        &&& is_pow2(self.num_witness_segments as nat)
        &&& is_pow2(self.segment_size as nat)
        &&& self.num_table_segments >= 1
        &&& self.num_witness_segments >= 1
        &&& self.segment_size >= 1
        &&& self.table_element_size == self.num_table_segments * self.segment_size
        &&& self.witness_element_size == self.num_witness_segments * self.segment_size
        &&& self.table_element_size >= 1
        &&& self.witness_element_size >= 1
        &&& self.table_element_size >= self.num_table_segments
        &&& self.witness_element_size >= self.num_witness_segments
        &&& self.domain_w.size_spec() == self.table_element_size
        &&& self.domain_v.size_spec() == self.witness_element_size
        &&& self.domain_k.size_spec() == self.num_witness_segments
        &&& pow2(self.log_num_segments as nat) == self.num_table_segments as nat
        &&& is_pow2(self.domain_log_n.size_spec() as nat)
        &&& self.log_num_segments <= self.domain_log_n.size_spec()
        &&& (self.log_num_segments >= 1 ==> self.domain_log_n.size_spec() < 2 * self.log_num_segments)
        &&& (self.log_num_segments == 0 ==> self.domain_log_n.size_spec() == 1)
        &&& self.domain_log_n.size_spec() <= 64
        &&& self.g1_srs@.len() >= self.table_element_size
        &&& self.g1_srs@.len() >= self.witness_element_size
        &&& self.g1_srs@.len() >= (self.num_witness_segments + 1) * self.domain_log_n.size_spec()
        &&& self.g1_srs@.len() >= 3
        &&& self.g2_srs@.len() == self.g1_srs@.len() + 1
        &&& self.g1_q2_list@.len() == self.table_element_size
        &&& self.g1_q3_list@.len() == self.table_element_size
        &&& self.g1_q4_list@.len() == self.table_element_size
        &&& self.g1_l_w_list@.len() == self.table_element_size
        &&& self.g1_l_w_div_w_list@.len() == self.table_element_size
        &&& self.g1_l_w_opening_proofs_at_zero@.len() == self.table_element_size
        &&& self.g1_l_v_list@.len() == self.witness_element_size
        &&& self.g1_l_v_mul_v_list@.len() == self.witness_element_size
        &&& self.lagrange_basis_log_n@.len() == self.domain_log_n.size_spec()
        &&& (forall|i: int|
            0 <= i < self.lagrange_basis_log_n@.len()
                ==> #[trigger] self.lagrange_basis_log_n@[i]@.len() == self.domain_log_n.size_spec())
        &&& self.identity_poly_k@.len() == self.num_witness_segments
    }

    /// Builds the parameters for `(n, k, s)`: samples a trapdoor, builds
    /// the SRS up to degree `max(n, k) * s - 1`, the domains `W`, `V`,
    /// `K` and the squaring-chain domain, and all precomputed
    /// commitments. Succeeds exactly on powers of two whose domains the
    /// field admits; the non-power-of-two cases are each rejected with
    /// their own error.
    pub fn setup(
        rng: &mut Rng,
        num_table_segments: usize,
        num_witness_segments: usize,
        segment_size: usize,
    ) -> (r: Result<PublicParameters, Error>)
        ensures
            r matches Ok(pp) ==> pp.wf() && pp.num_table_segments == num_table_segments
                && pp.num_witness_segments == num_witness_segments && pp.segment_size
                == segment_size,
            r matches Ok(pp) ==> (forall|i: int|
                0 <= i < pp.table_element_size ==> #[trigger] pp.g1_q4_list@[i]
                    == pp.g1_q3_list@[if i + 1 < pp.table_element_size {
                    i + 1
                } else {
                    0int
                }]),
            r matches Ok(pp) ==> pp.identity_poly_k@ == crate::domain::ifft_of(
                Seq::new(pp.num_witness_segments as nat, |t: int| crate::scalar::fr_of(1)),
                pp.num_witness_segments as nat,
            ),
            r matches Ok(pp) ==> (forall|i: int|
                0 <= i < pp.table_element_size ==> #[trigger] pp.g1_q2_list@[i]
                    == crate::curve::affine_of(
                    crate::curve::mul_point_of(
                        pp.g1_srs@[0],
                        crate::scalar::mul_of(
                            crate::domain::roots_of(pp.table_element_size as nat)[i],
                            crate::scalar::inv_u64_of(pp.table_element_size as u64),
                        ),
                    ),
                )),
            !is_pow2(num_table_segments as nat) ==> r == Err::<PublicParameters, Error>(
                Error::InvalidNumberOfSegments(num_table_segments),
            ),
            is_pow2(num_table_segments as nat) && !is_pow2(num_witness_segments as nat) ==> r
                == Err::<PublicParameters, Error>(
                Error::InvalidNumberOfQueries(num_witness_segments),
            ),
            is_pow2(num_table_segments as nat) && is_pow2(num_witness_segments as nat) && !is_pow2(
                segment_size as nat,
            ) ==> r == Err::<PublicParameters, Error>(Error::InvalidSegmentSize(segment_size)),
            r matches Err(e) ==> (e == Error::InvalidNumberOfSegments(num_table_segments) || e
                == Error::InvalidNumberOfQueries(num_witness_segments) || e
                == Error::InvalidSegmentSize(segment_size)
                || e == Error::FailedToCreateEvaluationDomain),
            is_pow2(num_table_segments as nat) && is_pow2(num_witness_segments as nat) && is_pow2(
                segment_size as nat,
            ) && num_table_segments * segment_size <= MAX_DOMAIN_SIZE && num_witness_segments
                * segment_size <= MAX_DOMAIN_SIZE && num_witness_segments <= MAX_WITNESS_SEGMENTS
                ==> r is Ok,
    {
        if !is_power_of_two(num_table_segments) {
            return Err(Error::InvalidNumberOfSegments(num_table_segments));
        }
        if !is_power_of_two(num_witness_segments) {
            return Err(Error::InvalidNumberOfQueries(num_witness_segments));
        }
        if !is_power_of_two(segment_size) {
            return Err(Error::InvalidSegmentSize(segment_size));
        }
        proof {
            lemma_is_pow2_pos(num_table_segments as nat);
            lemma_is_pow2_pos(num_witness_segments as nat);
            lemma_is_pow2_pos(segment_size as nat);
            lemma_is_pow2_mul(num_table_segments as nat, segment_size as nat);
            lemma_is_pow2_mul(num_witness_segments as nat, segment_size as nat);
        }
        let table_element_size = match num_table_segments.checked_mul(segment_size) {
            Some(v) => v,
            None => {
                return Err(Error::FailedToCreateEvaluationDomain);
            },
        };
        let witness_element_size = match num_witness_segments.checked_mul(segment_size) {
            Some(v) => v,
            None => {
                return Err(Error::FailedToCreateEvaluationDomain);
            },
        };
        proof {
            assert(table_element_size >= num_table_segments && table_element_size >= 1
                && witness_element_size >= num_witness_segments && witness_element_size >= 1)
                by (nonlinear_arith)
                requires
                    num_table_segments >= 1,
                    num_witness_segments >= 1,
                    segment_size >= 1,
                    table_element_size == num_table_segments * segment_size,
                    witness_element_size == num_witness_segments * segment_size,
            ;
        }

        // The domains W, V and K. The points of K, `v^(i s)` for the
        // generator `v` of V, form exactly the canonical radix-2 domain of
        // size k, since `v^s` is the canonical generator of that order.
        let domain_w = match domain_new(table_element_size) {
            Some(d) => d,
            None => {
                return Err(Error::FailedToCreateEvaluationDomain);
            },
        };
        proof {
            lemma_is_pow2_between(table_element_size as nat, domain_w.size_spec() as nat);
        }
        let domain_v = match domain_new(witness_element_size) {
            Some(d) => d,
            None => {
                return Err(Error::FailedToCreateEvaluationDomain);
            },
        };
        proof {
            lemma_is_pow2_between(witness_element_size as nat, domain_v.size_spec() as nat);
        }
        let domain_k = match domain_new(num_witness_segments) {
            Some(d) => d,
            None => {
                return Err(Error::FailedToCreateEvaluationDomain);
            },
        };
        proof {
            lemma_is_pow2_between(num_witness_segments as nat, domain_k.size_spec() as nat);
        }

        // The squaring-chain domain of size next_power_of_two(log2(n)).
        let log_num_segments = log2_of_pow2(num_table_segments);
        proof {
            lemma_pow2_gt(log_num_segments as nat);
        }
        let domain_log_n = match domain_new(log_num_segments) {
            Some(d) => d,
            None => {
                return Err(Error::FailedToCreateEvaluationDomain);
            },
        };

        proof {
            // The chain length log2(n) is below the machine word width, so
            // its domain has at most 64 points.
            crate::math::lemma_pow2_values();
            if log_num_segments > 63 {
                crate::math::lemma_pow2_le(64, log_num_segments as nat);
                assert(false);
            }
            if domain_log_n.size_spec() > 64 {
                crate::math::lemma_is_pow2_64();
                crate::math::lemma_is_pow2_between(64, domain_log_n.size_spec() as nat);
                assert(false);
            }
            // Under the sizes the success promise covers, the packing
            // length computed below fits a machine word.
            if table_element_size <= MAX_DOMAIN_SIZE && num_witness_segments
                <= MAX_WITNESS_SEGMENTS {
                if log_num_segments > 28 {
                    crate::math::lemma_pow2_le(29, log_num_segments as nat);
                    assert(pow2(29) == 2 * pow2(28));
                    assert(false);
                }
                assert((num_witness_segments + 1) * domain_log_n.size_spec() <= (
                MAX_WITNESS_SEGMENTS + 1) * 64) by (nonlinear_arith)
                    requires
                        num_witness_segments <= MAX_WITNESS_SEGMENTS,
                        domain_log_n.size_spec() <= 64,
                ;
            }
        }

        // The SRS, from a trapdoor used only here. It carries at least
        // max(n, k) * s powers, and enough for the multi-unity bivariate
        // packing of k + 1 chain polynomials over the chain domain.
        let mut srs_len = if table_element_size >= witness_element_size {
            table_element_size
        } else {
            witness_element_size
        };
        let packing_len = match num_witness_segments.checked_add(1) {
            Some(k1) => match k1.checked_mul(domain_log_n.size()) {
                Some(v) => v,
                None => {
                    return Err(Error::FailedToCreateEvaluationDomain);
                },
            },
            None => {
                return Err(Error::FailedToCreateEvaluationDomain);
            },
        };
        if packing_len > srs_len {
            srs_len = packing_len;
        }
        if srs_len < 3 {
            srs_len = 3;
        }
        if srs_len > usize::MAX - 1 {
            return Err(Error::FailedToCreateEvaluationDomain);
        }
        let tau = fr_rand(rng);
        let g1_gen = g1_generator();
        let g2_gen = g2_generator();
        let mut g1_srs: Vec<G1Affine> = Vec::new();
        let mut pow = fr_one();
        let mut i: usize = 0;
        while i < srs_len
            invariant
                i <= srs_len,
                g1_srs@.len() == i,
            decreases srs_len - i,
        {
            g1_srs.push(g1_into_affine(&g1_mul(&g1_gen, &pow)));
            pow = fr_mul(pow, tau);
            i = i + 1;
        }
        let mut g2_srs: Vec<G2Affine> = Vec::new();
        let mut pow = fr_one();
        let mut i: usize = 0;
        while i < srs_len + 1
            invariant
                i <= srs_len + 1,
                srs_len + 1 <= usize::MAX,
                g2_srs@.len() == i,
            decreases srs_len + 1 - i,
        {
            g2_srs.push(g2_into_affine(&g2_mul(&g2_gen, &pow)));
            pow = fr_mul(pow, tau);
            i = i + 1;
        }

        // [Z_W(tau)]_2 = [tau^(n s)]_2 - [1]_2.
        let g2_zw = g2_into_affine(
            &g2_sub(
                &g2_into_projective(&g2_srs[table_element_size]),
                &g2_into_projective(&g2_srs[0]),
            ),
        );

        let roots_w = roots_of_unity(&domain_w);
        let fr_inv_ns = fr_inverse_u64(table_element_size as u64);

        // Q_{i,2}(X) = w^i / (n s), a constant polynomial.
        let mut g1_q2_list: Vec<G1Affine> = Vec::new();
        let mut i: usize = 0;
        while i < table_element_size
            invariant
                i <= table_element_size,
                g1_q2_list@.len() == i,
                roots_w@.len() == table_element_size,
                roots_w@ == crate::domain::roots_of(table_element_size as nat),
                fr_inv_ns == crate::scalar::inv_u64_of(table_element_size as u64),
                g1_srs@.len() >= 1,
                forall|t: int|
                    0 <= t < i ==> #[trigger] g1_q2_list@[t] == crate::curve::affine_of(
                        crate::curve::mul_point_of(
                            g1_srs@[0],
                            crate::scalar::mul_of(
                                roots_w@[t],
                                crate::scalar::inv_u64_of(table_element_size as u64),
                            ),
                        ),
                    ),
            decreases table_element_size - i,
        {
            g1_q2_list.push(g1_into_affine(&g1_mul(&g1_srs[0], &fr_mul(roots_w[i], fr_inv_ns))));
            i = i + 1;
        }

        // [L^W_i(tau)]_1 for all i at once: the group inverse FFT of the
        // SRS, since [L_i(tau)]_1 = sum_j ifft-matrix[i][j] * [tau^j]_1.
        let mut proj_srs_w: Vec<G1Projective> = Vec::new();
        let mut i: usize = 0;
        while i < table_element_size
            invariant
                i <= table_element_size,
                proj_srs_w@.len() == i,
                g1_srs@.len() >= table_element_size,
            decreases table_element_size - i,
        {
            proj_srs_w.push(g1_into_projective(&g1_srs[i]));
            i = i + 1;
        }
        let l_w_proj = domain_ifft_g1(&domain_w, proj_srs_w.as_slice());
        let g1_l_w_list = affine_list(&l_w_proj);

        // [L^W_i(tau / w)]_1: the same with each SRS entry scaled by w^(-j).
        let mut scaled_srs: Vec<G1Projective> = Vec::new();
        let mut pow = fr_one();
        let mut i: usize = 0;
        while i < table_element_size
            invariant
                i <= table_element_size,
                scaled_srs@.len() == i,
                g1_srs@.len() >= table_element_size,
            decreases table_element_size - i,
        {
            scaled_srs.push(g1_mul(&g1_srs[i], &pow));
            pow = fr_mul(pow, domain_w.group_gen_inv());
            i = i + 1;
        }
        let l_w_div_w_proj = domain_ifft_g1(&domain_w, scaled_srs.as_slice());
        let g1_l_w_div_w_list = affine_list(&l_w_div_w_proj);

        // [(L^W_i(tau) - L^W_i(0)) / tau]_1: dropping the constant
        // coefficient shifts the SRS right by one position.
        let mut shifted_srs: Vec<G1Projective> = Vec::new();
        shifted_srs.push(g1_zero());
        let mut i: usize = 1;
        while i < table_element_size
            invariant
                1 <= i <= table_element_size,
                shifted_srs@.len() == i,
                g1_srs@.len() >= table_element_size,
            decreases table_element_size - i,
        {
            shifted_srs.push(g1_into_projective(&g1_srs[i - 1]));
            i = i + 1;
        }
        let zero_opening_proj = domain_ifft_g1(&domain_w, shifted_srs.as_slice());
        let g1_l_w_opening_proofs_at_zero = affine_list(&zero_opening_proj);

        // [L^V_i(tau)]_1.
        let mut proj_srs_v: Vec<G1Projective> = Vec::new();
        let mut i: usize = 0;
        while i < witness_element_size
            invariant
                i <= witness_element_size,
                proj_srs_v@.len() == i,
                g1_srs@.len() >= witness_element_size,
            decreases witness_element_size - i,
        {
            proj_srs_v.push(g1_into_projective(&g1_srs[i]));
            i = i + 1;
        }
        let l_v_proj = domain_ifft_g1(&domain_v, proj_srs_v.as_slice());
        let g1_l_v_list = affine_list(&l_v_proj);

        // [L^V_i(tau * v)]_1: each SRS entry scaled by v^j.
        let mut scaled_srs_v: Vec<G1Projective> = Vec::new();
        let mut pow = fr_one();
        let mut i: usize = 0;
        while i < witness_element_size
            invariant
                i <= witness_element_size,
                scaled_srs_v@.len() == i,
                g1_srs@.len() >= witness_element_size,
            decreases witness_element_size - i,
        {
            scaled_srs_v.push(g1_mul(&g1_srs[i], &pow));
            pow = fr_mul(pow, domain_v.group_gen());
            i = i + 1;
        }
        let l_v_mul_v_proj = domain_ifft_g1(&domain_v, scaled_srs_v.as_slice());
        let g1_l_v_mul_v_list = affine_list(&l_v_mul_v_proj);

        // q_{i,3} = [(w^i / ns) * (tau^n - w^(i n)) / (tau - w^i)]_1,
        // computed with the trapdoor in the scalar field.
        let tau_pow_n = fr_pow_u64(&tau, num_table_segments as u64);
        let mut g1_q3_list: Vec<G1Affine> = Vec::new();
        let mut i: usize = 0;
        while i < table_element_size
            invariant
                i <= table_element_size,
                g1_q3_list@.len() == i,
                roots_w@.len() == table_element_size,
                g1_srs@.len() >= 1,
            decreases table_element_size - i,
        {
            let w_i = roots_w[i];
            let inv = match fr_inverse(&fr_sub(tau, w_i)) {
                Some(v) => v,
                None => fr_zero(),
            };
            let w_in = fr_pow_u64(&w_i, num_table_segments as u64);
            let scalar = fr_mul(fr_mul(fr_mul(w_i, fr_inv_ns), fr_sub(tau_pow_n, w_in)), inv);
            g1_q3_list.push(g1_into_affine(&g1_mul(&g1_srs[0], &scalar)));
            i = i + 1;
        }

        // q_{i,4}: q_{i,3} rotated left by one position.
        let mut g1_q4_list: Vec<G1Affine> = Vec::new();
        let mut i: usize = 0;
        while i < table_element_size
            invariant
                i <= table_element_size,
                g1_q4_list@.len() == i,
                g1_q3_list@.len() == table_element_size,
                table_element_size >= 1,
                forall|t: int|
                    0 <= t < i ==> #[trigger] g1_q4_list@[t] == g1_q3_list@[if t + 1
                        < table_element_size {
                        t + 1
                    } else {
                        0int
                    }],
            decreases table_element_size - i,
        {
            if i + 1 < table_element_size {
                g1_q4_list.push(g1_q3_list[i + 1]);
            } else {
                g1_q4_list.push(g1_q3_list[0]);
            }
            i = i + 1;
        }

        // The Lagrange basis of the squaring-chain domain.
        let m = domain_log_n.size();
        let mut lagrange_basis_log_n: Vec<Vec<Scalar>> = Vec::new();
        let mut i: usize = 0;
        while i < m
            invariant
                i <= m,
                m == domain_log_n.size_spec(),
                lagrange_basis_log_n@.len() == i,
                forall|t: int|
                    0 <= t < i ==> #[trigger] lagrange_basis_log_n@[t]@.len() == m,
            decreases m - i,
        {
            let mut unit: Vec<Scalar> = Vec::new();
            let mut t: usize = 0;
            while t < m
                invariant
                    t <= m,
                    unit@.len() == t,
                decreases m - t,
            {
                if t == i {
                    unit.push(fr_one());
                } else {
                    unit.push(fr_zero());
                }
                t = t + 1;
            }
            lagrange_basis_log_n.push(domain_ifft(&domain_log_n, unit.as_slice()));
            i = i + 1;
        }

        // The identity polynomial over K: the interpolation of all ones.
        let mut ones: Vec<Scalar> = Vec::new();
        let mut i: usize = 0;
        while i < num_witness_segments
            invariant
                i <= num_witness_segments,
                ones@.len() == i,
                forall|t: int| 0 <= t < i ==> #[trigger] ones@[t] == crate::scalar::fr_of(1),
            decreases num_witness_segments - i,
        {
            ones.push(fr_one());
            i = i + 1;
        }
        proof {
            assert(ones@ =~= Seq::new(
                num_witness_segments as nat,
                |t: int| crate::scalar::fr_of(1),
            ));
        }
        let identity_poly_k = domain_ifft(&domain_k, ones.as_slice());

        Ok(
            PublicParameters {
                num_table_segments,
                num_witness_segments,
                segment_size,
                table_element_size,
                witness_element_size,
                g1_srs,
                g2_srs,
                g2_zw,
                g1_q2_list,
                g1_q3_list,
                g1_q4_list,
                g1_l_w_list,
                g1_l_w_div_w_list,
                g1_l_w_opening_proofs_at_zero,
                g1_l_v_list,
                g1_l_v_mul_v_list,
                domain_w,
                domain_v,
                domain_k,
                log_num_segments,
                domain_log_n,
                lagrange_basis_log_n,
                identity_poly_k,
            },
        )
    }
}

/// The affine forms of a list of projective points.
fn affine_list(points: &Vec<G1Projective>) -> (r: Vec<G1Affine>)
    ensures
        r@.len() == points@.len(),
{
    let mut out: Vec<G1Affine> = Vec::new();
    let mut i: usize = 0;
    while i < points.len()
        invariant
            i <= points@.len(),
            out@.len() == i,
        decreases points@.len() - i,
    {
        out.push(g1_into_affine(&points[i]));
        i = i + 1;
    }
    out
}

} // verus!

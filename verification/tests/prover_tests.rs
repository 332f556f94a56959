use ark_ec::{AffineRepr, CurveGroup};
use ark_poly::univariate::DensePolynomial;
use ark_poly::{DenseUVPolynomial, EvaluationDomain};
use ark_segmentlookup::kzg::commit_g1;
use ark_segmentlookup::prover::{
    multiplicity_polynomials_and_quotient_g1, prove, segment_multiplicities,
};
use ark_segmentlookup::public_parameters::PublicParameters;
use ark_segmentlookup::scalar::{Rng, Scalar};
use ark_segmentlookup::table::{rand_segments, Table};
use ark_segmentlookup::witness::Witness;
use ark_std::rand::rngs::StdRng;
use ark_std::rand::{RngCore, SeedableRng};
use ark_std::{UniformRand, Zero};

type Fr = ark_bn254::Fr;
type ArkG1Affine = ark_bn254::G1Affine;

const SEED: [u8; 32] = [
    1, 0, 0, 0, 23, 0, 0, 0, 200, 1, 0, 0, 210, 30, 0, 0, 0, 0, 0, 0, 0, 0, 0, 0, 0, 0, 0, 0, 0,
    0, 0, 0,
];

fn test_rng() -> Rng {
    Rng { inner: StdRng::from_seed(SEED) }
}

#[test]
fn test_mul_and_neg() {
    let mut rng = test_rng();
    let s1 = Fr::rand(&mut rng.inner);
    let s2 = Fr::rand(&mut rng.inner);
    let p1 = (ArkG1Affine::generator() * s1).into_affine();
    assert_eq!(-(p1 * s2), p1 * (-s2));
}

#[test]
fn test_domain_generator() {
    let size = 8;
    let domain = ark_poly::Radix2EvaluationDomain::<Fr>::new(size).unwrap();
    let domain_elements: Vec<_> = domain.elements().collect();
    assert_eq!(domain_elements[1], domain.group_gen);
}

#[test]
fn test_segment_multiplicities() {
    let queried_segment_indices = vec![0, 1, 2, 3, 0, 1, 2, 3];
    let num_segments = 4;
    let multiplicities = segment_multiplicities(&queried_segment_indices, num_segments).unwrap();
    assert_eq!(multiplicities.len(), 4);
    assert_eq!(multiplicities.get(0), Some(2));
    assert_eq!(multiplicities.get(1), Some(2));
    assert_eq!(multiplicities.get(2), Some(2));
    assert_eq!(multiplicities.get(3), Some(2));
}

#[test]
fn test_com1_multiplicity_polynomials_and_quotient() {
    let mut rng = test_rng();
    let num_segments = 16;
    let num_queries = 8;
    let segment_size = 4;
    let pp = PublicParameters::setup(&mut rng, num_segments, num_queries, segment_size).unwrap();
    let queried_segment_indices = vec![0, 1, 2, 3, 0, 1, 2, 3];
    let multiplicities = segment_multiplicities(&queried_segment_indices, num_segments).unwrap();

    // Construct the polynomial M(X) by an inverse FFT over W.
    let mut poly_eval_m_list = vec![Fr::zero(); pp.table_element_size];
    for j in 0..multiplicities.indices.len() {
        let i = multiplicities.indices[j];
        let m = multiplicities.counts[j];
        let fr_multiplicity = Fr::from(m as u64);
        for e in i * segment_size..(i + 1) * segment_size {
            poly_eval_m_list[e] = fr_multiplicity;
        }
    }
    let domain_w = pp.domain_w.inner().inner;
    let poly_coeff_list_m = domain_w.ifft(&poly_eval_m_list);
    let coeffs_m: Vec<Scalar> =
        poly_coeff_list_m.iter().map(|&inner| Scalar { inner }).collect();
    let g1_m_expected = commit_g1(pp.g1_srs.as_slice(), &coeffs_m).inner.into_affine();

    let inv_generator_w = pp.domain_w.group_gen_inv().inner;
    let mut pow = Fr::from(1u64);
    let mut poly_coeff_list_m_div_w: Vec<Fr> = Vec::new();
    for &c in poly_coeff_list_m.iter() {
        poly_coeff_list_m_div_w.push(c * pow);
        pow *= inv_generator_w;
    }
    let coeffs_m_div_w: Vec<Scalar> =
        poly_coeff_list_m_div_w.iter().map(|&inner| Scalar { inner }).collect();
    let g1_m_div_w_expected =
        commit_g1(pp.g1_srs.as_slice(), &coeffs_m_div_w).inner.into_affine();

    // Q_M from the identity (X^n - 1) * (M(X) - M(X / w)) = Z_W(X) * Q_M(X).
    let mut poly_coeff_list_x_pow_n_sub_one = vec![Fr::zero(); pp.num_table_segments + 1];
    poly_coeff_list_x_pow_n_sub_one[pp.num_table_segments] = Fr::from(1u64);
    poly_coeff_list_x_pow_n_sub_one[0] = -Fr::from(1u64);
    let poly_x_pow_n_sub_one =
        DensePolynomial::from_coefficients_vec(poly_coeff_list_x_pow_n_sub_one);
    let poly_m = DensePolynomial::from_coefficients_vec(poly_coeff_list_m.clone());
    let poly_m_div_w = DensePolynomial::from_coefficients_vec(poly_coeff_list_m_div_w);
    let diff = &poly_m - &poly_m_div_w;
    let poly_q_m_num = diff.naive_mul(&poly_x_pow_n_sub_one);
    let (poly_q_m, remainder) = poly_q_m_num.divide_by_vanishing_poly(domain_w).unwrap();
    assert!(remainder.is_zero());
    let coeffs_q_m: Vec<Scalar> =
        poly_q_m.coeffs.iter().map(|&inner| Scalar { inner }).collect();
    let g1_q_m_expected = commit_g1(pp.g1_srs.as_slice(), &coeffs_q_m).inner.into_affine();

    let got = multiplicity_polynomials_and_quotient_g1(
        &multiplicities,
        &pp.g1_l_w_list,
        &pp.g1_l_w_div_w_list,
        &pp.g1_q3_list,
        &pp.g1_q4_list,
        segment_size,
    );

    assert_eq!(g1_m_expected, got.g1_m.inner);
    assert_eq!(g1_m_div_w_expected, got.g1_m_div_w.inner);
    assert_eq!(g1_q_m_expected, got.g1_q_m.inner);
}

#[test]
fn test_prove() {
    let mut rng = test_rng();
    let pp =
        PublicParameters::setup(&mut rng, 16, 8, 4).expect("Failed to setup public parameters");
    let segments = rand_segments(&pp, &mut rng);
    let t = Table::new(&pp, &segments).expect("Failed to create table");

    let queried_segment_indices: Vec<usize> = (0..pp.num_witness_segments)
        .map(|_| rng.inner.next_u32() as usize % pp.num_table_segments)
        .collect();

    let witness = Witness::new(&pp, &t, &queried_segment_indices).unwrap();

    let tpp = t.preprocess(&pp).unwrap();

    let mut rng = test_rng();

    prove(&pp, &t, &tpp, &witness, &mut rng).unwrap();
}

use ark_poly::EvaluationDomain;
use ark_segmentlookup::kzg::commit_g1;
use ark_segmentlookup::multi_unity::{multi_unity_prove, multi_unity_verify};
use ark_segmentlookup::public_parameters::PublicParameters;
use ark_segmentlookup::curve::G1Affine;
use ark_segmentlookup::scalar::{Rng, Scalar};
use ark_std::rand::rngs::StdRng;
use ark_std::rand::{RngCore, SeedableRng};
use ark_std::UniformRand;

type Fr = ark_bn254::Fr;

const SEED: [u8; 32] = [
    1, 0, 0, 0, 23, 0, 0, 0, 200, 1, 0, 0, 210, 30, 0, 0, 0, 0, 0, 0, 0, 0, 0, 0, 0, 0, 0, 0, 0,
    0, 0, 0,
];

fn test_rng() -> Rng {
    Rng { inner: StdRng::from_seed(SEED) }
}

fn d_poly_of_indices(pp: &PublicParameters, indices: &[usize]) -> Vec<Scalar> {
    let roots_of_unity_w: Vec<Fr> = pp.domain_w.inner().inner.elements().collect();
    let d_evals: Vec<Fr> = indices
        .iter()
        .map(|&seg_index| roots_of_unity_w[seg_index * pp.segment_size])
        .collect();
    let d_coeffs = pp.domain_k.inner().inner.ifft(&d_evals);
    d_coeffs.into_iter().map(|inner| Scalar { inner }).collect()
}

fn commit_affine(pp: &PublicParameters, coeffs: &[Scalar]) -> G1Affine {
    let proj = commit_g1(pp.g1_srs.as_slice(), coeffs);
    G1Affine { inner: ark_ec::CurveGroup::into_affine(proj.inner) }
}

#[test]
fn test_trailing_zero() {
    let num: usize = 8;
    assert_eq!(num.trailing_zeros() as usize, 3);
}

#[test]
fn test_multi_unity_prove() {
    let mut rng = test_rng();
    let pp = PublicParameters::setup(&mut rng, 8, 4, 4)
        .expect("Failed to setup public parameters");

    let queried_segment_indices: Vec<usize> = (0..pp.num_witness_segments)
        .map(|_| rng.inner.next_u32() as usize % pp.num_table_segments)
        .collect();
    let d_poly = d_poly_of_indices(&pp, &queried_segment_indices);

    let alpha = Scalar { inner: Fr::rand(&mut rng.inner) };
    let beta = Scalar { inner: Fr::rand(&mut rng.inner) };

    multi_unity_prove(&pp, &d_poly, &mut rng, alpha, beta).unwrap();
}

#[test]
fn test_multi_unity_verify() {
    let mut rng = test_rng();
    let pp = PublicParameters::setup(&mut rng, 8, 4, 4)
        .expect("Failed to setup public parameters");

    let queried_segment_indices: Vec<usize> = (0..pp.num_witness_segments)
        .map(|_| rng.inner.next_u32() as usize % pp.num_table_segments)
        .collect();
    let d_poly = d_poly_of_indices(&pp, &queried_segment_indices);
    let d_com1 = commit_affine(&pp, &d_poly);

    let alpha = Scalar { inner: Fr::rand(&mut rng.inner) };
    let beta = Scalar { inner: Fr::rand(&mut rng.inner) };

    let multi_unity_proof = multi_unity_prove(&pp, &d_poly, &mut rng, alpha, beta).unwrap();

    assert!(multi_unity_verify(&pp, &d_com1, &multi_unity_proof, &mut rng, alpha, beta));

    // A D polynomial with one evaluation replaced by a non-root must be
    // rejected, both by the verifier against the original proof and by
    // the prover itself.
    let roots_of_unity_w: Vec<Fr> = pp.domain_w.inner().inner.elements().collect();
    let mut incorrect_d_evals: Vec<Fr> = queried_segment_indices
        .iter()
        .map(|&seg_index| roots_of_unity_w[seg_index * pp.segment_size])
        .collect();
    incorrect_d_evals[0] = Fr::from(456u64);
    let incorrect_d_coeffs = pp.domain_k.inner().inner.ifft(&incorrect_d_evals);
    let incorrect_d_poly: Vec<Scalar> =
        incorrect_d_coeffs.into_iter().map(|inner| Scalar { inner }).collect();
    let incorrect_d_com1 = commit_affine(&pp, &incorrect_d_poly);

    assert!(!multi_unity_verify(
        &pp,
        &incorrect_d_com1,
        &multi_unity_proof,
        &mut rng,
        alpha,
        beta
    ));

    assert!(!multi_unity_prove(&pp, &incorrect_d_poly, &mut rng, alpha, beta).is_ok());
}

use ark_poly::EvaluationDomain;
use ark_segmentlookup::error::Error;
use ark_segmentlookup::kzg::commit_g1;
use ark_segmentlookup::multi_unity::{multi_unity_prove, multi_unity_verify};
use ark_segmentlookup::prover::{prove, segment_multiplicities, Proof};
use ark_segmentlookup::public_parameters::PublicParameters;
use ark_segmentlookup::curve::G1Affine;
use ark_segmentlookup::scalar::{Rng, Scalar};
use ark_segmentlookup::table::{rand_segments, Table, TablePreprocessedParameters};
use ark_segmentlookup::verification::verify;
use ark_segmentlookup::transcript::{Transcript, LABEL_ALPHA, LABEL_BETA, LABEL_COMMITMENT};
use ark_segmentlookup::witness::Witness;
use ark_std::rand::rngs::StdRng;
use ark_std::rand::SeedableRng;
use ark_std::UniformRand;

type Fr = ark_bn254::Fr;

const SEED: [u8; 32] = [
    1, 0, 0, 0, 23, 0, 0, 0, 200, 1, 0, 0, 210, 30, 0, 0, 0, 0, 0, 0, 0, 0, 0, 0, 0, 0, 0, 0, 0,
    0, 0, 0,
];

const OTHER_SEED: [u8; 32] = [
    9, 9, 9, 9, 9, 9, 9, 9, 9, 9, 9, 9, 9, 9, 9, 9, 9, 9, 9, 9, 9, 9, 9, 9, 9, 9, 9, 9, 9, 9, 9,
    9,
];

fn rng_from(seed: [u8; 32]) -> Rng {
    Rng { inner: StdRng::from_seed(seed) }
}

/// The challenges the prover derives for the multi-unity rounds: the
/// transcript of the first round's commitments, then the two challenges.
fn unity_challenges(proof: &Proof) -> (Scalar, Scalar) {
    let mut transcript = Transcript::new();
    transcript.append_point(LABEL_COMMITMENT, &proof.g1_m);
    transcript.append_point(LABEL_COMMITMENT, &proof.g1_m_div_w);
    transcript.append_point(LABEL_COMMITMENT, &proof.g1_q_m);
    transcript.append_point(LABEL_COMMITMENT, &proof.g1_l);
    transcript.append_point(LABEL_COMMITMENT, &proof.g1_l_mul_v);
    transcript.append_point(LABEL_COMMITMENT, &proof.g1_q_l);
    transcript.append_point(LABEL_COMMITMENT, &proof.g1_d);
    transcript.append_point(LABEL_COMMITMENT, &proof.g1_q_d);
    let alpha = transcript.get_and_append_challenge(LABEL_ALPHA);
    let beta = transcript.get_and_append_challenge(LABEL_BETA);
    (alpha, beta)
}

fn proof_commitments(proof: &Proof) -> Vec<ark_bn254::G1Affine> {
    vec![
        proof.g1_m.inner,
        proof.g1_m_div_w.inner,
        proof.g1_q_m.inner,
        proof.g1_l.inner,
        proof.g1_l_mul_v.inner,
        proof.g1_q_l.inner,
        proof.g1_d.inner,
        proof.g1_q_d.inner,
        proof.g1_a.inner,
        proof.g1_q_a.inner,
        proof.g1_b.inner,
        proof.multi_unity_proof.u_bar_com1.inner,
        proof.multi_unity_proof.h_1_com1.inner,
        proof.multi_unity_proof.h_2_com1.inner,
        proof.multi_unity_proof.pi_5.inner,
    ]
}

fn prove_for(
    pp: &PublicParameters,
    indices: &Vec<usize>,
    seed: [u8; 32],
) -> (Table, TablePreprocessedParameters, G1Affine, Proof) {
    let mut rng = rng_from(seed);
    let segments = rand_segments(pp, &mut rng);
    let t = Table::new(pp, &segments).unwrap();
    let witness = Witness::new(pp, &t, indices).unwrap();
    let statement = witness.generate_statement(pp.g1_srs.as_slice());
    let tpp = t.preprocess(pp).unwrap();
    let proof = prove(pp, &t, &tpp, &witness, &mut rng).unwrap();
    (t, tpp, statement, proof)
}

/// The trivial-size round trip: parameters for (8, 4, 4), a witness with a
/// repeated segment, a proof, and the multi-unity sub-proof accepted
/// against the proof's own D commitment.
#[test]
fn test_round_trip_trivial_size() {
    let mut rng = rng_from(SEED);
    let pp = PublicParameters::setup(&mut rng, 8, 4, 4).unwrap();
    let indices: Vec<usize> = vec![0, 1, 0, 2];
    let (_t, tpp, statement, proof) = prove_for(&pp, &indices, SEED);

    // The whole bundle verifies against the table and the statement.
    let mut vrng = rng_from(OTHER_SEED);
    assert!(verify(&pp, &tpp, &statement, &proof, &mut vrng));

    let (alpha, beta) = unity_challenges(&proof);
    assert!(multi_unity_verify(
        &pp,
        &proof.g1_d,
        &proof.multi_unity_proof,
        &mut vrng,
        alpha,
        beta
    ));

    // A D commitment for different indices must be rejected with the same
    // sub-proof.
    let roots_w: Vec<Fr> = pp.domain_w.inner().inner.elements().collect();
    let wrong_evals: Vec<Fr> = vec![
        roots_w[4],
        roots_w[4],
        roots_w[4],
        roots_w[4],
    ];
    let wrong_coeffs: Vec<Scalar> = pp
        .domain_k
        .inner()
        .inner
        .ifft(&wrong_evals)
        .into_iter()
        .map(|inner| Scalar { inner })
        .collect();
    let wrong_com = G1Affine {
        inner: ark_ec::CurveGroup::into_affine(
            commit_g1(pp.g1_srs.as_slice(), &wrong_coeffs).inner,
        ),
    };
    assert!(!multi_unity_verify(
        &pp,
        &wrong_com,
        &proof.multi_unity_proof,
        &mut vrng,
        alpha,
        beta
    ));

    // Flipping a single table value and re-verifying the same proof
    // against the re-preprocessed table rejects it.
    let mut rng2 = rng_from(SEED);
    let mut segments = rand_segments(&pp, &mut rng2);
    segments[0][0] = Scalar { inner: Fr::from(456u64) };
    let t_flipped = Table::new(&pp, &segments).unwrap();
    let witness_flipped = Witness::new(&pp, &t_flipped, &indices).unwrap();
    let statement_flipped = witness_flipped.generate_statement(pp.g1_srs.as_slice());
    let tpp_flipped = t_flipped.preprocess(&pp).unwrap();
    assert_ne!(statement.inner, statement_flipped.inner);
    assert!(!verify(&pp, &tpp_flipped, &statement_flipped, &proof, &mut vrng));
    assert!(!verify(&pp, &tpp, &statement_flipped, &proof, &mut vrng));
}

/// Completeness at the smallest non-trivial sizes.
#[test]
fn test_round_trip_small_size() {
    let mut rng = rng_from(SEED);
    let pp = PublicParameters::setup(&mut rng, 4, 2, 2).unwrap();
    let indices: Vec<usize> = vec![3, 3];
    let (_t, tpp, statement, proof) = prove_for(&pp, &indices, SEED);

    let mut vrng = rng_from(OTHER_SEED);
    assert!(verify(&pp, &tpp, &statement, &proof, &mut vrng));
}

/// Determinism: the same randomness source and inputs give identical
/// proofs; a different randomness source gives a different proof that
/// still verifies.
#[test]
fn test_determinism() {
    let mut rng = rng_from(SEED);
    let pp = PublicParameters::setup(&mut rng, 8, 4, 4).unwrap();
    let indices: Vec<usize> = vec![3, 1, 4, 1];
    let segments = rand_segments(&pp, &mut rng);
    let t = Table::new(&pp, &segments).unwrap();
    let witness = Witness::new(&pp, &t, &indices).unwrap();
    let statement = witness.generate_statement(pp.g1_srs.as_slice());
    let tpp = t.preprocess(&pp).unwrap();

    let mut prng = rng_from(OTHER_SEED);
    let proof_a = prove(&pp, &t, &tpp, &witness, &mut prng).unwrap();
    let mut prng = rng_from(OTHER_SEED);
    let proof_b = prove(&pp, &t, &tpp, &witness, &mut prng).unwrap();
    assert_eq!(proof_commitments(&proof_a), proof_commitments(&proof_b));

    let mut prng = rng_from(SEED);
    let proof_c = prove(&pp, &t, &tpp, &witness, &mut prng).unwrap();
    assert_ne!(proof_commitments(&proof_a), proof_commitments(&proof_c));

    let mut vrng = rng_from(SEED);
    assert!(verify(&pp, &tpp, &statement, &proof_a, &mut vrng));
    assert!(verify(&pp, &tpp, &statement, &proof_c, &mut vrng));
}

/// Boundary: a witness touching every table segment once (k = n).
#[test]
fn test_boundary_full_table() {
    let mut rng = rng_from(SEED);
    let pp = PublicParameters::setup(&mut rng, 8, 8, 4).unwrap();
    let indices: Vec<usize> = (0..8).collect();
    let (_t, tpp, statement, proof) = prove_for(&pp, &indices, SEED);

    let mut vrng = rng_from(OTHER_SEED);
    assert!(verify(&pp, &tpp, &statement, &proof, &mut vrng));
}

/// Boundary: every queried index identical, so one segment carries the
/// whole multiplicity.
#[test]
fn test_boundary_single_segment() {
    let mut rng = rng_from(SEED);
    let pp = PublicParameters::setup(&mut rng, 8, 4, 4).unwrap();
    let indices: Vec<usize> = vec![2, 2, 2, 2];

    let multiplicities = segment_multiplicities(&indices, 8).unwrap();
    assert_eq!(multiplicities.len(), 1);
    assert_eq!(multiplicities.get(2), Some(4));

    let (_t, tpp, statement, proof) = prove_for(&pp, &indices, SEED);
    let mut vrng = rng_from(OTHER_SEED);
    assert!(verify(&pp, &tpp, &statement, &proof, &mut vrng));
}

/// Unity-check rejection: a D whose K-domain evaluations are not n-th
/// roots of unity fails proving with the division-remainder error.
#[test]
fn test_unity_rejects_non_roots() {
    let mut rng = rng_from(SEED);
    let pp = PublicParameters::setup(&mut rng, 8, 4, 4).unwrap();
    let bad_evals: Vec<Fr> = vec![
        Fr::from(2u64),
        Fr::from(3u64),
        Fr::from(5u64),
        Fr::from(7u64),
    ];
    let bad_coeffs: Vec<Scalar> = pp
        .domain_k
        .inner()
        .inner
        .ifft(&bad_evals)
        .into_iter()
        .map(|inner| Scalar { inner })
        .collect();
    let alpha = Scalar { inner: Fr::rand(&mut rng.inner) };
    let beta = Scalar { inner: Fr::rand(&mut rng.inner) };
    let res = multi_unity_prove(&pp, &bad_coeffs, &mut rng, alpha, beta);
    assert_eq!(res.err(), Some(Error::RemainderAfterDivisionIsNonZero));
}

/// An out-of-range segment index aborts proving before any commitment
/// work.
#[test]
fn test_prove_rejects_out_of_range_index() {
    let mut rng = rng_from(SEED);
    let pp = PublicParameters::setup(&mut rng, 8, 4, 4).unwrap();
    let segments = rand_segments(&pp, &mut rng);
    let t = Table::new(&pp, &segments).unwrap();
    let good: Vec<usize> = vec![0, 1, 2, 3];
    let witness = Witness::new(&pp, &t, &good).unwrap();
    let tpp = t.preprocess(&pp).unwrap();

    // The prover rejects out-of-range indices in its first round.
    let bad: Vec<usize> = vec![0, 1, 2, 9];
    assert_eq!(
        segment_multiplicities(&bad, pp.num_table_segments).err(),
        Some(Error::InvalidSegmentIndex(9))
    );

    // A well-formed witness still proves.
    assert!(prove(&pp, &t, &tpp, &witness, &mut rng).is_ok());
}

/// Completeness with single-element segments, where the packed chain needs
/// more SRS powers than the table itself.
#[test]
fn test_segment_size_one() {
    let mut rng = rng_from(SEED);
    let pp = PublicParameters::setup(&mut rng, 8, 4, 1).unwrap();
    let indices: Vec<usize> = vec![7, 0, 7, 5];
    let (_t, tpp, statement, proof) = prove_for(&pp, &indices, SEED);

    let mut vrng = rng_from(OTHER_SEED);
    assert!(verify(&pp, &tpp, &statement, &proof, &mut vrng));
}

/// Completeness with more witness segments than table segments.
#[test]
fn test_more_queries_than_segments() {
    let mut rng = rng_from(SEED);
    let pp = PublicParameters::setup(&mut rng, 4, 8, 2).unwrap();
    let indices: Vec<usize> = vec![0, 1, 2, 3, 0, 1, 2, 3];
    let (_t, tpp, statement, proof) = prove_for(&pp, &indices, SEED);

    let mut vrng = rng_from(OTHER_SEED);
    assert!(verify(&pp, &tpp, &statement, &proof, &mut vrng));
}

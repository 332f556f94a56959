use ark_segmentlookup::error::Error;
use ark_segmentlookup::public_parameters::PublicParameters;
use ark_segmentlookup::scalar::Rng;
use ark_std::rand::rngs::StdRng;
use ark_std::rand::SeedableRng;

const SEED: [u8; 32] = [
    1, 0, 0, 0, 23, 0, 0, 0, 200, 1, 0, 0, 210, 30, 0, 0, 0, 0, 0, 0, 0, 0, 0, 0, 0, 0, 0, 0, 0,
    0, 0, 0,
];

fn test_rng() -> Rng {
    Rng { inner: StdRng::from_seed(SEED) }
}

#[test]
fn test_public_parameters_setup() {
    let mut rng = test_rng();
    let pp = PublicParameters::setup(&mut rng, 8, 4, 4).unwrap();
    assert_eq!(pp.num_table_segments, 8);
    assert_eq!(pp.num_witness_segments, 4);
    assert_eq!(pp.segment_size, 4);
    assert_eq!(pp.table_element_size, 32);
    assert_eq!(pp.witness_element_size, 16);
    assert_eq!(pp.domain_w.size(), 32);
    assert_eq!(pp.domain_v.size(), 16);
    assert_eq!(pp.domain_k.size(), 4);
    assert_eq!(pp.log_num_segments, 3);
    assert_eq!(pp.domain_log_n.size(), 4);
    assert_eq!(pp.g1_l_w_list.len(), 32);
    assert_eq!(pp.g1_l_v_list.len(), 16);
    assert_eq!(pp.g2_srs.len(), pp.g1_srs.len() + 1);
}

#[test]
fn test_setup_rejects_invalid_sizes() {
    let mut rng = test_rng();
    assert_eq!(
        PublicParameters::setup(&mut rng, 3, 4, 4).err(),
        Some(Error::InvalidNumberOfSegments(3))
    );
    assert_eq!(
        PublicParameters::setup(&mut rng, 8, 5, 4).err(),
        Some(Error::InvalidNumberOfQueries(5))
    );
    assert_eq!(
        PublicParameters::setup(&mut rng, 8, 4, 6).err(),
        Some(Error::InvalidSegmentSize(6))
    );
    assert_eq!(
        PublicParameters::setup(&mut rng, 0, 4, 4).err(),
        Some(Error::InvalidNumberOfSegments(0))
    );
}

#[test]
fn test_setup_rejects_oversized_domain() {
    // 2^29 exceeds the two-adicity of the BN254 scalar field, so no
    // evaluation domain of that size exists.
    let mut rng = test_rng();
    assert_eq!(
        PublicParameters::setup(&mut rng, 1 << 29, 1, 1).err(),
        Some(Error::FailedToCreateEvaluationDomain)
    );
}

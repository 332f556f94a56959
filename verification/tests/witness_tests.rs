use ark_segmentlookup::error::Error;
use ark_segmentlookup::public_parameters::PublicParameters;
use ark_segmentlookup::scalar::Rng;
use ark_segmentlookup::table::{rand_segments, Table};
use ark_segmentlookup::witness::Witness;
use ark_std::rand::rngs::StdRng;
use ark_std::rand::{RngCore, SeedableRng};

const SEED: [u8; 32] = [
    1, 0, 0, 0, 23, 0, 0, 0, 200, 1, 0, 0, 210, 30, 0, 0, 0, 0, 0, 0, 0, 0, 0, 0, 0, 0, 0, 0, 0,
    0, 0, 0,
];

fn test_rng() -> Rng {
    Rng { inner: StdRng::from_seed(SEED) }
}

#[test]
fn test_witness_new() {
    let mut rng = test_rng();
    let pp = PublicParameters::setup(&mut rng, 8, 4, 4).expect("Failed to setup public parameters");
    let segments = rand_segments(&pp, &mut rng);

    let t = Table::new(&pp, &segments).expect("Failed to create table");

    let queried_segment_indices: Vec<usize> = (0..pp.num_witness_segments)
        .map(|_| rng.inner.next_u32() as usize % pp.num_table_segments)
        .collect();

    Witness::new(&pp, &t, &queried_segment_indices).expect("Failed to create witness");
}

#[test]
fn test_witness_values_follow_segments() {
    let mut rng = test_rng();
    let pp = PublicParameters::setup(&mut rng, 8, 4, 4).unwrap();
    let segments = rand_segments(&pp, &mut rng);
    let t = Table::new(&pp, &segments).unwrap();

    let queried_segment_indices: Vec<usize> = vec![3, 0, 3, 7];
    let witness = Witness::new(&pp, &t, &queried_segment_indices).unwrap();
    assert_eq!(witness.poly_eval_list_f.len(), pp.witness_element_size);
    for (pos, &seg) in queried_segment_indices.iter().enumerate() {
        for j in 0..pp.segment_size {
            let got = witness.poly_eval_list_f[pos * pp.segment_size + j].inner;
            let expected = segments[seg][j].inner;
            assert_eq!(got, expected);
        }
    }
}

#[test]
fn test_witness_rejects_bad_input() {
    let mut rng = test_rng();
    let pp = PublicParameters::setup(&mut rng, 8, 4, 4).unwrap();
    let segments = rand_segments(&pp, &mut rng);
    let t = Table::new(&pp, &segments).unwrap();

    // Wrong number of queried indices.
    let too_few: Vec<usize> = vec![0, 1];
    assert_eq!(
        Witness::new(&pp, &t, &too_few).err(),
        Some(Error::InvalidNumberOfQueries(2))
    );

    // An index outside the table.
    let out_of_range: Vec<usize> = vec![0, 1, 8, 2];
    assert_eq!(
        Witness::new(&pp, &t, &out_of_range).err(),
        Some(Error::InvalidSegmentIndex(8))
    );
}

#[test]
fn test_witness_new_with_padding() {
    let mut rng = test_rng();
    let pp = PublicParameters::setup(&mut rng, 8, 4, 4).unwrap();
    let segments = rand_segments(&pp, &mut rng);
    let t = Table::new(&pp, &segments).unwrap();

    let short: Vec<usize> = vec![5, 2];
    let witness = Witness::new_with_padding(&pp, &t, &short).unwrap();
    assert_eq!(witness.segment_indices, vec![5, 2, 0, 0]);

    let long: Vec<usize> = vec![5, 2, 1, 3, 6, 7];
    let witness = Witness::new_with_padding(&pp, &t, &long).unwrap();
    assert_eq!(witness.segment_indices, vec![5, 2, 1, 3]);
}

#[test]
fn test_table_new_rejects_bad_segments() {
    let mut rng = test_rng();
    let pp = PublicParameters::setup(&mut rng, 8, 4, 4).unwrap();

    let mut too_few = rand_segments(&pp, &mut rng);
    too_few.pop();
    assert_eq!(
        Table::new(&pp, &too_few).err(),
        Some(Error::InvalidNumberOfSegments(7))
    );

    let mut ragged = rand_segments(&pp, &mut rng);
    ragged[2].pop();
    assert_eq!(
        Table::new(&pp, &ragged).err(),
        Some(Error::InvalidSegmentSize(3))
    );
}

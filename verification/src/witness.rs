//! The secret witness: `k` chosen segment indices and, per index, the `s`
//! table values of that segment, assembled into one interpolating
//! polynomial over domain `V`.

use vstd::prelude::*;

use crate::curve::G1Affine;
use crate::curve::g1_into_affine;
use crate::domain::domain_ifft;
use crate::domain::ifft_of;
use crate::error::Error;
use crate::kzg::commit_g1;
use crate::math::lemma_flat_index;
use crate::public_parameters::PublicParameters;
use crate::scalar::Scalar;
use crate::table::Table;

verus! {

/// The index list resized to exactly `k` entries: extended with segment
/// index zero if shorter, truncated if longer.
pub open spec fn padded_indices(queried: Seq<usize>, k: nat) -> Seq<usize> {
    Seq::new(
        k,
        |t: int|
            if t < queried.len() {
                queried[t]
            } else {
                0usize
            },
    )
}

/// A witness for the lookup relation: which table segments were chosen,
/// and the values drawn from them.
pub struct Witness {
    /// The number of chosen segments (`k`).
    pub num_witness_segments: usize,
    /// The number of values per segment (`s`).
    pub segment_size: usize,
    /// The coefficients of the polynomial interpolating the values over `V`.
    pub poly_f: Vec<Scalar>,
    /// The values, position by position: `s` values per chosen segment.
    pub poly_eval_list_f: Vec<Scalar>,
    /// The chosen segment indices.
    pub segment_indices: Vec<usize>,
}

impl Witness {
    /// Size relations of a well-formed witness.
    pub open spec fn wf(&self) -> bool {
        &&& self.num_witness_segments >= 1
        &&& self.segment_size >= 1
        &&& self.segment_indices@.len() == self.num_witness_segments
        &&& self.poly_eval_list_f@.len() == self.num_witness_segments * self.segment_size
        &&& self.poly_f@.len() == self.num_witness_segments * self.segment_size
    }

    /// Builds the witness from the chosen segment indices: rejected when
    /// their count differs from `k` or any index lies outside the table;
    /// otherwise the value at witness position `t * s + j` is the table
    /// value at position `indices[t] * s + j`, and `poly_f` interpolates
    /// those values over `V`.
    pub fn new(pp: &PublicParameters, table: &Table, queried_segment_indices: &Vec<usize>) -> (r:
        Result<Witness, Error>)
        requires
            pp.wf(),
            table.wf(),
            table.num_segments == pp.num_table_segments,
            table.segment_size == pp.segment_size,
        ensures
            r matches Ok(w) ==> {
                &&& w.wf()
                &&& w.num_witness_segments == pp.num_witness_segments
                &&& w.segment_size == pp.segment_size
                &&& w.segment_indices@ == queried_segment_indices@
                &&& forall|t: int|
                    0 <= t < queried_segment_indices@.len()
                        ==> #[trigger] queried_segment_indices@[t] < pp.num_table_segments
                &&& forall|t: int, j: int|
                    0 <= t < pp.num_witness_segments && 0 <= j < pp.segment_size
                        ==> #[trigger] w.poly_eval_list_f@[t * pp.segment_size + j]
                        == table.values@[queried_segment_indices@[t] * pp.segment_size + j]
                &&& w.poly_f@ == ifft_of(
                    w.poly_eval_list_f@,
                    pp.witness_element_size as nat,
                )
            },
            r is Ok <==> queried_segment_indices@.len() == pp.num_witness_segments && (forall|
                t: int,
            |
                0 <= t < queried_segment_indices@.len()
                    ==> #[trigger] queried_segment_indices@[t] < pp.num_table_segments),
            queried_segment_indices@.len() != pp.num_witness_segments ==> r == Err::<
                Witness,
                Error,
            >(Error::InvalidNumberOfQueries(queried_segment_indices@.len() as usize)),
            r matches Err(e) ==> (e == Error::InvalidNumberOfQueries(
                queried_segment_indices@.len() as usize,
            ) || exists|t: int|
                0 <= t < queried_segment_indices@.len() && e == Error::InvalidSegmentIndex(
                    #[trigger] queried_segment_indices@[t],
                )),
    {
        if queried_segment_indices.len() != pp.num_witness_segments {
            return Err(Error::InvalidNumberOfQueries(queried_segment_indices.len()));
        }
        let k = pp.num_witness_segments;
        let s = pp.segment_size;
        let mut evals: Vec<Scalar> = Vec::new();
        let mut t: usize = 0;
        while t < k
            invariant
                t <= k,
                k == pp.num_witness_segments,
                s == pp.segment_size,
                pp.wf(),
                table.wf(),
                table.num_segments == pp.num_table_segments,
                table.segment_size == pp.segment_size,
                queried_segment_indices@.len() == k,
                evals@.len() == t * s,
                forall|u: int|
                    0 <= u < t ==> #[trigger] queried_segment_indices@[u] < pp.num_table_segments,
                forall|u: int, j: int|
                    0 <= u < t && 0 <= j < s ==> #[trigger] evals@[u * s + j]
                        == table.values@[queried_segment_indices@[u] * s + j],
            decreases k - t,
        {
            let seg_index = queried_segment_indices[t];
            if seg_index >= table.num_segments {
                return Err(Error::InvalidSegmentIndex(seg_index));
            }
            proof {
                assert(t * s + s == (t + 1) * s && (t + 1) * s <= k * s && seg_index * s + s
                    <= table.num_segments * table.segment_size) by (nonlinear_arith)
                    requires
                        0 <= t < k,
                        s >= 1,
                        s == table.segment_size,
                        0 <= seg_index < table.num_segments,
                ;
            }
            let n_vals = table.values.len();
            let base = seg_index * s;
            let mut j: usize = 0;
            while j < s
                invariant
                    j <= s,
                    t < k,
                    s >= 1,
                    base == seg_index * s,
                    base + s <= n_vals,
                    n_vals == table.values@.len(),
                    evals@.len() == t * s + j,
                    t * s + s <= k * s,
                    table.wf(),
                    forall|u: int, x: int|
                        0 <= u < t && 0 <= x < s ==> #[trigger] evals@[u * s + x]
                            == table.values@[queried_segment_indices@[u] * s + x],
                    forall|x: int|
                        0 <= x < j ==> #[trigger] evals@[t * s + x] == table.values@[base + x],
                decreases s - j,
            {
                evals.push(table.values[base + j]);
                proof {
                    assert forall|u: int, x: int|
                        0 <= u < t && 0 <= x < s implies #[trigger] evals@[u * s + x]
                        == table.values@[queried_segment_indices@[u] * s + x] by {
                        lemma_flat_index(u, x, t as int, s as int);
                    }
                }
                j = j + 1;
            }
            proof {
                assert forall|u: int, x: int|
                    0 <= u < t + 1 && 0 <= x < s implies #[trigger] evals@[u * s + x]
                    == table.values@[queried_segment_indices@[u] * s + x] by {
                    if u < t {
                        lemma_flat_index(u, x, t as int, s as int);
                    }
                }
            }
            t = t + 1;
        }
        let poly_f = domain_ifft(&pp.domain_v, evals.as_slice());
        let mut segment_indices: Vec<usize> = Vec::new();
        let mut t: usize = 0;
        while t < k
            invariant
                t <= k,
                queried_segment_indices@.len() == k,
                segment_indices@.len() == t,
                forall|u: int|
                    0 <= u < t ==> #[trigger] segment_indices@[u] == queried_segment_indices@[u],
            decreases k - t,
        {
            segment_indices.push(queried_segment_indices[t]);
            t = t + 1;
        }
        proof {
            assert(segment_indices@ =~= queried_segment_indices@);
        }
        Ok(
            Witness {
                num_witness_segments: k,
                segment_size: s,
                poly_f,
                poly_eval_list_f: evals,
                segment_indices,
            },
        )
    }

    /// As [`Witness::new`], with the index list first truncated or padded
    /// with zero indices to length `k`: the result is exactly the witness
    /// of the resized list.
    pub fn new_with_padding(
        pp: &PublicParameters,
        table: &Table,
        queried_segment_indices: &Vec<usize>,
    ) -> (r: Result<Witness, Error>)
        requires
            pp.wf(),
            table.wf(),
            table.num_segments == pp.num_table_segments,
            table.segment_size == pp.segment_size,
        ensures
            r matches Ok(w) ==> {
                &&& w.wf()
                &&& w.num_witness_segments == pp.num_witness_segments
                &&& w.segment_size == pp.segment_size
                &&& w.segment_indices@ == padded_indices(
                    queried_segment_indices@,
                    pp.num_witness_segments as nat,
                )
                &&& forall|t: int, j: int|
                    0 <= t < pp.num_witness_segments && 0 <= j < pp.segment_size
                        ==> #[trigger] w.poly_eval_list_f@[t * pp.segment_size + j]
                        == table.values@[padded_indices(
                        queried_segment_indices@,
                        pp.num_witness_segments as nat,
                    )[t] * pp.segment_size + j]
                &&& w.poly_f@ == ifft_of(
                    w.poly_eval_list_f@,
                    pp.witness_element_size as nat,
                )
            },
            r is Ok <==> (forall|t: int|
                0 <= t < pp.num_witness_segments ==> #[trigger] padded_indices(
                    queried_segment_indices@,
                    pp.num_witness_segments as nat,
                )[t] < pp.num_table_segments),
    {
        let k = pp.num_witness_segments;
        let mut padded: Vec<usize> = Vec::new();
        let mut t: usize = 0;
        while t < k
            invariant
                t <= k,
                padded@.len() == t,
                forall|u: int|
                    0 <= u < t ==> #[trigger] padded@[u] == (if u < queried_segment_indices@.len() {
                        queried_segment_indices@[u]
                    } else {
                        0
                    }),
            decreases k - t,
        {
            if t < queried_segment_indices.len() {
                padded.push(queried_segment_indices[t]);
            } else {
                padded.push(0);
            }
            t = t + 1;
        }
        proof {
            assert(padded@ =~= padded_indices(
                queried_segment_indices@,
                pp.num_witness_segments as nat,
            ));
        }
        Self::new(pp, table, &padded)
    }

    /// The KZG commitment of the witness polynomial: the statement the
    /// proof is about.
    pub fn generate_statement(&self, g1_srs: &[G1Affine]) -> (r: G1Affine)
        requires
            self.poly_f@.len() <= g1_srs@.len(),
        ensures
            r == crate::curve::affine_of(
                crate::curve::msm_of(
                    g1_srs@.subrange(0, self.poly_f@.len() as int),
                    self.poly_f@,
                ),
            ),
    {
        g1_into_affine(&commit_g1(g1_srs, self.poly_f.as_slice()))
    }
}

} // verus!

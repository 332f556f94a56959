//! The public table: `n` contiguous segments of `s` scalar values each,
//! and its one-time preprocessing into per-element opening-proof
//! commitments consumed by the prover's fractional-decomposition round.

use vstd::prelude::*;

use crate::curve::G1Affine;
use crate::curve::G2Affine;
use crate::curve::g2_into_affine;
use crate::kzg::commit_g2;
use crate::domain::divide_by_vanishing_poly;
use crate::domain::domain_ifft;
use crate::error::Error;
use crate::math::lemma_flat_index;
use crate::kzg::commit_g1;
use crate::curve::g1_into_affine;
use crate::poly::poly_mul;
use crate::poly::poly_scale;
use crate::poly::poly_sub;
use crate::public_parameters::PublicParameters;
use crate::scalar::Rng;
use crate::scalar::Scalar;
use crate::scalar::fr_of;
use crate::scalar::fr_one;
use crate::scalar::fr_rand;
use crate::scalar::fr_zero;
use crate::scalar::mul_of;
use crate::curve::affine_of;
use crate::curve::msm_of;
use crate::domain::ifft_of;
use crate::domain::vanishing_quot_of;
use crate::poly::pmul_of;
use crate::poly::psub_of;

verus! {

/// The indicator evaluations of position `i`: one there, zero elsewhere.
pub open spec fn unit_vector(i: int, len: nat) -> Seq<Scalar> {
    Seq::new(
        len,
        |t: int|
            if t == i {
                fr_of(1)
            } else {
                fr_of(0)
            },
    )
}

/// The numerator of the `i`-th preprocessed quotient:
/// `L^W_i(X) * T(X) - t_i * L^W_i(X)`.
pub open spec fn q1_numerator(values: Seq<Scalar>, i: int, ts: nat) -> Seq<Scalar> {
    let l_i = ifft_of(unit_vector(i, ts), ts);
    psub_of(
        pmul_of(l_i, ifft_of(values, ts)),
        Seq::new(l_i.len(), |t: int| mul_of(l_i[t], values[i])),
    )
}

/// The public table of `num_segments * segment_size` scalar values,
/// partitioned into contiguous segments.
pub struct Table {
    /// The number of segments (`n`).
    pub num_segments: usize,
    /// The number of values per segment (`s`).
    pub segment_size: usize,
    /// All values, segment by segment.
    pub values: Vec<Scalar>,
}

/// The preprocessing of a table: the per-element quotient commitments
/// `[Q_{i,1}(tau)]_1` with
/// `L^W_i(X) * T(X) = t_i * L^W_i(X) + Z_W(X) * Q_{i,1}(X)`, and the
/// second-group commitment of the interpolated table itself, which the
/// verifier pairs against `[A(tau)]_1`.
pub struct TablePreprocessedParameters {
    pub g1_q1_list: Vec<G1Affine>,
    pub g2_t: G2Affine,
}

impl Table {
    /// Size relations of a well-formed table.
    pub open spec fn wf(&self) -> bool {
        &&& self.num_segments >= 1
        &&& self.segment_size >= 1
        &&& self.values@.len() == self.num_segments * self.segment_size
    }

    /// Builds the table from its segments: exactly
    /// `pp.num_table_segments` of them, each of `pp.segment_size`
    /// values, flattened in order.
    pub fn new(pp: &PublicParameters, segments: &Vec<Vec<Scalar>>) -> (r: Result<Table, Error>)
        requires
            pp.wf(),
        ensures
            r matches Ok(t) ==> {
                &&& t.wf()
                &&& t.num_segments == pp.num_table_segments
                &&& t.segment_size == pp.segment_size
                &&& t.values@.len() == pp.table_element_size
                &&& forall|i: int, j: int|
                    0 <= i < pp.num_table_segments && 0 <= j < pp.segment_size
                        ==> t.values@[i * pp.segment_size + j] == #[trigger] segments@[i]@[j]
            },
            segments@.len() != pp.num_table_segments ==> r == Err::<Table, Error>(
                Error::InvalidNumberOfSegments(segments@.len() as usize),
            ),
            r is Ok <==> segments@.len() == pp.num_table_segments && (forall|i: int|
                0 <= i < segments@.len() ==> #[trigger] segments@[i]@.len() == pp.segment_size),
            r matches Err(e) ==> (e == Error::InvalidNumberOfSegments(segments@.len() as usize)
                || exists|i: int|
                0 <= i < segments@.len() && e == Error::InvalidSegmentSize(
                    #[trigger] segments@[i]@.len() as usize,
                )),
    {
        if segments.len() != pp.num_table_segments {
            return Err(Error::InvalidNumberOfSegments(segments.len()));
        }
        let s = pp.segment_size;
        let mut values: Vec<Scalar> = Vec::new();
        let mut i: usize = 0;
        while i < segments.len()
            invariant
                i <= segments@.len(),
                segments@.len() == pp.num_table_segments,
                s == pp.segment_size,
                values@.len() == i * s,
                forall|t: int, j: int|
                    0 <= t < i && 0 <= j < s ==> values@[t * s + j] == #[trigger] segments@[t]@[j],
                forall|t: int| 0 <= t < i ==> #[trigger] segments@[t]@.len() == s,
            decreases segments@.len() - i,
        {
            let seg = &segments[i];
            if seg.len() != s {
                return Err(Error::InvalidSegmentSize(seg.len()));
            }
            proof {
                assert(i * s + s == (i + 1) * s && (i + 1) * s <= segments@.len() * s)
                    by (nonlinear_arith)
                    requires
                        0 <= i < segments@.len(),
                        s >= 0,
                ;
            }
            let mut j: usize = 0;
            while j < s
                invariant
                    j <= s,
                    i < segments@.len(),
                    seg@ == segments@[i as int]@,
                    seg@.len() == s,
                    values@.len() == i * s + j,
                    i * s + s <= segments@.len() * s,
                    forall|t: int, u: int|
                        0 <= t < i && 0 <= u < s ==> values@[t * s + u] == #[trigger] segments@[t]@[u],
                    forall|u: int| 0 <= u < j ==> values@[i * s + u] == #[trigger] seg@[u],
                decreases s - j,
            {
                values.push(seg[j]);
                proof {
                    assert forall|t: int, u: int| 0 <= t < i && 0 <= u < s implies values@[t * s
                        + u] == #[trigger] segments@[t]@[u] by {
                        lemma_flat_index(t, u, i as int, s as int);
                    }
                }
                j = j + 1;
            }
            proof {
                assert forall|t: int, u: int| 0 <= t < i + 1 && 0 <= u < s implies values@[t * s
                    + u] == #[trigger] segments@[t]@[u] by {
                    if t < i {
                        lemma_flat_index(t, u, i as int, s as int);
                    }
                }
            }
            i = i + 1;
        }
        proof {
            assert(values@.len() == pp.num_table_segments * pp.segment_size);
        }
        Ok(Table { num_segments: pp.num_table_segments, segment_size: s, values })
    }

    /// Preprocesses the table: for every position `i`, the commitment of
    /// the quotient `(L^W_i(X) * (T(X) - t_i)) / Z_W(X)`, where `T`
    /// interpolates the table over `W`.
    pub fn preprocess(&self, pp: &PublicParameters) -> (r: Result<
        TablePreprocessedParameters,
        Error,
    >)
        requires
            pp.wf(),
            self.wf(),
            self.num_segments == pp.num_table_segments,
            self.segment_size == pp.segment_size,
            2 * pp.table_element_size <= crate::public_parameters::MAX_DOMAIN_SIZE,
        ensures
            r is Ok,
            r matches Ok(tpp) ==> tpp.g1_q1_list@.len() == pp.table_element_size,
            r matches Ok(tpp) ==> (forall|i: int|
                0 <= i < pp.table_element_size ==> #[trigger] tpp.g1_q1_list@[i] == affine_of(
                    msm_of(
                        pp.g1_srs@.subrange(
                            0,
                            vanishing_quot_of(
                                q1_numerator(
                                    self.values@,
                                    i,
                                    pp.table_element_size as nat,
                                ),
                                pp.table_element_size as nat,
                            ).len() as int,
                        ),
                        vanishing_quot_of(
                            q1_numerator(self.values@, i, pp.table_element_size as nat),
                            pp.table_element_size as nat,
                        ),
                    ),
                )),
            r matches Ok(tpp) ==> tpp.g2_t == crate::curve::affine_g2_of(
                crate::curve::msm_g2_of(
                    pp.g2_srs@.subrange(0, crate::domain::ifft_of(
                        self.values@,
                        pp.table_element_size as nat,
                    ).len() as int),
                    crate::domain::ifft_of(self.values@, pp.table_element_size as nat),
                ),
            ),
    {
        let ts = pp.table_element_size;
        let t_coeffs = domain_ifft(&pp.domain_w, self.values.as_slice());
        let g2_t = g2_into_affine(&commit_g2(pp.g2_srs.as_slice(), t_coeffs.as_slice()));
        let mut g1_q1_list: Vec<G1Affine> = Vec::new();
        let mut i: usize = 0;
        while i < ts
            invariant
                i <= ts,
                ts == pp.table_element_size,
                2 * ts <= crate::public_parameters::MAX_DOMAIN_SIZE,
                pp.wf(),
                self.wf(),
                self.num_segments == pp.num_table_segments,
                self.segment_size == pp.segment_size,
                t_coeffs@.len() == ts,
                t_coeffs@ == ifft_of(self.values@, ts as nat),
                g1_q1_list@.len() == i,
                forall|u: int|
                    0 <= u < i ==> #[trigger] g1_q1_list@[u] == affine_of(
                        msm_of(
                            pp.g1_srs@.subrange(
                                0,
                                vanishing_quot_of(
                                    q1_numerator(self.values@, u, ts as nat),
                                    ts as nat,
                                ).len() as int,
                            ),
                            vanishing_quot_of(q1_numerator(self.values@, u, ts as nat), ts as nat),
                        ),
                    ),
            decreases ts - i,
        {
            let mut unit: Vec<Scalar> = Vec::new();
            let mut t: usize = 0;
            while t < ts
                invariant
                    t <= ts,
                    i < ts,
                    unit@.len() == t,
                    forall|u: int|
                        0 <= u < t ==> #[trigger] unit@[u] == (if u == i {
                            fr_of(1)
                        } else {
                            fr_of(0)
                        }),
                decreases ts - t,
            {
                if t == i {
                    unit.push(fr_one());
                } else {
                    unit.push(fr_zero());
                }
                t = t + 1;
            }
            proof {
                assert(unit@ =~= unit_vector(i as int, ts as nat));
            }
            let l_i = domain_ifft(&pp.domain_w, unit.as_slice());
            let prod = poly_mul(l_i.as_slice(), t_coeffs.as_slice());
            let scaled = poly_scale(l_i.as_slice(), &self.values[i]);
            proof {
                assert(scaled@ =~= Seq::new(
                    ifft_of(unit_vector(i as int, ts as nat), ts as nat).len(),
                    |t: int|
                        mul_of(
                            ifft_of(unit_vector(i as int, ts as nat), ts as nat)[t],
                            self.values@[i as int],
                        ),
                ));
            }
            let num = poly_sub(prod.as_slice(), scaled.as_slice());
            let (q, _rem) = match divide_by_vanishing_poly(&pp.domain_w, num.as_slice()) {
                Some(t) => t,
                None => vstd::pervasive::unreached(),
            };
            g1_q1_list.push(g1_into_affine(&commit_g1(pp.g1_srs.as_slice(), q.as_slice())));
            i = i + 1;
        }
        Ok(TablePreprocessedParameters { g1_q1_list, g2_t })
    }
}

/// Random table segments of the sizes the parameters call for; used by
/// tests and drivers.
pub fn rand_segments(pp: &PublicParameters, rng: &mut Rng) -> (r: Vec<Vec<Scalar>>)
    ensures
        r@.len() == pp.num_table_segments,
        forall|i: int| 0 <= i < r@.len() ==> #[trigger] r@[i]@.len() == pp.segment_size,
{
    let mut segments: Vec<Vec<Scalar>> = Vec::new();
    let mut i: usize = 0;
    while i < pp.num_table_segments
        invariant
            i <= pp.num_table_segments,
            segments@.len() == i,
            forall|t: int| 0 <= t < i ==> #[trigger] segments@[t]@.len() == pp.segment_size,
        decreases pp.num_table_segments - i,
    {
        let mut seg: Vec<Scalar> = Vec::new();
        let mut j: usize = 0;
        while j < pp.segment_size
            invariant
                j <= pp.segment_size,
                seg@.len() == j,
            decreases pp.segment_size - j,
        {
            seg.push(fr_rand(rng));
            j = j + 1;
        }
        segments.push(seg);
        i = i + 1;
    }
    segments
}

} // verus!

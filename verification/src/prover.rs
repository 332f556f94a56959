//! The prover: multiplicity and index polynomial commitments assembled by
//! sparse linear combinations over the precomputed tables, the multi-unity
//! sub-proof for segment alignment, and the fractional-decomposition
//! commitments encoding the log-derivative form of the lookup relation.

use vstd::prelude::*;

use crate::curve::G1Affine;
use crate::curve::affine_of;
use crate::curve::g1_add;
use crate::curve::msm_of;
use crate::curve::g1_into_affine;
use crate::curve::g1_msm;
use crate::curve::g1_mul;
use crate::curve::g1_zero;
use crate::domain::divide_by_vanishing_poly;
use crate::domain::domain_ifft;
use crate::domain::ifft_of;
use crate::domain::vanishing_quot_of;
use crate::domain::vanishing_rem_of;
use crate::domain::roots_of;
use crate::domain::roots_of_unity;
use crate::error::Error;
use crate::kzg::commit_g1;
use crate::multi_unity::MultiUnityProof;
use crate::multi_unity::multi_unity_prove;
use crate::poly::is_zero_poly_of;
use crate::poly::pmul_of;
use crate::poly::poly_add;
use crate::poly::poly_is_zero;
use crate::poly::psub_of;
use crate::poly::poly_scale;
use crate::poly::poly_sub;
use crate::poly::poly_mul;
use crate::public_parameters::PublicParameters;
use crate::scalar::Rng;
use crate::scalar::Scalar;
use crate::scalar::add_of;
use crate::scalar::fr_add;
use crate::scalar::fr_from_u64;
use crate::scalar::fr_of;
use crate::scalar::mul_of;
use crate::scalar::pow_of;
use crate::scalar::fr_inverse;
use crate::scalar::fr_mul;
use crate::scalar::fr_neg;
use crate::scalar::neg_of;
use crate::scalar::fr_one;
use crate::scalar::fr_pow_u64;
use crate::table::Table;
use crate::table::TablePreprocessedParameters;
use crate::transcript::LABEL_ALPHA;
use crate::transcript::LABEL_COMMITMENT;
use crate::transcript::LABEL_BETA;
use crate::transcript::LABEL_FRACTION_BETA;
use crate::transcript::LABEL_FRACTION_DELTA;
use crate::transcript::Transcript;
use crate::witness::Witness;

verus! {

/// How often `v` occurs in `s`.
pub open spec fn count_in(s: Seq<usize>, v: usize) -> nat
    decreases s.len(),
{
    if s.len() == 0 {
        0
    } else {
        count_in(s.drop_last(), v) + (if s.last() == v {
            1nat
        } else {
            0nat
        })
    }
}

/// The sum of a sequence of counts.
pub open spec fn sum_of(s: Seq<usize>) -> nat
    decreases s.len(),
{
    if s.len() == 0 {
        0
    } else {
        sum_of(s.drop_last()) + s.last() as nat
    }
}

pub proof fn lemma_count_push(s: Seq<usize>, x: usize, v: usize)
    ensures
        count_in(s.push(x), v) == count_in(s, v) + (if x == v {
            1nat
        } else {
            0nat
        }),
{
    assert(s.push(x).drop_last() =~= s);
}

pub proof fn lemma_count_le_len(s: Seq<usize>, v: usize)
    ensures
        count_in(s, v) <= s.len(),
    decreases s.len(),
{
    if s.len() > 0 {
        lemma_count_le_len(s.drop_last(), v);
    }
}

pub proof fn lemma_count_zero(s: Seq<usize>, v: usize)
    requires
        !s.contains(v),
    ensures
        count_in(s, v) == 0,
    decreases s.len(),
{
    if s.len() > 0 {
        assert(!s.drop_last().contains(v)) by {
            if s.drop_last().contains(v) {
                let i = choose|i: int| 0 <= i < s.drop_last().len() && s.drop_last()[i] == v;
                assert(s[i] == v);
            }
        }
        lemma_count_zero(s.drop_last(), v);
    }
}

/// In a sequence of equal values, the count of that value is the length.
pub proof fn lemma_count_all_equal(s: Seq<usize>, v: usize)
    requires
        forall|t: int| 0 <= t < s.len() ==> s[t] == v,
    ensures
        count_in(s, v) == s.len(),
    decreases s.len(),
{
    if s.len() > 0 {
        lemma_count_all_equal(s.drop_last(), v);
    }
}

pub proof fn lemma_contains_push(s: Seq<usize>, x: usize, v: usize)
    ensures
        s.push(x).contains(v) <==> (s.contains(v) || v == x),
{
    if s.contains(v) {
        let i = choose|i: int| 0 <= i < s.len() && s[i] == v;
        assert(s.push(x)[i] == v);
    }
    if v == x {
        assert(s.push(x)[s.len() as int] == v);
    }
    if s.push(x).contains(v) {
        let i = choose|i: int| 0 <= i < s.push(x).len() && s.push(x)[i] == v;
        if i < s.len() {
            assert(s[i] == v);
        }
    }
}

pub proof fn lemma_sum_push(s: Seq<usize>, x: usize)
    ensures
        sum_of(s.push(x)) == sum_of(s) + x,
{
    assert(s.push(x).drop_last() =~= s);
}

pub proof fn lemma_sum_update_inc(s: Seq<usize>, j: int)
    requires
        0 <= j < s.len(),
        s[j] < usize::MAX,
    ensures
        sum_of(s.update(j, (s[j] + 1) as usize)) == sum_of(s) + 1,
    decreases s.len(),
{
    let nv = (s[j] + 1) as usize;
    if j == s.len() - 1 {
        assert(s.update(j, nv).drop_last() =~= s.drop_last());
    } else {
        assert(s.update(j, nv).drop_last() =~= s.drop_last().update(j, nv));
        lemma_sum_update_inc(s.drop_last(), j);
    }
}

/// The sparse multiplicity map: which table segments the witness touches,
/// and how often. `indices` holds each touched segment once, in order of
/// first occurrence; `counts` holds the matching occurrence counts.
pub struct Multiplicities {
    pub indices: Vec<usize>,
    pub counts: Vec<usize>,
}

impl Multiplicities {
    /// Parallel vectors, each touched segment listed once.
    pub open spec fn wf(&self) -> bool {
        &&& self.indices@.len() == self.counts@.len()
        &&& forall|a: int, b: int|
            0 <= a < b < self.indices@.len() ==> #[trigger] self.indices@[a]
                != #[trigger] self.indices@[b]
    }

    /// Exactly the multiplicity map of `queried`, all indices below
    /// `bound`.
    pub open spec fn is_multiplicities_of(&self, queried: Seq<usize>, bound: usize) -> bool {
        &&& self.wf()
        &&& forall|j: int| 0 <= j < self.indices@.len() ==> #[trigger] self.indices@[j] < bound
        &&& forall|j: int|
            0 <= j < self.indices@.len() ==> #[trigger] self.counts@[j] == count_in(
                queried,
                self.indices@[j],
            )
        &&& forall|v: usize| #[trigger] queried.contains(v) <==> self.indices@.contains(v)
    }

    /// The number of distinct touched segments.
    pub fn len(&self) -> (r: usize)
        ensures
            r == self.indices@.len(),
    {
        self.indices.len()
    }

    /// The count recorded for segment `seg`, or `None` when the witness
    /// does not touch it.
    pub fn get(&self, seg: usize) -> (r: Option<usize>)
        requires
            self.wf(),
        ensures
            r matches Some(c) ==> self.indices@.contains(seg) && exists|j: int|
                0 <= j < self.indices@.len() && self.indices@[j] == seg && c
                    == #[trigger] self.counts@[j],
            r is None ==> !self.indices@.contains(seg),
    {
        let mut j: usize = 0;
        while j < self.indices.len()
            invariant
                j <= self.indices@.len(),
                self.wf(),
                forall|t: int| 0 <= t < j ==> #[trigger] self.indices@[t] != seg,
            decreases self.indices@.len() - j,
        {
            if self.indices[j] == seg {
                return Some(self.counts[j]);
            }
            j = j + 1;
        }
        proof {
            if self.indices@.contains(seg) {
                let t = choose|t: int|
                    0 <= t < self.indices@.len() && self.indices@[t] == seg;
                assert(self.indices@[t] != seg);
            }
        }
        None
    }
}

/// Computes the occurrence count of every queried segment index: the
/// result is exactly the multiplicity map of the queried indices, its
/// counts summing to their number. Rejected exactly when an index lies
/// outside the table.
pub fn segment_multiplicities(queried_segment_indices: &Vec<usize>, num_segments: usize) -> (r:
    Result<Multiplicities, Error>)
    ensures
        r matches Ok(m) ==> m.is_multiplicities_of(queried_segment_indices@, num_segments),
        r matches Ok(m) ==> sum_of(m.counts@) == queried_segment_indices@.len(),
        r is Ok <==> (forall|t: int|
            0 <= t < queried_segment_indices@.len() ==> #[trigger] queried_segment_indices@[t]
                < num_segments),
        r matches Err(e) ==> exists|t: int|
            0 <= t < queried_segment_indices@.len() && #[trigger] queried_segment_indices@[t]
                >= num_segments && e == Error::InvalidSegmentIndex(queried_segment_indices@[t]),
{
    let ghost q = queried_segment_indices@;
    let n_queries = queried_segment_indices.len();
    let mut indices: Vec<usize> = Vec::new();
    let mut counts: Vec<usize> = Vec::new();
    let mut t: usize = 0;
    while t < n_queries
        invariant
            t <= n_queries,
            n_queries == q.len(),
            q == queried_segment_indices@,
            indices@.len() == counts@.len(),
            forall|a: int, b: int|
                0 <= a < b < indices@.len() ==> #[trigger] indices@[a] != #[trigger] indices@[b],
            forall|j: int| 0 <= j < indices@.len() ==> #[trigger] indices@[j] < num_segments,
            forall|j: int|
                0 <= j < indices@.len() ==> #[trigger] counts@[j] == count_in(
                    q.subrange(0, t as int),
                    indices@[j],
                ),
            forall|v: usize| #[trigger]
                q.subrange(0, t as int).contains(v) <==> indices@.contains(v),
            sum_of(counts@) == t,
            forall|u: int| 0 <= u < t ==> #[trigger] q[u] < num_segments,
        decreases n_queries - t,
    {
        let x = queried_segment_indices[t];
        if x >= num_segments {
            return Err(Error::InvalidSegmentIndex(x));
        }
        let ghost prefix = q.subrange(0, t as int);
        proof {
            assert(q.subrange(0, t + 1) =~= prefix.push(x));
        }
        // Find the entry for x, if any.
        let mut j: usize = 0;
        let mut found = false;
        while j < indices.len() && !found
            invariant
                j <= indices@.len(),
                indices@.len() == counts@.len(),
                found ==> j < indices@.len() && indices@[j as int] == x,
                !found ==> forall|u: int| 0 <= u < j ==> #[trigger] indices@[u] != x,
            decreases indices@.len() - j + (if found {
                0int
            } else {
                1int
            }),
        {
            if indices[j] == x {
                found = true;
            } else {
                j = j + 1;
            }
        }
        if found {
            proof {
                lemma_count_le_len(prefix, x);
                assert(counts@[j as int] < usize::MAX);
                lemma_sum_update_inc(counts@, j as int);
                assert forall|v: usize| #[trigger]
                    prefix.push(x).contains(v) <==> indices@.contains(v) by {
                    lemma_contains_push(prefix, x, v);
                }
            }
            let c = counts[j];
            counts.set(j, c + 1);
            proof {
                assert forall|u: int| 0 <= u < indices@.len() implies #[trigger] counts@[u]
                    == count_in(prefix.push(x), indices@[u]) by {
                    lemma_count_push(prefix, x, indices@[u]);
                }
            }
        } else {
            proof {
                assert(!indices@.contains(x)) by {
                    if indices@.contains(x) {
                        let u = choose|u: int|
                            0 <= u < indices@.len() && indices@[u] == x;
                        assert(indices@[u] != x);
                    }
                }
                assert(!prefix.contains(x));
                lemma_count_zero(prefix, x);
                lemma_sum_push(counts@, 1);
                assert forall|v: usize| #[trigger]
                    prefix.push(x).contains(v) <==> indices@.push(x).contains(v) by {
                    lemma_contains_push(prefix, x, v);
                    lemma_contains_push(indices@, x, v);
                }
                assert forall|u: int| 0 <= u < indices@.len() implies count_in(
                    prefix.push(x),
                    indices@[u],
                ) == count_in(prefix, indices@[u]) by {
                    lemma_count_push(prefix, x, indices@[u]);
                    assert(indices@.contains(indices@[u]));
                }
                lemma_count_push(prefix, x, x);
            }
            indices.push(x);
            counts.push(1);
        }
        t = t + 1;
    }
    proof {
        assert(q.subrange(0, t as int) =~= q);
    }
    Ok(Multiplicities { indices, counts })
}

/// A witness that queries one segment only has a multiplicity map of one
/// entry, carrying the full query count.
pub proof fn lemma_single_segment_multiplicity(
    m: Multiplicities,
    queried: Seq<usize>,
    bound: usize,
    i0: usize,
)
    requires
        m.is_multiplicities_of(queried, bound),
        queried.len() >= 1,
        forall|t: int| 0 <= t < queried.len() ==> queried[t] == i0,
    ensures
        m.indices@.len() == 1,
        m.indices@[0] == i0,
        m.counts@[0] == queried.len(),
{
    assert(queried.contains(i0)) by {
        assert(queried[0] == i0);
    }
    assert(m.indices@.contains(i0));
    let j = choose|j: int| 0 <= j < m.indices@.len() && m.indices@[j] == i0;
    assert forall|u: int| 0 <= u < m.indices@.len() implies m.indices@[u] == i0 by {
        assert(m.indices@.contains(m.indices@[u]));
        assert(queried.contains(m.indices@[u]));
        let t = choose|t: int| 0 <= t < queried.len() && queried[t] == m.indices@[u];
    }
    if m.indices@.len() >= 2 {
        assert(m.indices@[0] == i0 && m.indices@[1] == i0);
        assert(false);
    }
    lemma_count_all_equal(queried, i0);
}

/// In a sequence of pairwise distinct values, a contained value occurs
/// exactly once.
pub proof fn lemma_count_injective(s: Seq<usize>, v: usize)
    requires
        forall|a: int, b: int| #![trigger s[a], s[b]] 0 <= a < b < s.len() ==> s[a] != s[b],
        s.contains(v),
    ensures
        count_in(s, v) == 1,
    decreases s.len(),
{
    let last = (s.len() - 1) as int;
    if s.last() == v {
        assert(!s.drop_last().contains(v)) by {
            if s.drop_last().contains(v) {
                let i = choose|i: int| 0 <= i < s.drop_last().len() && s.drop_last()[i] == v;
                assert(s[i] == v && s[last] == v);
            }
        }
        lemma_count_zero(s.drop_last(), v);
    } else {
        assert(s.drop_last().contains(v)) by {
            let i = choose|i: int| 0 <= i < s.len() && s[i] == v;
            assert(s.drop_last()[i] == v);
        }
        lemma_count_injective(s.drop_last(), v);
    }
}

/// A witness that touches every queried segment once — pairwise distinct
/// queried indices, as when it spans the whole table — has every
/// multiplicity equal to one.
pub proof fn lemma_distinct_segment_multiplicities(
    m: Multiplicities,
    queried: Seq<usize>,
    bound: usize,
)
    requires
        m.is_multiplicities_of(queried, bound),
        forall|a: int, b: int|
            #![trigger queried[a], queried[b]]
            0 <= a < b < queried.len() ==> queried[a] != queried[b],
    ensures
        forall|j: int| 0 <= j < m.counts@.len() ==> #[trigger] m.counts@[j] == 1,
{
    assert forall|j: int| 0 <= j < m.counts@.len() implies #[trigger] m.counts@[j] == 1 by {
        assert(m.indices@.contains(m.indices@[j]));
        assert(queried.contains(m.indices@[j]));
        lemma_count_injective(queried, m.indices@[j]);
    }
}

/// The per-position bases of a sparse linear combination: for each touched
/// segment in order, its `s` consecutive entries of `list`.
pub open spec fn expanded_bases(list: Seq<G1Affine>, indices: Seq<usize>, s: nat) -> Seq<
    G1Affine,
> {
    Seq::new(
        indices.len() * s,
        |x: int| list[indices[x / (s as int)] * (s as int) + x % (s as int)],
    )
}

/// The matching scalars: each segment's multiplicity, embedded into the
/// field and repeated `s` times.
pub open spec fn expanded_counts(counts: Seq<usize>, s: nat) -> Seq<Scalar> {
    Seq::new(counts.len() * s, |x: int| fr_of(counts[x / (s as int)] as u64))
}

/// The same scalars, negated.
pub open spec fn expanded_neg_counts(counts: Seq<usize>, s: nat) -> Seq<Scalar> {
    Seq::new(counts.len() * s, |x: int| neg_of(fr_of(counts[x / (s as int)] as u64)))
}

/// The concatenation of two point lists.
fn concat_points(a: &Vec<G1Affine>, b: &Vec<G1Affine>) -> (r: Vec<G1Affine>)
    ensures
        r@ == a@ + b@,
{
    let mut out: Vec<G1Affine> = Vec::new();
    let mut i: usize = 0;
    while i < a.len()
        invariant
            i <= a@.len(),
            out@ =~= a@.subrange(0, i as int),
        decreases a@.len() - i,
    {
        out.push(a[i]);
        i = i + 1;
    }
    let mut i: usize = 0;
    while i < b.len()
        invariant
            i <= b@.len(),
            out@ =~= a@ + b@.subrange(0, i as int),
        decreases b@.len() - i,
    {
        out.push(b[i]);
        i = i + 1;
    }
    proof {
        assert(out@ =~= a@ + b@);
    }
    out
}

/// The concatenation of two scalar lists.
fn concat_scalars(a: &Vec<Scalar>, b: &Vec<Scalar>) -> (r: Vec<Scalar>)
    ensures
        r@ == a@ + b@,
{
    let mut out: Vec<Scalar> = Vec::new();
    let mut i: usize = 0;
    while i < a.len()
        invariant
            i <= a@.len(),
            out@ =~= a@.subrange(0, i as int),
        decreases a@.len() - i,
    {
        out.push(a[i]);
        i = i + 1;
    }
    let mut i: usize = 0;
    while i < b.len()
        invariant
            i <= b@.len(),
            out@ =~= a@ + b@.subrange(0, i as int),
        decreases b@.len() - i,
    {
        out.push(b[i]);
        i = i + 1;
    }
    proof {
        assert(out@ =~= a@ + b@);
    }
    out
}

/// The multiplicity commitments: `[M(tau)]_1`, `[M(tau / w)]_1` and
/// `[Q_M(tau)]_1`.
pub struct MultiplicityPolynomialsAndQuotient {
    pub g1_m: G1Affine,
    pub g1_m_div_w: G1Affine,
    pub g1_q_m: G1Affine,
}

/// Assembles `[M(tau)]_1`, `[M(tau / w)]_1` and `[Q_M(tau)]_1` as sparse
/// linear combinations of the precomputed per-position commitments, at a
/// cost proportional to the number of distinct queried segments: each
/// result is exactly the multi-scalar multiplication of the touched
/// positions' commitments by the (negated, for the fourth quotient
/// family) multiplicities.
pub fn multiplicity_polynomials_and_quotient_g1(
    multiplicities: &Multiplicities,
    g1_l_w_list: &Vec<G1Affine>,
    g1_l_w_div_w_list: &Vec<G1Affine>,
    g1_q3_list: &Vec<G1Affine>,
    g1_q4_list: &Vec<G1Affine>,
    segment_size: usize,
) -> (r: MultiplicityPolynomialsAndQuotient)
    requires
        multiplicities.wf(),
        segment_size >= 1,
        g1_l_w_div_w_list@.len() == g1_l_w_list@.len(),
        g1_q3_list@.len() == g1_l_w_list@.len(),
        g1_q4_list@.len() == g1_l_w_list@.len(),
        forall|j: int|
            0 <= j < multiplicities.indices@.len() ==> (#[trigger] multiplicities.indices@[j] + 1)
                * segment_size <= g1_l_w_list@.len(),
    ensures
        r.g1_m == affine_of(
            msm_of(
                expanded_bases(g1_l_w_list@, multiplicities.indices@, segment_size as nat),
                expanded_counts(multiplicities.counts@, segment_size as nat),
            ),
        ),
        r.g1_m_div_w == affine_of(
            msm_of(
                expanded_bases(g1_l_w_div_w_list@, multiplicities.indices@, segment_size as nat),
                expanded_counts(multiplicities.counts@, segment_size as nat),
            ),
        ),
        r.g1_q_m == affine_of(
            msm_of(
                expanded_bases(g1_q3_list@, multiplicities.indices@, segment_size as nat)
                    + expanded_bases(g1_q4_list@, multiplicities.indices@, segment_size as nat),
                expanded_counts(multiplicities.counts@, segment_size as nat)
                    + expanded_neg_counts(multiplicities.counts@, segment_size as nat),
            ),
        ),
{
    let list_len = g1_l_w_list.len();
    let d = multiplicities.indices.len();
    let s = segment_size;
    let mut bases_m: Vec<G1Affine> = Vec::new();
    let mut bases_m_div_w: Vec<G1Affine> = Vec::new();
    let mut bases_q3: Vec<G1Affine> = Vec::new();
    let mut bases_q4: Vec<G1Affine> = Vec::new();
    let mut count_scalars: Vec<Scalar> = Vec::new();
    let mut neg_count_scalars: Vec<Scalar> = Vec::new();
    let mut j: usize = 0;
    while j < d
        invariant
            j <= d,
            d == multiplicities.indices@.len(),
            multiplicities.wf(),
            s == segment_size,
            s >= 1,
            list_len == g1_l_w_list@.len(),
            g1_l_w_div_w_list@.len() == list_len,
            g1_q3_list@.len() == list_len,
            g1_q4_list@.len() == list_len,
            forall|u: int|
                0 <= u < d ==> (#[trigger] multiplicities.indices@[u] + 1) * segment_size
                    <= list_len,
            bases_m@.len() == j * s,
            bases_m_div_w@.len() == j * s,
            bases_q3@.len() == j * s,
            bases_q4@.len() == j * s,
            count_scalars@.len() == j * s,
            neg_count_scalars@.len() == j * s,
            forall|x: int|
                0 <= x < j * s ==> #[trigger] bases_m@[x] == g1_l_w_list@[multiplicities.indices@[x
                    / (s as int)] * (s as int) + x % (s as int)],
            forall|x: int|
                0 <= x < j * s ==> #[trigger] bases_m_div_w@[x]
                    == g1_l_w_div_w_list@[multiplicities.indices@[x / (s as int)] * (s as int) + x
                    % (s as int)],
            forall|x: int|
                0 <= x < j * s ==> #[trigger] bases_q3@[x]
                    == g1_q3_list@[multiplicities.indices@[x / (s as int)] * (s as int) + x % (
                s as int)],
            forall|x: int|
                0 <= x < j * s ==> #[trigger] bases_q4@[x]
                    == g1_q4_list@[multiplicities.indices@[x / (s as int)] * (s as int) + x % (
                s as int)],
            forall|x: int|
                0 <= x < j * s ==> #[trigger] count_scalars@[x] == fr_of(
                    multiplicities.counts@[x / (s as int)] as u64,
                ),
            forall|x: int|
                0 <= x < j * s ==> #[trigger] neg_count_scalars@[x] == neg_of(
                    fr_of(multiplicities.counts@[x / (s as int)] as u64),
                ),
        decreases d - j,
    {
        let i = multiplicities.indices[j];
        let fr_mult = fr_from_u64(multiplicities.counts[j] as u64);
        let neg_mult = fr_neg(fr_mult);
        proof {
            assert(i * s + s == (i + 1) * s) by (nonlinear_arith);
            assert((i + 1) * s <= list_len);
            assert(j * s + s == (j + 1) * s) by (nonlinear_arith);
        }
        let base = i * s;
        let mut e: usize = 0;
        while e < s
            invariant
                e <= s,
                j < d,
                d == multiplicities.indices@.len(),
                multiplicities.wf(),
                s >= 1,
                base == i * s,
                i == multiplicities.indices@[j as int],
                fr_mult == fr_of(multiplicities.counts@[j as int] as u64),
                neg_mult == neg_of(fr_of(multiplicities.counts@[j as int] as u64)),
                base + s <= list_len,
                list_len == g1_l_w_list@.len(),
                g1_l_w_div_w_list@.len() == list_len,
                g1_q3_list@.len() == list_len,
                g1_q4_list@.len() == list_len,
                bases_m@.len() == j * s + e,
                bases_m_div_w@.len() == j * s + e,
                bases_q3@.len() == j * s + e,
                bases_q4@.len() == j * s + e,
                count_scalars@.len() == j * s + e,
                neg_count_scalars@.len() == j * s + e,
                forall|x: int|
                    0 <= x < j * s + e ==> #[trigger] bases_m@[x]
                        == g1_l_w_list@[multiplicities.indices@[x / (s as int)] * (s as int) + x % (
                    s as int)],
                forall|x: int|
                    0 <= x < j * s + e ==> #[trigger] bases_m_div_w@[x]
                        == g1_l_w_div_w_list@[multiplicities.indices@[x / (s as int)] * (s as int)
                        + x % (s as int)],
                forall|x: int|
                    0 <= x < j * s + e ==> #[trigger] bases_q3@[x]
                        == g1_q3_list@[multiplicities.indices@[x / (s as int)] * (s as int) + x % (
                    s as int)],
                forall|x: int|
                    0 <= x < j * s + e ==> #[trigger] bases_q4@[x]
                        == g1_q4_list@[multiplicities.indices@[x / (s as int)] * (s as int) + x % (
                    s as int)],
                forall|x: int|
                    0 <= x < j * s + e ==> #[trigger] count_scalars@[x] == fr_of(
                        multiplicities.counts@[x / (s as int)] as u64,
                    ),
                forall|x: int|
                    0 <= x < j * s + e ==> #[trigger] neg_count_scalars@[x] == neg_of(
                        fr_of(multiplicities.counts@[x / (s as int)] as u64),
                    ),
            decreases s - e,
        {
            proof {
                crate::math::lemma_flat_div_mod(j as int, e as int, s as int);
            }
            bases_m.push(g1_l_w_list[base + e]);
            bases_m_div_w.push(g1_l_w_div_w_list[base + e]);
            bases_q3.push(g1_q3_list[base + e]);
            bases_q4.push(g1_q4_list[base + e]);
            count_scalars.push(fr_mult);
            neg_count_scalars.push(neg_mult);
            e = e + 1;
        }
        j = j + 1;
    }
    proof {
        assert(bases_m@ =~= expanded_bases(
            g1_l_w_list@,
            multiplicities.indices@,
            segment_size as nat,
        ));
        assert(bases_m_div_w@ =~= expanded_bases(
            g1_l_w_div_w_list@,
            multiplicities.indices@,
            segment_size as nat,
        ));
        assert(bases_q3@ =~= expanded_bases(
            g1_q3_list@,
            multiplicities.indices@,
            segment_size as nat,
        ));
        assert(bases_q4@ =~= expanded_bases(
            g1_q4_list@,
            multiplicities.indices@,
            segment_size as nat,
        ));
        assert(count_scalars@ =~= expanded_counts(multiplicities.counts@, segment_size as nat));
        assert(neg_count_scalars@ =~= expanded_neg_counts(
            multiplicities.counts@,
            segment_size as nat,
        ));
    }
    let g1_m = g1_into_affine(&g1_msm(bases_m.as_slice(), count_scalars.as_slice()));
    let g1_m_div_w = g1_into_affine(
        &g1_msm(bases_m_div_w.as_slice(), count_scalars.as_slice()),
    );
    let q_bases = concat_points(&bases_q3, &bases_q4);
    let q_scalars = concat_scalars(&count_scalars, &neg_count_scalars);
    let g1_q_m = g1_into_affine(&g1_msm(q_bases.as_slice(), q_scalars.as_slice()));
    MultiplicityPolynomialsAndQuotient { g1_m, g1_m_div_w, g1_q_m }
}

/// The `K`-domain evaluations of the index polynomial `D`: per queried
/// segment, the table root of unity at the segment's first position.
pub open spec fn index_evals(
    queried: Seq<usize>,
    segment_size: nat,
    table_size: nat,
) -> Seq<Scalar> {
    Seq::new(
        queried.len(),
        |t: int| roots_of(table_size)[queried[t] * segment_size],
    )
}

/// The `V`-domain evaluations of the indexing polynomial `L`: witness
/// position `t * s + u` maps to the table root of unity at position
/// `queried[t] * s + u`.
pub open spec fn l_evals(
    queried: Seq<usize>,
    segment_size: nat,
    table_size: nat,
) -> Seq<Scalar> {
    Seq::new(
        queried.len() * segment_size,
        |x: int|
            roots_of(table_size)[queried[x / (segment_size as int)] * (segment_size as int) + x % (
            segment_size as int
            )],
    )
}

/// The `i`-th power of a scalar, by repeated multiplication.
pub open spec fn geometric(v: Scalar, i: nat) -> Scalar
    decreases i,
{
    if i == 0 {
        fr_of(1)
    } else {
        mul_of(geometric(v, (i - 1) as nat), v)
    }
}

/// The coefficients of `(v X)^k - 1`: minus one, `k - 1` zeros, `v^k`.
pub open spec fn boundary_factor_spec(v: Scalar, k: nat) -> Seq<Scalar> {
    Seq::new(
        k + 1,
        |i: int|
            if i == 0 {
                neg_of(fr_of(1))
            } else if i < k {
                fr_of(0)
            } else {
                pow_of(v, k as u64)
            },
    )
}

/// The numerator of the `Q_L` quotient:
/// `((v X)^k - 1) * (L(v X) - w * L(X))`.
pub open spec fn q_l_numerator(
    queried: Seq<usize>,
    s: nat,
    ts: nat,
    ws: nat,
    k: nat,
    v: Scalar,
    w: Scalar,
) -> Seq<Scalar> {
    let l = ifft_of(l_evals(queried, s, ts), ws);
    pmul_of(
        boundary_factor_spec(v, k),
        psub_of(
            Seq::new(l.len(), |i: int| mul_of(l[i], geometric(v, i as nat))),
            Seq::new(l.len(), |i: int| mul_of(l[i], w)),
        ),
    )
}

/// The numerator of the `Q_D` quotient: `L(X) - D(X)`.
pub open spec fn q_d_numerator(queried: Seq<usize>, s: nat, ts: nat, ws: nat, k: nat) -> Seq<
    Scalar,
> {
    psub_of(ifft_of(l_evals(queried, s, ts), ws), ifft_of(index_evals(queried, s, ts), k))
}

/// The index commitments: `[L(tau)]_1`, `[L(tau * v)]_1`, `[D(tau)]_1`,
/// the quotients `[Q_L(tau)]_1`, `[Q_D(tau)]_1`, and the coefficients of
/// `D` itself, which the multi-unity sub-protocol consumes.
pub struct IndexPolynomialsAndQuotients {
    pub g1_l: G1Affine,
    pub g1_l_mul_v: G1Affine,
    pub g1_d: G1Affine,
    pub poly_d: Vec<Scalar>,
    pub poly_l: Vec<Scalar>,
    pub g1_q_l: G1Affine,
    pub g1_q_d: G1Affine,
}

/// Builds the indexing polynomial `L` (mapping each witness position to
/// the table root of unity it was drawn from), its compressed per-segment
/// counterpart `D`, and their consistency quotients: `Q_L` with
/// `((v X)^k - 1) * (L(v X) - w * L(X)) = Z_V(X) * Q_L(X)`, and `Q_D`
/// with `L(X) - D(X) = Z_K(X) * Q_D(X)`. Succeeds exactly when both
/// divisions are exact; every returned commitment is pinned to its
/// multi-scalar multiplication.
pub fn index_polynomials_and_quotients_g1(
    pp: &PublicParameters,
    queried_segment_indices: &Vec<usize>,
) -> (r: Result<IndexPolynomialsAndQuotients, Error>)
    requires
        pp.wf(),
        queried_segment_indices@.len() == pp.num_witness_segments,
        2 * pp.witness_element_size + 2 <= crate::public_parameters::MAX_DOMAIN_SIZE,
        forall|t: int|
            0 <= t < queried_segment_indices@.len() ==> #[trigger] queried_segment_indices@[t]
                < pp.num_table_segments,
    ensures
        r matches Ok(out) ==> out.poly_d@.len() == pp.num_witness_segments,
        r matches Ok(out) ==> out.poly_l@.len() == pp.witness_element_size,
        r matches Ok(out) ==> out.poly_l@ == ifft_of(
            l_evals(
                queried_segment_indices@,
                pp.segment_size as nat,
                pp.table_element_size as nat,
            ),
            pp.witness_element_size as nat,
        ),
        r matches Ok(out) ==> out.g1_l == affine_of(
            msm_of(
                pp.g1_l_v_list@,
                l_evals(
                    queried_segment_indices@,
                    pp.segment_size as nat,
                    pp.table_element_size as nat,
                ),
            ),
        ),
        r matches Ok(out) ==> out.g1_l_mul_v == affine_of(
            msm_of(
                pp.g1_l_v_mul_v_list@,
                l_evals(
                    queried_segment_indices@,
                    pp.segment_size as nat,
                    pp.table_element_size as nat,
                ),
            ),
        ),
        r matches Ok(out) ==> out.g1_d == affine_of(
            msm_of(
                pp.g1_srs@.subrange(0, pp.num_witness_segments as int),
                out.poly_d@,
            ),
        ),
        r matches Ok(out) ==> out.poly_d@ == ifft_of(
            index_evals(
                queried_segment_indices@,
                pp.segment_size as nat,
                pp.table_element_size as nat,
            ),
            pp.num_witness_segments as nat,
        ),
        r matches Err(e) ==> e == Error::RemainderAfterDivisionIsNonZero,
{
    let k = pp.num_witness_segments;
    let s = pp.segment_size;
    let ws = pp.witness_element_size;
    let roots_w = roots_of_unity(&pp.domain_w);
    let mut poly_eval_list_l: Vec<Scalar> = Vec::new();
    let mut poly_eval_list_d: Vec<Scalar> = Vec::new();
    let mut t: usize = 0;
    while t < k
        invariant
            t <= k,
            pp.wf(),
            k == pp.num_witness_segments,
            s == pp.segment_size,
            ws == pp.witness_element_size,
            roots_w@.len() == pp.table_element_size,
            queried_segment_indices@.len() == k,
            forall|u: int|
                0 <= u < queried_segment_indices@.len() ==> #[trigger] queried_segment_indices@[u]
                    < pp.num_table_segments,
            poly_eval_list_l@.len() == t * s,
            poly_eval_list_d@.len() == t,
            roots_w@ == roots_of(pp.table_element_size as nat),
            forall|x: int|
                0 <= x < t * s ==> #[trigger] poly_eval_list_l@[x] == roots_of(
                    pp.table_element_size as nat,
                )[queried_segment_indices@[x / (s as int)] * (s as int) + x % (s as int)],
            forall|u: int|
                0 <= u < t ==> #[trigger] poly_eval_list_d@[u] == roots_of(
                    pp.table_element_size as nat,
                )[queried_segment_indices@[u] * pp.segment_size],
        decreases k - t,
    {
        let seg_index = queried_segment_indices[t];
        proof {
            assert(seg_index * s + s == (seg_index + 1) * s && (seg_index + 1) * s
                <= pp.num_table_segments * s) by (nonlinear_arith)
                requires
                    0 <= seg_index < pp.num_table_segments,
                    s >= 0,
            ;
            assert(t * s + s == (t + 1) * s && (t + 1) * s <= k * s) by (nonlinear_arith)
                requires
                    0 <= t < k,
                    s >= 0,
            ;
        }
        let base = seg_index * s;
        let mut j: usize = 0;
        while j < s
            invariant
                j <= s,
                t < k,
                s >= 1,
                base == seg_index * s,
                seg_index == queried_segment_indices@[t as int],
                base + s <= roots_w@.len(),
                t * s + s <= k * s,
                pp.wf(),
                s == pp.segment_size,
                queried_segment_indices@.len() == k,
                roots_w@.len() == pp.table_element_size,
                roots_w@ == roots_of(pp.table_element_size as nat),
                poly_eval_list_l@.len() == t * s + j,
                forall|x: int|
                    0 <= x < t * s + j ==> #[trigger] poly_eval_list_l@[x] == roots_of(
                        pp.table_element_size as nat,
                    )[queried_segment_indices@[x / (s as int)] * (s as int) + x % (s as int)],
            decreases s - j,
        {
            proof {
                crate::math::lemma_flat_div_mod(t as int, j as int, s as int);
            }
            poly_eval_list_l.push(roots_w[base + j]);
            j = j + 1;
        }
        poly_eval_list_d.push(roots_w[base]);
        t = t + 1;
    }

    // The commitments of L and of its shifted form are one multi-scalar
    // multiplication each against the per-position Lagrange commitments.
    proof {
        assert(poly_eval_list_l@ =~= l_evals(
            queried_segment_indices@,
            pp.segment_size as nat,
            pp.table_element_size as nat,
        ));
    }
    let g1_l = g1_into_affine(
        &g1_msm(pp.g1_l_v_list.as_slice(), poly_eval_list_l.as_slice()),
    );
    let g1_l_mul_v = g1_into_affine(
        &g1_msm(pp.g1_l_v_mul_v_list.as_slice(), poly_eval_list_l.as_slice()),
    );

    // D interpolates, over K, the root of unity of each queried segment.
    proof {
        assert(poly_eval_list_d@ =~= index_evals(
            queried_segment_indices@,
            pp.segment_size as nat,
            pp.table_element_size as nat,
        ));
    }
    let poly_d = domain_ifft(&pp.domain_k, poly_eval_list_d.as_slice());
    let g1_d = g1_into_affine(&commit_g1(pp.g1_srs.as_slice(), poly_d.as_slice()));

    // Q_L: ((v X)^k - 1) * (L(v X) - w * L(X)) = Z_V(X) * Q_L(X).
    let poly_coeff_list_l = domain_ifft(&pp.domain_v, poly_eval_list_l.as_slice());
    let mut poly_coeff_list_l_mul_v: Vec<Scalar> = Vec::new();
    let mut pow = fr_one();
    let mut i: usize = 0;
    while i < ws
        invariant
            i <= ws,
            poly_coeff_list_l@.len() == ws,
            poly_coeff_list_l_mul_v@.len() == i,
            pow == geometric(pp.domain_v.group_gen_spec(), i as nat),
            forall|t: int|
                0 <= t < i ==> #[trigger] poly_coeff_list_l_mul_v@[t] == mul_of(
                    poly_coeff_list_l@[t],
                    geometric(pp.domain_v.group_gen_spec(), t as nat),
                ),
        decreases ws - i,
    {
        poly_coeff_list_l_mul_v.push(fr_mul(poly_coeff_list_l[i], pow));
        pow = fr_mul(pow, pp.domain_v.group_gen());
        i = i + 1;
    }
    let poly_w_mul_l = poly_scale(poly_coeff_list_l.as_slice(), &pp.domain_w.group_gen());
    proof {
        assert(poly_coeff_list_l_mul_v@ =~= Seq::new(
            poly_coeff_list_l@.len(),
            |t: int| mul_of(poly_coeff_list_l@[t], geometric(pp.domain_v.group_gen_spec(), t as nat)),
        ));
        assert(poly_w_mul_l@ =~= Seq::new(
            poly_coeff_list_l@.len(),
            |t: int| mul_of(poly_coeff_list_l@[t], pp.domain_w.group_gen_spec()),
        ));
    }
    let diff = poly_sub(poly_coeff_list_l_mul_v.as_slice(), poly_w_mul_l.as_slice());
    // The factor (v X)^k - 1 vanishes exactly on the segment-boundary
    // positions, the ones the shift of L crosses.
    let mut boundary_factor: Vec<Scalar> = Vec::new();
    boundary_factor.push(fr_neg(fr_one()));
    let mut i: usize = 1;
    while i < k
        invariant
            1 <= i <= k,
            boundary_factor@.len() == i,
            boundary_factor@[0] == neg_of(fr_of(1)),
            forall|t: int| 1 <= t < i ==> #[trigger] boundary_factor@[t] == fr_of(0),
        decreases k - i,
    {
        boundary_factor.push(crate::scalar::fr_zero());
        i = i + 1;
    }
    boundary_factor.push(fr_pow_u64(&pp.domain_v.group_gen(), k as u64));
    proof {
        assert(boundary_factor@ =~= boundary_factor_spec(
            pp.domain_v.group_gen_spec(),
            k as nat,
        ));
    }
    let q_l_num = poly_mul(boundary_factor.as_slice(), diff.as_slice());
    let (poly_q_l, rem_l) = match divide_by_vanishing_poly(&pp.domain_v, q_l_num.as_slice()) {
        Some(v) => v,
        None => vstd::pervasive::unreached(),
    };
    if !poly_is_zero(rem_l.as_slice()) {
        return Err(Error::RemainderAfterDivisionIsNonZero);
    }
    let g1_q_l = g1_into_affine(&commit_g1(pp.g1_srs.as_slice(), poly_q_l.as_slice()));

    // Q_D: L(X) - D(X) = Z_K(X) * Q_D(X).
    let q_d_num = poly_sub(poly_coeff_list_l.as_slice(), poly_d.as_slice());
    let (poly_q_d, rem_d) = match divide_by_vanishing_poly(&pp.domain_k, q_d_num.as_slice()) {
        Some(v) => v,
        None => vstd::pervasive::unreached(),
    };
    if !poly_is_zero(rem_d.as_slice()) {
        return Err(Error::RemainderAfterDivisionIsNonZero);
    }
    let g1_q_d = g1_into_affine(&commit_g1(pp.g1_srs.as_slice(), poly_q_d.as_slice()));

    Ok(
        IndexPolynomialsAndQuotients {
            g1_l,
            g1_l_mul_v,
            g1_d,
            poly_d,
            poly_l: poly_coeff_list_l,
            g1_q_l,
            g1_q_d,
        },
    )
}

/// The proof bundle: the commitments of every prover round, and the
/// multi-unity sub-proof.
pub struct Proof {
    /// `[M(tau)]_1`.
    pub g1_m: G1Affine,
    /// `[M(tau / w)]_1`.
    pub g1_m_div_w: G1Affine,
    /// `[Q_M(tau)]_1`.
    pub g1_q_m: G1Affine,
    /// `[L(tau)]_1`.
    pub g1_l: G1Affine,
    /// `[L(tau * v)]_1`.
    pub g1_l_mul_v: G1Affine,
    /// `[Q_L(tau)]_1`.
    pub g1_q_l: G1Affine,
    /// `[D(tau)]_1`.
    pub g1_d: G1Affine,
    /// `[Q_D(tau)]_1`.
    pub g1_q_d: G1Affine,
    /// `[A(tau)]_1`.
    pub g1_a: G1Affine,
    /// `[Q_A(tau)]_1`.
    pub g1_q_a: G1Affine,
    /// `[B(tau)]_1`.
    pub g1_b: G1Affine,
    /// `[Q_B(tau)]_1` with `B(X) * (beta + f(X) + delta * X) - 1 = Z_V(X) * Q_B(X)`.
    pub g1_q_b: G1Affine,
    /// `[A_0(tau)]_1` with `A_0(X) = (A(X) - A(0)) / X`, for the
    /// log-derivative sum check.
    pub g1_a_0: G1Affine,
    /// `[B_0(tau)]_1` with `B_0(X) = (B(X) - B(0)) / X`.
    pub g1_b_0: G1Affine,
    /// `[B(tau)]_2`, the same polynomial committed in the second group, so
    /// the verifier can pair it with the statement.
    pub g2_b: crate::curve::G2Affine,
    /// The multi-unity sub-proof for `D`.
    pub multi_unity_proof: MultiUnityProof,
}

/// Runs every prover round: the multiplicity commitments, the index
/// commitments, the multi-unity sub-proof, and the fractional
/// decomposition keyed by the transcript challenges `beta` and `delta`.
/// A queried index outside the table is rejected before any commitment
/// work; a zero denominator in the decomposition aborts proving.
pub fn prove(
    pp: &PublicParameters,
    table: &Table,
    tpp: &TablePreprocessedParameters,
    witness: &Witness,
    rng: &mut Rng,
) -> (r: Result<Proof, Error>)
    requires
        pp.wf(),
        table.wf(),
        table.num_segments == pp.num_table_segments,
        table.segment_size == pp.segment_size,
        tpp.g1_q1_list@.len() == pp.table_element_size,
        witness.wf(),
        witness.num_witness_segments == pp.num_witness_segments,
        witness.segment_size == pp.segment_size,
        2 * pp.witness_element_size + 2 <= crate::public_parameters::MAX_DOMAIN_SIZE,
    ensures
        r matches Ok(proof) ==> proof.g1_d == affine_of(
            msm_of(
                pp.g1_srs@.subrange(0, pp.num_witness_segments as int),
                ifft_of(
                    index_evals(
                        witness.segment_indices@,
                        pp.segment_size as nat,
                        pp.table_element_size as nat,
                    ),
                    pp.num_witness_segments as nat,
                ),
            ),
        ),
        r is Ok ==> (forall|t: int|
            0 <= t < witness.segment_indices@.len() ==> #[trigger] witness.segment_indices@[t]
                < pp.num_table_segments),
        (exists|t: int|
            0 <= t < witness.segment_indices@.len() && #[trigger] witness.segment_indices@[t]
                >= pp.num_table_segments) ==> (r matches Err(e) && exists|t: int|
            0 <= t < witness.segment_indices@.len() && #[trigger] witness.segment_indices@[t]
                >= pp.num_table_segments && e == Error::InvalidSegmentIndex(
                witness.segment_indices@[t],
            )),
        r matches Err(e) ==> {
            ||| exists|t: int|
                0 <= t < witness.segment_indices@.len() && e == Error::InvalidSegmentIndex(
                    #[trigger] witness.segment_indices@[t],
                )
            ||| e == Error::InvalidNumberOfSegments(pp.num_table_segments)
            ||| e == Error::RemainderAfterDivisionIsNonZero
            ||| e == Error::FailedToDivideByVanishingPolynomial
            ||| e == Error::FailedToInverseFieldElement
            ||| e == Error::SrsTooShort
        },
{
    let mut transcript = Transcript::new();

    // Round 1: the multiplicity polynomial commitments, sparse in the
    // number of distinct queried segments.
    let multiplicities = match segment_multiplicities(
        &witness.segment_indices,
        pp.num_table_segments,
    ) {
        Ok(m) => m,
        Err(e) => {
            return Err(e);
        },
    };
    proof {
        assert forall|j: int| 0 <= j < multiplicities.indices@.len() implies (
        #[trigger] multiplicities.indices@[j] + 1) * pp.segment_size <= pp.g1_l_w_list@.len() by {
            assert((multiplicities.indices@[j] + 1) * pp.segment_size <= pp.num_table_segments
                * pp.segment_size) by (nonlinear_arith)
                requires
                    0 <= multiplicities.indices@[j] < pp.num_table_segments,
                    pp.segment_size >= 0,
            ;
        }
    }
    let mpq = multiplicity_polynomials_and_quotient_g1(
        &multiplicities,
        &pp.g1_l_w_list,
        &pp.g1_l_w_div_w_list,
        &pp.g1_q3_list,
        &pp.g1_q4_list,
        pp.segment_size,
    );

    // Round 1, continued: the index polynomials L and D with their
    // consistency quotients.
    let ipq = match index_polynomials_and_quotients_g1(pp, &witness.segment_indices) {
        Ok(v) => v,
        Err(e) => {
            return Err(e);
        },
    };

    // Rounds 3-8: the multi-unity sub-proof that D encodes segment-aligned
    // positions. The challenges are derived from the transcript of all
    // prior commitments.
    transcript.append_point(LABEL_COMMITMENT, &mpq.g1_m);
    transcript.append_point(LABEL_COMMITMENT, &mpq.g1_m_div_w);
    transcript.append_point(LABEL_COMMITMENT, &mpq.g1_q_m);
    transcript.append_point(LABEL_COMMITMENT, &ipq.g1_l);
    transcript.append_point(LABEL_COMMITMENT, &ipq.g1_l_mul_v);
    transcript.append_point(LABEL_COMMITMENT, &ipq.g1_q_l);
    transcript.append_point(LABEL_COMMITMENT, &ipq.g1_d);
    transcript.append_point(LABEL_COMMITMENT, &ipq.g1_q_d);
    let alpha = transcript.get_and_append_challenge(LABEL_ALPHA);
    let beta_unity = transcript.get_and_append_challenge(LABEL_BETA);
    let multi_unity_proof = match multi_unity_prove(pp, &ipq.poly_d, rng, alpha, beta_unity) {
        Ok(p) => p,
        Err(e) => {
            return Err(e);
        },
    };

    // Round 9: the fractional-decomposition challenges capture the
    // multi-unity commitments and evaluations as well.
    transcript.append_point(LABEL_COMMITMENT, &multi_unity_proof.u_bar_com1);
    transcript.append_point(LABEL_COMMITMENT, &multi_unity_proof.h_1_com1);
    transcript.append_point(LABEL_COMMITMENT, &multi_unity_proof.h_2_com1);
    transcript.append_point(LABEL_COMMITMENT, &multi_unity_proof.u_bar_alpha_com1);
    transcript.append_point(LABEL_COMMITMENT, &multi_unity_proof.h_2_alpha_com1);
    transcript.append_scalar(LABEL_COMMITMENT, &multi_unity_proof.v1);
    transcript.append_scalar(LABEL_COMMITMENT, &multi_unity_proof.v2);
    transcript.append_scalar(LABEL_COMMITMENT, &multi_unity_proof.v3);
    let beta = transcript.get_and_append_challenge(LABEL_FRACTION_BETA);
    let delta = transcript.get_and_append_challenge(LABEL_FRACTION_DELTA);

    // Round 10: A, sparse over the touched table positions, with its
    // quotient assembled from the two precomputed quotient families.
    let roots_w = roots_of_unity(&pp.domain_w);
    let mut g1_a = g1_zero();
    let mut g1_q_a = g1_zero();
    let mut g1_a_0 = g1_zero();
    let s = pp.segment_size;
    let mut j: usize = 0;
    while j < multiplicities.indices.len()
        invariant
            j <= multiplicities.indices@.len(),
            multiplicities.wf(),
            s == pp.segment_size,
            pp.wf(),
            table.wf(),
            table.num_segments == pp.num_table_segments,
            table.segment_size == pp.segment_size,
            tpp.g1_q1_list@.len() == pp.table_element_size,
            roots_w@.len() == pp.table_element_size,
            forall|u: int|
                0 <= u < multiplicities.indices@.len() ==> #[trigger] multiplicities.indices@[u]
                    < pp.num_table_segments,
            forall|u: int|
                0 <= u < witness.segment_indices@.len() ==> #[trigger] witness.segment_indices@[u]
                    < pp.num_table_segments,
        decreases multiplicities.indices@.len() - j,
    {
        let i = multiplicities.indices[j];
        let fr_mult = fr_from_u64(multiplicities.counts[j] as u64);
        proof {
            assert(i * s + s == (i + 1) * s && (i + 1) * s <= pp.num_table_segments * s)
                by (nonlinear_arith)
                requires
                    0 <= i < pp.num_table_segments,
                    s >= 0,
            ;
        }
        let base = i * s;
        let mut e: usize = 0;
        while e < s
            invariant
                e <= s,
                base + s <= pp.table_element_size,
                pp.wf(),
                table.wf(),
                table.num_segments == pp.num_table_segments,
                table.segment_size == pp.segment_size,
                tpp.g1_q1_list@.len() == pp.table_element_size,
                roots_w@.len() == pp.table_element_size,
                forall|u: int|
                    0 <= u < witness.segment_indices@.len()
                        ==> #[trigger] witness.segment_indices@[u] < pp.num_table_segments,
            decreases s - e,
        {
            let elem = base + e;
            let denom = fr_add(
                fr_add(beta, table.values[elem]),
                fr_mul(delta, roots_w[elem]),
            );
            let inv = match fr_inverse(&denom) {
                Some(v) => v,
                None => {
                    return Err(Error::FailedToInverseFieldElement);
                },
            };
            let fr_a_i = fr_mul(inv, fr_mult);
            g1_a = g1_add(&g1_a, &g1_mul(&pp.g1_l_w_list[elem], &fr_a_i));
            g1_q_a = g1_add(&g1_q_a, &g1_mul(&tpp.g1_q1_list[elem], &fr_a_i));
            g1_q_a = g1_add(&g1_q_a, &g1_mul(&pp.g1_q2_list[elem], &fr_mul(delta, fr_a_i)));
            g1_a_0 = g1_add(
                &g1_a_0,
                &g1_mul(&pp.g1_l_w_opening_proofs_at_zero[elem], &fr_a_i),
            );
            e = e + 1;
        }
        j = j + 1;
    }

    // Round 10, continued: B over the full witness domain. Each
    // denominator uses the table root of unity of the looked-up position
    // (the evaluation of L there), so that the two fractional sums agree.
    let ws = pp.witness_element_size;
    let mut poly_eval_list_b: Vec<Scalar> = Vec::new();
    let mut t: usize = 0;
    while t < pp.num_witness_segments
        invariant
            t <= pp.num_witness_segments,
            s == pp.segment_size,
            pp.wf(),
            witness.wf(),
            witness.num_witness_segments == pp.num_witness_segments,
            witness.segment_size == pp.segment_size,
            roots_w@.len() == pp.table_element_size,
            poly_eval_list_b@.len() == t * s,
            forall|u: int|
                0 <= u < witness.segment_indices@.len() ==> #[trigger] witness.segment_indices@[u]
                    < pp.num_table_segments,
        decreases pp.num_witness_segments - t,
    {
        let seg_index = witness.segment_indices[t];
        proof {
            assert(seg_index * s + s == (seg_index + 1) * s && (seg_index + 1) * s
                <= pp.num_table_segments * s) by (nonlinear_arith)
                requires
                    0 <= seg_index < pp.num_table_segments,
                    s >= 0,
            ;
            assert(t * s + s == (t + 1) * s && (t + 1) * s <= pp.num_witness_segments * s)
                by (nonlinear_arith)
                requires
                    0 <= t < pp.num_witness_segments,
                    s >= 0,
            ;
        }
        let base = seg_index * s;
        let mut u: usize = 0;
        while u < s
            invariant
                u <= s,
                t < pp.num_witness_segments,
                s == pp.segment_size,
                pp.wf(),
                witness.wf(),
                witness.num_witness_segments == pp.num_witness_segments,
                witness.segment_size == pp.segment_size,
                base == seg_index * s,
                base + s <= pp.table_element_size,
                t * s + s <= pp.num_witness_segments * s,
                roots_w@.len() == pp.table_element_size,
                poly_eval_list_b@.len() == t * s + u,
                forall|x: int|
                    0 <= x < witness.segment_indices@.len()
                        ==> #[trigger] witness.segment_indices@[x] < pp.num_table_segments,
            decreases s - u,
        {
            let denom = fr_add(
                fr_add(beta, witness.poly_eval_list_f[t * s + u]),
                fr_mul(delta, roots_w[base + u]),
            );
            let inv = match fr_inverse(&denom) {
                Some(v) => v,
                None => {
                    return Err(Error::FailedToInverseFieldElement);
                },
            };
            poly_eval_list_b.push(inv);
            u = u + 1;
        }
        t = t + 1;
    }
    let poly_b = domain_ifft(&pp.domain_v, poly_eval_list_b.as_slice());
    let g1_b = g1_into_affine(&commit_g1(pp.g1_srs.as_slice(), poly_b.as_slice()));

    // Round 10, continued: Q_B with
    // B(X) * (beta + f(X) + delta * L(X)) - 1 = Z_V(X) * Q_B(X), which
    // holds on V because each B evaluation inverts the matching
    // denominator.
    let mut c_poly = poly_scale(ipq.poly_l.as_slice(), &delta);
    c_poly = poly_add(c_poly.as_slice(), witness.poly_f.as_slice());
    let mut beta_poly: Vec<Scalar> = Vec::new();
    beta_poly.push(beta);
    c_poly = poly_add(c_poly.as_slice(), beta_poly.as_slice());
    let b_times_c = poly_mul(poly_b.as_slice(), c_poly.as_slice());
    let mut one_poly: Vec<Scalar> = Vec::new();
    one_poly.push(fr_one());
    let q_b_num = poly_sub(b_times_c.as_slice(), one_poly.as_slice());
    let (poly_q_b, rem_b) = match divide_by_vanishing_poly(&pp.domain_v, q_b_num.as_slice()) {
        Some(v) => v,
        None => vstd::pervasive::unreached(),
    };
    if !poly_is_zero(rem_b.as_slice()) {
        return Err(Error::RemainderAfterDivisionIsNonZero);
    }
    let g1_q_b = g1_into_affine(&commit_g1(pp.g1_srs.as_slice(), poly_q_b.as_slice()));

    // [A_0(tau)]_1 was accumulated from the per-position zero-opening
    // proofs; [B_0(tau)]_1 drops B's constant coefficient directly.
    let mut poly_b_0: Vec<Scalar> = Vec::new();
    let mut i: usize = 1;
    while i < poly_b.len()
        invariant
            1 <= i <= poly_b@.len() || (poly_b@.len() == 0 && i == 1),
            poly_b_0@.len() + 1 == i,
        decreases poly_b@.len() - i,
    {
        poly_b_0.push(poly_b[i]);
        i = i + 1;
    }
    let g1_b_0 = g1_into_affine(&commit_g1(pp.g1_srs.as_slice(), poly_b_0.as_slice()));
    let g2_b = crate::curve::g2_into_affine(
        &crate::kzg::commit_g2(pp.g2_srs.as_slice(), poly_b.as_slice()),
    );

    Ok(
        Proof {
            g1_m: mpq.g1_m,
            g1_m_div_w: mpq.g1_m_div_w,
            g1_q_m: mpq.g1_q_m,
            g1_l: ipq.g1_l,
            g1_l_mul_v: ipq.g1_l_mul_v,
            g1_q_l: ipq.g1_q_l,
            g1_d: ipq.g1_d,
            g1_q_d: ipq.g1_q_d,
            g1_a: g1_into_affine(&g1_a),
            g1_q_a: g1_into_affine(&g1_q_a),
            g1_b,
            g1_q_b,
            g1_a_0: g1_into_affine(&g1_a_0),
            g1_b_0,
            g2_b,
            multi_unity_proof,
        },
    )
}

} // verus!


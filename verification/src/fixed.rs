//! The table-based Zipf sampler.
//!
//! The sampler holds a full cumulative-distribution table and answers each
//! draw with a binary search over it. The table's entries are *order keys*:
//! unsigned integers whose ordering agrees with the ordering of the
//! cumulative probabilities they stand for. The caller accumulates the
//! normalized per-item masses into a non-decreasing cumulative table and
//! hands the entries over as keys (a non-negative binary64 value already
//! orders like its bit pattern, and the cumulative value zero has key zero);
//! each uniform draw crosses the same encoding. Everything past that point —
//! validating the table and searching it — is decided and proved here.

use vstd::prelude::*;

verus! {

/// A cumulative table is valid when it is non-empty, starts at the zero key
/// (the sentinel entry, never itself a sampling target), and is
/// monotonically non-decreasing.
pub open spec fn valid_table(cum: Seq<u64>) -> bool {
    &&& cum.len() >= 1
    &&& cum[0] == 0
    &&& forall|i: int, j: int| 0 <= i <= j < cum.len() ==> cum[i] <= cum[j]
}

/// The insertion point of a draw `r` in a table: the first position whose
/// entry is at least `r`, or the table length when every entry is below `r`.
/// An entry equal to the draw counts as greater, so the search never lands
/// past it: this is the tie-break the sampler's distribution depends on.
pub open spec fn insertion_point(cum: Seq<u64>, r: u64) -> int
    decreases cum.len(),
{
    if cum.len() == 0 {
        0
    } else if cum[0] < r {
        1 + insertion_point(cum.subrange(1, cum.len() as int), r)
    } else {
        0
    }
}

/// The index a draw `r` samples from a table: one below the insertion point,
/// clamped to the first bucket for a draw that does not exceed the sentinel
/// entry.
pub open spec fn zipf_index(cum: Seq<u64>, r: u64) -> int {
    if insertion_point(cum, r) <= 1 {
        0
    } else {
        insertion_point(cum, r) - 1
    }
}

/// The insertion point is a boundary: everything before it is below the
/// draw, and the entry at it (when there is one) is at least the draw.
pub proof fn lemma_insertion_point_bounds(cum: Seq<u64>, r: u64)
    ensures
        0 <= insertion_point(cum, r) <= cum.len(),
        forall|i: int| 0 <= i < insertion_point(cum, r) ==> cum[i] < r,
        insertion_point(cum, r) < cum.len() ==> cum[insertion_point(cum, r)] >= r,
    decreases cum.len(),
{
    if cum.len() == 0 {
    } else if cum[0] < r {
        let tail = cum.subrange(1, cum.len() as int);
        lemma_insertion_point_bounds(tail, r);
        assert forall|i: int| 0 <= i < insertion_point(cum, r) implies cum[i] < r by {
            if i >= 1 {
                assert(cum[i] == tail[i - 1]);
            }
        }
        if insertion_point(cum, r) < cum.len() {
            assert(cum[insertion_point(cum, r)] == tail[insertion_point(tail, r)]);
        }
    } else {
    }
}

/// Any position that is a boundary in the above sense is the insertion
/// point: the boundary is unique.
pub proof fn lemma_insertion_point_unique(cum: Seq<u64>, r: u64, c: int)
    requires
        0 <= c <= cum.len(),
        forall|i: int| 0 <= i < c ==> cum[i] < r,
        c < cum.len() ==> cum[c] >= r,
    ensures
        insertion_point(cum, r) == c,
{
    lemma_insertion_point_bounds(cum, r);
    let p = insertion_point(cum, r);
    if p < c {
        assert(cum[p] < r);
        assert(cum[p] >= r);
    }
    if c < p {
        assert(cum[c] < r);
        assert(cum[c] >= r);
    }
}

/// A table-based Zipf sampler over the support `{0, ..., N-1}`, where `N` is
/// the table's length.
///
/// The sampler is an immutable value object: the table is validated once at
/// construction and never changes, so instances may be freely duplicated or
/// shared read-only. Sampling is a binary search over the table, O(log N)
/// per draw.
#[derive(Debug, PartialEq)]
pub struct ZipfFixed {
    sum_probs: Vec<u64>,
}

impl Clone for ZipfFixed {
    /// The duplicate holds the same table.
    fn clone(&self) -> (r: Self)
        ensures
            r.cum() == self.cum(),
    {
        proof {
            use_type_invariant(self);
        }
        ZipfFixed { sum_probs: self.sum_probs.clone() }
    }
}

impl ZipfFixed {
    /// The cumulative table, as keys.
    pub closed spec fn cum(self) -> Seq<u64> {
        self.sum_probs@
    }

    #[verifier::type_invariant]
    spec fn table_invariant(self) -> bool {
        valid_table(self.cum())
    }

    /// The support size: the number of indices the sampler can return.
    /// A sampler's table is always valid — the constructor establishes that
    /// and no operation disturbs it — so the size is never zero.
    pub fn support_size(&self) -> (n: usize)
        ensures
            n == self.cum().len(),
            valid_table(self.cum()),
    {
        proof {
            use_type_invariant(self);
        }
        self.sum_probs.len()
    }

    /// Builds a sampler from a cumulative table of keys.
    ///
    /// The table is accepted exactly when it is valid: non-empty, starting
    /// at the zero key, and monotonically non-decreasing. The accepted
    /// sampler holds the table unchanged.
    pub fn new(sum_probs: Vec<u64>) -> (r: Option<ZipfFixed>)
        ensures
            r is Some <==> valid_table(sum_probs@),
            r matches Some(z) ==> z.cum() == sum_probs@,
    {
        let n = sum_probs.len();
        if n == 0 {
            return None;
        }
        if sum_probs[0] != 0 {
            return None;
        }
        let mut i: usize = 1;
        while i < n
            invariant
                1 <= i <= n,
                n == sum_probs.len(),
                sum_probs@[0] == 0,
                forall|p: int, q: int| 0 <= p <= q < i ==> sum_probs@[p] <= sum_probs@[q],
            decreases n - i,
        {
            if sum_probs[i - 1] > sum_probs[i] {
                assert(sum_probs@[i - 1] > sum_probs@[i as int]);
                return None;
            }
            i = i + 1;
        }
        Some(ZipfFixed { sum_probs })
    }

    /// Samples one index for the draw key `r`.
    ///
    /// The result is the bucket the draw falls in: one below the first table
    /// position whose entry is at least `r` (an entry equal to the draw
    /// counts as greater), clamped to the first bucket, so the result always
    /// lies inside the support. Sampling has no side effects and no error
    /// path: it is a pure function of the table and the draw.
    pub fn sample(&self, r: u64) -> (k: usize)
        ensures
            k == zipf_index(self.cum(), r),
            k < self.cum().len(),
            valid_table(self.cum()),
    {
        proof {
            use_type_invariant(self);
        }
        let n = self.sum_probs.len();
        let mut lo: usize = 0;
        let mut hi: usize = n;
        while lo < hi
            invariant
                lo <= hi <= n,
                n == self.sum_probs.len(),
                valid_table(self.cum()),
                forall|i: int| 0 <= i < lo ==> self.cum()[i] < r,
                forall|i: int| hi <= i < n ==> self.cum()[i] >= r,
            decreases hi - lo,
        {
            let mid = lo + (hi - lo) / 2;
            if self.sum_probs[mid] < r {
                lo = mid + 1;
            } else {
                hi = mid;
            }
        }
        proof {
            lemma_insertion_point_unique(self.cum(), r, lo as int);
        }
        if lo <= 1 {
            0
        } else {
            lo - 1
        }
    }
}

/// Law: every draw samples an index inside the support. Whatever the draw,
/// the sampled index lies in `[0, N)` for a table of length `N`: no draw is
/// dropped and none falls outside the table.
pub proof fn lemma_index_in_range(cum: Seq<u64>, r: u64)
    requires
        cum.len() >= 1,
    ensures
        0 <= zipf_index(cum, r) < cum.len(),
{
    lemma_insertion_point_bounds(cum, r);
}

/// Law: a draw that does not exceed the first cumulative step lands on index
/// 0, the most probable outcome under a positive exponent. Every batch of
/// draws therefore hits index 0 as soon as one draw falls at or below that
/// step.
pub proof fn lemma_low_draw_samples_zero(cum: Seq<u64>, r: u64)
    requires
        valid_table(cum),
        cum.len() >= 2,
        r <= cum[1],
    ensures
        zipf_index(cum, r) == 0,
{
    lemma_insertion_point_bounds(cum, r);
    if insertion_point(cum, r) > 1 {
        assert(cum[1] < r);
    }
}

/// The indices a whole sequence of draws samples from a table, in order.
pub open spec fn sample_outputs(cum: Seq<u64>, draws: Seq<u64>) -> Seq<int> {
    draws.map_values(|r: u64| zipf_index(cum, r))
}

/// Law: the sampler is deterministic. Feeding the same sequence of draws to
/// the same sampler twice yields identical output sequences — sampling is a
/// pure function of the table and the drawn values.
pub proof fn lemma_sampling_deterministic(cum: Seq<u64>, draws1: Seq<u64>, draws2: Seq<u64>)
    requires
        draws1 == draws2,
    ensures
        sample_outputs(cum, draws1) == sample_outputs(cum, draws2),
{
}

} // verus!

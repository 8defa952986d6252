//! Gap records and the selection of the pair of neighbouring gaps that bounds
//! the content.

use itertools::Itertools;
use vstd::prelude::*;

verus! {

/// One detected silent region.
///
/// `length` is the size of the averaging window that triggered the detection,
/// not a measurement of how long the silence actually lasted.
#[derive(Debug, Clone, Copy, PartialEq, Eq, Structural)]
pub struct GapInfo {
    /// Start of the gap (sample index).
    pub start: usize,
    /// Length of the gap (in samples).
    pub length: usize,
    /// Samples per second of the analysed stream.
    pub sample_rate: usize,
}

/// Pairs every gap with its successor, in order, through
/// `itertools::Itertools::tuple_windows`. Trusted: for a sequence of `n` gaps
/// the adaptor yields the `n - 1` overlapping windows `(gaps[i], gaps[i + 1])`
/// from left to right, and nothing when `n < 2`.
#[verifier::external_body]
fn adjacent_pairs(gaps: &[GapInfo]) -> (pairs: Vec<(GapInfo, GapInfo)>)
    ensures
        pairs@.len() == (if gaps@.len() < 2 { 0 } else { gaps@.len() - 1 }),
        forall|i: int| 0 <= i < pairs@.len() ==> pairs@[i] == (gaps@[i], gaps@[i + 1]),
{
    gaps.iter().tuple_windows().map(|(left, right): (&GapInfo, &GapInfo)| (*left, *right)).collect()
}

impl GapInfo {
    /// Number of samples between the end of `left` and the start of `right`.
    /// Negative when the two windows overlap.
    pub open spec fn distance(left: GapInfo, right: GapInfo) -> int {
        right.start - (left.start + left.length)
    }

    /// Distance between the gap at position `k` and its successor.
    pub open spec fn distance_at(gaps: Seq<GapInfo>, k: int) -> int
        recommends
            0 <= k < gaps.len() - 1,
    {
        Self::distance(gaps[k], gaps[k + 1])
    }

    /// `k` is the position of the left gap of the boundary pair: no adjacent
    /// pair is farther apart, and every later pair is strictly closer.
    pub open spec fn is_boundary(gaps: Seq<GapInfo>, k: int) -> bool {
        &&& 0 <= k < gaps.len() - 1
        &&& forall|j: int|
            0 <= j < k ==> #[trigger] Self::distance_at(gaps, j) <= Self::distance_at(gaps, k)
        &&& forall|j: int|
            k < j < gaps.len() - 1 ==> #[trigger] Self::distance_at(gaps, j) < Self::distance_at(
                gaps,
                k,
            )
    }

    /// Position of the left gap of the boundary pair.
    pub open spec fn boundary_index(gaps: Seq<GapInfo>) -> int {
        choose|k: int| Self::is_boundary(gaps, k)
    }

    /// The boundary pair of a gap sequence, if it has one.
    pub open spec fn boundary_pair(gaps: Seq<GapInfo>) -> Option<(GapInfo, GapInfo)> {
        if gaps.len() < 2 {
            None
        } else {
            let k = Self::boundary_index(gaps);
            Some((gaps[k], gaps[k + 1]))
        }
    }

    /// At most one position qualifies as the boundary.
    pub proof fn lemma_boundary_unique(gaps: Seq<GapInfo>, a: int, b: int)
        requires
            Self::is_boundary(gaps, a),
            Self::is_boundary(gaps, b),
        ensures
            a == b,
    {
        if a < b {
            assert(Self::distance_at(gaps, b) < Self::distance_at(gaps, a));
            assert(Self::distance_at(gaps, a) <= Self::distance_at(gaps, b));
        } else if b < a {
            assert(Self::distance_at(gaps, a) < Self::distance_at(gaps, b));
            assert(Self::distance_at(gaps, b) <= Self::distance_at(gaps, a));
        }
    }

    /// A position that qualifies as the boundary is the boundary index.
    pub proof fn lemma_boundary_index(gaps: Seq<GapInfo>, k: int)
        requires
            Self::is_boundary(gaps, k),
        ensures
            Self::boundary_index(gaps) == k,
            Self::boundary_pair(gaps) == Some((gaps[k], gaps[k + 1])),
    {
        Self::lemma_boundary_unique(gaps, k, Self::boundary_index(gaps));
    }

    /// Position of the last of the widest pairs among the first `n` pairs.
    proof fn lemma_widest_among(gaps: Seq<GapInfo>, n: int) -> (k: int)
        requires
            1 <= n <= gaps.len() - 1,
        ensures
            0 <= k < n,
            forall|j: int|
                0 <= j < k ==> #[trigger] Self::distance_at(gaps, j) <= Self::distance_at(gaps, k),
            forall|j: int|
                k < j < n ==> #[trigger] Self::distance_at(gaps, j) < Self::distance_at(gaps, k),
        decreases n,
    {
        if n == 1 {
            0
        } else {
            let k = Self::lemma_widest_among(gaps, n - 1);
            if Self::distance_at(gaps, n - 1) >= Self::distance_at(gaps, k) {
                n - 1
            } else {
                k
            }
        }
    }

    /// Every sequence of two or more gaps has a boundary pair, and the
    /// boundary index is its position.
    pub proof fn lemma_boundary_exists(gaps: Seq<GapInfo>)
        requires
            gaps.len() >= 2,
        ensures
            Self::is_boundary(gaps, Self::boundary_index(gaps)),
    {
        let k = Self::lemma_widest_among(gaps, gaps.len() - 1);
        assert(Self::is_boundary(gaps, k));
    }

    /// Fewer than two gaps bound nothing.
    pub proof fn lemma_too_few_gaps(gaps: Seq<GapInfo>)
        requires
            gaps.len() < 2,
        ensures
            Self::boundary_pair(gaps) is None,
    {
    }

    /// Where two pairs are equally far apart and no pair is farther apart,
    /// the later pair is preferred: the boundary is never the earlier one.
    pub proof fn lemma_later_pair_wins(gaps: Seq<GapInfo>, earlier: int, later: int)
        requires
            0 <= earlier < later < gaps.len() - 1,
            Self::distance_at(gaps, earlier) == Self::distance_at(gaps, later),
        ensures
            Self::boundary_index(gaps) != earlier,
    {
        Self::lemma_boundary_exists(gaps);
    }

    /// Of three gaps whose two pairs are equally far apart, the second and the
    /// third form the boundary.
    pub proof fn lemma_tie_of_three(gaps: Seq<GapInfo>)
        requires
            gaps.len() == 3,
            Self::distance(gaps[0], gaps[1]) == Self::distance(gaps[1], gaps[2]),
        ensures
            Self::boundary_pair(gaps) == Some((gaps[1], gaps[2])),
    {
        assert(Self::distance_at(gaps, 0) == Self::distance_at(gaps, 1));
        assert(Self::is_boundary(gaps, 1));
        Self::lemma_boundary_index(gaps, 1);
    }

    /// Finds the two neighbouring gaps with the most samples between them.
    ///
    /// The content is taken to begin at the end of the first gap of the pair
    /// and to end at the start of the second. Among equally distant pairs the
    /// last one wins. With fewer than two gaps there is no boundary.
    pub fn find_boundary_gaps(gaps: &[GapInfo]) -> (boundary: Option<(GapInfo, GapInfo)>)
        ensures
            boundary == Self::boundary_pair(gaps@),
            boundary is None <==> gaps@.len() < 2,
    {
        let pairs = adjacent_pairs(gaps);
        if pairs.len() == 0 {
            return None;
        }
        let mut best: usize = 0;
        let mut i: usize = 1;
        while i < pairs.len()
            invariant
                pairs@.len() == gaps@.len() - 1,
                forall|j: int| 0 <= j < pairs@.len() ==> pairs@[j] == (gaps@[j], gaps@[j + 1]),
                0 <= best < i <= pairs@.len(),
                forall|j: int|
                    0 <= j < best ==> #[trigger] Self::distance_at(gaps@, j) <= Self::distance_at(
                        gaps@,
                        best as int,
                    ),
                forall|j: int|
                    best < j < i ==> #[trigger] Self::distance_at(gaps@, j) < Self::distance_at(
                        gaps@,
                        best as int,
                    ),
            decreases pairs@.len() - i,
        {
            if signed_distance(pairs[i]) >= signed_distance(pairs[best]) {
                best = i;
            }
            i += 1;
        }
        proof {
            Self::lemma_boundary_index(gaps@, best as int);
        }
        Some(pairs[best])
    }
}

/// Distance between the two gaps of a pair, in arithmetic wide enough for any
/// pair of records.
fn signed_distance(pair: (GapInfo, GapInfo)) -> (d: i128)
    ensures
        d == GapInfo::distance(pair.0, pair.1),
{
    pair.1.start as i128 - (pair.0.start as i128 + pair.0.length as i128)
}

} // verus!

//! Counting a batch and finding the results in its middle.
//!
//! A result's share is the part of the available points that was awarded, and
//! nothing where no points are available. Shares are compared as fractions, so
//! that no rounding decides an order.

use crate::models::StudentResult;
use crate::table::{entries, table_len};
use vstd::prelude::*;
use vstd::relations::injective_on;
use vstd::set_lib::{lemma_int_range, lemma_map_size, lemma_subset_equality, set_int_range};

verus! {

/// The numerator of a result's share.
pub open spec fn share_numerator(r: StudentResult) -> nat {
    if r.total_available == 0 {
        0
    } else {
        r.total_awarded as nat
    }
}

/// The denominator of a result's share.
pub open spec fn share_denominator(r: StudentResult) -> nat {
    if r.total_available == 0 {
        1
    } else {
        r.total_available as nat
    }
}

/// Whether the share of `a` is strictly less than the share of `b`.
pub open spec fn share_below(a: StudentResult, b: StudentResult) -> bool {
    share_numerator(a) * share_denominator(b) < share_numerator(b) * share_denominator(a)
}

/// Whether result `j` comes before result `i` when the batch is put in the
/// order of the shares, results of one share in the order of the batch.
pub open spec fn comes_before(results: Seq<StudentResult>, j: int, i: int) -> bool {
    share_below(results[j], results[i]) || (!share_below(results[i], results[j]) && j < i)
}

/// The number of results among the first `n` that come before result `i`.
pub open spec fn count_before(results: Seq<StudentResult>, i: int, n: int) -> nat
    decreases n,
{
    if n <= 0 {
        0
    } else if comes_before(results, n - 1, i) {
        count_before(results, i, n - 1) + 1
    } else {
        count_before(results, i, n - 1)
    }
}

/// The place of result `i` in the order of the shares, counted from zero.
pub open spec fn rank(results: Seq<StudentResult>, i: int) -> nat {
    count_before(results, i, results.len() as int)
}

/// The first result at or after `lo` whose place in the order is `k`, or `-1`.
pub open spec fn rank_position(results: Seq<StudentResult>, k: nat, lo: int) -> int
    decreases results.len() - lo,
{
    if lo < 0 || lo >= results.len() {
        -1
    } else if rank(results, lo) == k {
        lo
    } else {
        rank_position(results, k, lo + 1)
    }
}

/// The results in the middle of the order of the shares: the one in the middle
/// twice for an odd number of results, the two around the middle for an even
/// number. Nothing for an empty batch.
pub open spec fn median_of(results: Seq<StudentResult>) -> Option<(usize, usize)> {
    if results.len() == 0 {
        None
    } else {
        let upper = (results.len() / 2) as nat;
        let lower = if results.len() % 2 == 0 {
            (upper - 1) as nat
        } else {
            upper
        };
        let a = rank_position(results, lower, 0);
        let b = rank_position(results, upper, 0);
        if a >= 0 && b >= 0 {
            Some((a as usize, b as usize))
        } else {
            None
        }
    }
}

/// The order of the shares is transitive.
proof fn lemma_before_transitive(results: Seq<StudentResult>, j: int, a: int, b: int)
    requires
        comes_before(results, j, a),
        comes_before(results, a, b),
    ensures
        comes_before(results, j, b),
{
    let nj = share_numerator(results[j]) as int;
    let dj = share_denominator(results[j]) as int;
    let na = share_numerator(results[a]) as int;
    let da = share_denominator(results[a]) as int;
    let nb = share_numerator(results[b]) as int;
    let db = share_denominator(results[b]) as int;
    assert(nj * da < na * dj && na * db <= nb * da ==> nj * db < nb * dj) by (nonlinear_arith)
        requires
            dj > 0,
            da > 0,
            db > 0,
            nj >= 0,
            na >= 0,
            nb >= 0,
    ;
    assert(nj * da <= na * dj && na * db < nb * da ==> nj * db < nb * dj) by (nonlinear_arith)
        requires
            dj > 0,
            da > 0,
            db > 0,
            nj >= 0,
            na >= 0,
            nb >= 0,
    ;
    assert(nj * da <= na * dj && na * db <= nb * da ==> nj * db <= nb * dj) by (nonlinear_arith)
        requires
            dj > 0,
            da > 0,
            db > 0,
            nj >= 0,
            na >= 0,
            nb >= 0,
    ;
    assert(nb * dj == dj * nb && nj * db == db * nj && na * dj == dj * na && nj * da == da * nj
        && nb * da == da * nb && na * db == db * na) by (nonlinear_arith);
}

/// A result that comes before another has fewer results before it.
proof fn lemma_counts_ordered(results: Seq<StudentResult>, a: int, b: int, m: int)
    requires
        0 <= a < results.len(),
        0 <= m <= results.len(),
        comes_before(results, a, b),
    ensures
        count_before(results, a, m) <= count_before(results, b, m),
        a < m ==> count_before(results, a, m) < count_before(results, b, m),
    decreases m,
{
    if m > 0 {
        lemma_counts_ordered(results, a, b, m - 1);
        if comes_before(results, m - 1, a) {
            lemma_before_transitive(results, m - 1, a, b);
        }
    }
}

/// No more results come before a result than there are others.
proof fn lemma_count_bound(results: Seq<StudentResult>, i: int, m: int)
    requires
        0 <= i < results.len(),
        0 <= m <= results.len(),
    ensures
        count_before(results, i, m) <= m,
        i < m ==> count_before(results, i, m) < m,
    decreases m,
{
    if m > 0 {
        lemma_count_bound(results, i, m - 1);
    }
}

/// Where some result at or after `lo` has the place `k`, `rank_position` finds one.
proof fn lemma_rank_position(results: Seq<StudentResult>, k: nat, lo: int, i: int)
    requires
        0 <= lo <= i < results.len(),
        rank(results, i) == k,
    ensures
        lo <= rank_position(results, k, lo) <= i,
        rank(results, rank_position(results, k, lo)) == k,
    decreases i - lo,
{
    if rank(results, lo) != k {
        lemma_rank_position(results, k, lo + 1, i);
    }
}

/// The places of the results of a batch are the numbers below the size of the
/// batch, each taken once: every place below that size belongs to a result.
pub proof fn lemma_every_rank_is_taken(results: Seq<StudentResult>, k: nat)
    requires
        k < results.len(),
    ensures
        0 <= rank_position(results, k, 0) < results.len(),
        rank(results, rank_position(results, k, 0)) == k,
{
    let n = results.len() as int;
    let places = |i: int| rank(results, i) as int;
    let indices = set_int_range(0, n);
    let taken = indices.map(places);
    lemma_int_range(0, n);
    assert forall|a: int, b: int|
        indices.contains(a) && indices.contains(b) && #[trigger] places(a) == #[trigger] places(
            b,
        ) implies a == b by {
        if a != b {
            if comes_before(results, a, b) {
                lemma_counts_ordered(results, a, b, n);
            } else {
                assert(comes_before(results, b, a));
                lemma_counts_ordered(results, b, a, n);
            }
        }
    }
    assert(injective_on(places, indices));
    lemma_map_size(indices, taken, places);
    assert forall|p: int| taken.contains(p) implies indices.contains(p) by {
        let i = choose|i: int| indices.contains(i) && p == places(i);
        lemma_count_bound(results, i, n);
    }
    lemma_subset_equality(taken, indices);
    assert(taken.contains(k as int));
    let i = choose|i: int| indices.contains(i) && k as int == places(i);
    lemma_rank_position(results, k, 0, i);
}

/// A batch that is not empty has results in its middle, and the share of the
/// first of them is not above the share of the second.
pub proof fn lemma_median_exists(results: Seq<StudentResult>)
    requires
        0 < results.len() <= usize::MAX,
    ensures
        median_of(results) is Some,
        ({
            let middle = median_of(results).unwrap();
            let first = middle.0 as int;
            let second = middle.1 as int;
            &&& 0 <= first < results.len()
            &&& 0 <= second < results.len()
            &&& rank(results, second) == results.len() / 2
            &&& rank(results, first) == if results.len() % 2 == 0 {
                results.len() / 2 - 1
            } else {
                results.len() as int / 2
            }
            &&& !share_below(results[second], results[first])
        }),
{
    let n = results.len() as int;
    let upper = (results.len() / 2) as nat;
    let lower = if results.len() % 2 == 0 {
        (upper - 1) as nat
    } else {
        upper
    };
    lemma_every_rank_is_taken(results, lower);
    lemma_every_rank_is_taken(results, upper);
    let a = rank_position(results, lower, 0);
    let b = rank_position(results, upper, 0);
    if share_below(results[b], results[a]) {
        lemma_counts_ordered(results, b, a, n);
    }
}

/// What is counted of a batch: the students with a result, the students that
/// failed, the tests of the first result, and the results in the middle of the
/// order of the shares.
#[derive(Debug, Clone, Copy)]
pub struct BatchTally {
    pub total_students: usize,
    pub errors: usize,
    pub total_tests: usize,
    pub median: Option<(usize, usize)>,
}

/// The number of students of a roster that have no record: the size of the
/// roster less the number of records, and none where there are more records.
pub fn errored_count(roster: usize, scored: usize) -> (n: usize)
    ensures
        n == if scored <= roster {
            roster - scored
        } else {
            0
        },
{
    if scored <= roster {
        roster - scored
    } else {
        0
    }
}

/// Whether the share of `a` is strictly less than the share of `b`.
pub fn is_share_below(a: &StudentResult, b: &StudentResult) -> (r: bool)
    ensures
        r == share_below(*a, *b),
{
    let an: u64 = if a.total_available == 0 {
        0
    } else {
        a.total_awarded as u64
    };
    let ad: u64 = if a.total_available == 0 {
        1
    } else {
        a.total_available as u64
    };
    let bn: u64 = if b.total_available == 0 {
        0
    } else {
        b.total_awarded as u64
    };
    let bd: u64 = if b.total_available == 0 {
        1
    } else {
        b.total_available as u64
    };
    assert(an * bd <= 0xFFFF_FFFF * 0xFFFF_FFFF && bn * ad <= 0xFFFF_FFFF * 0xFFFF_FFFF)
        by (nonlinear_arith)
        requires
            an <= 0xFFFF_FFFF,
            ad <= 0xFFFF_FFFF,
            bn <= 0xFFFF_FFFF,
            bd <= 0xFFFF_FFFF,
    ;
    an * bd < bn * ad
}

/// The place of result `i` in the order of the shares.
pub fn rank_of(results: &Vec<StudentResult>, i: usize) -> (r: usize)
    requires
        i < results.len(),
    ensures
        r == rank(results@, i as int),
        r <= results.len(),
{
    let mut count: usize = 0;
    let mut j: usize = 0;
    while j < results.len()
        invariant
            j <= results.len(),
            i < results.len(),
            count == count_before(results@, i as int, j as int),
            count <= j,
        decreases results.len() - j,
    {
        let before = is_share_below(&results[j], &results[i]) || (!is_share_below(
            &results[i],
            &results[j],
        ) && j < i);
        if before {
            count += 1;
        }
        j += 1;
    }
    count
}

/// The first result whose place in the order of the shares is `k`.
pub fn position_of_rank(results: &Vec<StudentResult>, k: usize) -> (r: Option<usize>)
    ensures
        match r {
            Some(i) => i < results.len() && i == rank_position(results@, k as nat, 0),
            None => rank_position(results@, k as nat, 0) == -1,
        },
{
    let mut i: usize = 0;
    while i < results.len()
        invariant
            i <= results.len(),
            rank_position(results@, k as nat, 0) == rank_position(results@, k as nat, i as int),
        decreases results.len() - i,
    {
        if rank_of(results, i) == k {
            return Some(i);
        }
        i += 1;
    }
    None
}

/// The results in the middle of the order of the shares.
pub fn median_positions(results: &Vec<StudentResult>) -> (r: Option<(usize, usize)>)
    ensures
        r == median_of(results@),
        (r is None) == (results.len() == 0),
{
    let n: usize = results.len();
    if n == 0 {
        return None;
    }
    proof {
        lemma_median_exists(results@);
    }
    let upper: usize = n / 2;
    let lower: usize = if n % 2 == 0 {
        upper - 1
    } else {
        upper
    };
    match position_of_rank(results, lower) {
        Some(a) => match position_of_rank(results, upper) {
            Some(b) => Some((a, b)),
            None => None,
        },
        None => None,
    }
}

/// Counts a batch of which `errors` students failed.
pub fn tally(results: &Vec<StudentResult>, errors: usize) -> (t: BatchTally)
    ensures
        t.total_students == results.len(),
        t.errors == errors,
        t.total_tests == if results.len() > 0 {
            entries(results[0].tests).len()
        } else {
            0
        },
        t.median == median_of(results@),
        (t.median is None) == (results.len() == 0),
{
    let total_tests: usize = if results.len() > 0 {
        table_len(&results[0].tests)
    } else {
        0
    };
    BatchTally {
        total_students: results.len(),
        errors,
        total_tests,
        median: median_positions(results),
    }
}

} // verus!

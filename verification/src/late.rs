//! Blending the on-time and the late result of each student under a late penalty.

use crate::models::{LateGrade, LateGradingResult, StudentResult};
use vstd::arithmetic::div_mod::lemma_fundamental_div_mod;
use vstd::prelude::*;

verus! {

/// The share of a late score that is taken away, as the fraction
/// `numerator / denominator` between 0 and 1.
#[derive(Debug, Clone, Copy, PartialEq, Eq, Structural)]
pub struct Penalty {
    pub numerator: u32,
    pub denominator: u32,
}

impl Penalty {
    /// Whether the fraction is defined and lies between 0 and 1.
    pub open spec fn valid(self) -> bool {
        0 < self.denominator && self.numerator <= self.denominator
    }

    /// The penalty `numerator / denominator`, where that is a fraction between 0 and 1.
    pub fn new(numerator: u32, denominator: u32) -> (r: Option<Penalty>)
        ensures
            match r {
                Some(p) => p.valid() && p.numerator == numerator && p.denominator == denominator,
                None => !(Penalty { numerator, denominator }).valid(),
            },
    {
        if denominator == 0 || numerator > denominator {
            None
        } else {
            Some(Penalty { numerator, denominator })
        }
    }
}

/// A late score after the penalty: `late * (1 - penalty)`, rounded to the nearest
/// whole number, a half rounded up.
pub open spec fn penalized(late: nat, p: Penalty) -> nat {
    ((2 * late * (p.denominator - p.numerator) + p.denominator) / (2 * p.denominator)) as nat
}

/// The score that counts: the on-time score unless the late one is strictly
/// higher, and then the late score after the penalty.
pub open spec fn final_score_of(on_time: nat, late: nat, p: Penalty) -> nat {
    if late <= on_time {
        on_time
    } else {
        penalized(late, p)
    }
}

/// `penalized` is the whole number nearest to `late * (1 - penalty)`: the two
/// differ by at most a half, and by less when `penalized` is the smaller. It is
/// never more than the late score itself.
pub proof fn lemma_penalized_nearest(late: nat, p: Penalty)
    requires
        p.valid(),
    ensures
        2 * p.denominator * penalized(late, p) <= 2 * late * (p.denominator - p.numerator)
            + p.denominator,
        2 * late * (p.denominator - p.numerator) + p.denominator < 2 * p.denominator * (penalized(
            late,
            p,
        ) + 1),
        penalized(late, p) <= late,
        p.numerator == 0 ==> penalized(late, p) == late,
{
    let d = p.denominator as int;
    let k = (p.denominator - p.numerator) as int;
    let x = 2 * late * k + d;
    let q = x / (2 * d);
    assert(0 <= 2 * late * k) by (nonlinear_arith)
        requires
            0 <= k,
            0 <= late,
    ;
    lemma_fundamental_div_mod(x, 2 * d);
    assert(0 <= q) by (nonlinear_arith)
        requires
            q == x / (2 * d),
            0 <= x,
            0 < d,
    ;
    assert(x == (2 * d) * q + x % (2 * d));
    assert(0 <= x % (2 * d) < 2 * d);
    assert(2 * d * (q + 1) == 2 * d * q + 2 * d) by (nonlinear_arith);
    assert(2 * late * k <= 2 * late * d) by (nonlinear_arith)
        requires
            0 <= k <= d,
            0 <= late,
    ;
    assert(q <= late) by (nonlinear_arith)
        requires
            2 * d * q <= 2 * late * d + d,
            0 < d,
    ;
    if p.numerator == 0 {
        assert(late <= q) by (nonlinear_arith)
            requires
                2 * late * d + d < 2 * d * q + 2 * d,
                0 < d,
        ;
    }
}

/// The score that counts for one student.
pub fn final_score(on_time: u32, late: u32, penalty: Penalty) -> (score: u32)
    requires
        penalty.valid(),
    ensures
        score == final_score_of(on_time as nat, late as nat, penalty),
        late <= on_time ==> score == on_time,
        late > on_time ==> score == penalized(late as nat, penalty),
{
    if late <= on_time {
        on_time
    } else {
        let keep: u128 = (penalty.denominator - penalty.numerator) as u128;
        let d: u128 = penalty.denominator as u128;
        proof {
            lemma_penalized_nearest(late as nat, penalty);
            assert(late * keep <= 0xFFFF_FFFF * 0xFFFF_FFFF) by (nonlinear_arith)
                requires
                    0 <= late <= 0xFFFF_FFFF,
                    0 <= keep <= 0xFFFF_FFFF,
            ;
            assert(2 * (late as nat) * (penalty.denominator - penalty.numerator) == 2 * (late
                * keep)) by (nonlinear_arith)
                requires
                    keep == penalty.denominator - penalty.numerator,
            ;
        }
        let product: u128 = (late as u128) * keep;
        let q: u128 = (2 * product + d) / (2 * d);
        q as u32
    }
}

/// Index of the first result at or after `lo` that belongs to `username`, or `-1`.
pub open spec fn result_index(results: Seq<StudentResult>, username: Seq<char>, lo: int) -> int
    decreases results.len() - lo,
{
    if lo < 0 || lo >= results.len() {
        -1
    } else if results[lo].username@ == username {
        lo
    } else {
        result_index(results, username, lo + 1)
    }
}

/// The blended record of a student with both results.
pub open spec fn blended(on_time: StudentResult, late: StudentResult, p: Penalty) -> LateGrade {
    LateGrade {
        username: on_time.username@,
        repo_url: on_time.repo_url@,
        on_time: on_time@,
        late: late@,
        final_score: final_score_of(on_time.total_awarded as nat, late.total_awarded as nat, p),
    }
}

/// The blended records of two batches: one for each on-time result whose student
/// also has a late result, in the on-time batch's order. A student with a result
/// in one batch only has no record.
/// Of several late results under one handle the first is taken.
pub open spec fn combined(on_time: Seq<StudentResult>, late: Seq<StudentResult>, p: Penalty) -> Seq<
    LateGrade,
>
    decreases on_time.len(),
{
    if on_time.len() == 0 {
        Seq::<LateGrade>::empty()
    } else {
        let at = result_index(late, on_time.last().username@, 0);
        if at >= 0 {
            combined(on_time.drop_last(), late, p).push(blended(on_time.last(), late[at], p))
        } else {
            combined(on_time.drop_last(), late, p)
        }
    }
}

/// Each blended record pairs two results of one student, and its score is the
/// on-time total where the late total is no higher, and the penalized late
/// total where it is.
pub proof fn lemma_combined_records(
    on_time: Seq<StudentResult>,
    late: Seq<StudentResult>,
    p: Penalty,
    i: int,
)
    requires
        0 <= i < combined(on_time, late, p).len(),
    ensures
        ({
            let r = combined(on_time, late, p)[i];
            &&& r.on_time.username == r.username
            &&& r.late.username == r.username
            &&& r.late.total_awarded <= r.on_time.total_awarded ==> r.final_score
                == r.on_time.total_awarded
            &&& r.late.total_awarded > r.on_time.total_awarded ==> r.final_score == penalized(
                r.late.total_awarded,
                p,
            )
        }),
        combined(on_time, late, p).len() <= on_time.len(),
    decreases on_time.len(),
{
    let at = result_index(late, on_time.last().username@, 0);
    let rest = combined(on_time.drop_last(), late, p);
    if i < rest.len() {
        lemma_combined_records(on_time.drop_last(), late, p, i);
    } else {
        lemma_result_index(late, on_time.last().username@, 0);
    }
    if rest.len() > 0 {
        lemma_combined_records(on_time.drop_last(), late, p, 0);
    }
}

/// `result_index` gives a result of the student, and `-1` only when there is none.
pub proof fn lemma_result_index(results: Seq<StudentResult>, username: Seq<char>, lo: int)
    requires
        0 <= lo,
    ensures
        result_index(results, username, lo) == -1 || lo <= result_index(results, username, lo)
            < results.len(),
        result_index(results, username, lo) >= 0 ==> results[result_index(
            results,
            username,
            lo,
        )].username@ == username,
        result_index(results, username, lo) == -1 ==> forall|k: int|
            lo <= k < results.len() ==> (#[trigger] results[k]).username@ != username,
    decreases results.len() - lo,
{
    if lo < results.len() && results[lo].username@ != username {
        lemma_result_index(results, username, lo + 1);
    }
}

/// Finds the first result of `username`.
fn find_result(results: &Vec<StudentResult>, username: &String) -> (r: Option<usize>)
    ensures
        match r {
            Some(i) => i < results.len() && i == result_index(results@, username@, 0),
            None => result_index(results@, username@, 0) == -1,
        },
{
    let mut i: usize = 0;
    while i < results.len()
        invariant
            i <= results.len(),
            result_index(results@, username@, 0) == result_index(results@, username@, i as int),
        decreases results.len() - i,
    {
        if results[i].username == *username {
            return Some(i);
        }
        i += 1;
    }
    None
}

/// Pairs the results of the two batches by student and computes for each pair
/// the score that counts.
pub fn combine_late_results(
    on_time: &Vec<StudentResult>,
    late: &Vec<StudentResult>,
    penalty: Penalty,
) -> (out: Vec<LateGradingResult>)
    requires
        penalty.valid(),
    ensures
        out.len() == combined(on_time@, late@, penalty).len(),
        forall|i: int| 0 <= i < out.len() ==> (#[trigger] out[i])@ == combined(on_time@, late@, penalty)[i],
{
    let mut out: Vec<LateGradingResult> = Vec::new();
    let mut k: usize = 0;
    while k < on_time.len()
        invariant
            k <= on_time.len(),
            penalty.valid(),
            out.len() == combined(on_time@.take(k as int), late@, penalty).len(),
            forall|i: int|
                0 <= i < out.len() ==> (#[trigger] out[i])@ == combined(
                    on_time@.take(k as int),
                    late@,
                    penalty,
                )[i],
        decreases on_time.len() - k,
    {
        proof {
            assert(on_time@.take(k + 1).drop_last() =~= on_time@.take(k as int));
        }
        let first = &on_time[k];
        match find_result(late, &first.username) {
            Some(at) => {
                let second = &late[at];
                let score = final_score(first.total_awarded, second.total_awarded, penalty);
                out.push(
                    LateGradingResult {
                        username: first.username.clone(),
                        repo_url: first.repo_url.clone(),
                        on_time_result: first.clone(),
                        late_result: second.clone(),
                        final_score: score,
                    },
                );
            },
            None => {},
        }
        k += 1;
    }
    proof {
        assert(on_time@.take(k as int) =~= on_time@);
    }
    out
}

} // verus!

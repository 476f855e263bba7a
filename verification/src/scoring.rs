//! Scoring the declared tests of an assignment from the steps of a graded job.

use crate::models::{JobStep, TestDefinition, TestResult, TestScore};
use crate::table::{
    entries, inserted, key_index, names_of, table_entry_at, table_insert, table_len, table_new,
};
use indexmap::IndexMap;
use vstd::prelude::*;

verus! {

/// Index of the first step at or after `lo` whose name is `name`, or `-1`.
pub open spec fn step_index(steps: Seq<JobStep>, name: Seq<char>, lo: int) -> int
    decreases steps.len() - lo,
{
    if lo < 0 || lo >= steps.len() {
        -1
    } else if steps[lo].name@ == name {
        lo
    } else {
        step_index(steps, name, lo + 1)
    }
}

/// Whether the first step named `name` concluded with `success`.
pub open spec fn step_succeeded(steps: Seq<JobStep>, name: Seq<char>) -> bool {
    let i = step_index(steps, name, 0);
    i >= 0 && match steps[i].conclusion {
        Some(c) => c@ == "success"@,
        None => false,
    }
}

/// The score of one declared test: all of its points when its step succeeded,
/// none in every other case (failed, skipped, cancelled, unfinished, no such step).
pub open spec fn score_of(def: TestDefinition, steps: Seq<JobStep>) -> TestScore {
    let passed = step_succeeded(steps, def.name@);
    TestScore {
        name: def.name@,
        awarded: if passed {
            def.max_score as nat
        } else {
            0
        },
        available: def.max_score as nat,
        passed,
    }
}

/// The score table of a job: the declarations' scores stored one after the
/// other under the tests' names.
pub open spec fn score_table(defs: Seq<TestDefinition>, steps: Seq<JobStep>) -> Seq<
    (Seq<char>, TestScore),
>
    decreases defs.len(),
{
    if defs.len() == 0 {
        Seq::<(Seq<char>, TestScore)>::empty()
    } else {
        inserted(
            score_table(defs.drop_last(), steps),
            defs.last().name@,
            score_of(defs.last(), steps),
        )
    }
}

/// The columns that the declarations give a score table: their names in the
/// declarations' order, a name that comes again left out.
pub open spec fn declared_columns(defs: Seq<TestDefinition>) -> Seq<Seq<char>>
    decreases defs.len(),
{
    if defs.len() == 0 {
        Seq::<Seq<char>>::empty()
    } else if declared_columns(defs.drop_last()).contains(defs.last().name@) {
        declared_columns(defs.drop_last())
    } else {
        declared_columns(defs.drop_last()).push(defs.last().name@)
    }
}

/// Whether the declarations `defs` have pairwise different names.
pub open spec fn distinct_names(defs: Seq<TestDefinition>) -> bool {
    forall|i: int, j: int| 0 <= i < j < defs.len() ==> defs[i].name@ != defs[j].name@
}

/// The points of a score: those awarded, or those available.
pub open spec fn points(t: TestScore, awarded: bool) -> nat {
    if awarded {
        t.awarded
    } else {
        t.available
    }
}

/// Sum over the entries of a table of the points awarded, or of those available.
pub open spec fn points_sum(e: Seq<(Seq<char>, TestScore)>, awarded: bool) -> nat
    decreases e.len(),
{
    if e.len() == 0 {
        0
    } else {
        points_sum(e.drop_last(), awarded) + points(e.last().1, awarded)
    }
}

/// Sum of the points awarded over the entries of a table.
pub open spec fn awarded_sum(e: Seq<(Seq<char>, TestScore)>) -> nat {
    points_sum(e, true)
}

/// Sum of the greatest scores of the declarations.
pub open spec fn max_score_sum(defs: Seq<TestDefinition>) -> nat
    decreases defs.len(),
{
    if defs.len() == 0 {
        0
    } else {
        max_score_sum(defs.drop_last()) + defs.last().max_score as nat
    }
}

/// Whether no entry of the table awards more points than are available.
pub open spec fn within_available(e: Seq<(Seq<char>, TestScore)>) -> bool {
    forall|i: int| 0 <= i < e.len() ==> (#[trigger] e[i]).1.awarded <= e[i].1.available
}

/// `key_index` gives an entry under the key, and `-1` only when no entry is under it.
pub proof fn lemma_key_index(e: Seq<(Seq<char>, TestScore)>, key: Seq<char>)
    ensures
        -1 <= key_index(e, key) < e.len(),
        key_index(e, key) >= 0 ==> e[key_index(e, key)].0 == key,
        key_index(e, key) < 0 ==> forall|i: int| 0 <= i < e.len() ==> (#[trigger] e[i]).0 != key,
    decreases e.len(),
{
    if e.len() > 0 {
        lemma_key_index(e.drop_last(), key);
        if key_index(e.drop_last(), key) < 0 {
            assert forall|i: int| 0 <= i < e.len() - 1 implies (#[trigger] e[i]).0 != key by {
                assert(e[i] == e.drop_last()[i]);
            }
        }
    }
}

proof fn lemma_sum_update(e: Seq<(Seq<char>, TestScore)>, i: int, x: (Seq<char>, TestScore), a: bool)
    requires
        0 <= i < e.len(),
    ensures
        points_sum(e.update(i, x), a) + points(e[i].1, a) == points_sum(e, a) + points(x.1, a),
    decreases e.len(),
{
    let u = e.update(i, x);
    if i == e.len() - 1 {
        assert(u.drop_last() =~= e.drop_last());
    } else {
        assert(u.drop_last() =~= e.drop_last().update(i, x));
        lemma_sum_update(e.drop_last(), i, x, a);
    }
}

proof fn lemma_sum_push(e: Seq<(Seq<char>, TestScore)>, x: (Seq<char>, TestScore), a: bool)
    ensures
        points_sum(e.push(x), a) == points_sum(e, a) + points(x.1, a),
{
    assert(e.push(x).drop_last() =~= e);
}

proof fn lemma_sum_take(e: Seq<(Seq<char>, TestScore)>, k: int, a: bool)
    requires
        0 <= k <= e.len(),
    ensures
        points_sum(e.take(k), a) <= points_sum(e, a),
        k < e.len() ==> points_sum(e.take(k + 1), a) == points_sum(e.take(k), a) + points(
            e[k].1,
            a,
        ),
    decreases e.len() - k,
{
    if k < e.len() {
        assert(e.take(k + 1).drop_last() =~= e.take(k));
        lemma_sum_take(e, k + 1, a);
    } else {
        assert(e.take(k) =~= e);
    }
}

proof fn lemma_awarded_below_available(e: Seq<(Seq<char>, TestScore)>)
    requires
        within_available(e),
    ensures
        points_sum(e, true) <= points_sum(e, false),
    decreases e.len(),
{
    if e.len() > 0 {
        assert forall|i: int| 0 <= i < e.len() - 1 implies (#[trigger] e.drop_last()[i]).1.awarded
            <= e.drop_last()[i].1.available by {
            assert(e.drop_last()[i] == e[i]);
        }
        assert(e.last() == e[e.len() - 1]);
        lemma_awarded_below_available(e.drop_last());
    }
}

/// In the score table of any job no test is awarded more points than it has, and
/// the points awarded add up to no more than the declarations offer.
pub proof fn lemma_score_table_bounds(defs: Seq<TestDefinition>, steps: Seq<JobStep>)
    ensures
        within_available(score_table(defs, steps)),
        awarded_sum(score_table(defs, steps)) <= points_sum(score_table(defs, steps), false),
        points_sum(score_table(defs, steps), false) <= max_score_sum(defs),
        score_table(defs, steps).len() <= defs.len(),
    decreases defs.len(),
{
    if defs.len() > 0 {
        let rest = score_table(defs.drop_last(), steps);
        let key = defs.last().name@;
        let x = (key, score_of(defs.last(), steps));
        lemma_score_table_bounds(defs.drop_last(), steps);
        lemma_key_index(rest, key);
        let i = key_index(rest, key);
        if i >= 0 {
            lemma_sum_update(rest, i, x, false);
        } else {
            lemma_sum_push(rest, x, false);
        }
    }
    lemma_awarded_below_available(score_table(defs, steps));
}

/// Whatever the steps of a job are, its score table has the columns that the
/// declarations give: every student of an assignment has the same columns in
/// the same order.
pub proof fn lemma_score_table_columns(defs: Seq<TestDefinition>, steps: Seq<JobStep>)
    ensures
        names_of(score_table(defs, steps)) == declared_columns(defs),
    decreases defs.len(),
{
    if defs.len() > 0 {
        let rest = score_table(defs.drop_last(), steps);
        let key = defs.last().name@;
        let x = (key, score_of(defs.last(), steps));
        lemma_score_table_columns(defs.drop_last(), steps);
        lemma_key_index(rest, key);
        let i = key_index(rest, key);
        if i >= 0 {
            assert(names_of(rest)[i] == key);
            assert(names_of(rest.update(i, x)) =~= names_of(rest));
        } else {
            assert forall|k: int| 0 <= k < names_of(rest).len() implies names_of(rest)[k]
                != key by {
                assert(rest[k].0 != key);
            }
            assert(names_of(rest.push(x)) =~= names_of(rest).push(key));
        }
    }
    assert(names_of(score_table(defs, steps)) =~= declared_columns(defs));
}

/// Where the declarations have different names, the table holds one entry for
/// each declaration, in the declarations' order, and so the points awarded add
/// up over the declarations.
pub proof fn lemma_score_table_distinct(defs: Seq<TestDefinition>, steps: Seq<JobStep>)
    requires
        distinct_names(defs),
    ensures
        score_table(defs, steps).len() == defs.len(),
        forall|i: int|
            0 <= i < defs.len() ==> #[trigger] score_table(defs, steps)[i] == (
                defs[i].name@,
                score_of(defs[i], steps),
            ),
    decreases defs.len(),
{
    if defs.len() > 0 {
        let front = defs.drop_last();
        let rest = score_table(front, steps);
        let key = defs.last().name@;
        assert forall|i: int, j: int| 0 <= i < j < front.len() implies front[i].name@
            != front[j].name@ by {
            assert(front[i] == defs[i] && front[j] == defs[j]);
        }
        lemma_score_table_distinct(front, steps);
        lemma_key_index(rest, key);
        if key_index(rest, key) >= 0 {
            let i = key_index(rest, key);
            assert(rest[i].0 == front[i].name@);
            assert(front[i] == defs[i]);
            assert(false);
        }
        assert forall|i: int| 0 <= i < defs.len() implies #[trigger] score_table(defs, steps)[i]
            == (defs[i].name@, score_of(defs[i], steps)) by {
            if i < defs.len() - 1 {
                assert(score_table(defs, steps)[i] == rest[i]);
                assert(front[i] == defs[i]);
            }
        }
    }
}

/// Finds the first step with the given name.
fn find_step(steps: &Vec<JobStep>, name: &String) -> (r: Option<usize>)
    ensures
        match r {
            Some(i) => i < steps.len() && i == step_index(steps@, name@, 0),
            None => step_index(steps@, name@, 0) == -1,
        },
{
    let mut i: usize = 0;
    while i < steps.len()
        invariant
            i <= steps.len(),
            step_index(steps@, name@, 0) == step_index(steps@, name@, i as int),
        decreases steps.len() - i,
    {
        if steps[i].name == *name {
            return Some(i);
        }
        i += 1;
    }
    None
}

/// Scores one declared test against the steps of the graded job.
pub fn score_test(def: &TestDefinition, steps: &Vec<JobStep>) -> (t: TestResult)
    ensures
        t@ == score_of(*def, steps@),
        t.points_awarded <= t.points_available,
{
    let success = "success".to_owned();
    let passed = match find_step(steps, &def.name) {
        Some(i) => match &steps[i].conclusion {
            Some(c) => *c == success,
            None => false,
        },
        None => false,
    };
    TestResult {
        name: def.name.clone(),
        points_awarded: if passed {
            def.max_score
        } else {
            0
        },
        points_available: def.max_score,
        passed,
    }
}

/// Scores every declared test, in the declarations' order, into a table keyed by
/// the tests' names.
pub fn score_steps(defs: &Vec<TestDefinition>, steps: &Vec<JobStep>) -> (tests: IndexMap<
    String,
    TestResult,
>)
    ensures
        entries(tests) == score_table(defs@, steps@),
        within_available(entries(tests)),
        names_of(entries(tests)) == declared_columns(defs@),
{
    let mut tests = table_new();
    let mut k: usize = 0;
    while k < defs.len()
        invariant
            k <= defs.len(),
            entries(tests) == score_table(defs@.take(k as int), steps@),
        decreases defs.len() - k,
    {
        let t = score_test(&defs[k], steps);
        proof {
            assert(defs@.take(k + 1).drop_last() =~= defs@.take(k as int));
        }
        table_insert(&mut tests, defs[k].name.clone(), t);
        k += 1;
    }
    proof {
        assert(defs@.take(k as int) =~= defs@);
        lemma_score_table_bounds(defs@, steps@);
        lemma_score_table_columns(defs@, steps@);
    }
    tests
}

/// Adds up the points awarded in a table, where the sum fits.
pub fn provisional_total(tests: &IndexMap<String, TestResult>) -> (total: Option<u32>)
    ensures
        match total {
            Some(t) => t == awarded_sum(entries(*tests)),
            None => awarded_sum(entries(*tests)) > u32::MAX,
        },
{
    let n: usize = table_len(tests);
    let mut total: u32 = 0;
    let mut i: usize = 0;
    while i < n
        invariant
            i <= n,
            n == entries(*tests).len(),
            total == points_sum(entries(*tests).take(i as int), true),
        decreases n - i,
    {
        proof {
            lemma_sum_take(entries(*tests), i as int, true);
            lemma_sum_take(entries(*tests), i + 1, true);
        }
        match table_entry_at(tests, i) {
            Some(entry) => {
                if entry.1.points_awarded > u32::MAX - total {
                    return None;
                }
                total = total + entry.1.points_awarded;
            },
            None => {},
        }
        i += 1;
    }
    proof {
        assert(entries(*tests).take(n as int) =~= entries(*tests));
    }
    Some(total)
}

/// Adds up the greatest scores of the declarations, where the sum fits.
pub fn total_available(defs: &Vec<TestDefinition>) -> (total: Option<u32>)
    ensures
        match total {
            Some(t) => t == max_score_sum(defs@),
            None => max_score_sum(defs@) > u32::MAX,
        },
{
    let mut total: u32 = 0;
    let mut k: usize = 0;
    while k < defs.len()
        invariant
            k <= defs.len(),
            total == max_score_sum(defs@.take(k as int)),
        decreases defs.len() - k,
    {
        proof {
            assert(defs@.take(k + 1).drop_last() =~= defs@.take(k as int));
            lemma_max_score_sum_take(defs@, k + 1);
        }
        if defs[k].max_score > u32::MAX - total {
            return None;
        }
        total = total + defs[k].max_score;
        k += 1;
    }
    proof {
        assert(defs@.take(k as int) =~= defs@);
    }
    Some(total)
}

proof fn lemma_max_score_sum_take(defs: Seq<TestDefinition>, k: int)
    requires
        0 <= k <= defs.len(),
    ensures
        max_score_sum(defs.take(k)) <= max_score_sum(defs),
    decreases defs.len() - k,
{
    if k < defs.len() {
        assert(defs.take(k + 1).drop_last() =~= defs.take(k));
        lemma_max_score_sum_take(defs, k + 1);
    } else {
        assert(defs.take(k) =~= defs);
    }
}

} // verus!

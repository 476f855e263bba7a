//! Choosing the one CI run of a repository that is graded.

use crate::models::{Timestamp, WorkflowRun};
use vstd::prelude::*;

verus! {

/// Whether a run can be graded: it has concluded, and it was created at the
/// deadline or after it where a deadline is given.
pub open spec fn eligible(run: WorkflowRun, deadline: Option<Timestamp>) -> bool {
    run.conclusion is Some && match deadline {
        Some(d) => d.le(run.created_at),
        None => true,
    }
}

/// Whether run `i` is the graded one among the first `n` runs.
///
/// With a deadline it is the earliest eligible run, and of several created at
/// that same instant the first in the list. Without a deadline it is the latest
/// eligible run, and of several created at that same instant the last in the list.
pub open spec fn selected_among(
    runs: Seq<WorkflowRun>,
    deadline: Option<Timestamp>,
    n: int,
    i: int,
) -> bool {
    &&& 0 <= i < n <= runs.len()
    &&& eligible(runs[i], deadline)
    &&& forall|j: int|
        0 <= j < n && eligible(#[trigger] runs[j], deadline) ==> if deadline is Some {
            &&& runs[i].created_at.le(runs[j].created_at)
            &&& j < i ==> runs[i].created_at.lt(runs[j].created_at)
        } else {
            &&& runs[j].created_at.le(runs[i].created_at)
            &&& j > i ==> runs[j].created_at.lt(runs[i].created_at)
        }
}

/// Whether run `i` is the graded one among all of `runs`.
pub open spec fn selected(runs: Seq<WorkflowRun>, deadline: Option<Timestamp>, i: int) -> bool {
    selected_among(runs, deadline, runs.len() as int, i)
}

/// Whether none of the first `n` runs can be graded.
pub open spec fn none_eligible(runs: Seq<WorkflowRun>, deadline: Option<Timestamp>, n: int) -> bool {
    forall|j: int| 0 <= j < n ==> !eligible(#[trigger] runs[j], deadline)
}

/// For given runs and deadline there is at most one graded run: the selection
/// is a function of its input.
pub proof fn lemma_selected_unique(
    runs: Seq<WorkflowRun>,
    deadline: Option<Timestamp>,
    i: int,
    j: int,
)
    requires
        selected(runs, deadline, i),
        selected(runs, deadline, j),
    ensures
        i == j,
{
    assert(eligible(runs[i], deadline));
    assert(eligible(runs[j], deadline));
}

/// Without a deadline the graded run was created no earlier than any concluded
/// run; with one, no later than any concluded run created at or after the deadline.
pub proof fn lemma_selected_extreme(
    runs: Seq<WorkflowRun>,
    deadline: Option<Timestamp>,
    i: int,
    j: int,
)
    requires
        selected(runs, deadline, i),
        0 <= j < runs.len(),
        runs[j].conclusion is Some,
    ensures
        deadline is None ==> runs[j].created_at.le(runs[i].created_at),
        deadline is Some && deadline->0.le(runs[j].created_at) ==> runs[i].created_at.le(
            runs[j].created_at,
        ),
        deadline is Some ==> deadline->0.le(runs[i].created_at),
        runs[i].conclusion is Some,
{
    if deadline is None || deadline->0.le(runs[j].created_at) {
        assert(eligible(runs[j], deadline));
    }
}

/// Whether a run can be graded.
pub fn is_eligible(run: &WorkflowRun, deadline: Option<Timestamp>) -> (r: bool)
    ensures
        r == eligible(*run, deadline),
{
    run.conclusion.is_some() && match deadline {
        Some(d) => !run.created_at.is_before(&d),
        None => true,
    }
}

/// Picks the graded run: its index in `runs`, or nothing when no run can be graded.
pub fn select_run(runs: &Vec<WorkflowRun>, deadline: Option<Timestamp>) -> (r: Option<usize>)
    ensures
        match r {
            Some(i) => selected(runs@, deadline, i as int),
            None => none_eligible(runs@, deadline, runs.len() as int),
        },
{
    let mut best: Option<usize> = None;
    let mut k: usize = 0;
    while k < runs.len()
        invariant
            k <= runs.len(),
            match best {
                Some(i) => selected_among(runs@, deadline, k as int, i as int),
                None => none_eligible(runs@, deadline, k as int),
            },
        decreases runs.len() - k,
    {
        if is_eligible(&runs[k], deadline) {
            match best {
                None => {
                    best = Some(k);
                },
                Some(i) => {
                    let takes_over = if deadline.is_some() {
                        runs[k].created_at.is_before(&runs[i].created_at)
                    } else {
                        !runs[k].created_at.is_before(&runs[i].created_at)
                    };
                    if takes_over {
                        best = Some(k);
                    }
                },
            }
        }
        k += 1;
    }
    best
}

} // verus!

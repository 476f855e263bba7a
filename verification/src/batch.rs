//! The batch: a roster resolved student by student, with the failures counted.

use crate::models::{AcceptedAssignment, StudentResult, TestDefinition, Timestamp};
use crate::resolver::{
    addressable, build_student_result, created_filter, created_filter_of, find_grading_job,
    grading_job_index, handle_of, pending_of, plan_student, resolved_grade, student_handle,
    BatchError, Reply, ResolveError, Stage,
};
use crate::scoring::{declared_columns, max_score_sum, within_available};
use crate::selector::{none_eligible, select_run, selected};
use crate::table::{entries, names_of};
use vstd::prelude::*;

verus! {

/// The failure of one student: the student's place in the roster and the reason.
#[derive(Debug, Clone, Copy, PartialEq, Eq, Structural)]
pub struct Failure {
    pub position: usize,
    pub error: ResolveError,
}

/// A roster under resolution: the students before `position` are done, each
/// with a result or recorded as a failure, and `stage` says what is awaited for
/// the student at `position`.
#[derive(Debug)]
pub struct BatchResolver {
    pub roster: Vec<AcceptedAssignment>,
    pub definitions: Vec<TestDefinition>,
    pub deadline: Option<Timestamp>,
    pub position: usize,
    pub stage: Stage,
    pub results: Vec<StudentResult>,
    pub failures: Vec<Failure>,
}

/// The text of an optional string.
pub open spec fn text_of(s: Option<String>) -> Option<Seq<char>> {
    match s {
        Some(text) => Some(text@),
        None => None,
    }
}

impl BatchResolver {
    /// What holds of a batch at every moment: the students before `position`
    /// are each accounted for once, and every result has the total available
    /// that the declarations add up to, the columns that the declarations give,
    /// in their order, and in no column more points than the column has.
    pub open spec fn inv(self) -> bool {
        &&& 0 < self.roster.len()
        &&& self.position <= self.roster.len()
        &&& (self.stage is Finished) == (self.position == self.roster.len())
        &&& self.results.len() + self.failures.len() == self.position
        &&& max_score_sum(self.definitions@) <= u32::MAX
        &&& forall|i: int|
            0 <= i < self.results.len() ==> {
                &&& (#[trigger] self.results[i]).total_available == max_score_sum(
                    self.definitions@,
                )
                &&& within_available(entries(self.results[i].tests))
                &&& names_of(entries(self.results[i].tests)) == declared_columns(
                    self.definitions@,
                )
            }
    }

    /// Whether `next` is `self` with nothing changed but what a step may change:
    /// the position, the stage, the results and the failures.
    pub open spec fn same_task(self, next: BatchResolver) -> bool {
        &&& next.roster == self.roster
        &&& next.definitions == self.definitions
        &&& next.deadline == self.deadline
    }

    /// Whether `next` is `self` with the same student still under resolution,
    /// now at the stage `next.stage`.
    pub open spec fn moved_on(self, next: BatchResolver) -> bool {
        &&& self.same_task(next)
        &&& next.position == self.position
        &&& next.results == self.results
        &&& next.failures == self.failures
    }

    /// The stage in which the student after the current one starts, or the end.
    pub open spec fn following_stage(self) -> Stage {
        if self.position + 1 < self.roster.len() {
            Stage::Announce
        } else {
            Stage::Finished
        }
    }

    /// Whether `next` is `self` after the current student failed for the
    /// reason `error`: the failure is recorded and the student is left out of
    /// the results.
    pub open spec fn failed(self, next: BatchResolver, error: ResolveError) -> bool {
        &&& self.same_task(next)
        &&& next.position == self.position + 1
        &&& next.results == self.results
        &&& next.failures@ == self.failures@.push(Failure { position: self.position, error })
        &&& next.stage == self.following_stage()
    }

    /// Whether `next` is `self` after one step on `reply`.
    pub open spec fn transition(self, reply: Reply, next: BatchResolver) -> bool {
        match (self.stage, reply) {
            (Stage::Announce, Reply::Announced) => {
                let student = self.roster[self.position as int];
                if addressable(student) {
                    &&& self.moved_on(next)
                    &&& next.stage matches Stage::Runs { who, created }
                    &&& pending_of(who, student)
                    &&& text_of(created) == created_filter_of(self.deadline)
                } else {
                    self.failed(next, ResolveError::InvalidRepository)
                }
            },
            (Stage::Runs { who, created }, Reply::Runs(Some(runs))) => {
                if none_eligible(runs@, self.deadline, runs.len() as int) {
                    self.failed(next, ResolveError::NoCompletedRun)
                } else {
                    &&& self.moved_on(next)
                    &&& next.stage matches Stage::Jobs { who: same, run_id, run_timestamp }
                    &&& same == who
                    &&& exists|i: int|
                        selected(runs@, self.deadline, i) && run_id == runs[i].id && run_timestamp
                            == runs[i].created_at
                }
            },
            (Stage::Runs { who, created }, Reply::Runs(None)) => self.failed(
                next,
                ResolveError::RunsUnavailable,
            ),
            (Stage::Jobs { who, run_id, run_timestamp }, Reply::Jobs(Some(jobs))) => {
                let at = grading_job_index(jobs@, 0);
                if at < 0 {
                    self.failed(next, ResolveError::MissingGradingJob)
                } else {
                    &&& self.moved_on(next)
                    &&& next.stage == Stage::Log {
                        who,
                        job_id: jobs[at].id,
                        run_timestamp,
                        steps: jobs[at].steps,
                    }
                }
            },
            (Stage::Jobs { who, run_id, run_timestamp }, Reply::Jobs(None)) => self.failed(
                next,
                ResolveError::JobsUnavailable,
            ),
            (Stage::Log { who, job_id, run_timestamp, steps }, Reply::Log(log)) => {
                &&& self.same_task(next)
                &&& next.position == self.position + 1
                &&& next.failures == self.failures
                &&& next.stage == self.following_stage()
                &&& next.results@.drop_last() == self.results@
                &&& next.results.len() == self.results.len() + 1
                &&& next.results@.last()@ == resolved_grade(
                    who.username@,
                    who.repo_url@,
                    run_timestamp,
                    self.definitions@,
                    steps@,
                    text_of(log),
                )
            },
            _ => next == self,
        }
    }

    /// A batch over `roster` with nobody resolved yet. An empty roster has no batch.
    pub fn new(
        roster: Vec<AcceptedAssignment>,
        definitions: Vec<TestDefinition>,
        deadline: Option<Timestamp>,
    ) -> (r: Result<BatchResolver, BatchError>)
        requires
            max_score_sum(definitions@) <= u32::MAX,
        ensures
            match r {
                Ok(batch) => {
                    &&& batch.inv()
                    &&& batch.roster == roster
                    &&& batch.definitions == definitions
                    &&& batch.deadline == deadline
                    &&& batch.position == 0
                    &&& batch.stage is Announce
                    &&& batch.results.len() == 0
                    &&& batch.failures.len() == 0
                },
                Err(e) => roster.len() == 0 && e == BatchError::EmptyRoster,
            },
            (r is Err) == (roster.len() == 0),
    {
        if roster.len() == 0 {
            return Err(BatchError::EmptyRoster);
        }
        Ok(
            BatchResolver {
                roster,
                definitions,
                deadline,
                position: 0,
                stage: Stage::Announce,
                results: Vec::new(),
                failures: Vec::new(),
            },
        )
    }

    /// Whether every student of the roster was taken.
    pub fn is_finished(&self) -> (done: bool)
        requires
            self.inv(),
        ensures
            done == (self.position == self.roster.len()),
            done == (self.stage is Finished),
    {
        self.position >= self.roster.len()
    }

    /// What the observer is told before the current student is resolved: the
    /// student's number counted from one, the size of the roster, and the
    /// student's handle.
    pub fn progress(&self) -> (r: (usize, usize, String))
        requires
            self.inv(),
            self.position < self.roster.len(),
        ensures
            r.0 == self.position + 1,
            r.1 == self.roster.len(),
            r.2@ == handle_of(self.roster[self.position as int]),
    {
        (self.position + 1, self.roster.len(), student_handle(&self.roster[self.position]))
    }

    /// Takes one step: decides from the outcome `reply` of what the stage asked
    /// for what is awaited next. A reply that the stage did not ask for changes
    /// nothing.
    pub fn advance(self, reply: Reply) -> (next: BatchResolver)
        requires
            self.inv(),
        ensures
            next.inv(),
            self.transition(reply, next),
    {
        let BatchResolver { roster, definitions, deadline, position, stage, results, failures } =
            self;
        match (stage, reply) {
            (Stage::Announce, Reply::Announced) => {
                match plan_student(&roster[position]) {
                    Ok(who) => {
                        let created = created_filter(deadline);
                        let stage = Stage::Runs { who, created };
                        BatchResolver {
                            roster,
                            definitions,
                            deadline,
                            position,
                            stage,
                            results,
                            failures,
                        }
                    },
                    Err(_) => after_failure(roster, definitions, deadline, position, results, failures, ResolveError::InvalidRepository),
                }
            },
            (Stage::Runs { who, created }, Reply::Runs(Some(runs))) => {
                match select_run(&runs, deadline) {
                    Some(i) => {
                        let stage = Stage::Jobs {
                            who,
                            run_id: runs[i].id,
                            run_timestamp: runs[i].created_at,
                        };
                        BatchResolver {
                            roster,
                            definitions,
                            deadline,
                            position,
                            stage,
                            results,
                            failures,
                        }
                    },
                    None => after_failure(roster, definitions, deadline, position, results, failures, ResolveError::NoCompletedRun),
                }
            },
            (Stage::Runs { who, created }, Reply::Runs(None)) => after_failure(roster, definitions, deadline, position, results, failures, ResolveError::RunsUnavailable),
            (Stage::Jobs { who, run_id, run_timestamp }, Reply::Jobs(Some(jobs))) => {
                match find_grading_job(&jobs) {
                    Some(at) => {
                        let mut jobs = jobs;
                        let job = jobs.remove(at);
                        let stage = Stage::Log {
                            who,
                            job_id: job.id,
                            run_timestamp,
                            steps: job.steps,
                        };
                        BatchResolver {
                            roster,
                            definitions,
                            deadline,
                            position,
                            stage,
                            results,
                            failures,
                        }
                    },
                    None => after_failure(roster, definitions, deadline, position, results, failures, ResolveError::MissingGradingJob),
                }
            },
            (Stage::Jobs { who, run_id, run_timestamp }, Reply::Jobs(None)) => after_failure(roster, definitions, deadline, position, results, failures, ResolveError::JobsUnavailable),
            (Stage::Log { who, job_id, run_timestamp, steps }, Reply::Log(log)) => {
                let result = build_student_result(
                    who.username,
                    who.repo_url,
                    run_timestamp,
                    &definitions,
                    &steps,
                    match &log {
                        Some(text) => Some(text.as_str()),
                        None => None,
                    },
                );
                let mut results = results;
                let ghost before = results@;
                results.push(result);
                proof {
                    assert(results@.drop_last() =~= before);
                }
                let stage = if position + 1 < roster.len() {
                    Stage::Announce
                } else {
                    Stage::Finished
                };
                BatchResolver {
                    roster,
                    definitions,
                    deadline,
                    position: position + 1,
                    stage,
                    results,
                    failures,
                }
            },
            (stage, _) => BatchResolver {
                roster,
                definitions,
                deadline,
                position,
                stage,
                results,
                failures,
            },
        }
    }

    /// The number of students that failed so far.
    pub fn errors(&self) -> (n: usize)
        ensures
            n == self.failures.len(),
    {
        self.failures.len()
    }

    /// The results and the failures so far.
    pub fn into_results(self) -> (r: (Vec<StudentResult>, Vec<Failure>))
        ensures
            r.0 == self.results,
            r.1 == self.failures,
    {
        (self.results, self.failures)
    }
}

/// The batch after the student at `position` failed for the reason `error`.
fn after_failure(
    roster: Vec<AcceptedAssignment>,
    definitions: Vec<TestDefinition>,
    deadline: Option<Timestamp>,
    position: usize,
    results: Vec<StudentResult>,
    failures: Vec<Failure>,
    error: ResolveError,
) -> (next: BatchResolver)
    requires
        position < roster.len(),
    ensures
        next.roster == roster,
        next.definitions == definitions,
        next.deadline == deadline,
        next.position == position + 1,
        next.stage == if position + 1 < roster.len() {
            Stage::Announce
        } else {
            Stage::Finished
        },
        next.results == results,
        next.failures@ == failures@.push(Failure { position, error }),
{
    let stage = if position + 1 < roster.len() {
        Stage::Announce
    } else {
        Stage::Finished
    };
    let mut failures = failures;
    failures.push(Failure { position, error });
    BatchResolver {
        roster,
        definitions,
        deadline,
        position: position + 1,
        stage,
        results,
        failures,
    }
}

/// The results of a batch all have the same total of available points.
pub proof fn lemma_batch_same_total_available(batch: BatchResolver, i: int, j: int)
    requires
        batch.inv(),
        0 <= i < batch.results.len(),
        0 <= j < batch.results.len(),
    ensures
        batch.results[i].total_available == batch.results[j].total_available,
{
}

/// The results of a batch all have the same columns in the same order: those
/// that the declarations give.
pub proof fn lemma_batch_same_columns(batch: BatchResolver, i: int, j: int)
    requires
        batch.inv(),
        0 <= i < batch.results.len(),
        0 <= j < batch.results.len(),
    ensures
        names_of(entries(batch.results[i].tests)) == declared_columns(batch.definitions@),
        names_of(entries(batch.results[i].tests)) == names_of(entries(batch.results[j].tests)),
{
}

/// In the results of a batch no test is awarded less than nothing or more than
/// the points it has.
pub proof fn lemma_batch_points_within_available(batch: BatchResolver, i: int, k: int)
    requires
        batch.inv(),
        0 <= i < batch.results.len(),
        0 <= k < entries(batch.results[i].tests).len(),
    ensures
        0 <= entries(batch.results[i].tests)[k].1.awarded <= entries(
            batch.results[i].tests,
        )[k].1.available,
{
}

} // verus!

//! Extracting the graded-test declarations from a workflow definition.

use crate::models::{TestDefinition, WorkflowFile, WorkflowJob, WorkflowStep};
use crate::text::{contains_seq, find_seq_in, to_chars};
use vstd::prelude::*;

verus! {

/// Why a workflow definition yields no declarations.
#[derive(Debug, Clone, Copy, PartialEq, Eq, Structural)]
pub enum WorkflowError {
    /// The workflow has no job named `run-autograding-tests`.
    MissingGradingJob,
    /// The grading job declares no test.
    NoTestsFound,
}

/// What a `TestDefinition` says, as mathematical values.
pub struct Declaration {
    pub name: Seq<char>,
    pub id: Seq<char>,
    pub max_score: nat,
}

impl View for TestDefinition {
    type V = Declaration;

    open spec fn view(&self) -> Declaration {
        Declaration { name: self.name@, id: self.id@, max_score: self.max_score as nat }
    }
}

/// Index of the first job at or after `lo` that stands under `name`, or `-1`.
pub open spec fn job_index(jobs: Seq<(String, WorkflowJob)>, name: Seq<char>, lo: int) -> int
    decreases jobs.len() - lo,
{
    if lo < 0 || lo >= jobs.len() {
        -1
    } else if jobs[lo].0@ == name {
        lo
    } else {
        job_index(jobs, name, lo + 1)
    }
}

/// Whether a step declares a graded test: it uses the autograding command
/// grader, and it has an identifier and a greatest score.
pub open spec fn declares_test(step: WorkflowStep) -> bool {
    &&& match step.uses {
        Some(u) => contains_seq(u@, "autograding-command-grader"@),
        None => false,
    }
    &&& step.id is Some
    &&& match step.with {
        Some(w) => w.max_score is Some,
        None => false,
    }
}

/// The declaration that a declaring step makes.
pub open spec fn declaration_of(step: WorkflowStep) -> Declaration {
    Declaration {
        name: step.name@,
        id: step.id->0@,
        max_score: step.with->0.max_score->0 as nat,
    }
}

/// The declarations of a job's steps, in the steps' order.
pub open spec fn declared_tests(steps: Seq<WorkflowStep>) -> Seq<Declaration>
    decreases steps.len(),
{
    if steps.len() == 0 {
        Seq::<Declaration>::empty()
    } else if declares_test(steps.last()) {
        declared_tests(steps.drop_last()).push(declaration_of(steps.last()))
    } else {
        declared_tests(steps.drop_last())
    }
}

/// Whether `defs` holds exactly the declarations `decls`, in order.
pub open spec fn holds_declarations(defs: Seq<TestDefinition>, decls: Seq<Declaration>) -> bool {
    &&& defs.len() == decls.len()
    &&& forall|i: int| 0 <= i < defs.len() ==> (#[trigger] defs[i])@ == decls[i]
}

/// `job_index` gives a job under the name, and `-1` only when there is none.
/// Where no two jobs stand under one name, it gives the one job under the name.
pub proof fn lemma_job_index(workflow: WorkflowFile, name: Seq<char>, lo: int)
    requires
        0 <= lo,
    ensures
        job_index(workflow.jobs@, name, lo) == -1 || lo <= job_index(workflow.jobs@, name, lo)
            < workflow.jobs.len(),
        job_index(workflow.jobs@, name, lo) >= 0 ==> workflow.jobs[job_index(
            workflow.jobs@,
            name,
            lo,
        )].0@ == name,
        forall|k: int|
            lo <= k < workflow.jobs.len() && (#[trigger] workflow.jobs[k]).0@ == name
                ==> job_index(workflow.jobs@, name, lo) >= 0 && job_index(
                workflow.jobs@,
                name,
                lo,
            ) <= k,
        forall|k: int|
            workflow.distinct_job_names() && lo <= k < workflow.jobs.len() && (
            #[trigger] workflow.jobs[k]).0@ == name ==> job_index(workflow.jobs@, name, lo) == k,
    decreases workflow.jobs.len() - lo,
{
    if lo < workflow.jobs.len() && workflow.jobs[lo].0@ != name {
        lemma_job_index(workflow, name, lo + 1);
    }
}

/// Finds the job that stands under `name`.
fn find_job<'a>(workflow: &'a WorkflowFile, name: &String) -> (r: Option<&'a WorkflowJob>)
    ensures
        match r {
            Some(job) => job_index(workflow.jobs@, name@, 0) >= 0 && *job
                == workflow.jobs@[job_index(workflow.jobs@, name@, 0)].1,
            None => job_index(workflow.jobs@, name@, 0) == -1,
        },
{
    let mut i: usize = 0;
    while i < workflow.jobs.len()
        invariant
            i <= workflow.jobs.len(),
            job_index(workflow.jobs@, name@, 0) == job_index(workflow.jobs@, name@, i as int),
        decreases workflow.jobs.len() - i,
    {
        if workflow.jobs[i].0 == *name {
            return Some(&workflow.jobs[i].1);
        }
        i += 1;
    }
    None
}

/// Reads the declaration of a step, if the step makes one.
fn declaration(step: &WorkflowStep, marker: &Vec<char>) -> (r: Option<TestDefinition>)
    requires
        marker@ == "autograding-command-grader"@,
    ensures
        match r {
            Some(def) => declares_test(*step) && def@ == declaration_of(*step),
            None => !declares_test(*step),
        },
{
    let uses_grader = match &step.uses {
        Some(u) => find_seq_in(&to_chars(u.as_str()), marker).is_some(),
        None => false,
    };
    if !uses_grader {
        return None;
    }
    match (&step.id, &step.with) {
        (Some(id), Some(with)) => match with.max_score {
            Some(max_score) => Some(
                TestDefinition { name: step.name.clone(), id: id.clone(), max_score },
            ),
            None => None,
        },
        _ => None,
    }
}

/// Extracts the graded-test declarations of a workflow: those of the steps of
/// its job `run-autograding-tests`, in the steps' order.
///
/// Whether or not the names of the jobs are distinct, the job that is read is
/// the first of that name, and the grading job is missing exactly when no job
/// has that name. Where the names are distinct it is the only job of that name
/// (`lemma_job_index`).
pub fn extract_test_definitions(workflow: &WorkflowFile) -> (r: Result<
    Vec<TestDefinition>,
    WorkflowError,
>)
    ensures
        match r {
            Ok(defs) => {
                let at = job_index(workflow.jobs@, "run-autograding-tests"@, 0);
                &&& at >= 0
                &&& defs.len() > 0
                &&& holds_declarations(defs@, declared_tests(workflow.jobs@[at].1.steps@))
            },
            Err(WorkflowError::MissingGradingJob) => {
                &&& job_index(workflow.jobs@, "run-autograding-tests"@, 0) == -1
                &&& forall|k: int|
                    0 <= k < workflow.jobs.len() ==> (#[trigger] workflow.jobs[k]).0@
                        != "run-autograding-tests"@
            },
            Err(WorkflowError::NoTestsFound) => {
                let at = job_index(workflow.jobs@, "run-autograding-tests"@, 0);
                at >= 0 && declared_tests(workflow.jobs@[at].1.steps@).len() == 0
            },
        },
{
    let name = "run-autograding-tests".to_owned();
    proof {
        lemma_job_index(*workflow, name@, 0);
    }
    let job = match find_job(workflow, &name) {
        Some(job) => job,
        None => {
            return Err(WorkflowError::MissingGradingJob);
        },
    };
    let marker = to_chars("autograding-command-grader");
    let mut defs: Vec<TestDefinition> = Vec::new();
    let mut k: usize = 0;
    while k < job.steps.len()
        invariant
            k <= job.steps.len(),
            marker@ == "autograding-command-grader"@,
            holds_declarations(defs@, declared_tests(job.steps@.take(k as int))),
        decreases job.steps.len() - k,
    {
        proof {
            assert(job.steps@.take(k + 1).drop_last() =~= job.steps@.take(k as int));
        }
        match declaration(&job.steps[k], &marker) {
            Some(def) => {
                defs.push(def);
            },
            None => {},
        }
        k += 1;
    }
    proof {
        assert(job.steps@.take(k as int) =~= job.steps@);
    }
    if defs.len() == 0 {
        return Err(WorkflowError::NoTestsFound);
    }
    Ok(defs)
}

} // verus!

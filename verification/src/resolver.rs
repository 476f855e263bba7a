//! Resolving a roster one student after the other.
//!
//! The resolver never reads anything itself. It says what it needs next (the
//! stage it is in), a driver fetches that and hands the outcome back as a
//! `Reply`, and `BatchResolver::advance` decides what follows. A student whose
//! resolution fails is counted and left out; the batch goes on.

use crate::fetcher::{parse_points_from_summary, parse_repo_url, points_in_log, repo_parts};
use crate::models::{
    AcceptedAssignment, Grade, Job, JobStep, StudentResult, TestDefinition, Timestamp, WorkflowRun,
};
use crate::scoring::{
    awarded_sum, declared_columns, lemma_score_table_bounds, max_score_sum, provisional_total,
    score_steps, score_table, within_available,
};
use crate::table::{entries, names_of};
use crate::time::{rfc3339, rfc3339_text};
use vstd::prelude::*;
use vstd::string::StringExecFns;

verus! {

/// The event that triggers the runs that are graded.
pub const RUN_EVENT: &'static str = "repository_dispatch";

/// The status of the runs that are asked for.
pub const RUN_STATUS: &'static str = "completed";

/// Why the resolution of one student failed.
#[derive(Debug, Clone, Copy, PartialEq, Eq, Structural)]
pub enum ResolveError {
    /// The repository's full name has no owner or no name.
    InvalidRepository,
    /// The runs of the repository could not be read.
    RunsUnavailable,
    /// No run of the repository can be graded.
    NoCompletedRun,
    /// The jobs of the graded run could not be read.
    JobsUnavailable,
    /// The graded run has no job named `run-autograding-tests`.
    MissingGradingJob,
}

/// Why a batch cannot be resolved at all.
#[derive(Debug, Clone, Copy, PartialEq, Eq, Structural)]
pub enum BatchError {
    /// Nobody has accepted the assignment.
    EmptyRoster,
    /// The address of the starter repository names no repository.
    InvalidStarterUrl,
    /// There is no starter repository, and the full name of the first
    /// student's repository has no owner or no name.
    InvalidRepository,
}

/// The student whose resolution is under way.
#[derive(Debug, Clone)]
pub struct Pending {
    pub username: String,
    pub owner: String,
    pub repo: String,
    pub repo_url: String,
}

/// What the resolver waits for.
#[derive(Debug, Clone)]
pub enum Stage {
    /// The observer is to be told which student comes next.
    Announce,
    /// The repository's runs, triggered by `RUN_EVENT` and of the status
    /// `RUN_STATUS`, and created as `created` says where it says anything.
    Runs { who: Pending, created: Option<String> },
    /// The jobs of run `run_id`.
    Jobs { who: Pending, run_id: u64, run_timestamp: Timestamp },
    /// The log of job `job_id`.
    Log { who: Pending, job_id: u64, run_timestamp: Timestamp, steps: Vec<JobStep> },
    /// Nothing: every student of the roster was taken.
    Finished,
}

/// What the driver hands back. `None` says that the read failed.
#[derive(Debug, Clone)]
pub enum Reply {
    Announced,
    Runs(Option<Vec<WorkflowRun>>),
    Jobs(Option<Vec<Job>>),
    Log(Option<String>),
}

/// The handle of a roster entry: the login of its first student, or `unknown`.
pub open spec fn handle_of(student: AcceptedAssignment) -> Seq<char> {
    if student.students.len() > 0 {
        student.students[0].login@
    } else {
        "unknown"@
    }
}

/// The handle of a roster entry.
pub fn student_handle(student: &AcceptedAssignment) -> (handle: String)
    ensures
        handle@ == handle_of(*student),
{
    if student.students.len() > 0 {
        student.students[0].login.clone()
    } else {
        "unknown".to_owned()
    }
}

/// The filter that asks for runs created at the deadline or later: `>=` and the
/// deadline as text. No filter without a deadline.
pub open spec fn created_filter_of(deadline: Option<Timestamp>) -> Option<Seq<char>> {
    match deadline {
        Some(d) => match rfc3339_text(d.secs, d.nanos) {
            Some(text) => Some(">="@ + text),
            None => None,
        },
        None => None,
    }
}

/// The filter for runs created at the instant written in `instant` or later.
pub fn created_at_or_after(instant: &str) -> (filter: String)
    ensures
        filter@ == ">="@ + instant@,
{
    ">=".to_owned().concat(instant)
}

/// The filter on the creation time of runs that a deadline asks for.
pub fn created_filter(deadline: Option<Timestamp>) -> (filter: Option<String>)
    ensures
        match filter {
            Some(text) => created_filter_of(deadline) == Some(text@),
            None => created_filter_of(deadline) is None,
        },
{
    match deadline {
        Some(d) => match rfc3339(d.secs, d.nanos) {
            Some(text) => Some(created_at_or_after(text.as_str())),
            None => None,
        },
        None => None,
    }
}

/// Whether the repository of a roster entry can be addressed: its full name has
/// an owner and a name.
pub open spec fn addressable(student: AcceptedAssignment) -> bool {
    let parts = repo_parts(student.repository.full_name@);
    parts.0.len() > 0 && parts.1.len() > 0
}

/// Whether `who` is the student of the roster entry `student`.
pub open spec fn pending_of(who: Pending, student: AcceptedAssignment) -> bool {
    &&& who.username@ == handle_of(student)
    &&& who.owner@ == repo_parts(student.repository.full_name@).0
    &&& who.repo@ == repo_parts(student.repository.full_name@).1
    &&& who.repo_url@ == student.repository.html_url@
}

/// Starts the resolution of a student: who it is and where its repository lies.
pub fn plan_student(student: &AcceptedAssignment) -> (r: Result<Pending, ResolveError>)
    ensures
        match r {
            Ok(who) => addressable(*student) && pending_of(who, *student),
            Err(e) => !addressable(*student) && e == ResolveError::InvalidRepository,
        },
{
    let (owner, repo) = parse_repo_url(student.repository.full_name.as_str());
    if owner.unicode_len() == 0 || repo.unicode_len() == 0 {
        return Err(ResolveError::InvalidRepository);
    }
    Ok(
        Pending {
            username: student_handle(student),
            owner: owner.to_owned(),
            repo: repo.to_owned(),
            repo_url: student.repository.html_url.clone(),
        },
    )
}

/// Index of the first job at or after `lo` named `run-autograding-tests`, or `-1`.
pub open spec fn grading_job_index(jobs: Seq<Job>, lo: int) -> int
    decreases jobs.len() - lo,
{
    if lo < 0 || lo >= jobs.len() {
        -1
    } else if jobs[lo].name@ == "run-autograding-tests"@ {
        lo
    } else {
        grading_job_index(jobs, lo + 1)
    }
}

/// Finds the job whose steps are the graded tests.
pub fn find_grading_job(jobs: &Vec<Job>) -> (r: Option<usize>)
    ensures
        match r {
            Some(i) => i < jobs.len() && i == grading_job_index(jobs@, 0),
            None => grading_job_index(jobs@, 0) == -1,
        },
{
    let name = "run-autograding-tests".to_owned();
    let mut i: usize = 0;
    while i < jobs.len()
        invariant
            i <= jobs.len(),
            name@ == "run-autograding-tests"@,
            grading_job_index(jobs@, 0) == grading_job_index(jobs@, i as int),
        decreases jobs.len() - i,
    {
        if jobs[i].name == name {
            return Some(i);
        }
        i += 1;
    }
    None
}

/// The total that counts: the score that the log reports where it reports one,
/// and the provisional total as it is in every other case.
pub open spec fn refined_total(provisional: nat, log: Option<Seq<char>>) -> nat {
    match log {
        Some(text) => match points_in_log(text) {
            Some(points) => points as nat,
            None => provisional,
        },
        None => provisional,
    }
}

/// Replaces the provisional total by the score that the log reports. Without a
/// log, or with a log in which no score can be read, the provisional total stays.
pub fn refine_total(provisional: u32, log: Option<&str>) -> (total: u32)
    ensures
        total == refined_total(
            provisional as nat,
            match log {
                Some(text) => Some(text@),
                None => None,
            },
        ),
        log is None ==> total == provisional,
        log is Some && points_in_log(log->0@) is None ==> total == provisional,
{
    match log {
        Some(text) => match parse_points_from_summary(text) {
            Some(points) => points,
            None => provisional,
        },
        None => provisional,
    }
}

/// The grade of a student from the declarations, the steps of the graded job
/// and the job's log: each declared test scored by its step, the total awarded
/// refined by the log, and the total available summed over the declarations.
pub open spec fn resolved_grade(
    username: Seq<char>,
    repo_url: Seq<char>,
    run_timestamp: Timestamp,
    defs: Seq<TestDefinition>,
    steps: Seq<JobStep>,
    log: Option<Seq<char>>,
) -> Grade {
    Grade {
        username,
        repo_url,
        run_timestamp,
        tests: score_table(defs, steps),
        total_awarded: refined_total(awarded_sum(score_table(defs, steps)), log),
        total_available: max_score_sum(defs),
    }
}

/// A log that cannot be had, or in which no score can be read, loses nothing:
/// the total awarded is then the sum of the points that the steps gave, and
/// whatever the log says, the scores of the tests and the total available are
/// those of the steps and the declarations.
pub proof fn lemma_unreadable_log_keeps_total(
    username: Seq<char>,
    repo_url: Seq<char>,
    run_timestamp: Timestamp,
    defs: Seq<TestDefinition>,
    steps: Seq<JobStep>,
    log: Option<Seq<char>>,
)
    ensures
        log is None || points_in_log(log->0) is None ==> resolved_grade(
            username,
            repo_url,
            run_timestamp,
            defs,
            steps,
            log,
        ).total_awarded == awarded_sum(score_table(defs, steps)),
        resolved_grade(username, repo_url, run_timestamp, defs, steps, log).tests
            == resolved_grade(username, repo_url, run_timestamp, defs, steps, None).tests,
        resolved_grade(username, repo_url, run_timestamp, defs, steps, log).total_available
            == max_score_sum(defs),
{
}

/// Builds the result of a student whose graded job has the steps `steps`.
pub fn build_student_result(
    username: String,
    repo_url: String,
    run_timestamp: Timestamp,
    defs: &Vec<TestDefinition>,
    steps: &Vec<JobStep>,
    log: Option<&str>,
) -> (r: StudentResult)
    requires
        max_score_sum(defs@) <= u32::MAX,
    ensures
        r@ == resolved_grade(
            username@,
            repo_url@,
            run_timestamp,
            defs@,
            steps@,
            match log {
                Some(text) => Some(text@),
                None => None,
            },
        ),
        within_available(entries(r.tests)),
        names_of(entries(r.tests)) == declared_columns(defs@),
{
    proof {
        lemma_score_table_bounds(defs@, steps@);
    }
    let tests = score_steps(defs, steps);
    let provisional = match provisional_total(&tests) {
        Some(total) => total,
        None => 0,
    };
    let total_awarded = refine_total(provisional, log);
    let total_available = match crate::scoring::total_available(defs) {
        Some(total) => total,
        None => 0,
    };
    StudentResult {
        username,
        repo_url,
        workflow_run_timestamp: run_timestamp,
        tests,
        total_awarded,
        total_available,
    }
}

} // verus!

//! The records that the resolver reads and produces.

use crate::table::{entries, table_clone};
use indexmap::IndexMap;
use vstd::prelude::*;

verus! {

/// An instant in UTC: whole seconds since 1970-01-01T00:00:00, and the
/// nanoseconds past that second (a leap second is written with a billion or more).
#[derive(Debug, Clone, Copy, PartialEq, Eq, Structural)]
pub struct Timestamp {
    pub secs: i64,
    pub nanos: u32,
}

impl Timestamp {
    /// Whether `self` is strictly earlier than `other`.
    pub open spec fn lt(self, other: Timestamp) -> bool {
        self.secs < other.secs || (self.secs == other.secs && self.nanos < other.nanos)
    }

    /// Whether `self` is `other` or earlier.
    pub open spec fn le(self, other: Timestamp) -> bool {
        self.lt(other) || self == other
    }

    /// Executable `lt`.
    pub fn is_before(&self, other: &Timestamp) -> (r: bool)
        ensures
            r == self.lt(*other),
    {
        self.secs < other.secs || (self.secs == other.secs && self.nanos < other.nanos)
    }
}

#[derive(Debug, Clone)]
pub struct Classroom {
    pub id: u64,
    pub name: String,
    pub archived: bool,
    pub url: String,
}

#[derive(Debug, Clone)]
pub struct Assignment {
    pub id: u64,
    pub title: String,
    pub slug: String,
    pub accepted: u32,
    pub submitted: u32,
    pub passing: u32,
    pub deadline: Option<Timestamp>,
    pub starter_code_url: Option<String>,
    pub classroom: SimpleClassroom,
}

#[derive(Debug, Clone)]
pub struct SimpleClassroom {
    pub id: u64,
    pub name: String,
}

#[derive(Debug, Clone)]
pub struct AcceptedAssignment {
    pub id: u64,
    pub submitted: bool,
    pub passing: bool,
    pub commit_count: u32,
    pub grade: Option<String>,
    pub students: Vec<Student>,
    pub repository: Repository,
    pub assignment: AssignmentInfo,
}

#[derive(Debug, Clone)]
pub struct Student {
    pub id: u64,
    pub login: String,
    pub name: Option<String>,
    pub avatar_url: String,
    pub html_url: Option<String>,
}

#[derive(Debug, Clone)]
pub struct Repository {
    pub id: u64,
    pub full_name: String,
    pub html_url: String,
    pub default_branch: String,
}

#[derive(Debug, Clone)]
pub struct AssignmentInfo {
    pub id: u64,
    pub title: String,
}

#[derive(Debug, Clone)]
pub struct WorkflowRunsResponse {
    pub total_count: u32,
    pub workflow_runs: Vec<WorkflowRun>,
}

#[derive(Debug, Clone)]
pub struct WorkflowRun {
    pub id: u64,
    pub name: String,
    pub head_branch: String,
    pub head_sha: String,
    pub status: String,
    pub conclusion: Option<String>,
    pub created_at: Timestamp,
    pub updated_at: Timestamp,
    pub run_started_at: Option<Timestamp>,
    pub event: String,
}

#[derive(Debug, Clone)]
pub struct JobsResponse {
    pub total_count: u32,
    pub jobs: Vec<Job>,
}

#[derive(Debug, Clone)]
pub struct Job {
    pub id: u64,
    pub name: String,
    pub status: String,
    pub conclusion: Option<String>,
    pub started_at: Option<Timestamp>,
    pub completed_at: Option<Timestamp>,
    pub steps: Vec<JobStep>,
}

#[derive(Debug, Clone)]
pub struct JobStep {
    pub name: String,
    pub status: String,
    pub conclusion: Option<String>,
    pub number: u32,
    pub started_at: Option<Timestamp>,
    pub completed_at: Option<Timestamp>,
}

#[derive(Debug, Clone)]
pub struct FileContent {
    pub name: String,
    pub path: String,
    pub sha: String,
    pub size: u64,
    pub content: String,
    pub encoding: String,
}

#[derive(Debug, Clone)]
pub struct CheckRunsResponse {
    pub total_count: u32,
    pub check_runs: Vec<CheckRun>,
}

#[derive(Debug, Clone)]
pub struct CheckRun {
    pub id: u64,
    pub name: String,
    pub status: String,
    pub conclusion: Option<String>,
    pub output: Option<CheckRunOutput>,
    pub app: Option<CheckRunApp>,
    pub annotations_count: Option<u32>,
}

#[derive(Debug, Clone)]
pub struct CheckRunOutput {
    pub title: Option<String>,
    pub summary: Option<String>,
    pub text: Option<String>,
}

#[derive(Debug, Clone)]
pub struct CheckRunApp {
    pub id: u64,
    pub slug: String,
    pub name: String,
}

/// A workflow definition: its jobs, each under its name. In a definition as
/// it is read from a file a name stands once (`distinct_job_names`).
#[derive(Debug, Clone)]
pub struct WorkflowFile {
    pub jobs: Vec<(String, WorkflowJob)>,
}

impl WorkflowFile {
    /// Whether no two jobs stand under one name.
    pub open spec fn distinct_job_names(self) -> bool {
        forall|i: int, j: int|
            0 <= i < j < self.jobs.len() ==> (#[trigger] self.jobs[i]).0@ != (
            #[trigger] self.jobs[j]).0@
    }

    /// Whether no two jobs stand under one name.
    pub fn has_distinct_job_names(&self) -> (r: bool)
        ensures
            r == self.distinct_job_names(),
    {
        let mut j: usize = 0;
        while j < self.jobs.len()
            invariant
                j <= self.jobs.len(),
                forall|a: int, b: int|
                    0 <= a < b < j ==> (#[trigger] self.jobs[a]).0@ != (#[trigger] self.jobs[b]).0@,
            decreases self.jobs.len() - j,
        {
            let mut i: usize = 0;
            while i < j
                invariant
                    i <= j < self.jobs.len(),
                    forall|a: int| 0 <= a < i ==> (#[trigger] self.jobs[a]).0@ != self.jobs[j as int].0@,
                decreases j - i,
            {
                if self.jobs[i].0 == self.jobs[j].0 {
                    return false;
                }
                i += 1;
            }
            j += 1;
        }
        true
    }
}

#[derive(Debug, Clone)]
pub struct WorkflowJob {
    pub steps: Vec<WorkflowStep>,
}

#[derive(Debug, Clone)]
pub struct WorkflowStep {
    pub name: String,
    pub id: Option<String>,
    pub uses: Option<String>,
    pub with: Option<StepWith>,
}

#[derive(Debug, Clone)]
pub struct StepWith {
    pub test_name: Option<String>,
    pub max_score: Option<u32>,
}

/// A graded test as the workflow declares it.
#[derive(Debug, Clone)]
pub struct TestDefinition {
    pub name: String,
    pub id: String,
    pub max_score: u32,
}

/// The score of one test for one student.
#[derive(Debug, Clone)]
pub struct TestResult {
    pub name: String,
    pub points_awarded: u32,
    pub points_available: u32,
    pub passed: bool,
}

/// What a `TestResult` says, as mathematical values.
pub struct TestScore {
    pub name: Seq<char>,
    pub awarded: nat,
    pub available: nat,
    pub passed: bool,
}

impl View for TestResult {
    type V = TestScore;

    open spec fn view(&self) -> TestScore {
        TestScore {
            name: self.name@,
            awarded: self.points_awarded as nat,
            available: self.points_available as nat,
            passed: self.passed,
        }
    }
}

/// The resolved grade of one student: the per-test scores in declaration order
/// and the totals.
#[derive(Debug)]
pub struct StudentResult {
    pub username: String,
    pub repo_url: String,
    pub workflow_run_timestamp: Timestamp,
    pub tests: IndexMap<String, TestResult>,
    pub total_awarded: u32,
    pub total_available: u32,
}

/// What a `StudentResult` says, as mathematical values.
pub struct Grade {
    pub username: Seq<char>,
    pub repo_url: Seq<char>,
    pub run_timestamp: Timestamp,
    pub tests: Seq<(Seq<char>, TestScore)>,
    pub total_awarded: nat,
    pub total_available: nat,
}

impl View for StudentResult {
    type V = Grade;

    open spec fn view(&self) -> Grade {
        Grade {
            username: self.username@,
            repo_url: self.repo_url@,
            run_timestamp: self.workflow_run_timestamp,
            tests: entries(self.tests),
            total_awarded: self.total_awarded as nat,
            total_available: self.total_available as nat,
        }
    }
}

impl Clone for StudentResult {
    /// A copy that says what `self` says.
    fn clone(&self) -> (r: Self)
        ensures
            r@ == self@,
    {
        StudentResult {
            username: self.username.clone(),
            repo_url: self.repo_url.clone(),
            workflow_run_timestamp: self.workflow_run_timestamp,
            tests: table_clone(&self.tests),
            total_awarded: self.total_awarded,
            total_available: self.total_available,
        }
    }
}

/// The on-time and the late result of one student, and the score that counts.
#[derive(Debug, Clone)]
pub struct LateGradingResult {
    pub username: String,
    pub repo_url: String,
    pub on_time_result: StudentResult,
    pub late_result: StudentResult,
    pub final_score: u32,
}

/// What a `LateGradingResult` says, as mathematical values.
pub struct LateGrade {
    pub username: Seq<char>,
    pub repo_url: Seq<char>,
    pub on_time: Grade,
    pub late: Grade,
    pub final_score: nat,
}

impl View for LateGradingResult {
    type V = LateGrade;

    open spec fn view(&self) -> LateGrade {
        LateGrade {
            username: self.username@,
            repo_url: self.repo_url@,
            on_time: self.on_time_result@,
            late: self.late_result@,
            final_score: self.final_score as nat,
        }
    }
}

} // verus!

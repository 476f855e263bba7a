use autograder::batch::{BatchResolver, Failure};
use autograder::models::{
    AcceptedAssignment, AssignmentInfo, Job, JobStep, Repository, Student, TestDefinition,
    Timestamp, WorkflowRun,
};
use autograder::resolver::{
    find_grading_job, plan_student, student_handle, BatchError, Reply, ResolveError, Stage,
};
use autograder::scoring::total_available;
use autograder::source::{definitions_repository, starter_repository, WORKFLOW_PATH};

fn member(login: &str, full_name: &str) -> AcceptedAssignment {
    AcceptedAssignment {
        id: 1,
        submitted: true,
        passing: false,
        commit_count: 3,
        grade: None,
        students: vec![Student {
            id: 7,
            login: login.to_string(),
            name: None,
            avatar_url: String::new(),
            html_url: None,
        }],
        repository: Repository {
            id: 9,
            full_name: full_name.to_string(),
            html_url: format!("https://github.com/{}", full_name),
            default_branch: "main".to_string(),
        },
        assignment: AssignmentInfo { id: 2, title: "hw".to_string() },
    }
}

fn defs() -> Vec<TestDefinition> {
    vec![
        TestDefinition { name: "t1".to_string(), id: "t-1".to_string(), max_score: 5 },
        TestDefinition { name: "t2".to_string(), id: "t-2".to_string(), max_score: 10 },
    ]
}

fn run(id: u64, secs: i64, concluded: bool) -> WorkflowRun {
    WorkflowRun {
        id,
        name: "Autograding Tests".to_string(),
        head_branch: "main".to_string(),
        head_sha: "abc".to_string(),
        status: "completed".to_string(),
        conclusion: if concluded { Some("success".to_string()) } else { None },
        created_at: Timestamp { secs, nanos: 0 },
        updated_at: Timestamp { secs, nanos: 0 },
        run_started_at: None,
        event: "repository_dispatch".to_string(),
    }
}

fn step(name: &str, conclusion: &str) -> JobStep {
    JobStep {
        name: name.to_string(),
        status: "completed".to_string(),
        conclusion: Some(conclusion.to_string()),
        number: 1,
        started_at: None,
        completed_at: None,
    }
}

fn job(id: u64, name: &str, steps: Vec<JobStep>) -> Job {
    Job {
        id,
        name: name.to_string(),
        status: "completed".to_string(),
        conclusion: Some("success".to_string()),
        started_at: None,
        completed_at: None,
        steps,
    }
}

fn grading_jobs(t1: &str, t2: &str) -> Vec<Job> {
    vec![
        job(40, "lint", vec![step("t1", "success")]),
        job(41, "run-autograding-tests", vec![step("t1", t1), step("t2", t2)]),
        job(42, "run-autograding-tests", vec![step("t1", "success"), step("t2", "success")]),
    ]
}

fn batch(roster: Vec<AcceptedAssignment>, deadline: Option<Timestamp>) -> BatchResolver {
    let definitions = defs();
    assert!(total_available(&definitions).is_some());
    BatchResolver::new(roster, definitions, deadline).unwrap()
}

fn resolve(b: BatchResolver, runs: Vec<WorkflowRun>, jobs: Vec<Job>, log: Option<&str>) -> BatchResolver {
    let b = b.advance(Reply::Announced);
    let b = b.advance(Reply::Runs(Some(runs)));
    let b = b.advance(Reply::Jobs(Some(jobs)));
    b.advance(Reply::Log(log.map(|l| l.to_string())))
}

#[test]
fn empty_roster_has_no_batch() {
    let r = BatchResolver::new(vec![], defs(), None);
    assert_eq!(r.unwrap_err(), BatchError::EmptyRoster);
}

#[test]
fn student_is_resolved_stage_by_stage() {
    let deadline = Timestamp { secs: 1704240000, nanos: 0 };
    let b = batch(vec![member("ada", "org/hw-ada")], Some(deadline));
    assert!(matches!(b.stage, Stage::Announce));
    assert_eq!(b.progress(), (1, 1, "ada".to_string()));
    assert!(!b.is_finished());

    let b = b.advance(Reply::Announced);
    match &b.stage {
        Stage::Runs { who, created } => {
            assert_eq!(who.username, "ada");
            assert_eq!(who.owner, "org");
            assert_eq!(who.repo, "hw-ada");
            assert_eq!(who.repo_url, "https://github.com/org/hw-ada");
            assert_eq!(created.as_deref(), Some(">=2024-01-03T00:00:00+00:00"));
        }
        other => panic!("unexpected stage {:?}", other),
    }

    let b = b.advance(Reply::Runs(Some(vec![
        run(1, 1704067200, true),
        run(2, 1704412800, true),
        run(3, 1704300000, false),
    ])));
    match &b.stage {
        Stage::Jobs { who, run_id, run_timestamp } => {
            assert_eq!(who.username, "ada");
            assert_eq!(*run_id, 2);
            assert_eq!(*run_timestamp, Timestamp { secs: 1704412800, nanos: 0 });
        }
        other => panic!("unexpected stage {:?}", other),
    }

    let b = b.advance(Reply::Jobs(Some(grading_jobs("success", "failure"))));
    match &b.stage {
        Stage::Log { who, job_id, run_timestamp, steps } => {
            assert_eq!(who.repo, "hw-ada");
            assert_eq!(*job_id, 41);
            assert_eq!(run_timestamp.secs, 1704412800);
            assert_eq!(steps.len(), 2);
            assert_eq!(steps[1].conclusion.as_deref(), Some("failure"));
        }
        other => panic!("unexpected stage {:?}", other),
    }

    let b = b.advance(Reply::Log(Some("Points 12/15".to_string())));
    assert!(b.is_finished());
    assert!(matches!(b.stage, Stage::Finished));
    let (results, failures) = b.into_results();
    assert_eq!(failures, vec![]);
    assert_eq!(results.len(), 1);
    let r = &results[0];
    assert_eq!(r.username, "ada");
    assert_eq!(r.repo_url, "https://github.com/org/hw-ada");
    assert_eq!(r.workflow_run_timestamp, Timestamp { secs: 1704412800, nanos: 0 });
    assert_eq!(r.total_awarded, 12);
    assert_eq!(r.total_available, 15);
    assert_eq!(r.tests["t1"].points_awarded, 5);
    assert_eq!(r.tests["t2"].points_awarded, 0);
}

#[test]
fn failed_log_read_keeps_the_provisional_total() {
    let b = batch(vec![member("ada", "org/hw-ada")], None);
    let b = resolve(b, vec![run(1, 10, true)], grading_jobs("success", "failure"), None);
    let (results, failures) = b.into_results();
    assert_eq!(failures, vec![]);
    assert_eq!(results[0].total_awarded, 5);
    assert_eq!(results[0].total_available, 15);
}

#[test]
fn every_result_of_a_batch_has_the_same_total_available() {
    let roster = vec![
        member("ada", "org/hw-ada"),
        member("bob", "org/hw-bob"),
        member("cy", "org/hw-cy"),
    ];
    let b = batch(roster, None);
    let b = resolve(b, vec![run(1, 10, true)], grading_jobs("success", "success"), None);
    assert_eq!(b.progress(), (2, 3, "bob".to_string()));
    let b = resolve(b, vec![run(1, 10, true)], grading_jobs("failure", "skipped"), Some("0/15"));
    let b = resolve(b, vec![run(1, 10, true)], grading_jobs("success", "failure"), Some("Points 99/15"));
    assert!(b.is_finished());
    let (results, failures) = b.into_results();
    assert_eq!(failures, vec![]);
    assert_eq!(results.len(), 3);
    for r in &results {
        assert_eq!(r.total_available, 15);
        for t in r.tests.values() {
            assert!(t.points_awarded <= t.points_available);
        }
    }
    for r in &results {
        let columns: Vec<&str> = r.tests.keys().map(|k| k.as_str()).collect();
        assert_eq!(columns, vec!["t1", "t2"]);
    }
    let awarded: Vec<u32> = results.iter().map(|r| r.total_awarded).collect();
    assert_eq!(awarded, vec![15, 0, 99]);
    let names: Vec<&str> = results.iter().map(|r| r.username.as_str()).collect();
    assert_eq!(names, vec!["ada", "bob", "cy"]);
}

#[test]
fn failures_are_counted_and_the_batch_goes_on() {
    let roster = vec![
        member("no-repo", "norepo"),
        member("no-runs", "org/a"),
        member("nothing-concluded", "org/b"),
        member("no-jobs", "org/c"),
        member("no-grading-job", "org/d"),
        member("fine", "org/e"),
    ];
    let b = batch(roster, None);

    // the repository's full name has no owner
    let b = b.advance(Reply::Announced);
    assert_eq!((b.position, b.errors(), b.results.len()), (1, 1, 0));
    assert!(matches!(b.stage, Stage::Announce));

    // the runs cannot be read
    let b = b.advance(Reply::Announced).advance(Reply::Runs(None));
    assert_eq!((b.position, b.errors(), b.results.len()), (2, 2, 0));

    // no run has concluded
    let b = b.advance(Reply::Announced).advance(Reply::Runs(Some(vec![run(1, 10, false)])));
    assert_eq!((b.position, b.errors(), b.results.len()), (3, 3, 0));

    // the jobs cannot be read
    let b = b
        .advance(Reply::Announced)
        .advance(Reply::Runs(Some(vec![run(1, 10, true)])))
        .advance(Reply::Jobs(None));
    assert_eq!((b.position, b.errors(), b.results.len()), (4, 4, 0));

    // the run has no grading job
    let b = b
        .advance(Reply::Announced)
        .advance(Reply::Runs(Some(vec![run(1, 10, true)])))
        .advance(Reply::Jobs(Some(vec![job(1, "lint", vec![])])));
    assert_eq!((b.position, b.errors(), b.results.len()), (5, 5, 0));
    assert_eq!(b.progress(), (6, 6, "fine".to_string()));

    let b = resolve(b, vec![run(1, 10, true)], grading_jobs("success", "success"), None);
    assert!(b.is_finished());
    let (results, failures) = b.into_results();
    assert_eq!(
        failures,
        vec![
            Failure { position: 0, error: ResolveError::InvalidRepository },
            Failure { position: 1, error: ResolveError::RunsUnavailable },
            Failure { position: 2, error: ResolveError::NoCompletedRun },
            Failure { position: 3, error: ResolveError::JobsUnavailable },
            Failure { position: 4, error: ResolveError::MissingGradingJob },
        ]
    );
    assert_eq!(results.len(), 1);
    assert_eq!(results[0].username, "fine");
}

#[test]
fn reply_that_was_not_asked_for_changes_nothing() {
    let b = batch(vec![member("ada", "org/hw-ada")], None);
    let b = b.advance(Reply::Log(Some("Points 1/2".to_string())));
    assert!(matches!(b.stage, Stage::Announce));
    assert_eq!((b.position, b.errors(), b.results.len()), (0, 0, 0));
    let b = b.advance(Reply::Announced).advance(Reply::Jobs(None));
    assert!(matches!(b.stage, Stage::Runs { .. }));
    assert_eq!((b.position, b.errors()), (0, 0));
    let b = b.advance(Reply::Announced);
    assert!(matches!(b.stage, Stage::Runs { .. }));
    let b = b.advance(Reply::Runs(Some(vec![run(1, 10, true)])));
    let b = b.advance(Reply::Runs(None)).advance(Reply::Log(None));
    assert!(matches!(b.stage, Stage::Jobs { .. }));
    let b = b.advance(Reply::Jobs(Some(grading_jobs("success", "success"))));
    let b = b.advance(Reply::Announced).advance(Reply::Jobs(None));
    assert!(matches!(b.stage, Stage::Log { .. }));
    let b = b.advance(Reply::Log(None)).advance(Reply::Announced).advance(Reply::Log(None));
    assert!(b.is_finished());
    assert_eq!((b.position, b.errors(), b.results.len()), (1, 0, 1));
}

#[test]
fn student_without_a_login_is_called_unknown() {
    let mut nobody = member("x", "org/repo");
    nobody.students.clear();
    assert_eq!(student_handle(&nobody), "unknown");
    assert_eq!(plan_student(&nobody).unwrap().username, "unknown");
    assert_eq!(student_handle(&member("ada", "org/repo")), "ada");
}

#[test]
fn repository_without_owner_or_name_is_refused() {
    for full_name in ["", "norepo", "/repo", "org/", "/"] {
        assert_eq!(
            plan_student(&member("ada", full_name)).unwrap_err(),
            ResolveError::InvalidRepository
        );
    }
    let who = plan_student(&member("ada", "org/repo/more")).unwrap();
    assert_eq!((who.owner.as_str(), who.repo.as_str()), ("org", "repo"));
}

#[test]
fn grading_job_is_the_first_of_its_name() {
    assert_eq!(find_grading_job(&grading_jobs("success", "success")), Some(1));
    assert_eq!(find_grading_job(&vec![job(1, "Run-Autograding-Tests", vec![])]), None);
    assert_eq!(find_grading_job(&vec![]), None);
}

#[test]
fn starter_repository_is_read_from_the_end_of_the_address() {
    assert_eq!(starter_repository("https://github.com/owner/repo"), Some(("owner", "repo")));
    assert_eq!(starter_repository("https://github.com/owner/repo///"), Some(("owner", "repo")));
    assert_eq!(starter_repository("owner/repo"), Some(("owner", "repo")));
    assert_eq!(starter_repository("/repo"), Some(("", "repo")));
    assert_eq!(starter_repository("a//b"), Some(("", "b")));
    assert_eq!(starter_repository("repo"), None);
    assert_eq!(starter_repository("repo/"), None);
    assert_eq!(starter_repository("///"), None);
    assert_eq!(starter_repository(""), None);
}

#[test]
fn definitions_come_from_the_starter_or_the_first_student() {
    let roster = vec![member("ada", "org/hw-ada"), member("bob", "org/hw-bob")];
    assert_eq!(
        definitions_repository(&Some("https://github.com/org/starter/".to_string()), &roster),
        Ok(("org".to_string(), "starter".to_string()))
    );
    assert_eq!(
        definitions_repository(&None, &roster),
        Ok(("org".to_string(), "hw-ada".to_string()))
    );
    assert_eq!(
        definitions_repository(&Some("starter".to_string()), &roster),
        Err(BatchError::InvalidStarterUrl)
    );
    assert_eq!(
        definitions_repository(&None, &vec![member("ada", "hw-ada")]),
        Err(BatchError::InvalidRepository)
    );
    assert_eq!(
        definitions_repository(&Some("https://github.com/org/starter".to_string()), &vec![]),
        Err(BatchError::EmptyRoster)
    );
    assert_eq!(definitions_repository(&None, &vec![]), Err(BatchError::EmptyRoster));
    assert_eq!(WORKFLOW_PATH, ".github/workflows/classroom.yml");
}

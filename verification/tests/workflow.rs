use autograder::models::{StepWith, WorkflowFile, WorkflowJob, WorkflowStep};
use autograder::parser::{extract_test_definitions, WorkflowError};

fn text(value: Option<&serde_yaml::Value>) -> Option<String> {
    value.and_then(|v| v.as_str()).map(|s| s.to_string())
}

fn workflow_from_yaml(yaml: &str) -> WorkflowFile {
    let root: serde_yaml::Value = serde_yaml::from_str(yaml).unwrap();
    let mut jobs = Vec::new();
    for (name, job) in root.get("jobs").unwrap().as_mapping().unwrap() {
        let mut steps = Vec::new();
        for step in job.get("steps").unwrap().as_sequence().unwrap() {
            let with = step.get("with").map(|w| StepWith {
                test_name: text(w.get("test-name")),
                max_score: w.get("max-score").and_then(|m| m.as_u64()).map(|m| m as u32),
            });
            steps.push(WorkflowStep {
                name: text(step.get("name")).unwrap(),
                id: text(step.get("id")),
                uses: text(step.get("uses")),
                with,
            });
        }
        jobs.push((name.as_str().unwrap().to_string(), WorkflowJob { steps }));
    }
    WorkflowFile { jobs }
}

fn grader_step(name: &str, id: Option<&str>, uses: Option<&str>, max: Option<u32>) -> WorkflowStep {
    WorkflowStep {
        name: name.to_string(),
        id: id.map(|s| s.to_string()),
        uses: uses.map(|s| s.to_string()),
        with: Some(StepWith { test_name: Some(name.to_string()), max_score: max }),
    }
}

const GRADER: &str = "classroom-resources/autograding-command-grader@v1";

#[test]
fn test_parse_workflow() {
    let yaml = r#"
name: Autograding Tests
on: [repository_dispatch]
jobs:
  run-autograding-tests:
    runs-on: ubuntu-latest
    steps:
      - name: Checkout code
        uses: actions/checkout@v4
      - name: "test_1"
        id: "test-1"
        uses: "classroom-resources/autograding-command-grader@v1"
        with:
          test-name: "test_1"
          command: "cargo test test_1"
          timeout: 10
          max-score: 5
      - name: "test_2"
        id: "test-2"
        uses: "classroom-resources/autograding-command-grader@v1"
        with:
          test-name: "test_2"
          command: "cargo test test_2"
          timeout: 10
          max-score: 10
"#;

    let tests = extract_test_definitions(&workflow_from_yaml(yaml)).unwrap();
    assert_eq!(tests.len(), 2);
    assert_eq!(tests[0].name, "test_1");
    assert_eq!(tests[0].max_score, 5);
    assert_eq!(tests[1].name, "test_2");
    assert_eq!(tests[1].max_score, 10);
    assert_eq!(tests[0].id, "test-1");
    assert_eq!(tests[1].id, "test-2");
}

#[test]
fn workflow_without_the_grading_job_is_refused() {
    let workflow = WorkflowFile {
        jobs: vec![(
            "build".to_string(),
            WorkflowJob { steps: vec![grader_step("t", Some("t"), Some(GRADER), Some(1))] },
        )],
    };
    assert_eq!(extract_test_definitions(&workflow).unwrap_err(), WorkflowError::MissingGradingJob);
    let empty = WorkflowFile { jobs: vec![] };
    assert_eq!(extract_test_definitions(&empty).unwrap_err(), WorkflowError::MissingGradingJob);
    let near = WorkflowFile {
        jobs: vec![("run-autograding-tests ".to_string(), WorkflowJob { steps: vec![] })],
    };
    assert_eq!(extract_test_definitions(&near).unwrap_err(), WorkflowError::MissingGradingJob);
}

#[test]
fn grading_job_without_tests_is_refused() {
    let workflow = WorkflowFile {
        jobs: vec![(
            "run-autograding-tests".to_string(),
            WorkflowJob {
                steps: vec![
                    grader_step("no id", None, Some(GRADER), Some(1)),
                    grader_step("no score", Some("a"), Some(GRADER), None),
                    grader_step("other action", Some("b"), Some("actions/checkout@v4"), Some(1)),
                    grader_step("no action", Some("c"), None, Some(1)),
                    WorkflowStep {
                        name: "no with".to_string(),
                        id: Some("d".to_string()),
                        uses: Some(GRADER.to_string()),
                        with: None,
                    },
                ],
            },
        )],
    };
    assert_eq!(extract_test_definitions(&workflow).unwrap_err(), WorkflowError::NoTestsFound);
    let bare = WorkflowFile {
        jobs: vec![("run-autograding-tests".to_string(), WorkflowJob { steps: vec![] })],
    };
    assert_eq!(extract_test_definitions(&bare).unwrap_err(), WorkflowError::NoTestsFound);
}

#[test]
fn declarations_keep_the_order_of_the_steps() {
    let workflow = WorkflowFile {
        jobs: vec![
            ("lint".to_string(), WorkflowJob { steps: vec![] }),
            (
                "run-autograding-tests".to_string(),
                WorkflowJob {
                    steps: vec![
                        grader_step("zeta", Some("z"), Some(GRADER), Some(3)),
                        grader_step("skipped", None, Some(GRADER), Some(9)),
                        grader_step("alpha", Some("a"), Some("x/autograding-command-grader"), Some(0)),
                        WorkflowStep {
                            name: "unnamed test".to_string(),
                            id: Some("u".to_string()),
                            uses: Some(GRADER.to_string()),
                            with: Some(StepWith { test_name: None, max_score: Some(2) }),
                        },
                    ],
                },
            ),
        ],
    };
    let defs = extract_test_definitions(&workflow).unwrap();
    let seen: Vec<(&str, &str, u32)> =
        defs.iter().map(|d| (d.name.as_str(), d.id.as_str(), d.max_score)).collect();
    assert_eq!(seen, vec![("zeta", "z", 3), ("alpha", "a", 0), ("unnamed test", "u", 2)]);
}

#[test]
fn first_job_of_the_name_is_read_where_names_repeat() {
    let workflow = WorkflowFile {
        jobs: vec![
            (
                "run-autograding-tests".to_string(),
                WorkflowJob { steps: vec![grader_step("first", Some("f"), Some(GRADER), Some(1))] },
            ),
            (
                "run-autograding-tests".to_string(),
                WorkflowJob { steps: vec![grader_step("second", Some("s"), Some(GRADER), Some(2))] },
            ),
        ],
    };
    assert!(!workflow.has_distinct_job_names());
    let defs = extract_test_definitions(&workflow).unwrap();
    assert_eq!(defs.len(), 1);
    assert_eq!(defs[0].name, "first");
}

#[test]
fn job_names_are_told_apart() {
    let job = |name: &str| (name.to_string(), WorkflowJob { steps: vec![] });
    assert!(WorkflowFile { jobs: vec![] }.has_distinct_job_names());
    assert!(WorkflowFile { jobs: vec![job("a")] }.has_distinct_job_names());
    assert!(WorkflowFile { jobs: vec![job("a"), job("b"), job("c")] }.has_distinct_job_names());
    assert!(!WorkflowFile { jobs: vec![job("a"), job("b"), job("a")] }.has_distinct_job_names());
    assert!(!WorkflowFile { jobs: vec![job("b"), job("a"), job("a")] }.has_distinct_job_names());
    assert!(WorkflowFile { jobs: vec![job("a"), job("A")] }.has_distinct_job_names());
}

use autograder::models::{StudentResult, TestResult, Timestamp};
use autograder::stats::{
    errored_count, is_share_below, median_positions, position_of_rank, rank_of, tally,
};
use indexmap::IndexMap;

fn graded(awarded: u32, available: u32) -> StudentResult {
    let mut tests = IndexMap::new();
    tests.insert(
        "t".to_string(),
        TestResult {
            name: "t".to_string(),
            points_awarded: awarded.min(available),
            points_available: available,
            passed: awarded >= available,
        },
    );
    StudentResult {
        username: format!("s{}of{}", awarded, available),
        repo_url: String::new(),
        workflow_run_timestamp: Timestamp { secs: 0, nanos: 0 },
        tests,
        total_awarded: awarded,
        total_available: available,
    }
}

#[test]
fn shares_are_compared_as_fractions() {
    assert!(is_share_below(&graded(1, 3), &graded(1, 2)));
    assert!(!is_share_below(&graded(1, 2), &graded(1, 3)));
    assert!(!is_share_below(&graded(2, 4), &graded(1, 2)));
    assert!(!is_share_below(&graded(1, 2), &graded(2, 4)));
    assert!(is_share_below(&graded(u32::MAX - 1, u32::MAX), &graded(u32::MAX, u32::MAX)));
    assert!(is_share_below(&graded(7, 0), &graded(1, u32::MAX)));
    assert!(!is_share_below(&graded(7, 0), &graded(0, 5)));
    assert!(is_share_below(&graded(15, 15), &graded(16, 15)));
}

#[test]
fn results_are_ranked_by_share_and_then_by_place() {
    let results = vec![graded(15, 15), graded(0, 15), graded(5, 10), graded(1, 2)];
    let ranks: Vec<usize> = (0..4).map(|i| rank_of(&results, i)).collect();
    assert_eq!(ranks, vec![3, 0, 1, 2]);
    assert_eq!(position_of_rank(&results, 0), Some(1));
    assert_eq!(position_of_rank(&results, 3), Some(0));
    assert_eq!(position_of_rank(&results, 4), None);
}

#[test]
fn median_of_an_odd_batch_is_its_middle_result() {
    let results = vec![graded(5, 15), graded(15, 15), graded(0, 15)];
    assert_eq!(median_positions(&results), Some((0, 0)));
    assert_eq!(median_positions(&vec![graded(3, 4)]), Some((0, 0)));
}

#[test]
fn median_of_an_even_batch_lies_between_two_results() {
    let results = vec![graded(15, 15), graded(0, 15), graded(5, 10), graded(1, 2)];
    assert_eq!(median_positions(&results), Some((2, 3)));
    assert_eq!(median_positions(&vec![graded(9, 10), graded(1, 10)]), Some((1, 0)));
}

#[test]
fn empty_batch_has_no_median() {
    assert_eq!(median_positions(&vec![]), None);
    let t = tally(&vec![], 3);
    assert_eq!((t.total_students, t.errors, t.total_tests, t.median), (0, 3, 0, None));
}

#[test]
fn tally_counts_students_and_the_tests_of_the_first() {
    let results = vec![graded(5, 15), graded(15, 15), graded(0, 15), graded(1, 1)];
    let t = tally(&results, 2);
    assert_eq!(t.total_students, 4);
    assert_eq!(t.errors, 2);
    assert_eq!(t.total_tests, 1);
    assert_eq!(t.median, Some((0, 1)));
}

#[test]
fn total_of_a_table_that_does_not_fit_is_reported() {
    let mut tests = IndexMap::new();
    for name in ["a", "b"] {
        tests.insert(
            name.to_string(),
            TestResult {
                name: name.to_string(),
                points_awarded: u32::MAX,
                points_available: u32::MAX,
                passed: true,
            },
        );
    }
    assert_eq!(autograder::scoring::provisional_total(&tests), None);
    tests.shift_remove("b");
    assert_eq!(autograder::scoring::provisional_total(&tests), Some(u32::MAX));
    assert_eq!(autograder::scoring::provisional_total(&IndexMap::new()), Some(0));
}

#[test]
fn students_without_a_record_are_counted() {
    assert_eq!(errored_count(6, 1), 5);
    assert_eq!(errored_count(6, 6), 0);
    assert_eq!(errored_count(0, 0), 0);
    assert_eq!(errored_count(2, 3), 0);
    assert_eq!(errored_count(usize::MAX, 0), usize::MAX);
}

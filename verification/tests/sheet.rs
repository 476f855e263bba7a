use autograder::content::{file_text, strip_line_feeds, text_from_decoded, ContentError};
use autograder::export::{
    decimal, export_header, export_late_header, export_late_record, export_record, export_row,
    test_names,
};
use autograder::late::{combine_late_results, Penalty};
use autograder::models::{FileContent, JobStep, StudentResult, TestDefinition, Timestamp};
use autograder::paging::{next_page, RetryDecision, RetryPolicy};
use autograder::paths::{
    accepted_assignments_path, assignment_path, assignments_path, bearer, check_runs_path,
    classroom_path, classrooms_path, file_contents_path, job_logs_path, jobs_path,
    repository_path, workflow_runs_path,
};
use autograder::resolver::build_student_result;
use autograder::time::{deadline_at, parse_deadline, DeadlineError};
use autograder::ui::state::{
    select_next, select_previous, DeadlineField, FetchProgress, LateGradingField,
};

fn file(content: &str, encoding: &str) -> FileContent {
    FileContent {
        name: "classroom.yml".to_string(),
        path: ".github/workflows/classroom.yml".to_string(),
        sha: "0".to_string(),
        size: content.len() as u64,
        content: content.to_string(),
        encoding: encoding.to_string(),
    }
}

fn result(username: &str, secs: i64, pass: bool, log: Option<&str>) -> StudentResult {
    let defs = vec![
        TestDefinition { name: "test_1".to_string(), id: "a".to_string(), max_score: 5 },
        TestDefinition { name: "test_2".to_string(), id: "b".to_string(), max_score: 10 },
    ];
    let steps = vec![
        JobStep {
            name: "test_1".to_string(),
            status: "completed".to_string(),
            conclusion: Some("success".to_string()),
            number: 1,
            started_at: None,
            completed_at: None,
        },
        JobStep {
            name: "test_2".to_string(),
            status: "completed".to_string(),
            conclusion: Some(if pass { "success" } else { "failure" }.to_string()),
            number: 2,
            started_at: None,
            completed_at: None,
        },
    ];
    build_student_result(
        username.to_string(),
        "https://github.com/org/repo".to_string(),
        Timestamp { secs, nanos: 0 },
        &defs,
        &steps,
        log,
    )
}

#[test]
fn base64_contents_are_decoded_with_line_feeds_left_out() {
    assert_eq!(file_text(&file("aGVsbG8g\nd29ybGQ=\n", "base64")), Ok("hello world".to_string()));
    assert_eq!(file_text(&file("", "base64")), Ok(String::new()));
    assert_eq!(file_text(&file("am9iczoKICBh\nOiBi\n", "base64")), Ok("jobs:\n  a: b".to_string()));
}

#[test]
fn contents_in_another_encoding_are_taken_as_they_are() {
    assert_eq!(file_text(&file("aGVsbG8=\n", "utf-8")), Ok("aGVsbG8=\n".to_string()));
    assert_eq!(file_text(&file("plain", "")), Ok("plain".to_string()));
    assert_eq!(file_text(&file("aGVsbG8=", "BASE64")), Ok("aGVsbG8=".to_string()));
}

#[test]
fn contents_that_cannot_be_decoded_are_refused() {
    assert_eq!(file_text(&file("not base64!", "base64")), Err(ContentError::InvalidBase64));
    assert_eq!(file_text(&file("aGVsbG8", "base64")), Err(ContentError::InvalidBase64));
    assert_eq!(file_text(&file("aGVs bG8=", "base64")), Err(ContentError::InvalidBase64));
    // the bytes ff fe are no UTF-8
    assert_eq!(file_text(&file("//4=", "base64")), Err(ContentError::InvalidUtf8));
    assert_eq!(text_from_decoded(None), Err(ContentError::InvalidBase64));
    assert_eq!(text_from_decoded(Some(vec![0xc3])), Err(ContentError::InvalidUtf8));
    assert_eq!(text_from_decoded(Some(vec![0xc3, 0xa9])), Ok("é".to_string()));
}

#[test]
fn line_feeds_are_dropped_and_nothing_else() {
    assert_eq!(strip_line_feeds(b"a\nb\r\n\nc"), b"ab\rc".to_vec());
    assert_eq!(strip_line_feeds(b"\n\n"), Vec::<u8>::new());
    assert_eq!(strip_line_feeds(b""), Vec::<u8>::new());
}

#[test]
fn deadline_is_read_from_date_and_time() {
    assert_eq!(parse_deadline("2024-01-03", "00:00"), Ok(Timestamp { secs: 1704240000, nanos: 0 }));
    assert_eq!(parse_deadline("2024-01-03", "23:59"), Ok(Timestamp { secs: 1704326340, nanos: 0 }));
    assert_eq!(parse_deadline("1970-01-01", "00:01"), Ok(Timestamp { secs: 60, nanos: 0 }));
    assert_eq!(parse_deadline("1969-12-31", "23:00"), Ok(Timestamp { secs: -3600, nanos: 0 }));
}

#[test]
fn deadline_that_is_not_written_as_asked_is_refused() {
    assert_eq!(parse_deadline("03/01/2024", "00:00"), Err(DeadlineError::InvalidDate));
    assert_eq!(parse_deadline("2024-02-30", "00:00"), Err(DeadlineError::InvalidDate));
    assert_eq!(parse_deadline("", "00:00"), Err(DeadlineError::InvalidDate));
    assert_eq!(parse_deadline("2024-01-03", "24:00"), Err(DeadlineError::InvalidTime));
    assert_eq!(parse_deadline("2024-01-03", "noon"), Err(DeadlineError::InvalidTime));
    assert_eq!(parse_deadline("2024-01-03", "12:00:00"), Err(DeadlineError::InvalidTime));
    assert_eq!(parse_deadline("nope", "nope"), Err(DeadlineError::InvalidDate));
}

#[test]
fn day_and_time_are_put_together() {
    assert_eq!(deadline_at(Some(100), Some((20, 3))), Ok(Timestamp { secs: 120, nanos: 3 }));
    assert_eq!(deadline_at(None, Some((20, 3))), Err(DeadlineError::InvalidDate));
    assert_eq!(deadline_at(None, None), Err(DeadlineError::InvalidDate));
    assert_eq!(deadline_at(Some(100), None), Err(DeadlineError::InvalidTime));
    assert_eq!(deadline_at(Some(i64::MAX), Some((1, 0))), Err(DeadlineError::InvalidDate));
    assert_eq!(
        deadline_at(Some(i64::MAX - 1), Some((1, 0))),
        Ok(Timestamp { secs: i64::MAX, nanos: 0 })
    );
}

#[test]
fn paginated_read_stops_at_an_empty_page_or_at_the_limit() {
    assert_eq!(next_page(1, 30, 100), Some(2));
    assert_eq!(next_page(1, 0, 100), None);
    assert_eq!(next_page(99, 1, 100), Some(100));
    assert_eq!(next_page(100, 30, 100), None);
    assert_eq!(next_page(10, 100, 10), None);
    assert_eq!(next_page(9, 100, 10), Some(10));
    assert_eq!(next_page(u32::MAX, 1, u32::MAX), None);
}

#[test]
fn failed_read_is_tried_three_times() {
    let policy = RetryPolicy::roster();
    assert_eq!(policy, RetryPolicy { max_attempts: 3, delay_seconds: 2 });
    assert_eq!(policy.after_failure(1), RetryDecision::RetryAfter(2));
    assert_eq!(policy.after_failure(2), RetryDecision::RetryAfter(2));
    assert_eq!(policy.after_failure(3), RetryDecision::GiveUp);
    assert_eq!(policy.after_failure(4), RetryDecision::GiveUp);
    let once = RetryPolicy { max_attempts: 1, delay_seconds: 9 };
    assert_eq!(once.after_failure(1), RetryDecision::GiveUp);
}

#[test]
fn progress_starts_with_one_status_line() {
    let p = FetchProgress::new(12);
    assert_eq!(p.total_students, 12);
    assert_eq!(p.completed, 0);
    assert_eq!(p.current_student, "");
    assert_eq!(p.errors, 0);
    assert_eq!(p.status_messages, vec!["Initializing...".to_string()]);
}

#[test]
fn progress_keeps_the_last_twenty_status_lines() {
    let mut p = FetchProgress::new(3);
    for i in 1..=19 {
        p.add_status(format!("line {}", i));
    }
    assert_eq!(p.status_messages.len(), 20);
    assert_eq!(p.status_messages[0], "Initializing...");
    p.add_status("line 20".to_string());
    assert_eq!(p.status_messages.len(), 20);
    assert_eq!(p.status_messages[0], "line 1");
    assert_eq!(p.status_messages[19], "line 20");
    p.add_status("line 21".to_string());
    assert_eq!(p.status_messages.len(), 20);
    assert_eq!(p.status_messages[0], "line 2");
    assert_eq!(p.status_messages[19], "line 21");
    assert_eq!((p.total_students, p.completed, p.errors), (3, 0, 0));
}

#[test]
fn form_fields_compare_by_variant() {
    assert_eq!(DeadlineField::Date, DeadlineField::Date);
    assert_ne!(DeadlineField::Date, DeadlineField::Time);
    assert_ne!(LateGradingField::LateTime, LateGradingField::Penalty);
    assert_eq!(LateGradingField::OnTimeDate, LateGradingField::OnTimeDate);
}

#[test]
fn numbers_are_written_in_decimal() {
    assert_eq!(decimal(0), "0");
    assert_eq!(decimal(7), "7");
    assert_eq!(decimal(10), "10");
    assert_eq!(decimal(105), "105");
    assert_eq!(decimal(u32::MAX), "4294967295");
}

#[test]
fn sheet_of_a_batch_has_one_column_for_each_test() {
    let r = result("student1", 1704067200, false, None);
    let names = test_names(&r);
    assert_eq!(names, vec!["test_1".to_string(), "test_2".to_string()]);
    assert_eq!(
        export_header(&names),
        vec![
            "student_username",
            "student_repo_url",
            "workflow_run_timestamp",
            "test_1",
            "test_2",
            "total_points_available",
            "total_points_awarded",
            "percentage"
        ]
    );
    assert_eq!(
        export_record(&r, &names, "33.33".to_string()).unwrap(),
        vec![
            "student1",
            "https://github.com/org/repo",
            "2024-01-01T00:00:00+00:00",
            "5",
            "0",
            "15",
            "5",
            "33.33"
        ]
    );
}

#[test]
fn test_missing_from_a_students_table_shows_zero() {
    let r = result("student1", 0, true, Some("Points 14/15"));
    let names = vec!["test_2".to_string(), "other".to_string(), "test_1".to_string()];
    assert_eq!(
        export_row(&r, &names, "then".to_string(), "93.33".to_string()),
        vec!["student1", "https://github.com/org/repo", "then", "10", "0", "5", "15", "14", "93.33"]
    );
    assert_eq!(export_header(&vec![]).len(), 6);
}

#[test]
fn instant_without_a_date_gives_no_row() {
    let r = result("student1", i64::MAX, true, None);
    assert_eq!(export_record(&r, &test_names(&r), "100.00".to_string()), None);
}

#[test]
fn sheet_of_a_late_grading_shows_both_runs() {
    let on_time = vec![result("student1", 1704067200, false, None)];
    let late = vec![result("student1", 1704412800, true, None)];
    let out = combine_late_results(&on_time, &late, Penalty::new(20, 100).unwrap());
    let names = test_names(&out[0].on_time_result);
    assert_eq!(
        export_late_header(&names),
        vec![
            "student_username",
            "student_repo_url",
            "on_time_timestamp",
            "late_timestamp",
            "test_1",
            "test_2",
            "total_points_available",
            "on_time_points",
            "late_points",
            "final_points",
            "final_percentage"
        ]
    );
    assert_eq!(
        export_late_record(&out[0], &names, "80.00".to_string()).unwrap(),
        vec![
            "student1",
            "https://github.com/org/repo",
            "2024-01-01T00:00:00+00:00",
            "2024-01-05T00:00:00+00:00",
            "5",
            "0",
            "15",
            "5",
            "15",
            "12",
            "80.00"
        ]
    );
}

#[test]
fn sheet_files_are_named_after_assignment_and_moment() {
    assert_eq!(
        autograder::export::export_file_name("hw-1", "20240103_120000"),
        "results_hw-1_20240103_120000.csv"
    );
    assert_eq!(
        autograder::export::export_late_file_name("hw-1", "20240103_120000"),
        "results_late_hw-1_20240103_120000.csv"
    );
    assert_eq!(autograder::export::decimal_wide(u64::MAX), "18446744073709551615");
}

#[test]
fn api_paths_are_written_as_the_platform_expects() {
    assert_eq!(bearer("abc"), "Bearer abc");
    assert_eq!(classrooms_path(1), "/classrooms?page=1&per_page=100");
    assert_eq!(classroom_path(42), "/classrooms/42");
    assert_eq!(assignments_path(42, 3), "/classrooms/42/assignments?page=3&per_page=100");
    assert_eq!(assignment_path(7), "/assignments/7");
    assert_eq!(
        accepted_assignments_path(7, 12, 30),
        "/assignments/7/accepted_assignments?page=12&per_page=30"
    );
    assert_eq!(repository_path("org", "repo"), "/repos/org/repo");
    assert_eq!(
        file_contents_path("org", "repo", ".github/workflows/classroom.yml"),
        "/repos/org/repo/contents/.github/workflows/classroom.yml"
    );
    assert_eq!(
        workflow_runs_path(
            "org",
            "repo",
            Some("repository_dispatch"),
            Some(">=2024-01-03T00:00:00+00:00"),
            Some("completed")
        ),
        "/repos/org/repo/actions/runs?per_page=100&event=repository_dispatch&created=>=2024-01-03T00:00:00+00:00&status=completed"
    );
    assert_eq!(
        workflow_runs_path("org", "repo", None, None, Some("completed")),
        "/repos/org/repo/actions/runs?per_page=100&status=completed"
    );
    assert_eq!(
        workflow_runs_path("org", "repo", None, None, None),
        "/repos/org/repo/actions/runs?per_page=100"
    );
    assert_eq!(jobs_path("org", "repo", 9000000000), "/repos/org/repo/actions/runs/9000000000/jobs");
    assert_eq!(
        check_runs_path("org", "repo", "main"),
        "/repos/org/repo/commits/main/check-runs?per_page=100"
    );
    assert_eq!(job_logs_path("org", "repo", 5), "/repos/org/repo/actions/jobs/5/logs");
    assert_eq!(autograder::resolver::RUN_EVENT, "repository_dispatch");
    assert_eq!(autograder::resolver::RUN_STATUS, "completed");
}

#[test]
fn focus_goes_round_the_fields() {
    assert_eq!(DeadlineField::Date.next(), DeadlineField::Time);
    assert_eq!(DeadlineField::Time.next(), DeadlineField::Date);
    let order = [
        LateGradingField::OnTimeDate,
        LateGradingField::OnTimeTime,
        LateGradingField::LateDate,
        LateGradingField::LateTime,
        LateGradingField::Penalty,
    ];
    for i in 0..5 {
        assert_eq!(order[i].next(), order[(i + 1) % 5]);
        assert_eq!(order[(i + 1) % 5].previous(), order[i]);
        assert_eq!(order[i].next().previous(), order[i]);
    }
}

#[test]
fn fields_take_as_much_as_their_format_needs() {
    assert_eq!(DeadlineField::Date.limit(), 10);
    assert_eq!(DeadlineField::Time.limit(), 5);
    assert_eq!(LateGradingField::OnTimeDate.limit(), 10);
    assert_eq!(LateGradingField::OnTimeTime.limit(), 5);
    assert_eq!(LateGradingField::LateDate.limit(), 10);
    assert_eq!(LateGradingField::LateTime.limit(), 5);
    assert_eq!(LateGradingField::Penalty.limit(), 5);
}

#[test]
fn selection_stays_within_the_list() {
    assert_eq!(select_previous(0), 0);
    assert_eq!(select_previous(3), 2);
    assert_eq!(select_next(0, 3), 1);
    assert_eq!(select_next(1, 3), 2);
    assert_eq!(select_next(2, 3), 2);
    assert_eq!(select_next(0, 0), 0);
    assert_eq!(select_next(0, 1), 0);
    assert_eq!(select_next(usize::MAX, usize::MAX), usize::MAX);
}

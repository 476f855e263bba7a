//! The paths under which the hosting platform's API answers.

use crate::export::{decimal, decimal_text, decimal_wide};
use vstd::prelude::*;
use vstd::string::StringExecFns;

verus! {

/// The value of the authorization header for a token.
pub fn bearer(token: &str) -> (value: String)
    ensures
        value@ == "Bearer "@ + token@,
{
    "Bearer ".to_owned().concat(token)
}

/// The path of page `page` of the classrooms.
pub fn classrooms_path(page: u32) -> (path: String)
    ensures
        path@ == "/classrooms?page="@ + decimal_text(page as nat) + "&per_page=100"@,
{
    "/classrooms?page=".to_owned().concat(decimal(page).as_str()).concat("&per_page=100")
}

/// The path of a classroom.
pub fn classroom_path(classroom_id: u64) -> (path: String)
    ensures
        path@ == "/classrooms/"@ + decimal_text(classroom_id as nat),
{
    "/classrooms/".to_owned().concat(decimal_wide(classroom_id).as_str())
}

/// The path of page `page` of the assignments of a classroom.
pub fn assignments_path(classroom_id: u64, page: u32) -> (path: String)
    ensures
        path@ == "/classrooms/"@ + decimal_text(classroom_id as nat) + "/assignments?page="@
            + decimal_text(page as nat) + "&per_page=100"@,
{
    "/classrooms/".to_owned().concat(decimal_wide(classroom_id).as_str()).concat(
        "/assignments?page=",
    ).concat(decimal(page).as_str()).concat("&per_page=100")
}

/// The path of an assignment.
pub fn assignment_path(assignment_id: u64) -> (path: String)
    ensures
        path@ == "/assignments/"@ + decimal_text(assignment_id as nat),
{
    "/assignments/".to_owned().concat(decimal_wide(assignment_id).as_str())
}

/// The path of page `page` of the roster of an assignment, `per_page` entries
/// to the page.
pub fn accepted_assignments_path(assignment_id: u64, page: u32, per_page: u32) -> (path: String)
    ensures
        path@ == "/assignments/"@ + decimal_text(assignment_id as nat)
            + "/accepted_assignments?page="@ + decimal_text(page as nat) + "&per_page="@
            + decimal_text(per_page as nat),
{
    "/assignments/".to_owned().concat(decimal_wide(assignment_id).as_str()).concat(
        "/accepted_assignments?page=",
    ).concat(decimal(page).as_str()).concat("&per_page=").concat(decimal(per_page).as_str())
}

/// The path of a repository.
pub fn repository_path(owner: &str, repo: &str) -> (path: String)
    ensures
        path@ == "/repos/"@ + owner@ + "/"@ + repo@,
{
    "/repos/".to_owned().concat(owner).concat("/").concat(repo)
}

/// The path of the contents of a file of a repository.
pub fn file_contents_path(owner: &str, repo: &str, file: &str) -> (path: String)
    ensures
        path@ == "/repos/"@ + owner@ + "/"@ + repo@ + "/contents/"@ + file@,
{
    repository_path(owner, repo).concat("/contents/").concat(file)
}

/// One more condition of a query, where there is one.
pub open spec fn with_filter(path: Seq<char>, key: Seq<char>, value: Option<Seq<char>>) -> Seq<
    char,
> {
    match value {
        Some(v) => path + key + v,
        None => path,
    }
}

/// Adds a condition to a query, where there is one.
fn add_filter(path: String, key: &str, value: Option<&str>) -> (r: String)
    ensures
        r@ == with_filter(
            path@,
            key@,
            match value {
                Some(v) => Some(v@),
                None => None,
            },
        ),
{
    match value {
        Some(v) => path.concat(key).concat(v),
        None => path,
    }
}

/// The path of the runs of a repository, a hundred to the page, with the
/// conditions on the triggering event, the time of creation and the status
/// that are given, in this order.
pub fn workflow_runs_path(
    owner: &str,
    repo: &str,
    event: Option<&str>,
    created: Option<&str>,
    status: Option<&str>,
) -> (path: String)
    ensures
        path@ == with_filter(
            with_filter(
                with_filter(
                    "/repos/"@ + owner@ + "/"@ + repo@ + "/actions/runs?per_page=100"@,
                    "&event="@,
                    match event {
                        Some(v) => Some(v@),
                        None => None,
                    },
                ),
                "&created="@,
                match created {
                    Some(v) => Some(v@),
                    None => None,
                },
            ),
            "&status="@,
            match status {
                Some(v) => Some(v@),
                None => None,
            },
        ),
{
    let path = repository_path(owner, repo).concat("/actions/runs?per_page=100");
    let path = add_filter(path, "&event=", event);
    let path = add_filter(path, "&created=", created);
    add_filter(path, "&status=", status)
}

/// The path of the jobs of a run.
pub fn jobs_path(owner: &str, repo: &str, run_id: u64) -> (path: String)
    ensures
        path@ == "/repos/"@ + owner@ + "/"@ + repo@ + "/actions/runs/"@ + decimal_text(
            run_id as nat,
        ) + "/jobs"@,
{
    repository_path(owner, repo).concat("/actions/runs/").concat(
        decimal_wide(run_id).as_str(),
    ).concat("/jobs")
}

/// The path of the check runs of a commit, a branch or a tag.
pub fn check_runs_path(owner: &str, repo: &str, git_ref: &str) -> (path: String)
    ensures
        path@ == "/repos/"@ + owner@ + "/"@ + repo@ + "/commits/"@ + git_ref@
            + "/check-runs?per_page=100"@,
{
    repository_path(owner, repo).concat("/commits/").concat(git_ref).concat(
        "/check-runs?per_page=100",
    )
}

/// The path of the log of a job.
pub fn job_logs_path(owner: &str, repo: &str, job_id: u64) -> (path: String)
    ensures
        path@ == "/repos/"@ + owner@ + "/"@ + repo@ + "/actions/jobs/"@ + decimal_text(
            job_id as nat,
        ) + "/logs"@,
{
    repository_path(owner, repo).concat("/actions/jobs/").concat(
        decimal_wide(job_id).as_str(),
    ).concat("/logs")
}

} // verus!

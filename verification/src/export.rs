//! The rows of the exported sheet: which cells stand in which order.

use crate::models::{Grade, LateGrade, LateGradingResult, StudentResult, TestScore};
use crate::table::{entries, key_index, names_of, table_entry_at, table_get, table_len};
use crate::time::{rfc3339, rfc3339_text};
use vstd::prelude::*;
use vstd::string::StringExecFns;

verus! {

/// The character of the digit `d`.
pub open spec fn digit_char(d: nat) -> char {
    (0x30 + d) as char
}

/// The decimal writing of `n`, without leading zeros.
pub open spec fn decimal_text(n: nat) -> Seq<char>
    decreases n,
{
    if n < 10 {
        seq![digit_char(n)]
    } else {
        decimal_text(n / 10).push(digit_char(n % 10))
    }
}

fn digit_text(d: u64) -> (text: &'static str)
    requires
        d < 10,
    ensures
        text@ == seq![digit_char(d as nat)],
{
    proof {
        reveal_strlit("0");
        reveal_strlit("1");
        reveal_strlit("2");
        reveal_strlit("3");
        reveal_strlit("4");
        reveal_strlit("5");
        reveal_strlit("6");
        reveal_strlit("7");
        reveal_strlit("8");
        reveal_strlit("9");
    }
    let text = if d == 0 {
        "0"
    } else if d == 1 {
        "1"
    } else if d == 2 {
        "2"
    } else if d == 3 {
        "3"
    } else if d == 4 {
        "4"
    } else if d == 5 {
        "5"
    } else if d == 6 {
        "6"
    } else if d == 7 {
        "7"
    } else if d == 8 {
        "8"
    } else {
        "9"
    };
    assert(text@ =~= seq![digit_char(d as nat)]);
    text
}

/// Writes `n` in decimal.
pub fn decimal(n: u32) -> (text: String)
    ensures
        text@ == decimal_text(n as nat),
{
    decimal_wide(n as u64)
}

/// Writes a 64-bit `n` in decimal.
pub fn decimal_wide(n: u64) -> (text: String)
    ensures
        text@ == decimal_text(n as nat),
    decreases n,
{
    if n < 10 {
        digit_text(n).to_owned()
    } else {
        let front = decimal_wide(n / 10);
        let last = digit_text(n % 10);
        let text = front.concat(last);
        assert(text@ =~= decimal_text((n / 10) as nat).push(digit_char((n % 10) as nat)));
        text
    }
}

/// The texts of a row of cells.
pub open spec fn texts(cells: Seq<String>) -> Seq<Seq<char>> {
    Seq::new(cells.len(), |i: int| cells[i]@)
}

/// The cell of a test in a student's row: the points awarded for the test of
/// that name, and `0` where the student's table has no such test.
pub open spec fn score_cell(e: Seq<(Seq<char>, TestScore)>, name: Seq<char>) -> Seq<char> {
    if key_index(e, name) >= 0 {
        decimal_text(e[key_index(e, name)].1.awarded)
    } else {
        decimal_text(0)
    }
}

/// The cells of the tests `names` in a student's row.
pub open spec fn score_cells(e: Seq<(Seq<char>, TestScore)>, names: Seq<Seq<char>>) -> Seq<
    Seq<char>,
> {
    Seq::new(names.len(), |i: int| score_cell(e, names[i]))
}

/// The head row of the sheet of a batch: student, repository, instant of the
/// graded run, one column for each test, then the total available, the total
/// awarded and the percentage.
pub open spec fn header_of(names: Seq<Seq<char>>) -> Seq<Seq<char>> {
    seq!["student_username"@, "student_repo_url"@, "workflow_run_timestamp"@] + names + seq![
        "total_points_available"@,
        "total_points_awarded"@,
        "percentage"@,
    ]
}

/// The row of a student in the sheet of a batch, cell for cell under the head row.
pub open spec fn record_of(
    grade: Grade,
    names: Seq<Seq<char>>,
    instant: Seq<char>,
    percentage: Seq<char>,
) -> Seq<Seq<char>> {
    seq![grade.username, grade.repo_url, instant] + score_cells(grade.tests, names) + seq![
        decimal_text(grade.total_available),
        decimal_text(grade.total_awarded),
        percentage,
    ]
}

/// The head row of the sheet of a late grading.
pub open spec fn late_header_of(names: Seq<Seq<char>>) -> Seq<Seq<char>> {
    seq!["student_username"@, "student_repo_url"@, "on_time_timestamp"@, "late_timestamp"@] + names
        + seq![
        "total_points_available"@,
        "on_time_points"@,
        "late_points"@,
        "final_points"@,
        "final_percentage"@,
    ]
}

/// The row of a student in the sheet of a late grading; the tests' cells show
/// the on-time scores.
pub open spec fn late_record_of(
    grade: LateGrade,
    names: Seq<Seq<char>>,
    on_time_instant: Seq<char>,
    late_instant: Seq<char>,
    percentage: Seq<char>,
) -> Seq<Seq<char>> {
    seq![grade.username, grade.repo_url, on_time_instant, late_instant] + score_cells(
        grade.on_time.tests,
        names,
    ) + seq![
        decimal_text(grade.on_time.total_available),
        decimal_text(grade.on_time.total_awarded),
        decimal_text(grade.late.total_awarded),
        decimal_text(grade.final_score),
        percentage,
    ]
}

/// The name of the file that holds the sheet of a batch: `results_`, the
/// assignment, `_`, the stamp of the moment of writing, and `.csv`.
pub fn export_file_name(assignment: &str, stamp: &str) -> (name: String)
    ensures
        name@ == "results_"@ + assignment@ + "_"@ + stamp@ + ".csv"@,
{
    "results_".to_owned().concat(assignment).concat("_").concat(stamp).concat(".csv")
}

/// The name of the file that holds the sheet of a late grading.
pub fn export_late_file_name(assignment: &str, stamp: &str) -> (name: String)
    ensures
        name@ == "results_late_"@ + assignment@ + "_"@ + stamp@ + ".csv"@,
{
    "results_late_".to_owned().concat(assignment).concat("_").concat(stamp).concat(".csv")
}

/// The names of the tests of a result, in the order of its table.
pub fn test_names(result: &StudentResult) -> (names: Vec<String>)
    ensures
        texts(names@) == names_of(entries(result.tests)),
{
    let n: usize = table_len(&result.tests);
    let mut names: Vec<String> = Vec::new();
    let mut i: usize = 0;
    while i < n
        invariant
            i <= n,
            n == entries(result.tests).len(),
            names.len() == i,
            forall|k: int| 0 <= k < i ==> (#[trigger] names[k])@ == entries(result.tests)[k].0,
        decreases n - i,
    {
        match table_entry_at(&result.tests, i) {
            Some(entry) => {
                names.push(entry.0.clone());
            },
            None => {},
        }
        i += 1;
    }
    assert(texts(names@) =~= names_of(entries(result.tests)));
    names
}

/// Appends a copy of each of `more` to `row`.
fn extend_row(row: &mut Vec<String>, more: &Vec<String>)
    ensures
        texts(final(row)@) == texts(old(row)@) + texts(more@),
{
    let ghost before = texts(row@);
    let mut i: usize = 0;
    while i < more.len()
        invariant
            i <= more.len(),
            texts(row@) == before + texts(more@).take(i as int),
        decreases more.len() - i,
    {
        let ghost prior = texts(row@);
        row.push(more[i].clone());
        assert(texts(row@) =~= prior.push(more@[i as int]@));
        assert(texts(more@).take(i + 1) =~= texts(more@).take(i as int).push(more@[i as int]@));
        assert(before + texts(more@).take(i + 1) =~= (before + texts(more@).take(i as int)).push(
            more@[i as int]@,
        ));
        i += 1;
    }
    assert(texts(more@).take(more.len() as int) =~= texts(more@));
}

/// Appends the cells of the tests `names` of a student's table to `row`.
fn push_score_cells(row: &mut Vec<String>, result: &StudentResult, names: &Vec<String>)
    ensures
        texts(final(row)@) == texts(old(row)@) + score_cells(entries(result.tests), texts(names@)),
{
    let ghost before = texts(row@);
    let ghost cells = score_cells(entries(result.tests), texts(names@));
    let mut i: usize = 0;
    while i < names.len()
        invariant
            i <= names.len(),
            cells == score_cells(entries(result.tests), texts(names@)),
            texts(row@) == before + cells.take(i as int),
        decreases names.len() - i,
    {
        let ghost prior = texts(row@);
        let cell = match table_get(&result.tests, names[i].as_str()) {
            Some(t) => decimal(t.points_awarded),
            None => decimal(0),
        };
        assert(cell@ == cells[i as int]);
        row.push(cell);
        assert(texts(row@) =~= prior.push(cells[i as int]));
        assert(before + cells.take(i + 1) =~= (before + cells.take(i as int)).push(cells[i as int]));
        i += 1;
    }
    assert(cells.take(names.len() as int) =~= cells);
}

/// Pushes a constant cell.
fn push_text(row: &mut Vec<String>, text: &str)
    ensures
        texts(final(row)@) == texts(old(row)@).push(text@),
{
    let ghost prior = texts(row@);
    row.push(text.to_owned());
    assert(texts(row@) =~= prior.push(text@));
}

/// Pushes a cell.
fn push_cell(row: &mut Vec<String>, cell: String)
    ensures
        texts(final(row)@) == texts(old(row)@).push(cell@),
{
    let ghost prior = texts(row@);
    row.push(cell);
    assert(texts(row@) =~= prior.push(cell@));
}

/// The head row of the sheet of a batch with the tests `names`.
pub fn export_header(names: &Vec<String>) -> (row: Vec<String>)
    ensures
        texts(row@) == header_of(texts(names@)),
{
    let mut row: Vec<String> = Vec::new();
    assert(texts(row@) =~= Seq::<Seq<char>>::empty());
    push_text(&mut row, "student_username");
    push_text(&mut row, "student_repo_url");
    push_text(&mut row, "workflow_run_timestamp");
    extend_row(&mut row, names);
    push_text(&mut row, "total_points_available");
    push_text(&mut row, "total_points_awarded");
    push_text(&mut row, "percentage");
    assert(texts(row@) =~= header_of(texts(names@)));
    row
}

/// The row of a student in the sheet of a batch, given the instant of the
/// graded run and the percentage as they are to be shown.
pub fn export_row(result: &StudentResult, names: &Vec<String>, instant: String, percentage: String) -> (row:
    Vec<String>)
    ensures
        texts(row@) == record_of(result@, texts(names@), instant@, percentage@),
{
    let mut row: Vec<String> = Vec::new();
    assert(texts(row@) =~= Seq::<Seq<char>>::empty());
    push_cell(&mut row, result.username.clone());
    push_cell(&mut row, result.repo_url.clone());
    push_cell(&mut row, instant);
    push_score_cells(&mut row, result, names);
    push_cell(&mut row, decimal(result.total_available));
    push_cell(&mut row, decimal(result.total_awarded));
    push_cell(&mut row, percentage);
    assert(texts(row@) =~= record_of(result@, texts(names@), instant@, percentage@));
    row
}

/// The row of a student in the sheet of a batch, the instant of the graded run
/// written as RFC 3339. Nothing where that instant has no such writing.
pub fn export_record(result: &StudentResult, names: &Vec<String>, percentage: String) -> (r: Option<
    Vec<String>,
>)
    ensures
        match r {
            Some(row) => {
                let at = result.workflow_run_timestamp;
                &&& rfc3339_text(at.secs, at.nanos) is Some
                &&& texts(row@) == record_of(
                    result@,
                    texts(names@),
                    rfc3339_text(at.secs, at.nanos)->0,
                    percentage@,
                )
            },
            None => rfc3339_text(
                result.workflow_run_timestamp.secs,
                result.workflow_run_timestamp.nanos,
            ) is None,
        },
{
    let at = result.workflow_run_timestamp;
    match rfc3339(at.secs, at.nanos) {
        Some(instant) => Some(export_row(result, names, instant, percentage)),
        None => None,
    }
}

/// The head row of the sheet of a late grading with the tests `names`.
pub fn export_late_header(names: &Vec<String>) -> (row: Vec<String>)
    ensures
        texts(row@) == late_header_of(texts(names@)),
{
    let mut row: Vec<String> = Vec::new();
    assert(texts(row@) =~= Seq::<Seq<char>>::empty());
    push_text(&mut row, "student_username");
    push_text(&mut row, "student_repo_url");
    push_text(&mut row, "on_time_timestamp");
    push_text(&mut row, "late_timestamp");
    extend_row(&mut row, names);
    push_text(&mut row, "total_points_available");
    push_text(&mut row, "on_time_points");
    push_text(&mut row, "late_points");
    push_text(&mut row, "final_points");
    push_text(&mut row, "final_percentage");
    assert(texts(row@) =~= late_header_of(texts(names@)));
    row
}

/// The row of a student in the sheet of a late grading, given the instants of
/// the two graded runs and the percentage as they are to be shown.
pub fn export_late_row(
    result: &LateGradingResult,
    names: &Vec<String>,
    on_time_instant: String,
    late_instant: String,
    percentage: String,
) -> (row: Vec<String>)
    ensures
        texts(row@) == late_record_of(
            result@,
            texts(names@),
            on_time_instant@,
            late_instant@,
            percentage@,
        ),
{
    let mut row: Vec<String> = Vec::new();
    assert(texts(row@) =~= Seq::<Seq<char>>::empty());
    push_cell(&mut row, result.username.clone());
    push_cell(&mut row, result.repo_url.clone());
    push_cell(&mut row, on_time_instant);
    push_cell(&mut row, late_instant);
    push_score_cells(&mut row, &result.on_time_result, names);
    push_cell(&mut row, decimal(result.on_time_result.total_available));
    push_cell(&mut row, decimal(result.on_time_result.total_awarded));
    push_cell(&mut row, decimal(result.late_result.total_awarded));
    push_cell(&mut row, decimal(result.final_score));
    push_cell(&mut row, percentage);
    assert(texts(row@) =~= late_record_of(
        result@,
        texts(names@),
        on_time_instant@,
        late_instant@,
        percentage@,
    ));
    row
}

/// The row of a student in the sheet of a late grading, the instants of the
/// two graded runs written as RFC 3339. Nothing where one of them has no such
/// writing.
pub fn export_late_record(result: &LateGradingResult, names: &Vec<String>, percentage: String) -> (r:
    Option<Vec<String>>)
    ensures
        match r {
            Some(row) => {
                let first = result.on_time_result.workflow_run_timestamp;
                let second = result.late_result.workflow_run_timestamp;
                &&& rfc3339_text(first.secs, first.nanos) is Some
                &&& rfc3339_text(second.secs, second.nanos) is Some
                &&& texts(row@) == late_record_of(
                    result@,
                    texts(names@),
                    rfc3339_text(first.secs, first.nanos)->0,
                    rfc3339_text(second.secs, second.nanos)->0,
                    percentage@,
                )
            },
            None => {
                let first = result.on_time_result.workflow_run_timestamp;
                let second = result.late_result.workflow_run_timestamp;
                rfc3339_text(first.secs, first.nanos) is None || rfc3339_text(
                    second.secs,
                    second.nanos,
                ) is None
            },
        },
{
    let first = result.on_time_result.workflow_run_timestamp;
    let second = result.late_result.workflow_run_timestamp;
    match rfc3339(first.secs, first.nanos) {
        Some(on_time_instant) => match rfc3339(second.secs, second.nanos) {
            Some(late_instant) => Some(
                export_late_row(result, names, on_time_instant, late_instant, percentage),
            ),
            None => None,
        },
        None => None,
    }
}

} // verus!

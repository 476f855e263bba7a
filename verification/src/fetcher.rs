//! Reading a repository's full name and recovering the reported score from a job log.

use crate::text::{
    find_char, find_char_in, find_seq, find_seq_in, lemma_find_seq, parse_u32, parse_u32_in,
    to_chars, token_start, token_start_in, trim_end, trim_end_in,
};
use vstd::prelude::*;

verus! {

/// Owner and name in a repository's full name `owner/name`: the text before the
/// first `/`, and the text between it and the next `/` or the end. Both are empty
/// when the full name holds no `/`.
pub open spec fn repo_parts(s: Seq<char>) -> (Seq<char>, Seq<char>) {
    let i = find_char(s, '/', 0, s.len() as int);
    if i >= s.len() {
        (Seq::<char>::empty(), Seq::<char>::empty())
    } else {
        (s.subrange(0, i), s.subrange(i + 1, find_char(s, '/', i + 1, s.len() as int)))
    }
}

/// Splits a repository's full name into owner and name.
pub fn parse_repo_url(full_name: &str) -> (parts: (&str, &str))
    ensures
        (parts.0@, parts.1@) == repo_parts(full_name@),
{
    let chars = to_chars(full_name);
    let n: usize = chars.len();
    let i: usize = find_char_in(&chars, '/', 0, n);
    if i >= n {
        proof {
            reveal_strlit("");
        }
        assert(""@ =~= Seq::<char>::empty());
        ("", "")
    } else {
        let j: usize = find_char_in(&chars, '/', i + 1, n);
        (full_name.substring_char(0, i), full_name.substring_char(i + 1, j))
    }
}

/// The number written just before the first `/` of the window `[lo, hi)`: the last
/// run of characters other than white space before that `/`, read as an unsigned
/// decimal. Nothing when the window has no `/` or the run is no such number.
pub open spec fn score_before_slash(s: Seq<char>, lo: int, hi: int) -> Option<u32> {
    let slash = find_char(s, '/', lo, hi);
    if slash >= hi {
        None
    } else {
        let end = trim_end(s, lo, slash);
        parse_u32(s, token_start(s, lo, end), end)
    }
}

/// The score that follows the first `Points` of the log, if it can be read: the
/// number before the first `/` after that word.
pub open spec fn points_after_marker(s: Seq<char>) -> Option<u32> {
    let at = find_seq(s, "Points"@, 0);
    if at < 0 {
        None
    } else {
        score_before_slash(s, at + "Points"@.len(), s.len() as int)
    }
}

/// The score of the first line, from index `lo` on, that holds a `/`: the number
/// before that `/`, or nothing where no number stands there. Later lines are
/// not looked at. Lines end at a line feed.
pub open spec fn points_in_lines(s: Seq<char>, lo: int) -> Option<u32>
    decreases s.len() - lo,
{
    if lo >= s.len() {
        None
    } else {
        let eol = find_char(s, '\n', lo, s.len() as int);
        if find_char(s, '/', lo, eol) < eol {
            score_before_slash(s, lo, eol)
        } else if lo <= eol < s.len() {
            points_in_lines(s, eol + 1)
        } else {
            None
        }
    }
}

/// The score that a job log reports: the one after the word `Points` where that
/// can be read, else the one of the first line that holds a `/`, where that
/// can be read.
pub open spec fn points_in_log(s: Seq<char>) -> Option<u32> {
    match points_after_marker(s) {
        Some(p) => Some(p),
        None => points_in_lines(s, 0),
    }
}

fn score_before_slash_in(v: &Vec<char>, lo: usize, hi: usize) -> (r: Option<u32>)
    requires
        lo <= hi <= v.len(),
    ensures
        r == score_before_slash(v@, lo as int, hi as int),
{
    let slash: usize = find_char_in(v, '/', lo, hi);
    if slash >= hi {
        None
    } else {
        let end: usize = trim_end_in(v, lo, slash);
        let start: usize = token_start_in(v, lo, end);
        parse_u32_in(v, start, end)
    }
}

/// Reads the score that a job log reports, if it reports one.
pub fn parse_points_from_summary(summary: &str) -> (r: Option<u32>)
    ensures
        r == points_in_log(summary@),
{
    let v = to_chars(summary);
    let n: usize = v.len();
    let marker = to_chars("Points");
    proof {
        reveal_strlit("Points");
        lemma_find_seq(v@, marker@, 0);
    }
    if let Some(at) = find_seq_in(&v, &marker) {
        if let Some(p) = score_before_slash_in(&v, at + 6, n) {
            return Some(p);
        }
    }
    let mut lo: usize = 0;
    while lo < n
        invariant
            lo <= n,
            n == v.len(),
            v@ == summary@,
            points_after_marker(v@) is None,
            points_in_lines(v@, 0) == points_in_lines(v@, lo as int),
        decreases n - lo,
    {
        let eol: usize = find_char_in(&v, '\n', lo, n);
        if find_char_in(&v, '/', lo, eol) < eol {
            return score_before_slash_in(&v, lo, eol);
        }
        if eol >= n {
            return None;
        }
        lo = eol + 1;
    }
    None
}

} // verus!

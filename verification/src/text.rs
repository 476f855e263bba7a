//! Character-level helpers shared by the parsers of this crate.
//!
//! Text is modelled as `Seq<char>`. The scanning functions work on a window
//! `[lo, hi)` of one sequence, so that no text is copied while parsing.

use vstd::prelude::*;
use vstd::std_specs::iter::IteratorSpec;

verus! {

/// The characters of `s`, in order, as a vector that can be indexed in constant time.
pub fn to_chars(s: &str) -> (v: Vec<char>)
    ensures
        v@ == s@,
{
    let mut v: Vec<char> = Vec::new();
    let chars = s.chars();
    for c in it: chars
        invariant
            v@ == it.seq().take(it.index@),
            it.seq() == s@,
    {
        v.push(c);
    }
    v
}

/// First index in `[lo, hi)` at which `s` holds `c`, or `hi` when there is none.
pub open spec fn find_char(s: Seq<char>, c: char, lo: int, hi: int) -> int
    decreases hi - lo,
{
    if lo >= hi {
        hi
    } else if s[lo] == c {
        lo
    } else {
        find_char(s, c, lo + 1, hi)
    }
}

/// Executable `find_char` on a vector of characters.
pub fn find_char_in(v: &Vec<char>, c: char, lo: usize, hi: usize) -> (r: usize)
    requires
        lo <= hi <= v.len(),
    ensures
        r == find_char(v@, c, lo as int, hi as int),
        lo <= r <= hi,
{
    let mut i: usize = lo;
    while i < hi && v[i] != c
        invariant
            lo <= i <= hi <= v.len(),
            find_char(v@, c, lo as int, hi as int) == find_char(v@, c, i as int, hi as int),
        decreases hi - i,
    {
        i += 1;
    }
    i
}

/// Index of the last place in `[lo, hi)` at which `s` holds `c`, or `lo - 1`
/// when there is none.
pub open spec fn find_last_char(s: Seq<char>, c: char, lo: int, hi: int) -> int
    decreases hi - lo,
{
    if hi <= lo {
        lo - 1
    } else if s[hi - 1] == c {
        hi - 1
    } else {
        find_last_char(s, c, lo, hi - 1)
    }
}

/// Executable `find_last_char` from the start of the text: the index of the
/// last `c` before `hi`, if there is one.
pub fn find_last_char_in(v: &Vec<char>, c: char, hi: usize) -> (r: Option<usize>)
    requires
        hi <= v.len(),
    ensures
        match r {
            Some(i) => i < hi && i == find_last_char(v@, c, 0, hi as int),
            None => find_last_char(v@, c, 0, hi as int) == -1,
        },
{
    let mut e: usize = hi;
    while e > 0
        invariant
            e <= hi <= v.len(),
            find_last_char(v@, c, 0, hi as int) == find_last_char(v@, c, 0, e as int),
        decreases e,
    {
        if v[e - 1] == c {
            return Some(e - 1);
        }
        e -= 1;
    }
    None
}

/// End of the window `[0, hi)` once every `c` at its end is dropped.
pub open spec fn strip_end(s: Seq<char>, c: char, hi: int) -> int
    decreases hi,
{
    if hi <= 0 {
        0
    } else if s[hi - 1] != c {
        hi
    } else {
        strip_end(s, c, hi - 1)
    }
}

/// Executable `strip_end`.
pub fn strip_end_in(v: &Vec<char>, c: char, hi: usize) -> (r: usize)
    requires
        hi <= v.len(),
    ensures
        r == strip_end(v@, c, hi as int),
        r <= hi,
{
    let mut e: usize = hi;
    while e > 0 && v[e - 1] == c
        invariant
            e <= hi <= v.len(),
            strip_end(v@, c, hi as int) == strip_end(v@, c, e as int),
        decreases e,
    {
        e -= 1;
    }
    e
}

/// Whether `pat` stands in `s` at index `at`.
pub open spec fn occurs_at(s: Seq<char>, pat: Seq<char>, at: int) -> bool {
    &&& 0 <= at
    &&& at + pat.len() <= s.len()
    &&& forall|k: int| 0 <= k < pat.len() ==> s[at + k] == #[trigger] pat[k]
}

/// Whether `pat` stands somewhere in `s`.
pub open spec fn contains_seq(s: Seq<char>, pat: Seq<char>) -> bool {
    exists|at: int| occurs_at(s, pat, at)
}

/// Least index at or after `lo` where `pat` stands in `s`, or `-1` when there is none.
pub open spec fn find_seq(s: Seq<char>, pat: Seq<char>, lo: int) -> int
    decreases s.len() - lo,
{
    if lo < 0 || lo + pat.len() > s.len() {
        -1
    } else if occurs_at(s, pat, lo) {
        lo
    } else {
        find_seq(s, pat, lo + 1)
    }
}

/// `find_seq` returns the least occurrence at or after `lo`, and `-1` exactly when
/// there is none.
pub proof fn lemma_find_seq(s: Seq<char>, pat: Seq<char>, lo: int)
    requires
        0 <= lo,
    ensures
        find_seq(s, pat, lo) == -1 || lo <= find_seq(s, pat, lo),
        find_seq(s, pat, lo) >= 0 ==> occurs_at(s, pat, find_seq(s, pat, lo)),
        forall|k: int|
            lo <= k && (find_seq(s, pat, lo) == -1 || k < find_seq(s, pat, lo)) ==> !occurs_at(
                s,
                pat,
                k,
            ),
    decreases s.len() - lo,
{
    if lo + pat.len() <= s.len() && !occurs_at(s, pat, lo) {
        lemma_find_seq(s, pat, lo + 1);
    }
}

/// Executable `occurs_at`.
pub fn occurs_at_in(v: &Vec<char>, pat: &Vec<char>, at: usize) -> (r: bool)
    ensures
        r == occurs_at(v@, pat@, at as int),
{
    if pat.len() > v.len() || at > v.len() - pat.len() {
        return false;
    }
    let mut k: usize = 0;
    while k < pat.len()
        invariant
            k <= pat.len(),
            at + pat.len() <= v.len(),
            forall|j: int| 0 <= j < k ==> v@[at + j] == #[trigger] pat@[j],
        decreases pat.len() - k,
    {
        if v[at + k] != pat[k] {
            return false;
        }
        k += 1;
    }
    true
}

/// Executable `find_seq` from the start of the text.
pub fn find_seq_in(v: &Vec<char>, pat: &Vec<char>) -> (r: Option<usize>)
    ensures
        match r {
            Some(i) => find_seq(v@, pat@, 0) == i,
            None => find_seq(v@, pat@, 0) == -1,
        },
        r.is_some() == contains_seq(v@, pat@),
{
    proof {
        lemma_find_seq(v@, pat@, 0);
    }
    if pat.len() > v.len() {
        return None;
    }
    let last: usize = v.len() - pat.len();
    let mut i: usize = 0;
    while i <= last
        invariant
            i <= last + 1,
            last == v.len() - pat.len(),
            find_seq(v@, pat@, 0) == find_seq(v@, pat@, i as int),
        decreases last + 1 - i,
    {
        if occurs_at_in(v, pat, i) {
            return Some(i);
        }
        i += 1;
    }
    None
}

/// Whether `c` has the Unicode property White_Space.
pub open spec fn is_space(c: char) -> bool {
    let n = c as u32;
    ||| 0x09 <= n <= 0x0D
    ||| n == 0x20
    ||| n == 0x85
    ||| n == 0xA0
    ||| n == 0x1680
    ||| 0x2000 <= n <= 0x200A
    ||| n == 0x2028
    ||| n == 0x2029
    ||| n == 0x202F
    ||| n == 0x205F
    ||| n == 0x3000
}

/// Executable `is_space`.
pub fn is_space_char(c: char) -> (r: bool)
    ensures
        r == is_space(c),
{
    let n: u32 = c as u32;
    (0x09 <= n && n <= 0x0D) || n == 0x20 || n == 0x85 || n == 0xA0 || n == 0x1680 || (0x2000 <= n
        && n <= 0x200A) || n == 0x2028 || n == 0x2029 || n == 0x202F || n == 0x205F || n == 0x3000
}

/// End of the window `[lo, hi)` once the white space at its end is dropped.
pub open spec fn trim_end(s: Seq<char>, lo: int, hi: int) -> int
    decreases hi - lo,
{
    if hi <= lo {
        lo
    } else if !is_space(s[hi - 1]) {
        hi
    } else {
        trim_end(s, lo, hi - 1)
    }
}

/// Start of the run of characters other than white space that ends at `hi`,
/// looking no further back than `lo`.
pub open spec fn token_start(s: Seq<char>, lo: int, hi: int) -> int
    decreases hi - lo,
{
    if hi <= lo {
        lo
    } else if is_space(s[hi - 1]) {
        hi
    } else {
        token_start(s, lo, hi - 1)
    }
}

/// Executable `trim_end`.
pub fn trim_end_in(v: &Vec<char>, lo: usize, hi: usize) -> (r: usize)
    requires
        lo <= hi <= v.len(),
    ensures
        r == trim_end(v@, lo as int, hi as int),
        lo <= r <= hi,
{
    let mut e: usize = hi;
    while e > lo && is_space_char(v[e - 1])
        invariant
            lo <= e <= hi <= v.len(),
            trim_end(v@, lo as int, hi as int) == trim_end(v@, lo as int, e as int),
        decreases e - lo,
    {
        e -= 1;
    }
    e
}

/// Executable `token_start`.
pub fn token_start_in(v: &Vec<char>, lo: usize, hi: usize) -> (r: usize)
    requires
        lo <= hi <= v.len(),
    ensures
        r == token_start(v@, lo as int, hi as int),
        lo <= r <= hi,
{
    let mut b: usize = hi;
    while b > lo && !is_space_char(v[b - 1])
        invariant
            lo <= b <= hi <= v.len(),
            token_start(v@, lo as int, hi as int) == token_start(v@, lo as int, b as int),
        decreases b - lo,
    {
        b -= 1;
    }
    b
}

/// Whether `c` is one of the ASCII digits `0` to `9`.
pub open spec fn is_digit(c: char) -> bool {
    0x30 <= c as u32 <= 0x39
}

/// The number that the digit `c` stands for.
pub open spec fn digit_value(c: char) -> nat {
    (c as u32 - 0x30) as nat
}

/// Whether the window `[lo, hi)` of `s` holds digits only.
pub open spec fn all_digits(s: Seq<char>, lo: int, hi: int) -> bool {
    forall|k: int| lo <= k < hi ==> is_digit(#[trigger] s[k])
}

/// The decimal number written by the digits in the window `[lo, hi)` of `s`.
pub open spec fn digits_value(s: Seq<char>, lo: int, hi: int) -> nat
    decreases hi - lo,
{
    if hi <= lo {
        0
    } else {
        digits_value(s, lo, hi - 1) * 10 + digit_value(s[hi - 1])
    }
}

/// A longer run of digits never writes a smaller number.
pub proof fn lemma_digits_value_grows(s: Seq<char>, lo: int, mid: int, hi: int)
    requires
        lo <= mid <= hi,
    ensures
        digits_value(s, lo, mid) <= digits_value(s, lo, hi),
    decreases hi - mid,
{
    if mid < hi {
        lemma_digits_value_grows(s, lo, mid, hi - 1);
    }
}

/// What reading the window `[lo, hi)` of `s` as an unsigned 32-bit decimal gives:
/// an optional `+`, then one digit or more and nothing else, and a number that fits.
pub open spec fn parse_u32(s: Seq<char>, lo: int, hi: int) -> Option<u32> {
    let start = if lo < hi && s[lo] == '+' {
        lo + 1
    } else {
        lo
    };
    if start < hi && all_digits(s, start, hi) && digits_value(s, start, hi) <= u32::MAX {
        Some(digits_value(s, start, hi) as u32)
    } else {
        None
    }
}

/// Executable `parse_u32`.
pub fn parse_u32_in(v: &Vec<char>, lo: usize, hi: usize) -> (r: Option<u32>)
    requires
        lo <= hi <= v.len(),
    ensures
        r == parse_u32(v@, lo as int, hi as int),
{
    let start: usize = if lo < hi && v[lo] == '+' {
        lo + 1
    } else {
        lo
    };
    if start >= hi {
        return None;
    }
    let mut acc: u64 = 0;
    let mut i: usize = start;
    while i < hi
        invariant
            start <= i <= hi <= v.len(),
            acc == digits_value(v@, start as int, i as int),
            acc <= u32::MAX,
            all_digits(v@, start as int, i as int),
            start as int == if lo < hi && v@[lo as int] == '+' {
                lo + 1
            } else {
                lo as int
            },
        decreases hi - i,
    {
        let c: char = v[i];
        let n: u32 = c as u32;
        if n < 0x30 || n > 0x39 {
            assert(!is_digit(v@[i as int]));
            return None;
        }
        let next: u64 = acc * 10 + (n - 0x30) as u64;
        if next > 0xFFFF_FFFF {
            proof {
                lemma_digits_value_grows(v@, start as int, i + 1, hi as int);
            }
            return None;
        }
        acc = next;
        i += 1;
    }
    Some(acc as u32)
}

} // verus!

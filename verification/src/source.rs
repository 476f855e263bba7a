//! Where the workflow definition of an assignment is read from.

use crate::fetcher::{parse_repo_url, repo_parts};
use crate::models::AcceptedAssignment;
use crate::resolver::{addressable, BatchError};
use crate::text::{
    find_last_char, find_last_char_in, strip_end, strip_end_in, to_chars,
};
use vstd::prelude::*;

verus! {

/// The path of the workflow definition in a repository.
pub const WORKFLOW_PATH: &'static str = ".github/workflows/classroom.yml";

/// Owner and name of the repository at an address: with the `/` at the end of
/// the address left out, the name is what follows the last `/`, and the owner
/// what stands between the `/` before that one, or the start, and it. An
/// address without a `/` names no repository.
pub open spec fn starter_parts(s: Seq<char>) -> Option<(Seq<char>, Seq<char>)> {
    let end = strip_end(s, '/', s.len() as int);
    let cut = find_last_char(s, '/', 0, end);
    if cut < 0 {
        None
    } else {
        Some((s.subrange(find_last_char(s, '/', 0, cut) + 1, cut), s.subrange(cut + 1, end)))
    }
}

/// Reads owner and name of the starter repository from its address.
pub fn starter_repository(url: &str) -> (r: Option<(&str, &str)>)
    ensures
        match r {
            Some(parts) => starter_parts(url@) == Some((parts.0@, parts.1@)),
            None => starter_parts(url@) is None,
        },
{
    let v = to_chars(url);
    let end: usize = strip_end_in(&v, '/', v.len());
    match find_last_char_in(&v, '/', end) {
        None => None,
        Some(cut) => {
            let from: usize = match find_last_char_in(&v, '/', cut) {
                Some(before) => before + 1,
                None => 0,
            };
            Some((url.substring_char(from, cut), url.substring_char(cut + 1, end)))
        },
    }
}

/// The repository whose workflow definition declares the tests of an
/// assignment: the starter repository where the assignment has one, else the
/// repository of the first student of the roster.
pub open spec fn definitions_source(
    starter: Option<Seq<char>>,
    roster: Seq<AcceptedAssignment>,
) -> Result<(Seq<char>, Seq<char>), BatchError> {
    if roster.len() == 0 {
        Err(BatchError::EmptyRoster)
    } else {
        match starter {
            Some(url) => match starter_parts(url) {
                Some(parts) => Ok(parts),
                None => Err(BatchError::InvalidStarterUrl),
            },
            None => if addressable(roster[0]) {
                Ok(repo_parts(roster[0].repository.full_name@))
            } else {
                Err(BatchError::InvalidRepository)
            },
        }
    }
}

/// Decides which repository's workflow definition is read: its owner and name.
pub fn definitions_repository(
    starter_code_url: &Option<String>,
    roster: &Vec<AcceptedAssignment>,
) -> (r: Result<(String, String), BatchError>)
    ensures
        match r {
            Ok(parts) => definitions_source(
                match starter_code_url {
                    Some(url) => Some(url@),
                    None => None,
                },
                roster@,
            ) == Ok::<(Seq<char>, Seq<char>), BatchError>((parts.0@, parts.1@)),
            Err(e) => definitions_source(
                match starter_code_url {
                    Some(url) => Some(url@),
                    None => None,
                },
                roster@,
            ) == Err::<(Seq<char>, Seq<char>), BatchError>(e),
        },
{
    if roster.len() == 0 {
        return Err(BatchError::EmptyRoster);
    }
    match starter_code_url {
        Some(url) => match starter_repository(url.as_str()) {
            Some((owner, repo)) => Ok((owner.to_owned(), repo.to_owned())),
            None => Err(BatchError::InvalidStarterUrl),
        },
        None => {
            let (owner, repo) = parse_repo_url(roster[0].repository.full_name.as_str());
            if owner.unicode_len() == 0 || repo.unicode_len() == 0 {
                Err(BatchError::InvalidRepository)
            } else {
                Ok((owner.to_owned(), repo.to_owned()))
            }
        },
    }
}

} // verus!

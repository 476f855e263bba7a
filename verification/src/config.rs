//! What the program is configured with.

use vstd::prelude::*;

verus! {

/// The configuration: the token that the hosting platform's API asks for.
#[derive(Debug, Clone)]
pub struct Config {
    pub github_token: String,
}

} // verus!

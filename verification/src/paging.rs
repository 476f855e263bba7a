//! How far a paginated read goes, and how often a failed read is tried again.

use vstd::prelude::*;

verus! {

/// The page to read after page `page` came back with `fetched` items, or
/// nothing when the read ends: at an empty page, and at the last page that
/// `limit` allows. Pages count from one.
pub open spec fn following_page(page: u32, fetched: nat, limit: u32) -> Option<u32> {
    if fetched == 0 || page >= limit {
        None
    } else {
        Some((page + 1) as u32)
    }
}

/// Decides whether a paginated read goes on, and with which page.
pub fn next_page(page: u32, fetched: usize, limit: u32) -> (next: Option<u32>)
    ensures
        next == following_page(page, fetched as nat, limit),
{
    if fetched == 0 || page >= limit {
        None
    } else {
        Some(page + 1)
    }
}

/// How often a read is tried, and how long to wait between two tries.
#[derive(Debug, Clone, Copy, PartialEq, Eq, Structural)]
pub struct RetryPolicy {
    pub max_attempts: u32,
    pub delay_seconds: u64,
}

/// What follows a failed try.
#[derive(Debug, Clone, Copy, PartialEq, Eq, Structural)]
pub enum RetryDecision {
    /// Wait this many seconds and try again.
    RetryAfter(u64),
    /// The read has failed for good.
    GiveUp,
}

impl RetryPolicy {
    /// The policy of the roster read: three tries, two seconds apart.
    pub fn roster() -> (policy: RetryPolicy)
        ensures
            policy == (RetryPolicy { max_attempts: 3, delay_seconds: 2 }),
    {
        RetryPolicy { max_attempts: 3, delay_seconds: 2 }
    }

    /// What follows the failure of try number `failed_attempts`, counted from one.
    pub open spec fn decision(self, failed_attempts: u32) -> RetryDecision {
        if failed_attempts < self.max_attempts {
            RetryDecision::RetryAfter(self.delay_seconds)
        } else {
            RetryDecision::GiveUp
        }
    }

    /// Decides what follows the failure of try number `failed_attempts`.
    pub fn after_failure(&self, failed_attempts: u32) -> (d: RetryDecision)
        ensures
            d == self.decision(failed_attempts),
    {
        if failed_attempts < self.max_attempts {
            RetryDecision::RetryAfter(self.delay_seconds)
        } else {
            RetryDecision::GiveUp
        }
    }
}

} // verus!

//! Freshness of cached files: an age measured in whole seconds against a
//! time-to-live.

use vstd::prelude::*;

verus! {

/// Seconds that have passed between `modified` and `now`; zero when the
/// clock reads earlier than the modification time.
pub open spec fn age_of(now: u64, modified: u64) -> int {
    if now >= modified {
        now - modified
    } else {
        0
    }
}

/// A file is fresh while its age is strictly below the time-to-live.
pub open spec fn fresh(now: u64, modified: u64, max_age_secs: u64) -> bool {
    age_of(now, modified) < max_age_secs
}

/// Decides whether a file last modified at `modified` may still be used at
/// `now`, both in seconds since the epoch.
pub fn is_cache_valid(now: u64, modified: u64, max_age_secs: u64) -> (valid: bool)
    ensures
        valid == fresh(now, modified, max_age_secs),
{
    let age: u64 = if now >= modified { now - modified } else { 0 };
    age < max_age_secs
}

} // verus!

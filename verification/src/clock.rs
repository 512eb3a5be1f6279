//! Time as the actors see it: milliseconds on a clock that their driver reads for them.

use vstd::prelude::*;

verus! {

/// Whether more than `limit` milliseconds lie between `since` and `now`. A clock that has
/// gone backwards counts as no time passed.
pub open spec fn has_exceeded(now: u64, since: u64, limit: u64) -> bool {
    now >= since && now - since > limit
}

/// Whether more than `limit` milliseconds lie between `since` and `now`.
pub fn exceeded(now: u64, since: u64, limit: u64) -> (late: bool)
    ensures
        late == has_exceeded(now, since, limit),
{
    now >= since && now - since > limit
}

} // verus!

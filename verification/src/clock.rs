//! Day buckets: the coarse time partition that scopes the daily limit.

use vstd::prelude::*;

verus! {

/// Length of one day bucket, in seconds.
pub const SECONDS_PER_DAY: u64 = 86400;

/// The day bucket that a ledger timestamp (seconds since the epoch) falls in.
pub open spec fn spec_day_bucket(timestamp: u64) -> u64 {
    timestamp / SECONDS_PER_DAY
}

/// Maps a ledger timestamp to its day bucket by integer division; there is
/// no calendar or time-zone alignment.
#[verifier::when_used_as_spec(spec_day_bucket)]
pub fn day_bucket(timestamp: u64) -> (bucket: u64)
    ensures
        bucket == spec_day_bucket(timestamp),
        bucket as int * 86400 <= timestamp as int,
        (timestamp as int) < (bucket as int + 1) * 86400,
{
    timestamp / SECONDS_PER_DAY
}

} // verus!

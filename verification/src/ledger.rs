//! The per-day accumulator behind the daily limit.
//!
//! The ledger maps a day bucket to the total transferred in it. A bucket
//! without an entry counts as zero; entries are created on the first commit
//! of their day and never removed here. A commit is checked against the
//! limit before anything is written.
//!
//! Totals are 128-bit signed integers. A sum that does not fit in one is
//! refused like a sum over the limit: the ledger neither wraps nor
//! saturates.

use crate::host::{store_total, stored_total, totals_of};
use vstd::prelude::*;

verus! {

/// Refusal of a commit: the new total would pass the daily limit, or would
/// not fit in 128 bits.
#[derive(Clone, Copy, Debug, PartialEq, Eq, Structural)]
pub struct LimitExceeded;

/// The total that `totals` holds for `bucket`: zero where it has no entry.
pub open spec fn total_in(totals: Map<u64, i128>, bucket: u64) -> i128 {
    if totals.contains_key(bucket) {
        totals[bucket]
    } else {
        0
    }
}

/// Whether adding `amount` to a day's `current` total is allowed under
/// `limit`: the sum is representable and does not pass the limit.
pub open spec fn admits(limit: i128, current: i128, amount: i128) -> bool {
    i128::MIN <= current + amount <= limit
}

/// Whether no stored total passes `limit`.
pub open spec fn within_limit(totals: Map<u64, i128>, limit: i128) -> bool {
    forall|bucket: u64| #[trigger] totals.contains_key(bucket) ==> totals[bucket] <= limit
}

/// The totals after an attempt to commit `amount` to `bucket`: the bucket's
/// entry becomes the new sum where the sum is admitted, and nothing changes
/// where it is not.
pub open spec fn totals_after_commit(
    totals: Map<u64, i128>,
    limit: i128,
    bucket: u64,
    amount: i128,
) -> Map<u64, i128> {
    if admits(limit, total_in(totals, bucket), amount) {
        totals.insert(bucket, (total_in(totals, bucket) + amount) as i128)
    } else {
        totals
    }
}

/// The total that a day reaches when `amount` is added to `current`, or
/// `None` where the limit does not admit it.
pub fn next_total(limit: i128, current: i128, amount: i128) -> (next: Option<i128>)
    ensures
        next == (if admits(limit, current, amount) {
            Some((current + amount) as i128)
        } else {
            None
        }),
{
    match current.checked_add(amount) {
        Some(sum) => if sum <= limit {
            Some(sum)
        } else {
            None
        },
        None => None,
    }
}

/// Daily totals, kept in a host map from day bucket to amount.
pub struct DailyLimitLedger {
    totals: soroban_sdk::Map<u64, i128>,
}

impl View for DailyLimitLedger {
    type V = Map<u64, i128>;

    open spec fn view(&self) -> Map<u64, i128> {
        totals_of(self.host_map())
    }
}

impl DailyLimitLedger {
    /// The host map that carries the totals.
    pub closed spec fn host_map(&self) -> soroban_sdk::Map<u64, i128> {
        self.totals
    }

    /// A ledger over the totals that `totals` holds.
    pub fn new(totals: soroban_sdk::Map<u64, i128>) -> (ledger: DailyLimitLedger)
        ensures
            ledger.host_map() == totals,
            ledger@ == totals_of(totals),
    {
        DailyLimitLedger { totals }
    }

    /// Gives the host map back, for the caller to persist.
    pub fn into_totals(self) -> (totals: soroban_sdk::Map<u64, i128>)
        ensures
            totals == self.host_map(),
            totals_of(totals) == self@,
    {
        self.totals
    }

    /// The entry recorded for `bucket`, if the day has one.
    pub fn recorded(&self, bucket: u64) -> (entry: Option<i128>)
        ensures
            entry == (if self@.contains_key(bucket) {
                Some(self@[bucket])
            } else {
                None
            }),
    {
        stored_total(&self.totals, bucket)
    }

    /// The total accumulated in `bucket`: zero for a day without an entry.
    pub fn total(&self, bucket: u64) -> (total: i128)
        ensures
            total == total_in(self@, bucket),
    {
        match stored_total(&self.totals, bucket) {
            Some(total) => total,
            None => 0,
        }
    }

    /// Writes `total` as the entry of `bucket`, whatever it held before.
    /// This is the commit itself, without the check: callers go through
    /// [`next_total`] first.
    pub(crate) fn record(&mut self, bucket: u64, total: i128)
        ensures
            final(self)@ == old(self)@.insert(bucket, total),
    {
        store_total(&mut self.totals, bucket, total);
    }

    /// Adds `amount` to the total of `bucket` if the limit admits the sum,
    /// and refuses it otherwise without writing anything.
    pub fn check_and_commit(&mut self, limit: i128, bucket: u64, amount: i128) -> (result: Result<
        (),
        LimitExceeded,
    >)
        ensures
            result is Ok <==> admits(limit, total_in(old(self)@, bucket), amount),
            final(self)@ == totals_after_commit(old(self)@, limit, bucket, amount),
            result is Ok ==> total_in(final(self)@, bucket) == total_in(old(self)@, bucket)
                + amount,
            result is Err ==> final(self)@ == old(self)@,
            within_limit(old(self)@, limit) ==> within_limit(final(self)@, limit),
    {
        let current = self.total(bucket);
        match next_total(limit, current, amount) {
            Some(total) => {
                self.record(bucket, total);
                Ok(())
            },
            None => Err(LimitExceeded),
        }
    }
}

} // verus!

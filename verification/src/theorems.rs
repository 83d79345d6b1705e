//! What holds of every evaluation.
//!
//! The theorems here are stated over the same spec functions that the
//! contracts of the executable code use, so each of them is a fact about
//! what [`crate::evaluator::evaluate`] and
//! [`crate::ledger::DailyLimitLedger::check_and_commit`] do.

use crate::config::{PolicyConfigView, Rejection};
use crate::clock::{spec_day_bucket, SECONDS_PER_DAY};
use crate::evaluator::{
    lemma_failure_is_final, lemma_walk_respects_limit, progress, spec_evaluate,
    spec_evaluate_batch, step, Progress,
};
use crate::gate::{spec_applies, SignerKey};
use crate::ledger::{admits, total_in, totals_after_commit, within_limit};
use crate::operation::{
    address_at, amount_at, spec_classify, transfer_name, ArgumentView, Classification, Direction,
    OperationView, AMOUNT_POSITION, SENDER_POSITION,
};
use vstd::prelude::*;

verus! {

/// Whether `operation` is a direct call of the function `transfer`.
pub open spec fn is_transfer_call(operation: OperationView) -> bool {
    operation matches OperationView::Invocation { function, .. } && function == transfer_name()
}

/// What `operation` adds to the day's total: its amount where it is a
/// counted transfer, nothing otherwise.
pub open spec fn counted_amount(
    config: PolicyConfigView,
    party: Seq<char>,
    operation: OperationView,
) -> int {
    match spec_classify(operation, party, config.direction) {
        Classification::Relevant(amount) => amount as int,
        _ => 0,
    }
}

/// What a batch adds to the day's total if all of it is counted.
pub open spec fn counted_sum(
    config: PolicyConfigView,
    party: Seq<char>,
    operations: Seq<OperationView>,
) -> int
    decreases operations.len(),
{
    if operations.len() == 0 {
        0
    } else {
        counted_sum(config, party, operations.drop_last()) + counted_amount(
            config,
            party,
            operations.last(),
        )
    }
}

/// Whether the batch holds a counted transfer.
pub open spec fn counts_any(
    config: PolicyConfigView,
    party: Seq<char>,
    operations: Seq<OperationView>,
) -> bool {
    exists|i: int|
        0 <= i < operations.len() && #[trigger] spec_classify(
            operations[i],
            party,
            config.direction,
        ) is Relevant
}

/// Whether every operation of the batch is a call of `transfer`.
pub open spec fn all_transfers(operations: Seq<OperationView>) -> bool {
    forall|i: int| 0 <= i < operations.len() ==> is_transfer_call(#[trigger] operations[i])
}

/// Whether the day's total, starting at `start`, stays representable and
/// within the limit after every prefix of the batch.
pub open spec fn stays_within_limit(
    config: PolicyConfigView,
    party: Seq<char>,
    start: i128,
    operations: Seq<OperationView>,
) -> bool {
    forall|upto: int|
        0 <= upto <= operations.len() ==> i128::MIN <= start + #[trigger] counted_sum(
            config,
            party,
            operations.take(upto),
        ) <= config.limit
}

/// An operation is rejected exactly when it is not a call of `transfer`.
pub proof fn theorem_rejected_iff_not_transfer(
    operation: OperationView,
    party: Seq<char>,
    direction: Direction,
)
    ensures
        spec_classify(operation, party, direction) is Rejected <==> !is_transfer_call(operation),
{
}

/// A batch of transfers whose running total stays within the limit walks
/// through to the end, and arrives at the start plus what it counted.
pub proof fn lemma_walk_within_limit(
    config: PolicyConfigView,
    party: Seq<char>,
    start: i128,
    operations: Seq<OperationView>,
)
    requires
        all_transfers(operations),
        stays_within_limit(config, party, start, operations),
    ensures
        progress(config, party, start, operations) == (Progress::Running {
            total: (start + counted_sum(config, party, operations)) as i128,
            touched: counts_any(config, party, operations),
        }),
    decreases operations.len(),
{
    assert(operations.take(operations.len() as int) =~= operations);
    if operations.len() == 0 {
        assert(operations.take(0) =~= operations);
    } else {
        let front = operations.drop_last();
        let last = operations.last();
        assert(all_transfers(front));
        assert forall|upto: int| 0 <= upto <= front.len() implies i128::MIN <= start
            + #[trigger] counted_sum(config, party, front.take(upto)) <= config.limit by {
            assert(front.take(upto) =~= operations.take(upto));
        }
        lemma_walk_within_limit(config, party, start, front);
        assert(front =~= operations.take(operations.len() - 1));
        assert(is_transfer_call(operations[operations.len() - 1]));
        if counts_any(config, party, front) {
            let i = choose|i: int|
                0 <= i < front.len() && #[trigger] spec_classify(
                    front[i],
                    party,
                    config.direction,
                ) is Relevant;
            assert(spec_classify(operations[i], party, config.direction) is Relevant);
        }
        if counts_any(config, party, operations) && !counts_any(config, party, front) {
            let i = choose|i: int|
                0 <= i < operations.len() && #[trigger] spec_classify(
                    operations[i],
                    party,
                    config.direction,
                ) is Relevant;
            if i < front.len() {
                assert(spec_classify(front[i], party, config.direction) is Relevant);
            }
        }
        if spec_classify(last, party, config.direction) is Relevant {
            assert(spec_classify(
                operations[operations.len() - 1],
                party,
                config.direction,
            ) is Relevant);
        }
    }
}

/// The policy has no opinion on signers that do not carry its label: for a
/// signer of another key scheme, or one whose registered label is not the
/// required one, every batch is authorized, whatever it holds, and no total
/// changes.
pub proof fn theorem_other_signers_are_authorized(
    config: PolicyConfigView,
    totals: Map<u64, i128>,
    party: Seq<char>,
    signer: SignerKey,
    registered: Option<Seq<char>>,
    now: u64,
    operations: Seq<OperationView>,
)
    requires
        registered != Some(config.required_label) || !(signer is Ed25519),
    ensures
        !spec_applies(signer, registered, config.required_label),
        spec_evaluate(config, totals, party, signer, registered, now, operations).outcome is Ok,
        spec_evaluate(config, totals, party, signer, registered, now, operations).totals == totals,
{
}

/// For a signer that the policy applies to, a batch of transfers whose
/// running total stays within the limit is authorized, and the day's stored
/// total grows by exactly what the batch counted.
pub proof fn theorem_transfers_within_limit_accumulate(
    config: PolicyConfigView,
    totals: Map<u64, i128>,
    party: Seq<char>,
    signer: SignerKey,
    registered: Option<Seq<char>>,
    now: u64,
    operations: Seq<OperationView>,
)
    requires
        spec_applies(signer, registered, config.required_label),
        all_transfers(operations),
        stays_within_limit(
            config,
            party,
            total_in(totals, spec_day_bucket(now)),
            operations,
        ),
    ensures
        spec_evaluate(config, totals, party, signer, registered, now, operations).outcome is Ok,
        total_in(spec_evaluate(config, totals, party, signer, registered, now, operations).totals, spec_day_bucket(now)) == total_in(
            totals,
            spec_day_bucket(now),
        ) + counted_sum(config, party, operations),
        counts_any(config, party, operations) ==> spec_evaluate(config, totals, party, signer, registered, now, operations).totals.contains_key(spec_day_bucket(now)),
{
    lemma_walk_within_limit(config, party, total_in(totals, spec_day_bucket(now)), operations);
    assert(operations.take(operations.len() as int) =~= operations);
    if !counts_any(config, party, operations) {
        lemma_nothing_counted(config, party, operations);
    }
}

/// A batch without a counted transfer adds nothing.
pub proof fn lemma_nothing_counted(
    config: PolicyConfigView,
    party: Seq<char>,
    operations: Seq<OperationView>,
)
    requires
        !counts_any(config, party, operations),
    ensures
        counted_sum(config, party, operations) == 0,
    decreases operations.len(),
{
    if operations.len() > 0 {
        let front = operations.drop_last();
        assert forall|i: int| 0 <= i < front.len() implies !(#[trigger] spec_classify(
            front[i],
            party,
            config.direction,
        ) is Relevant) by {
            assert(front[i] == operations[i]);
        }
        lemma_nothing_counted(config, party, front);
        assert(!(spec_classify(
            operations[operations.len() - 1],
            party,
            config.direction,
        ) is Relevant));
    }
}

/// For a signer that the policy applies to: where the transfers before
/// position `at` stay within the limit and the counted transfer at `at`
/// would pass it, the evaluation fails at exactly that operation with
/// `LimitExceeded`, and nothing of the batch is committed: the totals are
/// those from before the evaluation.
pub proof fn theorem_fails_at_first_excess(
    config: PolicyConfigView,
    totals: Map<u64, i128>,
    party: Seq<char>,
    signer: SignerKey,
    registered: Option<Seq<char>>,
    now: u64,
    operations: Seq<OperationView>,
    at: int,
)
    requires
        spec_applies(signer, registered, config.required_label),
        0 <= at < operations.len(),
        all_transfers(operations.take(at)),
        stays_within_limit(
            config,
            party,
            total_in(totals, spec_day_bucket(now)),
            operations.take(at),
        ),
        spec_classify(operations[at], party, config.direction) is Relevant,
        total_in(totals, spec_day_bucket(now)) + counted_sum(
            config,
            party,
            operations.take(at + 1),
        ) > config.limit,
    ensures
        progress(
            config,
            party,
            total_in(totals, spec_day_bucket(now)),
            operations.take(at),
        ) is Running,
        progress(config, party, total_in(totals, spec_day_bucket(now)), operations.take(at + 1))
            == Progress::Failed(Rejection::LimitExceeded),
        spec_evaluate(config, totals, party, signer, registered, now, operations).outcome == Err::<(), Rejection>(Rejection::LimitExceeded),
        spec_evaluate(config, totals, party, signer, registered, now, operations).totals == totals,
{
    let start = total_in(totals, spec_day_bucket(now));
    let before = operations.take(at);
    let upto = operations.take(at + 1);
    lemma_walk_within_limit(config, party, start, before);
    assert(before.take(at) =~= before);
    assert(upto.drop_last() =~= before);
    assert(upto.last() == operations[at]);
    assert(counted_sum(config, party, upto) == counted_sum(config, party, before)
        + counted_amount(config, party, operations[at]));
    assert(progress(config, party, start, upto) == step(
        config,
        party,
        progress(config, party, start, before),
        operations[at],
    ));
    lemma_failure_is_final(config, party, start, operations, at + 1);
}

/// For a signer that the policy applies to, a batch that holds anything but
/// a call of `transfer` is never authorized and commits nothing, whatever
/// else it holds. It fails with `InvalidOperation` at that operation where
/// the operations before it are transfers that stay within the limit; the
/// one other way for it to fail is that an earlier transfer has already
/// passed the limit.
pub proof fn theorem_non_transfer_rejects(
    config: PolicyConfigView,
    totals: Map<u64, i128>,
    party: Seq<char>,
    signer: SignerKey,
    registered: Option<Seq<char>>,
    now: u64,
    operations: Seq<OperationView>,
    at: int,
)
    requires
        spec_applies(signer, registered, config.required_label),
        0 <= at < operations.len(),
        !is_transfer_call(operations[at]),
    ensures
        spec_evaluate(config, totals, party, signer, registered, now, operations).outcome is Err,
        spec_evaluate(config, totals, party, signer, registered, now, operations).totals == totals,
        all_transfers(operations.take(at)) && stays_within_limit(
            config,
            party,
            total_in(totals, spec_day_bucket(now)),
            operations.take(at),
        ) ==> spec_evaluate(config, totals, party, signer, registered, now, operations).outcome == Err::<(), Rejection>(Rejection::InvalidOperation),
{
    let start = total_in(totals, spec_day_bucket(now));
    let before = operations.take(at);
    assert(operations.take(at + 1).drop_last() =~= before);
    assert(operations.take(at + 1).last() == operations[at]);
    if all_transfers(before) && stays_within_limit(config, party, start, before) {
        lemma_walk_within_limit(config, party, start, before);
    }
    lemma_failure_is_final(config, party, start, operations, at + 1);
}

/// Under an incoming policy a transfer that the authorizing party itself
/// sends is ignored: it is irrelevant, and leaves the walk where it was.
pub proof fn theorem_incoming_ignores_own_transfers(
    config: PolicyConfigView,
    party: Seq<char>,
    args: Seq<ArgumentView>,
    state: Progress,
)
    requires
        config.direction == Direction::Incoming,
        address_at(args, SENDER_POSITION as int) == Some(party),
    ensures
        spec_classify(
            OperationView::Invocation { function: transfer_name(), args },
            party,
            Direction::Incoming,
        ) == Classification::Irrelevant,
        step(
            config,
            party,
            state,
            OperationView::Invocation { function: transfer_name(), args },
        ) == state,
{
}

/// Under an incoming policy a transfer that somebody else sends counts
/// with its amount.
pub proof fn theorem_incoming_counts_foreign_transfers(
    party: Seq<char>,
    args: Seq<ArgumentView>,
    sender: Seq<char>,
    amount: i128,
)
    requires
        address_at(args, SENDER_POSITION as int) == Some(sender),
        sender != party,
        amount_at(args, AMOUNT_POSITION as int) == Some(amount),
    ensures
        spec_classify(
            OperationView::Invocation { function: transfer_name(), args },
            party,
            Direction::Incoming,
        ) == Classification::Relevant(amount),
{
}

/// Under an outgoing policy every transfer whose sender and amount decode
/// counts, whoever the sender is.
pub proof fn theorem_outgoing_counts_every_transfer(
    party: Seq<char>,
    args: Seq<ArgumentView>,
    sender: Seq<char>,
    amount: i128,
)
    requires
        address_at(args, SENDER_POSITION as int) == Some(sender),
        amount_at(args, AMOUNT_POSITION as int) == Some(amount),
    ensures
        spec_classify(
            OperationView::Invocation { function: transfer_name(), args },
            party,
            Direction::Outgoing,
        ) == Classification::Relevant(amount),
{
}

/// A `transfer` whose sender or amount is missing or does not decode is
/// skipped in either direction: it is irrelevant, neither rejected nor
/// counted, and leaves the walk where it was.
pub proof fn theorem_undecodable_transfers_are_skipped(
    config: PolicyConfigView,
    party: Seq<char>,
    args: Seq<ArgumentView>,
    state: Progress,
)
    requires
        address_at(args, SENDER_POSITION as int) is None || amount_at(
            args,
            AMOUNT_POSITION as int,
        ) is None,
    ensures
        spec_classify(
            OperationView::Invocation { function: transfer_name(), args },
            party,
            config.direction,
        ) == Classification::Irrelevant,
        step(
            config,
            party,
            state,
            OperationView::Invocation { function: transfer_name(), args },
        ) == state,
{
}

/// Day buckets do not interfere: a commit to one day leaves every other
/// day's total, and what the limit admits on it, as they were, and commits
/// to two different days can be made in either order.
pub proof fn theorem_buckets_are_independent(
    totals: Map<u64, i128>,
    limit: i128,
    day: u64,
    amount: i128,
    other_day: u64,
    other_amount: i128,
)
    requires
        day != other_day,
    ensures
        total_in(totals_after_commit(totals, limit, day, amount), other_day) == total_in(
            totals,
            other_day,
        ),
        admits(
            limit,
            total_in(totals_after_commit(totals, limit, day, amount), other_day),
            other_amount,
        ) == admits(limit, total_in(totals, other_day), other_amount),
        totals_after_commit(
            totals_after_commit(totals, limit, day, amount),
            limit,
            other_day,
            other_amount,
        ) == totals_after_commit(
            totals_after_commit(totals, limit, other_day, other_amount),
            limit,
            day,
            amount,
        ),
{
    assert(totals_after_commit(
        totals_after_commit(totals, limit, day, amount),
        limit,
        other_day,
        other_amount,
    ) =~= totals_after_commit(
        totals_after_commit(totals, limit, other_day, other_amount),
        limit,
        day,
        amount,
    ));
}

/// The whole limit can be used on each of two consecutive days that have
/// seen no transfer yet.
pub proof fn theorem_full_limit_on_consecutive_days(
    totals: Map<u64, i128>,
    limit: i128,
    day: u64,
)
    requires
        limit >= 0,
        day < u64::MAX,
        total_in(totals, day) == 0,
        total_in(totals, (day + 1) as u64) == 0,
    ensures
        admits(limit, total_in(totals, day), limit),
        admits(
            limit,
            total_in(totals_after_commit(totals, limit, day, limit), (day + 1) as u64),
            limit,
        ),
        total_in(
            totals_after_commit(
                totals_after_commit(totals, limit, day, limit),
                limit,
                (day + 1) as u64,
                limit,
            ),
            day,
        ) == limit,
        total_in(
            totals_after_commit(
                totals_after_commit(totals, limit, day, limit),
                limit,
                (day + 1) as u64,
                limit,
            ),
            (day + 1) as u64,
        ) == limit,
{
}

/// The limit renews with the day: for a signer that the policy applies to,
/// a counted transfer of the whole limit is authorized on a day that has
/// seen none, and so is another one a day later.
pub proof fn theorem_limit_renews_each_day(
    config: PolicyConfigView,
    totals: Map<u64, i128>,
    party: Seq<char>,
    signer: SignerKey,
    registered: Option<Seq<char>>,
    now: u64,
    operation: OperationView,
)
    requires
        spec_applies(signer, registered, config.required_label),
        config.limit >= 0,
        now + SECONDS_PER_DAY <= u64::MAX,
        spec_classify(operation, party, config.direction) == Classification::Relevant(
            config.limit,
        ),
        total_in(totals, spec_day_bucket(now)) == 0,
        total_in(totals, spec_day_bucket((now + SECONDS_PER_DAY) as u64)) == 0,
    ensures
        ({
            let later = (now + SECONDS_PER_DAY) as u64;
            let first = spec_evaluate(
                config,
                totals,
                party,
                signer,
                registered,
                now,
                seq![operation],
            );
            let second = spec_evaluate(
                config,
                first.totals,
                party,
                signer,
                registered,
                later,
                seq![operation],
            );
            &&& spec_day_bucket(later) == spec_day_bucket(now) + 1
            &&& first.outcome is Ok
            &&& second.outcome is Ok
            &&& total_in(second.totals, spec_day_bucket(now)) == config.limit
            &&& total_in(second.totals, spec_day_bucket(later)) == config.limit
        }),
{
    let later = (now + SECONDS_PER_DAY) as u64;
    let first = spec_evaluate(config, totals, party, signer, registered, now, seq![operation]);
    theorem_single_transfer_is_a_commit(
        config,
        totals,
        spec_day_bucket(now),
        party,
        operation,
        config.limit,
    );
    theorem_single_transfer_is_a_commit(
        config,
        first.totals,
        spec_day_bucket(later),
        party,
        operation,
        config.limit,
    );
}

/// An evaluation changes no day but its own.
pub proof fn theorem_evaluation_touches_one_bucket(
    config: PolicyConfigView,
    totals: Map<u64, i128>,
    bucket: u64,
    party: Seq<char>,
    operations: Seq<OperationView>,
    other: u64,
)
    requires
        other != bucket,
    ensures
        spec_evaluate_batch(config, totals, bucket, party, operations).totals.contains_key(other)
            == totals.contains_key(other),
        total_in(spec_evaluate_batch(config, totals, bucket, party, operations).totals, other)
            == total_in(totals, other),
{
}

/// Evaluating a batch of one counted transfer is one commit to the ledger.
pub proof fn theorem_single_transfer_is_a_commit(
    config: PolicyConfigView,
    totals: Map<u64, i128>,
    bucket: u64,
    party: Seq<char>,
    operation: OperationView,
    amount: i128,
)
    requires
        spec_classify(operation, party, config.direction) == Classification::Relevant(amount),
    ensures
        spec_evaluate_batch(config, totals, bucket, party, seq![operation]).outcome is Ok
            <==> admits(config.limit, total_in(totals, bucket), amount),
        spec_evaluate_batch(config, totals, bucket, party, seq![operation]).totals
            == totals_after_commit(totals, config.limit, bucket, amount),
{
    let operations = seq![operation];
    assert(operations.drop_last() =~= Seq::<OperationView>::empty());
    assert(operations.last() == operation);
    assert(progress(config, party, total_in(totals, bucket), operations.drop_last()) == (
    Progress::Running { total: total_in(totals, bucket), touched: false }));
}

/// No stored total ever passes the limit: if none does before an
/// evaluation, none does after it, and the same holds of a single commit.
pub proof fn theorem_stored_totals_stay_within_limit(
    config: PolicyConfigView,
    totals: Map<u64, i128>,
    party: Seq<char>,
    signer: SignerKey,
    registered: Option<Seq<char>>,
    now: u64,
    operations: Seq<OperationView>,
    bucket: u64,
    amount: i128,
)
    requires
        within_limit(totals, config.limit),
    ensures
        within_limit(
            spec_evaluate(config, totals, party, signer, registered, now, operations).totals,
            config.limit,
        ),
        within_limit(totals_after_commit(totals, config.limit, bucket, amount), config.limit),
{
    lemma_walk_respects_limit(config, party, total_in(totals, spec_day_bucket(now)), operations);
}

} // verus!

//! The policy evaluator: one decision per authorization request.
//!
//! An evaluation starts at the capability gate. Where the policy does not
//! apply to the signer it abstains: the request is authorized and nothing
//! is touched. Otherwise it walks the batch in order on a working total that
//! starts at today's recorded total. Each operation is classified; an
//! operation that is not a transfer rejects the batch at once, a counted
//! transfer must be admitted by the limit on top of what the batch has
//! counted so far. Only a batch that passes as a whole is committed, in one
//! write, so a rejected batch leaves the ledger as it found it.

use crate::clock::{day_bucket, spec_day_bucket};
use crate::config::{PolicyConfig, PolicyConfigView, Rejection};
use crate::gate::{applies, label_view, spec_applies, SignerKey};
use crate::host::{batch_of, holds_contexts, operation_at, operation_count};
use crate::ledger::{admits, next_total, total_in, within_limit, DailyLimitLedger};
use crate::operation::{classify, spec_classify, Classification, Operation, OperationView};
use soroban_sdk::auth::Context;
use vstd::prelude::*;

verus! {

/// Where the walk over a batch stands.
#[derive(Clone, Copy, Debug, PartialEq, Eq, Structural)]
pub enum Progress {
    /// Every operation so far passed. `total` is the day's total with the
    /// counted transfers of the batch added; `touched` tells whether the
    /// batch has counted any transfer yet.
    Running { total: i128, touched: bool },
    /// An operation was refused; the walk is over.
    Failed(Rejection),
}

/// What an evaluation comes to: the decision, and the daily totals that it
/// leaves behind.
pub ghost struct Evaluation {
    pub outcome: Result<(), Rejection>,
    pub totals: Map<u64, i128>,
}

/// The state after `operation`, coming from `state`.
pub open spec fn step(
    config: PolicyConfigView,
    party: Seq<char>,
    state: Progress,
    operation: OperationView,
) -> Progress {
    match state {
        Progress::Failed(_) => state,
        Progress::Running { total, touched } => match spec_classify(
            operation,
            party,
            config.direction,
        ) {
            Classification::Rejected => Progress::Failed(Rejection::InvalidOperation),
            Classification::Irrelevant => state,
            Classification::Relevant(amount) => if admits(config.limit, total, amount) {
                Progress::Running { total: (total + amount) as i128, touched: true }
            } else {
                Progress::Failed(Rejection::LimitExceeded)
            },
        },
    }
}

/// The state after all of `operations`, in order, for a day whose recorded
/// total is `start`.
pub open spec fn progress(
    config: PolicyConfigView,
    party: Seq<char>,
    start: i128,
    operations: Seq<OperationView>,
) -> Progress
    decreases operations.len(),
{
    if operations.len() == 0 {
        Progress::Running { total: start, touched: false }
    } else {
        step(
            config,
            party,
            progress(config, party, start, operations.drop_last()),
            operations.last(),
        )
    }
}

/// The evaluation of a batch for a signer that the policy applies to, on
/// the day `bucket`.
pub open spec fn spec_evaluate_batch(
    config: PolicyConfigView,
    totals: Map<u64, i128>,
    bucket: u64,
    party: Seq<char>,
    operations: Seq<OperationView>,
) -> Evaluation {
    match progress(config, party, total_in(totals, bucket), operations) {
        Progress::Failed(reason) => Evaluation { outcome: Err(reason), totals },
        Progress::Running { total, touched } => Evaluation {
            outcome: Ok(()),
            totals: if touched {
                totals.insert(bucket, total)
            } else {
                totals
            },
        },
    }
}

/// The evaluation of an authorization request made at ledger time `now`.
pub open spec fn spec_evaluate(
    config: PolicyConfigView,
    totals: Map<u64, i128>,
    party: Seq<char>,
    signer: SignerKey,
    registered: Option<Seq<char>>,
    now: u64,
    operations: Seq<OperationView>,
) -> Evaluation {
    if spec_applies(signer, registered, config.required_label) {
        spec_evaluate_batch(config, totals, spec_day_bucket(now), party, operations)
    } else {
        Evaluation { outcome: Ok(()), totals }
    }
}

/// Once an operation has been refused, the rest of the batch changes
/// nothing.
pub proof fn lemma_failure_is_final(
    config: PolicyConfigView,
    party: Seq<char>,
    start: i128,
    operations: Seq<OperationView>,
    upto: int,
)
    requires
        0 <= upto <= operations.len(),
        progress(config, party, start, operations.take(upto)) is Failed,
    ensures
        progress(config, party, start, operations) == progress(
            config,
            party,
            start,
            operations.take(upto),
        ),
    decreases operations.len() - upto,
{
    if upto < operations.len() {
        assert(operations.take(upto + 1).drop_last() =~= operations.take(upto));
        lemma_failure_is_final(config, party, start, operations, upto + 1);
    } else {
        assert(operations.take(upto) =~= operations);
    }
}

/// A walk never arrives at a total over the limit by counting a transfer.
pub proof fn lemma_walk_respects_limit(
    config: PolicyConfigView,
    party: Seq<char>,
    start: i128,
    operations: Seq<OperationView>,
)
    ensures
        match progress(config, party, start, operations) {
            Progress::Running { total, touched } => if touched {
                total <= config.limit
            } else {
                total == start
            },
            Progress::Failed(_) => true,
        },
    decreases operations.len(),
{
    if operations.len() > 0 {
        lemma_walk_respects_limit(config, party, start, operations.drop_last());
    }
}

/// Takes the walk one operation further.
pub fn advance(config: &PolicyConfig, party: &String, state: Progress, operation: &Operation) -> (next:
    Progress)
    ensures
        next == step(config@, party@, state, operation@),
{
    match state {
        Progress::Failed(_) => state,
        Progress::Running { total, touched: _ } => match classify(
            operation,
            party,
            config.direction,
        ) {
            Classification::Rejected => Progress::Failed(Rejection::InvalidOperation),
            Classification::Irrelevant => state,
            Classification::Relevant(amount) => match next_total(config.limit, total, amount) {
                Some(total) => Progress::Running { total, touched: true },
                None => Progress::Failed(Rejection::LimitExceeded),
            },
        },
    }
}

/// Evaluates a batch for a signer that the policy applies to, on the day
/// `bucket`, and commits the new total if the whole batch passes. The batch
/// has to hold contexts throughout, as the host hands them out.
pub fn evaluate_batch(
    config: &PolicyConfig,
    ledger: &mut DailyLimitLedger,
    bucket: u64,
    party: &String,
    contexts: &soroban_sdk::Vec<Context>,
) -> (outcome: Result<(), Rejection>)
    requires
        holds_contexts(*contexts),
    ensures
        outcome == spec_evaluate_batch(
            config@,
            old(ledger)@,
            bucket,
            party@,
            batch_of(*contexts),
        ).outcome,
        final(ledger)@ == spec_evaluate_batch(
            config@,
            old(ledger)@,
            bucket,
            party@,
            batch_of(*contexts),
        ).totals,
        outcome is Err ==> final(ledger)@ == old(ledger)@,
        within_limit(old(ledger)@, config.limit) ==> within_limit(final(ledger)@, config.limit),
{
    let ghost operations = batch_of(*contexts);
    proof {
        lemma_walk_respects_limit(config@, party@, total_in(ledger@, bucket), operations);
    }
    let count = operation_count(contexts);
    let start = ledger.total(bucket);
    let mut state = Progress::Running { total: start, touched: false };
    let mut index: u32 = 0;
    proof {
        assert(operations.take(0) =~= Seq::<OperationView>::empty());
    }
    while index < count
        invariant
            holds_contexts(*contexts),
            operations == batch_of(*contexts),
            count == operations.len(),
            ledger@ == old(ledger)@,
            start == total_in(old(ledger)@, bucket),
            index <= count,
            state is Running,
            state == progress(config@, party@, start, operations.take(index as int)),
        decreases count - index,
    {
        let operation = operation_at(contexts, index);
        proof {
            assert(operations.take(index + 1).drop_last() =~= operations.take(index as int));
        }
        state = advance(config, party, state, &operation);
        if let Progress::Failed(reason) = state {
            proof {
                lemma_failure_is_final(config@, party@, start, operations, index + 1);
            }
            return Err(reason);
        }
        index = index + 1;
    }
    proof {
        assert(operations.take(count as int) =~= operations);
    }
    if let Progress::Running { total, touched: true } = state {
        ledger.record(bucket, total);
    }
    Ok(())
}

/// Evaluates one authorization request.
///
/// `party` is the address on whose behalf the batch is authorized, in
/// strkey text form; `signer` is the key that signed and `registered` the
/// capability label that the registry holds for it; `now` is the ledger
/// time in seconds. `Ok` authorizes the batch. An `Err` rejects it and
/// leaves the ledger unchanged. Where the policy applies, the batch has to
/// hold contexts throughout, as the host hands them out.
pub fn evaluate(
    config: &PolicyConfig,
    ledger: &mut DailyLimitLedger,
    party: &String,
    signer: &SignerKey,
    registered: &Option<String>,
    now: u64,
    contexts: &soroban_sdk::Vec<Context>,
) -> (outcome: Result<(), Rejection>)
    requires
        spec_applies(*signer, label_view(*registered), config@.required_label) ==> holds_contexts(
            *contexts,
        ),
    ensures
        outcome == spec_evaluate(
            config@,
            old(ledger)@,
            party@,
            *signer,
            label_view(*registered),
            now,
            batch_of(*contexts),
        ).outcome,
        final(ledger)@ == spec_evaluate(
            config@,
            old(ledger)@,
            party@,
            *signer,
            label_view(*registered),
            now,
            batch_of(*contexts),
        ).totals,
        outcome is Err ==> final(ledger)@ == old(ledger)@,
        within_limit(old(ledger)@, config.limit) ==> within_limit(final(ledger)@, config.limit),
{
    if !applies(signer, registered, &config.required_label) {
        return Ok(());
    }
    evaluate_batch(config, ledger, day_bucket(now), party, contexts)
}

} // verus!

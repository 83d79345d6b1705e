//! The earning policy: a daily limit on incoming transfers.
//!
//! A signer registered under the label [`REQUIRED_PASSKEY_NAME`] may
//! authorize `transfer` calls only, and receive at most [`DAILY_LIMIT`]
//! stroops per day. For any other signer the policy abstains.

use crate::config::{PolicyConfig, PolicyConfigView, Rejection};
use crate::evaluator::{evaluate, spec_evaluate};
use crate::gate::{label_view, spec_applies, SignerKey};
use crate::host::{batch_of, holds_contexts};
use crate::ledger::{within_limit, DailyLimitLedger};
use crate::operation::Direction;
use soroban_sdk::auth::Context;
use vstd::prelude::*;

verus! {

/// Daily earning limit: ten units of the asset, counted in stroops
/// (a stroop is one ten-millionth of a unit).
pub const DAILY_LIMIT: i128 = 100_000_000;

/// The capability label that a signer needs for this policy to apply.
pub const REQUIRED_PASSKEY_NAME: &'static str = "earning_limit";

/// The instance-storage key under which the daily totals are persisted.
pub const STORAGE_KEY: &'static str = "daily_earning";

/// The errors with which the contract aborts.
#[derive(Copy, Clone, Debug, PartialEq, Eq, Structural)]
pub enum Error {
    /// A counted transfer would take the day's total past [`DAILY_LIMIT`].
    EarningLimitExceeded,
    /// An authorized operation is not a call of `transfer`.
    InvalidOperation,
    /// Reserved; no evaluation ends with it.
    InvalidPasskeyName,
}

impl Error {
    /// The abort code that stands for the error on the wire.
    pub open spec fn spec_code(self) -> u32 {
        match self {
            Error::EarningLimitExceeded => 1,
            Error::InvalidOperation => 2,
            Error::InvalidPasskeyName => 3,
        }
    }

    /// The abort code that stands for the error on the wire.
    #[verifier::when_used_as_spec(spec_code)]
    pub fn code(self) -> (code: u32)
        ensures
            code == self.spec_code(),
    {
        match self {
            Error::EarningLimitExceeded => 1,
            Error::InvalidOperation => 2,
            Error::InvalidPasskeyName => 3,
        }
    }

    /// The error that reports a rejection by the evaluator.
    pub open spec fn spec_from_rejection(rejection: Rejection) -> Error {
        match rejection {
            Rejection::LimitExceeded => Error::EarningLimitExceeded,
            Rejection::InvalidOperation => Error::InvalidOperation,
        }
    }

    /// The error that reports a rejection by the evaluator.
    #[verifier::when_used_as_spec(spec_from_rejection)]
    pub fn from_rejection(rejection: Rejection) -> (error: Error)
        ensures
            error == Error::spec_from_rejection(rejection),
    {
        match rejection {
            Rejection::LimitExceeded => Error::EarningLimitExceeded,
            Rejection::InvalidOperation => Error::InvalidOperation,
        }
    }
}

/// What the contract answers for an evaluator's decision.
pub open spec fn reported(outcome: Result<(), Rejection>) -> Result<(), Error> {
    match outcome {
        Ok(()) => Ok(()),
        Err(rejection) => Err(Error::spec_from_rejection(rejection)),
    }
}

/// The configuration of the earning policy.
pub open spec fn spec_config() -> PolicyConfigView {
    PolicyConfigView {
        limit: DAILY_LIMIT,
        required_label: REQUIRED_PASSKEY_NAME@,
        direction: Direction::Incoming,
    }
}

/// The configuration of the earning policy.
pub fn config() -> (config: PolicyConfig)
    ensures
        config@ == spec_config(),
{
    PolicyConfig::new(DAILY_LIMIT, REQUIRED_PASSKEY_NAME, Direction::Incoming)
}

/// The earning policy contract.
#[derive(Copy, Clone, Debug, PartialEq, Eq, Structural)]
pub struct Contract;

impl Contract {
    /// Decides whether `signer` may authorize the calls in `contexts` on
    /// behalf of `source`.
    ///
    /// The first three arguments stand for the contract's environment:
    /// `ledger` holds the daily totals read from instance storage, `now` is
    /// the ledger timestamp and `registered` the label stored for the
    /// signer's key. `source` is the authorizing address in strkey form.
    /// On `Ok` the caller persists the ledger; on `Err` it aborts with the
    /// error's code, and the ledger is as it was. Where the policy applies
    /// to the signer, `contexts` has to hold contexts throughout, as the
    /// host hands them out.
    pub fn policy__(
        ledger: &mut DailyLimitLedger,
        now: u64,
        registered: &Option<String>,
        source: &String,
        signer: &SignerKey,
        contexts: &soroban_sdk::Vec<Context>,
    ) -> (result: Result<(), Error>)
        requires
            spec_applies(*signer, label_view(*registered), REQUIRED_PASSKEY_NAME@)
                ==> holds_contexts(*contexts),
        ensures
            result == reported(
                spec_evaluate(
                    spec_config(),
                    old(ledger)@,
                    source@,
                    *signer,
                    label_view(*registered),
                    now,
                    batch_of(*contexts),
                ).outcome,
            ),
            final(ledger)@ == spec_evaluate(
                spec_config(),
                old(ledger)@,
                source@,
                *signer,
                label_view(*registered),
                now,
                batch_of(*contexts),
            ).totals,
            result is Err ==> final(ledger)@ == old(ledger)@,
            within_limit(old(ledger)@, DAILY_LIMIT) ==> within_limit(final(ledger)@, DAILY_LIMIT),
            result != Err::<(), Error>(Error::InvalidPasskeyName),
    {
        let config = config();
        match evaluate(&config, ledger, source, signer, registered, now, contexts) {
            Ok(()) => Ok(()),
            Err(rejection) => Err(Error::from_rejection(rejection)),
        }
    }
}

} // verus!

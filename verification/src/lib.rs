//! Daily transfer limit policy for smart-wallet signers.
//!
//! A smart wallet asks its policies before it lets a signed batch of
//! operations through. This policy answers for signers that carry one
//! capability label: it lets them authorize `transfer` calls only, and
//! keeps the volume they move per day under a limit. The earning policy
//! limits what comes in, the spending policy what goes out; both are the
//! same engine under two configurations.
//!
//! - [`clock`] maps ledger time to day buckets.
//! - [`gate`] decides whether the policy applies to a signer.
//! - [`operation`] models the authorized operations and classifies them.
//! - [`ledger`] keeps the total of each day and enforces the limit.
//! - [`evaluator`] walks a batch and decides on it as a whole.
//! - [`host`] reads the batch and the totals out of the Soroban host.
//! - [`earning_policy`] and [`spending_policy`] are the two instances.
//! - [`theorems`] states what holds of every evaluation.

pub mod clock;
pub mod config;
pub mod earning_policy;
pub mod evaluator;
pub mod gate;
pub mod host;
pub mod ledger;
pub mod operation;
pub mod spending_policy;
pub mod theorems;

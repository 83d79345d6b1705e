//! What distinguishes one deployed policy from another.

use crate::operation::Direction;
use vstd::prelude::*;

verus! {

/// Reasons for which an evaluation rejects a batch.
#[derive(Clone, Copy, Debug, PartialEq, Eq, Structural)]
pub enum Rejection {
    /// A counted transfer would take the day's total past the limit.
    LimitExceeded,
    /// An operation of the batch is not a call of `transfer`.
    InvalidOperation,
}

/// The constants of one policy instance.
#[derive(Clone, Debug, PartialEq, Eq)]
pub struct PolicyConfig {
    /// The most that may be transferred per day, in stroops.
    pub limit: i128,
    /// The capability label that a signer must carry for the policy to apply.
    pub required_label: String,
    /// Which transfers count against the limit.
    pub direction: Direction,
}

/// Mathematical model of a [`PolicyConfig`].
pub ghost struct PolicyConfigView {
    pub limit: i128,
    pub required_label: Seq<char>,
    pub direction: Direction,
}

impl View for PolicyConfig {
    type V = PolicyConfigView;

    open spec fn view(&self) -> PolicyConfigView {
        PolicyConfigView {
            limit: self.limit,
            required_label: self.required_label@,
            direction: self.direction,
        }
    }
}

impl PolicyConfig {
    /// A configuration with the given limit, label and direction.
    pub fn new(limit: i128, required_label: &str, direction: Direction) -> (config: PolicyConfig)
        ensures
            config@ == (PolicyConfigView { limit, required_label: required_label@, direction }),
    {
        PolicyConfig { limit, required_label: required_label.to_owned(), direction }
    }
}

} // verus!

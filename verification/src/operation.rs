//! Authorized operations and their classification.
//!
//! One signature approves an ordered batch of operations. The policy only
//! understands direct calls of a function named `transfer`, whose arguments
//! are, by convention, the sender, the recipient and the amount. Everything
//! else is rejected outright. A `transfer` needs its sender and its amount:
//! where either is missing or does not decode, the call is skipped without
//! complaint, whichever direction the policy counts.

use vstd::prelude::*;

verus! {

/// Position of the sender address in the arguments of a `transfer` call.
pub const SENDER_POSITION: usize = 0;

/// Position of the amount in the arguments of a `transfer` call.
pub const AMOUNT_POSITION: usize = 2;

/// Which transfers a policy counts against its daily limit.
#[derive(Clone, Copy, Debug, PartialEq, Eq, Structural)]
pub enum Direction {
    /// Transfers that somebody else initiated: the authorizing party is not
    /// the sender.
    Incoming,
    /// Every transfer with a sender, whoever that is.
    Outgoing,
}

/// One decoded argument of a call.
#[derive(Clone, Debug, PartialEq, Eq)]
pub enum Argument {
    /// An address, in its strkey text form.
    Address(String),
    /// A 128-bit signed amount, in stroops.
    Amount(i128),
    /// A value of any other kind.
    Other,
}

/// Mathematical model of an [`Argument`].
pub ghost enum ArgumentView {
    Address(Seq<char>),
    Amount(i128),
    Other,
}

impl View for Argument {
    type V = ArgumentView;

    open spec fn view(&self) -> ArgumentView {
        match *self {
            Argument::Address(text) => ArgumentView::Address(text@),
            Argument::Amount(amount) => ArgumentView::Amount(amount),
            Argument::Other => ArgumentView::Other,
        }
    }
}

/// One item of the batch that a signature is asked to approve.
#[derive(Clone, Debug, PartialEq, Eq)]
pub enum Operation {
    /// A direct call of `function` with the given ordered arguments.
    Invocation { function: String, args: Vec<Argument> },
    /// Anything that is not a direct call.
    Other,
}

/// Mathematical model of an [`Operation`].
pub ghost enum OperationView {
    Invocation { function: Seq<char>, args: Seq<ArgumentView> },
    Other,
}

/// The models of a list of arguments, in order.
pub open spec fn arguments_view(args: Seq<Argument>) -> Seq<ArgumentView> {
    args.map_values(|arg: Argument| arg@)
}

impl View for Operation {
    type V = OperationView;

    open spec fn view(&self) -> OperationView {
        match *self {
            Operation::Invocation { function, args } => OperationView::Invocation {
                function: function@,
                args: arguments_view(args@),
            },
            Operation::Other => OperationView::Other,
        }
    }
}

/// The models of a batch of operations, in order.
pub open spec fn batch_view(operations: Seq<Operation>) -> Seq<OperationView> {
    operations.map_values(|operation: Operation| operation@)
}

/// What the policy makes of one operation.
#[derive(Clone, Copy, Debug, PartialEq, Eq, Structural)]
pub enum Classification {
    /// A transfer of this amount that counts against the daily limit.
    Relevant(i128),
    /// A transfer that the policy has no opinion on.
    Irrelevant,
    /// Not a transfer call: the whole batch is invalid.
    Rejected,
}

/// The name of the only function that the policy accepts.
pub open spec fn transfer_name() -> Seq<char> {
    "transfer"@
}

/// The address at `position`, if there is an argument there and it is one.
pub open spec fn address_at(args: Seq<ArgumentView>, position: int) -> Option<Seq<char>> {
    if 0 <= position < args.len() {
        match args[position] {
            ArgumentView::Address(text) => Some(text),
            _ => None,
        }
    } else {
        None
    }
}

/// The amount at `position`, if there is an argument there and it is one.
pub open spec fn amount_at(args: Seq<ArgumentView>, position: int) -> Option<i128> {
    if 0 <= position < args.len() {
        match args[position] {
            ArgumentView::Amount(amount) => Some(amount),
            _ => None,
        }
    } else {
        None
    }
}

/// Whether a `transfer` with these arguments passes the direction filter of
/// a policy acting for `party`. The sender has to decode in either
/// direction; an incoming policy also asks that it is not the party itself.
pub open spec fn passes_direction(
    args: Seq<ArgumentView>,
    party: Seq<char>,
    direction: Direction,
) -> bool {
    match address_at(args, SENDER_POSITION as int) {
        Some(sender) => match direction {
            Direction::Outgoing => true,
            Direction::Incoming => sender != party,
        },
        None => false,
    }
}

/// The classification of one operation for a policy acting for `party`.
///
/// Anything but a call of `transfer` is rejected. A `transfer` counts with
/// its amount when its sender decodes and passes the direction filter and
/// its amount decodes; otherwise it is irrelevant.
pub open spec fn spec_classify(
    operation: OperationView,
    party: Seq<char>,
    direction: Direction,
) -> Classification {
    match operation {
        OperationView::Other => Classification::Rejected,
        OperationView::Invocation { function, args } => {
            if function != transfer_name() {
                Classification::Rejected
            } else if !passes_direction(args, party, direction) {
                Classification::Irrelevant
            } else {
                match amount_at(args, AMOUNT_POSITION as int) {
                    Some(amount) => Classification::Relevant(amount),
                    None => Classification::Irrelevant,
                }
            }
        },
    }
}

/// Whether `function` is the name `transfer`.
pub fn is_transfer(function: &String) -> (yes: bool)
    ensures
        yes == (function@ == transfer_name()),
{
    let expected = "transfer".to_owned();
    *function == expected
}

/// Classifies one operation for a policy that acts for `party` and counts
/// transfers in the given direction.
pub fn classify(operation: &Operation, party: &String, direction: Direction) -> (class:
    Classification)
    ensures
        class == spec_classify(operation@, party@, direction),
{
    match operation {
        Operation::Other => Classification::Rejected,
        Operation::Invocation { function, args } => {
            if !is_transfer(function) {
                return Classification::Rejected;
            }
            if args.len() <= SENDER_POSITION {
                return Classification::Irrelevant;
            }
            match &args[SENDER_POSITION] {
                Argument::Address(sender) => {
                    if let Direction::Incoming = direction {
                        if *sender == *party {
                            return Classification::Irrelevant;
                        }
                    }
                },
                _ => {
                    return Classification::Irrelevant;
                },
            }
            if args.len() <= AMOUNT_POSITION {
                return Classification::Irrelevant;
            }
            match &args[AMOUNT_POSITION] {
                Argument::Amount(amount) => Classification::Relevant(*amount),
                _ => Classification::Irrelevant,
            }
        },
    }
}

} // verus!

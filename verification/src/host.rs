//! The boundary with the Soroban host.
//!
//! Batches of authorization contexts, their argument lists and the map of
//! daily totals are objects that live in the host. This module names what
//! such an object holds and reads it item by item into the plain values of
//! [`crate::operation`]. The items marked `external_body` are not proved:
//! each states what the host library's own code does.

use crate::operation::{arguments_view, Argument, ArgumentView, Operation, OperationView};
use soroban_sdk::auth::Context;
use soroban_sdk::{Address, TryFromVal, Val};
use vstd::prelude::*;

verus! {

/// `soroban_sdk::auth::Context`: one authorized call, as the host hands it
/// to an account or policy contract. Opaque here.
#[verifier::external_type_specification]
#[verifier::external_body]
pub struct ExContext(soroban_sdk::auth::Context);

/// `soroban_sdk::Val`: a raw host value. Opaque here.
#[verifier::external_type_specification]
#[verifier::external_body]
pub struct ExVal(soroban_sdk::Val);

/// `soroban_sdk::Vec`: a handle to a vector that lives in the host. Opaque
/// here; what it holds is spoken of through [`batch_of`] and
/// [`arguments_of`].
#[verifier::external_type_specification]
#[verifier::external_body]
#[verifier::reject_recursive_types(T)]
pub struct ExHostVec<T>(soroban_sdk::Vec<T>);

/// Whether every item of the vector is a context as the host hands it to
/// a policy: the encoding of a `Context` value. The vector's type does not
/// promise it, and on an item that is anything else the host library's
/// decoding may panic.
pub uninterp spec fn holds_contexts(contexts: soroban_sdk::Vec<Context>) -> bool;

/// The operations that a batch of authorization contexts holds, in order.
/// A context that is a contract call stands as an invocation with the
/// call's function name and arguments; a context of any other variant
/// stands as [`OperationView::Other`]. It is spoken of only for vectors
/// that [`holds_contexts`] is true of.
pub uninterp spec fn batch_of(contexts: soroban_sdk::Vec<Context>) -> Seq<OperationView>;

/// The arguments that a host argument list holds, in order. A value that
/// is an address stands as its strkey text, a value that is a 128-bit
/// signed integer as that integer, any other value as
/// [`ArgumentView::Other`].
pub uninterp spec fn arguments_of(args: soroban_sdk::Vec<Val>) -> Seq<ArgumentView>;

/// Calls `soroban_sdk::Vec::len` on a batch of contexts: the number of
/// items, which the host reports as a `u32`. For a vector that holds
/// contexts this is the number of its operations.
#[verifier::external_body]
pub(crate) fn batch_len(contexts: &soroban_sdk::Vec<Context>) -> (len: u32)
    ensures
        holds_contexts(*contexts) ==> len == batch_of(*contexts).len(),
{
    contexts.len()
}

/// Calls `soroban_sdk::Vec::get_unchecked` on a batch of contexts and tells
/// the variants of the context apart. For a contract call it hands out the
/// function name, read with `Symbol::to_string`, and the argument list;
/// for the two contract-creation variants, `None`.
///
/// `get_unchecked` panics past the end of the vector and on an item that
/// does not decode as a `Context`; the decoding itself panics on some
/// items. The preconditions leave all of these out.
#[verifier::external_body]
pub(crate) fn invocation_at(contexts: &soroban_sdk::Vec<Context>, index: u32) -> (call: Option<
    (String, soroban_sdk::Vec<Val>),
>)
    requires
        holds_contexts(*contexts),
        index < batch_of(*contexts).len(),
    ensures
        match call {
            Some((function, args)) => batch_of(*contexts)[index as int] == (
            OperationView::Invocation { function: function@, args: arguments_of(args) }),
            None => batch_of(*contexts)[index as int] == OperationView::Other,
        },
{
    match contexts.get_unchecked(index) {
        Context::Contract(call) => Some((call.fn_name.to_string(), call.args)),
        Context::CreateContractHostFn(_) => None,
        Context::CreateContractWithCtorHostFn(_) => None,
    }
}

/// Calls `soroban_sdk::Vec::len` on an argument list: the number of
/// arguments, which the host reports as a `u32`.
#[verifier::external_body]
pub(crate) fn argument_count(args: &soroban_sdk::Vec<Val>) -> (len: u32)
    ensures
        len == arguments_of(*args).len(),
{
    args.len()
}

/// Calls `soroban_sdk::Vec::get_unchecked` on an argument list and decodes
/// the value with `Address::try_from_val`, then `i128::try_from_val`. An
/// address is handed out as the strkey text that `Address::to_string`
/// gives; a value that is neither is handed out as [`Argument::Other`].
#[verifier::external_body]
pub(crate) fn argument_at(args: &soroban_sdk::Vec<Val>, index: u32) -> (arg: Argument)
    requires
        index < arguments_of(*args).len(),
    ensures
        arg@ == arguments_of(*args)[index as int],
{
    let val = args.get_unchecked(index);
    if let Ok(address) = Address::try_from_val(args.env(), &val) {
        Argument::Address(address.to_string().to_string())
    } else if let Ok(amount) = i128::try_from_val(args.env(), &val) {
        Argument::Amount(amount)
    } else {
        Argument::Other
    }
}

/// `soroban_sdk::Map`: a handle to a key-ordered map that lives in the
/// host. Opaque here; what it holds is spoken of through [`totals_of`].
#[verifier::external_type_specification]
#[verifier::external_body]
#[verifier::reject_recursive_types(K)]
#[verifier::reject_recursive_types(V)]
pub struct ExHostMap<K, V>(soroban_sdk::Map<K, V>);

/// The daily totals that a host map holds: its entries from a day bucket
/// to a 128-bit signed total. An entry whose value is of another kind is
/// not part of it.
pub uninterp spec fn totals_of(map: soroban_sdk::Map<u64, i128>) -> Map<u64, i128>;

/// Calls `soroban_sdk::Map::try_get`: the total stored for the bucket, or
/// `None` where the map has no entry for it. An entry whose value does not
/// decode as an `i128` makes `try_get` fail, and is handed out as `None`
/// too.
#[verifier::external_body]
pub(crate) fn stored_total(map: &soroban_sdk::Map<u64, i128>, bucket: u64) -> (total: Option<i128>)
    ensures
        total == (if totals_of(*map).contains_key(bucket) {
            Some(totals_of(*map)[bucket])
        } else {
            None
        }),
{
    map.try_get(bucket).unwrap_or(None)
}

/// Calls `soroban_sdk::Map::set`: afterwards the map holds the given total
/// for the bucket, in place of what it held for it before, and every other
/// entry as before.
#[verifier::external_body]
pub(crate) fn store_total(map: &mut soroban_sdk::Map<u64, i128>, bucket: u64, total: i128)
    ensures
        totals_of(*final(map)) == totals_of(*old(map)).insert(bucket, total),
{
    map.set(bucket, total)
}

/// Reads a host argument list into plain values.
pub fn decode_arguments(args: &soroban_sdk::Vec<Val>) -> (decoded: Vec<Argument>)
    ensures
        arguments_view(decoded@) == arguments_of(*args),
{
    let count = argument_count(args);
    let mut decoded: Vec<Argument> = Vec::new();
    let mut index: u32 = 0;
    while index < count
        invariant
            count == arguments_of(*args).len(),
            index <= count,
            decoded@.len() == index,
            forall|i: int| 0 <= i < index ==> (#[trigger] decoded@[i])@ == arguments_of(*args)[i],
        decreases count - index,
    {
        decoded.push(argument_at(args, index));
        index = index + 1;
    }
    assert(arguments_view(decoded@) =~= arguments_of(*args));
    decoded
}

/// The number of operations in a batch of authorization contexts.
pub fn operation_count(contexts: &soroban_sdk::Vec<Context>) -> (count: u32)
    ensures
        holds_contexts(*contexts) ==> count == batch_of(*contexts).len(),
{
    batch_len(contexts)
}

/// Reads one operation of a batch into plain values. The batch has to hold
/// contexts throughout, as every batch that the host hands to a policy
/// does; nothing here can test that.
pub fn operation_at(contexts: &soroban_sdk::Vec<Context>, index: u32) -> (operation: Operation)
    requires
        holds_contexts(*contexts),
        index < batch_of(*contexts).len(),
    ensures
        operation@ == batch_of(*contexts)[index as int],
{
    match invocation_at(contexts, index) {
        Some((function, args)) => {
            let args = decode_arguments(&args);
            Operation::Invocation { function, args }
        },
        None => Operation::Other,
    }
}

} // verus!

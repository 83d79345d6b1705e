//! The capability gate: does the policy apply to this signer at all?
//!
//! A wallet may carry several signing keys, each registered under a
//! capability label. A policy instance speaks only for signers whose key
//! carries the label it was configured with; for every other signer it
//! abstains, and the authorization goes ahead without it.

use vstd::prelude::*;

verus! {

/// The key that signed the authorization, by key scheme.
#[derive(Clone, Debug, PartialEq, Eq)]
pub enum SignerKey {
    /// Another policy contract, by its address in strkey text form.
    Policy(String),
    /// An Ed25519 public key. This is the scheme that capability labels are
    /// registered for.
    Ed25519([u8; 32]),
    /// A secp256r1 (passkey) key identifier.
    Secp256r1(Vec<u8>),
}

/// The model of a label lookup: the text of the label, where there is one.
pub open spec fn label_view(label: Option<String>) -> Option<Seq<char>> {
    match label {
        Some(text) => Some(text@),
        None => None,
    }
}

/// Whether a policy that requires the label `required` applies to `signer`,
/// for whose key the registry holds `registered`: the signer is an Ed25519
/// key and its registered label is exactly the required one.
pub open spec fn spec_applies(
    signer: SignerKey,
    registered: Option<Seq<char>>,
    required: Seq<char>,
) -> bool {
    signer is Ed25519 && registered == Some(required)
}

/// Decides whether the policy applies to `signer`. `registered` is the
/// capability label that the registry holds for the signer's key, `None`
/// where it holds none; it is not looked at for signers of another scheme.
pub fn applies(signer: &SignerKey, registered: &Option<String>, required: &String) -> (yes: bool)
    ensures
        yes == spec_applies(*signer, label_view(*registered), required@),
{
    match signer {
        SignerKey::Ed25519(_) => match registered {
            Some(label) => *label == *required,
            None => false,
        },
        _ => false,
    }
}

} // verus!

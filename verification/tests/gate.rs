use daily_limit_policy::gate::{applies, SignerKey};

fn label(text: &str) -> Option<String> {
    Some(String::from(text))
}

#[test]
fn an_ed25519_signer_with_the_required_label_is_gated_in() {
    let signer = SignerKey::Ed25519([3u8; 32]);
    assert!(applies(&signer, &label("earning_limit"), &String::from("earning_limit")));
}

#[test]
fn another_label_keeps_the_policy_out() {
    let signer = SignerKey::Ed25519([3u8; 32]);
    assert!(!applies(&signer, &label("spending_limit"), &String::from("earning_limit")));
}

#[test]
fn labels_are_compared_exactly() {
    let signer = SignerKey::Ed25519([3u8; 32]);
    let required = String::from("earning_limit");
    assert!(!applies(&signer, &label("Earning_limit"), &required));
    assert!(!applies(&signer, &label("earning_limit "), &required));
    assert!(!applies(&signer, &label("earning"), &required));
    assert!(!applies(&signer, &label(""), &required));
}

#[test]
fn a_signer_without_a_label_keeps_the_policy_out() {
    let signer = SignerKey::Ed25519([3u8; 32]);
    assert!(!applies(&signer, &None, &String::from("earning_limit")));
}

#[test]
fn signers_of_other_schemes_keep_the_policy_out() {
    let required = String::from("earning_limit");
    let policy = SignerKey::Policy(String::from(
        "CAAAAAAAAAAAAAAAAAAAAAAAAAAAAAAAAAAAAAAAAAAAAAAAAAAAAFCT4",
    ));
    let passkey = SignerKey::Secp256r1(vec![1, 2, 3, 4]);
    assert!(!applies(&policy, &label("earning_limit"), &required));
    assert!(!applies(&passkey, &label("earning_limit"), &required));
    assert!(!applies(&policy, &None, &required));
    assert!(!applies(&passkey, &None, &required));
}

use daily_limit_policy::operation::{
    classify, is_transfer, Argument, Classification, Direction, Operation, AMOUNT_POSITION,
    SENDER_POSITION,
};

const WALLET: &str = "CA3D5KRYM6CB7OWQ6TWYRR3Z4T7GNZLKERYNZGGA5SOAOPIFY6YQGAXE";
const OTHER: &str = "GBZXN7PIRZGNMHGA7MUUUF4GWPY5AYPV6LY4UV2GL6VJGIQRXFDNMADI";

fn call(function: &str, args: Vec<Argument>) -> Operation {
    Operation::Invocation { function: String::from(function), args }
}

fn transfer(from: &str, to: &str, amount: i128) -> Operation {
    call(
        "transfer",
        vec![
            Argument::Address(String::from(from)),
            Argument::Address(String::from(to)),
            Argument::Amount(amount),
        ],
    )
}

#[test]
fn the_sender_comes_first_and_the_amount_third() {
    assert_eq!(SENDER_POSITION, 0);
    assert_eq!(AMOUNT_POSITION, 2);
}

#[test]
fn only_the_exact_name_is_a_transfer() {
    assert!(is_transfer(&String::from("transfer")));
    assert!(!is_transfer(&String::from("Transfer")));
    assert!(!is_transfer(&String::from("transfer_from")));
    assert!(!is_transfer(&String::from("transfe")));
    assert!(!is_transfer(&String::from("")));
}

#[test]
fn what_is_not_a_call_is_rejected() {
    let wallet = String::from(WALLET);
    assert_eq!(classify(&Operation::Other, &wallet, Direction::Incoming), Classification::Rejected);
    assert_eq!(classify(&Operation::Other, &wallet, Direction::Outgoing), Classification::Rejected);
}

#[test]
fn a_call_of_another_function_is_rejected() {
    let wallet = String::from(WALLET);
    let approve = call(
        "approve",
        vec![
            Argument::Address(String::from(OTHER)),
            Argument::Address(String::from(WALLET)),
            Argument::Amount(1),
        ],
    );
    assert_eq!(classify(&approve, &wallet, Direction::Incoming), Classification::Rejected);
    assert_eq!(classify(&approve, &wallet, Direction::Outgoing), Classification::Rejected);
}

#[test]
fn an_incoming_policy_counts_what_others_send() {
    let wallet = String::from(WALLET);
    let op = transfer(OTHER, WALLET, 25_000_000);
    assert_eq!(classify(&op, &wallet, Direction::Incoming), Classification::Relevant(25_000_000));
}

#[test]
fn an_incoming_policy_ignores_what_the_party_sends() {
    let wallet = String::from(WALLET);
    let op = transfer(WALLET, OTHER, 900_000_000_000);
    assert_eq!(classify(&op, &wallet, Direction::Incoming), Classification::Irrelevant);
}

#[test]
fn an_outgoing_policy_counts_every_transfer() {
    let wallet = String::from(WALLET);
    assert_eq!(
        classify(&transfer(WALLET, OTHER, 7), &wallet, Direction::Outgoing),
        Classification::Relevant(7)
    );
    assert_eq!(
        classify(&transfer(OTHER, WALLET, 8), &wallet, Direction::Outgoing),
        Classification::Relevant(8)
    );
}

#[test]
fn a_transfer_without_a_decodable_sender_is_skipped_by_an_incoming_policy() {
    let wallet = String::from(WALLET);
    let op = call(
        "transfer",
        vec![Argument::Other, Argument::Address(String::from(WALLET)), Argument::Amount(5)],
    );
    assert_eq!(classify(&op, &wallet, Direction::Incoming), Classification::Irrelevant);
    let amount_first = call(
        "transfer",
        vec![Argument::Amount(5), Argument::Address(String::from(WALLET)), Argument::Amount(5)],
    );
    assert_eq!(classify(&amount_first, &wallet, Direction::Incoming), Classification::Irrelevant);
}

#[test]
fn a_transfer_without_a_decodable_sender_is_skipped_by_an_outgoing_policy() {
    let wallet = String::from(WALLET);
    let op = call(
        "transfer",
        vec![Argument::Other, Argument::Address(String::from(OTHER)), Argument::Amount(5)],
    );
    assert_eq!(classify(&op, &wallet, Direction::Outgoing), Classification::Irrelevant);
    let amount_first = call(
        "transfer",
        vec![Argument::Amount(5), Argument::Address(String::from(OTHER)), Argument::Amount(5)],
    );
    assert_eq!(classify(&amount_first, &wallet, Direction::Outgoing), Classification::Irrelevant);
}

#[test]
fn a_transfer_that_lacks_both_fields_is_skipped() {
    let wallet = String::from(WALLET);
    let op = call("transfer", vec![Argument::Other, Argument::Other, Argument::Other]);
    for direction in [Direction::Incoming, Direction::Outgoing] {
        assert_eq!(classify(&op, &wallet, direction), Classification::Irrelevant);
    }
}

#[test]
fn a_transfer_without_a_decodable_amount_is_skipped() {
    let wallet = String::from(WALLET);
    let op = call(
        "transfer",
        vec![
            Argument::Address(String::from(OTHER)),
            Argument::Address(String::from(WALLET)),
            Argument::Other,
        ],
    );
    assert_eq!(classify(&op, &wallet, Direction::Incoming), Classification::Irrelevant);
    assert_eq!(classify(&op, &wallet, Direction::Outgoing), Classification::Irrelevant);
    let address_as_amount = call(
        "transfer",
        vec![
            Argument::Address(String::from(OTHER)),
            Argument::Address(String::from(WALLET)),
            Argument::Address(String::from(OTHER)),
        ],
    );
    assert_eq!(
        classify(&address_as_amount, &wallet, Direction::Outgoing),
        Classification::Irrelevant
    );
}

#[test]
fn a_transfer_with_too_few_arguments_is_skipped() {
    let wallet = String::from(WALLET);
    let none = call("transfer", vec![]);
    let two = call(
        "transfer",
        vec![Argument::Address(String::from(OTHER)), Argument::Address(String::from(WALLET))],
    );
    for direction in [Direction::Incoming, Direction::Outgoing] {
        assert_eq!(classify(&none, &wallet, direction), Classification::Irrelevant);
        assert_eq!(classify(&two, &wallet, direction), Classification::Irrelevant);
    }
}

#[test]
fn arguments_past_the_amount_are_not_looked_at() {
    let wallet = String::from(WALLET);
    let op = call(
        "transfer",
        vec![
            Argument::Address(String::from(OTHER)),
            Argument::Other,
            Argument::Amount(11),
            Argument::Amount(99),
        ],
    );
    assert_eq!(classify(&op, &wallet, Direction::Incoming), Classification::Relevant(11));
}

#[test]
fn negative_and_extreme_amounts_are_handed_on_as_they_are() {
    let wallet = String::from(WALLET);
    assert_eq!(
        classify(&transfer(OTHER, WALLET, -1), &wallet, Direction::Incoming),
        Classification::Relevant(-1)
    );
    assert_eq!(
        classify(&transfer(OTHER, WALLET, i128::MAX), &wallet, Direction::Outgoing),
        Classification::Relevant(i128::MAX)
    );
    assert_eq!(
        classify(&transfer(OTHER, WALLET, 0), &wallet, Direction::Outgoing),
        Classification::Relevant(0)
    );
}

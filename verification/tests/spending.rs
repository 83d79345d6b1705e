use daily_limit_policy::config::Rejection;
use daily_limit_policy::gate::SignerKey;
use daily_limit_policy::ledger::DailyLimitLedger;
use daily_limit_policy::operation::Direction;
use daily_limit_policy::spending_policy::{
    config, Contract, Error, DAILY_LIMIT, REQUIRED_PASSKEY_NAME, STORAGE_KEY,
};
use soroban_sdk::auth::{Context, ContractContext};
use soroban_sdk::testutils::Address as _;
use soroban_sdk::{Address, Env, IntoVal, Symbol, Val};

const ONE_DAY: u64 = 86_400;
const TODAY: u64 = 19_675;
const NOW: u64 = TODAY * ONE_DAY + 3_600;

fn values(env: &Env, items: &[Val]) -> soroban_sdk::Vec<Val> {
    let mut list: soroban_sdk::Vec<Val> = soroban_sdk::Vec::new(env);
    for item in items {
        list.push_back(*item);
    }
    list
}

fn call(env: &Env, function: &str, args: soroban_sdk::Vec<Val>) -> Context {
    Context::Contract(ContractContext {
        contract: Address::generate(env),
        fn_name: Symbol::new(env, function),
        args,
    })
}

fn transfer(env: &Env, from: &Address, to: &Address, amount: i128) -> Context {
    let args = values(env, &[from.into_val(env), to.into_val(env), amount.into_val(env)]);
    call(env, "transfer", args)
}

fn batch(env: &Env, items: &[Context]) -> soroban_sdk::Vec<Context> {
    let mut contexts: soroban_sdk::Vec<Context> = soroban_sdk::Vec::new(env);
    for item in items {
        contexts.push_back(item.clone());
    }
    contexts
}

fn strkey(address: &Address) -> String {
    address.to_string().to_string()
}

fn empty_ledger(env: &Env) -> DailyLimitLedger {
    DailyLimitLedger::new(soroban_sdk::Map::new(env))
}

fn signer() -> SignerKey {
    SignerKey::Ed25519([7u8; 32])
}

fn label() -> Option<String> {
    Some(String::from("spending_limit"))
}

fn decide(
    ledger: &mut DailyLimitLedger,
    now: u64,
    wallet: &Address,
    contexts: &soroban_sdk::Vec<Context>,
) -> Result<(), Error> {
    Contract::policy__(ledger, now, &label(), &strkey(wallet), &signer(), contexts)
}

#[test]
fn spending_policy_constants() {
    assert_eq!(DAILY_LIMIT, 100_000_000);
    assert_eq!(REQUIRED_PASSKEY_NAME, "spending_limit");
    assert_eq!(STORAGE_KEY, "daily_spending");
    let config = config();
    assert_eq!(config.limit, 100_000_000);
    assert_eq!(config.required_label, "spending_limit");
    assert_eq!(config.direction, Direction::Outgoing);
}

#[test]
fn spending_error_codes() {
    assert_eq!(Error::SpendingLimitExceeded.code(), 1);
    assert_eq!(Error::InvalidOperation.code(), 2);
    assert_eq!(Error::InvalidPasskeyName.code(), 3);
}

#[test]
fn spending_errors_report_rejections() {
    assert_eq!(Error::from_rejection(Rejection::LimitExceeded), Error::SpendingLimitExceeded);
    assert_eq!(Error::from_rejection(Rejection::InvalidOperation), Error::InvalidOperation);
}

#[test]
fn spending_scenario_of_one_day() {
    let env = Env::default();
    let wallet = Address::generate(&env);
    let payee = Address::generate(&env);
    let mut ledger = empty_ledger(&env);

    let first = batch(&env, &[transfer(&env, &wallet, &payee, 60_000_000)]);
    assert_eq!(decide(&mut ledger, NOW, &wallet, &first), Ok(()));
    assert_eq!(ledger.recorded(TODAY), Some(60_000_000));

    let second = batch(&env, &[transfer(&env, &wallet, &payee, 50_000_000)]);
    assert_eq!(decide(&mut ledger, NOW, &wallet, &second), Err(Error::SpendingLimitExceeded));
    assert_eq!(ledger.recorded(TODAY), Some(60_000_000));

    let third = batch(&env, &[transfer(&env, &wallet, &payee, 40_000_000)]);
    assert_eq!(decide(&mut ledger, NOW, &wallet, &third), Ok(()));
    assert_eq!(ledger.recorded(TODAY), Some(100_000_000));

    let fourth = batch(&env, &[transfer(&env, &wallet, &payee, 1)]);
    assert_eq!(decide(&mut ledger, NOW, &wallet, &fourth), Err(Error::SpendingLimitExceeded));
    assert_eq!(ledger.recorded(TODAY), Some(100_000_000));
}

#[test]
fn spending_counts_transfers_whoever_sends_them() {
    let env = Env::default();
    let wallet = Address::generate(&env);
    let other = Address::generate(&env);
    let mut ledger = empty_ledger(&env);
    let contexts = batch(
        &env,
        &[transfer(&env, &wallet, &other, 30), transfer(&env, &other, &wallet, 12)],
    );
    assert_eq!(decide(&mut ledger, NOW, &wallet, &contexts), Ok(()));
    assert_eq!(ledger.recorded(TODAY), Some(42));
}

fn senderless(env: &Env, to: &Address, amount: i128) -> Context {
    call(
        env,
        "transfer",
        values(env, &[1u32.into_val(env), to.into_val(env), amount.into_val(env)]),
    )
}

#[test]
fn spending_skips_a_transfer_whose_sender_does_not_decode() {
    let env = Env::default();
    let wallet = Address::generate(&env);
    let other = Address::generate(&env);
    let mut ledger = empty_ledger(&env);
    let contexts = batch(&env, &[senderless(&env, &other, 5)]);
    assert_eq!(decide(&mut ledger, NOW, &wallet, &contexts), Ok(()));
    assert_eq!(ledger.recorded(TODAY), None);
    assert_eq!(ledger.total(TODAY), 0);
    assert_eq!(ledger.into_totals().len(), 0);
}

#[test]
fn spending_skips_a_senderless_transfer_on_a_day_that_is_full() {
    let env = Env::default();
    let wallet = Address::generate(&env);
    let other = Address::generate(&env);
    let mut totals: soroban_sdk::Map<u64, i128> = soroban_sdk::Map::new(&env);
    totals.set(TODAY, DAILY_LIMIT);
    let mut ledger = DailyLimitLedger::new(totals);
    let contexts = batch(&env, &[senderless(&env, &other, 1)]);
    assert_eq!(decide(&mut ledger, NOW, &wallet, &contexts), Ok(()));
    assert_eq!(ledger.recorded(TODAY), Some(DAILY_LIMIT));
    let counted = batch(&env, &[transfer(&env, &wallet, &other, 1)]);
    assert_eq!(decide(&mut ledger, NOW, &wallet, &counted), Err(Error::SpendingLimitExceeded));
}

#[test]
fn spending_reports_the_invalid_operation_behind_a_senderless_transfer() {
    let env = Env::default();
    let wallet = Address::generate(&env);
    let other = Address::generate(&env);
    let mut ledger = empty_ledger(&env);
    let contexts = batch(
        &env,
        &[senderless(&env, &other, DAILY_LIMIT + 1), call(&env, "approve", values(&env, &[]))],
    );
    assert_eq!(decide(&mut ledger, NOW, &wallet, &contexts), Err(Error::InvalidOperation));
    assert_eq!(Error::InvalidOperation.code(), 2);
    assert_eq!(ledger.recorded(TODAY), None);
}

#[test]
fn spending_does_not_let_a_senderless_transfer_make_room() {
    let env = Env::default();
    let wallet = Address::generate(&env);
    let other = Address::generate(&env);
    let mut ledger = empty_ledger(&env);
    let contexts = batch(
        &env,
        &[senderless(&env, &other, -10), transfer(&env, &wallet, &other, DAILY_LIMIT + 5)],
    );
    assert_eq!(decide(&mut ledger, NOW, &wallet, &contexts), Err(Error::SpendingLimitExceeded));
    assert_eq!(Error::SpendingLimitExceeded.code(), 1);
    assert_eq!(ledger.recorded(TODAY), None);
}

#[test]
fn spending_skips_transfers_whose_amount_does_not_decode() {
    let env = Env::default();
    let wallet = Address::generate(&env);
    let other = Address::generate(&env);
    let mut ledger = empty_ledger(&env);
    let odd = call(
        &env,
        "transfer",
        values(
            &env,
            &[wallet.into_val(&env), other.into_val(&env), (3 * DAILY_LIMIT as u128).into_val(&env)],
        ),
    );
    let short = call(&env, "transfer", values(&env, &[wallet.into_val(&env)]));
    assert_eq!(decide(&mut ledger, NOW, &wallet, &batch(&env, &[odd, short])), Ok(()));
    assert_eq!(ledger.recorded(TODAY), None);
}

#[test]
fn spending_abstains_for_the_earning_label() {
    let env = Env::default();
    let wallet = Address::generate(&env);
    let other = Address::generate(&env);
    let mut ledger = empty_ledger(&env);
    let contexts = batch(
        &env,
        &[
            transfer(&env, &wallet, &other, DAILY_LIMIT + 1),
            call(&env, "approve", values(&env, &[])),
        ],
    );
    let earning = Some(String::from("earning_limit"));
    assert_eq!(
        Contract::policy__(&mut ledger, NOW, &earning, &strkey(&wallet), &signer(), &contexts),
        Ok(())
    );
    assert_eq!(ledger.into_totals().len(), 0);
}

#[test]
fn spending_rejects_any_call_that_is_not_a_transfer() {
    let env = Env::default();
    let wallet = Address::generate(&env);
    let other = Address::generate(&env);
    let mut ledger = empty_ledger(&env);
    let contexts = batch(
        &env,
        &[
            transfer(&env, &wallet, &other, 10),
            call(&env, "swap", values(&env, &[])),
            transfer(&env, &wallet, &other, 10),
        ],
    );
    assert_eq!(decide(&mut ledger, NOW, &wallet, &contexts), Err(Error::InvalidOperation));
    assert_eq!(ledger.recorded(TODAY), None);
}

#[test]
fn spending_rejects_a_batch_that_passes_the_limit_midway() {
    let env = Env::default();
    let wallet = Address::generate(&env);
    let other = Address::generate(&env);
    let mut ledger = empty_ledger(&env);
    let contexts = batch(
        &env,
        &[
            transfer(&env, &wallet, &other, 60_000_000),
            transfer(&env, &wallet, &other, 50_000_000),
            transfer(&env, &wallet, &other, -50_000_000),
        ],
    );
    assert_eq!(decide(&mut ledger, NOW, &wallet, &contexts), Err(Error::SpendingLimitExceeded));
    assert_eq!(ledger.recorded(TODAY), None);
}

#[test]
fn spending_days_do_not_interfere() {
    let env = Env::default();
    let wallet = Address::generate(&env);
    let other = Address::generate(&env);
    let mut ledger = empty_ledger(&env);
    let full = batch(&env, &[transfer(&env, &wallet, &other, DAILY_LIMIT)]);
    assert_eq!(decide(&mut ledger, NOW, &wallet, &full), Ok(()));
    assert_eq!(decide(&mut ledger, NOW + ONE_DAY, &wallet, &full), Ok(()));
    assert_eq!(ledger.recorded(TODAY), Some(DAILY_LIMIT));
    assert_eq!(ledger.recorded(TODAY + 1), Some(DAILY_LIMIT));
}

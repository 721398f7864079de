//! Creation, deposits and cancellation: validation order, the
//! reactivation gate, terminality, and the end-to-end scenario.

use subscriptions::Asset;
use subscriptions::ContractConfig;
use subscriptions::Error;
use subscriptions::SubscriptionContract;
use subscriptions::SubscriptionInitParams;
use subscriptions::SubscriptionStatus;
use subscriptions::TickerAsset;

const DAY_MS: u64 = 86400 * 1000;

fn init_contract_with_admin() -> SubscriptionContract {
    let mut c = SubscriptionContract::new();
    c.config(ContractConfig {
        admin: String::from("admin"),
        token: String::from("token"),
        fee: 100,
    })
    .unwrap();
    c
}

fn params(webhook: Vec<u8>) -> SubscriptionInitParams {
    SubscriptionInitParams {
        owner: String::from("owner"),
        base: TickerAsset {
            asset: Asset::Other(String::from("BTC")),
            source: String::from("source1"),
        },
        quote: TickerAsset {
            asset: Asset::Other(String::from("ETH")),
            source: String::from("source2"),
        },
        threshold: 10,
        heartbeat: 5,
        webhook,
    }
}

#[test]
fn test() {
    let mut c = init_contract_with_admin();

    // Create with the largest accepted webhook and an initial deposit of
    // 200: the activation burn of one fee leaves a balance of 100.
    let (subscription_id, record) = c
        .create_subscription(params(vec![0u8; 2048]), 200, 0)
        .unwrap();
    assert!(subscription_id == 1);
    assert_eq!(record.balance, 100);

    // Deposit into the active subscription: the full amount is credited.
    c.deposit(1, 100).unwrap();
    let subs = c.get_subscription(subscription_id).unwrap();
    assert_eq!(subs.balance, 200);

    // Two days later the charge is due in full and drains the balance.
    let outcome = c.charge(&vec![1u64], DAY_MS * 2);
    assert_eq!(outcome.total_burn, 200);
    let subs = c.get_subscription(subscription_id).unwrap();
    assert_eq!(subs.balance, 0);
    assert_eq!(subs.status, SubscriptionStatus::Suspended);
    assert_eq!(subs.updated, 86400 * 2 * 1000);

    // Deposit to renew: the current fee is burned as reactivation price.
    c.deposit(1, 200).unwrap();
    let subs = c.get_subscription(subscription_id).unwrap();
    assert_eq!(subs.balance, 100); // 100 is activation fee
    assert_eq!(subs.status, SubscriptionStatus::Active);

    // Cancel refunds the remaining balance and is terminal.
    let refund = c.cancel(1).unwrap();
    assert_eq!(refund, 100);
    let subs = c.get_subscription(subscription_id).unwrap();
    assert_eq!(subs.status, SubscriptionStatus::Cancelled);
    assert_eq!(subs.balance, 0);
    assert_eq!(c.deposit(1, 100), Err(Error::InvalidSubscriptionStatusError));
}

#[test]
fn creation_charges_exactly_one_activation_fee() {
    let mut c = init_contract_with_admin();
    let (id, record) = c.create_subscription(params(Vec::new()), 250, 5).unwrap();
    assert_eq!(id, 1);
    assert_eq!(record.balance, 150);
    assert_eq!(record.status, SubscriptionStatus::Active);
    assert_eq!(record.updated, 5);
    assert_eq!(record.owner, "owner");
    assert_eq!(record.threshold, 10);
    assert_eq!(record.heartbeat, 5);
}

#[test]
fn creation_ids_are_dense_and_sequential() {
    let mut c = init_contract_with_admin();
    let (first, _) = c.create_subscription(params(Vec::new()), 100, 0).unwrap();
    let (second, _) = c.create_subscription(params(Vec::new()), 300, 0).unwrap();
    assert_eq!(first, 1);
    assert_eq!(second, 2);
    assert_eq!(c.get_subscription(2).unwrap().balance, 200);
}

#[test]
fn creation_validation_order_and_errors() {
    let mut uninitialized = SubscriptionContract::new();
    assert_eq!(
        uninitialized.create_subscription(params(Vec::new()), 200, 0),
        Err(Error::NotInitialized)
    );

    let mut c = init_contract_with_admin();
    // The amount check comes first: even with a bad heartbeat the
    // amount error wins.
    let mut p = params(Vec::new());
    p.heartbeat = 4;
    assert_eq!(c.create_subscription(p, 99, 0), Err(Error::InvalidAmount));

    let mut p = params(Vec::new());
    p.heartbeat = 4;
    assert_eq!(c.create_subscription(p, 100, 0), Err(Error::InvalidHeartbeat));

    let mut p = params(Vec::new());
    p.threshold = 0;
    assert_eq!(c.create_subscription(p, 100, 0), Err(Error::InvalidThreshold));

    let mut p = params(Vec::new());
    p.threshold = 1001;
    assert_eq!(c.create_subscription(p, 100, 0), Err(Error::InvalidThreshold));

    let p = params(vec![0u8; 2049]);
    assert_eq!(c.create_subscription(p, 100, 0), Err(Error::WebhookTooLong));

    // Nothing was stored by any failed attempt.
    assert_eq!(c.get_subscription(1), Err(Error::SubscriptionNotFound));
}

#[test]
fn threshold_bounds_are_inclusive() {
    let mut c = init_contract_with_admin();
    let mut p = params(Vec::new());
    p.threshold = 1000;
    let (id, record) = c.create_subscription(p, 100, 0).unwrap();
    assert_eq!(id, 1);
    assert_eq!(record.threshold, 1000);
}

#[test]
fn deposit_requires_a_known_subscription() {
    let mut uninitialized = SubscriptionContract::new();
    assert_eq!(uninitialized.deposit(1, 10), Err(Error::NotInitialized));

    let mut c = init_contract_with_admin();
    assert_eq!(c.deposit(1, 10), Err(Error::SubscriptionNotFound));
    c.create_subscription(params(Vec::new()), 100, 0).unwrap();
    assert_eq!(c.deposit(0, 10), Err(Error::SubscriptionNotFound));
    assert_eq!(c.deposit(2, 10), Err(Error::SubscriptionNotFound));
}

#[test]
fn deposit_of_zero_is_rejected() {
    let mut c = init_contract_with_admin();
    c.create_subscription(params(Vec::new()), 100, 0).unwrap();
    assert_eq!(c.deposit(1, 0), Err(Error::InvalidAmount));
}

#[test]
fn active_deposit_credits_in_full() {
    let mut c = init_contract_with_admin();
    c.create_subscription(params(Vec::new()), 150, 0).unwrap();
    let burned = c.deposit(1, 75).unwrap();
    assert_eq!(burned, 0);
    assert_eq!(c.get_subscription(1).unwrap().balance, 125);
}

#[test]
fn suspended_deposit_below_fee_is_rejected() {
    let mut c = init_contract_with_admin();
    c.create_subscription(params(Vec::new()), 100, 0).unwrap();
    c.charge(&vec![1u64], DAY_MS); // drains the zero balance, suspends
    assert_eq!(
        c.get_subscription(1).unwrap().status,
        SubscriptionStatus::Suspended
    );
    assert_eq!(c.deposit(1, 99), Err(Error::InvalidAmount));
    // The failed deposit changed nothing.
    let subs = c.get_subscription(1).unwrap();
    assert_eq!(subs.balance, 0);
    assert_eq!(subs.status, SubscriptionStatus::Suspended);
}

#[test]
fn suspended_deposit_at_fee_burns_it_and_reactivates() {
    let mut c = init_contract_with_admin();
    c.create_subscription(params(Vec::new()), 100, 0).unwrap();
    c.charge(&vec![1u64], DAY_MS);
    let burned = c.deposit(1, 100).unwrap();
    assert_eq!(burned, 100);
    let subs = c.get_subscription(1).unwrap();
    assert_eq!(subs.balance, 0);
    assert_eq!(subs.status, SubscriptionStatus::Active);
}

#[test]
fn reactivation_uses_the_current_fee_not_the_original() {
    let mut c = init_contract_with_admin();
    c.create_subscription(params(Vec::new()), 100, 0).unwrap();
    c.charge(&vec![1u64], DAY_MS);
    c.set_fee(30);
    assert_eq!(c.deposit(1, 29), Err(Error::InvalidAmount));
    let burned = c.deposit(1, 50).unwrap();
    assert_eq!(burned, 30);
    let subs = c.get_subscription(1).unwrap();
    assert_eq!(subs.balance, 20);
    assert_eq!(subs.status, SubscriptionStatus::Active);
}

#[test]
fn cancel_refunds_and_is_terminal() {
    let mut c = init_contract_with_admin();
    c.create_subscription(params(Vec::new()), 180, 0).unwrap();
    let refund = c.cancel(1).unwrap();
    assert_eq!(refund, 80);
    let subs = c.get_subscription(1).unwrap();
    assert_eq!(subs.status, SubscriptionStatus::Cancelled);
    assert_eq!(subs.balance, 0);
    // Terminality: neither deposits nor a second cancel may succeed.
    assert_eq!(c.deposit(1, 500), Err(Error::InvalidSubscriptionStatusError));
    assert_eq!(c.cancel(1), Err(Error::InvalidSubscriptionStatusError));
    assert_eq!(
        c.get_subscription(1).unwrap().status,
        SubscriptionStatus::Cancelled
    );
}

#[test]
fn cancel_requires_an_active_subscription() {
    let mut uninitialized = SubscriptionContract::new();
    assert_eq!(uninitialized.cancel(1), Err(Error::NotInitialized));

    let mut c = init_contract_with_admin();
    assert_eq!(c.cancel(1), Err(Error::SubscriptionNotFound));
    c.create_subscription(params(Vec::new()), 100, 0).unwrap();
    c.charge(&vec![1u64], DAY_MS); // suspend it
    assert_eq!(c.cancel(1), Err(Error::InvalidSubscriptionStatusError));
}

#[test]
fn get_subscription_reports_missing_ids() {
    let uninitialized = SubscriptionContract::new();
    assert_eq!(uninitialized.get_subscription(1), Err(Error::NotInitialized));

    let c = init_contract_with_admin();
    assert_eq!(c.get_subscription(0), Err(Error::SubscriptionNotFound));
    assert_eq!(c.get_subscription(1), Err(Error::SubscriptionNotFound));
}

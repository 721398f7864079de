//! Configuration lifecycle: one-shot initialization, fee changes, and
//! the plain reads.

use subscriptions::ContractConfig;
use subscriptions::Error;
use subscriptions::SubscriptionContract;

fn config(fee: u64) -> ContractConfig {
    ContractConfig {
        admin: String::from("admin"),
        token: String::from("token"),
        fee,
    }
}

#[test]
fn config_initializes_once() {
    let mut c = SubscriptionContract::new();
    assert_eq!(c.config(config(100)), Ok(()));
    assert_eq!(c.config(config(250)), Err(Error::AlreadyInitialized));
    assert_eq!(c.fee(), Ok(100));
}

#[test]
fn reads_fail_before_initialization() {
    let c = SubscriptionContract::new();
    assert_eq!(c.fee(), Err(Error::NotInitialized));
    assert_eq!(c.token(), Err(Error::NotInitialized));
    assert!(c.admin().is_none());
}

#[test]
fn reads_return_configured_values() {
    let mut c = SubscriptionContract::new();
    c.config(config(42)).unwrap();
    assert_eq!(c.admin().unwrap(), "admin");
    assert_eq!(c.token().unwrap(), "token");
    assert_eq!(c.fee(), Ok(42));
}

#[test]
fn set_fee_replaces_the_fee() {
    let mut c = SubscriptionContract::new();
    c.config(config(100)).unwrap();
    c.set_fee(7);
    assert_eq!(c.fee(), Ok(7));
}

#[test]
fn version_is_stable() {
    let c = SubscriptionContract::new();
    assert_eq!(c.version(), 1);
}

//! Balance-funded recurring subscriptions: a registry of subscription
//! records, a per-day billing engine, and the Active/Suspended/Cancelled
//! lifecycle, with every transition verified against its contract.

pub mod billing;
pub mod contract;
pub mod types;

pub use billing::ChargeEvent;
pub use billing::ChargeEventKind;
pub use contract::ChargeOutcome;
pub use contract::SubscriptionContract;
pub use types::asset::Asset;
pub use types::config_data::ConfigData;
pub use types::contract_config::ContractConfig;
pub use types::create_subscription::CreateSubscription;
pub use types::error::Error;
pub use types::subscription::Subscription;
pub use types::subscription_init_params::SubscriptionInitParams;
pub use types::subscription_status::SubscriptionStatus;
pub use types::ticker_asset::TickerAsset;

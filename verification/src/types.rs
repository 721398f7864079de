//! The data model: subscription records, their lifecycle states, the
//! contract configuration, and the error codes.

pub mod asset;
pub mod config_data;
pub mod contract_config;
pub mod create_subscription;
pub mod error;
pub mod subscription;
pub mod subscription_init_params;
pub mod subscription_status;
pub mod ticker_asset;

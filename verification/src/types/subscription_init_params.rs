use vstd::prelude::*;

use crate::types::ticker_asset::TickerAsset;

verus! {

/// The caller-supplied parameters of a new subscription; the balance,
/// status and timestamp are filled in by `create_subscription`.
#[derive(Debug)]
pub struct SubscriptionInitParams {
    /// Identity that will own the subscription.
    pub owner: String,
    /// Base ticker asset.
    pub base: TickerAsset,
    /// Quote ticker asset.
    pub quote: TickerAsset,
    /// Percentage threshold.
    pub threshold: u32,
    /// Heartbeat in minutes.
    pub heartbeat: u32,
    /// Opaque delivery-address payload.
    pub webhook: Vec<u8>,
}

} // verus!

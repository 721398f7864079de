use vstd::prelude::*;

use crate::types::ticker_asset::TickerAsset;

verus! {

/// An earlier shape of the creation parameters, kept for callers that
/// still use it: the assets are numbered rather than named base/quote
/// and the webhook is text.
#[derive(Clone, Debug, PartialEq, Eq)]
pub struct CreateSubscription {
    /// Identity that will own the subscription.
    pub owner: String,
    /// The first asset of the pair.
    pub asset1: TickerAsset,
    /// The second asset of the pair.
    pub asset2: TickerAsset,
    /// Percentage threshold.
    pub threshold: u32,
    /// Heartbeat in minutes.
    pub heartbeat: u32,
    /// Delivery-address payload, as text.
    pub webhook: String,
}

} // verus!

use vstd::prelude::*;

use crate::types::subscription_status::SubscriptionStatus;
use crate::types::ticker_asset::TickerAsset;

verus! {

/// Minimum polling interval, in minutes, accepted at creation.
pub const MIN_HEARTBEAT: u32 = 5;

/// Largest accepted threshold value. Values beyond one hundred are
/// intentional: consumers interpret the scale off-core.
pub const MAX_THRESHOLD: u32 = 1000;

/// Largest accepted webhook payload, in bytes, enforced at creation.
pub const MAX_WEBHOOK_SIZE: usize = 2048;

/// One subscription record, keyed in the registry by a dense `u64` id.
#[derive(Debug, PartialEq, Eq)]
pub struct Subscription {
    /// Identity that created the subscription; refunds go here and only
    /// this identity may cancel.
    pub owner: String,
    /// Base ticker asset, stored verbatim.
    pub base: TickerAsset,
    /// Quote ticker asset, stored verbatim.
    pub quote: TickerAsset,
    /// Percentage threshold; `0 < threshold <= 1000`.
    pub threshold: u32,
    /// Heartbeat in minutes; at least `MIN_HEARTBEAT`.
    pub heartbeat: u32,
    /// Opaque delivery-address payload; at most `MAX_WEBHOOK_SIZE` bytes.
    pub webhook: Vec<u8>,
    /// Remaining balance, in the smallest value-transfer unit.
    pub balance: u64,
    /// Lifecycle state.
    pub status: SubscriptionStatus,
    /// Last-charge timestamp in milliseconds, the billing-cycle anchor.
    pub updated: u64,
}

impl Subscription {
    /// The creation-time bounds on the stored parameters; established by
    /// `create_subscription` and never mutated afterwards.
    pub open spec fn valid(self) -> bool {
        &&& 0 < self.threshold <= MAX_THRESHOLD
        &&& self.heartbeat >= MIN_HEARTBEAT
        &&& self.webhook@.len() <= MAX_WEBHOOK_SIZE
    }

    /// Field-for-field agreement of two records. The webhook is compared
    /// by its byte contents.
    pub open spec fn agrees_with(self, other: Subscription) -> bool {
        &&& self.owner == other.owner
        &&& self.base == other.base
        &&& self.quote == other.quote
        &&& self.threshold == other.threshold
        &&& self.heartbeat == other.heartbeat
        &&& self.webhook@ == other.webhook@
        &&& self.balance == other.balance
        &&& self.status == other.status
        &&& self.updated == other.updated
    }

    /// A copy of this record that agrees with the original on every field.
    pub fn duplicate(&self) -> (r: Subscription)
        ensures
            r.agrees_with(*self),
    {
        let webhook = self.webhook.clone();
        proof {
            assert(webhook@ =~= self.webhook@);
        }
        Subscription {
            owner: self.owner.clone(),
            base: self.base.duplicate(),
            quote: self.quote.duplicate(),
            threshold: self.threshold,
            heartbeat: self.heartbeat,
            webhook,
            balance: self.balance,
            status: self.status,
            updated: self.updated,
        }
    }
}

} // verus!

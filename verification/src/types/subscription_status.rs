use vstd::prelude::*;

verus! {

/// Lifecycle state of a subscription.
///
/// `Active` subscriptions are billed and may receive plain deposits.
/// `Suspended` subscriptions are frozen until a qualifying deposit
/// reactivates them. `Cancelled` is terminal: no operation may touch the
/// record again.
#[derive(Clone, Copy, Debug, PartialEq, Eq, Structural)]
pub enum SubscriptionStatus {
    Active,
    Suspended,
    Cancelled,
}

} // verus!

use vstd::prelude::*;

verus! {

/// Stable error codes reported to callers. Every failing operation aborts
/// with exactly one of these and leaves the state untouched.
#[derive(Clone, Copy, Debug, PartialEq, Eq, Structural)]
pub enum Error {
    /// Configuration was already set; `config` may run only once.
    AlreadyInitialized,
    /// The caller did not prove control of the required identity.
    Unauthorized,
    /// No subscription record exists under the given id.
    SubscriptionNotFound,
    /// Configuration has not been set yet.
    NotInitialized,
    /// A deposit or creation amount is too small (or zero).
    InvalidAmount,
    /// The heartbeat is below the minimum polling interval.
    InvalidHeartbeat,
    /// The threshold is zero or above the allowed maximum.
    InvalidThreshold,
    /// The webhook payload exceeds the size bound.
    WebhookTooLong,
    /// The operation is not legal in the subscription's current state.
    InvalidSubscriptionStatusError,
}

} // verus!

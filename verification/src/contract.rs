//! The contract state and its operations: configuration, the
//! subscription registry, the lifecycle transitions and the batch charge.

use vstd::prelude::*;

use crate::billing::charge_amount;
use crate::billing::charge_applies;
use crate::billing::charge_batch;
use crate::billing::charge_step;
use crate::billing::id_in_range;
use crate::billing::lemma_charge_batch_frame;
use crate::billing::lemma_charge_batch_snoc;
use crate::billing::same_identity;
use crate::billing::ChargeEvent;
use crate::billing::ChargeEventKind;
use crate::billing::DAY;
use crate::types::contract_config::ContractConfig;
use crate::types::error::Error;
use crate::types::subscription::Subscription;
use crate::types::subscription::MAX_THRESHOLD;
use crate::types::subscription::MAX_WEBHOOK_SIZE;
use crate::types::subscription::MIN_HEARTBEAT;
use crate::types::subscription_init_params::SubscriptionInitParams;
use crate::types::subscription_status::SubscriptionStatus;

verus! {

/// How many fee units the activation burn is worth.
pub const MIN_FEE_FACTOR: u64 = 1;

/// Protocol version of the contract interface.
pub const VERSION: u32 = 1;

/// The burn taken from the initial deposit when a subscription is
/// created.
pub open spec fn activation_fee(fee: u64) -> int {
    fee * MIN_FEE_FACTOR
}

/// The first validation failure of a creation request, if any; checks
/// run in this order and the first failure wins.
pub open spec fn creation_error(
    s: SubscriptionContract,
    params: SubscriptionInitParams,
    amount: u64,
) -> Option<Error> {
    if !s.initialized {
        Some(Error::NotInitialized)
    } else if (amount as int) < activation_fee(s.fee) {
        Some(Error::InvalidAmount)
    } else if params.heartbeat < MIN_HEARTBEAT {
        Some(Error::InvalidHeartbeat)
    } else if params.threshold == 0 || params.threshold > MAX_THRESHOLD {
        Some(Error::InvalidThreshold)
    } else if params.webhook@.len() > MAX_WEBHOOK_SIZE {
        Some(Error::WebhookTooLong)
    } else {
        None
    }
}

/// The record a successful creation stores: the caller's parameters,
/// the initial deposit less the activation burn, an active status and
/// the creation time as billing anchor.
pub open spec fn created_record(
    params: SubscriptionInitParams,
    amount: u64,
    fee: u64,
    now: u64,
) -> Subscription {
    Subscription {
        owner: params.owner,
        base: params.base,
        quote: params.quote,
        threshold: params.threshold,
        heartbeat: params.heartbeat,
        webhook: params.webhook,
        balance: (amount - activation_fee(fee)) as u64,
        status: SubscriptionStatus::Active,
        updated: now,
    }
}

/// What a batch charge asks of the outside world: how much to burn from
/// the contract's custody and which events to publish, in order. Both
/// are empty when the batch charged nothing.
#[derive(Debug)]
pub struct ChargeOutcome {
    /// The sum of all amounts taken in this batch.
    pub total_burn: u128,
    /// The events to publish, in emission order.
    pub events: Vec<ChargeEvent>,
}

/// The whole contract state: the singleton configuration and the
/// registry of subscription records. Record ids are dense and start at
/// 1; the record with id `i` sits at index `i - 1`.
#[derive(Debug)]
pub struct SubscriptionContract {
    /// Whether `config` has run; before that, every mutating operation
    /// is refused and the other fields carry no meaning.
    pub initialized: bool,
    /// The admin identity, in textual form.
    pub admin: String,
    /// The value-transfer ledger reference, in textual form.
    pub token: String,
    /// The base per-day fee, in the smallest value-transfer unit.
    pub fee: u64,
    /// The registry, ordered by id.
    pub subscriptions: Vec<Subscription>,
}

impl SubscriptionContract {
    /// Well-formedness: every stored record obeys the creation-time
    /// bounds, and nothing is stored before initialization.
    pub open spec fn wf(self) -> bool {
        &&& forall|i: int|
            0 <= i < self.subscriptions@.len() ==> (#[trigger] self.subscriptions@[i]).valid()
        &&& !self.initialized ==> self.subscriptions@.len() == 0
    }

    /// Whether a record exists under `id`.
    pub open spec fn has_subscription(self, id: u64) -> bool {
        id_in_range(self.subscriptions@.len() as int, id)
    }

    /// The record stored under `id`.
    pub open spec fn subscription_at(self, id: u64) -> Subscription {
        self.subscriptions@[id - 1]
    }

    /// Whether the configuration fields agree with those of `pre`.
    pub open spec fn config_unchanged(self, pre: SubscriptionContract) -> bool {
        &&& self.initialized == pre.initialized
        &&& self.admin == pre.admin
        &&& self.token == pre.token
        &&& self.fee == pre.fee
    }

    /// A fresh, unconfigured state: no admin, no token, no fee, no
    /// records.
    pub fn new() -> (r: SubscriptionContract)
        ensures
            !r.initialized,
            r.subscriptions@.len() == 0,
            r.fee == 0,
            r.wf(),
    {
        SubscriptionContract {
            initialized: false,
            admin: String::new(),
            token: String::new(),
            fee: 0,
            subscriptions: Vec::new(),
        }
    }

    /// Initializes the contract; may succeed only once.
    pub fn config(&mut self, config: ContractConfig) -> (r: Result<(), Error>)
        requires
            old(self).wf(),
        ensures
            final(self).wf(),
            old(self).initialized ==> r == Err::<(), Error>(Error::AlreadyInitialized) && *final(self) == *old(self),
            !old(self).initialized ==> {
                &&& r == Ok::<(), Error>(())
                &&& final(self).initialized
                &&& final(self).admin == config.admin
                &&& final(self).token == config.token
                &&& final(self).fee == config.fee
                &&& final(self).subscriptions@ == old(self).subscriptions@
            },
    {
        if self.initialized {
            return Err(Error::AlreadyInitialized);
        }
        self.initialized = true;
        self.admin = config.admin;
        self.token = config.token;
        self.fee = config.fee;
        Ok(())
    }

    /// Replaces the base fee unconditionally; it takes effect on the
    /// next charge computation, with no retroactive re-billing.
    pub fn set_fee(&mut self, fee: u64)
        ensures
            *final(self) == (SubscriptionContract { fee, ..*old(self) }),
    {
        self.fee = fee;
    }

    /// The configured admin identity, if the contract is initialized.
    pub fn admin(&self) -> (r: Option<&String>)
        ensures
            r is Some <==> self.initialized,
            r matches Some(a) ==> *a == self.admin,
    {
        if self.initialized {
            Some(&self.admin)
        } else {
            None
        }
    }

    /// The base per-day fee.
    pub fn fee(&self) -> (r: Result<u64, Error>)
        ensures
            self.initialized ==> r == Ok::<u64, Error>(self.fee),
            !self.initialized ==> r == Err::<u64, Error>(Error::NotInitialized),
    {
        if self.initialized {
            Ok(self.fee)
        } else {
            Err(Error::NotInitialized)
        }
    }

    /// The value-transfer ledger reference.
    pub fn token(&self) -> (r: Result<&String, Error>)
        ensures
            self.initialized ==> (r matches Ok(t) && *t == self.token),
            !self.initialized ==> r == Err::<&String, Error>(Error::NotInitialized),
    {
        if self.initialized {
            Ok(&self.token)
        } else {
            Err(Error::NotInitialized)
        }
    }

    /// Protocol version of the contract interface.
    pub fn version(&self) -> (v: u32)
        ensures
            v == VERSION,
    {
        VERSION
    }

    /// Creates a new subscription from an initial deposit of `amount`,
    /// burning the activation fee out of it; returns the new id and the
    /// stored record. `now` is the current time in milliseconds.
    pub fn create_subscription(
        &mut self,
        new_subscription: SubscriptionInitParams,
        amount: u64,
        now: u64,
    ) -> (r: Result<(u64, Subscription), Error>)
        requires
            old(self).wf(),
            old(self).subscriptions@.len() < u64::MAX,
        ensures
            final(self).wf(),
            creation_error(*old(self), new_subscription, amount) matches Some(e) ==> r == Err::<
                (u64, Subscription),
                Error,
            >(e) && *final(self) == *old(self),
            creation_error(*old(self), new_subscription, amount) is None ==> {
                &&& final(self).config_unchanged(*old(self))
                &&& final(self).subscriptions@ == old(self).subscriptions@.push(
                    created_record(new_subscription, amount, old(self).fee, now),
                )
                &&& r matches Ok(p) && p.0 == old(self).subscriptions@.len() + 1
                    && p.1.agrees_with(
                    created_record(new_subscription, amount, old(self).fee, now),
                )
            },
    {
        if !self.initialized {
            return Err(Error::NotInitialized);
        }
        let activation_fee = self.fee * MIN_FEE_FACTOR;
        if amount < activation_fee {
            return Err(Error::InvalidAmount);
        }
        if new_subscription.heartbeat < MIN_HEARTBEAT {
            return Err(Error::InvalidHeartbeat);
        }
        if new_subscription.threshold == 0 || new_subscription.threshold > MAX_THRESHOLD {
            return Err(Error::InvalidThreshold);
        }
        if new_subscription.webhook.len() > MAX_WEBHOOK_SIZE {
            return Err(Error::WebhookTooLong);
        }
        let subscription_id = (self.subscriptions.len() as u64) + 1;
        let subscription = Subscription {
            owner: new_subscription.owner,
            base: new_subscription.base,
            quote: new_subscription.quote,
            threshold: new_subscription.threshold,
            heartbeat: new_subscription.heartbeat,
            webhook: new_subscription.webhook,
            balance: amount - activation_fee,
            status: SubscriptionStatus::Active,
            updated: now,
        };
        let result = subscription.duplicate();
        self.subscriptions.push(subscription);
        Ok((subscription_id, result))
    }

    /// Deposits `amount` into the subscription; a deposit into a
    /// suspended subscription must cover the current fee, which is
    /// burned as the reactivation price. Returns the burned amount.
    pub fn deposit(&mut self, subscription_id: u64, amount: u64) -> (r: Result<u64, Error>)
        requires
            old(self).wf(),
            old(self).has_subscription(subscription_id) ==> old(self).subscription_at(
                subscription_id,
            ).balance + amount <= u64::MAX,
        ensures
            final(self).wf(),
            !old(self).initialized ==> r == Err::<u64, Error>(Error::NotInitialized) && *final(self) == *old(self),
            old(self).initialized && amount == 0 ==> r == Err::<u64, Error>(Error::InvalidAmount)
                && *final(self) == *old(self),
            old(self).initialized && amount > 0 && !old(self).has_subscription(subscription_id)
                ==> r == Err::<u64, Error>(Error::SubscriptionNotFound) && *final(self) == *old(
                self,
            ),
            old(self).initialized && amount > 0 && old(self).has_subscription(subscription_id)
                ==> match old(self).subscription_at(subscription_id).status {
                SubscriptionStatus::Cancelled => r == Err::<u64, Error>(
                    Error::InvalidSubscriptionStatusError,
                ) && *final(self) == *old(self),
                SubscriptionStatus::Suspended => {
                    if amount < old(self).fee {
                        r == Err::<u64, Error>(Error::InvalidAmount) && *final(self) == *old(self)
                    } else {
                        &&& r == Ok::<u64, Error>(old(self).fee)
                        &&& final(self).config_unchanged(*old(self))
                        &&& final(self).subscriptions@ == old(self).subscriptions@.update(
                            subscription_id - 1,
                            (Subscription {
                                balance: (old(self).subscription_at(subscription_id).balance
                                    + amount - old(self).fee) as u64,
                                status: SubscriptionStatus::Active,
                                ..old(self).subscription_at(subscription_id)
                            }),
                        )
                    }
                },
                SubscriptionStatus::Active => {
                    &&& r == Ok::<u64, Error>(0)
                    &&& final(self).config_unchanged(*old(self))
                    &&& final(self).subscriptions@ == old(self).subscriptions@.update(
                        subscription_id - 1,
                        (Subscription {
                            balance: (old(self).subscription_at(subscription_id).balance
                                + amount) as u64,
                            ..old(self).subscription_at(subscription_id)
                        }),
                    )
                },
            },
    {
        if !self.initialized {
            return Err(Error::NotInitialized);
        }
        if amount == 0 {
            return Err(Error::InvalidAmount);
        }
        if subscription_id == 0 || subscription_id > self.subscriptions.len() as u64 {
            return Err(Error::SubscriptionNotFound);
        }
        let idx = (subscription_id - 1) as usize;
        let fee = self.fee;
        let is_suspended = match self.subscriptions[idx].status {
            SubscriptionStatus::Suspended => true,
            SubscriptionStatus::Cancelled => {
                return Err(Error::InvalidSubscriptionStatusError);
            },
            SubscriptionStatus::Active => false,
        };
        if is_suspended && amount < fee {
            return Err(Error::InvalidAmount);
        }
        let burned: u64 = if is_suspended {
            fee
        } else {
            0
        };
        let sub = &mut self.subscriptions[idx];
        if is_suspended {
            sub.status = SubscriptionStatus::Active;
        }
        sub.balance = sub.balance + (amount - burned);
        Ok(burned)
    }

    /// Cancels an active subscription: the remaining balance is refunded
    /// to the owner and the record is closed for good. Returns the
    /// refunded amount.
    pub fn cancel(&mut self, subscription_id: u64) -> (r: Result<u64, Error>)
        requires
            old(self).wf(),
        ensures
            final(self).wf(),
            !old(self).initialized ==> r == Err::<u64, Error>(Error::NotInitialized) && *final(self) == *old(self),
            old(self).initialized && !old(self).has_subscription(subscription_id) ==> r == Err::<
                u64,
                Error,
            >(Error::SubscriptionNotFound) && *final(self) == *old(self),
            old(self).initialized && old(self).has_subscription(subscription_id) && old(
                self,
            ).subscription_at(subscription_id).status != SubscriptionStatus::Active ==> r == Err::<
                u64,
                Error,
            >(Error::InvalidSubscriptionStatusError) && *final(self) == *old(self),
            old(self).initialized && old(self).has_subscription(subscription_id) && old(
                self,
            ).subscription_at(subscription_id).status == SubscriptionStatus::Active ==> {
                &&& r == Ok::<u64, Error>(old(self).subscription_at(subscription_id).balance)
                &&& final(self).config_unchanged(*old(self))
                &&& final(self).subscriptions@ == old(self).subscriptions@.update(
                    subscription_id - 1,
                    (Subscription {
                        balance: 0,
                        status: SubscriptionStatus::Cancelled,
                        ..old(self).subscription_at(subscription_id)
                    }),
                )
            },
    {
        if !self.initialized {
            return Err(Error::NotInitialized);
        }
        if subscription_id == 0 || subscription_id > self.subscriptions.len() as u64 {
            return Err(Error::SubscriptionNotFound);
        }
        let idx = (subscription_id - 1) as usize;
        match self.subscriptions[idx].status {
            SubscriptionStatus::Active => {},
            _ => {
                return Err(Error::InvalidSubscriptionStatusError);
            },
        }
        let refund = self.subscriptions[idx].balance;
        let sub = &mut self.subscriptions[idx];
        sub.balance = 0;
        sub.status = SubscriptionStatus::Cancelled;
        Ok(refund)
    }

    /// Charges every subscription in the batch, in caller-supplied
    /// order. Unknown ids, cancelled records and records less than one
    /// full day past their anchor are silently skipped, so the batch
    /// always completes. Returns the total to burn and the events to
    /// publish; when nothing was charged the whole call is a no-op on
    /// the outside: no events, no burn.
    pub fn charge(&mut self, subscription_ids: &Vec<u64>, now: u64) -> (r: ChargeOutcome)
        requires
            old(self).wf(),
            forall|i: int|
                0 <= i < old(self).subscriptions@.len() ==> (#[trigger] old(
                    self,
                ).subscriptions@[i]).updated <= now,
        ensures
            final(self).wf(),
            final(self).config_unchanged(*old(self)),
            final(self).subscriptions@ == charge_batch(
                old(self).subscriptions@,
                subscription_ids@,
                old(self).fee,
                now,
            ).0,
            r.total_burn as int == charge_batch(
                old(self).subscriptions@,
                subscription_ids@,
                old(self).fee,
                now,
            ).1,
            r.total_burn != 0 ==> r.events@ == charge_batch(
                old(self).subscriptions@,
                subscription_ids@,
                old(self).fee,
                now,
            ).2,
            r.total_burn == 0 ==> r.events@ == Seq::<ChargeEvent>::empty(),
    {
        let ghost s0 = *self;
        let fee = self.fee;
        let mut total: u128 = 0;
        let mut events: Vec<ChargeEvent> = Vec::new();
        let mut k: usize = 0;
        while k < subscription_ids.len()
            invariant
                k <= subscription_ids@.len(),
                fee == s0.fee,
                s0.wf(),
                forall|i: int|
                    0 <= i < s0.subscriptions@.len() ==> (#[trigger] s0.subscriptions@[i]).updated
                        <= now,
                self.config_unchanged(s0),
                self.subscriptions@ == charge_batch(
                    s0.subscriptions@,
                    subscription_ids@.take(k as int),
                    fee,
                    now,
                ).0,
                total as int == charge_batch(
                    s0.subscriptions@,
                    subscription_ids@.take(k as int),
                    fee,
                    now,
                ).1,
                events@ == charge_batch(
                    s0.subscriptions@,
                    subscription_ids@.take(k as int),
                    fee,
                    now,
                ).2,
            decreases subscription_ids@.len() - k,
        {
            let ghost taken = subscription_ids@.take(k as int);
            let ghost pre = self.subscriptions@;
            let id = subscription_ids[k];
            proof {
                lemma_charge_batch_frame(s0.subscriptions@, taken, fee, now);
                lemma_charge_batch_snoc(s0.subscriptions@, taken, id, fee, now);
                assert(taken.push(id) =~= subscription_ids@.take(k as int + 1));
            }
            if id >= 1 && id <= self.subscriptions.len() as u64 {
                let idx = (id - 1) as usize;
                let cancelled = match self.subscriptions[idx].status {
                    SubscriptionStatus::Cancelled => true,
                    _ => false,
                };
                if !cancelled {
                    let updated = self.subscriptions[idx].updated;
                    let days = (now - updated) / DAY;
                    if days > 0 {
                        let balance = self.subscriptions[idx].balance;
                        proof {
                            assert((days as int) * (fee as int) <= (u64::MAX as int) * (
                            u64::MAX as int)) by (nonlinear_arith)
                                requires
                                    0 <= days as int <= u64::MAX as int,
                                    0 <= fee as int <= u64::MAX as int,
                            ;
                        }
                        let due = (days as u128) * (fee as u128);
                        let charge_amt: u64 = if due <= balance as u128 {
                            due as u64
                        } else {
                            balance
                        };
                        let new_balance = balance - charge_amt;
                        let suspend = new_balance < fee;
                        let sub = &mut self.subscriptions[idx];
                        sub.balance = new_balance;
                        sub.updated = now;
                        if suspend {
                            sub.status = SubscriptionStatus::Suspended;
                        }
                        proof {
                            assert(charge_applies(pre[id - 1], now));
                            assert(charge_amt as int == charge_amount(pre[id - 1], fee, now));
                            assert(self.subscriptions@ =~= charge_step(pre, id, fee, now).0);
                        }
                        if suspend {
                            events.push(
                                ChargeEvent {
                                    kind: ChargeEventKind::Suspended,
                                    subscription_id: id,
                                    timestamp: now,
                                },
                            );
                        }
                        events.push(
                            ChargeEvent {
                                kind: ChargeEventKind::Charged,
                                subscription_id: id,
                                timestamp: now,
                            },
                        );
                        proof {
                            assert(events@ =~= charge_batch(s0.subscriptions@, taken, fee, now).2
                                + charge_step(pre, id, fee, now).2);
                            assert(total + charge_amt <= ((taken.len() + 1) as int) * (
                            u64::MAX as int));
                            assert(((taken.len() + 1) as int) * (u64::MAX as int) <= (
                            subscription_ids@.len() as int) * (u64::MAX as int)) by (nonlinear_arith)
                                requires
                                    taken.len() + 1 <= subscription_ids@.len(),
                            ;
                            assert((subscription_ids@.len() as int) * (u64::MAX as int) <= (
                            u64::MAX as int) * (u64::MAX as int)) by (nonlinear_arith)
                                requires
                                    subscription_ids@.len() <= u64::MAX as int,
                            ;
                        }
                        total = total + (charge_amt as u128);
                    } else {
                        proof {
                            assert(!charge_applies(pre[id - 1], now));
                            assert(charge_batch(s0.subscriptions@, taken, fee, now).2 + Seq::<
                                ChargeEvent,
                            >::empty() =~= charge_batch(s0.subscriptions@, taken, fee, now).2);
                        }
                    }
                } else {
                    proof {
                        assert(!charge_applies(pre[id - 1], now));
                        assert(charge_batch(s0.subscriptions@, taken, fee, now).2 + Seq::<
                            ChargeEvent,
                        >::empty() =~= charge_batch(s0.subscriptions@, taken, fee, now).2);
                    }
                }
            } else {
                proof {
                    assert(!id_in_range(pre.len() as int, id));
                    assert(charge_batch(s0.subscriptions@, taken, fee, now).2 + Seq::<
                        ChargeEvent,
                    >::empty() =~= charge_batch(s0.subscriptions@, taken, fee, now).2);
                }
            }
            k = k + 1;
        }
        proof {
            assert(subscription_ids@.take(subscription_ids@.len() as int) =~= subscription_ids@);
            lemma_charge_batch_frame(s0.subscriptions@, subscription_ids@, fee, now);
            assert forall|i: int|
                0 <= i < self.subscriptions@.len() implies (#[trigger] self.subscriptions@[i]).valid() by {
                assert(same_identity(
                    charge_batch(s0.subscriptions@, subscription_ids@, fee, now).0[i],
                    s0.subscriptions@[i],
                ));
                assert(s0.subscriptions@[i].valid());
            }
        }
        if total == 0 {
            ChargeOutcome { total_burn: 0, events: Vec::new() }
        } else {
            ChargeOutcome { total_burn: total, events }
        }
    }

    /// The record stored under `subscription_id`.
    pub fn get_subscription(&self, subscription_id: u64) -> (r: Result<&Subscription, Error>)
        ensures
            !self.initialized ==> r == Err::<&Subscription, Error>(Error::NotInitialized),
            self.initialized && !self.has_subscription(subscription_id) ==> r == Err::<
                &Subscription,
                Error,
            >(Error::SubscriptionNotFound),
            self.initialized && self.has_subscription(subscription_id) ==> (r matches Ok(s) && *s
                == self.subscription_at(subscription_id)),
    {
        if !self.initialized {
            return Err(Error::NotInitialized);
        }
        if subscription_id == 0 || subscription_id > self.subscriptions.len() as u64 {
            return Err(Error::SubscriptionNotFound);
        }
        Ok(&self.subscriptions[(subscription_id - 1) as usize])
    }
}

} // verus!

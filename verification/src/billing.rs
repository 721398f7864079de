//! The billing engine's semantics: what one charge does to one record,
//! and what a batch charge does to the whole registry, together with the
//! laws the engine obeys.

use vstd::prelude::*;

use crate::types::subscription::Subscription;
use crate::types::subscription_status::SubscriptionStatus;

verus! {

/// One day in milliseconds, the billing-cycle unit: partial days never
/// bill.
pub const DAY: u64 = 86400 * 1000;

/// What a batch charge did to one subscription. The owning record can be
/// read back from the registry under `subscription_id`.
#[derive(Clone, Copy, Debug, PartialEq, Eq, Structural)]
pub struct ChargeEvent {
    /// Which of the two notifications this is.
    pub kind: ChargeEventKind,
    /// The id of the subscription the event speaks of.
    pub subscription_id: u64,
    /// The charge timestamp, in milliseconds.
    pub timestamp: u64,
}

/// The two notifications a batch charge can emit for one subscription.
#[derive(Clone, Copy, Debug, PartialEq, Eq, Structural)]
pub enum ChargeEventKind {
    /// The subscription was billed this batch.
    Charged,
    /// The charge left the balance below the fee; the subscription is
    /// suspended.
    Suspended,
}

/// Whole days elapsed between the billing anchor `updated` and `now`.
pub open spec fn elapsed_days(updated: u64, now: u64) -> int {
    (now - updated) / (DAY as int)
}

/// Whether a charge touches `sub` at all: cancelled records are terminal,
/// and a record less than one full day past its anchor is left alone.
pub open spec fn charge_applies(sub: Subscription, now: u64) -> bool {
    &&& sub.status != SubscriptionStatus::Cancelled
    &&& elapsed_days(sub.updated, now) >= 1
}

/// The amount one charge takes from `sub`: the elapsed-days fee, clamped
/// to the available balance so that it never overdraws.
pub open spec fn charge_amount(sub: Subscription, fee: u64, now: u64) -> int {
    let due = elapsed_days(sub.updated, now) * fee;
    if due <= sub.balance {
        due
    } else {
        sub.balance as int
    }
}

/// The record after one charge: the clamped amount leaves the balance,
/// the anchor moves to `now` even when the charge was clamped short, and
/// the record is suspended when what remains no longer covers one fee.
pub open spec fn charge_record(sub: Subscription, fee: u64, now: u64) -> Subscription {
    if !charge_applies(sub, now) {
        sub
    } else {
        let balance = sub.balance - charge_amount(sub, fee, now);
        Subscription {
            balance: balance as u64,
            updated: now,
            status: if balance < fee {
                SubscriptionStatus::Suspended
            } else {
                sub.status
            },
            ..sub
        }
    }
}

/// The events one charged subscription contributes: a suspension notice
/// first, if the charge suspended it, then the charge notice.
pub open spec fn record_events(sub: Subscription, fee: u64, now: u64, id: u64) -> Seq<
    ChargeEvent,
> {
    if !charge_applies(sub, now) {
        seq![]
    } else {
        let charged = ChargeEvent {
            kind: ChargeEventKind::Charged,
            subscription_id: id,
            timestamp: now,
        };
        if charge_record(sub, fee, now).balance < fee {
            seq![
                ChargeEvent {
                    kind: ChargeEventKind::Suspended,
                    subscription_id: id,
                    timestamp: now,
                },
                charged,
            ]
        } else {
            seq![charged]
        }
    }
}

/// Whether `id` names a record in a registry of `len` records: ids are
/// dense, starting at 1.
pub open spec fn id_in_range(len: int, id: u64) -> bool {
    1 <= id <= len
}

/// One step of a batch charge: registry afterwards, amount taken, events
/// contributed. An unknown id, a cancelled record or a too-recent anchor
/// is skipped: no error, no amount, no event.
pub open spec fn charge_step(subs: Seq<Subscription>, id: u64, fee: u64, now: u64) -> (
    Seq<Subscription>,
    int,
    Seq<ChargeEvent>,
) {
    if id_in_range(subs.len() as int, id) && charge_applies(subs[id - 1], now) {
        let sub = subs[id - 1];
        (
            subs.update(id - 1, charge_record(sub, fee, now)),
            charge_amount(sub, fee, now),
            record_events(sub, fee, now, id),
        )
    } else {
        (subs, 0, seq![])
    }
}

/// A whole batch charge, processing ids in caller-supplied order:
/// registry afterwards, total amount taken, events in emission order.
/// Each id's mutation is committed before the next id is read, so a
/// duplicate id bills at most once.
pub open spec fn charge_batch(subs: Seq<Subscription>, ids: Seq<u64>, fee: u64, now: u64) -> (
    Seq<Subscription>,
    int,
    Seq<ChargeEvent>,
)
    decreases ids.len(),
{
    if ids.len() == 0 {
        (subs, 0, seq![])
    } else {
        let step = charge_step(subs, ids[0], fee, now);
        let rest = charge_batch(step.0, ids.drop_first(), fee, now);
        (rest.0, step.1 + rest.1, step.2 + rest.2)
    }
}

/// Identity agreement: a charge may move balance, status and anchor, but
/// never who owns a subscription nor what it watches.
pub open spec fn same_identity(a: Subscription, b: Subscription) -> bool {
    &&& a.owner == b.owner
    &&& a.base == b.base
    &&& a.quote == b.quote
    &&& a.threshold == b.threshold
    &&& a.heartbeat == b.heartbeat
    &&& a.webhook == b.webhook
}

/// Never overdrawn: the amount a charge takes is at most the balance, so
/// the balance that remains is never negative.
pub proof fn lemma_charge_never_overdraws(sub: Subscription, fee: u64, now: u64)
    requires
        sub.updated <= now,
    ensures
        0 <= charge_amount(sub, fee, now) <= sub.balance,
        charge_record(sub, fee, now).balance == sub.balance - if charge_applies(sub, now) {
            charge_amount(sub, fee, now)
        } else {
            0
        },
{
}

/// Day granularity: charging a subscription whose anchor is less than
/// one full day in the past changes nothing.
pub proof fn lemma_day_granularity(sub: Subscription, fee: u64, now: u64)
    requires
        sub.updated <= now,
        now - sub.updated < DAY,
    ensures
        charge_record(sub, fee, now) == sub,
{
}

/// Suspension trigger: a charge leaves an active subscription suspended
/// exactly when the balance that remains no longer covers one fee.
pub proof fn lemma_suspension_trigger(sub: Subscription, fee: u64, now: u64)
    requires
        sub.status == SubscriptionStatus::Active,
        sub.updated <= now,
        now - sub.updated >= DAY,
    ensures
        charge_record(sub, fee, now).status == SubscriptionStatus::Suspended <==> charge_record(
            sub,
            fee,
            now,
        ).balance < fee,
{
}

/// Terminality at the billing engine: a charge never touches a cancelled
/// record.
pub proof fn lemma_cancelled_is_terminal(sub: Subscription, fee: u64, now: u64)
    requires
        sub.status == SubscriptionStatus::Cancelled,
    ensures
        charge_record(sub, fee, now) == sub,
{
}

/// Terminality across whole batches: no batch charge, whatever its ids,
/// ever touches a cancelled record.
pub proof fn lemma_cancelled_unchanged_by_batch(
    subs: Seq<Subscription>,
    ids: Seq<u64>,
    fee: u64,
    now: u64,
)
    ensures
        charge_batch(subs, ids, fee, now).0.len() == subs.len(),
        forall|i: int|
            0 <= i < subs.len() && (#[trigger] subs[i]).status == SubscriptionStatus::Cancelled
                ==> charge_batch(subs, ids, fee, now).0[i] == subs[i],
    decreases ids.len(),
{
    if ids.len() != 0 {
        let step = charge_step(subs, ids[0], fee, now);
        lemma_cancelled_unchanged_by_batch(step.0, ids.drop_first(), fee, now);
        assert forall|i: int|
            0 <= i < subs.len() && (#[trigger] subs[i]).status
                == SubscriptionStatus::Cancelled implies charge_batch(subs, ids, fee, now).0[i]
            == subs[i] by {
            assert(step.0[i] == subs[i]);
        }
    }
}

/// A charge step keeps the registry's length, every record's identity
/// fields, and anchors at or below `now`; the amount it takes fits one
/// balance.
pub proof fn lemma_charge_step_frame(subs: Seq<Subscription>, id: u64, fee: u64, now: u64)
    requires
        forall|i: int| 0 <= i < subs.len() ==> (#[trigger] subs[i]).updated <= now,
    ensures
        charge_step(subs, id, fee, now).0.len() == subs.len(),
        forall|i: int|
            0 <= i < subs.len() ==> same_identity(
                #[trigger] charge_step(subs, id, fee, now).0[i],
                subs[i],
            ),
        forall|i: int|
            0 <= i < subs.len() ==> (#[trigger] charge_step(subs, id, fee, now).0[i]).updated
                <= now,
        0 <= charge_step(subs, id, fee, now).1 <= u64::MAX,
{
    if id_in_range(subs.len() as int, id) && charge_applies(subs[id - 1], now) {
        lemma_charge_never_overdraws(subs[id - 1], fee, now);
    }
}

/// A whole batch keeps the registry's length, every record's identity
/// fields, and anchors at or below `now`; the total it takes is bounded
/// by one maximal balance per id.
pub proof fn lemma_charge_batch_frame(subs: Seq<Subscription>, ids: Seq<u64>, fee: u64, now: u64)
    requires
        forall|i: int| 0 <= i < subs.len() ==> (#[trigger] subs[i]).updated <= now,
    ensures
        charge_batch(subs, ids, fee, now).0.len() == subs.len(),
        forall|i: int|
            0 <= i < subs.len() ==> same_identity(
                #[trigger] charge_batch(subs, ids, fee, now).0[i],
                subs[i],
            ),
        forall|i: int|
            0 <= i < subs.len() ==> (#[trigger] charge_batch(subs, ids, fee, now).0[i]).updated
                <= now,
        0 <= charge_batch(subs, ids, fee, now).1 <= ids.len() * (u64::MAX as int),
    decreases ids.len(),
{
    if ids.len() == 0 {
    } else {
        let step = charge_step(subs, ids[0], fee, now);
        lemma_charge_step_frame(subs, ids[0], fee, now);
        lemma_charge_batch_frame(step.0, ids.drop_first(), fee, now);
        assert(charge_batch(step.0, ids.drop_first(), fee, now).1 <= ids.drop_first().len() * (
        u64::MAX as int));
        assert(ids.drop_first().len() * (u64::MAX as int) + (u64::MAX as int) == ids.len() * (
        u64::MAX as int)) by (nonlinear_arith)
            requires
                ids.len() >= 1,
                ids.drop_first().len() == ids.len() - 1,
        ;
    }
}

/// Processing one more id at the end of a batch is one step applied to
/// the batch's outcome.
pub proof fn lemma_charge_batch_snoc(
    subs: Seq<Subscription>,
    ids: Seq<u64>,
    id: u64,
    fee: u64,
    now: u64,
)
    ensures
        charge_batch(subs, ids.push(id), fee, now).0 == charge_step(
            charge_batch(subs, ids, fee, now).0,
            id,
            fee,
            now,
        ).0,
        charge_batch(subs, ids.push(id), fee, now).1 == charge_batch(subs, ids, fee, now).1
            + charge_step(charge_batch(subs, ids, fee, now).0, id, fee, now).1,
        charge_batch(subs, ids.push(id), fee, now).2 == charge_batch(subs, ids, fee, now).2
            + charge_step(charge_batch(subs, ids, fee, now).0, id, fee, now).2,
    decreases ids.len(),
{
    if ids.len() == 0 {
        assert(ids.push(id)[0] == id);
        assert(ids.push(id).drop_first() =~= Seq::<u64>::empty());
        let step = charge_step(subs, id, fee, now);
        assert(charge_batch(step.0, ids.push(id).drop_first(), fee, now) == (
            step.0,
            0int,
            Seq::<ChargeEvent>::empty(),
        ));
        assert(step.2 + Seq::<ChargeEvent>::empty() =~= step.2);
        assert(seq![] + step.2 =~= step.2);
    } else {
        assert(ids.push(id)[0] == ids[0]);
        assert(ids.push(id).drop_first() =~= ids.drop_first().push(id));
        let step = charge_step(subs, ids[0], fee, now);
        lemma_charge_batch_snoc(step.0, ids.drop_first(), id, fee, now);
        let rest = charge_batch(step.0, ids.drop_first(), fee, now);
        let last = charge_step(rest.0, id, fee, now);
        assert(step.2 + (rest.2 + last.2) =~= (step.2 + rest.2) + last.2);
    }
}

/// Batch tolerance: an id with no record behind it is silently skipped,
/// so putting an unknown id in front of a batch changes nothing of its
/// outcome.
pub proof fn lemma_batch_tolerance(
    subs: Seq<Subscription>,
    ids: Seq<u64>,
    unknown: u64,
    fee: u64,
    now: u64,
)
    requires
        !id_in_range(subs.len() as int, unknown),
    ensures
        charge_batch(subs, seq![unknown] + ids, fee, now) == charge_batch(subs, ids, fee, now),
{
    let front = seq![unknown] + ids;
    assert(front[0] == unknown);
    assert(front.drop_first() =~= ids);
    let rest = charge_batch(subs, ids, fee, now);
    assert(seq![] + rest.2 =~= rest.2);
}

} // verus!

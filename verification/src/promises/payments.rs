//! What a payment buys, what it books and what it announces.

use vstd::prelude::*;

use crate::events::Event;
use crate::lists::{amount_at, list_at, without};
use crate::payments::{
    delegate_added, delegate_removed, delegated_expiry, delegated_payment_made, delegated_refusal,
    memo_fits, payment_booked, payment_completed, payment_events, payment_expiry, payment_made,
    payment_pending, payment_refusal, plan_seconds, PendingPayment,
};
use crate::state::{meter_of, pause_settled, refusal, Grid, Invocation};
use crate::types::{CallError, ContractError, Meter, PaymentPlan, StoredMeter};
use crate::values::{clamp, Address, Text};

verus! {

/// A payment buys a full day, week or month of thirty days from when it is made, or time without
/// end, as far as the clock goes.
pub proof fn law_payment_buys_its_full_time(now: u64)
    ensures
        now + 86_400 <= u64::MAX ==> payment_expiry(PaymentPlan::Daily, now) == now + 86_400,
        now + 86_400 > u64::MAX ==> payment_expiry(PaymentPlan::Daily, now) == u64::MAX,
        now + 604_800 <= u64::MAX ==> payment_expiry(PaymentPlan::Weekly, now) == now + 604_800,
        now + 604_800 > u64::MAX ==> payment_expiry(PaymentPlan::Weekly, now) == u64::MAX,
        now + 2_592_000 <= u64::MAX ==> payment_expiry(PaymentPlan::Monthly, now) == now
            + 2_592_000,
        now + 2_592_000 > u64::MAX ==> payment_expiry(PaymentPlan::Monthly, now) == u64::MAX,
        payment_expiry(PaymentPlan::UsageBased, now) == u64::MAX,
{
}

/// A delegate's payment adds the same time to what the meter had left.
pub proof fn law_delegates_add_the_full_time(expires_at: u64)
    ensures
        expires_at + 86_400 <= u64::MAX ==> delegated_expiry(PaymentPlan::Daily, expires_at)
            == expires_at + 86_400,
        expires_at + 86_400 > u64::MAX ==> delegated_expiry(PaymentPlan::Daily, expires_at)
            == u64::MAX,
        expires_at + 604_800 <= u64::MAX ==> delegated_expiry(PaymentPlan::Weekly, expires_at)
            == expires_at + 604_800,
        expires_at + 604_800 > u64::MAX ==> delegated_expiry(PaymentPlan::Weekly, expires_at)
            == u64::MAX,
        expires_at + 2_592_000 <= u64::MAX ==> delegated_expiry(PaymentPlan::Monthly, expires_at)
            == expires_at + 2_592_000,
        expires_at + 2_592_000 > u64::MAX ==> delegated_expiry(PaymentPlan::Monthly, expires_at)
            == u64::MAX,
        delegated_expiry(PaymentPlan::UsageBased, expires_at) == u64::MAX,
{
}

/// The same plan buys the same time whenever it is paid for, and the later payment ends later.
pub proof fn law_time_bought_does_not_depend_on_the_hour(plan: PaymentPlan, now: u64, later: u64)
    requires
        now <= later,
    ensures
        payment_expiry(plan, now) <= payment_expiry(plan, later),
        payment_expiry(plan, later) < u64::MAX ==> payment_expiry(plan, later) - later
            == payment_expiry(plan, now) - now,
{
}

/// The time of each plan, in seconds.
pub proof fn law_plans_have_their_lengths()
    ensures
        plan_seconds(PaymentPlan::Daily) == 86_400,
        plan_seconds(PaymentPlan::Weekly) == 7 * 86_400,
        plan_seconds(PaymentPlan::Monthly) == 30 * 86_400,
        plan_seconds(PaymentPlan::UsageBased) == u64::MAX,
{
}

/// A memo fits where there is none, or one of at most 100 bytes.
pub proof fn law_memos_are_limited(memo: Seq<u8>)
    ensures
        memo_fits(None),
        memo_fits(Some(memo)) <==> memo.len() <= 100,
{
}

/// A payment of a positive amount, signed by the payer, is taken for a meter that is there, unless
/// the contract is paused, frozen, busy or not set up, or the memo is too long.
pub proof fn law_payments_are_let_in(
    s: Grid,
    env: Invocation,
    id: Seq<u8>,
    payer: Address,
    amount: i128,
    memo: Option<Seq<u8>>,
)
    ensures
        ({
            let answer = payment_refusal(s, env, id, payer, amount, memo);
            let paused = s.paused && env.now < s.paused_at + 172_800;
            let frozen = s.frozen;
            let payer_missing = !env.signers@.contains(payer);
            let not_positive = amount <= 0;
            let memo_long = memo is Some && memo->0.len() > 100;
            let busy = s.locked;
            let no_token = s.token is None;
            let unknown = !s.meters.contains_key(id);
            let no_admin = s.admin is None;
            &&& answer is None <==> !paused && !frozen && !payer_missing && !not_positive
                && !memo_long && !busy && !no_token && !unknown && !no_admin
            &&& paused ==> answer == refusal(ContractError::ContractPaused)
            &&& !paused && frozen ==> answer == refusal(ContractError::ContractFrozen)
            &&& !paused && !frozen && payer_missing
                ==> answer == Some(CallError::MissingAuth(payer))
            &&& !paused && !frozen && !payer_missing && not_positive
                ==> answer == refusal(ContractError::InvalidAmount)
            &&& !paused && !frozen && !payer_missing && !not_positive && memo_long
                ==> answer == refusal(ContractError::MemoTooLong)
            &&& !paused && !frozen && !payer_missing && !not_positive && !memo_long && busy
                ==> answer == refusal(ContractError::ReentrantCall)
            &&& !paused && !frozen && !payer_missing && !not_positive && !memo_long && !busy
                && no_token ==> answer == refusal(ContractError::NotInitialized)
            &&& !paused && !frozen && !payer_missing && !not_positive && !memo_long && !busy
                && !no_token && unknown ==> answer == refusal(ContractError::MeterNotFound)
            &&& !paused && !frozen && !payer_missing && !not_positive && !memo_long && !busy
                && !no_token && !unknown && no_admin
                ==> answer == refusal(ContractError::NotInitialized)
        }),
{
}

/// A delegate's payment is taken like any other, from those on the meter's list.
pub proof fn law_delegated_payments_are_let_in(
    s: Grid,
    env: Invocation,
    id: Seq<u8>,
    delegate: Address,
    amount: i128,
    memo: Option<Seq<u8>>,
)
    ensures
        ({
            let answer = delegated_refusal(s, env, id, delegate, amount, memo);
            let paused = s.paused && env.now < s.paused_at + 172_800;
            let frozen = s.frozen;
            let stranger = !list_at(s.delegates, id).contains(delegate);
            let delegate_missing = !env.signers@.contains(delegate);
            let memo_long = memo is Some && memo->0.len() > 100;
            let not_positive = amount <= 0;
            let no_token = s.token is None;
            let unknown = !s.meters.contains_key(id);
            let no_admin = s.admin is None;
            let busy = s.locked;
            &&& answer is None <==> !paused && !frozen && !stranger && !delegate_missing
                && !memo_long && !not_positive && !no_token && !unknown && !no_admin && !busy
            &&& paused ==> answer == refusal(ContractError::ContractPaused)
            &&& !paused && frozen ==> answer == refusal(ContractError::ContractFrozen)
            &&& !paused && !frozen && stranger ==> answer == refusal(ContractError::Unauthorized)
            &&& !paused && !frozen && !stranger && delegate_missing
                ==> answer == Some(CallError::MissingAuth(delegate))
            &&& !paused && !frozen && !stranger && !delegate_missing && memo_long
                ==> answer == refusal(ContractError::MemoTooLong)
            &&& !paused && !frozen && !stranger && !delegate_missing && !memo_long
                && not_positive ==> answer == refusal(ContractError::InvalidAmount)
            &&& !paused && !frozen && !stranger && !delegate_missing && !memo_long
                && !not_positive && no_token ==> answer == refusal(ContractError::NotInitialized)
            &&& !paused && !frozen && !stranger && !delegate_missing && !memo_long
                && !not_positive && !no_token && unknown
                ==> answer == refusal(ContractError::MeterNotFound)
            &&& !paused && !frozen && !stranger && !delegate_missing && !memo_long
                && !not_positive && !no_token && !unknown && no_admin
                ==> answer == refusal(ContractError::NotInitialized)
            &&& !paused && !frozen && !stranger && !delegate_missing && !memo_long
                && !not_positive && !no_token && !unknown && !no_admin && busy
                ==> answer == refusal(ContractError::ReentrantCall)
        }),
{
}

/// A booked payment switches the meter on, onto the plan paid for and out of any grace period,
/// until the given time. Its amount goes onto the meter's balance, the payer's record for that
/// meter and the administrator's revenue, and the lock is taken. Nothing else changes.
pub proof fn law_booking_adds_the_amount_everywhere(
    s: Grid,
    id: Seq<u8>,
    payer: Address,
    amount: i128,
    plan: PaymentPlan,
    expires_at: u64,
    now: u64,
)
    requires
        s.meters.contains_key(id),
        s.admin is Some,
    ensures
        ({
            let t = payment_booked(s, id, payer, amount, plan, expires_at, now);
            let after = meter_of(t, id)->0;
            let admin = s.admin->0;
            &&& after.active && after.plan == plan && after.last_payment == now
            &&& after.expires_at == expires_at && after.grace_expires_at is None
            &&& after == (Meter {
                active: after.active,
                plan: after.plan,
                last_payment: after.last_payment,
                expires_at: after.expires_at,
                grace_expires_at: after.grace_expires_at,
                ..meter_of(s, id)->0
            })
            &&& t.meters == s.meters.insert(id, StoredMeter::Current(after))
            &&& t.balances == s.balances.insert(id, clamp(amount_at(s.balances, id) + amount))
            &&& t.payer_paid == s.payer_paid.insert(
                (id, payer),
                clamp(amount_at(s.payer_paid, (id, payer)) + amount),
            )
            &&& t.provider_revenue == s.provider_revenue.insert(
                admin,
                clamp(amount_at(s.provider_revenue, admin) + amount),
            )
            &&& t.locked
            &&& t == (Grid {
                meters: t.meters,
                balances: t.balances,
                payer_paid: t.payer_paid,
                provider_revenue: t.provider_revenue,
                locked: t.locked,
                ..s
            })
        }),
{
}

/// After a payment the meter is on, on the plan paid for, and runs for the full time from now.
/// What the payer gave is on the balance, on the payer's record and in the revenue.
pub proof fn law_payment_does_all_it_should(
    s: Grid,
    now: u64,
    id: Seq<u8>,
    payer: Address,
    amount: i128,
    plan: PaymentPlan,
    other: Seq<u8>,
)
    requires
        s.meters.contains_key(id),
        s.admin is Some,
    ensures
        ({
            let t = payment_made(s, now, id, payer, amount, plan);
            let settled = pause_settled(s, now);
            let after = meter_of(t, id)->0;
            let admin = s.admin->0;
            &&& after.active && after.plan == plan && after.last_payment == now
            &&& after.grace_expires_at is None
            &&& plan == PaymentPlan::Daily && now + 86_400 <= u64::MAX ==> after.expires_at == now
                + 86_400
            &&& plan == PaymentPlan::Weekly && now + 604_800 <= u64::MAX ==> after.expires_at
                == now + 604_800
            &&& plan == PaymentPlan::Monthly && now + 2_592_000 <= u64::MAX ==> after.expires_at
                == now + 2_592_000
            &&& now + 2_592_000 > u64::MAX && plan == PaymentPlan::Monthly ==> after.expires_at
                == u64::MAX
            &&& plan == PaymentPlan::UsageBased ==> after.expires_at == u64::MAX
            &&& after.expires_at == payment_expiry(plan, now)
            &&& after == (Meter {
                active: after.active,
                plan: after.plan,
                last_payment: after.last_payment,
                expires_at: after.expires_at,
                grace_expires_at: after.grace_expires_at,
                ..meter_of(s, id)->0
            })
            &&& amount_at(t.balances, id) == clamp(amount_at(s.balances, id) + amount)
            &&& amount_at(t.payer_paid, (id, payer)) == clamp(
                amount_at(s.payer_paid, (id, payer)) + amount,
            )
            &&& amount_at(t.provider_revenue, admin) == clamp(
                amount_at(s.provider_revenue, admin) + amount,
            )
            &&& other != id ==> meter_of(t, other) == meter_of(s, other)
            &&& other != id ==> amount_at(t.balances, other) == amount_at(s.balances, other)
            &&& t.locked && t.events == settled.events
            &&& t.paused == settled.paused && t.paused_at == settled.paused_at
            &&& t == (Grid {
                meters: t.meters,
                balances: t.balances,
                payer_paid: t.payer_paid,
                provider_revenue: t.provider_revenue,
                locked: t.locked,
                paused: t.paused,
                paused_at: t.paused_at,
                events: t.events,
                ..s
            })
        }),
{
}

/// After a delegate's payment the meter is on, on the plan paid for, and runs for the full time
/// beyond what it had left; the amount is booked as any payment's is, in the delegate's name.
pub proof fn law_delegated_payment_does_all_it_should(
    s: Grid,
    now: u64,
    id: Seq<u8>,
    delegate: Address,
    amount: i128,
    plan: PaymentPlan,
    other: Seq<u8>,
)
    requires
        s.meters.contains_key(id),
        s.admin is Some,
    ensures
        ({
            let t = delegated_payment_made(s, now, id, delegate, amount, plan);
            let settled = pause_settled(s, now);
            let end = meter_of(s, id)->0.expires_at;
            let after = meter_of(t, id)->0;
            let admin = s.admin->0;
            &&& after.active && after.plan == plan && after.last_payment == now
            &&& after.grace_expires_at is None
            &&& plan == PaymentPlan::Daily && end + 86_400 <= u64::MAX ==> after.expires_at == end
                + 86_400
            &&& plan == PaymentPlan::Weekly && end + 604_800 <= u64::MAX ==> after.expires_at
                == end + 604_800
            &&& plan == PaymentPlan::Monthly && end + 2_592_000 <= u64::MAX ==> after.expires_at
                == end + 2_592_000
            &&& plan == PaymentPlan::UsageBased ==> after.expires_at == u64::MAX
            &&& after.expires_at == delegated_expiry(plan, end)
            &&& after == (Meter {
                active: after.active,
                plan: after.plan,
                last_payment: after.last_payment,
                expires_at: after.expires_at,
                grace_expires_at: after.grace_expires_at,
                ..meter_of(s, id)->0
            })
            &&& amount_at(t.balances, id) == clamp(amount_at(s.balances, id) + amount)
            &&& amount_at(t.payer_paid, (id, delegate)) == clamp(
                amount_at(s.payer_paid, (id, delegate)) + amount,
            )
            &&& amount_at(t.provider_revenue, admin) == clamp(
                amount_at(s.provider_revenue, admin) + amount,
            )
            &&& other != id ==> meter_of(t, other) == meter_of(s, other)
            &&& other != id ==> amount_at(t.balances, other) == amount_at(s.balances, other)
            &&& t.locked && t.events == settled.events
            &&& t.paused == settled.paused && t.paused_at == settled.paused_at
            &&& t == (Grid {
                meters: t.meters,
                balances: t.balances,
                payer_paid: t.payer_paid,
                provider_revenue: t.provider_revenue,
                locked: t.locked,
                paused: t.paused,
                paused_at: t.paused_at,
                events: t.events,
                ..s
            })
        }),
{
}

/// A payment moves its amount of the contract's token from the payer to the contract, and goes on
/// with the plans before and after, the memo and the time.
pub proof fn law_payment_moves_tokens_in(
    s: Grid,
    env: Invocation,
    id: Seq<u8>,
    payer: Address,
    amount: i128,
    plan: PaymentPlan,
    memo: Option<Seq<u8>>,
)
    requires
        s.meters.contains_key(id),
        s.token is Some,
    ensures
        ({
            let p = payment_pending(s, env, id, payer, amount, plan, memo);
            &&& p.transfer.amount == amount && p.transfer.from == payer
            &&& p.transfer.to == env.contract && Some(p.transfer.token) == s.token
            &&& p.meter_id == id && p.plan == plan && p.memo == memo && p.at == env.now
            &&& p.old_plan == meter_of(s, id)->0.plan
        }),
{
}

/// A payment that is through gives the lock back and announces, in this order, that it was
/// received, that the plan changed if it did, and that the meter is on.
pub proof fn law_payment_is_announced(s: Grid, p: PendingPayment<Seq<u8>>)
    ensures
        ({
            let t = payment_completed(s, p);
            let n = s.events.len() as int;
            let changed = p.old_plan != p.plan;
            &&& t.events.len() == n + (if changed {
                3int
            } else {
                2int
            })
            &&& t.events.take(n) == s.events
            &&& t.events[n] == (Event::PaymentReceived {
                meter_id: p.meter_id,
                payer: p.transfer.from,
                token: p.transfer.token,
                amount: p.transfer.amount,
                plan: p.plan,
                memo: p.memo,
            })
            &&& changed ==> t.events[n + 1] == (Event::PlanChanged {
                meter_id: p.meter_id,
                old_plan: p.old_plan,
                plan: p.plan,
                at: p.at,
            })
            &&& t.events.last() == (Event::MeterActivated { meter_id: p.meter_id })
            &&& t.events == s.events + payment_events(p)
            &&& !t.locked
            &&& t == (Grid { locked: t.locked, events: t.events, ..s })
        }),
{
}

/// A delegate is put at the end of the meter's list, once, and taken off it again; each change is
/// announced, and what changes nothing is not.
pub proof fn law_delegates_come_and_go(s: Grid, id: Seq<u8>, delegate: Address)
    ensures
        ({
            let t = delegate_added(s, id, delegate);
            let list = list_at(s.delegates, id);
            let new = !list.contains(delegate);
            &&& new ==> t.delegates == s.delegates.insert(id, list.push(delegate))
            &&& new ==> t.events == s.events.push(Event::DelegateAdded { meter_id: id, delegate })
            &&& !new ==> t == s
            &&& t == (Grid { delegates: t.delegates, events: t.events, ..s })
        }),
        ({
            let t = delegate_removed(s, id, delegate);
            let list = list_at(s.delegates, id);
            let there = list.contains(delegate);
            &&& there ==> t.delegates == s.delegates.insert(id, without(list, delegate))
            &&& there ==> t.events == s.events.push(
                Event::DelegateRemoved { meter_id: id, delegate },
            )
            &&& !there ==> t == s
            &&& t == (Grid { delegates: t.delegates, events: t.events, ..s })
        }),
{
}

/// What a payment goes on with is read as it is held.
pub proof fn law_pending_payments_are_read_as_held(p: PendingPayment<Text>)
    ensures
        p.deep_view().transfer == p.transfer && p.deep_view().meter_id == p.meter_id.bytes@,
        p.deep_view().plan == p.plan && p.deep_view().old_plan == p.old_plan,
        p.deep_view().at == p.at && (p.deep_view().memo is Some <==> p.memo is Some),
        p.memo is Some ==> p.deep_view().memo->0 == p.memo->0.bytes@,
{
}

} // verus!

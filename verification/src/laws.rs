//! Laws that relate several operations: what one undoes of another, what one excludes and what a
//! read gives back of a write.

use vstd::prelude::*;

use crate::access::{
    allowed, disallowed, initialised, initialize_refusal, pause_called, pause_lifted, pause_refusal,
    unfreeze_refusal, unpause_refusal,
};
use crate::activation::{
    batch_deactivate_refusal, batch_deactivated, expire_refusal, expired, switch_refusal, switched,
};
use crate::collaborators::{
    add_collaborator_refusal, collaborator_added, collaborator_removed, distribute_refusal,
    divisible, pay_out_refusal, payout, payouts, remove_collaborator_refusal, share_sum,
    total_share,
};
use crate::invariants::{consistent, lemma_pushed_contains, people_consistent, registry_consistent};
use crate::lists::{
    amount_at, lemma_without_absent, lemma_without_contains, lemma_without_distinct, list_at,
    without,
};
use crate::meters::{contact_set, metadata_replaced, owner_refusal};
use crate::migration::{migrated_by_hand, migration_refusal, up_to_date, v0_at, v1_at, v2_at};
use crate::multisig::{
    approve_refusal, approved, bulk_deactivated, configure_refusal, execute_refusal, performed,
    proposal_spent, proposed,
};
use crate::payments::{
    delegate_added, delegate_removed, delegated_expiry, delegated_refusal, payment_booked,
    payment_completed, payment_expiry, payment_refusal, PendingPayment,
};
use crate::refunds::{
    refund_booked, refund_limit_refusal, refund_refusal, refund_request, refundable, window_at,
    RequestModel,
};
use crate::registry::{
    batch_register_refusal, batch_registered, deregister_refusal, deregistered, meter_added,
    new_meter, ownership_transferred, page_of, register_refusal, transfer_refusal,
    MAX_OWNERSHIP_HISTORY, MAX_PAGE,
};
use crate::state::{
    admin_refusal, current_meter, meter_of, meter_settled, pause_in_force, pause_settled, refusal,
    Grid, Invocation, MAX_PAUSE_DURATION, SECONDS_PER_DAY,
};
use crate::types::{
    AdminOperation, ContractError, MetadataModel, Meter, MeterModel, OperationModel, PaymentPlan,
    RefundWindow,
};
use crate::usage::{
    access_of, batch_usage_refusal, batch_used, charge_refusal, charge_reported, charged,
    daily_limit_refusal, daily_limit_set, day_rolled, usage_applied, usage_refusal,
};
use crate::values::{clamp, Address};
use crate::withdrawals::{admin_withdraw_refusal, recovery_refusal, revenue_refusal};

verus! {

// Errors

/// No two errors are reported under the same number.
pub proof fn law_error_numbers_differ(a: ContractError, b: ContractError)
    requires
        a.number() == b.number(),
    ensures
        a == b,
{
}

// Authority

/// Nothing that only the administrator may do is done without the administrator's authorisation.
pub proof fn law_administrator_must_sign(
    s: Grid,
    env: Invocation,
    id: Seq<u8>,
    who: Address,
    amount: i128,
    share: u32,
    flag: bool,
    n: nat,
    metadata: Option<MetadataModel>,
    wanted: Option<MeterModel>,
)
    requires
        s.admin is None || !env.signed(s.admin->0),
    ensures
        admin_refusal(s, env) is Some,
        unfreeze_refusal(s, env) is Some,
        pause_refusal(s, env) is Some,
        unpause_refusal(s, env) is Some,
        register_refusal(s, env, id, who, metadata) is Some,
        batch_register_refusal(s, env, n) is Some,
        deregister_refusal(s, env, id) is Some,
        refund_refusal(s, env, id, amount, who) is Some,
        refund_limit_refusal(s, env, amount) is Some,
        revenue_refusal(s, env, who, amount) is Some,
        admin_withdraw_refusal(s, env, who) is Some,
        recovery_refusal(s, env) is Some,
        usage_refusal(s, env, amount) is Some,
        batch_usage_refusal(s, env, n) is Some,
        daily_limit_refusal(s, env, id, amount) is Some,
        switch_refusal(s, env, id, flag) is Some,
        batch_deactivate_refusal(s, env, n) is Some,
        expire_refusal(s, env, id) is Some,
        add_collaborator_refusal(s, env, who, share) is Some,
        remove_collaborator_refusal(s, env, who) is Some,
        distribute_refusal(s, env, amount) is Some,
        pay_out_refusal(s, env, amount) is Some,
        configure_refusal(s, env, n, share) is Some,
        migration_refusal(s, env, id, wanted) is Some,
{
}

/// A meter changes hands, its delegates change and its emergency contact changes only with its
/// owner's authorisation, and the new owner must agree and be on the allowlist.
pub proof fn law_owner_must_sign(s: Grid, env: Invocation, id: Seq<u8>, new_owner: Address)
    requires
        meter_of(s, id) is Some,
    ensures
        owner_refusal(s, env, id) is None ==> env.signed(meter_of(s, id)->0.owner),
        transfer_refusal(s, env, id, new_owner) is None ==> env.signed(meter_of(s, id)->0.owner)
            && env.signed(new_owner) && s.allowlist.contains(new_owner),
{
}

/// A meter is registered for an owner who agrees and is on the allowlist, under an id that is not
/// taken.
pub proof fn law_registration_is_agreed(
    s: Grid,
    env: Invocation,
    id: Seq<u8>,
    owner: Address,
    metadata: Option<MetadataModel>,
)
    requires
        register_refusal(s, env, id, owner, metadata) is None,
    ensures
        env.signed(owner),
        s.allowlist.contains(owner),
        meter_of(s, id) is None,
{
}

/// Nobody pays without having authorised it.
pub proof fn law_payer_must_sign(
    s: Grid,
    env: Invocation,
    id: Seq<u8>,
    who: Address,
    amount: i128,
    memo: Option<Seq<u8>>,
)
    requires
        !env.signed(who),
    ensures
        payment_refusal(s, env, id, who, amount, memo) is Some,
        delegated_refusal(s, env, id, who, amount, memo) is Some,
{
}

/// An initialised contract cannot be initialised again, and stays initialised whatever is agreed.
pub proof fn law_initialised_once(
    s: Grid,
    env: Invocation,
    admin: Address,
    token: Address,
    now: u64,
    operation: OperationModel,
)
    ensures
        initialize_refusal(initialised(s, admin, token), env, admin) is Some,
        s.admin is Some ==> performed(s, now, operation).admin is Some,
{
    lemma_performing_keeps_proposals(s, now, operation);
}

// Payments and access

/// A payment gives access from the moment it is made until the time it buys has run out.
pub proof fn law_payment_gives_access(
    s: Grid,
    env: Invocation,
    id: Seq<u8>,
    payer: Address,
    amount: i128,
    plan: PaymentPlan,
    memo: Option<Seq<u8>>,
    pending: PendingPayment<Seq<u8>>,
    later: u64,
)
    requires
        payment_refusal(s, env, id, payer, amount, memo) is None,
        amount_at(s.balances, id) >= 0,
    ensures
        ({
            let booked = payment_booked(
                pause_settled(s, env.now),
                id,
                payer,
                amount,
                plan,
                payment_expiry(plan, env.now),
                env.now,
            );
            let t = payment_completed(booked, pending);
            meter_of(t, id) is Some && access_of(
                meter_of(t, id)->0,
                amount_at(t.balances, id),
                later,
            ).has_access == (later < payment_expiry(plan, env.now))
        }),
{
}

/// A payment adds the same amount to the meter's balance, to what the payer has paid and to the
/// administrator's revenue, as long as none of them overflows.
pub proof fn law_payment_adds_its_amount(
    s: Grid,
    id: Seq<u8>,
    payer: Address,
    amount: i128,
    plan: PaymentPlan,
    expires_at: u64,
    now: u64,
)
    requires
        meter_of(s, id) is Some,
        s.admin is Some,
        amount_at(s.balances, id) + amount <= i128::MAX,
        amount_at(s.payer_paid, (id, payer)) + amount <= i128::MAX,
        amount_at(s.provider_revenue, s.admin->0) + amount <= i128::MAX,
        amount > 0,
    ensures
        ({
            let t = payment_booked(s, id, payer, amount, plan, expires_at, now);
            &&& amount_at(t.balances, id) == amount_at(s.balances, id) + amount
            &&& amount_at(t.payer_paid, (id, payer)) == amount_at(s.payer_paid, (id, payer))
                + amount
            &&& amount_at(t.provider_revenue, s.admin->0) == amount_at(
                s.provider_revenue,
                s.admin->0,
            ) + amount
        }),
{
}

/// A payment towards one meter leaves every other meter and its balance as they were.
pub proof fn law_payment_concerns_one_meter(
    s: Grid,
    id: Seq<u8>,
    payer: Address,
    amount: i128,
    plan: PaymentPlan,
    expires_at: u64,
    now: u64,
    other: Seq<u8>,
)
    requires
        other != id,
    ensures
        ({
            let t = payment_booked(s, id, payer, amount, plan, expires_at, now);
            meter_of(t, other) == meter_of(s, other) && amount_at(t.balances, other) == amount_at(
                s.balances,
                other,
            )
        }),
{
}

/// A usage-based plan does not run out, whoever pays for it and whenever.
pub proof fn law_usage_based_plan_has_no_end(now: u64, expires_at: u64)
    ensures
        payment_expiry(PaymentPlan::UsageBased, now) == u64::MAX,
        delegated_expiry(PaymentPlan::UsageBased, expires_at) == u64::MAX,
{
}

/// A delegate's payment does not shorten the time a meter has left.
pub proof fn law_delegates_extend(plan: PaymentPlan, expires_at: u64)
    ensures
        delegated_expiry(plan, expires_at) >= expires_at,
{
}

/// A meter that is off, or past its time, has no access, whatever its balance.
pub proof fn law_no_access_when_off_or_expired(m: MeterModel, balance: i128, now: u64)
    requires
        !m.active || now >= m.expires_at,
    ensures
        !access_of(m, balance, now).has_access,
        !access_of(m, balance, now).in_grace_period,
{
}

/// A meter without balance has access exactly while it is on, paid up and in its grace period.
pub proof fn law_access_without_balance_is_grace(m: MeterModel, balance: i128, now: u64)
    requires
        balance <= 0,
    ensures
        access_of(m, balance, now).has_access == access_of(m, balance, now).in_grace_period,
        access_of(m, balance, now).has_access <==> m.active && now < m.expires_at
            && m.grace_expires_at is Some && now < m.grace_expires_at->0,
{
}

// Usage

/// A charge that is let through never takes a meter over its daily limit.
pub proof fn law_daily_limit_holds(
    m: MeterModel,
    left: i128,
    units: u64,
    cost: i128,
    grace: u64,
    now: u64,
)
    requires
        charge_refusal(m, cost, now) is None,
        m.daily_limit > 0,
    ensures
        charged(m, left, units, cost, grace, now).day_spent <= m.daily_limit,
{
}

/// A meter without a daily limit is never refused a charge on account of one.
pub proof fn law_no_limit_no_refusal(m: MeterModel, cost: i128, now: u64)
    requires
        m.daily_limit == 0,
        m.active,
    ensures
        charge_refusal(m, cost, now) is None,
{
}

/// A day after the window opened, what was spent before no longer counts.
pub proof fn law_day_window_rolls(m: MeterModel, cost: i128, now: u64)
    requires
        now > m.day_start + SECONDS_PER_DAY,
    ensures
        day_rolled(m, now).day_spent == 0,
        m.active && cost <= m.daily_limit ==> charge_refusal(m, cost, now) is None,
{
}

/// A meter that is off is charged nothing.
pub proof fn law_off_meters_use_nothing(s: Grid, id: Seq<u8>, m: MeterModel, cost: i128, now: u64)
    requires
        !m.active,
    ensures
        charge_refusal(m, cost, now) == Some(ContractError::MeterNotActive),
        charge_reported(s, id, m, cost, now) == s,
{
}

/// A charge takes its cost from the balance, or all of it, and counts the units.
pub proof fn law_charge_takes_its_cost(
    s: Grid,
    id: Seq<u8>,
    m: MeterModel,
    units: u64,
    cost: i128,
    now: u64,
)
    requires
        cost >= 0,
        amount_at(s.balances, id) >= 0,
    ensures
        ({
            let t = usage_applied(s, id, m, units, cost, now);
            let before = amount_at(s.balances, id);
            &&& amount_at(t.balances, id) == if cost <= before {
                before - cost
            } else {
                0
            }
            &&& meter_of(t, id)->0.units_used == m.units_used.saturating_add(units)
        }),
{
}

/// A charge to one meter leaves every other meter and its balance as they were.
pub proof fn law_usage_concerns_one_meter(
    s: Grid,
    id: Seq<u8>,
    m: MeterModel,
    units: u64,
    cost: i128,
    now: u64,
    other: Seq<u8>,
)
    requires
        other != id,
    ensures
        ({
            let t = usage_applied(s, id, m, units, cost, now);
            meter_of(t, other) == meter_of(s, other) && amount_at(t.balances, other) == amount_at(
                s.balances,
                other,
            )
        }),
{
}

/// A batch of usage updates concerns the meters it lists alone, and every id it reports back is
/// one of them.
pub proof fn law_batch_usage_concerns_its_meters(
    s: Grid,
    now: u64,
    updates: Seq<(Seq<u8>, u64, i128)>,
    other: Seq<u8>,
    i: int,
)
    requires
        forall|j: int| 0 <= j < updates.len() ==> (#[trigger] updates[j]).0 != other,
    ensures
        ({
            let (t, failed) = batch_used(s, now, updates);
            &&& meter_of(t, other) == meter_of(s, other)
            &&& amount_at(t.balances, other) == amount_at(s.balances, other)
            &&& failed.len() <= updates.len()
            &&& 0 <= i < failed.len() ==> exists|j: int|
                0 <= j < updates.len() && (#[trigger] updates[j]).0 == failed[i]
        }),
    decreases updates.len(),
{
    if updates.len() > 0 {
        let rest = updates.drop_last();
        assert forall|j: int| 0 <= j < rest.len() implies (#[trigger] rest[j]).0 != other by {
            assert(rest[j] == updates[j]);
        }
        law_batch_usage_concerns_its_meters(s, now, rest, other, i);
        let last = updates.len() - 1;
        assert(updates[last].0 != other);
        let (before, earlier) = batch_used(s, now, rest);
        let failed = batch_used(s, now, updates).1;
        if 0 <= i < earlier.len() {
            let j = choose|j: int| 0 <= j < rest.len() && (#[trigger] rest[j]).0 == earlier[i];
            assert(updates[j].0 == failed[i]);
        } else if 0 <= i < failed.len() {
            assert(updates[last].0 == failed[i]);
        }
    }
}

/// A meter whose balance runs out is off at once unless a grace period was configured.
pub proof fn law_empty_meter_is_off_without_grace(
    m: MeterModel,
    units: u64,
    cost: i128,
    now: u64,
)
    ensures
        !charged(m, 0, units, cost, 0, now).active,
{
}

/// A grace period starts when the balance runs out, is not prolonged by further charges, and ends
/// with the meter off.
pub proof fn law_grace_is_not_prolonged(
    m: MeterModel,
    units: u64,
    cost: i128,
    grace: u64,
    now: u64,
    later: u64,
)
    requires
        m.active,
        m.grace_expires_at is None,
        grace > 0,
    ensures
        ({
            let first = charged(m, 0, units, cost, grace, now);
            let second = charged(first, 0, units, cost, grace, later);
            &&& first.active
            &&& first.grace_expires_at == Some(now.saturating_add(grace))
            &&& second.grace_expires_at == first.grace_expires_at
            &&& second.active == (later < now.saturating_add(grace))
        }),
{
}

/// A payment ends a running grace period.
pub proof fn law_payment_ends_grace(
    s: Grid,
    id: Seq<u8>,
    payer: Address,
    amount: i128,
    plan: PaymentPlan,
    expires_at: u64,
    now: u64,
)
    ensures
        meter_of(
            payment_booked(s, id, payer, amount, plan, expires_at, now),
            id,
        )->0.grace_expires_at is None,
{
}

// Refunds

/// What is refunded to someone for a meter never adds up to more than they have paid for it.
pub proof fn law_refunds_stay_within_payments(
    s: Grid,
    env: Invocation,
    id: Seq<u8>,
    amount: i128,
    recipient: Address,
    reason: Seq<u8>,
)
    requires
        consistent(s),
        refund_refusal(s, env, id, amount, recipient) is None,
    ensures
        ({
            let asked = Grid { locked: true, ..s };
            let t = refund_booked(asked, refund_request(s, env, id, amount, recipient, reason));
            let key = (id, recipient);
            &&& amount_at(t.payer_refunded, key) == amount_at(s.payer_refunded, key) + amount
            &&& amount_at(t.payer_refunded, key) <= amount_at(t.payer_paid, key)
            &&& amount_at(t.payer_paid, key) == amount_at(s.payer_paid, key)
            &&& refundable(t, id, recipient) == refundable(s, id, recipient) - amount
        }),
{
    assert(0 <= amount_at(s.payer_refunded, (id, recipient)) <= amount_at(
        s.payer_paid,
        (id, recipient),
    ));
}

/// Who has paid nothing for a meter is refunded nothing for it.
pub proof fn law_no_refund_without_payment(
    s: Grid,
    env: Invocation,
    id: Seq<u8>,
    amount: i128,
    recipient: Address,
)
    requires
        consistent(s),
        amount_at(s.payer_paid, (id, recipient)) == 0,
    ensures
        refund_refusal(s, env, id, amount, recipient) is Some,
{
    assert(0 <= amount_at(s.payer_refunded, (id, recipient)));
}

/// What is refunded in a window never adds up to more than the limit.
pub proof fn law_refunds_stay_within_limit(
    s: Grid,
    env: Invocation,
    id: Seq<u8>,
    amount: i128,
    recipient: Address,
    reason: Seq<u8>,
)
    requires
        refund_refusal(s, env, id, amount, recipient) is None,
        s.refund_limit > 0,
    ensures
        ({
            let asked = Grid { locked: true, ..s };
            let t = refund_booked(asked, refund_request(s, env, id, amount, recipient, reason));
            &&& t.refund_window is Some
            &&& t.refund_window->0.window_spent <= s.refund_limit
            &&& t.refund_window->0.window_spent == clamp(
                window_at(s.refund_window, env.now).window_spent + amount,
            )
            &&& window_at(t.refund_window, env.now) == t.refund_window->0
        }),
{
}

/// A day after the refund window opened, what was refunded before no longer counts.
pub proof fn law_refund_window_rolls(window: RefundWindow, now: u64)
    requires
        now > window.window_start + SECONDS_PER_DAY,
    ensures
        window_at(Some(window), now) == (RefundWindow { window_start: now, window_spent: 0 }),
{
}

/// What is refunded can no longer be withdrawn as revenue.
pub proof fn law_refund_takes_revenue_back(s: Grid, p: RequestModel)
    requires
        s.admin is Some,
        amount_at(s.provider_revenue, s.admin->0) >= p.amount,
        p.amount > 0,
    ensures
        amount_at(refund_booked(s, p).provider_revenue, s.admin->0) == amount_at(
            s.provider_revenue,
            s.admin->0,
        ) - p.amount,
{
}

// The lock

/// While a call that moves tokens is in progress, no other such call is let in.
pub proof fn law_lock_excludes_token_calls(
    s: Grid,
    env: Invocation,
    id: Seq<u8>,
    who: Address,
    amount: i128,
    memo: Option<Seq<u8>>,
    proposal: u32,
)
    requires
        s.locked,
    ensures
        payment_refusal(s, env, id, who, amount, memo) is Some,
        delegated_refusal(s, env, id, who, amount, memo) is Some,
        refund_refusal(s, env, id, amount, who) is Some,
        revenue_refusal(s, env, who, amount) is Some,
        admin_withdraw_refusal(s, env, who) is Some,
        recovery_refusal(s, env) is Some,
        pay_out_refusal(s, env, amount) is Some,
        execute_refusal(s, env.now, proposal) == Some(ContractError::ReentrantCall),
{
}

/// A token call that would be let in but for the lock is told that it came in between.
pub proof fn law_lock_is_reported(
    s: Grid,
    env: Invocation,
    id: Seq<u8>,
    who: Address,
    amount: i128,
    memo: Option<Seq<u8>>,
)
    requires
        !s.locked,
    ensures
        ({
            let busy = Grid { locked: true, ..s };
            let reentrant = refusal(ContractError::ReentrantCall);
            &&& payment_refusal(s, env, id, who, amount, memo) is None ==> payment_refusal(
                busy,
                env,
                id,
                who,
                amount,
                memo,
            ) == reentrant
            &&& delegated_refusal(s, env, id, who, amount, memo) is None ==> delegated_refusal(
                busy,
                env,
                id,
                who,
                amount,
                memo,
            ) == reentrant
            &&& refund_refusal(s, env, id, amount, who) is None ==> refund_refusal(
                busy,
                env,
                id,
                amount,
                who,
            ) == reentrant
            &&& revenue_refusal(s, env, who, amount) is None ==> revenue_refusal(
                busy,
                env,
                who,
                amount,
            ) == reentrant
            &&& admin_withdraw_refusal(s, env, who) is None ==> admin_withdraw_refusal(
                busy,
                env,
                who,
            ) == reentrant
            &&& recovery_refusal(s, env) is None ==> recovery_refusal(busy, env) == reentrant
            &&& pay_out_refusal(s, env, amount) is None ==> pay_out_refusal(busy, env, amount)
                == reentrant
        }),
{
}

/// A refund or a withdrawal that is let in, and then refused because the contract holds too few
/// tokens, has changed nothing: giving the lock back gives the state before the call.
pub proof fn law_refusal_for_lack_of_tokens_undoes_the_call(
    s: Grid,
    env: Invocation,
    id: Seq<u8>,
    who: Address,
    amount: i128,
    proposal: u32,
)
    requires
        refund_refusal(s, env, id, amount, who) is None || admin_withdraw_refusal(s, env, who)
            is None || execute_refusal(s, env.now, proposal) is None,
    ensures
        ({
            let asked = Grid { locked: true, ..s };
            (Grid { locked: false, ..asked }) == s
        }),
{
}

// The freeze and the pause

/// While the contract is frozen, payments and usage updates are refused.
pub proof fn law_freeze_stops_payments_and_usage(
    s: Grid,
    env: Invocation,
    id: Seq<u8>,
    who: Address,
    amount: i128,
    memo: Option<Seq<u8>>,
    n: nat,
)
    requires
        s.frozen,
        !pause_in_force(s, env.now),
    ensures
        payment_refusal(s, env, id, who, amount, memo) == refusal(ContractError::ContractFrozen),
        delegated_refusal(s, env, id, who, amount, memo) == refusal(ContractError::ContractFrozen),
        usage_refusal(s, env, amount) == refusal(ContractError::ContractFrozen),
        batch_usage_refusal(s, env, n) == refusal(ContractError::ContractFrozen),
{
}

/// While the contract is paused, payments and registrations are refused.
pub proof fn law_pause_stops_payments_and_registration(
    s: Grid,
    env: Invocation,
    id: Seq<u8>,
    who: Address,
    amount: i128,
    memo: Option<Seq<u8>>,
    metadata: Option<MetadataModel>,
    n: nat,
)
    requires
        pause_in_force(s, env.now),
    ensures
        payment_refusal(s, env, id, who, amount, memo) == refusal(ContractError::ContractPaused),
        delegated_refusal(s, env, id, who, amount, memo) == refusal(ContractError::ContractPaused),
        register_refusal(s, env, id, who, metadata) == refusal(ContractError::ContractPaused),
        batch_register_refusal(s, env, n) == refusal(ContractError::ContractPaused),
{
}

/// Usage updates go on while the contract is paused.
pub proof fn law_pause_spares_usage(s: Grid, env: Invocation, cost: i128, n: nat, at: u64)
    ensures
        usage_refusal(pause_called(s, at), env, cost) == usage_refusal(s, env, cost),
        batch_usage_refusal(pause_called(s, at), env, n) == batch_usage_refusal(s, env, n),
{
}

/// A pause is in force for 48 hours from when it is called, and no longer.
pub proof fn law_pause_runs_out(s: Grid, at: u64, now: u64)
    requires
        at <= now,
    ensures
        pause_in_force(pause_called(s, at), now) <==> now < at + MAX_PAUSE_DURATION,
{
}

/// A pause cannot be called while one is in force, and can be lifted then and only then.
pub proof fn law_pause_and_unpause_exclude_each_other(s: Grid, env: Invocation)
    requires
        s.admin is Some,
        env.signed(s.admin->0),
    ensures
        pause_refusal(s, env) is None <==> unpause_refusal(s, env) is Some,
{
}

/// Lifting a pause gives back the state before it, but for what was published.
pub proof fn law_unpause_undoes_pause(s: Grid, at: u64, now: u64)
    requires
        !s.paused,
        s.paused_at == 0,
    ensures
        pause_lifted(pause_called(s, at), now) == (Grid {
            events: pause_lifted(pause_called(s, at), now).events,
            ..s
        }),
{
}

// The registry

/// As many meters are counted as are listed.
pub open spec fn counted(s: Grid) -> bool {
    s.meter_count == s.meter_list.len()
}

/// Registering and deregistering keep the count of meters right.
pub proof fn law_meters_are_counted(s: Grid, id: Seq<u8>, meter: MeterModel)
    requires
        registry_consistent(s),
        counted(s),
        s.meter_list.len() < u32::MAX,
    ensures
        counted(meter_added(s, id, meter)),
        meter_of(s, id) is Some ==> counted(deregistered(s, id)),
{
    if meter_of(s, id) is Some {
        assert(s.meter_list.contains(id));
        lemma_without_distinct(s.meter_list, id);
    }
}

/// A batch of registrations keeps the count of meters right.
pub proof fn law_batch_meters_are_counted(s: Grid, now: u64, entries: Seq<(Seq<u8>, Address)>)
    requires
        counted(s),
        s.meter_list.len() + entries.len() <= u32::MAX,
    ensures
        counted(batch_registered(s, now, entries).0),
        batch_registered(s, now, entries).0.meter_list.len() <= s.meter_list.len() + entries.len(),
    decreases entries.len(),
{
    if entries.len() > 0 {
        law_batch_meters_are_counted(s, now, entries.drop_last());
    }
}

/// A batch of registrations answers every entry, keeps every meter there was, and registers each
/// entry that it says it has registered for its owner.
pub proof fn law_batch_registration_answers(
    s: Grid,
    now: u64,
    entries: Seq<(Seq<u8>, Address)>,
    i: int,
    id: Seq<u8>,
)
    ensures
        ({
            let (t, done) = batch_registered(s, now, entries);
            &&& done.len() == entries.len()
            &&& t.allowlist == s.allowlist
            &&& s.meters.contains_key(id) ==> t.meters.contains_key(id) && t.meters[id]
                == s.meters[id]
            &&& 0 <= i < entries.len() && done[i] ==> {
                &&& meter_of(t, entries[i].0) == Some(new_meter(entries[i].1, now, Map::empty()))
                &&& s.allowlist.contains(entries[i].1)
                &&& !s.meters.contains_key(entries[i].0)
            }
            &&& 0 <= i < entries.len() && !done[i] ==> t.meters.contains_key(entries[i].0)
                || !s.allowlist.contains(entries[i].1)
        }),
    decreases entries.len(),
{
    if entries.len() > 0 {
        let rest = entries.drop_last();
        law_batch_registration_answers(s, now, rest, i, id);
        law_batch_registration_answers(s, now, rest, i, entries.last().0);
        if 0 <= i < rest.len() {
            assert(rest[i] == entries[i]);
            law_batch_registration_answers(s, now, rest, i, entries[i].0);
        }
    }
}

/// Deregistering a meter that was just registered gives back the registry before.
pub proof fn law_deregistration_undoes_registration(
    s: Grid,
    id: Seq<u8>,
    meter: MeterModel,
    who: Address,
)
    requires
        registry_consistent(s),
        !s.meters.contains_key(id),
        !s.balances.contains_key(id),
        s.meter_count < u32::MAX,
    ensures
        ({
            let t = deregistered(meter_added(s, id, meter), id);
            &&& t.meters == s.meters
            &&& t.balances == s.balances
            &&& t.meter_list == s.meter_list
            &&& t.meter_count == s.meter_count
            &&& list_at(t.owner_meters, who) == list_at(s.owner_meters, who)
        }),
{
    let added = meter_added(s, id, meter);
    let t = deregistered(added, id);
    assert(meter_of(s, id) is None);
    assert(meter_of(added, id) == Some(meter));
    assert(t.meters =~= s.meters);
    assert(t.balances =~= s.balances);
    assert(!s.meter_list.contains(id));
    lemma_without_pushed(s.meter_list, id);
    let list = list_at(s.owner_meters, meter.owner);
    assert(!list.contains(id));
    lemma_without_pushed(list, id);
}

/// Taking out an item that was just appended, and was not there before, gives the list back.
proof fn lemma_without_pushed<T>(list: Seq<T>, item: T)
    requires
        !list.contains(item),
    ensures
        without(list.push(item), item) == list,
{
    assert(list.push(item).drop_last() =~= list);
    assert(list.push(item).last() == item);
    lemma_without_absent(list, item);
}

/// A registered meter is off, was never used and has no access.
pub proof fn law_new_meter_is_off(
    owner: Address,
    now: u64,
    metadata: MetadataModel,
    balance: i128,
    later: u64,
)
    ensures
        ({
            let m = new_meter(owner, now, metadata);
            &&& !m.active
            &&& m.units_used == 0
            &&& !access_of(m, balance, later).has_access
        }),
{
}

/// Handing a meter over moves it from the old owner's list to the new owner's, starts its use
/// anew, keeps its balance and leaves everything else about it alone.
pub proof fn law_transfer_moves_the_meter(
    s: Grid,
    id: Seq<u8>,
    new_owner: Address,
    now: u64,
)
    requires
        registry_consistent(s),
        meter_of(s, id) is Some,
    ensures
        ({
            let t = ownership_transferred(s, id, new_owner, now);
            let before = meter_of(s, id)->0;
            &&& meter_of(t, id) == Some(Meter { owner: new_owner, units_used: 0, ..before })
            &&& amount_at(t.balances, id) == amount_at(s.balances, id)
            &&& list_at(t.owner_meters, new_owner).contains(id)
            &&& before.owner != new_owner ==> !list_at(t.owner_meters, before.owner).contains(id)
            &&& t.meter_list == s.meter_list
            &&& t.meter_count == s.meter_count
        }),
{
    let before = meter_of(s, id)->0;
    let list = list_at(s.owner_meters, before.owner);
    lemma_without_contains(list, id);
    let taken = s.owner_meters.insert(before.owner, without(list, id));
    lemma_pushed_contains(list_at(taken, new_owner), id, id);
}

/// The latest change of owner is the last one on record, and the record never grows over its
/// bound.
pub proof fn law_transfer_is_on_record(s: Grid, id: Seq<u8>, new_owner: Address, now: u64)
    ensures
        ({
            let t = ownership_transferred(s, id, new_owner, now);
            let history = list_at(t.ownership_history, id);
            &&& 0 < history.len() <= MAX_OWNERSHIP_HISTORY
            &&& history.last().old_owner == meter_of(s, id)->0.owner
            &&& history.last().new_owner == new_owner
            &&& history.last().transferred_at == now
        }),
{
}

/// A page holds consecutive ids from its offset on, is within its limit, and is short only where
/// the list ends.
pub proof fn law_pages_cover_the_list(ids: Seq<Seq<u8>>, offset: u32, limit: u32, i: int)
    ensures
        ({
            let page = page_of(ids, offset, limit);
            &&& page.len() <= limit
            &&& page.len() <= MAX_PAGE
            &&& offset >= ids.len() ==> page.len() == 0
            &&& 0 <= i < page.len() ==> offset + i < ids.len() && page[i] == ids[offset + i]
            &&& page.len() < limit && page.len() < MAX_PAGE ==> offset + page.len() >= ids.len()
        }),
{
}

/// Whoever is put on the allowlist is on it, whoever is taken off is not, and nobody else is
/// affected.
pub proof fn law_allowlist_follows(s: Grid, who: Address, other: Address)
    requires
        other != who,
    ensures
        allowed(s, who).allowlist.contains(who),
        !disallowed(s, who).allowlist.contains(who),
        allowed(s, who).allowlist.contains(other) == s.allowlist.contains(other),
        disallowed(s, who).allowlist.contains(other) == s.allowlist.contains(other),
        !s.allowlist.contains(who) ==> disallowed(allowed(s, who), who).allowlist == s.allowlist,
{
    lemma_pushed_contains(s.allowlist, who, who);
    lemma_pushed_contains(s.allowlist, who, other);
    lemma_without_contains(s.allowlist, who);
    if !s.allowlist.contains(who) {
        lemma_without_pushed(s.allowlist, who);
    }
}

/// Putting someone on the allowlist twice is the same as once, and so is taking them off.
pub proof fn law_allowlist_changes_are_idempotent(s: Grid, who: Address)
    ensures
        allowed(allowed(s, who), who) == allowed(s, who),
        disallowed(disallowed(s, who), who) == disallowed(s, who),
{
    lemma_pushed_contains(s.allowlist, who, who);
    lemma_without_contains(s.allowlist, who);
}

/// Whoever is made a delegate of a meter is one, whoever is dismissed is not, and no other
/// delegate and no other meter is affected.
pub proof fn law_delegates_follow(
    s: Grid,
    id: Seq<u8>,
    who: Address,
    other: Address,
    elsewhere: Seq<u8>,
)
    requires
        other != who,
        elsewhere != id,
    ensures
        list_at(delegate_added(s, id, who).delegates, id).contains(who),
        !list_at(delegate_removed(s, id, who).delegates, id).contains(who),
        list_at(delegate_added(s, id, who).delegates, id).contains(other) == list_at(
            s.delegates,
            id,
        ).contains(other),
        list_at(delegate_removed(s, id, who).delegates, id).contains(other) == list_at(
            s.delegates,
            id,
        ).contains(other),
        list_at(delegate_added(s, id, who).delegates, elsewhere) == list_at(
            s.delegates,
            elsewhere,
        ),
        list_at(delegate_removed(s, id, who).delegates, elsewhere) == list_at(
            s.delegates,
            elsewhere,
        ),
{
    let list = list_at(s.delegates, id);
    lemma_pushed_contains(list, who, who);
    lemma_pushed_contains(list, who, other);
    lemma_without_contains(list, who);
}

/// Only a delegate of the meter can make a delegated payment.
pub proof fn law_only_delegates_pay_as_delegates(
    s: Grid,
    env: Invocation,
    id: Seq<u8>,
    who: Address,
    amount: i128,
    memo: Option<Seq<u8>>,
)
    requires
        delegated_refusal(s, env, id, who, amount, memo) is None,
    ensures
        list_at(s.delegates, id).contains(who),
        env.signed(who),
{
}

// Reads and writes

/// A read of a meter gives back what was written to it last.
pub proof fn law_reads_give_back_writes(
    s: Grid,
    id: Seq<u8>,
    metadata: MetadataModel,
    contact: Option<Address>,
    limit: i128,
    active: bool,
)
    requires
        meter_of(s, id) is Some,
    ensures
        meter_of(metadata_replaced(s, id, metadata), id) == Some(
            Meter { metadata, ..meter_of(s, id)->0 },
        ),
        meter_of(contact_set(s, id, contact), id) == Some(
            Meter { emergency_contact: contact, ..meter_of(s, id)->0 },
        ),
        meter_of(daily_limit_set(s, id, limit), id) == Some(
            Meter { daily_limit: limit, ..meter_of(s, id)->0 },
        ),
        meter_of(switched(s, id, active), id) == Some(Meter { active, ..meter_of(s, id)->0 }),
{
}

/// Switching a meter off, and expiring it, ends its access at once.
pub proof fn law_switched_off_means_no_access(s: Grid, id: Seq<u8>, now: u64, later: u64)
    ensures
        ({
            let t = switched(s, id, false);
            !access_of(meter_of(t, id)->0, amount_at(t.balances, id), later).has_access
        }),
        ({
            let t = expired(s, id, now);
            !access_of(meter_of(t, id)->0, amount_at(t.balances, id), later).has_access
        }),
{
}

/// After a batch deactivation none of the listed meters that it could read is on, and it answers
/// for every one in order.
pub proof fn law_batch_deactivation_answers(s: Grid, ids: Seq<Seq<u8>>, i: int)
    ensures
        ({
            let (t, results) = batch_deactivated(s, ids);
            &&& results.len() == ids.len()
            &&& 0 <= i < ids.len() ==> {
                &&& results[i].meter_id == ids[i]
                &&& current_meter(t, ids[i]) is Some ==> !current_meter(
                    t,
                    ids[i],
                )->0.active
            }
        }),
    decreases ids.len(),
{
    if ids.len() > 0 {
        let rest = ids.drop_last();
        law_batch_deactivation_answers(s, rest, i);
        if 0 <= i < rest.len() {
            assert(rest[i] == ids[i]);
        }
    }
}

// Migration

/// Rewriting an entry in the current layout changes nothing that a read gives back.
pub proof fn law_settling_is_invisible(s: Grid, id: Seq<u8>, other: Seq<u8>)
    ensures
        meter_of(meter_settled(s, id), other) == meter_of(s, other),
        meter_settled(meter_settled(s, id), id) == meter_settled(s, id),
{
    assert(meter_settled(meter_settled(s, id), id).meters =~= meter_settled(s, id).meters);
}

/// Migrating by hand gives what a read would give, and migrating again changes nothing.
pub proof fn law_migration_is_idempotent(s: Grid, id: Seq<u8>)
    ensures
        ({
            let t = migrated_by_hand(s, id, v0_at(s, id));
            v0_at(s, id) is Some ==> t == meter_settled(s, id) && up_to_date(t, id)
                && migrated_by_hand(t, id, v0_at(t, id)) == t
        }),
        ({
            let t = migrated_by_hand(s, id, v1_at(s, id));
            v1_at(s, id) is Some ==> t == meter_settled(s, id) && up_to_date(t, id)
                && migrated_by_hand(t, id, v1_at(t, id)) == t
        }),
        ({
            let t = migrated_by_hand(s, id, v2_at(s, id));
            v2_at(s, id) is Some ==> t == meter_settled(s, id) && up_to_date(t, id)
                && migrated_by_hand(t, id, v2_at(t, id)) == t
        }),
{
}

// Collaborators

/// The sum of the amounts of the addresses in `keys`.
pub open spec fn amount_sum(amounts: Map<Address, i128>, keys: Set<Address>) -> int
    decreases keys.len(),
    when keys.finite()
{
    if keys.len() == 0 {
        0
    } else {
        let key = keys.choose();
        amounts[key] + amount_sum(amounts, keys.remove(key))
    }
}

/// What the collaborators get of an amount is not more than the amount, and nobody gets less than
/// nothing.
pub proof fn law_payouts_stay_within_amount(s: Grid, amount: i128, who: Address)
    requires
        people_consistent(s),
        amount > 0,
        divisible(s, amount),
    ensures
        payouts(s, amount).dom() == s.shares.dom(),
        amount_sum(payouts(s, amount), s.shares.dom()) <= amount,
        s.shares.contains_key(who) ==> payouts(s, amount)[who] >= 0,
        s.shares.contains_key(who) ==> payouts(s, amount)[who] == payout(amount, s.shares[who]),
{
    let paid = payouts(s, amount);
    assert(paid.dom() =~= s.shares.dom()) by {
        assert forall|a: Address| paid.contains_key(a) <==> s.shares.contains_key(a) by {
            assert(s.collaborators.contains(a) <==> s.shares.contains_key(a));
        }
    }
    lemma_payout_sum(s, amount, s.shares.dom());
    let total = total_share(s.shares);
    assert(amount * total <= amount * 10_000) by (nonlinear_arith)
        requires
            amount > 0,
            total <= 10_000,
    ;
    if s.shares.contains_key(who) {
        lemma_payout(s, amount, who);
    }
}

/// A single collaborator's part is not below zero and fits an amount.
proof fn lemma_payout(s: Grid, amount: i128, who: Address)
    requires
        people_consistent(s),
        amount > 0,
        divisible(s, amount),
        s.shares.contains_key(who),
    ensures
        payouts(s, amount)[who] == payout(amount, s.shares[who]),
        payouts(s, amount)[who] >= 0,
        payouts(s, amount)[who] * 10_000 <= amount * s.shares[who],
{
    assert(s.collaborators.contains(who) <==> s.shares.contains_key(who));
    let share = s.shares[who];
    assert(amount * share >= 0) by (nonlinear_arith)
        requires
            amount > 0,
            share >= 0,
    ;
}

/// The parts of some collaborators, in ten-thousandths, are not more than their shares of the
/// amount.
proof fn lemma_payout_sum(s: Grid, amount: i128, keys: Set<Address>)
    requires
        people_consistent(s),
        amount > 0,
        divisible(s, amount),
        keys.finite(),
        keys.subset_of(s.shares.dom()),
    ensures
        amount_sum(payouts(s, amount), keys) * 10_000 <= amount * share_sum(s.shares, keys),
    decreases keys.len(),
{
    if keys.len() != 0 {
        let key = keys.choose();
        lemma_payout_sum(s, amount, keys.remove(key));
        lemma_payout(s, amount, key);
        let share = s.shares[key] as int;
        let rest = share_sum(s.shares, keys.remove(key));
        assert(amount * (share + rest) == amount * share + amount * rest) by (nonlinear_arith);
    } else {
        assert(amount * 0 == 0);
    }
}

/// Removing a collaborator who was just added gives back the shares before.
pub proof fn law_removing_undoes_adding_a_collaborator(s: Grid, who: Address, basis_points: u32)
    requires
        people_consistent(s),
        !s.shares.contains_key(who),
    ensures
        ({
            let t = collaborator_removed(collaborator_added(s, who, basis_points), who);
            t.shares == s.shares && t.collaborators == s.collaborators
        }),
{
    let t = collaborator_removed(collaborator_added(s, who, basis_points), who);
    assert(t.shares =~= s.shares);
    assert(!s.collaborators.contains(who));
    lemma_without_pushed(s.collaborators, who);
}

// Deciding together

/// A proposal is executed only in time and with as many different approvals as it needs, and it
/// needs one at least.
pub proof fn law_execution_needs_agreement(s: Grid, now: u64, id: u32)
    requires
        consistent(s),
        execute_refusal(s, now, id) is None,
    ensures
        s.proposals.contains_key(id),
        now < s.proposals[id].expiry,
        s.proposals[id].approvals.to_set().len() >= s.proposals[id].threshold >= 1,
{
    s.proposals[id].approvals.unique_seq_to_set();
}

/// Each approval adds one name, and nobody's counts twice.
pub proof fn law_approvals_add_up(s: Grid, env: Invocation, id: u32, signer: Address)
    requires
        approve_refusal(s, env, id, signer) is None,
    ensures
        s.multisig_admins.contains(signer),
        approved(s, id, signer).proposals[id].approvals.len() == s.proposals[id].approvals.len()
            + 1,
        approve_refusal(approved(s, id, signer), env, id, signer) == refusal(
            ContractError::ProposalAlreadyApproved,
        ),
{
    lemma_pushed_contains(s.proposals[id].approvals, signer, signer);
}

/// Whether the id was handed out to a proposal that is no longer open.
pub open spec fn spent(s: Grid, id: u32) -> bool {
    id < s.proposal_count && !s.proposals.contains_key(id)
}

/// A proposal that was executed can neither be executed nor approved again, and its id is not
/// given to another.
pub proof fn law_proposals_are_executed_once(
    s: Grid,
    now: u64,
    id: u32,
    env: Invocation,
    signer: Address,
    operation: OperationModel,
    expiry: u64,
)
    requires
        consistent(s),
        execute_refusal(s, now, id) is None,
        s.proposal_count < u32::MAX,
    ensures
        ({
            let t = proposal_spent(performed(s, now, s.proposals[id].operation), id);
            &&& spent(t, id)
            &&& execute_refusal(t, env.now, id) == Some(ContractError::ProposalNotFound)
            &&& approve_refusal(t, env, id, signer) is Some
            &&& spent(proposed(t, signer, operation, expiry), id)
        }),
{
    let op = s.proposals[id].operation;
    lemma_performing_keeps_proposals(s, now, op);
}

/// Doing an operation leaves the open proposals and the lock alone, and an administrator in place.
proof fn lemma_performing_keeps_proposals(s: Grid, now: u64, operation: OperationModel)
    ensures
        s.admin is Some ==> performed(s, now, operation).admin is Some,
        performed(s, now, operation).proposals == s.proposals,
        performed(s, now, operation).proposal_count == s.proposal_count,
        performed(s, now, operation).locked == s.locked,
{
    match operation {
        AdminOperation::BulkDeactivate(ids) => {
            lemma_bulk_keeps_proposals(s, ids);
        },
        _ => {},
    }
}

/// Switching meters off leaves the administrator, the open proposals and the lock alone.
proof fn lemma_bulk_keeps_proposals(s: Grid, ids: Seq<Seq<u8>>)
    ensures
        bulk_deactivated(s, ids).admin == s.admin,
        bulk_deactivated(s, ids).proposals == s.proposals,
        bulk_deactivated(s, ids).proposal_count == s.proposal_count,
        bulk_deactivated(s, ids).locked == s.locked,
    decreases ids.len(),
{
    if ids.len() > 0 {
        lemma_bulk_keeps_proposals(s, ids.drop_last());
    }
}

} // verus!

//! What energy use costs, and who has access.

use vstd::prelude::*;

use crate::events::Event;
use crate::lists::amount_at;
use crate::state::{meter_of, refusal, Grid, Invocation};
use crate::types::{CallError, ContractError, Meter, MeterModel, StoredMeter};
use crate::usage::{
    access_of, balance_left, batch_usage_refusal, batch_used, charge_refusal, charge_reported,
    charged, daily_limit_refusal, daily_limit_set, day_rolled, grace_granted, grace_reported,
    grace_set, over_limit, usage_applied, usage_refusal, usage_stepped,
};
use crate::values::{clamp, drained};

verus! {

/// A charge that leaves a balance above zero keeps the meter on and ends its grace period: after
/// it, the meter gives access exactly until it expires.
pub proof fn law_paid_use_keeps_the_meter_on(
    m: MeterModel,
    left: i128,
    units: u64,
    cost: i128,
    grace: u64,
    now: u64,
    later: u64,
)
    requires
        m.active,
        left > 0,
    ensures
        ({
            let after = charged(m, left, units, cost, grace, now);
            &&& after.active && after.grace_expires_at is None
            &&& after.expires_at == m.expires_at
            &&& access_of(after, left, later).has_access <==> later < m.expires_at
        }),
{
}

/// Use that costs less than the balance leaves the meter on with the rest of it; access then ends
/// only as the meter expires.
pub proof fn law_use_within_the_balance_keeps_access(
    s: Grid,
    id: Seq<u8>,
    m: MeterModel,
    units: u64,
    cost: i128,
    now: u64,
    later: u64,
)
    requires
        m.active,
        0 <= cost < amount_at(s.balances, id),
    ensures
        ({
            let t = usage_applied(s, id, m, units, cost, now);
            let after = meter_of(t, id)->0;
            let left = amount_at(t.balances, id);
            &&& left + cost == amount_at(s.balances, id)
            &&& after.active && after.grace_expires_at is None
            &&& access_of(after, left, later).has_access <==> later < m.expires_at
            &&& t.events == s.events.push(Event::UsageUpdated { meter_id: id, units, cost })
        }),
{
}

/// A charge counts the units, and its cost in the day's window, which begins anew more than a day
/// after it began. It leaves a meter with a balance on, without grace; an empty one off, unless
/// there is grace, which runs once from when the meter is first found empty.
pub proof fn law_charges_count_and_switch(
    m: MeterModel,
    left: i128,
    units: u64,
    cost: i128,
    grace: u64,
    now: u64,
)
    ensures
        ({
            let after = charged(m, left, units, cost, grace, now);
            let new_day = now > m.day_start + 86_400;
            let end = m.grace_expires_at;
            &&& m.units_used + units <= u64::MAX ==> after.units_used == m.units_used + units
            &&& m.units_used + units > u64::MAX ==> after.units_used == u64::MAX
            &&& new_day ==> after.day_start == now && after.day_spent == cost
            &&& !new_day ==> after.day_start == m.day_start && after.day_spent == clamp(
                m.day_spent + cost,
            )
            &&& left != 0 ==> after.active == m.active && after.grace_expires_at is None
            &&& left == 0 && grace == 0 ==> !after.active && after.grace_expires_at is None
            &&& left == 0 && grace > 0 && end is None ==> after.active == m.active
            &&& left == 0 && grace > 0 && end is None && now + grace <= u64::MAX
                ==> after.grace_expires_at == Some((now + grace) as u64)
            &&& left == 0 && grace > 0 && end is None && now + grace > u64::MAX
                ==> after.grace_expires_at == Some(u64::MAX)
            &&& left == 0 && grace > 0 && end is Some ==> after.grace_expires_at == end
            &&& left == 0 && grace > 0 && end is Some ==> (after.active <==> now < end->0)
            &&& after == (Meter {
                units_used: after.units_used,
                day_start: after.day_start,
                day_spent: after.day_spent,
                active: after.active,
                grace_expires_at: after.grace_expires_at,
                ..m
            })
        }),
{
}

/// The day's window begins anew more than a day after it began, with nothing spent in it.
pub proof fn law_days_are_rolled(m: MeterModel, now: u64)
    ensures
        ({
            let day = day_rolled(m, now);
            &&& now > m.day_start + 86_400 ==> day.day_start == now && day.day_spent == 0
            &&& now <= m.day_start + 86_400 ==> day == m
            &&& day == (Meter { day_start: day.day_start, day_spent: day.day_spent, ..m })
        }),
{
}

/// A charge is refused where the meter is off, or where it would take the day's spending over a
/// limit that is set; up to the limit it is not.
pub proof fn law_charges_are_let_in(m: MeterModel, cost: i128, now: u64)
    ensures
        ({
            let spent = if now > m.day_start + 86_400 {
                0i128
            } else {
                m.day_spent
            };
            let over = m.daily_limit > 0 && clamp(spent + cost) > m.daily_limit;
            &&& over_limit(m, cost, now) <==> over
            &&& charge_refusal(m, cost, now) is None <==> m.active && !over
            &&& !m.active ==> charge_refusal(m, cost, now) == Some(ContractError::MeterNotActive)
            &&& m.active && over ==> charge_refusal(m, cost, now) == Some(
                ContractError::DailyLimitReached,
            )
        }),
{
}

/// Recorded use takes its cost from the balance, as far as it goes, and charges the meter; both
/// the use and a meter that it leaves off are announced. Nothing else changes.
pub proof fn law_use_does_all_it_should(
    s: Grid,
    id: Seq<u8>,
    m: MeterModel,
    units: u64,
    cost: i128,
    now: u64,
    other: Seq<u8>,
)
    ensures
        ({
            let t = usage_applied(s, id, m, units, cost, now);
            let left = amount_at(t.balances, id);
            let after = meter_of(t, id)->0;
            let grace = if s.grace_period is Some {
                s.grace_period->0
            } else {
                0u64
            };
            let used = s.events.push(Event::UsageUpdated { meter_id: id, units, cost });
            &&& balance_left(s, id, cost) == left
            &&& left == drained(amount_at(s.balances, id), cost)
            &&& t.balances == s.balances.insert(id, left)
            &&& after == charged(m, left, units, cost, grace, now)
            &&& t.meters == s.meters.insert(id, StoredMeter::Current(after))
            &&& after.active ==> t.events == used
            &&& !after.active ==> t.events == used.push(Event::MeterDeactivated { meter_id: id })
            &&& other != id ==> meter_of(t, other) == meter_of(s, other)
            &&& other != id ==> amount_at(t.balances, other) == amount_at(s.balances, other)
            &&& t == (Grid { meters: t.meters, balances: t.balances, events: t.events, ..s })
        }),
{
}

/// A charge over the daily limit is announced with what was spent in the day; another refusal is
/// not announced.
pub proof fn law_hit_limits_are_announced(
    s: Grid,
    id: Seq<u8>,
    m: MeterModel,
    cost: i128,
    now: u64,
)
    ensures
        ({
            let t = charge_reported(s, id, m, cost, now);
            let spent = if now > m.day_start + 86_400 {
                0i128
            } else {
                m.day_spent
            };
            let hit = m.active && m.daily_limit > 0 && clamp(spent + cost) > m.daily_limit;
            let event = Event::LimitHit {
                meter_id: id,
                daily_limit: m.daily_limit,
                day_spent: spent,
                cost,
            };
            &&& !hit ==> t == s
            &&& hit ==> t.events == s.events.push(event)
            &&& t == (Grid { events: t.events, ..s })
        }),
{
}

/// The grace period that is granted is the one that was set, and none where none was; what is
/// reported where none was set is two hours.
pub proof fn law_grace_is_as_set(s: Grid, period: u64)
    ensures
        s.grace_period is None ==> grace_granted(s) == 0 && grace_reported(s) == 7_200,
        s.grace_period is Some ==> grace_granted(s) == s.grace_period->0 && grace_reported(s)
            == s.grace_period->0,
        grace_granted(grace_set(s, period)) == period,
        grace_reported(grace_set(s, period)) == period,
        grace_set(s, period) == (Grid { grace_period: grace_set(s, period).grace_period, ..s }),
{
}

/// Use is recorded with the signatures of the administrator and of the oracle, at no negative cost,
/// and while nothing is frozen.
pub proof fn law_usage_is_let_in(s: Grid, env: Invocation, cost: i128)
    ensures
        ({
            let answer = usage_refusal(s, env, cost);
            let frozen = s.frozen;
            let no_admin = s.admin is None;
            let admin_missing = s.admin is Some && !env.signers@.contains(s.admin->0);
            let no_oracle = s.oracle is None;
            let oracle_missing = s.oracle is Some && !env.signers@.contains(s.oracle->0);
            let negative = cost < 0;
            &&& answer is None <==> !frozen && !no_admin && !admin_missing && !no_oracle
                && !oracle_missing && !negative
            &&& frozen ==> answer == refusal(ContractError::ContractFrozen)
            &&& !frozen && no_admin ==> answer == refusal(ContractError::NotInitialized)
            &&& !frozen && !no_admin && admin_missing
                ==> answer == Some(CallError::MissingAuth(s.admin->0))
            &&& !frozen && !no_admin && !admin_missing && no_oracle
                ==> answer == refusal(ContractError::OracleNotSet)
            &&& !frozen && !no_admin && !admin_missing && !no_oracle && oracle_missing
                ==> answer == Some(CallError::MissingAuth(s.oracle->0))
            &&& !frozen && !no_admin && !admin_missing && !no_oracle && !oracle_missing
                && negative ==> answer == refusal(ContractError::InvalidAmount)
        }),
{
}

/// A batch of use is recorded by the administrator, for at most 50 meters, where there is an
/// oracle.
pub proof fn law_batch_usage_is_let_in(s: Grid, env: Invocation, n: nat)
    ensures
        ({
            let answer = batch_usage_refusal(s, env, n);
            let frozen = s.frozen;
            let no_admin = s.admin is None;
            let admin_missing = s.admin is Some && !env.signers@.contains(s.admin->0);
            let no_oracle = s.oracle is None;
            let too_many = n > 50;
            &&& answer is None <==> !frozen && !no_admin && !admin_missing && !no_oracle
                && !too_many
            &&& frozen ==> answer == refusal(ContractError::ContractFrozen)
            &&& !frozen && no_admin ==> answer == refusal(ContractError::NotInitialized)
            &&& !frozen && !no_admin && admin_missing
                ==> answer == Some(CallError::MissingAuth(s.admin->0))
            &&& !frozen && !no_admin && !admin_missing && no_oracle
                ==> answer == refusal(ContractError::OracleNotSet)
            &&& !frozen && !no_admin && !admin_missing && !no_oracle && too_many
                ==> answer == refusal(ContractError::BatchTooLarge)
        }),
{
}

/// The administrator may set any limit that is not negative on a meter that is there.
pub proof fn law_daily_limits_are_let_in(s: Grid, env: Invocation, id: Seq<u8>, limit: i128)
    ensures
        ({
            let answer = daily_limit_refusal(s, env, id, limit);
            let no_admin = s.admin is None;
            let admin_missing = s.admin is Some && !env.signers@.contains(s.admin->0);
            let negative = limit < 0;
            let unknown = !s.meters.contains_key(id);
            &&& answer is None <==> !no_admin && !admin_missing && !negative && !unknown
            &&& no_admin ==> answer == refusal(ContractError::NotInitialized)
            &&& !no_admin && admin_missing ==> answer == Some(CallError::MissingAuth(s.admin->0))
            &&& !no_admin && !admin_missing && negative
                ==> answer == refusal(ContractError::InvalidAmount)
            &&& !no_admin && !admin_missing && !negative && unknown
                ==> answer == refusal(ContractError::MeterNotFound)
        }),
{
}

/// An update of a batch is applied to a meter in the current layout whose charge is not refused;
/// any other is skipped and announced as such, behind a limit that it hit.
pub proof fn law_batch_updates_are_applied_or_skipped(
    s: Grid,
    now: u64,
    id: Seq<u8>,
    units: u64,
    cost: i128,
)
    ensures
        ({
            let (t, applied) = usage_stepped(s, now, id, units, cost);
            let known = s.meters.contains_key(id) && s.meters[id] is Current;
            let m = s.meters[id]->Current_0;
            let skipped = Event::BatchSkipped { meter_id: id };
            &&& applied <==> known && charge_refusal(m, cost, now) is None
            &&& applied ==> t == usage_applied(s, id, m, units, cost, now)
            &&& !applied && !known ==> t.events == s.events.push(skipped)
            &&& !applied && known ==> t.events == charge_reported(
                s,
                id,
                m,
                cost,
                now,
            ).events.push(skipped)
            &&& !applied ==> t == (Grid { events: t.events, ..s })
        }),
{
}

/// A batch of two parts applies the first and then the second, and names the failed in that order.
pub proof fn law_batch_usage_goes_in_order(
    s: Grid,
    now: u64,
    first: Seq<(Seq<u8>, u64, i128)>,
    second: Seq<(Seq<u8>, u64, i128)>,
)
    ensures
        ({
            let (between, failed) = batch_used(s, now, first);
            let (after, more) = batch_used(between, now, second);
            batch_used(s, now, first + second) == (after, failed + more)
        }),
        batch_used(s, now, Seq::empty()) == (s, Seq::<Seq<u8>>::empty()),
    decreases second.len(),
{
    let (between, failed) = batch_used(s, now, first);
    let (after, more) = batch_used(between, now, second);
    if second.len() == 0 {
        assert(first + second =~= first);
        assert(failed + more =~= failed);
    } else {
        law_batch_usage_goes_in_order(s, now, first, second.drop_last());
        assert((first + second).drop_last() =~= first + second.drop_last());
        assert((first + second).last() == second.last());
        let (before, most) = batch_used(between, now, second.drop_last());
        assert(more == most || more == most.push(second.last().0));
        assert((failed + most).push(second.last().0) =~= failed + most.push(second.last().0));
    }
}

/// A batch of one update is that update; its meter is named as failed where it was skipped.
pub proof fn law_batch_of_one_is_one_update(
    s: Grid,
    now: u64,
    id: Seq<u8>,
    units: u64,
    cost: i128,
)
    ensures
        ({
            let (t, failed) = batch_used(s, now, seq![(id, units, cost)]);
            let (after, applied) = usage_stepped(s, now, id, units, cost);
            &&& t == after
            &&& applied ==> failed.len() == 0
            &&& !applied ==> failed == seq![id]
        }),
{
    reveal_with_fuel(batch_used, 2);
    assert(seq![(id, units, cost)].drop_last() =~= Seq::<(Seq<u8>, u64, i128)>::empty());
    assert(Seq::<Seq<u8>>::empty().push(id) =~= seq![id]);
}

/// A meter gives access while it is on and not expired, and has a balance or a grace period that
/// is running; the grace period's end is told wherever there is no balance.
pub proof fn law_access_is_for_running_meters(m: MeterModel, balance: i128, now: u64)
    ensures
        ({
            let access = access_of(m, balance, now);
            let running = m.active && now < m.expires_at;
            let grace = m.grace_expires_at is Some && now < m.grace_expires_at->0;
            &&& access.has_access <==> running && (balance > 0 || grace)
            &&& access.in_grace_period <==> running && balance <= 0 && grace
            &&& running && balance <= 0 ==> access.grace_expires_at == m.grace_expires_at
            &&& !(running && balance <= 0) ==> access.grace_expires_at is None
        }),
{
}

/// Setting a daily limit replaces it, on that meter only, and announces the limits before and
/// after.
pub proof fn law_daily_limit_is_replaced(s: Grid, id: Seq<u8>, limit: i128)
    requires
        s.meters.contains_key(id),
    ensures
        ({
            let t = daily_limit_set(s, id, limit);
            let before = meter_of(s, id)->0;
            let after = meter_of(t, id)->0;
            &&& after.daily_limit == limit
            &&& after == (Meter { daily_limit: after.daily_limit, ..before })
            &&& t.meters == s.meters.insert(id, StoredMeter::Current(after))
            &&& t.events == s.events.push(
                Event::DailyLimitSet { meter_id: id, old_limit: before.daily_limit, limit },
            )
            &&& t == (Grid { meters: t.meters, events: t.events, ..s })
        }),
{
}

} // verus!

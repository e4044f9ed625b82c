//! Charging meters for the energy they use, and whether they deliver any.

use vstd::prelude::*;

use crate::events::Event;
use crate::lists::{amount_at, push_text, read_amount};
use crate::meters::read_of;
use crate::state::{
    admin_refusal, auth_refusal, current_meter, lift, meter_of, meter_settled, published, refusal,
    refuse, with_meter, Grid, Invocation, SolarGridContract, SECONDS_PER_DAY,
};
use crate::types::{
    AccessStatus, CallError, ContractError, Metadata, Meter, MeterModel, StoredMeter,
};
use crate::values::{add_clamped, clamp, drain, drained, Text};

verus! {

/// The grace period that is reported when none was configured: two hours.
pub const DEFAULT_GRACE_PERIOD: u64 = 7_200;

/// The most updates that one call applies.
pub const MAX_USAGE_BATCH: usize = 50;

/// The meter with its day window as it stands at `now`: a window older than a day starts anew.
pub open spec fn day_rolled(m: MeterModel, now: u64) -> MeterModel {
    if now.saturating_sub(m.day_start) > SECONDS_PER_DAY {
        Meter { day_spent: 0, day_start: now, ..m }
    } else {
        m
    }
}

/// Whether charging `cost` at `now` would take the meter over its daily limit.
pub open spec fn over_limit(m: MeterModel, cost: i128, now: u64) -> bool {
    m.daily_limit > 0 && clamp(day_rolled(m, now).day_spent + cost) > m.daily_limit
}

/// Why charging the meter is refused, if it is.
pub open spec fn charge_refusal(m: MeterModel, cost: i128, now: u64) -> Option<ContractError> {
    if !m.active {
        Some(ContractError::MeterNotActive)
    } else if over_limit(m, cost, now) {
        Some(ContractError::DailyLimitReached)
    } else {
        None
    }
}

/// The grace period a meter gets when its balance runs out; none unless one was configured.
pub open spec fn grace_granted(s: Grid) -> u64 {
    match s.grace_period {
        Some(period) => period,
        None => 0,
    }
}

/// The grace period that is reported: the one that was configured, or two hours.
pub open spec fn grace_reported(s: Grid) -> u64 {
    match s.grace_period {
        Some(period) => period,
        None => DEFAULT_GRACE_PERIOD,
    }
}

/// The state once a grace period is configured.
pub open spec fn grace_set(s: Grid, period: u64) -> Grid {
    Grid { grace_period: Some(period), ..s }
}

/// The meter once `units` at `cost` are charged to it and `left` of its balance is left.
///
/// A meter without balance is off, unless it is granted a grace period, which starts when the
/// balance first runs out and is not prolonged.
pub open spec fn charged(
    m: MeterModel,
    left: i128,
    units: u64,
    cost: i128,
    grace: u64,
    now: u64,
) -> MeterModel {
    let day = day_rolled(m, now);
    let used = Meter {
        day_spent: clamp(day.day_spent + cost),
        units_used: m.units_used.saturating_add(units),
        ..day
    };
    if left != 0 {
        Meter { grace_expires_at: None, ..used }
    } else if grace == 0 {
        Meter { active: false, grace_expires_at: None, ..used }
    } else {
        match m.grace_expires_at {
            None => Meter { grace_expires_at: Some(now.saturating_add(grace)), ..used },
            Some(end) => Meter { active: now < end, ..used },
        }
    }
}

/// What is left of the meter's balance once `cost` is taken from it.
pub open spec fn balance_left(s: Grid, id: Seq<u8>, cost: i128) -> i128 {
    drained(amount_at(s.balances, id), cost)
}

/// The state once `m`, the meter under `id`, is charged.
pub open spec fn usage_applied(
    s: Grid,
    id: Seq<u8>,
    m: MeterModel,
    units: u64,
    cost: i128,
    now: u64,
) -> Grid {
    let left = balance_left(s, id, cost);
    let after = charged(m, left, units, cost, grace_granted(s), now);
    let events = s.events.push(Event::UsageUpdated { meter_id: id, units, cost });
    Grid {
        meters: s.meters.insert(id, StoredMeter::Current(after)),
        balances: s.balances.insert(id, left),
        events: if after.active {
            events
        } else {
            events.push(Event::MeterDeactivated { meter_id: id })
        },
        ..s
    }
}

/// The state once a refused charge of `m`, the meter under `id`, is reported: a charge over the
/// daily limit is published.
pub open spec fn charge_reported(
    s: Grid,
    id: Seq<u8>,
    m: MeterModel,
    cost: i128,
    now: u64,
) -> Grid {
    if charge_refusal(m, cost, now) == Some(ContractError::DailyLimitReached) {
        published(
            s,
            Event::LimitHit {
                meter_id: id,
                daily_limit: m.daily_limit,
                day_spent: day_rolled(m, now).day_spent,
                cost,
            },
        )
    } else {
        s
    }
}

/// Why a usage update is refused before the meter is looked at, if it is.
pub open spec fn usage_refusal(s: Grid, env: Invocation, cost: i128) -> Option<CallError> {
    if s.frozen {
        refusal(ContractError::ContractFrozen)
    } else if admin_refusal(s, env) is Some {
        admin_refusal(s, env)
    } else if s.oracle is None {
        refusal(ContractError::OracleNotSet)
    } else if auth_refusal(env, s.oracle->0) is Some {
        auth_refusal(env, s.oracle->0)
    } else if cost < 0 {
        refusal(ContractError::InvalidAmount)
    } else {
        None
    }
}

/// Why a batch of `n` usage updates is refused, if it is.
pub open spec fn batch_usage_refusal(s: Grid, env: Invocation, n: nat) -> Option<CallError> {
    if s.frozen {
        refusal(ContractError::ContractFrozen)
    } else if admin_refusal(s, env) is Some {
        admin_refusal(s, env)
    } else if s.oracle is None {
        refusal(ContractError::OracleNotSet)
    } else if n > MAX_USAGE_BATCH {
        refusal(ContractError::BatchTooLarge)
    } else {
        None
    }
}

/// The state once one update of a batch was gone through, and whether it was applied.
pub open spec fn usage_stepped(
    s: Grid,
    now: u64,
    id: Seq<u8>,
    units: u64,
    cost: i128,
) -> (Grid, bool) {
    let skipped = Event::BatchSkipped { meter_id: id };
    match current_meter(s, id) {
        None => (published(s, skipped), false),
        Some(m) => if charge_refusal(m, cost, now) is Some {
            (published(charge_reported(s, id, m, cost, now), skipped), false)
        } else {
            (usage_applied(s, id, m, units, cost, now), true)
        },
    }
}

/// The state once a batch of updates was gone through in order, and the ids of those that were
/// not applied.
pub open spec fn batch_used(s: Grid, now: u64, updates: Seq<(Seq<u8>, u64, i128)>) -> (
    Grid,
    Seq<Seq<u8>>,
)
    decreases updates.len(),
{
    if updates.len() == 0 {
        (s, Seq::empty())
    } else {
        let (before, failed) = batch_used(s, now, updates.drop_last());
        let (id, units, cost) = updates.last();
        let (after, applied) = usage_stepped(before, now, id, units, cost);
        (
            after,
            if applied {
                failed
            } else {
                failed.push(id)
            },
        )
    }
}

/// Whether a meter with `balance` delivers energy at `now`: it must be on and paid up, and have a
/// balance or be in its grace period.
pub open spec fn access_of(m: MeterModel, balance: i128, now: u64) -> AccessStatus {
    let denied = AccessStatus { has_access: false, in_grace_period: false, grace_expires_at: None };
    if !m.active || now >= m.expires_at {
        denied
    } else if balance > 0 {
        AccessStatus { has_access: true, ..denied }
    } else {
        match m.grace_expires_at {
            None => denied,
            Some(end) => AccessStatus {
                has_access: now < end,
                in_grace_period: now < end,
                grace_expires_at: Some(end),
            },
        }
    }
}

/// Why a change of a meter's daily limit is refused, if it is.
pub open spec fn daily_limit_refusal(
    s: Grid,
    env: Invocation,
    id: Seq<u8>,
    limit: i128,
) -> Option<CallError> {
    if admin_refusal(s, env) is Some {
        admin_refusal(s, env)
    } else if limit < 0 {
        refusal(ContractError::InvalidAmount)
    } else if meter_of(s, id) is None {
        refusal(ContractError::MeterNotFound)
    } else {
        None
    }
}

/// The state once a meter's daily limit is changed.
pub open spec fn daily_limit_set(s: Grid, id: Seq<u8>, limit: i128) -> Grid {
    let meter = meter_of(s, id)->0;
    published(
        with_meter(s, id, Meter { daily_limit: limit, ..meter }),
        Event::DailyLimitSet { meter_id: id, old_limit: meter.daily_limit, limit },
    )
}

impl SolarGridContract {
    /// Charges `meter`, the meter under `meter_id`, and says whether that switched it off. A
    /// charge that is refused changes nothing but may publish that the daily limit was hit.
    fn apply_usage(
        &mut self,
        meter_id: &Text,
        meter: &mut Meter<Metadata>,
        units: u64,
        cost: i128,
        now: u64,
    ) -> (r: Result<bool, ContractError>)
        ensures
            match charge_refusal(old(meter).deep_view(), cost, now) {
                Some(e) => {
                    &&& r == Err::<bool, ContractError>(e)
                    &&& final(meter).deep_view() == old(meter).deep_view()
                    &&& final(self)@ == charge_reported(
                        old(self)@,
                        meter_id@,
                        old(meter).deep_view(),
                        cost,
                        now,
                    )
                },
                None => {
                    let left = balance_left(old(self)@, meter_id@, cost);
                    &&& r == Ok::<bool, ContractError>(!final(meter).active)
                    &&& final(meter).deep_view() == charged(
                        old(meter).deep_view(),
                        left,
                        units,
                        cost,
                        grace_granted(old(self)@),
                        now,
                    )
                    &&& final(self)@ == (Grid {
                        balances: old(self)@.balances.insert(meter_id@, left),
                        ..old(self)@
                    })
                },
            },
    {
        if !meter.active {
            return Err(ContractError::MeterNotActive);
        }
        let stale: bool = now.saturating_sub(meter.day_start) > SECONDS_PER_DAY;
        let day_spent: i128 = if stale {
            0
        } else {
            meter.day_spent
        };
        let spent: i128 = add_clamped(day_spent, cost);
        if meter.daily_limit > 0 && spent > meter.daily_limit {
            self.publish(
                Event::LimitHit {
                    meter_id: meter_id.clone(),
                    daily_limit: meter.daily_limit,
                    day_spent,
                    cost,
                },
            );
            return Err(ContractError::DailyLimitReached);
        }
        if stale {
            meter.day_start = now;
        }
        meter.day_spent = spent;

        let left: i128 = drain(read_amount(&self.balances, meter_id), cost);
        self.balances.set(meter_id.clone(), left);
        meter.units_used = meter.units_used.saturating_add(units);

        if left != 0 {
            meter.grace_expires_at = None;
            return Ok(false);
        }
        let grace: u64 = match self.grace_period {
            Some(period) => period,
            None => 0,
        };
        if grace == 0 {
            meter.active = false;
            meter.grace_expires_at = None;
            return Ok(true);
        }
        match meter.grace_expires_at {
            None => {
                meter.grace_expires_at = Some(now.saturating_add(grace));
                Ok(false)
            },
            Some(end) => {
                if now >= end {
                    meter.active = false;
                    Ok(true)
                } else {
                    Ok(false)
                }
            },
        }
    }

    /// Stores a charged meter and publishes the charge.
    fn record_usage(
        &mut self,
        meter_id: &Text,
        meter: Meter<Metadata>,
        units: u64,
        cost: i128,
        deactivated: bool,
    )
        ensures
            final(self)@ == (Grid {
                meters: old(self)@.meters.insert(
                    meter_id@,
                    StoredMeter::Current(meter.deep_view()),
                ),
                events: if deactivated {
                    old(self)@.events.push(
                        Event::UsageUpdated { meter_id: meter_id@, units, cost },
                    ).push(Event::MeterDeactivated { meter_id: meter_id@ })
                } else {
                    old(self)@.events.push(Event::UsageUpdated { meter_id: meter_id@, units, cost })
                },
                ..old(self)@
            }),
    {
        self.put_meter(meter_id, meter);
        self.publish(Event::UsageUpdated { meter_id: meter_id.clone(), units, cost });
        if deactivated {
            self.publish(Event::MeterDeactivated { meter_id: meter_id.clone() });
        }
    }

    /// Records that a meter used `units`, in thousandths of a kWh, and takes `cost` from its
    /// balance. The administrator and the oracle must both agree.
    pub fn update_usage(
        &mut self,
        env: &Invocation,
        meter_id: &Text,
        units: u64,
        cost: i128,
    ) -> (r: Result<(), CallError>)
        ensures
            match usage_refusal(old(self)@, *env, cost) {
                Some(e) => r == Err::<(), CallError>(e) && final(self)@ == old(self)@,
                None => match meter_of(old(self)@, meter_id@) {
                    None => r == Err::<(), CallError>(
                        CallError::Contract(ContractError::MeterNotFound),
                    ) && final(self)@ == old(self)@,
                    Some(m) => match charge_refusal(m, cost, env.now) {
                        Some(e) => {
                            &&& r == Err::<(), CallError>(CallError::Contract(e))
                            &&& final(self)@ == charge_reported(
                                old(self)@,
                                meter_id@,
                                m,
                                cost,
                                env.now,
                            )
                        },
                        None => r is Ok && final(self)@ == usage_applied(
                            old(self)@,
                            meter_id@,
                            m,
                            units,
                            cost,
                            env.now,
                        ),
                    },
                },
            },
    {
        if self.frozen {
            return refuse(ContractError::ContractFrozen);
        }
        self.require_admin(env)?;
        match self.oracle {
            Some(oracle) => env.require_auth(oracle)?,
            None => {
                return refuse(ContractError::OracleNotSet);
            },
        }
        if cost < 0 {
            return refuse(ContractError::InvalidAmount);
        }
        let mut meter = self.find_meter(meter_id)?;
        let outcome = self.apply_usage(meter_id, &mut meter, units, cost, env.now);
        let deactivated: bool = lift(outcome)?;
        self.record_usage(meter_id, meter, units, cost, deactivated);
        Ok(())
    }

    /// Records the energy use of several meters. Updates that cannot be applied are skipped with
    /// an event, and their ids are returned. Only the administrator may do so, and only while
    /// there is an oracle.
    pub fn batch_update_usage(
        &mut self,
        env: &Invocation,
        updates: &Vec<(Text, u64, i128)>,
    ) -> (r: Result<Vec<Text>, CallError>)
        ensures
            match batch_usage_refusal(old(self)@, *env, updates@.len()) {
                Some(e) => r == Err::<Vec<Text>, CallError>(e) && final(self)@ == old(self)@,
                None => r is Ok && (final(self)@, r->Ok_0.deep_view()) == batch_used(
                    old(self)@,
                    env.now,
                    updates.deep_view(),
                ),
            },
    {
        if self.frozen {
            return refuse(ContractError::ContractFrozen);
        }
        self.require_admin(env)?;
        if self.oracle.is_none() {
            return refuse(ContractError::OracleNotSet);
        }
        if updates.len() > MAX_USAGE_BATCH {
            return refuse(ContractError::BatchTooLarge);
        }
        let ghost all = updates.deep_view();
        let mut failed: Vec<Text> = Vec::new();
        let mut i: usize = 0;
        assert(all.take(0) =~= Seq::empty());
        assert(failed.deep_view() =~= Seq::empty());
        while i < updates.len()
            invariant
                i <= updates@.len(),
                all == updates.deep_view(),
                (self@, failed.deep_view()) == batch_used(old(self)@, env.now, all.take(i as int)),
            decreases updates@.len() - i,
        {
            let (meter_id, units, cost) = (&updates[i].0, updates[i].1, updates[i].2);
            proof {
                assert(all.take(i + 1).drop_last() =~= all.take(i as int));
                assert(all.take(i + 1).last() == (meter_id@, units, cost));
            }
            let applied: bool = self.step_usage(meter_id, units, cost, env.now);
            if !applied {
                push_text(&mut failed, meter_id.clone());
            }
            i = i + 1;
        }
        assert(all.take(all.len() as int) =~= all);
        Ok(failed)
    }

    /// Goes through one update of a batch and says whether it was applied.
    fn step_usage(&mut self, meter_id: &Text, units: u64, cost: i128, now: u64) -> (r: bool)
        ensures
            (final(self)@, r) == usage_stepped(old(self)@, now, meter_id@, units, cost),
    {
        let mut meter = match self.meters.get(meter_id) {
            Some(StoredMeter::Current(meter)) => meter.clone(),
            _ => {
                self.publish(Event::BatchSkipped { meter_id: meter_id.clone() });
                return false;
            },
        };
        match self.apply_usage(meter_id, &mut meter, units, cost, now) {
            Ok(deactivated) => {
                self.record_usage(meter_id, meter, units, cost, deactivated);
                true
            },
            Err(_) => {
                self.publish(Event::BatchSkipped { meter_id: meter_id.clone() });
                false
            },
        }
    }

    /// Sets the grace period, in seconds. Only the administrator may do so.
    pub fn set_grace_period(&mut self, env: &Invocation, period: u64) -> (r: Result<(), CallError>)
        ensures
            match admin_refusal(old(self)@, *env) {
                Some(e) => r == Err::<(), CallError>(e) && final(self)@ == old(self)@,
                None => r is Ok && final(self)@ == grace_set(old(self)@, period),
            },
    {
        self.require_admin(env)?;
        self.grace_period = Some(period);
        Ok(())
    }

    /// The grace period, in seconds; two hours if none was configured.
    pub fn get_grace_period(&self) -> (r: u64)
        ensures
            r == grace_reported(self@),
    {
        match self.grace_period {
            Some(period) => period,
            None => DEFAULT_GRACE_PERIOD,
        }
    }

    /// Whether a meter delivers energy, with the details of a running grace period. An entry in
    /// an older layout is rewritten in the current one.
    pub fn check_access_status(&mut self, env: &Invocation, meter_id: &Text) -> (r: Result<
        AccessStatus,
        ContractError,
    >)
        ensures
            read_of(
                r,
                old(self)@,
                meter_id@,
                |v: AccessStatus, m: MeterModel|
                    v == access_of(m, amount_at(old(self)@.balances, meter_id@), env.now),
            ),
            final(self)@ == meter_settled(old(self)@, meter_id@),
    {
        let meter = self.get_meter_or_error(meter_id)?;
        let balance: i128 = read_amount(&self.balances, meter_id);
        let denied = AccessStatus {
            has_access: false,
            in_grace_period: false,
            grace_expires_at: None,
        };
        if !meter.active || env.now >= meter.expires_at {
            return Ok(denied);
        }
        if balance > 0 {
            return Ok(
                AccessStatus { has_access: true, in_grace_period: false, grace_expires_at: None },
            );
        }
        match meter.grace_expires_at {
            None => Ok(denied),
            Some(end) => Ok(
                AccessStatus {
                    has_access: env.now < end,
                    in_grace_period: env.now < end,
                    grace_expires_at: Some(end),
                },
            ),
        }
    }

    /// Whether a meter delivers energy. An entry in an older layout is rewritten in the current
    /// one.
    pub fn check_access(&mut self, env: &Invocation, meter_id: &Text) -> (r: Result<
        bool,
        ContractError,
    >)
        ensures
            read_of(
                r,
                old(self)@,
                meter_id@,
                |v: bool, m: MeterModel|
                    v == access_of(
                        m,
                        amount_at(old(self)@.balances, meter_id@),
                        env.now,
                    ).has_access,
            ),
            final(self)@ == meter_settled(old(self)@, meter_id@),
    {
        let status = self.check_access_status(env, meter_id)?;
        Ok(status.has_access)
    }

    /// Sets the most that may be charged to a meter per day; 0 means no limit. Only the
    /// administrator may do so.
    pub fn set_daily_limit(&mut self, env: &Invocation, meter_id: &Text, limit: i128) -> (r:
        Result<(), CallError>)
        ensures
            match daily_limit_refusal(old(self)@, *env, meter_id@, limit) {
                Some(e) => r == Err::<(), CallError>(e) && final(self)@ == old(self)@,
                None => r is Ok && final(self)@ == daily_limit_set(old(self)@, meter_id@, limit),
            },
    {
        self.require_admin(env)?;
        if limit < 0 {
            return refuse(ContractError::InvalidAmount);
        }
        let mut meter = self.find_meter(meter_id)?;
        let old_limit: i128 = meter.daily_limit;
        meter.daily_limit = limit;
        self.put_meter(meter_id, meter);
        self.publish(Event::DailyLimitSet { meter_id: meter_id.clone(), old_limit, limit });
        Ok(())
    }
}

} // verus!

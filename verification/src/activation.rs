//! Switching meters on and off by hand, one at a time or many at once, and expiring them.

use vstd::prelude::*;
use vstd::string::StringSliceAdditionalSpecFns;

use crate::events::Event;
use crate::lists::{amount_at, read_amount};
use crate::state::{
    admin_refusal, current_meter, meter_of, published, refusal, refuse, with_meter, Grid,
    Invocation, SolarGridContract,
};
use crate::types::{
    BatchDeactivateResult, BatchDeactivateSummary, CallError, ContractError, Meter, StoredMeter,
};
use crate::values::Text;

verus! {

/// The most meters that one call deactivates.
pub const MAX_DEACTIVATE_BATCH: usize = 50;

/// Why switching a meter by hand is refused, if it is. A meter without balance cannot be switched
/// on.
pub open spec fn switch_refusal(
    s: Grid,
    env: Invocation,
    id: Seq<u8>,
    active: bool,
) -> Option<CallError> {
    if admin_refusal(s, env) is Some {
        admin_refusal(s, env)
    } else if meter_of(s, id) is None {
        refusal(ContractError::MeterNotFound)
    } else if active && amount_at(s.balances, id) == 0 {
        refusal(ContractError::CannotActivateWithoutBalance)
    } else {
        None
    }
}

/// The state once a meter is switched by hand.
pub open spec fn switched(s: Grid, id: Seq<u8>, active: bool) -> Grid {
    published(
        with_meter(s, id, Meter { active, ..meter_of(s, id)->0 }),
        if active {
            Event::MeterActivated { meter_id: id }
        } else {
            Event::MeterDeactivated { meter_id: id }
        },
    )
}

/// Why a batch of `n` deactivations is refused, if it is.
pub open spec fn batch_deactivate_refusal(s: Grid, env: Invocation, n: nat) -> Option<CallError> {
    if admin_refusal(s, env) is Some {
        admin_refusal(s, env)
    } else if n > MAX_DEACTIVATE_BATCH {
        refusal(ContractError::BatchTooLarge)
    } else {
        None
    }
}

/// The state once one meter of a batch was gone through, and what is reported of it.
pub open spec fn deactivation_stepped(s: Grid, id: Seq<u8>) -> (
    Grid,
    BatchDeactivateResult<Seq<u8>>,
) {
    let skipped = Event::BatchSkipped { meter_id: id };
    match current_meter(s, id) {
        None => (
            published(s, skipped),
            BatchDeactivateResult {
                meter_id: id,
                success: false,
                reason: "not_found".spec_bytes(),
            },
        ),
        Some(m) => if m.active {
            (
                published(
                    with_meter(s, id, Meter { active: false, ..m }),
                    Event::MeterDeactivated { meter_id: id },
                ),
                BatchDeactivateResult { meter_id: id, success: true, reason: "ok".spec_bytes() },
            )
        } else {
            (
                published(s, skipped),
                BatchDeactivateResult {
                    meter_id: id,
                    success: false,
                    reason: "inactive".spec_bytes(),
                },
            )
        },
    }
}

/// The state once a batch of meters was gone through in order, and what is reported of each.
pub open spec fn batch_deactivated(s: Grid, ids: Seq<Seq<u8>>) -> (
    Grid,
    Seq<BatchDeactivateResult<Seq<u8>>>,
)
    decreases ids.len(),
{
    if ids.len() == 0 {
        (s, Seq::empty())
    } else {
        let (before, results) = batch_deactivated(s, ids.drop_last());
        let (after, result) = deactivation_stepped(before, ids.last());
        (after, results.push(result))
    }
}

/// How many meters a batch deactivated.
pub open spec fn successes(results: Seq<BatchDeactivateResult<Seq<u8>>>) -> nat
    decreases results.len(),
{
    if results.len() == 0 {
        0
    } else {
        successes(results.drop_last()) + if results.last().success {
            1nat
        } else {
            0nat
        }
    }
}

/// Why expiring a meter early is refused, if it is.
pub open spec fn expire_refusal(s: Grid, env: Invocation, id: Seq<u8>) -> Option<CallError> {
    if admin_refusal(s, env) is Some {
        admin_refusal(s, env)
    } else if current_meter(s, id) is None {
        refusal(ContractError::MeterNotFound)
    } else {
        None
    }
}

/// The state once a meter is expired at `now`.
pub open spec fn expired(s: Grid, id: Seq<u8>, now: u64) -> Grid {
    published(
        with_meter(s, id, Meter { expires_at: now, active: false, ..current_meter(s, id)->0 }),
        Event::MeterExpired { meter_id: id },
    )
}

impl SolarGridContract {
    /// Switches a meter on or off by hand. Only the administrator may do so, and a meter without
    /// balance cannot be switched on.
    pub fn set_active(&mut self, env: &Invocation, meter_id: &Text, active: bool) -> (r: Result<
        (),
        CallError,
    >)
        ensures
            match switch_refusal(old(self)@, *env, meter_id@, active) {
                Some(e) => r == Err::<(), CallError>(e) && final(self)@ == old(self)@,
                None => r is Ok && final(self)@ == switched(old(self)@, meter_id@, active),
            },
    {
        self.require_admin(env)?;
        let mut meter = self.find_meter(meter_id)?;
        if active && read_amount(&self.balances, meter_id) == 0 {
            return refuse(ContractError::CannotActivateWithoutBalance);
        }
        meter.active = active;
        self.put_meter(meter_id, meter);
        if active {
            self.publish(Event::MeterActivated { meter_id: meter_id.clone() });
        } else {
            self.publish(Event::MeterDeactivated { meter_id: meter_id.clone() });
        }
        Ok(())
    }

    /// Switches a meter off. Only the administrator may do so.
    pub fn deactivate_meter(&mut self, env: &Invocation, meter_id: &Text) -> (r: Result<
        (),
        CallError,
    >)
        ensures
            match switch_refusal(old(self)@, *env, meter_id@, false) {
                Some(e) => r == Err::<(), CallError>(e) && final(self)@ == old(self)@,
                None => r is Ok && final(self)@ == switched(old(self)@, meter_id@, false),
            },
    {
        self.require_admin(env)?;
        let mut meter = self.find_meter(meter_id)?;
        meter.active = false;
        self.put_meter(meter_id, meter);
        self.publish(Event::MeterDeactivated { meter_id: meter_id.clone() });
        Ok(())
    }

    /// Goes through one meter of a batch and reports what became of it.
    fn step_deactivation(&mut self, meter_id: &Text) -> (r: BatchDeactivateResult<Text>)
        ensures
            (final(self)@, r.deep_view()) == deactivation_stepped(old(self)@, meter_id@),
    {
        let mut meter = match self.meters.get(meter_id) {
            Some(StoredMeter::Current(meter)) => meter.clone(),
            _ => {
                self.publish(Event::BatchSkipped { meter_id: meter_id.clone() });
                return BatchDeactivateResult {
                    meter_id: meter_id.clone(),
                    success: false,
                    reason: Text::new("not_found"),
                };
            },
        };
        if !meter.active {
            self.publish(Event::BatchSkipped { meter_id: meter_id.clone() });
            return BatchDeactivateResult {
                meter_id: meter_id.clone(),
                success: false,
                reason: Text::new("inactive"),
            };
        }
        meter.active = false;
        self.put_meter(meter_id, meter);
        self.publish(Event::MeterDeactivated { meter_id: meter_id.clone() });
        BatchDeactivateResult {
            meter_id: meter_id.clone(),
            success: true,
            reason: Text::new("ok"),
        }
    }

    /// Switches several meters off. Meters that are unknown or off already are skipped with an
    /// event. Only the administrator may do so.
    pub fn batch_deactivate_meters(&mut self, env: &Invocation, meter_ids: &Vec<Text>) -> (r:
        Result<BatchDeactivateSummary, CallError>)
        ensures
            match batch_deactivate_refusal(old(self)@, *env, meter_ids@.len()) {
                Some(e) => r == Err::<BatchDeactivateSummary, CallError>(e) && final(self)@
                    == old(self)@,
                None => {
                    let (after, results) = batch_deactivated(old(self)@, meter_ids.deep_view());
                    &&& r is Ok
                    &&& final(self)@ == after
                    &&& r->Ok_0.results.deep_view() == results
                    &&& r->Ok_0.total == meter_ids@.len()
                    &&& r->Ok_0.deactivated == successes(results)
                    &&& r->Ok_0.skipped == meter_ids@.len() - successes(results)
                },
            },
    {
        self.require_admin(env)?;
        if meter_ids.len() > MAX_DEACTIVATE_BATCH {
            return refuse(ContractError::BatchTooLarge);
        }
        let ghost ids = meter_ids.deep_view();
        let mut results: Vec<BatchDeactivateResult<Text>> = Vec::new();
        let mut deactivated: u32 = 0;
        let mut skipped: u32 = 0;
        let mut i: usize = 0;
        assert(ids.take(0) =~= Seq::empty());
        assert(results.deep_view() =~= Seq::empty());
        while i < meter_ids.len()
            invariant
                i <= meter_ids@.len() <= MAX_DEACTIVATE_BATCH,
                ids == meter_ids.deep_view(),
                (self@, results.deep_view()) == batch_deactivated(old(self)@, ids.take(i as int)),
                results@.len() == i,
                deactivated == successes(results.deep_view()),
                deactivated + skipped == i,
            decreases meter_ids@.len() - i,
        {
            let meter_id: &Text = &meter_ids[i];
            proof {
                assert(ids.take(i + 1).drop_last() =~= ids.take(i as int));
                assert(ids.take(i + 1).last() == meter_id@);
            }
            let result = self.step_deactivation(meter_id);
            if result.success {
                deactivated = deactivated + 1;
            } else {
                skipped = skipped + 1;
            }
            let ghost before = results.deep_view();
            results.push(result);
            proof {
                assert(results.deep_view() =~= before.push(result.deep_view()));
                assert(results.deep_view().drop_last() =~= before);
            }
            i = i + 1;
        }
        assert(ids.take(ids.len() as int) =~= ids);
        Ok(
            BatchDeactivateSummary {
                total: meter_ids.len() as u32,
                deactivated,
                skipped,
                results,
            },
        )
    }

    /// Expires a meter before its time: it is off and its access ends now. Only the administrator
    /// may do so.
    pub fn expire_meter(&mut self, env: &Invocation, meter_id: &Text) -> (r: Result<(), CallError>)
        ensures
            match expire_refusal(old(self)@, *env, meter_id@) {
                Some(e) => r == Err::<(), CallError>(e) && final(self)@ == old(self)@,
                None => r is Ok && final(self)@ == expired(old(self)@, meter_id@, env.now),
            },
    {
        self.require_admin(env)?;
        let mut meter = match self.meters.get(meter_id) {
            Some(StoredMeter::Current(meter)) => meter.clone(),
            _ => {
                return refuse(ContractError::MeterNotFound);
            },
        };
        meter.expires_at = env.now;
        meter.active = false;
        self.put_meter(meter_id, meter);
        self.publish(Event::MeterExpired { meter_id: meter_id.clone() });
        Ok(())
    }
}

} // verus!

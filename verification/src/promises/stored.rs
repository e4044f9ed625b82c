//! What is stored, how it is read, and what the shared steps change of it.

use vstd::prelude::*;

use crate::events::{Event, EventModel};
use crate::migration::migrated;
use crate::state::{
    admin_refusal, auth_refusal, current_meter, fresh, lock_given_back, lock_taken, meter_of,
    meter_settled, pause_in_force, pause_settled, published, refusal, with_meter, Grid, Invocation,
    SolarGridContract,
};
use crate::types::{
    CallError, ContractError, LegacyMeter, LegacyMeterV1, LegacyMeterV2, LegacyMeterV3, Metadata,
    MetadataModel, Meter, MeterModel, StoredMeter,
};
use crate::values::Address;

verus! {

/// A contract that was just deployed holds nothing at all: nobody is in charge, nothing is
/// stopped, and nothing is recorded.
pub proof fn law_fresh_holds_nothing(
    id: Seq<u8>,
    who: Address,
    number: u32,
    now: u64,
    env: Invocation,
)
    ensures
        ({
            let s = fresh();
            &&& s.admin is None && s.token is None && s.version is None && s.oracle is None
            &&& s.allowlist.len() == 0 && s.meter_list.len() == 0 && s.collaborators.len() == 0
            &&& s.multisig_admins.len() == 0 && s.events.len() == 0
            &&& s.meter_count == 0 && s.proposal_count == 0 && s.multisig_threshold == 0
            &&& !s.frozen && !s.locked && !s.paused && s.paused_at == 0
            &&& s.grace_period is None && s.refund_limit == 0 && s.refund_window is None
            &&& !s.meters.contains_key(id) && !s.shares.contains_key(who)
            &&& !s.owner_meters.contains_key(who) && !s.ownership_history.contains_key(id)
            &&& !s.provider_revenue.contains_key(who) && !s.balances.contains_key(id)
            &&& !s.payer_paid.contains_key((id, who)) && !s.payer_refunded.contains_key((id, who))
            &&& !s.delegates.contains_key(id) && !s.proposals.contains_key(number)
        }),
{
}

/// The stored fields are read as they are.
pub proof fn law_contract_is_read_as_stored(c: SolarGridContract, i: int)
    ensures
        c@.admin == c.admin && c@.token == c.token && c@.oracle == c.oracle,
        c@.allowlist == c.allowlist@ && c@.collaborators == c.collaborators@,
        c@.multisig_admins == c.multisig_admins@,
        c@.multisig_threshold == c.multisig_threshold && c@.proposal_count == c.proposal_count,
        c@.meter_count == c.meter_count && c@.frozen == c.frozen && c@.locked == c.locked,
        c@.grace_period == c.grace_period && c@.refund_limit == c.refund_limit,
        c@.refund_window == c.refund_window && c@.paused == c.paused,
        c@.paused_at == c.paused_at && c@.shares == c.shares@ && c@.meters == c.meters@,
        c@.owner_meters == c.owner_meters@ && c@.ownership_history == c.ownership_history@,
        c@.provider_revenue == c.provider_revenue@ && c@.balances == c.balances@,
        c@.payer_paid == c.payer_paid@ && c@.payer_refunded == c.payer_refunded@,
        c@.delegates == c.delegates@ && c@.proposals == c.proposals@,
        c@.version is Some <==> c.version is Some,
        c.version is Some ==> c@.version->0 == c.version->0.bytes@,
        c@.meter_list.len() == c.meter_list@.len() && c@.events.len() == c.events@.len(),
        0 <= i < c.meter_list@.len() ==> c@.meter_list[i] == c.meter_list@[i].bytes@,
        0 <= i < c.events@.len() ==> c@.events[i] == c.events@[i].deep_view(),
{
}

/// The fields of a stored meter are read as they are, in whichever layout it was written.
pub proof fn law_meters_are_read_as_stored(
    m: Meter<Metadata>,
    m3: LegacyMeterV3,
    m2: LegacyMeterV2,
    m1: LegacyMeterV1,
    m0: LegacyMeter,
)
    ensures
        m.deep_view().version == m.version && m.deep_view().owner == m.owner,
        m.deep_view().active == m.active && m.deep_view().units_used == m.units_used,
        m.deep_view().plan == m.plan && m.deep_view().last_payment == m.last_payment,
        m.deep_view().expires_at == m.expires_at && m.deep_view().daily_limit == m.daily_limit,
        m.deep_view().day_spent == m.day_spent && m.deep_view().day_start == m.day_start,
        m.deep_view().grace_expires_at == m.grace_expires_at,
        m.deep_view().emergency_contact == m.emergency_contact,
        m.deep_view().metadata == m.metadata@,
        StoredMeter::Current(m).deep_view() == StoredMeter::Current(m.deep_view()),
        StoredMeter::<Metadata>::V3(m3).deep_view() == StoredMeter::<MetadataModel>::V3(m3),
        StoredMeter::<Metadata>::V2(m2).deep_view() == StoredMeter::<MetadataModel>::V2(m2),
        StoredMeter::<Metadata>::V1(m1).deep_view() == StoredMeter::<MetadataModel>::V1(m1),
        StoredMeter::<Metadata>::V0(m0).deep_view() == StoredMeter::<MetadataModel>::V0(m0),
{
}

/// A call is let through where the needed address is among those that authorised it, and
/// otherwise the answer says which address is missing.
pub proof fn law_missing_signatures_are_named(env: Invocation, who: Address)
    ensures
        env.signed(who) <==> exists|i: int| 0 <= i < env.signers@.len() && env.signers@[i] == who,
        auth_refusal(env, who) is None <==> env.signers@.contains(who),
        !env.signers@.contains(who) ==> auth_refusal(env, who) == Some(CallError::MissingAuth(who)),
{
}

/// The administrator's calls go through exactly in an initialised contract and with the
/// administrator's signature.
pub proof fn law_administrator_calls(s: Grid, env: Invocation)
    ensures
        ({
            let answer = admin_refusal(s, env);
            let no_admin = s.admin is None;
            let admin_missing = s.admin is Some && !env.signers@.contains(s.admin->0);
            &&& answer is None <==> !no_admin && !admin_missing
            &&& no_admin ==> answer == refusal(ContractError::NotInitialized)
            &&& !no_admin && admin_missing ==> answer == Some(CallError::MissingAuth(s.admin->0))
        }),
{
}

/// A pause is in force for 48 hours from when it was called, and no second longer.
pub proof fn law_pause_lasts_two_days(s: Grid, now: u64)
    ensures
        pause_in_force(s, now) <==> s.paused && now < s.paused_at + 172_800,
{
}

/// Only a pause that has run out is cleared; that is on record with its time, and nothing else
/// changes.
pub proof fn law_only_stale_pauses_are_cleared(s: Grid, now: u64)
    ensures
        ({
            let t = pause_settled(s, now);
            let stale = s.paused && now >= s.paused_at + 172_800;
            &&& !stale ==> t == s
            &&& stale ==> !t.paused && t.paused_at == 0
            &&& stale ==> t.events == s.events.push(Event::PauseExpired { at: now })
            &&& t == (Grid {
                paused: t.paused,
                paused_at: t.paused_at,
                events: t.events,
                ..s
            })
        }),
{
}

/// A meter is found under its id exactly where one is stored; one in the current layout is read as
/// it is, and only such a one counts as current.
pub proof fn law_meters_are_found_where_stored(s: Grid, id: Seq<u8>)
    ensures
        meter_of(s, id) is Some <==> s.meters.contains_key(id),
        s.meters.contains_key(id) && s.meters[id] is Current ==> meter_of(s, id) == Some(
            s.meters[id]->Current_0,
        ),
        s.meters.contains_key(id) ==> meter_of(s, id) == Some(migrated(s.meters[id])),
        current_meter(s, id) is Some <==> s.meters.contains_key(id) && s.meters[id] is Current,
        current_meter(s, id) is Some ==> current_meter(s, id)->0 == s.meters[id]->Current_0,
{
}

/// Storing a meter puts it under its id, in the current layout, and changes nothing else.
pub proof fn law_storing_touches_one_meter(s: Grid, id: Seq<u8>, m: MeterModel, other: Seq<u8>)
    ensures
        ({
            let t = with_meter(s, id, m);
            &&& meter_of(t, id) == Some(m)
            &&& t.meters.contains_key(id) && t.meters[id] == StoredMeter::Current(m)
            &&& other != id ==> (t.meters.contains_key(other) <==> s.meters.contains_key(other))
            &&& other != id && s.meters.contains_key(other) ==> t.meters[other] == s.meters[other]
            &&& t == (Grid { meters: t.meters, ..s })
        }),
{
}

/// Bringing an entry to the current layout changes neither what is read under any id nor anything
/// else.
pub proof fn law_settling_rewrites_one_entry(s: Grid, id: Seq<u8>, other: Seq<u8>)
    ensures
        ({
            let t = meter_settled(s, id);
            &&& meter_of(t, other) == meter_of(s, other)
            &&& s.meters.contains_key(id) ==> t.meters[id] is Current
            &&& other != id && s.meters.contains_key(other) ==> t.meters[other] == s.meters[other]
            &&& t == (Grid { meters: t.meters, ..s })
        }),
{
}

/// Publishing puts the event behind those published before, and changes nothing else.
pub proof fn law_publishing_adds_one_event(s: Grid, event: EventModel)
    ensures
        published(s, event).events == s.events.push(event),
        published(s, event) == (Grid { events: published(s, event).events, ..s }),
{
}

/// Taking the lock and giving it back change nothing but the lock.
pub proof fn law_lock_is_taken_and_given_back(s: Grid)
    ensures
        lock_taken(s).locked,
        !lock_given_back(s).locked,
        lock_taken(s) == (Grid { locked: lock_taken(s).locked, ..s }),
        lock_given_back(s) == (Grid { locked: lock_given_back(s).locked, ..s }),
        !s.locked ==> lock_given_back(lock_taken(s)) == s,
{
}

} // verus!

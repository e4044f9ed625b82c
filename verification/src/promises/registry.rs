//! How meters come onto the registry, change hands and leave it.

use vstd::prelude::*;

use crate::events::Event;
use crate::lists::{amount_at, latest, lemma_without_contains, list_at, without};
use crate::meters::metadata_fits;
use crate::registry::{
    batch_register_refusal, batch_registered, deregister_refusal, deregistered, given_metadata,
    handed_over, meter_added, meter_registered, meters_under, new_meter, ownership_transferred,
    page_of, register_refusal, transfer_refusal,
};
use crate::state::{meter_of, pause_settled, refusal, Grid, Invocation};
use crate::types::{
    CallError, ContractError, MetadataModel, Meter, MeterModel, OwnershipTransfer, PaymentPlan,
    StoredMeter,
};
use crate::values::Address;

verus! {

/// A meter is registered by the administrator for an allowed owner who signs too, under an id that
/// is free, with metadata that fits, and while no pause is in force.
pub proof fn law_registration_is_let_in(
    s: Grid,
    env: Invocation,
    id: Seq<u8>,
    owner: Address,
    metadata: Option<MetadataModel>,
)
    ensures
        ({
            let answer = register_refusal(s, env, id, owner, metadata);
            let paused = s.paused && env.now < s.paused_at + 172_800;
            let no_admin = s.admin is None;
            let admin_missing = s.admin is Some && !env.signers@.contains(s.admin->0);
            let stranger = !s.allowlist.contains(owner);
            let owner_missing = !env.signers@.contains(owner);
            let taken = s.meters.contains_key(id);
            let too_much = metadata is Some && !metadata_fits(metadata->0);
            &&& answer is None <==> !paused && !no_admin && !admin_missing && !stranger
                && !owner_missing && !taken && !too_much
            &&& paused ==> answer == refusal(ContractError::ContractPaused)
            &&& !paused && no_admin ==> answer == refusal(ContractError::NotInitialized)
            &&& !paused && !no_admin && admin_missing
                ==> answer == Some(CallError::MissingAuth(s.admin->0))
            &&& !paused && !no_admin && !admin_missing && stranger
                ==> answer == refusal(ContractError::Unauthorized)
            &&& !paused && !no_admin && !admin_missing && !stranger && owner_missing
                ==> answer == Some(CallError::MissingAuth(owner))
            &&& !paused && !no_admin && !admin_missing && !stranger && !owner_missing
                && taken ==> answer == refusal(ContractError::MeterAlreadyExists)
            &&& !paused && !no_admin && !admin_missing && !stranger && !owner_missing
                && !taken && too_much ==> answer == refusal(ContractError::InvalidMetadata)
        }),
{
}

/// A batch is registered by the administrator, of at most 100 entries.
pub proof fn law_batch_registration_is_let_in(s: Grid, env: Invocation, n: nat)
    ensures
        ({
            let answer = batch_register_refusal(s, env, n);
            let paused = s.paused && env.now < s.paused_at + 172_800;
            let no_admin = s.admin is None;
            let admin_missing = s.admin is Some && !env.signers@.contains(s.admin->0);
            let too_many = n > 100;
            &&& answer is None <==> !paused && !no_admin && !admin_missing && !too_many
            &&& paused ==> answer == refusal(ContractError::ContractPaused)
            &&& !paused && no_admin ==> answer == refusal(ContractError::NotInitialized)
            &&& !paused && !no_admin && admin_missing
                ==> answer == Some(CallError::MissingAuth(s.admin->0))
            &&& !paused && !no_admin && !admin_missing && too_many
                ==> answer == refusal(ContractError::BatchTooLarge)
        }),
{
}

/// A meter is taken off by the administrator, where there is one.
pub proof fn law_deregistration_is_let_in(s: Grid, env: Invocation, id: Seq<u8>)
    ensures
        ({
            let answer = deregister_refusal(s, env, id);
            let no_admin = s.admin is None;
            let admin_missing = s.admin is Some && !env.signers@.contains(s.admin->0);
            let unknown = !s.meters.contains_key(id);
            &&& answer is None <==> !no_admin && !admin_missing && !unknown
            &&& no_admin ==> answer == refusal(ContractError::NotInitialized)
            &&& !no_admin && admin_missing ==> answer == Some(CallError::MissingAuth(s.admin->0))
            &&& !no_admin && !admin_missing && unknown
                ==> answer == refusal(ContractError::MeterNotFound)
        }),
{
}

/// A meter changes hands with the signatures of both owners, the new one being allowed.
pub proof fn law_transfer_is_let_in(s: Grid, env: Invocation, id: Seq<u8>, new_owner: Address)
    ensures
        ({
            let answer = transfer_refusal(s, env, id, new_owner);
            let unknown = !s.meters.contains_key(id);
            let owner_missing = s.meters.contains_key(id)
                && !env.signers@.contains(meter_of(s, id)->0.owner);
            let new_missing = !env.signers@.contains(new_owner);
            let stranger = !s.allowlist.contains(new_owner);
            &&& answer is None <==> !unknown && !owner_missing && !new_missing && !stranger
            &&& unknown ==> answer == refusal(ContractError::MeterNotFound)
            &&& !unknown && owner_missing
                ==> answer == Some(CallError::MissingAuth(meter_of(s, id)->0.owner))
            &&& !unknown && !owner_missing && new_missing
                ==> answer == Some(CallError::MissingAuth(new_owner))
            &&& !unknown && !owner_missing && !new_missing && stranger
                ==> answer == refusal(ContractError::OwnerNotAllowlisted)
        }),
{
}

/// A new meter belongs to its owner, is off, has used nothing, is on the daily plan, has expired
/// as of now, and has no limit, no grace period and no contact.
pub proof fn law_new_meters_start_out_empty(owner: Address, now: u64, metadata: MetadataModel)
    ensures
        ({
            let m = new_meter(owner, now, metadata);
            &&& m.version == 2 && m.owner == owner && !m.active && m.units_used == 0
            &&& m.plan == PaymentPlan::Daily && m.last_payment == now && m.expires_at == now
            &&& m.daily_limit == 0 && m.day_spent == 0 && m.day_start == now
            &&& m.grace_expires_at is None && m.emergency_contact is None
            &&& m.metadata == metadata
        }),
{
}

/// Adding a meter stores it, puts its id at the end of its owner's list and of the registry's,
/// counts it and announces it; nothing else changes.
pub proof fn law_adding_lists_the_meter(s: Grid, id: Seq<u8>, m: MeterModel)
    ensures
        ({
            let t = meter_added(s, id, m);
            let event = Event::MeterRegistered { meter_id: id, owner: m.owner };
            &&& t.meters == s.meters.insert(id, StoredMeter::Current(m))
            &&& t.owner_meters == s.owner_meters.insert(
                m.owner,
                list_at(s.owner_meters, m.owner).push(id),
            )
            &&& t.meter_list == s.meter_list.push(id)
            &&& s.meter_count < u32::MAX ==> t.meter_count == s.meter_count + 1
            &&& s.meter_count == u32::MAX ==> t.meter_count == u32::MAX
            &&& t.events == s.events.push(event)
            &&& t == (Grid {
                meters: t.meters,
                owner_meters: t.owner_meters,
                meter_list: t.meter_list,
                meter_count: t.meter_count,
                events: t.events,
                ..s
            })
        }),
{
}

/// A registration adds a new meter with the metadata given, if any, and clears a pause that has
/// run out; no money is touched and no other meter.
pub proof fn law_registration_adds_one_meter(
    s: Grid,
    now: u64,
    id: Seq<u8>,
    owner: Address,
    metadata: Option<MetadataModel>,
)
    ensures
        ({
            let t = meter_registered(s, now, id, owner, metadata);
            let settled = pause_settled(s, now);
            let m = meter_of(t, id)->0;
            let event = Event::MeterRegistered { meter_id: id, owner };
            &&& meter_of(t, id) is Some && t.meters == s.meters.insert(id, t.meters[id])
            &&& m.version == 2 && m.owner == owner && !m.active && m.units_used == 0
            &&& m.plan == PaymentPlan::Daily && m.last_payment == now && m.expires_at == now
            &&& m.daily_limit == 0 && m.day_spent == 0 && m.day_start == now
            &&& m.grace_expires_at is None && m.emergency_contact is None
            &&& metadata is Some ==> m.metadata == metadata->0
            &&& metadata is None ==> m.metadata == Map::<Seq<u8>, Seq<u8>>::empty()
            &&& t.owner_meters == s.owner_meters.insert(
                owner,
                list_at(s.owner_meters, owner).push(id),
            )
            &&& t.meter_list == s.meter_list.push(id)
            &&& s.meter_count < u32::MAX ==> t.meter_count == s.meter_count + 1
            &&& t.events == settled.events.push(event)
            &&& t.paused == settled.paused && t.paused_at == settled.paused_at
            &&& t == (Grid {
                meters: t.meters,
                owner_meters: t.owner_meters,
                meter_list: t.meter_list,
                meter_count: t.meter_count,
                paused: t.paused,
                paused_at: t.paused_at,
                events: t.events,
                ..s
            })
        }),
{
}

/// A batch of two parts registers the first and then the second, and answers in that order.
pub proof fn law_batch_registration_goes_in_order(
    s: Grid,
    now: u64,
    first: Seq<(Seq<u8>, Address)>,
    second: Seq<(Seq<u8>, Address)>,
)
    ensures
        ({
            let (between, done) = batch_registered(s, now, first);
            let (after, rest) = batch_registered(between, now, second);
            batch_registered(s, now, first + second) == (after, done + rest)
        }),
        batch_registered(s, now, Seq::empty()) == (s, Seq::<bool>::empty()),
    decreases second.len(),
{
    let (between, done) = batch_registered(s, now, first);
    let (after, rest) = batch_registered(between, now, second);
    if second.len() == 0 {
        assert(first + second =~= first);
        assert(done + rest =~= done);
    } else {
        law_batch_registration_goes_in_order(s, now, first, second.drop_last());
        assert((first + second).drop_last() =~= first + second.drop_last());
        assert((first + second).last() == second.last());
        let (before, most) = batch_registered(between, now, second.drop_last());
        assert(done + rest =~= (done + most).push(rest.last()));
    }
}

/// An entry of a batch whose id is taken or whose owner is not allowed is skipped, and only that
/// is announced; any other entry is registered as a new meter without metadata.
pub proof fn law_batch_entries_are_registered_or_skipped(
    s: Grid,
    now: u64,
    id: Seq<u8>,
    owner: Address,
)
    ensures
        ({
            let (t, done) = batch_registered(s, now, seq![(id, owner)]);
            let skip = s.meters.contains_key(id) || !s.allowlist.contains(owner);
            &&& done.len() == 1 && (done[0] <==> !skip)
            &&& skip ==> t.events == s.events.push(Event::BatchSkipped { meter_id: id })
            &&& skip ==> t == (Grid { events: t.events, ..s })
            &&& !skip ==> t == meter_added(
                s,
                id,
                new_meter(owner, now, Map::<Seq<u8>, Seq<u8>>::empty()),
            )
        }),
{
    reveal_with_fuel(batch_registered, 2);
    assert(seq![(id, owner)].drop_last() =~= Seq::<(Seq<u8>, Address)>::empty());
}

/// A meter taken off is gone with its balance, from its owner's list and from the registry's; the
/// count falls by one, and the other meters keep their places.
pub proof fn law_deregistration_removes_one_meter(s: Grid, id: Seq<u8>, other: Seq<u8>)
    requires
        s.meters.contains_key(id),
    ensures
        ({
            let t = deregistered(s, id);
            let owner = meter_of(s, id)->0.owner;
            &&& !t.meters.contains_key(id) && amount_at(t.balances, id) == 0
            &&& !t.meter_list.contains(id) && !list_at(t.owner_meters, owner).contains(id)
            &&& t.meter_list == without(s.meter_list, id)
            &&& t.owner_meters == s.owner_meters.insert(
                owner,
                without(list_at(s.owner_meters, owner), id),
            )
            &&& other != id ==> (t.meters.contains_key(other) <==> s.meters.contains_key(other))
            &&& other != id && s.meters.contains_key(other) ==> t.meters[other] == s.meters[other]
            &&& other != id ==> amount_at(t.balances, other) == amount_at(s.balances, other)
            &&& s.meter_count > 0 ==> t.meter_count == s.meter_count - 1
            &&& s.meter_count == 0 ==> t.meter_count == 0
            &&& t.events == s.events.push(Event::MeterDeregistered { meter_id: id })
            &&& t == (Grid {
                meters: t.meters,
                balances: t.balances,
                owner_meters: t.owner_meters,
                meter_list: t.meter_list,
                meter_count: t.meter_count,
                events: t.events,
                ..s
            })
        }),
{
    lemma_without_contains(s.meter_list, id);
    lemma_without_contains(list_at(s.owner_meters, meter_of(s, id)->0.owner), id);
}

/// Handing a meter over takes its id off the one list and puts it at the end of the other; nobody
/// else's list changes.
pub proof fn law_handing_over_moves_the_id(
    lists: Map<Address, Seq<Seq<u8>>>,
    id: Seq<u8>,
    from: Address,
    to: Address,
    other: Address,
)
    ensures
        ({
            let after = handed_over(lists, id, from, to);
            &&& from != to ==> list_at(after, from) == without(list_at(lists, from), id)
            &&& from != to ==> list_at(after, to) == list_at(lists, to).push(id)
            &&& from == to ==> list_at(after, to) == without(list_at(lists, to), id).push(id)
            &&& other != from && other != to ==> list_at(after, other) == list_at(lists, other)
        }),
{
}

/// A transferred meter has its new owner and starts to count its use anew; the rest of it, its
/// balance and every other meter stay. The change is on record with its time, as the last of at
/// most 20.
pub proof fn law_transfer_changes_the_owner(s: Grid, id: Seq<u8>, new_owner: Address, now: u64)
    requires
        s.meters.contains_key(id),
    ensures
        ({
            let t = ownership_transferred(s, id, new_owner, now);
            let before = meter_of(s, id)->0;
            let after = meter_of(t, id)->0;
            let history = list_at(t.ownership_history, id);
            let change = OwnershipTransfer {
                old_owner: before.owner,
                new_owner,
                transferred_at: now,
            };
            &&& after.owner == new_owner && after.units_used == 0
            &&& after == (Meter { owner: after.owner, units_used: after.units_used, ..before })
            &&& t.meters == s.meters.insert(id, StoredMeter::Current(after))
            &&& t.owner_meters == handed_over(s.owner_meters, id, before.owner, new_owner)
            &&& history == latest(list_at(s.ownership_history, id).push(change), 20)
            &&& history.len() >= 1 && history.len() <= 20 && history.last() == change
            &&& t.ownership_history == s.ownership_history.insert(id, history)
            &&& t.events == s.events.push(
                Event::OwnershipTransferred { meter_id: id, old_owner: before.owner, new_owner },
            )
            &&& t == (Grid {
                meters: t.meters,
                owner_meters: t.owner_meters,
                ownership_history: t.ownership_history,
                events: t.events,
                ..s
            })
        }),
{
}

/// The meters under a list of ids are read in order, those that are stored in the current layout
/// and no others.
pub proof fn law_listed_meters_are_read_in_order(
    s: Grid,
    first: Seq<Seq<u8>>,
    second: Seq<Seq<u8>>,
    id: Seq<u8>,
)
    ensures
        meters_under(s, first + second) == meters_under(s, first) + meters_under(s, second),
        meters_under(s, Seq::empty()) == Seq::<MeterModel>::empty(),
        s.meters.contains_key(id) && s.meters[id] is Current ==> meters_under(s, seq![id]) == seq![
            s.meters[id]->Current_0,
        ],
        !(s.meters.contains_key(id) && s.meters[id] is Current) ==> meters_under(s, seq![id]).len()
            == 0,
    decreases second.len(),
{
    reveal_with_fuel(meters_under, 2);
    assert(seq![id].drop_last() =~= Seq::<Seq<u8>>::empty());
    if second.len() == 0 {
        assert(first + second =~= first);
        assert(meters_under(s, first) + meters_under(s, second) =~= meters_under(s, first));
    } else {
        law_listed_meters_are_read_in_order(s, first, second.drop_last(), id);
        assert((first + second).drop_last() =~= first + second.drop_last());
        assert((first + second).last() == second.last());
        assert(meters_under(s, first + second) =~= meters_under(s, first) + meters_under(
            s,
            second,
        ));
    }
}

/// A page begins at its offset and goes on for as many ids as asked for, at most 100 and no
/// further than the list.
pub proof fn law_pages_begin_at_their_offset(ids: Seq<Seq<u8>>, offset: u32, limit: u32, i: int)
    ensures
        ({
            let page = page_of(ids, offset, limit);
            &&& page.len() <= limit && page.len() <= 100
            &&& offset >= ids.len() ==> page.len() == 0
            &&& offset < ids.len() ==> page.len() == limit || page.len() == 100 || page.len()
                == ids.len() - offset
            &&& offset < ids.len() ==> page.len() <= ids.len() - offset
            &&& 0 <= i < page.len() ==> page[i] == ids[offset + i]
        }),
{
}

/// Metadata that was not given is empty.
pub proof fn law_metadata_defaults_to_none(metadata: MetadataModel)
    ensures
        given_metadata(Some(metadata)) == metadata,
        given_metadata(None) == Map::<Seq<u8>, Seq<u8>>::empty(),
{
}

} // verus!

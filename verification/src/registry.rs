//! The registry of meters: registration, removal, changes of owner and listings.

use vstd::prelude::*;

use crate::events::Event;
use crate::lists::{
    holds, latest, lemma_history_deep, list_at, push_latest, push_text, read_texts, remove_text,
    without,
};
use crate::meters::{metadata_fits, validate_metadata};
use crate::migration::METER_VERSION;
use crate::state::{
    admin_refusal, auth_refusal, current_meter, lift, meter_of, pause_in_force, pause_settled,
    published, refusal, refuse, Grid, Invocation, SolarGridContract,
};
use crate::table::Table;
use crate::types::{
    CallError, ContractError, Metadata, MetadataModel, Meter, MeterModel, OwnershipTransfer,
    PaymentPlan, StoredMeter,
};
use crate::values::{Address, Text};

verus! {

/// The most changes of owner that are kept for a meter.
pub const MAX_OWNERSHIP_HISTORY: usize = 20;

/// The most meters that one call registers.
pub const MAX_REGISTER_BATCH: usize = 100;

/// The most ids on one page of the meter list.
pub const MAX_PAGE: u32 = 100;

/// A meter that was registered at `now` and never paid for.
pub open spec fn new_meter(owner: Address, now: u64, metadata: MetadataModel) -> MeterModel {
    Meter {
        version: METER_VERSION,
        owner,
        active: false,
        units_used: 0,
        plan: PaymentPlan::Daily,
        last_payment: now,
        expires_at: now,
        daily_limit: 0,
        day_spent: 0,
        day_start: now,
        grace_expires_at: None,
        emergency_contact: None,
        metadata,
    }
}

/// The metadata given for a meter; empty if none was.
pub open spec fn given_metadata(metadata: Option<MetadataModel>) -> MetadataModel {
    match metadata {
        Some(md) => md,
        None => Map::empty(),
    }
}

/// Why a registration is refused, if it is.
pub open spec fn register_refusal(
    s: Grid,
    env: Invocation,
    id: Seq<u8>,
    owner: Address,
    metadata: Option<MetadataModel>,
) -> Option<CallError> {
    if pause_in_force(s, env.now) {
        refusal(ContractError::ContractPaused)
    } else if admin_refusal(s, env) is Some {
        admin_refusal(s, env)
    } else if !s.allowlist.contains(owner) {
        refusal(ContractError::Unauthorized)
    } else if auth_refusal(env, owner) is Some {
        auth_refusal(env, owner)
    } else if s.meters.contains_key(id) {
        refusal(ContractError::MeterAlreadyExists)
    } else if metadata is Some && !metadata_fits(metadata->0) {
        refusal(ContractError::InvalidMetadata)
    } else {
        None
    }
}

/// The state once a new meter is on the registry.
pub open spec fn meter_added(s: Grid, id: Seq<u8>, meter: MeterModel) -> Grid {
    let owner = meter.owner;
    Grid {
        meters: s.meters.insert(id, StoredMeter::Current(meter)),
        owner_meters: s.owner_meters.insert(owner, list_at(s.owner_meters, owner).push(id)),
        meter_list: s.meter_list.push(id),
        meter_count: s.meter_count.saturating_add(1),
        events: s.events.push(Event::MeterRegistered { meter_id: id, owner }),
        ..s
    }
}

/// The state once a meter is registered at `now`.
pub open spec fn meter_registered(
    s: Grid,
    now: u64,
    id: Seq<u8>,
    owner: Address,
    metadata: Option<MetadataModel>,
) -> Grid {
    meter_added(
        pause_settled(s, now),
        id,
        new_meter(owner, now, given_metadata(metadata)),
    )
}

/// Why a batch of `n` registrations is refused, if it is.
pub open spec fn batch_register_refusal(s: Grid, env: Invocation, n: nat) -> Option<CallError> {
    if pause_in_force(s, env.now) {
        refusal(ContractError::ContractPaused)
    } else if admin_refusal(s, env) is Some {
        admin_refusal(s, env)
    } else if n > MAX_REGISTER_BATCH {
        refusal(ContractError::BatchTooLarge)
    } else {
        None
    }
}

/// The state once a batch of registrations was gone through in order, and for each entry whether
/// it was registered. An entry whose id is taken, be it by an earlier entry, or whose owner is not
/// on the allowlist is skipped.
pub open spec fn batch_registered(s: Grid, now: u64, entries: Seq<(Seq<u8>, Address)>) -> (
    Grid,
    Seq<bool>,
)
    decreases entries.len(),
{
    if entries.len() == 0 {
        (s, Seq::empty())
    } else {
        let (before, done) = batch_registered(s, now, entries.drop_last());
        let (id, owner) = entries.last();
        if before.meters.contains_key(id) || !before.allowlist.contains(owner) {
            (published(before, Event::BatchSkipped { meter_id: id }), done.push(false))
        } else {
            (meter_added(before, id, new_meter(owner, now, Map::empty())), done.push(true))
        }
    }
}

/// Why taking a meter off the registry is refused, if it is.
pub open spec fn deregister_refusal(s: Grid, env: Invocation, id: Seq<u8>) -> Option<CallError> {
    if admin_refusal(s, env) is Some {
        admin_refusal(s, env)
    } else if meter_of(s, id) is None {
        refusal(ContractError::MeterNotFound)
    } else {
        None
    }
}

/// The state once a meter is off the registry.
pub open spec fn deregistered(s: Grid, id: Seq<u8>) -> Grid {
    let owner = meter_of(s, id)->0.owner;
    Grid {
        meters: s.meters.remove(id),
        balances: s.balances.remove(id),
        owner_meters: s.owner_meters.insert(owner, without(list_at(s.owner_meters, owner), id)),
        meter_list: without(s.meter_list, id),
        meter_count: s.meter_count.saturating_sub(1),
        events: s.events.push(Event::MeterDeregistered { meter_id: id }),
        ..s
    }
}

/// Why a change of owner is refused, if it is.
pub open spec fn transfer_refusal(
    s: Grid,
    env: Invocation,
    id: Seq<u8>,
    new_owner: Address,
) -> Option<CallError> {
    match meter_of(s, id) {
        None => refusal(ContractError::MeterNotFound),
        Some(m) => if auth_refusal(env, m.owner) is Some {
            auth_refusal(env, m.owner)
        } else if auth_refusal(env, new_owner) is Some {
            auth_refusal(env, new_owner)
        } else if !s.allowlist.contains(new_owner) {
            refusal(ContractError::OwnerNotAllowlisted)
        } else {
            None
        },
    }
}

/// The owners' lists once `id` has gone from `from`'s list to the end of `to`'s.
pub open spec fn handed_over(
    lists: Map<Address, Seq<Seq<u8>>>,
    id: Seq<u8>,
    from: Address,
    to: Address,
) -> Map<Address, Seq<Seq<u8>>> {
    let taken = lists.insert(from, without(list_at(lists, from), id));
    taken.insert(to, list_at(taken, to).push(id))
}

/// The state once a meter has a new owner: it counts its use anew and keeps its balance, and the
/// change is on record.
pub open spec fn ownership_transferred(
    s: Grid,
    id: Seq<u8>,
    new_owner: Address,
    now: u64,
) -> Grid {
    let meter = meter_of(s, id)->0;
    let old_owner = meter.owner;
    let change = OwnershipTransfer { old_owner, new_owner, transferred_at: now };
    Grid {
        meters: s.meters.insert(
            id,
            StoredMeter::Current(Meter { owner: new_owner, units_used: 0, ..meter }),
        ),
        owner_meters: handed_over(s.owner_meters, id, old_owner, new_owner),
        ownership_history: s.ownership_history.insert(
            id,
            latest(list_at(s.ownership_history, id).push(change), MAX_OWNERSHIP_HISTORY as int),
        ),
        events: s.events.push(
            Event::OwnershipTransferred { meter_id: id, old_owner, new_owner },
        ),
        ..s
    }
}

/// The meters under `ids`, in order, leaving out ids without an entry in the current layout.
pub open spec fn meters_under(s: Grid, ids: Seq<Seq<u8>>) -> Seq<MeterModel>
    decreases ids.len(),
{
    if ids.len() == 0 {
        Seq::empty()
    } else {
        let rest = meters_under(s, ids.drop_last());
        match current_meter(s, ids.last()) {
            Some(m) => rest.push(m),
            None => rest,
        }
    }
}

/// The part of `ids` that starts at `offset` and has at most `limit` ids, and `MAX_PAGE` at most.
pub open spec fn page_of(ids: Seq<Seq<u8>>, offset: u32, limit: u32) -> Seq<Seq<u8>> {
    let count = if limit < MAX_PAGE {
        limit as int
    } else {
        MAX_PAGE as int
    };
    if offset >= ids.len() {
        Seq::empty()
    } else if offset + count < ids.len() {
        ids.subrange(offset as int, offset + count)
    } else {
        ids.skip(offset as int)
    }
}

/// Makes a meter that was never paid for.
fn make_meter(owner: Address, now: u64, metadata: Metadata) -> (r: Meter<Metadata>)
    ensures
        r.deep_view() == new_meter(owner, now, metadata@),
{
    Meter {
        version: METER_VERSION,
        owner,
        active: false,
        units_used: 0,
        plan: PaymentPlan::Daily,
        last_payment: now,
        expires_at: now,
        daily_limit: 0,
        day_spent: 0,
        day_start: now,
        grace_expires_at: None,
        emergency_contact: None,
        metadata,
    }
}

impl SolarGridContract {
    /// Puts a new meter on the registry.
    fn add_meter(&mut self, meter_id: &Text, meter: Meter<Metadata>)
        ensures
            final(self)@ == meter_added(old(self)@, meter_id@, meter.deep_view()),
    {
        let owner: Address = meter.owner;
        self.put_meter(meter_id, meter);
        let mut list: Vec<Text> = read_texts(&self.owner_meters, &owner);
        push_text(&mut list, meter_id.clone());
        self.owner_meters.set(owner, list);
        push_text(&mut self.meter_list, meter_id.clone());
        self.meter_count = self.meter_count.saturating_add(1);
        self.publish(Event::MeterRegistered { meter_id: meter_id.clone(), owner });
    }

    /// Registers a meter for `owner`, with metadata if any is given. The administrator and the
    /// owner must both agree, and the owner must be on the allowlist.
    pub fn register_meter_with_metadata(
        &mut self,
        env: &Invocation,
        meter_id: &Text,
        owner: Address,
        metadata: Option<Metadata>,
    ) -> (r: Result<(), CallError>)
        ensures
            match register_refusal(old(self)@, *env, meter_id@, owner, metadata.deep_view()) {
                Some(e) => r == Err::<(), CallError>(e) && final(self)@ == old(self)@,
                None => r is Ok && final(self)@ == meter_registered(
                    old(self)@,
                    env.now,
                    meter_id@,
                    owner,
                    metadata.deep_view(),
                ),
            },
    {
        if self.pause_is_active(env.now) {
            return refuse(ContractError::ContractPaused);
        }
        self.require_admin(env)?;
        if !holds(&self.allowlist, owner) {
            return refuse(ContractError::Unauthorized);
        }
        env.require_auth(owner)?;
        if self.meters.contains(meter_id) {
            return refuse(ContractError::MeterAlreadyExists);
        }
        let metadata = match metadata {
            Some(md) => {
                lift(validate_metadata(&md))?;
                md
            },
            None => Table::new(),
        };
        self.settle_pause(env.now);
        self.add_meter(meter_id, make_meter(owner, env.now, metadata));
        Ok(())
    }

    /// Registers a meter for `owner`, without metadata.
    pub fn register_meter(&mut self, env: &Invocation, meter_id: &Text, owner: Address) -> (r:
        Result<(), CallError>)
        ensures
            match register_refusal(old(self)@, *env, meter_id@, owner, None) {
                Some(e) => r == Err::<(), CallError>(e) && final(self)@ == old(self)@,
                None => r is Ok && final(self)@ == meter_registered(
                    old(self)@,
                    env.now,
                    meter_id@,
                    owner,
                    None,
                ),
            },
    {
        self.register_meter_with_metadata(env, meter_id, owner, None)
    }

    /// Registers several meters, each for its owner. Entries that cannot be registered are skipped
    /// with an event. Only the administrator may do so. Says of each entry whether it was
    /// registered.
    pub fn batch_register_meters(
        &mut self,
        env: &Invocation,
        meters: &Vec<(Text, Address)>,
    ) -> (r: Result<Vec<bool>, CallError>)
        ensures
            match batch_register_refusal(old(self)@, *env, meters@.len()) {
                Some(e) => r == Err::<Vec<bool>, CallError>(e) && final(self)@ == old(self)@,
                None => r is Ok && (final(self)@, r->Ok_0@) == batch_registered(
                    pause_settled(old(self)@, env.now),
                    env.now,
                    meters.deep_view(),
                ),
            },
    {
        if self.pause_is_active(env.now) {
            return refuse(ContractError::ContractPaused);
        }
        self.require_admin(env)?;
        if meters.len() > MAX_REGISTER_BATCH {
            return refuse(ContractError::BatchTooLarge);
        }
        self.settle_pause(env.now);
        let ghost start = self@;
        let ghost entries = meters.deep_view();
        let mut results: Vec<bool> = Vec::new();
        let mut i: usize = 0;
        assert(entries.take(0) =~= Seq::empty());
        while i < meters.len()
            invariant
                i <= meters@.len(),
                entries == meters.deep_view(),
                (self@, results@) == batch_registered(start, env.now, entries.take(i as int)),
            decreases meters@.len() - i,
        {
            let (meter_id, owner) = (&meters[i].0, meters[i].1);
            proof {
                assert(entries.take(i + 1).drop_last() =~= entries.take(i as int));
                assert(entries.take(i + 1).last() == (meter_id@, owner));
            }
            if self.meters.contains(meter_id) || !holds(&self.allowlist, owner) {
                self.publish(Event::BatchSkipped { meter_id: meter_id.clone() });
                results.push(false);
            } else {
                self.add_meter(meter_id, make_meter(owner, env.now, Table::new()));
                results.push(true);
            }
            i = i + 1;
        }
        assert(entries.take(entries.len() as int) =~= entries);
        Ok(results)
    }

    /// The ids of the meters that `owner` owns.
    pub fn get_meters_by_owner(&self, owner: Address) -> (r: Result<Vec<Text>, ContractError>)
        ensures
            r is Ok && r->Ok_0.deep_view() == list_at(self@.owner_meters, owner),
    {
        Ok(read_texts(&self.owner_meters, &owner))
    }

    /// Takes a meter, and its balance, off the registry. Only the administrator may do so.
    pub fn deregister_meter(&mut self, env: &Invocation, meter_id: &Text) -> (r: Result<
        (),
        CallError,
    >)
        ensures
            match deregister_refusal(old(self)@, *env, meter_id@) {
                Some(e) => r == Err::<(), CallError>(e) && final(self)@ == old(self)@,
                None => r is Ok && final(self)@ == deregistered(old(self)@, meter_id@),
            },
    {
        self.require_admin(env)?;
        let meter = self.find_meter(meter_id)?;
        self.meters.remove(meter_id);
        self.balances.remove(meter_id);
        let list: Vec<Text> = read_texts(&self.owner_meters, &meter.owner);
        self.owner_meters.set(meter.owner, remove_text(&list, meter_id));
        self.meter_list = remove_text(&self.meter_list, meter_id);
        self.meter_count = self.meter_count.saturating_sub(1);
        self.publish(Event::MeterDeregistered { meter_id: meter_id.clone() });
        Ok(())
    }

    /// How many meters are registered.
    pub fn get_meter_count(&self) -> (r: Result<u32, ContractError>)
        ensures
            r == if self@.admin is Some {
                Ok::<u32, ContractError>(self@.meter_count)
            } else {
                Err(ContractError::NotInitialized)
            },
    {
        self.require_initialized()?;
        Ok(self.meter_count)
    }

    /// Hands a meter to a new owner. The old and the new owner must both agree, and the new owner
    /// must be on the allowlist.
    pub fn transfer_meter_ownership(
        &mut self,
        env: &Invocation,
        meter_id: &Text,
        new_owner: Address,
    ) -> (r: Result<(), CallError>)
        ensures
            match transfer_refusal(old(self)@, *env, meter_id@, new_owner) {
                Some(e) => r == Err::<(), CallError>(e) && final(self)@ == old(self)@,
                None => r is Ok && final(self)@ == ownership_transferred(
                    old(self)@,
                    meter_id@,
                    new_owner,
                    env.now,
                ),
            },
    {
        broadcast use lemma_history_deep;

        let mut meter = self.find_meter(meter_id)?;
        let old_owner: Address = meter.owner;
        env.require_auth(old_owner)?;
        env.require_auth(new_owner)?;
        if !holds(&self.allowlist, new_owner) {
            return refuse(ContractError::OwnerNotAllowlisted);
        }

        let list: Vec<Text> = read_texts(&self.owner_meters, &old_owner);
        self.owner_meters.set(old_owner, remove_text(&list, meter_id));
        let mut list: Vec<Text> = read_texts(&self.owner_meters, &new_owner);
        push_text(&mut list, meter_id.clone());
        self.owner_meters.set(new_owner, list);

        meter.owner = new_owner;
        meter.units_used = 0;
        self.put_meter(meter_id, meter);

        let change = OwnershipTransfer { old_owner, new_owner, transferred_at: env.now };
        let history: Vec<OwnershipTransfer> = match self.ownership_history.get(meter_id) {
            Some(list) => push_latest(list, change, MAX_OWNERSHIP_HISTORY),
            None => push_latest(&Vec::new(), change, MAX_OWNERSHIP_HISTORY),
        };
        self.ownership_history.set(meter_id.clone(), history);
        self.publish(
            Event::OwnershipTransferred { meter_id: meter_id.clone(), old_owner, new_owner },
        );
        Ok(())
    }

    /// All registered meters. Only the administrator may list them.
    pub fn get_all_meters(&self, env: &Invocation) -> (r: Result<Vec<Meter<Metadata>>, CallError>)
        ensures
            match admin_refusal(self@, *env) {
                Some(e) => r == Err::<Vec<Meter<Metadata>>, CallError>(e),
                None => r is Ok && r->Ok_0.deep_view() == meters_under(self@, self@.meter_list),
            },
    {
        self.require_admin(env)?;
        let ghost ids = self@.meter_list;
        let mut meters: Vec<Meter<Metadata>> = Vec::new();
        let mut i: usize = 0;
        assert(meters.deep_view() =~= meters_under(self@, ids.take(0)));
        while i < self.meter_list.len()
            invariant
                i <= ids.len(),
                ids == self.meter_list.deep_view(),
                meters.deep_view() == meters_under(self@, ids.take(i as int)),
            decreases ids.len() - i,
        {
            proof {
                assert(ids.take(i + 1).drop_last() =~= ids.take(i as int));
                assert(ids.take(i + 1).last() == ids[i as int]);
            }
            if let Some(StoredMeter::Current(meter)) = self.meters.get(&self.meter_list[i]) {
                let ghost before = meters.deep_view();
                meters.push(meter.clone());
                assert(meters.deep_view() =~= before.push(meter.deep_view()));
            }
            i = i + 1;
        }
        assert(ids.take(ids.len() as int) =~= ids);
        Ok(meters)
    }

    /// One page of the ids of all registered meters: at most `limit` of them, and at most
    /// `MAX_PAGE`, from position `offset` on. Only the administrator may list them.
    pub fn get_all_meters_paginated(
        &self,
        env: &Invocation,
        offset: u32,
        limit: u32,
    ) -> (r: Result<Vec<Text>, CallError>)
        ensures
            match admin_refusal(self@, *env) {
                Some(e) => r == Err::<Vec<Text>, CallError>(e),
                None => r is Ok && r->Ok_0.deep_view() == page_of(self@.meter_list, offset, limit),
            },
    {
        self.require_admin(env)?;
        let count: usize = if limit < MAX_PAGE {
            limit as usize
        } else {
            MAX_PAGE as usize
        };
        let ghost ids = self@.meter_list;
        let total: usize = self.meter_list.len();
        let start: usize = offset as usize;
        let mut page: Vec<Text> = Vec::new();
        if start >= total {
            assert(page.deep_view() =~= Seq::empty());
            return Ok(page);
        }
        let end: usize = if count < total - start {
            start + count
        } else {
            total
        };
        let mut i: usize = start;
        assert(page.deep_view() =~= ids.subrange(start as int, start as int));
        while i < end
            invariant
                start <= i <= end <= ids.len(),
                ids == self.meter_list.deep_view(),
                page.deep_view() == ids.subrange(start as int, i as int),
            decreases end - i,
        {
            push_text(&mut page, self.meter_list[i].clone());
            i = i + 1;
            assert(page.deep_view() =~= ids.subrange(start as int, i as int));
        }
        assert(page.deep_view() =~= page_of(ids, offset, limit));
        Ok(page)
    }
}

} // verus!

//! Bringing meter entries from older layouts to the current one.

use vstd::prelude::*;

use crate::state::{
    admin_refusal, current_meter, refusal, refuse, with_meter, Grid, Invocation, SolarGridContract,
};
use crate::table::Table;
use crate::types::{
    CallError, ContractError, LegacyMeter, LegacyMeterV1, LegacyMeterV2, LegacyMeterV3, Metadata,
    Meter, MeterModel, StoredMeter, StoredModel,
};
use crate::values::Text;

verus! {

/// The schema version of entries in the current layout.
pub const METER_VERSION: u32 = 2;

/// A first-layout entry without its balance, which is kept apart from the entry.
pub open spec fn without_balance(old: LegacyMeter) -> LegacyMeterV1 {
    LegacyMeterV1 {
        version: 1,
        owner: old.owner,
        active: old.active,
        units_used: old.units_used,
        plan: old.plan,
        last_payment: old.last_payment,
        expires_at: old.expires_at,
    }
}

/// What a first-layout entry becomes.
pub open spec fn from_v0(old: LegacyMeter) -> MeterModel {
    from_v1(without_balance(old))
}

/// What an entry without daily limits becomes.
pub open spec fn from_v1(old: LegacyMeterV1) -> MeterModel {
    Meter {
        version: METER_VERSION,
        owner: old.owner,
        active: old.active,
        units_used: old.units_used,
        plan: old.plan,
        last_payment: old.last_payment,
        expires_at: old.expires_at,
        daily_limit: 0,
        day_spent: 0,
        day_start: old.last_payment,
        grace_expires_at: None,
        emergency_contact: None,
        metadata: Map::empty(),
    }
}

/// What an entry without an emergency contact becomes.
pub open spec fn from_v2(old: LegacyMeterV2) -> MeterModel {
    Meter {
        version: METER_VERSION,
        owner: old.owner,
        active: old.active,
        units_used: old.units_used,
        plan: old.plan,
        last_payment: old.last_payment,
        expires_at: old.expires_at,
        daily_limit: old.daily_limit,
        day_spent: old.day_spent,
        day_start: old.day_start,
        grace_expires_at: old.grace_expires_at,
        emergency_contact: None,
        metadata: Map::empty(),
    }
}

/// What an entry without metadata becomes.
pub open spec fn from_v3(old: LegacyMeterV3) -> MeterModel {
    Meter {
        version: METER_VERSION,
        owner: old.owner,
        active: old.active,
        units_used: old.units_used,
        plan: old.plan,
        last_payment: old.last_payment,
        expires_at: old.expires_at,
        daily_limit: old.daily_limit,
        day_spent: old.day_spent,
        day_start: old.day_start,
        grace_expires_at: old.grace_expires_at,
        emergency_contact: old.emergency_contact,
        metadata: Map::empty(),
    }
}

/// The entry in the current layout.
pub open spec fn migrated(stored: StoredModel) -> MeterModel {
    match stored {
        StoredMeter::Current(m) => m,
        StoredMeter::V3(m) => from_v3(m),
        StoredMeter::V2(m) => from_v2(m),
        StoredMeter::V1(m) => from_v1(m),
        StoredMeter::V0(m) => from_v0(m),
    }
}

/// Rewrites a first-layout entry.
pub fn migrate_meter_v0(old: &LegacyMeter) -> (r: Meter<Metadata>)
    ensures
        r.deep_view() == from_v0(*old),
{
    migrate_meter_v1(
        &LegacyMeterV1 {
            version: 1,
            owner: old.owner,
            active: old.active,
            units_used: old.units_used,
            plan: old.plan,
            last_payment: old.last_payment,
            expires_at: old.expires_at,
        },
    )
}

/// Rewrites an entry without daily limits.
pub fn migrate_meter_v1(old: &LegacyMeterV1) -> (r: Meter<Metadata>)
    ensures
        r.deep_view() == from_v1(*old),
{
    Meter {
        version: METER_VERSION,
        owner: old.owner,
        active: old.active,
        units_used: old.units_used,
        plan: old.plan,
        last_payment: old.last_payment,
        expires_at: old.expires_at,
        daily_limit: 0,
        day_spent: 0,
        day_start: old.last_payment,
        grace_expires_at: None,
        emergency_contact: None,
        metadata: Table::new(),
    }
}

/// Rewrites an entry without an emergency contact.
pub fn migrate_meter_v2(old: &LegacyMeterV2) -> (r: Meter<Metadata>)
    ensures
        r.deep_view() == from_v2(*old),
{
    Meter {
        version: METER_VERSION,
        owner: old.owner,
        active: old.active,
        units_used: old.units_used,
        plan: old.plan,
        last_payment: old.last_payment,
        expires_at: old.expires_at,
        daily_limit: old.daily_limit,
        day_spent: old.day_spent,
        day_start: old.day_start,
        grace_expires_at: old.grace_expires_at,
        emergency_contact: None,
        metadata: Table::new(),
    }
}

/// Rewrites an entry without metadata.
pub fn migrate_meter_v3(old: &LegacyMeterV3) -> (r: Meter<Metadata>)
    ensures
        r.deep_view() == from_v3(*old),
{
    Meter {
        version: METER_VERSION,
        owner: old.owner,
        active: old.active,
        units_used: old.units_used,
        plan: old.plan,
        last_payment: old.last_payment,
        expires_at: old.expires_at,
        daily_limit: old.daily_limit,
        day_spent: old.day_spent,
        day_start: old.day_start,
        grace_expires_at: old.grace_expires_at,
        emergency_contact: old.emergency_contact,
        metadata: Table::new(),
    }
}

/// The entry in the current layout.
pub(crate) fn migrate(stored: &StoredMeter<Metadata>) -> (r: Meter<Metadata>)
    ensures
        r.deep_view() == migrated(stored.deep_view()),
{
    match stored {
        StoredMeter::Current(m) => m.clone(),
        StoredMeter::V3(m) => migrate_meter_v3(m),
        StoredMeter::V2(m) => migrate_meter_v2(m),
        StoredMeter::V1(m) => migrate_meter_v1(m),
        StoredMeter::V0(m) => migrate_meter_v0(m),
    }
}

/// Why migrating an entry by hand is refused, if it is. `wanted` is the entry that is asked for,
/// migrated; it is missing if there is none or it is in another layout.
pub open spec fn migration_refusal(
    s: Grid,
    env: Invocation,
    id: Seq<u8>,
    wanted: Option<MeterModel>,
) -> Option<CallError> {
    if admin_refusal(s, env) is Some {
        admin_refusal(s, env)
    } else if up_to_date(s, id) || wanted is Some {
        None
    } else {
        refusal(ContractError::MeterNotFound)
    }
}

/// Whether the entry under `id` needs no migration.
pub open spec fn up_to_date(s: Grid, id: Seq<u8>) -> bool {
    match current_meter(s, id) {
        Some(m) => m.version >= METER_VERSION,
        None => false,
    }
}

/// The state once an entry is migrated by hand.
pub open spec fn migrated_by_hand(s: Grid, id: Seq<u8>, wanted: Option<MeterModel>) -> Grid {
    if up_to_date(s, id) {
        s
    } else {
        with_meter(s, id, wanted->0)
    }
}

/// The first-layout entry under `id`, migrated.
pub open spec fn v0_at(s: Grid, id: Seq<u8>) -> Option<MeterModel> {
    if s.meters.contains_key(id) {
        match s.meters[id] {
            StoredMeter::V0(m) => Some(from_v0(m)),
            _ => None,
        }
    } else {
        None
    }
}

/// The entry without daily limits under `id`, migrated.
pub open spec fn v1_at(s: Grid, id: Seq<u8>) -> Option<MeterModel> {
    if s.meters.contains_key(id) {
        match s.meters[id] {
            StoredMeter::V1(m) => Some(from_v1(m)),
            _ => None,
        }
    } else {
        None
    }
}

/// The entry without an emergency contact under `id`, migrated.
pub open spec fn v2_at(s: Grid, id: Seq<u8>) -> Option<MeterModel> {
    if s.meters.contains_key(id) {
        match s.meters[id] {
            StoredMeter::V2(m) => Some(from_v2(m)),
            _ => None,
        }
    } else {
        None
    }
}

impl SolarGridContract {
    /// Whether the entry under `id` needs no migration.
    fn is_up_to_date(&self, id: &Text) -> (r: bool)
        ensures
            r == up_to_date(self@, id@),
    {
        match self.meters.get(id) {
            Some(StoredMeter::Current(meter)) => meter.version >= METER_VERSION,
            _ => false,
        }
    }

    /// Rewrites a first-layout entry. Only the administrator may do so. Does nothing to an entry
    /// in the current layout.
    pub fn migrate_meter(&mut self, env: &Invocation, meter_id: &Text) -> (r: Result<(), CallError>)
        ensures
            match migration_refusal(old(self)@, *env, meter_id@, v0_at(old(self)@, meter_id@)) {
                Some(e) => r == Err::<(), CallError>(e) && final(self)@ == old(self)@,
                None => r is Ok && final(self)@ == migrated_by_hand(
                    old(self)@,
                    meter_id@,
                    v0_at(old(self)@, meter_id@),
                ),
            },
    {
        self.require_admin(env)?;
        if self.is_up_to_date(meter_id) {
            return Ok(());
        }
        let meter = match self.meters.get(meter_id) {
            Some(StoredMeter::V0(legacy)) => migrate_meter_v0(legacy),
            _ => {
                return refuse(ContractError::MeterNotFound);
            },
        };
        self.put_meter(meter_id, meter);
        Ok(())
    }

    /// Rewrites an entry without daily limits. Only the administrator may do so. Does nothing to
    /// an entry in the current layout.
    pub fn migrate_meter_to_v2(&mut self, env: &Invocation, meter_id: &Text) -> (r: Result<
        (),
        CallError,
    >)
        ensures
            match migration_refusal(old(self)@, *env, meter_id@, v1_at(old(self)@, meter_id@)) {
                Some(e) => r == Err::<(), CallError>(e) && final(self)@ == old(self)@,
                None => r is Ok && final(self)@ == migrated_by_hand(
                    old(self)@,
                    meter_id@,
                    v1_at(old(self)@, meter_id@),
                ),
            },
    {
        self.require_admin(env)?;
        if self.is_up_to_date(meter_id) {
            return Ok(());
        }
        let meter = match self.meters.get(meter_id) {
            Some(StoredMeter::V1(legacy)) => migrate_meter_v1(legacy),
            _ => {
                return refuse(ContractError::MeterNotFound);
            },
        };
        self.put_meter(meter_id, meter);
        Ok(())
    }

    /// Rewrites an entry without an emergency contact. Only the administrator may do so. Does
    /// nothing to an entry in the current layout.
    pub fn migrate_meter_to_v3(&mut self, env: &Invocation, meter_id: &Text) -> (r: Result<
        (),
        CallError,
    >)
        ensures
            match migration_refusal(old(self)@, *env, meter_id@, v2_at(old(self)@, meter_id@)) {
                Some(e) => r == Err::<(), CallError>(e) && final(self)@ == old(self)@,
                None => r is Ok && final(self)@ == migrated_by_hand(
                    old(self)@,
                    meter_id@,
                    v2_at(old(self)@, meter_id@),
                ),
            },
    {
        self.require_admin(env)?;
        if self.is_up_to_date(meter_id) {
            return Ok(());
        }
        let meter = match self.meters.get(meter_id) {
            Some(StoredMeter::V2(legacy)) => migrate_meter_v2(legacy),
            _ => {
                return refuse(ContractError::MeterNotFound);
            },
        };
        self.put_meter(meter_id, meter);
        Ok(())
    }
}

} // verus!

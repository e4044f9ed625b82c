//! What becomes of meters stored in older layouts.

use vstd::prelude::*;

use crate::migration::{
    from_v0, from_v1, from_v2, from_v3, migrated, migrated_by_hand, migration_refusal, up_to_date,
    v0_at, v1_at, v2_at, without_balance,
};
use crate::state::{meter_of, refusal, Grid, Invocation};
use crate::types::{
    CallError, ContractError, LegacyMeter, LegacyMeterV1, LegacyMeterV2, LegacyMeterV3, MeterModel,
    StoredMeter,
};

verus! {

/// The balance that the first layout carried is not part of the later entry; all else is.
pub proof fn law_first_layout_drops_its_balance(old: LegacyMeter)
    ensures
        ({
            let m = without_balance(old);
            &&& m.version == 1 && m.owner == old.owner && m.active == old.active
            &&& m.units_used == old.units_used && m.plan == old.plan
            &&& m.last_payment == old.last_payment && m.expires_at == old.expires_at
        }),
{
}

/// Whatever the layout a meter was stored in, its owner, state, use, plan and times are kept, and
/// the entry is of version 2 from then on.
pub proof fn law_migration_keeps_what_was_stored(
    v0: LegacyMeter,
    v1: LegacyMeterV1,
    v2: LegacyMeterV2,
    v3: LegacyMeterV3,
    current: MeterModel,
)
    ensures
        migrated(StoredMeter::Current(current)) == current,
        migrated(StoredMeter::V0(v0)) == from_v0(v0),
        migrated(StoredMeter::V1(v1)) == from_v1(v1),
        migrated(StoredMeter::V2(v2)) == from_v2(v2),
        migrated(StoredMeter::V3(v3)) == from_v3(v3),
        ({
            let m = migrated(StoredMeter::V0(v0));
            &&& m.version == 2 && m.owner == v0.owner && m.active == v0.active
            &&& m.units_used == v0.units_used && m.plan == v0.plan
            &&& m.last_payment == v0.last_payment && m.expires_at == v0.expires_at
        }),
        ({
            let m = migrated(StoredMeter::V1(v1));
            &&& m.version == 2 && m.owner == v1.owner && m.active == v1.active
            &&& m.units_used == v1.units_used && m.plan == v1.plan
            &&& m.last_payment == v1.last_payment && m.expires_at == v1.expires_at
        }),
        ({
            let m = migrated(StoredMeter::V2(v2));
            &&& m.version == 2 && m.owner == v2.owner && m.active == v2.active
            &&& m.units_used == v2.units_used && m.plan == v2.plan
            &&& m.last_payment == v2.last_payment && m.expires_at == v2.expires_at
        }),
        ({
            let m = migrated(StoredMeter::V3(v3));
            &&& m.version == 2 && m.owner == v3.owner && m.active == v3.active
            &&& m.units_used == v3.units_used && m.plan == v3.plan
            &&& m.last_payment == v3.last_payment && m.expires_at == v3.expires_at
        }),
{
}

/// What an older layout lacked starts out empty: no daily limit, a day window from the last
/// payment, no grace period, no emergency contact and no metadata. What it had is kept.
pub proof fn law_migration_fills_the_rest(
    v0: LegacyMeter,
    v1: LegacyMeterV1,
    v2: LegacyMeterV2,
    v3: LegacyMeterV3,
)
    ensures
        ({
            let m = migrated(StoredMeter::V0(v0));
            &&& m.daily_limit == 0 && m.day_spent == 0 && m.day_start == v0.last_payment
            &&& m.grace_expires_at is None && m.emergency_contact is None
            &&& m.metadata == Map::<Seq<u8>, Seq<u8>>::empty()
        }),
        ({
            let m = migrated(StoredMeter::V1(v1));
            &&& m.daily_limit == 0 && m.day_spent == 0 && m.day_start == v1.last_payment
            &&& m.grace_expires_at is None && m.emergency_contact is None
            &&& m.metadata == Map::<Seq<u8>, Seq<u8>>::empty()
        }),
        ({
            let m = migrated(StoredMeter::V2(v2));
            &&& m.daily_limit == v2.daily_limit && m.day_spent == v2.day_spent
            &&& m.day_start == v2.day_start && m.grace_expires_at == v2.grace_expires_at
            &&& m.emergency_contact is None
            &&& m.metadata == Map::<Seq<u8>, Seq<u8>>::empty()
        }),
        ({
            let m = migrated(StoredMeter::V3(v3));
            &&& m.daily_limit == v3.daily_limit && m.day_spent == v3.day_spent
            &&& m.day_start == v3.day_start && m.grace_expires_at == v3.grace_expires_at
            &&& m.emergency_contact == v3.emergency_contact
            &&& m.metadata == Map::<Seq<u8>, Seq<u8>>::empty()
        }),
{
}

/// Each conversion by hand reads exactly the entries of its own layout, as reading does.
pub proof fn law_conversions_read_their_layout(s: Grid, id: Seq<u8>)
    ensures
        v0_at(s, id) is Some <==> s.meters.contains_key(id) && s.meters[id] is V0,
        v1_at(s, id) is Some <==> s.meters.contains_key(id) && s.meters[id] is V1,
        v2_at(s, id) is Some <==> s.meters.contains_key(id) && s.meters[id] is V2,
        v0_at(s, id) is Some ==> v0_at(s, id) == meter_of(s, id),
        v1_at(s, id) is Some ==> v1_at(s, id) == meter_of(s, id),
        v2_at(s, id) is Some ==> v2_at(s, id) == meter_of(s, id),
{
}

/// An entry needs no conversion where it is in the current layout and of version 2 or later.
pub proof fn law_current_entries_are_up_to_date(s: Grid, id: Seq<u8>)
    ensures
        up_to_date(s, id) <==> s.meters.contains_key(id) && s.meters[id] is Current
            && s.meters[id]->Current_0.version >= 2,
{
}

/// A conversion by hand stores the converted entry; an entry that needs none is left alone.
pub proof fn law_conversion_stores_the_entry(s: Grid, id: Seq<u8>, wanted: Option<MeterModel>)
    requires
        up_to_date(s, id) || wanted is Some,
    ensures
        ({
            let t = migrated_by_hand(s, id, wanted);
            &&& up_to_date(s, id) ==> t == s
            &&& !up_to_date(s, id) ==> meter_of(t, id) == wanted
            &&& !up_to_date(s, id) ==> t.meters == s.meters.insert(
                id,
                StoredMeter::Current(wanted->0),
            )
            &&& t == (Grid { meters: t.meters, ..s })
        }),
{
}

/// A conversion by hand is the administrator's to make, of an entry that is there in its layout
/// or needs none.
pub proof fn law_conversions_are_the_administrators(
    s: Grid,
    env: Invocation,
    id: Seq<u8>,
    wanted: Option<MeterModel>,
)
    ensures
        ({
            let answer = migration_refusal(s, env, id, wanted);
            let no_admin = s.admin is None;
            let admin_missing = s.admin is Some && !env.signers@.contains(s.admin->0);
            let nothing = !up_to_date(s, id) && wanted is None;
            &&& answer is None <==> !no_admin && !admin_missing && !nothing
            &&& no_admin ==> answer == refusal(ContractError::NotInitialized)
            &&& !no_admin && admin_missing ==> answer == Some(CallError::MissingAuth(s.admin->0))
            &&& !no_admin && !admin_missing && nothing
                ==> answer == refusal(ContractError::MeterNotFound)
        }),
{
}

} // verus!

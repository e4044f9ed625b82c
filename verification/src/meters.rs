//! Single meters: their state, their metadata and their emergency contact.

use vstd::prelude::*;

use crate::events::Event;
use crate::lists::{amount_at, read_amount};
use crate::state::{
    auth_refusal, meter_of, meter_settled, published, refusal, refuse, with_meter, Grid,
    Invocation, SolarGridContract,
};
use crate::types::{
    CallError, ContractError, Metadata, MetadataModel, Meter, MeterModel, MeterView,
};
use crate::values::{chars, Address, Text};

verus! {

/// The most key-value pairs a meter's metadata may have.
pub const MAX_METADATA_PAIRS: usize = 10;

/// The most characters a metadata value may have.
pub const MAX_METADATA_VALUE_LEN: usize = 100;

/// Whether metadata stays within its bounds.
pub open spec fn metadata_fits(metadata: MetadataModel) -> bool {
    &&& metadata.len() <= MAX_METADATA_PAIRS
    &&& forall|k: Seq<u8>|
        metadata.contains_key(k) ==> chars(#[trigger] metadata[k]) <= MAX_METADATA_VALUE_LEN
}

/// Refuses metadata that has too many pairs or a value that is too long.
pub fn validate_metadata(metadata: &Metadata) -> (r: Result<(), ContractError>)
    ensures
        r == if metadata_fits(metadata@) {
            Ok::<(), ContractError>(())
        } else {
            Err(ContractError::InvalidMetadata)
        },
{
    if metadata.len() > MAX_METADATA_PAIRS {
        return Err(ContractError::InvalidMetadata);
    }
    let mut i: usize = 0;
    while i < metadata.len()
        invariant
            i <= metadata.pairs().len(),
            forall|j: int|
                0 <= j < i ==> chars((#[trigger] metadata.pairs()[j]).1) <= MAX_METADATA_VALUE_LEN,
        decreases metadata.pairs().len() - i,
    {
        let (key, value) = metadata.at(i);
        if value.char_count() > MAX_METADATA_VALUE_LEN {
            assert(chars(metadata@[key@]) > MAX_METADATA_VALUE_LEN);
            return Err(ContractError::InvalidMetadata);
        }
        i = i + 1;
    }
    assert forall|k: Seq<u8>| metadata@.contains_key(k) implies chars(
        #[trigger] metadata@[k],
    ) <= MAX_METADATA_VALUE_LEN by {
        let j = choose|j: int|
            0 <= j < metadata.pairs().len() && (#[trigger] metadata.pairs()[j]).0 == k;
        assert(metadata@[k] == metadata.pairs()[j].1);
    }
    Ok(())
}

/// Whether the administrator has authorised the call.
pub open spec fn admin_signed(s: Grid, env: Invocation) -> bool {
    match s.admin {
        Some(admin) => env.signed(admin),
        None => false,
    }
}

/// Why a change of a meter's metadata is refused, if it is.
pub open spec fn metadata_refusal(
    s: Grid,
    env: Invocation,
    id: Seq<u8>,
    metadata: MetadataModel,
) -> Option<CallError> {
    if !metadata_fits(metadata) {
        refusal(ContractError::InvalidMetadata)
    } else {
        match meter_of(s, id) {
            None => refusal(ContractError::MeterNotFound),
            Some(m) => if admin_signed(s, env) {
                None
            } else {
                auth_refusal(env, m.owner)
            },
        }
    }
}

/// The state once a meter's metadata is replaced.
pub open spec fn metadata_replaced(s: Grid, id: Seq<u8>, metadata: MetadataModel) -> Grid {
    published(
        with_meter(s, id, Meter { metadata, ..meter_of(s, id)->0 }),
        Event::MetadataUpdated { meter_id: id },
    )
}

/// Why a call that only the meter's owner may make is refused, if it is.
pub open spec fn owner_refusal(s: Grid, env: Invocation, id: Seq<u8>) -> Option<CallError> {
    match meter_of(s, id) {
        None => refusal(ContractError::MeterNotFound),
        Some(m) => auth_refusal(env, m.owner),
    }
}

/// The state once a meter's emergency contact is set or cleared.
pub open spec fn contact_set(s: Grid, id: Seq<u8>, contact: Option<Address>) -> Grid {
    published(
        with_meter(s, id, Meter { emergency_contact: contact, ..meter_of(s, id)->0 }),
        Event::EmergencyContactSet { meter_id: id, contact },
    )
}

/// Whether `r` holds what `part` says of the meter under `id`, or reports that there is none.
pub open spec fn read_of<T>(
    r: Result<T, ContractError>,
    s: Grid,
    id: Seq<u8>,
    part: spec_fn(T, MeterModel) -> bool,
) -> bool {
    match r {
        Ok(value) => meter_of(s, id) is Some && part(value, meter_of(s, id)->0),
        Err(e) => meter_of(s, id) is None && e == ContractError::MeterNotFound,
    }
}

impl SolarGridContract {
    /// Replaces a meter's metadata. Its owner and the administrator may do so.
    pub fn update_meter_metadata(
        &mut self,
        env: &Invocation,
        meter_id: &Text,
        metadata: Metadata,
    ) -> (r: Result<(), CallError>)
        ensures
            match metadata_refusal(old(self)@, *env, meter_id@, metadata@) {
                Some(e) => r == Err::<(), CallError>(e) && final(self)@ == old(self)@,
                None => r is Ok && final(self)@ == metadata_replaced(
                    old(self)@,
                    meter_id@,
                    metadata@,
                ),
            },
    {
        if validate_metadata(&metadata).is_err() {
            return refuse(ContractError::InvalidMetadata);
        }
        let mut meter = self.find_meter(meter_id)?;
        if self.require_admin(env).is_err() {
            env.require_auth(meter.owner)?;
        }
        meter.metadata = metadata;
        self.put_meter(meter_id, meter);
        self.publish(Event::MetadataUpdated { meter_id: meter_id.clone() });
        Ok(())
    }

    /// A meter's metadata. An entry in an older layout is rewritten in the current one.
    pub fn get_meter_metadata(&mut self, meter_id: &Text) -> (r: Result<Metadata, ContractError>)
        ensures
            read_of(r, old(self)@, meter_id@, |v: Metadata, m: MeterModel| v@ == m.metadata),
            final(self)@ == meter_settled(old(self)@, meter_id@),
    {
        let meter = self.get_meter_or_error(meter_id)?;
        Ok(meter.metadata)
    }

    /// The prepaid balance of a meter.
    pub fn get_meter_balance(&self, meter_id: &Text) -> (r: Result<i128, ContractError>)
        ensures
            r == if self@.meters.contains_key(meter_id@) {
                Ok::<i128, ContractError>(amount_at(self@.balances, meter_id@))
            } else {
                Err(ContractError::MeterNotFound)
            },
    {
        if !self.meters.contains(meter_id) {
            return Err(ContractError::MeterNotFound);
        }
        Ok(read_amount(&self.balances, meter_id))
    }

    /// A meter's state. An entry in an older layout is rewritten in the current one.
    pub fn get_meter(&mut self, meter_id: &Text) -> (r: Result<Meter<Metadata>, ContractError>)
        ensures
            read_of(
                r,
                old(self)@,
                meter_id@,
                |v: Meter<Metadata>, m: MeterModel| v.deep_view() == m,
            ),
            final(self)@ == meter_settled(old(self)@, meter_id@),
    {
        self.get_meter_or_error(meter_id)
    }

    /// A meter's state together with its balance. An entry in an older layout is rewritten in the
    /// current one.
    pub fn get_meter_full(&mut self, meter_id: &Text) -> (r: Result<MeterView, ContractError>)
        ensures
            read_of(
                r,
                old(self)@,
                meter_id@,
                |v: MeterView, m: MeterModel|
                    v.meter.deep_view() == m && v.balance == amount_at(
                        old(self)@.balances,
                        meter_id@,
                    ),
            ),
            final(self)@ == meter_settled(old(self)@, meter_id@),
    {
        let meter = self.get_meter_or_error(meter_id)?;
        let balance: i128 = read_amount(&self.balances, meter_id);
        Ok(MeterView { meter, balance })
    }

    /// Sets or clears whom to notify when a meter's balance is critically low. Only the meter's
    /// owner may do so.
    pub fn set_emergency_contact(
        &mut self,
        env: &Invocation,
        meter_id: &Text,
        contact: Option<Address>,
    ) -> (r: Result<(), CallError>)
        ensures
            match owner_refusal(old(self)@, *env, meter_id@) {
                Some(e) => r == Err::<(), CallError>(e) && final(self)@ == old(self)@,
                None => r is Ok && final(self)@ == contact_set(old(self)@, meter_id@, contact),
            },
    {
        let mut meter = self.find_meter(meter_id)?;
        env.require_auth(meter.owner)?;
        meter.emergency_contact = contact;
        self.put_meter(meter_id, meter);
        self.publish(Event::EmergencyContactSet { meter_id: meter_id.clone(), contact });
        Ok(())
    }

    /// Whom to notify when a meter's balance is critically low. An entry in an older layout is
    /// rewritten in the current one.
    pub fn get_emergency_contact(&mut self, meter_id: &Text) -> (r: Result<
        Option<Address>,
        ContractError,
    >)
        ensures
            read_of(
                r,
                old(self)@,
                meter_id@,
                |v: Option<Address>, m: MeterModel| v == m.emergency_contact,
            ),
            final(self)@ == meter_settled(old(self)@, meter_id@),
    {
        let meter = self.get_meter_or_error(meter_id)?;
        Ok(meter.emergency_contact)
    }
}

} // verus!

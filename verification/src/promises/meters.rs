//! What can be read of a meter and noted on it.

use vstd::prelude::*;

use crate::events::Event;
use crate::meters::{
    admin_signed, contact_set, metadata_fits, metadata_refusal, metadata_replaced, owner_refusal,
    read_of,
};
use crate::migration::migrated;
use crate::state::{meter_of, refusal, Grid, Invocation};
use crate::types::{CallError, ContractError, MetadataModel, Meter, MeterModel, StoredMeter};
use crate::values::{chars, Address};

verus! {

/// Metadata fits where it has at most 10 pairs and no value of more than 100 characters.
pub proof fn law_metadata_is_limited(metadata: MetadataModel)
    ensures
        metadata_fits(metadata) <==> metadata.len() <= 10 && forall|k: Seq<u8>|
            metadata.contains_key(k) ==> chars(#[trigger] metadata[k]) <= 100,
{
}

/// The administrator has signed where there is one, and it is among the signers.
pub proof fn law_administrator_signature(s: Grid, env: Invocation)
    ensures
        admin_signed(s, env) <==> s.admin is Some && env.signers@.contains(s.admin->0),
{
}

/// A read gives a part of the meter that is there, and the answer that there is none otherwise.
pub proof fn law_reads_answer_for_the_meter<T>(
    s: Grid,
    id: Seq<u8>,
    part: spec_fn(T, MeterModel) -> bool,
    value: T,
    e: ContractError,
)
    ensures
        read_of(Ok(value), s, id, part) <==> s.meters.contains_key(id) && part(
            value,
            migrated(s.meters[id]),
        ),
        read_of(Err(e), s, id, part) <==> !s.meters.contains_key(id) && e
            == ContractError::MeterNotFound,
{
}

/// Metadata that fits is set on a meter that is there, by the administrator or by its owner.
pub proof fn law_metadata_is_let_in(s: Grid, env: Invocation, id: Seq<u8>, metadata: MetadataModel)
    ensures
        ({
            let answer = metadata_refusal(s, env, id, metadata);
            let too_much = !metadata_fits(metadata);
            let unknown = !s.meters.contains_key(id);
            let missing = s.meters.contains_key(id) && !admin_signed(s, env)
                && !env.signers@.contains(meter_of(s, id)->0.owner);
            &&& answer is None <==> !too_much && !unknown && !missing
            &&& too_much ==> answer == refusal(ContractError::InvalidMetadata)
            &&& !too_much && unknown ==> answer == refusal(ContractError::MeterNotFound)
            &&& !too_much && !unknown && missing
                ==> answer == Some(CallError::MissingAuth(meter_of(s, id)->0.owner))
        }),
{
}

/// The owner's calls go through on a meter that is there, with its owner's signature.
pub proof fn law_owners_calls_are_let_in(s: Grid, env: Invocation, id: Seq<u8>)
    ensures
        ({
            let answer = owner_refusal(s, env, id);
            let unknown = !s.meters.contains_key(id);
            let missing = s.meters.contains_key(id)
                && !env.signers@.contains(meter_of(s, id)->0.owner);
            &&& answer is None <==> !unknown && !missing
            &&& unknown ==> answer == refusal(ContractError::MeterNotFound)
            &&& !unknown && missing
                ==> answer == Some(CallError::MissingAuth(meter_of(s, id)->0.owner))
        }),
{
}

/// Setting the metadata replaces all of it, on that meter only, and nothing else of the meter.
pub proof fn law_metadata_is_replaced(s: Grid, id: Seq<u8>, metadata: MetadataModel)
    requires
        s.meters.contains_key(id),
    ensures
        ({
            let t = metadata_replaced(s, id, metadata);
            let after = meter_of(t, id)->0;
            &&& after.metadata == metadata
            &&& after == (Meter { metadata: after.metadata, ..meter_of(s, id)->0 })
            &&& t.meters == s.meters.insert(id, StoredMeter::Current(after))
            &&& t.events == s.events.push(Event::MetadataUpdated { meter_id: id })
            &&& t == (Grid { meters: t.meters, events: t.events, ..s })
        }),
{
}

/// Setting the contact replaces it, on that meter only, and nothing else of the meter.
pub proof fn law_contact_is_replaced(s: Grid, id: Seq<u8>, contact: Option<Address>)
    requires
        s.meters.contains_key(id),
    ensures
        ({
            let t = contact_set(s, id, contact);
            let after = meter_of(t, id)->0;
            &&& after.emergency_contact == contact
            &&& after == (Meter {
                emergency_contact: after.emergency_contact,
                ..meter_of(s, id)->0
            })
            &&& t.meters == s.meters.insert(id, StoredMeter::Current(after))
            &&& t.events == s.events.push(Event::EmergencyContactSet { meter_id: id, contact })
            &&& t == (Grid { meters: t.meters, events: t.events, ..s })
        }),
{
}

} // verus!

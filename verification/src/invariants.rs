//! What holds of every state the contract can reach: the predicate `consistent`, and proofs that
//! a fresh contract meets it and that every operation keeps it.

use vstd::prelude::*;

use crate::access::{allowed, disallowed, initialised, pause_called, pause_lifted};
use crate::activation::{batch_deactivated, deactivation_stepped, expired, switch_refusal, switched};
use crate::collaborators::{
    add_collaborator_refusal, collaborator_added, collaborator_removed, lemma_share_sum,
    lemma_share_sum_same, total_share, FULL_SHARE,
};
use crate::lists::{amount_at, lemma_without_contains, lemma_without_distinct, list_at, without};
use crate::meters::{contact_set, metadata_fits, metadata_replaced};
use crate::migration::{migrated_by_hand, v0_at, v1_at, v2_at};
use crate::multisig::{
    approve_refusal, approved, bulk_deactivated, configure_refusal, performed, propose_refusal,
    proposal_spent, proposed,
};
use crate::payments::{
    delegate_added, delegate_removed, payment_booked, payment_completed, PendingPayment,
};
use crate::refunds::{
    refund_booked, refund_completed, refund_refusal, refund_request, PendingRefund,
};
use crate::registry::{
    batch_registered, deregistered, meter_added, new_meter, ownership_transferred,
    MAX_OWNERSHIP_HISTORY,
};
use crate::state::{
    current_meter, fresh, meter_of, meter_settled, pause_settled, with_meter, Grid, Invocation,
};
use crate::types::{AdminOperation, MetadataModel, Meter, MeterModel, OperationModel, PaymentPlan};
use crate::usage::{
    balance_left, batch_used, charge_refusal, charge_reported, charged, daily_limit_set,
    grace_granted, usage_applied, usage_stepped,
};
use crate::values::Address;
use crate::withdrawals::{revenue_refusal, revenue_withdrawn};

verus! {

/// The registry agrees with itself: each meter is listed once, and once in the list of its owner
/// and in no other owner's list.
pub open spec fn registry_consistent(s: Grid) -> bool {
    &&& s.meter_list.no_duplicates()
    &&& forall|id: Seq<u8>| #[trigger] s.meter_list.contains(id) <==> meter_of(s, id) is Some
    &&& forall|owner: Address| (#[trigger] list_at(s.owner_meters, owner)).no_duplicates()
    &&& forall|owner: Address, id: Seq<u8>| #[trigger]
        list_at(s.owner_meters, owner).contains(id) <==> meter_of(s, id) is Some && meter_of(
            s,
            id,
        )->0.owner == owner
}

/// No balance and no revenue is below zero, and nobody was refunded more than they have paid.
pub open spec fn money_consistent(s: Grid) -> bool {
    &&& forall|id: Seq<u8>| #[trigger] amount_at(s.balances, id) >= 0
    &&& forall|who: Address| #[trigger] amount_at(s.provider_revenue, who) >= 0
    &&& forall|key: (Seq<u8>, Address)|
        0 <= #[trigger] amount_at(s.payer_refunded, key) <= amount_at(s.payer_paid, key)
}

/// A meter that is on has a balance or is in a grace period, and its metadata is within bounds.
pub open spec fn meters_consistent(s: Grid) -> bool {
    forall|id: Seq<u8>|
        meter_of(s, id) is Some ==> sound_meter(
            (#[trigger] meter_of(s, id))->0,
            amount_at(s.balances, id),
        )
}

/// What holds of one meter and its balance.
pub open spec fn sound_meter(m: MeterModel, balance: i128) -> bool {
    &&& m.active ==> balance > 0 || m.grace_expires_at is Some
    &&& metadata_fits(m.metadata)
}

/// Nobody is listed twice, and the collaborators' shares are not more than the whole.
pub open spec fn people_consistent(s: Grid) -> bool {
    &&& s.allowlist.no_duplicates()
    &&& forall|id: Seq<u8>| (#[trigger] list_at(s.delegates, id)).no_duplicates()
    &&& s.collaborators.no_duplicates()
    &&& forall|who: Address| #[trigger]
        s.collaborators.contains(who) <==> s.shares.contains_key(who)
    &&& s.shares.dom().finite()
    &&& total_share(s.shares) <= FULL_SHARE
}

/// No meter has more changes of owner on record than are kept.
pub open spec fn history_consistent(s: Grid) -> bool {
    forall|id: Seq<u8>| (#[trigger] list_at(s.ownership_history, id)).len() <= MAX_OWNERSHIP_HISTORY
}

/// Whoever decides together is properly appointed, ids of proposals were handed out, and each
/// proposal needs an approval and has nobody's twice.
pub open spec fn proposals_consistent(s: Grid) -> bool {
    &&& s.multisig_admins.len() == 0 || 1 <= s.multisig_threshold <= s.multisig_admins.len()
    &&& forall|id: u32| #[trigger]
        s.proposals.contains_key(id) ==> {
            &&& id < s.proposal_count
            &&& s.proposals[id].approvals.no_duplicates()
            &&& s.proposals[id].threshold >= 1
        }
}

/// What holds of every state the contract can reach.
pub open spec fn consistent(s: Grid) -> bool {
    &&& registry_consistent(s)
    &&& money_consistent(s)
    &&& meters_consistent(s)
    &&& people_consistent(s)
    &&& history_consistent(s)
    &&& proposals_consistent(s)
}

/// Whether both states hold the same records. They may differ in settings, in the lock and in what
/// was published.
pub open spec fn same_records(s: Grid, t: Grid) -> bool {
    &&& t.allowlist == s.allowlist
    &&& t.meter_list == s.meter_list
    &&& t.collaborators == s.collaborators
    &&& t.shares == s.shares
    &&& t.multisig_admins == s.multisig_admins
    &&& t.multisig_threshold == s.multisig_threshold
    &&& t.proposal_count == s.proposal_count
    &&& t.meters == s.meters
    &&& t.owner_meters == s.owner_meters
    &&& t.ownership_history == s.ownership_history
    &&& t.provider_revenue == s.provider_revenue
    &&& t.balances == s.balances
    &&& t.payer_paid == s.payer_paid
    &&& t.payer_refunded == s.payer_refunded
    &&& t.delegates == s.delegates
    &&& t.proposals == s.proposals
}

/// A contract that was just deployed is consistent.
pub proof fn law_fresh_is_consistent()
    ensures
        consistent(fresh()),
{
    assert(total_share(fresh().shares) == 0) by {
        assert(fresh().shares.dom() =~= Set::<Address>::empty());
    }
}

/// Changing settings, taking or giving back the lock and publishing keep the state consistent.
pub proof fn law_settings_keep_consistency(s: Grid, t: Grid)
    requires
        consistent(s),
        same_records(s, t),
    ensures
        consistent(t),
{
    assert(forall|id: Seq<u8>| #[trigger] meter_of(t, id) == meter_of(s, id));
}

/// Initialisation, the pause and the ends of calls that moved tokens keep the state consistent.
pub proof fn law_endings_keep_consistency(
    s: Grid,
    admin: Address,
    token: Address,
    now: u64,
    payment: PendingPayment<Seq<u8>>,
    refund: PendingRefund<Seq<u8>>,
)
    requires
        consistent(s),
    ensures
        consistent(initialised(s, admin, token)),
        consistent(pause_settled(s, now)),
        consistent(pause_called(s, now)),
        consistent(pause_lifted(s, now)),
        consistent(payment_completed(s, payment)),
        consistent(refund_completed(s, refund)),
        consistent((Grid { locked: true, ..s })),
        consistent((Grid { locked: false, ..s })),
{
    law_settings_keep_consistency(s, initialised(s, admin, token));
    law_settings_keep_consistency(s, pause_settled(s, now));
    law_settings_keep_consistency(s, pause_called(s, now));
    law_settings_keep_consistency(s, pause_lifted(s, now));
    law_settings_keep_consistency(s, payment_completed(s, payment));
    law_settings_keep_consistency(s, refund_completed(s, refund));
    law_settings_keep_consistency(s, Grid { locked: true, ..s });
    law_settings_keep_consistency(s, Grid { locked: false, ..s });
}

/// Storing a sound meter with its owner unchanged, and a balance, keeps the registry and the
/// meters consistent.
proof fn lemma_meter_stored(s: Grid, t: Grid, id: Seq<u8>, meter: MeterModel)
    requires
        registry_consistent(s),
        meters_consistent(s),
        meter_of(s, id) is Some,
        meter.owner == meter_of(s, id)->0.owner,
        t.meter_list == s.meter_list,
        t.owner_meters == s.owner_meters,
        t.meters == with_meter(s, id, meter).meters,
        forall|other: Seq<u8>|
            other != id ==> #[trigger] amount_at(t.balances, other) == amount_at(s.balances, other),
        sound_meter(meter, amount_at(t.balances, id)),
    ensures
        registry_consistent(t),
        meters_consistent(t),
{
    assert(forall|other: Seq<u8>|
        other != id ==> #[trigger] meter_of(t, other) == meter_of(s, other));
    assert(meter_of(t, id) == Some(meter));
    assert(forall|other: Seq<u8>| s.meter_list.contains(other) == #[trigger] t.meter_list.contains(
        other,
    ));
    assert forall|owner: Address, other: Seq<u8>| #[trigger]
        list_at(t.owner_meters, owner).contains(other) <==> meter_of(t, other) is Some && meter_of(
            t,
            other,
        )->0.owner == owner by {
        assert(list_at(s.owner_meters, owner).contains(other) <==> meter_of(s, other) is Some
            && meter_of(s, other)->0.owner == owner);
    }
}

/// A meter that is rewritten in the current layout keeps the state consistent.
pub proof fn law_settling_keeps_consistency(s: Grid, id: Seq<u8>)
    requires
        consistent(s),
    ensures
        consistent(meter_settled(s, id)),
{
    if meter_of(s, id) is Some {
        lemma_meter_stored(s, meter_settled(s, id), id, meter_of(s, id)->0);
    }
}

/// Migrating a meter by hand keeps the state consistent.
pub proof fn law_migration_keeps_consistency(s: Grid, id: Seq<u8>)
    requires
        consistent(s),
    ensures
        v0_at(s, id) is Some ==> consistent(migrated_by_hand(s, id, v0_at(s, id))),
        v1_at(s, id) is Some ==> consistent(migrated_by_hand(s, id, v1_at(s, id))),
        v2_at(s, id) is Some ==> consistent(migrated_by_hand(s, id, v2_at(s, id))),
{
    law_settling_keeps_consistency(s, id);
}

/// Registering a meter keeps the state consistent.
pub proof fn law_registration_keeps_consistency(
    s: Grid,
    id: Seq<u8>,
    owner: Address,
    now: u64,
    metadata: MetadataModel,
)
    requires
        consistent(s),
        !s.meters.contains_key(id),
        metadata_fits(metadata),
    ensures
        consistent(meter_added(s, id, new_meter(owner, now, metadata))),
{
    let meter = new_meter(owner, now, metadata);
    let t = meter_added(s, id, meter);
    assert(meter_of(s, id) is None);
    assert(forall|other: Seq<u8>|
        other != id ==> #[trigger] meter_of(t, other) == meter_of(s, other));
    assert(meter_of(t, id) == Some(meter));
    assert(!s.meter_list.contains(id));
    lemma_pushed_distinct(s.meter_list, id);
    assert forall|other: Seq<u8>| #[trigger] t.meter_list.contains(other) <==> meter_of(
        t,
        other,
    ) is Some by {
        lemma_pushed_contains(s.meter_list, id, other);
        assert(s.meter_list.contains(other) <==> meter_of(s, other) is Some);
    }
    let list = list_at(s.owner_meters, owner);
    assert(!list.contains(id));
    lemma_pushed_distinct(list, id);
    assert forall|who: Address| (#[trigger] list_at(t.owner_meters, who)).no_duplicates() by {
        if who != owner {
            assert(list_at(t.owner_meters, who) == list_at(s.owner_meters, who));
        }
    }
    assert forall|who: Address, other: Seq<u8>| #[trigger]
        list_at(t.owner_meters, who).contains(other) <==> meter_of(t, other) is Some && meter_of(
            t,
            other,
        )->0.owner == who by {
        assert(list_at(s.owner_meters, who).contains(other) <==> meter_of(s, other) is Some
            && meter_of(s, other)->0.owner == who);
        if who == owner {
            lemma_pushed_contains(list, id, other);
        } else {
            assert(list_at(t.owner_meters, who) == list_at(s.owner_meters, who));
        }
    }
}

/// An item that is not in a list can be appended without repeating one.
pub proof fn lemma_pushed_distinct<T>(list: Seq<T>, item: T)
    requires
        list.no_duplicates(),
        !list.contains(item),
    ensures
        list.push(item).no_duplicates(),
{
    assert(forall|i: int| 0 <= i < list.len() ==> list.contains(#[trigger] list[i]));
}

/// What a list holds once an item is appended.
pub proof fn lemma_pushed_contains<T>(list: Seq<T>, item: T, other: T)
    ensures
        list.push(item).contains(other) <==> list.contains(other) || other == item,
{
    let longer = list.push(item);
    if list.contains(other) {
        let i = choose|i: int| 0 <= i < list.len() && list[i] == other;
        assert(longer[i] == other);
    }
    if longer.contains(other) {
        let i = choose|i: int| 0 <= i < longer.len() && longer[i] == other;
        if i < list.len() {
            assert(list[i] == other);
        }
    }
    assert(longer[list.len() as int] == item);
}

/// Going through a batch of registrations keeps the state consistent.
pub proof fn law_batch_registration_keeps_consistency(
    s: Grid,
    now: u64,
    entries: Seq<(Seq<u8>, Address)>,
)
    requires
        consistent(s),
    ensures
        consistent(batch_registered(s, now, entries).0),
    decreases entries.len(),
{
    if entries.len() > 0 {
        law_batch_registration_keeps_consistency(s, now, entries.drop_last());
        let before = batch_registered(s, now, entries.drop_last()).0;
        let (id, owner) = entries.last();
        if before.meters.contains_key(id) || !before.allowlist.contains(owner) {
            law_settings_keep_consistency(before, batch_registered(s, now, entries).0);
        } else {
            assert(Map::<Seq<u8>, Seq<u8>>::empty().dom() =~= Set::empty());
            law_registration_keeps_consistency(before, id, owner, now, Map::empty());
        }
    }
}

/// Taking a meter off the registry keeps the state consistent.
pub proof fn law_deregistration_keeps_consistency(s: Grid, id: Seq<u8>)
    requires
        consistent(s),
        meter_of(s, id) is Some,
    ensures
        consistent(deregistered(s, id)),
{
    let t = deregistered(s, id);
    let owner = meter_of(s, id)->0.owner;
    assert(forall|other: Seq<u8>|
        other != id ==> #[trigger] meter_of(t, other) == meter_of(s, other));
    assert(meter_of(t, id) is None);
    assert(forall|other: Seq<u8>|
        other != id ==> #[trigger] amount_at(t.balances, other) == amount_at(s.balances, other));
    lemma_without_distinct(s.meter_list, id);
    lemma_without_contains(s.meter_list, id);
    assert forall|other: Seq<u8>| #[trigger] t.meter_list.contains(other) <==> meter_of(
        t,
        other,
    ) is Some by {
        assert(s.meter_list.contains(other) <==> meter_of(s, other) is Some);
    }
    let list = list_at(s.owner_meters, owner);
    lemma_without_distinct(list, id);
    lemma_without_contains(list, id);
    assert forall|who: Address| (#[trigger] list_at(t.owner_meters, who)).no_duplicates() by {
        if who != owner {
            assert(list_at(t.owner_meters, who) == list_at(s.owner_meters, who));
        }
    }
    assert forall|who: Address, other: Seq<u8>| #[trigger]
        list_at(t.owner_meters, who).contains(other) <==> meter_of(t, other) is Some && meter_of(
            t,
            other,
        )->0.owner == who by {
        assert(list_at(s.owner_meters, who).contains(other) <==> meter_of(s, other) is Some
            && meter_of(s, other)->0.owner == who);
        if who != owner {
            assert(list_at(t.owner_meters, who) == list_at(s.owner_meters, who));
        }
    }
}

/// Handing a meter to a new owner keeps the state consistent.
pub proof fn law_transfer_keeps_consistency(s: Grid, id: Seq<u8>, new_owner: Address, now: u64)
    requires
        consistent(s),
        meter_of(s, id) is Some,
    ensures
        consistent(ownership_transferred(s, id, new_owner, now)),
{
    let t = ownership_transferred(s, id, new_owner, now);
    let meter = meter_of(s, id)->0;
    let old_owner = meter.owner;
    assert(forall|other: Seq<u8>|
        other != id ==> #[trigger] meter_of(t, other) == meter_of(s, other));
    assert(meter_of(t, id) == Some(Meter { owner: new_owner, units_used: 0, ..meter }));
    assert forall|other: Seq<u8>| #[trigger] t.meter_list.contains(other) <==> meter_of(
        t,
        other,
    ) is Some by {
        assert(s.meter_list.contains(other) <==> meter_of(s, other) is Some);
    }
    let taken = s.owner_meters.insert(old_owner, without(list_at(s.owner_meters, old_owner), id));
    lemma_without_distinct(list_at(s.owner_meters, old_owner), id);
    lemma_without_contains(list_at(s.owner_meters, old_owner), id);
    assert forall|who: Address, other: Seq<u8>| #[trigger]
        list_at(taken, who).contains(other) <==> other != id && meter_of(s, other) is Some
            && meter_of(s, other)->0.owner == who by {
        assert(list_at(s.owner_meters, who).contains(other) <==> meter_of(s, other) is Some
            && meter_of(s, other)->0.owner == who);
    }
    assert forall|who: Address| (#[trigger] list_at(taken, who)).no_duplicates() by {
        assert(list_at(s.owner_meters, who).no_duplicates());
    }
    let list = list_at(taken, new_owner);
    assert(!list.contains(id));
    lemma_pushed_distinct(list, id);
    assert forall|who: Address| (#[trigger] list_at(t.owner_meters, who)).no_duplicates() by {
        assert(list_at(taken, who).no_duplicates());
    }
    assert forall|who: Address, other: Seq<u8>| #[trigger]
        list_at(t.owner_meters, who).contains(other) <==> meter_of(t, other) is Some && meter_of(
            t,
            other,
        )->0.owner == who by {
        assert(list_at(taken, who).contains(other) <==> other != id && meter_of(s, other) is Some
            && meter_of(s, other)->0.owner == who);
        if who == new_owner {
            lemma_pushed_contains(list, id, other);
        }
    }
    assert forall|other: Seq<u8>| (#[trigger] list_at(t.ownership_history, other)).len()
        <= MAX_OWNERSHIP_HISTORY by {
        assert(list_at(s.ownership_history, other).len() <= MAX_OWNERSHIP_HISTORY);
    }
}

/// Replacing a meter's metadata, its emergency contact or its daily limit keeps the state
/// consistent.
pub proof fn law_meter_changes_keep_consistency(
    s: Grid,
    id: Seq<u8>,
    metadata: MetadataModel,
    contact: Option<Address>,
    limit: i128,
)
    requires
        consistent(s),
        meter_of(s, id) is Some,
        metadata_fits(metadata),
    ensures
        consistent(metadata_replaced(s, id, metadata)),
        consistent(contact_set(s, id, contact)),
        consistent(daily_limit_set(s, id, limit)),
{
    let m = meter_of(s, id)->0;
    lemma_meter_stored(s, metadata_replaced(s, id, metadata), id, Meter { metadata, ..m });
    lemma_meter_stored(
        s,
        contact_set(s, id, contact),
        id,
        Meter { emergency_contact: contact, ..m },
    );
    lemma_meter_stored(s, daily_limit_set(s, id, limit), id, Meter { daily_limit: limit, ..m });
}

/// A payment keeps the state consistent.
pub proof fn law_payment_keeps_consistency(
    s: Grid,
    id: Seq<u8>,
    payer: Address,
    amount: i128,
    plan: PaymentPlan,
    expires_at: u64,
    now: u64,
)
    requires
        consistent(s),
        meter_of(s, id) is Some,
        amount > 0,
    ensures
        consistent(payment_booked(s, id, payer, amount, plan, expires_at, now)),
{
    let t = payment_booked(s, id, payer, amount, plan, expires_at, now);
    let admin = s.admin->0;
    assert(amount_at(s.balances, id) >= 0);
    assert(amount_at(s.provider_revenue, admin) >= 0);
    assert(amount_at(s.payer_refunded, (id, payer)) >= 0);
    lemma_meter_stored(s, t, id, meter_of(t, id)->0);
    assert forall|other: Seq<u8>| #[trigger] amount_at(t.balances, other) >= 0 by {
        assert(amount_at(s.balances, other) >= 0);
    }
    assert forall|who: Address| #[trigger] amount_at(t.provider_revenue, who) >= 0 by {
        assert(amount_at(s.provider_revenue, who) >= 0);
    }
    assert forall|key: (Seq<u8>, Address)|
        0 <= #[trigger] amount_at(t.payer_refunded, key) <= amount_at(t.payer_paid, key) by {
        assert(0 <= amount_at(s.payer_refunded, key) <= amount_at(s.payer_paid, key));
    }
}

/// A refund that was asked for in a consistent state keeps it consistent.
pub proof fn law_refund_keeps_consistency(
    s: Grid,
    env: Invocation,
    id: Seq<u8>,
    amount: i128,
    recipient: Address,
    reason: Seq<u8>,
)
    requires
        consistent(s),
        refund_refusal(s, env, id, amount, recipient) is None,
    ensures
        consistent(
            refund_booked(
                Grid { locked: true, ..s },
                refund_request(s, env, id, amount, recipient, reason),
            ),
        ),
{
    let asked = Grid { locked: true, ..s };
    let p = refund_request(s, env, id, amount, recipient, reason);
    let t = refund_booked(asked, p);
    let admin = s.admin->0;
    law_settings_keep_consistency(s, asked);
    assert(0 <= amount_at(s.payer_refunded, (id, recipient)) <= amount_at(
        s.payer_paid,
        (id, recipient),
    ));
    assert(amount_at(s.balances, id) >= 0);
    assert(meter_of(s, id) == Some(p.meter));
    assert(sound_meter(p.meter, amount_at(s.balances, id)));
    assert(meter_of(t, id) is Some);
    assert(t.meters =~= with_meter(asked, id, meter_of(t, id)->0).meters);
    lemma_meter_stored(asked, t, id, meter_of(t, id)->0);
    assert forall|other: Seq<u8>| #[trigger] amount_at(t.balances, other) >= 0 by {
        assert(amount_at(s.balances, other) >= 0);
    }
    assert forall|who: Address| #[trigger] amount_at(t.provider_revenue, who) >= 0 by {
        assert(amount_at(s.provider_revenue, who) >= 0);
    }
    assert forall|key: (Seq<u8>, Address)|
        0 <= #[trigger] amount_at(t.payer_refunded, key) <= amount_at(t.payer_paid, key) by {
        assert(0 <= amount_at(s.payer_refunded, key) <= amount_at(s.payer_paid, key));
    }
}

/// Withdrawing revenue keeps the state consistent.
pub proof fn law_withdrawal_keeps_consistency(
    s: Grid,
    env: Invocation,
    provider: Address,
    amount: i128,
)
    requires
        consistent(s),
        revenue_refusal(s, env, provider, amount) is None,
    ensures
        consistent(revenue_withdrawn(s, provider, amount)),
{
    let t = revenue_withdrawn(s, provider, amount);
    assert forall|who: Address| #[trigger] amount_at(t.provider_revenue, who) >= 0 by {
        assert(amount_at(s.provider_revenue, who) >= 0);
    }
    assert(forall|id: Seq<u8>| #[trigger] meter_of(t, id) == meter_of(s, id));
}

/// Charging a meter keeps the state consistent.
pub proof fn law_usage_keeps_consistency(
    s: Grid,
    id: Seq<u8>,
    units: u64,
    cost: i128,
    now: u64,
)
    requires
        consistent(s),
        meter_of(s, id) is Some,
    ensures
        consistent(usage_applied(s, id, meter_of(s, id)->0, units, cost, now)),
        consistent(charge_reported(s, id, meter_of(s, id)->0, cost, now)),
{
    let m = meter_of(s, id)->0;
    let t = usage_applied(s, id, m, units, cost, now);
    law_settings_keep_consistency(s, charge_reported(s, id, m, cost, now));
    lemma_meter_stored(
        s,
        t,
        id,
        charged(m, balance_left(s, id, cost), units, cost, grace_granted(s), now),
    );
    assert forall|other: Seq<u8>| #[trigger] amount_at(t.balances, other) >= 0 by {
        assert(amount_at(s.balances, other) >= 0);
    }
}

/// Going through a batch of usage updates keeps the state consistent.
pub proof fn law_batch_usage_keeps_consistency(
    s: Grid,
    now: u64,
    updates: Seq<(Seq<u8>, u64, i128)>,
)
    requires
        consistent(s),
    ensures
        consistent(batch_used(s, now, updates).0),
    decreases updates.len(),
{
    if updates.len() > 0 {
        law_batch_usage_keeps_consistency(s, now, updates.drop_last());
        let before = batch_used(s, now, updates.drop_last()).0;
        let (id, units, cost) = updates.last();
        let after = usage_stepped(before, now, id, units, cost).0;
        if current_meter(before, id) is Some {
            assert(meter_of(before, id) == current_meter(before, id));
            law_usage_keeps_consistency(before, id, units, cost, now);
            if charge_refusal(current_meter(before, id)->0, cost, now) is Some {
                law_settings_keep_consistency(before, after);
            }
        } else {
            law_settings_keep_consistency(before, after);
        }
    }
}

/// Switching a meter by hand, where that is not refused, keeps the state consistent.
pub proof fn law_switching_keeps_consistency(s: Grid, env: Invocation, id: Seq<u8>, active: bool)
    requires
        consistent(s),
        switch_refusal(s, env, id, active) is None,
    ensures
        consistent(switched(s, id, active)),
{
    assert(amount_at(s.balances, id) >= 0);
    lemma_meter_stored(s, switched(s, id, active), id, Meter { active, ..meter_of(s, id)->0 });
}

/// Expiring a meter keeps the state consistent.
pub proof fn law_expiry_keeps_consistency(s: Grid, id: Seq<u8>, now: u64)
    requires
        consistent(s),
        current_meter(s, id) is Some,
    ensures
        consistent(expired(s, id, now)),
{
    assert(meter_of(s, id) == current_meter(s, id));
    lemma_meter_stored(
        s,
        expired(s, id, now),
        id,
        Meter { expires_at: now, active: false, ..meter_of(s, id)->0 },
    );
}

/// Going through a batch of deactivations keeps the state consistent.
pub proof fn law_batch_deactivation_keeps_consistency(s: Grid, ids: Seq<Seq<u8>>)
    requires
        consistent(s),
    ensures
        consistent(batch_deactivated(s, ids).0),
        consistent(bulk_deactivated(s, ids)),
    decreases ids.len(),
{
    if ids.len() > 0 {
        law_batch_deactivation_keeps_consistency(s, ids.drop_last());
        let id = ids.last();
        let before = batch_deactivated(s, ids.drop_last()).0;
        let after = deactivation_stepped(before, id).0;
        if current_meter(before, id) is Some && current_meter(before, id)->0.active {
            assert(meter_of(before, id) == current_meter(before, id));
            lemma_meter_stored(
                before,
                after,
                id,
                Meter { active: false, ..meter_of(before, id)->0 },
            );
        } else {
            law_settings_keep_consistency(before, after);
        }
        let before = bulk_deactivated(s, ids.drop_last());
        if current_meter(before, id) is Some {
            assert(meter_of(before, id) == current_meter(before, id));
            lemma_meter_stored(
                before,
                bulk_deactivated(s, ids),
                id,
                Meter { active: false, ..meter_of(before, id)->0 },
            );
        }
    }
}

/// Changing the allowlist and a meter's delegates keeps the state consistent.
pub proof fn law_lists_keep_consistency(s: Grid, id: Seq<u8>, who: Address)
    requires
        consistent(s),
    ensures
        consistent(allowed(s, who)),
        consistent(disallowed(s, who)),
        consistent(delegate_added(s, id, who)),
        consistent(delegate_removed(s, id, who)),
{
    if s.allowlist.contains(who) {
        lemma_without_distinct(s.allowlist, who);
    } else {
        lemma_pushed_distinct(s.allowlist, who);
    }
    let list = list_at(s.delegates, id);
    assert(list.no_duplicates());
    if list.contains(who) {
        lemma_without_distinct(list, who);
    } else {
        lemma_pushed_distinct(list, who);
    }
    let t = allowed(s, who);
    assert(forall|other: Seq<u8>| #[trigger] meter_of(t, other) == meter_of(s, other));
    let t = disallowed(s, who);
    assert(forall|other: Seq<u8>| #[trigger] meter_of(t, other) == meter_of(s, other));
    let t = delegate_added(s, id, who);
    assert(forall|other: Seq<u8>| #[trigger] meter_of(t, other) == meter_of(s, other));
    assert forall|other: Seq<u8>| (#[trigger] list_at(t.delegates, other)).no_duplicates() by {
        assert(list_at(s.delegates, other).no_duplicates());
    }
    let t = delegate_removed(s, id, who);
    assert(forall|other: Seq<u8>| #[trigger] meter_of(t, other) == meter_of(s, other));
    assert forall|other: Seq<u8>| (#[trigger] list_at(t.delegates, other)).no_duplicates() by {
        assert(list_at(s.delegates, other).no_duplicates());
    }
}

/// Adding a collaborator, where that is not refused, keeps the state consistent.
pub proof fn law_adding_collaborator_keeps_consistency(
    s: Grid,
    env: Invocation,
    who: Address,
    basis_points: u32,
)
    requires
        consistent(s),
        add_collaborator_refusal(s, env, who, basis_points) is None,
    ensures
        consistent(collaborator_added(s, who, basis_points)),
        total_share(collaborator_added(s, who, basis_points).shares) == total_share(s.shares)
            + basis_points,
{
    let t = collaborator_added(s, who, basis_points);
    assert(!s.collaborators.contains(who));
    lemma_pushed_distinct(s.collaborators, who);
    assert forall|other: Address| #[trigger]
        t.collaborators.contains(other) <==> t.shares.contains_key(other) by {
        lemma_pushed_contains(s.collaborators, who, other);
        assert(s.collaborators.contains(other) <==> s.shares.contains_key(other));
    }
    lemma_share_sum(t.shares, t.shares.dom(), who);
    assert(t.shares.dom().remove(who) =~= s.shares.dom());
    lemma_share_sum_same(t.shares, s.shares, s.shares.dom());
    assert(forall|id: Seq<u8>| #[trigger] meter_of(t, id) == meter_of(s, id));
}

/// Removing a collaborator keeps the state consistent.
pub proof fn law_removing_collaborator_keeps_consistency(s: Grid, who: Address)
    requires
        consistent(s),
        s.shares.contains_key(who),
    ensures
        consistent(collaborator_removed(s, who)),
        total_share(collaborator_removed(s, who).shares) == total_share(s.shares) - s.shares[who],
{
    let t = collaborator_removed(s, who);
    lemma_without_distinct(s.collaborators, who);
    lemma_without_contains(s.collaborators, who);
    assert forall|other: Address| #[trigger]
        t.collaborators.contains(other) <==> t.shares.contains_key(other) by {
        assert(s.collaborators.contains(other) <==> s.shares.contains_key(other));
    }
    lemma_share_sum(s.shares, s.shares.dom(), who);
    assert(t.shares.dom() =~= s.shares.dom().remove(who));
    lemma_share_sum_same(t.shares, s.shares, t.shares.dom());
    assert(forall|id: Seq<u8>| #[trigger] meter_of(t, id) == meter_of(s, id));
}

/// Appointing the administrators who decide together, where that is not refused, keeps the state
/// consistent.
pub proof fn law_configuration_keeps_consistency(
    s: Grid,
    env: Invocation,
    admins: Seq<Address>,
    threshold: u32,
)
    requires
        consistent(s),
        configure_refusal(s, env, admins.len(), threshold) is None,
    ensures
        consistent((Grid { multisig_admins: admins, multisig_threshold: threshold, ..s })),
{
    let t = Grid { multisig_admins: admins, multisig_threshold: threshold, ..s };
    assert(forall|id: Seq<u8>| #[trigger] meter_of(t, id) == meter_of(s, id));
}

/// Proposing and approving, where that is not refused, keep the state consistent.
pub proof fn law_proposals_keep_consistency(
    s: Grid,
    env: Invocation,
    who: Address,
    operation: OperationModel,
    expiry: u64,
    id: u32,
)
    requires
        consistent(s),
    ensures
        s.proposal_count < u32::MAX && propose_refusal(s, env, who, expiry) is None ==> consistent(
            proposed(s, who, operation, expiry),
        ),
        approve_refusal(s, env, id, who) is None ==> consistent(approved(s, id, who)),
{
    if s.proposal_count < u32::MAX && propose_refusal(s, env, who, expiry) is None {
        let t = proposed(s, who, operation, expiry);
        assert(forall|m: Seq<u8>| #[trigger] meter_of(t, m) == meter_of(s, m));
        assert forall|p: u32| #[trigger] t.proposals.contains_key(p) implies p < t.proposal_count
            && t.proposals[p].approvals.no_duplicates() && t.proposals[p].threshold >= 1 by {
            if p != s.proposal_count {
                assert(s.proposals.contains_key(p));
            }
        }
    }
    if approve_refusal(s, env, id, who) is None {
        let t = approved(s, id, who);
        assert(forall|m: Seq<u8>| #[trigger] meter_of(t, m) == meter_of(s, m));
        lemma_pushed_distinct(s.proposals[id].approvals, who);
        assert forall|p: u32| #[trigger] t.proposals.contains_key(p) implies p < t.proposal_count
            && t.proposals[p].approvals.no_duplicates() && t.proposals[p].threshold >= 1 by {
            assert(s.proposals.contains_key(p));
        }
    }
}

/// Executing a proposal keeps the state consistent.
pub proof fn law_execution_keeps_consistency(
    s: Grid,
    now: u64,
    operation: OperationModel,
    id: u32,
)
    requires
        consistent(s),
    ensures
        consistent(performed(s, now, operation)),
        consistent(proposal_spent(performed(s, now, operation), id)),
{
    let done = performed(s, now, operation);
    match operation {
        AdminOperation::BulkDeactivate(ids) => {
            law_batch_deactivation_keeps_consistency(s, ids);
        },
        _ => {
            law_settings_keep_consistency(s, done);
        },
    }
    let t = proposal_spent(done, id);
    assert(forall|m: Seq<u8>| #[trigger] meter_of(t, m) == meter_of(done, m));
    assert forall|p: u32| #[trigger] t.proposals.contains_key(p) implies p < t.proposal_count
        && t.proposals[p].approvals.no_duplicates() && t.proposals[p].threshold >= 1 by {
        assert(done.proposals.contains_key(p));
    }
}

} // verus!

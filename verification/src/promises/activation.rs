//! How meters are switched on and off.

use vstd::prelude::*;
use vstd::string::StringSliceAdditionalSpecFns;

use crate::activation::{
    batch_deactivate_refusal, batch_deactivated, deactivation_stepped, expire_refusal, expired,
    successes, switch_refusal, switched,
};
use crate::events::Event;
use crate::lists::amount_at;
use crate::state::{meter_of, refusal, Grid, Invocation};
use crate::types::{BatchDeactivateResult, CallError, ContractError, Meter, StoredMeter};
use crate::values::Text;

verus! {

/// The administrator may switch a meter that is there off, and on where its balance is not zero.
pub proof fn law_switching_is_let_in(s: Grid, env: Invocation, id: Seq<u8>, active: bool)
    ensures
        ({
            let answer = switch_refusal(s, env, id, active);
            let no_admin = s.admin is None;
            let admin_missing = s.admin is Some && !env.signers@.contains(s.admin->0);
            let unknown = !s.meters.contains_key(id);
            let empty = active && amount_at(s.balances, id) == 0;
            &&& answer is None <==> !no_admin && !admin_missing && !unknown && !empty
            &&& no_admin ==> answer == refusal(ContractError::NotInitialized)
            &&& !no_admin && admin_missing ==> answer == Some(CallError::MissingAuth(s.admin->0))
            &&& !no_admin && !admin_missing && unknown
                ==> answer == refusal(ContractError::MeterNotFound)
            &&& !no_admin && !admin_missing && !unknown && empty
                ==> answer == refusal(ContractError::CannotActivateWithoutBalance)
        }),
{
}

/// The administrator may switch off at most 50 meters at once.
pub proof fn law_batch_deactivation_is_let_in(s: Grid, env: Invocation, n: nat)
    ensures
        ({
            let answer = batch_deactivate_refusal(s, env, n);
            let no_admin = s.admin is None;
            let admin_missing = s.admin is Some && !env.signers@.contains(s.admin->0);
            let too_many = n > 50;
            &&& answer is None <==> !no_admin && !admin_missing && !too_many
            &&& no_admin ==> answer == refusal(ContractError::NotInitialized)
            &&& !no_admin && admin_missing ==> answer == Some(CallError::MissingAuth(s.admin->0))
            &&& !no_admin && !admin_missing && too_many
                ==> answer == refusal(ContractError::BatchTooLarge)
        }),
{
}

/// The administrator may expire a meter that is stored in the current layout.
pub proof fn law_expiry_is_let_in(s: Grid, env: Invocation, id: Seq<u8>)
    ensures
        ({
            let answer = expire_refusal(s, env, id);
            let no_admin = s.admin is None;
            let admin_missing = s.admin is Some && !env.signers@.contains(s.admin->0);
            let unknown = !(s.meters.contains_key(id) && s.meters[id] is Current);
            &&& answer is None <==> !no_admin && !admin_missing && !unknown
            &&& no_admin ==> answer == refusal(ContractError::NotInitialized)
            &&& !no_admin && admin_missing ==> answer == Some(CallError::MissingAuth(s.admin->0))
            &&& !no_admin && !admin_missing && unknown
                ==> answer == refusal(ContractError::MeterNotFound)
        }),
{
}

/// Switching a meter changes that and announces it, and leaves the rest of it, its balance and
/// every other meter alone.
pub proof fn law_switching_changes_one_meter(s: Grid, id: Seq<u8>, active: bool)
    requires
        s.meters.contains_key(id),
    ensures
        ({
            let t = switched(s, id, active);
            let after = meter_of(t, id)->0;
            &&& after.active == active
            &&& after == (Meter { active: after.active, ..meter_of(s, id)->0 })
            &&& t.meters == s.meters.insert(id, StoredMeter::Current(after))
            &&& active ==> t.events == s.events.push(Event::MeterActivated { meter_id: id })
            &&& !active ==> t.events == s.events.push(Event::MeterDeactivated { meter_id: id })
            &&& t == (Grid { meters: t.meters, events: t.events, ..s })
        }),
{
}

/// Expiring a meter ends its time now, switches it off and announces it.
pub proof fn law_expiry_ends_the_time(s: Grid, id: Seq<u8>, now: u64)
    requires
        s.meters.contains_key(id),
        s.meters[id] is Current,
    ensures
        ({
            let t = expired(s, id, now);
            let after = meter_of(t, id)->0;
            &&& after.expires_at == now && !after.active
            &&& after == (Meter {
                expires_at: after.expires_at,
                active: after.active,
                ..s.meters[id]->Current_0
            })
            &&& t.meters == s.meters.insert(id, StoredMeter::Current(after))
            &&& t.events == s.events.push(Event::MeterExpired { meter_id: id })
            &&& t == (Grid { meters: t.meters, events: t.events, ..s })
        }),
{
}

/// A meter of a batch that is on is switched off; one that is off or not there is skipped. The
/// answer says which of these it was.
pub proof fn law_batch_switches_off_what_is_on(s: Grid, id: Seq<u8>)
    ensures
        ({
            let (t, answer) = deactivation_stepped(s, id);
            let known = s.meters.contains_key(id) && s.meters[id] is Current;
            let m = s.meters[id]->Current_0;
            let on = known && m.active;
            &&& answer.meter_id == id
            &&& answer.success <==> on
            &&& on ==> answer.reason == "ok".spec_bytes()
            &&& known && !on ==> answer.reason == "inactive".spec_bytes()
            &&& !known ==> answer.reason == "not_found".spec_bytes()
            &&& on ==> meter_of(t, id) == Some(Meter { active: false, ..m })
            &&& on ==> t.meters == s.meters.insert(
                id,
                StoredMeter::Current(Meter { active: false, ..m }),
            )
            &&& on ==> t.events == s.events.push(Event::MeterDeactivated { meter_id: id })
            &&& !on ==> t.meters == s.meters
            &&& !on ==> t.events == s.events.push(Event::BatchSkipped { meter_id: id })
            &&& t == (Grid { meters: t.meters, events: t.events, ..s })
        }),
{
}

/// A batch of two parts switches off the first and then the second, and answers in that order.
pub proof fn law_batch_deactivation_goes_in_order(
    s: Grid,
    first: Seq<Seq<u8>>,
    second: Seq<Seq<u8>>,
)
    ensures
        ({
            let (between, done) = batch_deactivated(s, first);
            let (after, rest) = batch_deactivated(between, second);
            batch_deactivated(s, first + second) == (after, done + rest)
        }),
        batch_deactivated(s, Seq::empty()) == (s, Seq::<BatchDeactivateResult<Seq<u8>>>::empty()),
    decreases second.len(),
{
    let (between, done) = batch_deactivated(s, first);
    let (after, rest) = batch_deactivated(between, second);
    if second.len() == 0 {
        assert(first + second =~= first);
        assert(done + rest =~= done);
    } else {
        law_batch_deactivation_goes_in_order(s, first, second.drop_last());
        assert((first + second).drop_last() =~= first + second.drop_last());
        assert((first + second).last() == second.last());
        let (before, most) = batch_deactivated(between, second.drop_last());
        assert(done + rest =~= (done + most).push(rest.last()));
    }
}

/// A batch of one switches off that one.
pub proof fn law_batch_of_one_is_one_deactivation(s: Grid, id: Seq<u8>)
    ensures
        batch_deactivated(s, seq![id]).0 == deactivation_stepped(s, id).0,
        batch_deactivated(s, seq![id]).1 == seq![deactivation_stepped(s, id).1],
{
    reveal_with_fuel(batch_deactivated, 2);
    assert(seq![id].drop_last() =~= Seq::<Seq<u8>>::empty());
    assert(Seq::empty().push(deactivation_stepped(s, id).1) =~= seq![
        deactivation_stepped(s, id).1,
    ]);
}

/// The successes of two lists add up; a single answer counts where it is one.
pub proof fn law_successes_add_up(
    first: Seq<BatchDeactivateResult<Seq<u8>>>,
    second: Seq<BatchDeactivateResult<Seq<u8>>>,
    answer: BatchDeactivateResult<Seq<u8>>,
)
    ensures
        successes(first + second) == successes(first) + successes(second),
        successes(Seq::empty()) == 0,
        answer.success ==> successes(seq![answer]) == 1,
        !answer.success ==> successes(seq![answer]) == 0,
        successes(first) <= first.len(),
    decreases first.len() + second.len(),
{
    reveal_with_fuel(successes, 2);
    assert(seq![answer].drop_last() =~= Seq::<BatchDeactivateResult<Seq<u8>>>::empty());
    if first.len() > 0 {
        law_successes_add_up(first.drop_last(), Seq::empty(), answer);
    }
    if second.len() == 0 {
        assert(first + second =~= first);
    } else {
        law_successes_add_up(first, second.drop_last(), answer);
        assert((first + second).drop_last() =~= first + second.drop_last());
        assert((first + second).last() == second.last());
    }
}

/// An answer of a batch is read as it is held.
pub proof fn law_batch_answers_are_read_as_held(answer: BatchDeactivateResult<Text>)
    ensures
        answer.deep_view().meter_id == answer.meter_id.bytes@,
        answer.deep_view().success == answer.success,
        answer.deep_view().reason == answer.reason.bytes@,
{
}

} // verus!

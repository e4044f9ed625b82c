//! Who is in charge, and what they can stop.

use vstd::prelude::*;
use vstd::string::StringSliceAdditionalSpecFns;

use crate::access::{
    allowed, disallowed, freeze_called, freeze_lifted, initialised, initialize_refusal,
    oracle_appointed, oracle_dismissed, pause_called, pause_lifted, pause_refusal, unfreeze_refusal,
    unpause_refusal,
};
use crate::events::Event;
use crate::lists::without;
use crate::state::{pause_in_force, refusal, Grid, Invocation};
use crate::types::{CallError, ContractError};
use crate::values::Address;

verus! {

/// Initialising records who is in charge, the token and the version, and nothing else.
pub proof fn law_initialising_records_three_things(s: Grid, admin: Address, token: Address)
    ensures
        ({
            let t = initialised(s, admin, token);
            &&& t.admin == Some(admin) && t.token == Some(token)
            &&& t.version == Some("0.1.0".spec_bytes())
            &&& t == (Grid { admin: t.admin, token: t.token, version: t.version, ..s })
        }),
{
}

/// A later call initialises with the signature of the administrator to be, and only once.
pub proof fn law_initialising_is_let_in(s: Grid, env: Invocation, admin: Address)
    ensures
        ({
            let answer = initialize_refusal(s, env, admin);
            let missing = !env.signers@.contains(admin);
            let done = s.admin is Some;
            &&& answer is None <==> !missing && !done
            &&& missing ==> answer == Some(CallError::MissingAuth(admin))
            &&& !missing && done ==> answer == refusal(ContractError::AlreadyInitialized)
        }),
{
}

/// Allowing an owner puts it at the end of the list, once, and announces it; allowing it again
/// changes nothing.
pub proof fn law_allowing_adds_one_owner(s: Grid, owner: Address)
    ensures
        ({
            let t = allowed(s, owner);
            let new = !s.allowlist.contains(owner);
            &&& new ==> t.allowlist == s.allowlist.push(owner)
            &&& new ==> t.events == s.events.push(Event::AllowlistAdded { owner })
            &&& !new ==> t == s
            &&& t == (Grid { allowlist: t.allowlist, events: t.events, ..s })
        }),
{
}

/// Disallowing an owner takes it off the list and announces it; the others keep their places.
pub proof fn law_disallowing_removes_one_owner(s: Grid, owner: Address)
    ensures
        ({
            let t = disallowed(s, owner);
            let there = s.allowlist.contains(owner);
            &&& there ==> t.allowlist == without(s.allowlist, owner)
            &&& there ==> t.events == s.events.push(Event::AllowlistRemoved { owner })
            &&& !there ==> t == s
            &&& t == (Grid { allowlist: t.allowlist, events: t.events, ..s })
        }),
{
}

/// Appointing an oracle puts it in place of the one before, whom the announcement names;
/// dismissing leaves none.
pub proof fn law_oracle_is_replaced(s: Grid, oracle: Address)
    ensures
        ({
            let t = oracle_appointed(s, oracle);
            &&& t.oracle == Some(oracle)
            &&& t.events == s.events.push(Event::OracleSet { old_oracle: s.oracle, oracle })
            &&& t == (Grid { oracle: t.oracle, events: t.events, ..s })
        }),
        ({
            let t = oracle_dismissed(s);
            &&& t.oracle is None
            &&& t.events == s.events.push(Event::OracleCleared)
            &&& t == (Grid { oracle: t.oracle, events: t.events, ..s })
        }),
{
}

/// Freezing and unfreezing change the one switch and announce it.
pub proof fn law_freezing_is_one_switch(s: Grid)
    ensures
        ({
            let t = freeze_called(s);
            &&& t.frozen
            &&& t.events == s.events.push(Event::Frozen)
            &&& t == (Grid { frozen: t.frozen, events: t.events, ..s })
        }),
        ({
            let t = freeze_lifted(s);
            &&& !t.frozen
            &&& t.events == s.events.push(Event::Unfrozen)
            &&& t == (Grid { frozen: t.frozen, events: t.events, ..s })
        }),
{
}

/// Unfreezing takes the administrator and the oracle, and something frozen.
pub proof fn law_unfreezing_is_let_in(s: Grid, env: Invocation)
    ensures
        ({
            let answer = unfreeze_refusal(s, env);
            let no_admin = s.admin is None;
            let admin_missing = s.admin is Some && !env.signers@.contains(s.admin->0);
            let running = !s.frozen;
            let no_oracle = s.oracle is None;
            let oracle_missing = s.oracle is Some && !env.signers@.contains(s.oracle->0);
            &&& answer is None <==> !no_admin && !admin_missing && !running && !no_oracle
                && !oracle_missing
            &&& no_admin ==> answer == refusal(ContractError::NotInitialized)
            &&& !no_admin && admin_missing ==> answer == Some(CallError::MissingAuth(s.admin->0))
            &&& !no_admin && !admin_missing && running
                ==> answer == refusal(ContractError::ContractNotFrozen)
            &&& !no_admin && !admin_missing && !running && no_oracle
                ==> answer == refusal(ContractError::OracleNotSet)
            &&& !no_admin && !admin_missing && !running && !no_oracle && oracle_missing
                ==> answer == Some(CallError::MissingAuth(s.oracle->0))
        }),
{
}

/// The administrator may pause exactly while no pause is in force.
pub proof fn law_pausing_is_let_in(s: Grid, env: Invocation)
    ensures
        ({
            let answer = pause_refusal(s, env);
            let no_admin = s.admin is None;
            let admin_missing = s.admin is Some && !env.signers@.contains(s.admin->0);
            let paused = s.paused && env.now < s.paused_at + 172_800;
            &&& answer is None <==> !no_admin && !admin_missing && !paused
            &&& no_admin ==> answer == refusal(ContractError::NotInitialized)
            &&& !no_admin && admin_missing ==> answer == Some(CallError::MissingAuth(s.admin->0))
            &&& !no_admin && !admin_missing && paused
                ==> answer == refusal(ContractError::AlreadyPaused)
        }),
{
}

/// The administrator may lift a pause exactly while one is in force.
pub proof fn law_unpausing_is_let_in(s: Grid, env: Invocation)
    ensures
        ({
            let answer = unpause_refusal(s, env);
            let no_admin = s.admin is None;
            let admin_missing = s.admin is Some && !env.signers@.contains(s.admin->0);
            let running = !(s.paused && env.now < s.paused_at + 172_800);
            &&& answer is None <==> !no_admin && !admin_missing && !running
            &&& no_admin ==> answer == refusal(ContractError::NotInitialized)
            &&& !no_admin && admin_missing ==> answer == Some(CallError::MissingAuth(s.admin->0))
            &&& !no_admin && !admin_missing && running
                ==> answer == refusal(ContractError::NotPaused)
        }),
{
}

/// A pause that is called runs from now on and is announced with its 48 hours, behind the end of
/// an earlier pause that had run out.
pub proof fn law_pause_runs_from_now(s: Grid, now: u64, later: u64)
    requires
        s.admin is Some,
        !s.paused || now >= s.paused_at + 172_800,
    ensures
        ({
            let t = pause_called(s, now);
            let announced = Event::Paused { admin: s.admin->0, at: now, duration: 172_800 };
            &&& t.paused && t.paused_at == now
            &&& pause_in_force(t, later) <==> later < now + 172_800
            &&& !s.paused ==> t.events == s.events.push(announced)
            &&& s.paused ==> t.events == s.events.push(Event::PauseExpired { at: now }).push(
                announced,
            )
            &&& t == (Grid {
                paused: t.paused,
                paused_at: t.paused_at,
                events: t.events,
                ..s
            })
        }),
{
}

/// A lifted pause is over at any time, and that is announced.
pub proof fn law_lifted_pause_is_over(s: Grid, now: u64, later: u64)
    requires
        s.admin is Some,
    ensures
        ({
            let t = pause_lifted(s, now);
            &&& !t.paused && t.paused_at == 0 && !pause_in_force(t, later)
            &&& t.events == s.events.push(Event::Unpaused { admin: s.admin->0, at: now })
            &&& t == (Grid {
                paused: t.paused,
                paused_at: t.paused_at,
                events: t.events,
                ..s
            })
        }),
{
}

} // verus!

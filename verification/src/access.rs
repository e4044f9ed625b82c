//! Who and what may use the contract: initialisation, the allowlist, the oracle, the freeze and
//! the emergency pause.

use vstd::prelude::*;
use vstd::string::StringSliceAdditionalSpecFns;

use crate::events::Event;
use crate::lists::{copy_addresses, holds, remove_address, without};
use crate::state::{
    admin_refusal, auth_refusal, pause_in_force, pause_settled, refusal, refuse, Grid, Invocation,
    SolarGridContract, MAX_PAUSE_DURATION,
};
use crate::types::{CallError, ContractError};
use crate::values::{Address, Text};

verus! {

/// The version of the contract's code.
pub const CURRENT_CONTRACT_VERSION: &'static str = "0.1.0";

/// The state once the contract is initialised.
pub open spec fn initialised(s: Grid, admin: Address, token: Address) -> Grid {
    Grid {
        admin: Some(admin),
        token: Some(token),
        version: Some(CURRENT_CONTRACT_VERSION.spec_bytes()),
        ..s
    }
}

/// Why initialisation by a later call is refused, if it is.
pub open spec fn initialize_refusal(s: Grid, env: Invocation, admin: Address) -> Option<
    CallError,
> {
    if auth_refusal(env, admin) is Some {
        auth_refusal(env, admin)
    } else if s.admin is Some {
        refusal(ContractError::AlreadyInitialized)
    } else {
        None
    }
}

/// The state with `owner` on the allowlist.
pub open spec fn allowed(s: Grid, owner: Address) -> Grid {
    if s.allowlist.contains(owner) {
        s
    } else {
        Grid {
            allowlist: s.allowlist.push(owner),
            events: s.events.push(Event::AllowlistAdded { owner }),
            ..s
        }
    }
}

/// The state without `owner` on the allowlist.
pub open spec fn disallowed(s: Grid, owner: Address) -> Grid {
    if s.allowlist.contains(owner) {
        Grid {
            allowlist: without(s.allowlist, owner),
            events: s.events.push(Event::AllowlistRemoved { owner }),
            ..s
        }
    } else {
        s
    }
}

/// The state once `oracle` is appointed.
pub open spec fn oracle_appointed(s: Grid, oracle: Address) -> Grid {
    Grid {
        oracle: Some(oracle),
        events: s.events.push(Event::OracleSet { old_oracle: s.oracle, oracle }),
        ..s
    }
}

/// The state once the oracle is dismissed.
pub open spec fn oracle_dismissed(s: Grid) -> Grid {
    Grid { oracle: None, events: s.events.push(Event::OracleCleared), ..s }
}

/// The state once payments and usage updates are stopped.
pub open spec fn freeze_called(s: Grid) -> Grid {
    Grid { frozen: true, events: s.events.push(Event::Frozen), ..s }
}

/// The state once payments and usage updates are resumed.
pub open spec fn freeze_lifted(s: Grid) -> Grid {
    Grid { frozen: false, events: s.events.push(Event::Unfrozen), ..s }
}

/// Why unfreezing is refused, if it is.
pub open spec fn unfreeze_refusal(s: Grid, env: Invocation) -> Option<CallError> {
    if admin_refusal(s, env) is Some {
        admin_refusal(s, env)
    } else if !s.frozen {
        refusal(ContractError::ContractNotFrozen)
    } else {
        match s.oracle {
            None => refusal(ContractError::OracleNotSet),
            Some(oracle) => auth_refusal(env, oracle),
        }
    }
}

/// Why a pause is refused, if it is.
pub open spec fn pause_refusal(s: Grid, env: Invocation) -> Option<CallError> {
    if admin_refusal(s, env) is Some {
        admin_refusal(s, env)
    } else if pause_in_force(s, env.now) {
        refusal(ContractError::AlreadyPaused)
    } else {
        None
    }
}

/// The state once a pause is called at `now`. An earlier pause that has run out is cleared first.
pub open spec fn pause_called(s: Grid, now: u64) -> Grid {
    Grid {
        paused: true,
        paused_at: now,
        events: pause_settled(s, now).events.push(
            Event::Paused { admin: s.admin->0, at: now, duration: MAX_PAUSE_DURATION },
        ),
        ..s
    }
}

/// Why lifting the pause is refused, if it is.
pub open spec fn unpause_refusal(s: Grid, env: Invocation) -> Option<CallError> {
    if admin_refusal(s, env) is Some {
        admin_refusal(s, env)
    } else if !pause_in_force(s, env.now) {
        refusal(ContractError::NotPaused)
    } else {
        None
    }
}

/// The state once the pause is lifted at `now`.
pub open spec fn pause_lifted(s: Grid, now: u64) -> Grid {
    Grid {
        paused: false,
        paused_at: 0,
        events: s.events.push(Event::Unpaused { admin: s.admin->0, at: now }),
        ..s
    }
}

impl SolarGridContract {
    /// Sets the contract up as it is deployed.
    pub fn __constructor(&mut self, admin: Address, token_address: Address) -> (r: Result<
        (),
        ContractError,
    >)
        ensures
            if old(self)@.admin is Some {
                r == Err::<(), ContractError>(ContractError::AlreadyInitialized) && final(self)@
                    == old(self)@
            } else {
                r is Ok && final(self)@ == initialised(old(self)@, admin, token_address)
            },
    {
        self.write_initial_config(admin, token_address)
    }

    /// Sets the contract up after it was deployed. The new administrator must agree.
    pub fn initialize(&mut self, env: &Invocation, admin: Address, token_address: Address) -> (r:
        Result<(), CallError>)
        ensures
            match initialize_refusal(old(self)@, *env, admin) {
                Some(e) => r == Err::<(), CallError>(e) && final(self)@ == old(self)@,
                None => r is Ok && final(self)@ == initialised(old(self)@, admin, token_address),
            },
    {
        env.require_auth(admin)?;
        match self.write_initial_config(admin, token_address) {
            Ok(()) => Ok(()),
            Err(e) => refuse(e),
        }
    }

    /// Records the administrator, the token and the version, once.
    fn write_initial_config(&mut self, admin: Address, token_address: Address) -> (r: Result<
        (),
        ContractError,
    >)
        ensures
            if old(self)@.admin is Some {
                r == Err::<(), ContractError>(ContractError::AlreadyInitialized) && final(self)@
                    == old(self)@
            } else {
                r is Ok && final(self)@ == initialised(old(self)@, admin, token_address)
            },
    {
        if self.admin.is_some() {
            return Err(ContractError::AlreadyInitialized);
        }
        self.admin = Some(admin);
        self.token = Some(token_address);
        self.version = Some(Text::new(CURRENT_CONTRACT_VERSION));
        Ok(())
    }

    /// The version recorded at initialisation, or that of the code if none was.
    pub fn get_contract_version(&self) -> (r: Text)
        ensures
            r@ == match self@.version {
                Some(version) => version,
                None => CURRENT_CONTRACT_VERSION.spec_bytes(),
            },
    {
        match &self.version {
            Some(version) => version.clone(),
            None => Text::new(CURRENT_CONTRACT_VERSION),
        }
    }

    /// Lets `owner` own meters. Only the administrator may decide that.
    pub fn allowlist_add(&mut self, env: &Invocation, owner: Address) -> (r: Result<(), CallError>)
        ensures
            match admin_refusal(old(self)@, *env) {
                Some(e) => r == Err::<(), CallError>(e) && final(self)@ == old(self)@,
                None => r is Ok && final(self)@ == allowed(old(self)@, owner),
            },
    {
        self.require_admin(env)?;
        if !holds(&self.allowlist, owner) {
            self.allowlist.push(owner);
            self.publish(Event::AllowlistAdded { owner });
        }
        Ok(())
    }

    /// No longer lets `owner` be given meters. Only the administrator may decide that.
    pub fn allowlist_remove(&mut self, env: &Invocation, owner: Address) -> (r: Result<
        (),
        CallError,
    >)
        ensures
            match admin_refusal(old(self)@, *env) {
                Some(e) => r == Err::<(), CallError>(e) && final(self)@ == old(self)@,
                None => r is Ok && final(self)@ == disallowed(old(self)@, owner),
            },
    {
        self.require_admin(env)?;
        if holds(&self.allowlist, owner) {
            self.allowlist = remove_address(&self.allowlist, owner);
            self.publish(Event::AllowlistRemoved { owner });
        }
        Ok(())
    }

    /// Another name for `allowlist_add`.
    pub fn add_to_allowlist(&mut self, env: &Invocation, address: Address) -> (r: Result<
        (),
        CallError,
    >)
        ensures
            match admin_refusal(old(self)@, *env) {
                Some(e) => r == Err::<(), CallError>(e) && final(self)@ == old(self)@,
                None => r is Ok && final(self)@ == allowed(old(self)@, address),
            },
    {
        self.allowlist_add(env, address)
    }

    /// Another name for `allowlist_remove`.
    pub fn remove_from_allowlist(&mut self, env: &Invocation, address: Address) -> (r: Result<
        (),
        CallError,
    >)
        ensures
            match admin_refusal(old(self)@, *env) {
                Some(e) => r == Err::<(), CallError>(e) && final(self)@ == old(self)@,
                None => r is Ok && final(self)@ == disallowed(old(self)@, address),
            },
    {
        self.allowlist_remove(env, address)
    }

    /// Who may own meters.
    pub fn get_allowlist(&self) -> (r: Result<Vec<Address>, ContractError>)
        ensures
            r is Ok && r->Ok_0@ == self@.allowlist,
    {
        Ok(copy_addresses(&self.allowlist))
    }

    /// Appoints the oracle that reports energy use. Only the administrator may do so.
    pub fn set_oracle(&mut self, env: &Invocation, oracle: Address) -> (r: Result<(), CallError>)
        ensures
            match admin_refusal(old(self)@, *env) {
                Some(e) => r == Err::<(), CallError>(e) && final(self)@ == old(self)@,
                None => r is Ok && final(self)@ == oracle_appointed(old(self)@, oracle),
            },
    {
        self.require_admin(env)?;
        let old_oracle: Option<Address> = self.oracle;
        self.oracle = Some(oracle);
        self.publish(Event::OracleSet { old_oracle, oracle });
        Ok(())
    }

    /// The oracle, if one was appointed.
    pub fn get_oracle(&self) -> (r: Result<Option<Address>, ContractError>)
        ensures
            r == if self@.admin is Some {
                Ok::<Option<Address>, ContractError>(self@.oracle)
            } else {
                Err(ContractError::NotInitialized)
            },
    {
        self.require_initialized()?;
        Ok(self.oracle)
    }

    /// Dismisses the oracle. Only the administrator may do so.
    pub fn remove_oracle(&mut self, env: &Invocation) -> (r: Result<(), CallError>)
        ensures
            match admin_refusal(old(self)@, *env) {
                Some(e) => r == Err::<(), CallError>(e) && final(self)@ == old(self)@,
                None => r is Ok && final(self)@ == oracle_dismissed(old(self)@),
            },
    {
        self.require_admin(env)?;
        self.oracle = None;
        self.publish(Event::OracleCleared);
        Ok(())
    }

    /// Stops payments and usage updates. Only the administrator may do so.
    pub fn freeze_contract(&mut self, env: &Invocation) -> (r: Result<(), CallError>)
        ensures
            match admin_refusal(old(self)@, *env) {
                Some(e) => r == Err::<(), CallError>(e) && final(self)@ == old(self)@,
                None => r is Ok && final(self)@ == freeze_called(old(self)@),
            },
    {
        self.require_admin(env)?;
        self.frozen = true;
        self.publish(Event::Frozen);
        Ok(())
    }

    /// Resumes payments and usage updates. The administrator and the oracle must both agree.
    pub fn unfreeze_contract(&mut self, env: &Invocation) -> (r: Result<(), CallError>)
        ensures
            match unfreeze_refusal(old(self)@, *env) {
                Some(e) => r == Err::<(), CallError>(e) && final(self)@ == old(self)@,
                None => r is Ok && final(self)@ == freeze_lifted(old(self)@),
            },
    {
        self.require_admin(env)?;
        if !self.frozen {
            return refuse(ContractError::ContractNotFrozen);
        }
        match self.oracle {
            Some(oracle) => env.require_auth(oracle)?,
            None => {
                return refuse(ContractError::OracleNotSet);
            },
        }
        self.frozen = false;
        self.publish(Event::Unfrozen);
        Ok(())
    }

    /// Whether payments and usage updates are stopped.
    pub fn is_frozen(&self) -> (r: Result<bool, ContractError>)
        ensures
            r == if self@.admin is Some {
                Ok::<bool, ContractError>(self@.frozen)
            } else {
                Err(ContractError::NotInitialized)
            },
    {
        self.require_initialized()?;
        Ok(self.frozen)
    }

    /// Pauses payments and registration for 48 hours. Only the administrator may do so.
    pub fn pause(&mut self, env: &Invocation) -> (r: Result<(), CallError>)
        ensures
            match pause_refusal(old(self)@, *env) {
                Some(e) => r == Err::<(), CallError>(e) && final(self)@ == old(self)@,
                None => r is Ok && final(self)@ == pause_called(old(self)@, env.now),
            },
    {
        let admin: Address = self.require_admin(env)?;
        if self.pause_is_active(env.now) {
            return refuse(ContractError::AlreadyPaused);
        }
        self.settle_pause(env.now);
        self.paused = true;
        self.paused_at = env.now;
        self.publish(Event::Paused { admin, at: env.now, duration: MAX_PAUSE_DURATION });
        Ok(())
    }

    /// Lifts the pause before it runs out. Only the administrator may do so.
    pub fn unpause(&mut self, env: &Invocation) -> (r: Result<(), CallError>)
        ensures
            match unpause_refusal(old(self)@, *env) {
                Some(e) => r == Err::<(), CallError>(e) && final(self)@ == old(self)@,
                None => r is Ok && final(self)@ == pause_lifted(old(self)@, env.now),
            },
    {
        let admin: Address = self.require_admin(env)?;
        if !self.pause_is_active(env.now) {
            return refuse(ContractError::NotPaused);
        }
        self.paused = false;
        self.paused_at = 0;
        self.publish(Event::Unpaused { admin, at: env.now });
        Ok(())
    }

    /// Whether the pause is in force. A pause that has run out is cleared.
    pub fn is_paused(&mut self, env: &Invocation) -> (r: Result<bool, ContractError>)
        ensures
            if old(self)@.admin is Some {
                r == Ok::<bool, ContractError>(pause_in_force(old(self)@, env.now)) && final(self)@
                    == pause_settled(old(self)@, env.now)
            } else {
                r == Err::<bool, ContractError>(ContractError::NotInitialized) && final(self)@
                    == old(self)@
            },
    {
        self.require_initialized()?;
        let active: bool = self.pause_is_active(env.now);
        self.settle_pause(env.now);
        Ok(active)
    }
}

} // verus!

//! Withdrawals of tokens by the administrator.

use vstd::prelude::*;

use crate::events::Event;
use crate::lists::{amount_at, read_amount};
use crate::state::{
    admin_refusal, auth_refusal, lift, lock_given_back, lock_taken, published, refusal, refuse,
    Grid, Invocation, SolarGridContract,
};
use crate::types::{BalanceQuery, CallError, ContractError, Transfer};
use crate::values::{clamp, sub_clamped, Address};

verus! {

/// A withdrawal that waits to hear how many tokens the contract holds.
#[derive(Clone, Copy, Debug, PartialEq, Eq, Structural)]
pub struct PendingWithdrawal {
    /// The question to ask.
    pub query: BalanceQuery,
    pub to: Address,
    pub amount: i128,
}

/// An emergency withdrawal that waits to hear how many tokens the contract holds.
#[derive(Clone, Copy, Debug, PartialEq, Eq, Structural)]
pub struct PendingRecovery {
    /// The question to ask.
    pub query: BalanceQuery,
    pub to: Address,
}

/// Why a withdrawal of revenue is refused, if it is.
pub open spec fn revenue_refusal(
    s: Grid,
    env: Invocation,
    provider: Address,
    amount: i128,
) -> Option<CallError> {
    if amount <= 0 {
        refusal(ContractError::InvalidAmount)
    } else if s.admin is None {
        refusal(ContractError::NotInitialized)
    } else if s.admin != Some(provider) {
        refusal(ContractError::Unauthorized)
    } else if auth_refusal(env, provider) is Some {
        auth_refusal(env, provider)
    } else if s.locked {
        refusal(ContractError::ReentrantCall)
    } else if amount_at(s.provider_revenue, provider) < amount {
        refusal(ContractError::InsufficientBalance)
    } else if s.token is None {
        refusal(ContractError::NotInitialized)
    } else {
        None
    }
}

/// The state once a withdrawal of revenue is booked and its tokens are on their way.
pub open spec fn revenue_withdrawn(s: Grid, provider: Address, amount: i128) -> Grid {
    Grid {
        provider_revenue: s.provider_revenue.insert(
            provider,
            clamp(amount_at(s.provider_revenue, provider) - amount),
        ),
        locked: true,
        events: s.events.push(
            Event::RevenueWithdrawn { provider, token: s.token->0, amount },
        ),
        ..s
    }
}

/// The transfer that a withdrawal of revenue asks for.
pub open spec fn revenue_transfer(
    s: Grid,
    env: Invocation,
    provider: Address,
    amount: i128,
) -> Transfer {
    Transfer { token: s.token->0, from: env.contract, to: provider, amount }
}

/// Why a withdrawal by the administrator is refused before the contract's tokens are counted, if
/// it is.
pub open spec fn admin_withdraw_refusal(s: Grid, env: Invocation, admin: Address) -> Option<
    CallError,
> {
    if auth_refusal(env, admin) is Some {
        auth_refusal(env, admin)
    } else if s.admin is None {
        refusal(ContractError::NotInitialized)
    } else if s.admin != Some(admin) {
        refusal(ContractError::Unauthorized)
    } else if s.locked {
        refusal(ContractError::ReentrantCall)
    } else if s.token is None {
        refusal(ContractError::NotInitialized)
    } else {
        None
    }
}

/// What a withdrawal by the administrator waits with.
pub open spec fn withdrawal_pending(
    s: Grid,
    env: Invocation,
    admin: Address,
    amount: i128,
) -> PendingWithdrawal {
    PendingWithdrawal {
        query: BalanceQuery { token: s.token->0, holder: env.contract },
        to: admin,
        amount,
    }
}

/// The transfer that a withdrawal by the administrator asks for when the contract holds `balance`
/// tokens.
pub open spec fn withdrawal_answer(p: PendingWithdrawal, balance: i128) -> Result<
    Transfer,
    ContractError,
> {
    if p.amount > balance {
        Err(ContractError::InsufficientBalance)
    } else {
        Ok(Transfer { token: p.query.token, from: p.query.holder, to: p.to, amount: p.amount })
    }
}

/// The state once a withdrawal by the administrator knows that the contract holds `balance` tokens.
pub open spec fn withdrawal_answered(s: Grid, p: PendingWithdrawal, balance: i128) -> Grid {
    if p.amount > balance {
        lock_given_back(s)
    } else {
        published(s, Event::AdminWithdrawn { admin: p.to, amount: p.amount })
    }
}

/// Why an emergency withdrawal is refused, if it is.
pub open spec fn recovery_refusal(s: Grid, env: Invocation) -> Option<CallError> {
    if admin_refusal(s, env) is Some {
        admin_refusal(s, env)
    } else if !s.frozen {
        refusal(ContractError::ContractNotFrozen)
    } else if s.locked {
        refusal(ContractError::ReentrantCall)
    } else if s.token is None {
        refusal(ContractError::NotInitialized)
    } else {
        None
    }
}

/// What an emergency withdrawal waits with.
pub open spec fn recovery_pending(s: Grid, env: Invocation, to: Address) -> PendingRecovery {
    PendingRecovery { query: BalanceQuery { token: s.token->0, holder: env.contract }, to }
}

/// The transfer that an emergency withdrawal asks for when the contract holds `balance` tokens.
pub open spec fn recovery_answer(p: PendingRecovery, balance: i128) -> Option<Transfer> {
    if balance > 0 {
        Some(Transfer { token: p.query.token, from: p.query.holder, to: p.to, amount: balance })
    } else {
        None
    }
}

/// The state once an emergency withdrawal knows that the contract holds `balance` tokens.
pub open spec fn recovery_answered(s: Grid, p: PendingRecovery, balance: i128) -> Grid {
    published(s, Event::EmergencyWithdrawn { to: p.to, amount: balance })
}

impl SolarGridContract {
    /// Withdraws `amount` of the revenue that the provider, who is the administrator, has earned.
    ///
    /// The caller makes the transfer that is returned and then calls `leave`; until then the
    /// contract is locked.
    pub fn withdraw_revenue(
        &mut self,
        env: &Invocation,
        provider: Address,
        amount: i128,
    ) -> (r: Result<Transfer, CallError>)
        ensures
            match revenue_refusal(old(self)@, *env, provider, amount) {
                Some(e) => r == Err::<Transfer, CallError>(e) && final(self)@ == old(self)@,
                None => r == Ok::<Transfer, CallError>(
                    revenue_transfer(old(self)@, *env, provider, amount),
                ) && final(self)@ == revenue_withdrawn(old(self)@, provider, amount),
            },
    {
        if amount <= 0 {
            return refuse(ContractError::InvalidAmount);
        }
        let admin: Address = lift(self.get_admin())?;
        if provider != admin {
            return refuse(ContractError::Unauthorized);
        }
        env.require_auth(provider)?;
        if self.locked {
            return refuse(ContractError::ReentrantCall);
        }
        let revenue: i128 = read_amount(&self.provider_revenue, &provider);
        if revenue < amount {
            return refuse(ContractError::InsufficientBalance);
        }
        let token: Address = lift(self.get_token_address())?;
        self.locked = true;
        self.provider_revenue.set(provider, sub_clamped(revenue, amount));
        self.publish(Event::RevenueWithdrawn { provider, token, amount });
        Ok(Transfer { token, from: env.contract, to: provider, amount })
    }

    /// Asks to withdraw `amount` of the tokens the contract holds to the administrator.
    ///
    /// The caller asks the token how much the contract holds and hands the answer to
    /// `admin_withdraw_with_balance`; until the withdrawal ends the contract is locked.
    pub fn admin_withdraw(
        &mut self,
        env: &Invocation,
        admin: Address,
        amount: i128,
    ) -> (r: Result<PendingWithdrawal, CallError>)
        ensures
            match admin_withdraw_refusal(old(self)@, *env, admin) {
                Some(e) => r == Err::<PendingWithdrawal, CallError>(e) && final(self)@
                    == old(self)@,
                None => r == Ok::<PendingWithdrawal, CallError>(
                    withdrawal_pending(old(self)@, *env, admin, amount),
                ) && final(self)@ == lock_taken(old(self)@),
            },
    {
        env.require_auth(admin)?;
        let stored: Address = lift(self.get_admin())?;
        if admin != stored {
            return refuse(ContractError::Unauthorized);
        }
        if self.locked {
            return refuse(ContractError::ReentrantCall);
        }
        let token: Address = lift(self.get_token_address())?;
        self.locked = true;
        Ok(
            PendingWithdrawal {
                query: BalanceQuery { token, holder: env.contract },
                to: admin,
                amount,
            },
        )
    }

    /// Goes on with a withdrawal by the administrator, unless the contract holds too few tokens
    /// for it.
    ///
    /// The caller makes the transfer that is returned and then calls `leave`.
    pub fn admin_withdraw_with_balance(
        &mut self,
        pending: PendingWithdrawal,
        balance: i128,
    ) -> (r: Result<Transfer, ContractError>)
        ensures
            r == withdrawal_answer(pending, balance),
            final(self)@ == withdrawal_answered(old(self)@, pending, balance),
    {
        if pending.amount > balance {
            self.locked = false;
            return Err(ContractError::InsufficientBalance);
        }
        self.publish(Event::AdminWithdrawn { admin: pending.to, amount: pending.amount });
        Ok(
            Transfer {
                token: pending.query.token,
                from: pending.query.holder,
                to: pending.to,
                amount: pending.amount,
            },
        )
    }

    /// Asks to send everything the contract holds to `to`. Only the administrator may do so, and
    /// only while the contract is frozen.
    ///
    /// The caller asks the token how much the contract holds and hands the answer to
    /// `emergency_withdraw_with_balance`; until the withdrawal ends the contract is locked.
    pub fn emergency_withdraw(&mut self, env: &Invocation, to: Address) -> (r: Result<
        PendingRecovery,
        CallError,
    >)
        ensures
            match recovery_refusal(old(self)@, *env) {
                Some(e) => r == Err::<PendingRecovery, CallError>(e) && final(self)@ == old(self)@,
                None => r == Ok::<PendingRecovery, CallError>(
                    recovery_pending(old(self)@, *env, to),
                ) && final(self)@ == lock_taken(old(self)@),
            },
    {
        self.require_admin(env)?;
        if !self.frozen {
            return refuse(ContractError::ContractNotFrozen);
        }
        if self.locked {
            return refuse(ContractError::ReentrantCall);
        }
        let token: Address = lift(self.get_token_address())?;
        self.locked = true;
        Ok(PendingRecovery { query: BalanceQuery { token, holder: env.contract }, to })
    }

    /// Goes on with an emergency withdrawal. There is nothing to transfer if the contract holds
    /// nothing.
    ///
    /// The caller makes the transfer, if one is returned, and then calls `leave`.
    pub fn emergency_withdraw_with_balance(
        &mut self,
        pending: PendingRecovery,
        balance: i128,
    ) -> (r: Option<Transfer>)
        ensures
            r == recovery_answer(pending, balance),
            final(self)@ == recovery_answered(old(self)@, pending, balance),
    {
        self.publish(Event::EmergencyWithdrawn { to: pending.to, amount: balance });
        if balance > 0 {
            Some(
                Transfer {
                    token: pending.query.token,
                    from: pending.query.holder,
                    to: pending.to,
                    amount: balance,
                },
            )
        } else {
            None
        }
    }

    /// The revenue that `provider` may withdraw.
    pub fn get_provider_revenue(&self, provider: Address) -> (r: Result<i128, ContractError>)
        ensures
            r == if self@.admin is Some {
                Ok::<i128, ContractError>(amount_at(self@.provider_revenue, provider))
            } else {
                Err(ContractError::NotInitialized)
            },
    {
        self.require_initialized()?;
        Ok(read_amount(&self.provider_revenue, &provider))
    }
}

} // verus!

//! Who may take tokens out, and how many.

use vstd::prelude::*;

use crate::events::Event;
use crate::lists::amount_at;
use crate::state::{refusal, Grid, Invocation};
use crate::types::{CallError, ContractError};
use crate::values::{clamp, Address};
use crate::withdrawals::{
    admin_withdraw_refusal, recovery_answer, recovery_answered, recovery_pending, recovery_refusal,
    revenue_refusal, revenue_transfer, revenue_withdrawn, withdrawal_answer, withdrawal_answered,
    withdrawal_pending, PendingRecovery, PendingWithdrawal,
};

verus! {

/// The administrator may withdraw a positive amount of at most all of its revenue.
pub proof fn law_revenue_withdrawals_are_let_in(
    s: Grid,
    env: Invocation,
    provider: Address,
    amount: i128,
)
    ensures
        ({
            let answer = revenue_refusal(s, env, provider, amount);
            let not_positive = amount <= 0;
            let no_admin = s.admin is None;
            let stranger = s.admin is Some && s.admin->0 != provider;
            let missing = !env.signers@.contains(provider);
            let busy = s.locked;
            let too_much = amount > amount_at(s.provider_revenue, provider);
            let no_token = s.token is None;
            &&& answer is None <==> !not_positive && !no_admin && !stranger && !missing
                && !busy && !too_much && !no_token
            &&& not_positive ==> answer == refusal(ContractError::InvalidAmount)
            &&& !not_positive && no_admin ==> answer == refusal(ContractError::NotInitialized)
            &&& !not_positive && !no_admin && stranger
                ==> answer == refusal(ContractError::Unauthorized)
            &&& !not_positive && !no_admin && !stranger && missing
                ==> answer == Some(CallError::MissingAuth(provider))
            &&& !not_positive && !no_admin && !stranger && !missing && busy
                ==> answer == refusal(ContractError::ReentrantCall)
            &&& !not_positive && !no_admin && !stranger && !missing && !busy && too_much
                ==> answer == refusal(ContractError::InsufficientBalance)
            &&& !not_positive && !no_admin && !stranger && !missing && !busy && !too_much
                && no_token ==> answer == refusal(ContractError::NotInitialized)
        }),
{
}

/// In a contract that is set up and not busy, the provider may withdraw any part of its revenue,
/// and all of it; and what is withdrawn is gone from it.
pub proof fn law_all_revenue_can_be_withdrawn(
    s: Grid,
    env: Invocation,
    provider: Address,
    amount: i128,
    other: Address,
)
    requires
        s.admin == Some(provider),
        s.token is Some,
        !s.locked,
        env.signed(provider),
    ensures
        revenue_refusal(s, env, provider, amount) is None <==> 0 < amount <= amount_at(
            s.provider_revenue,
            provider,
        ),
        0 < amount <= amount_at(s.provider_revenue, provider) ==> amount_at(
            revenue_withdrawn(s, provider, amount).provider_revenue,
            provider,
        ) + amount == amount_at(s.provider_revenue, provider),
        other != provider ==> amount_at(
            revenue_withdrawn(s, provider, amount).provider_revenue,
            other,
        ) == amount_at(s.provider_revenue, other),
{
}

/// A withdrawal of revenue takes its amount from the revenue, takes the lock and is announced; the
/// tokens go from the contract to the provider.
pub proof fn law_revenue_withdrawal_does_all_it_should(
    s: Grid,
    env: Invocation,
    provider: Address,
    amount: i128,
)
    requires
        s.token is Some,
    ensures
        ({
            let t = revenue_withdrawn(s, provider, amount);
            let moved = revenue_transfer(s, env, provider, amount);
            let event = Event::RevenueWithdrawn { provider, token: s.token->0, amount };
            &&& t.provider_revenue == s.provider_revenue.insert(
                provider,
                clamp(amount_at(s.provider_revenue, provider) - amount),
            )
            &&& t.locked
            &&& t.events == s.events.push(event)
            &&& t == (Grid {
                provider_revenue: t.provider_revenue,
                locked: t.locked,
                events: t.events,
                ..s
            })
            &&& Some(moved.token) == s.token && moved.from == env.contract
            &&& moved.to == provider && moved.amount == amount
        }),
{
}

/// Only the administrator may ask for tokens held by the contract.
pub proof fn law_admin_withdrawals_are_let_in(s: Grid, env: Invocation, admin: Address)
    ensures
        ({
            let answer = admin_withdraw_refusal(s, env, admin);
            let missing = !env.signers@.contains(admin);
            let no_admin = s.admin is None;
            let stranger = s.admin is Some && s.admin->0 != admin;
            let busy = s.locked;
            let no_token = s.token is None;
            &&& answer is None <==> !missing && !no_admin && !stranger && !busy && !no_token
            &&& missing ==> answer == Some(CallError::MissingAuth(admin))
            &&& !missing && no_admin ==> answer == refusal(ContractError::NotInitialized)
            &&& !missing && !no_admin && stranger ==> answer == refusal(ContractError::Unauthorized)
            &&& !missing && !no_admin && !stranger && busy
                ==> answer == refusal(ContractError::ReentrantCall)
            &&& !missing && !no_admin && !stranger && !busy && no_token
                ==> answer == refusal(ContractError::NotInitialized)
        }),
{
}

/// The administrator may recover the tokens of a frozen contract.
pub proof fn law_recovery_is_let_in(s: Grid, env: Invocation)
    ensures
        ({
            let answer = recovery_refusal(s, env);
            let no_admin = s.admin is None;
            let admin_missing = s.admin is Some && !env.signers@.contains(s.admin->0);
            let running = !s.frozen;
            let busy = s.locked;
            let no_token = s.token is None;
            &&& answer is None <==> !no_admin && !admin_missing && !running && !busy && !no_token
            &&& no_admin ==> answer == refusal(ContractError::NotInitialized)
            &&& !no_admin && admin_missing ==> answer == Some(CallError::MissingAuth(s.admin->0))
            &&& !no_admin && !admin_missing && running
                ==> answer == refusal(ContractError::ContractNotFrozen)
            &&& !no_admin && !admin_missing && !running && busy
                ==> answer == refusal(ContractError::ReentrantCall)
            &&& !no_admin && !admin_missing && !running && !busy && no_token
                ==> answer == refusal(ContractError::NotInitialized)
        }),
{
}

/// A withdrawal first asks how much of the token the contract holds.
pub proof fn law_withdrawals_ask_for_the_balance(
    s: Grid,
    env: Invocation,
    admin: Address,
    amount: i128,
)
    requires
        s.token is Some,
    ensures
        ({
            let p = withdrawal_pending(s, env, admin, amount);
            &&& Some(p.query.token) == s.token && p.query.holder == env.contract
            &&& p.to == admin && p.amount == amount
        }),
        ({
            let p = recovery_pending(s, env, admin);
            &&& Some(p.query.token) == s.token && p.query.holder == env.contract
            &&& p.to == admin
        }),
{
}

/// The administrator gets exactly the amount asked for where the contract holds it, and that is
/// announced; otherwise the call is refused and leaves nothing but the lock given back.
pub proof fn law_withdrawal_moves_what_was_asked_for(s: Grid, p: PendingWithdrawal, balance: i128)
    ensures
        ({
            let answer = withdrawal_answer(p, balance);
            let t = withdrawal_answered(s, p, balance);
            let event = Event::AdminWithdrawn { admin: p.to, amount: p.amount };
            &&& answer is Ok <==> p.amount <= balance
            &&& answer is Err ==> answer->Err_0 == ContractError::InsufficientBalance
            &&& answer is Ok ==> answer->Ok_0.amount == p.amount && answer->Ok_0.to == p.to
                && answer->Ok_0.from == p.query.holder && answer->Ok_0.token == p.query.token
            &&& p.amount <= balance ==> t.events == s.events.push(event)
            &&& p.amount <= balance ==> t == (Grid { events: t.events, ..s })
            &&& p.amount > balance ==> !t.locked
            &&& p.amount > balance ==> t == (Grid { locked: t.locked, ..s })
        }),
{
}

/// A recovery moves everything the contract holds, if it holds anything, and announces how much.
pub proof fn law_recovery_moves_everything(s: Grid, p: PendingRecovery, balance: i128)
    ensures
        ({
            let answer = recovery_answer(p, balance);
            let t = recovery_answered(s, p, balance);
            let event = Event::EmergencyWithdrawn { to: p.to, amount: balance };
            &&& answer is Some <==> balance > 0
            &&& answer is Some ==> answer->0.amount == balance && answer->0.to == p.to
                && answer->0.from == p.query.holder && answer->0.token == p.query.token
            &&& t.events == s.events.push(event)
            &&& t == (Grid { events: t.events, ..s })
        }),
{
}

} // verus!

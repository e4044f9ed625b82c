//! How revenue is shared.

use vstd::prelude::*;

use crate::collaborators::{
    add_collaborator_refusal, collaborator_added, collaborator_removed, distribute_refusal,
    distribution_completed, divisible, has_payee, is_payment, lemma_share_sum, lemma_share_sum_same,
    pay_out_refusal, payout, payouts, pays_out, remove_collaborator_refusal, revenue_summary,
    share_at, share_sum, total_share,
};
use crate::events::Event;
use crate::lists::{amount_at, lemma_without_contains, without};
use crate::state::{refusal, Grid, Invocation};
use crate::types::{CallError, ContractError, Transfer};
use crate::values::Address;

verus! {

/// The administrator may add a new collaborator with a share of 1 to 10,000 basis points, as long
/// as all shares together are at most 10,000.
pub proof fn law_collaborators_are_let_in(
    s: Grid,
    env: Invocation,
    collaborator: Address,
    basis_points: u32,
)
    ensures
        ({
            let answer = add_collaborator_refusal(s, env, collaborator, basis_points);
            let no_admin = s.admin is None;
            let admin_missing = s.admin is Some && !env.signers@.contains(s.admin->0);
            let no_share = basis_points < 1 || basis_points > 10_000;
            let known = s.shares.contains_key(collaborator);
            let too_much = total_share(s.shares) + basis_points > 10_000;
            &&& answer is None <==> !no_admin && !admin_missing && !no_share && !known && !too_much
            &&& no_admin ==> answer == refusal(ContractError::NotInitialized)
            &&& !no_admin && admin_missing ==> answer == Some(CallError::MissingAuth(s.admin->0))
            &&& !no_admin && !admin_missing && no_share
                ==> answer == refusal(ContractError::InvalidAmount)
            &&& !no_admin && !admin_missing && !no_share && known
                ==> answer == refusal(ContractError::CollaboratorAlreadyExists)
            &&& !no_admin && !admin_missing && !no_share && !known && too_much
                ==> answer == refusal(ContractError::InvalidAmount)
        }),
{
}

/// The administrator may remove a collaborator, whose leaving keeps the others within 10,000.
pub proof fn law_removals_are_let_in(s: Grid, env: Invocation, collaborator: Address)
    ensures
        ({
            let answer = remove_collaborator_refusal(s, env, collaborator);
            let no_admin = s.admin is None;
            let admin_missing = s.admin is Some && !env.signers@.contains(s.admin->0);
            let unknown = !s.shares.contains_key(collaborator);
            let too_much = total_share(s.shares.remove(collaborator)) > 10_000;
            &&& answer is None <==> !no_admin && !admin_missing && !unknown && !too_much
            &&& no_admin ==> answer == refusal(ContractError::NotInitialized)
            &&& !no_admin && admin_missing ==> answer == Some(CallError::MissingAuth(s.admin->0))
            &&& !no_admin && !admin_missing && unknown
                ==> answer == refusal(ContractError::CollaboratorNotFound)
            &&& !no_admin && !admin_missing && !unknown && too_much
                ==> answer == refusal(ContractError::InvalidAmount)
        }),
{
}

/// The administrator may distribute a positive amount whose parts can be computed.
pub proof fn law_distribution_is_let_in(s: Grid, env: Invocation, amount: i128)
    ensures
        ({
            let answer = distribute_refusal(s, env, amount);
            let no_admin = s.admin is None;
            let admin_missing = s.admin is Some && !env.signers@.contains(s.admin->0);
            let not_positive = amount <= 0;
            let too_large = !divisible(s, amount);
            &&& answer is None <==> !no_admin && !admin_missing && !not_positive && !too_large
            &&& no_admin ==> answer == refusal(ContractError::NotInitialized)
            &&& !no_admin && admin_missing ==> answer == Some(CallError::MissingAuth(s.admin->0))
            &&& !no_admin && !admin_missing && not_positive
                ==> answer == refusal(ContractError::InvalidAmount)
            &&& !no_admin && !admin_missing && !not_positive && too_large
                ==> answer == refusal(ContractError::InvalidAmount)
        }),
{
}

/// Paying a distribution out takes a contract that is set up and not busy besides.
pub proof fn law_paying_out_is_let_in(s: Grid, env: Invocation, amount: i128)
    ensures
        ({
            let answer = pay_out_refusal(s, env, amount);
            let no_admin = s.admin is None;
            let admin_missing = s.admin is Some && !env.signers@.contains(s.admin->0);
            let not_positive = amount <= 0;
            let busy = s.locked;
            let no_token = s.token is None;
            let too_large = !divisible(s, amount);
            &&& answer is None <==> !no_admin && !admin_missing && !not_positive && !busy
                && !no_token && !too_large
            &&& no_admin ==> answer == refusal(ContractError::NotInitialized)
            &&& !no_admin && admin_missing ==> answer == Some(CallError::MissingAuth(s.admin->0))
            &&& !no_admin && !admin_missing && not_positive
                ==> answer == refusal(ContractError::InvalidAmount)
            &&& !no_admin && !admin_missing && !not_positive && busy
                ==> answer == refusal(ContractError::ReentrantCall)
            &&& !no_admin && !admin_missing && !not_positive && !busy && no_token
                ==> answer == refusal(ContractError::NotInitialized)
            &&& !no_admin && !admin_missing && !not_positive && !busy && !no_token
                && too_large ==> answer == refusal(ContractError::InvalidAmount)
        }),
{
}

/// All shares together are the sum of each: none make nothing, one more adds its own, and one less
/// takes its own away.
pub proof fn law_shares_add_up(shares: Map<Address, u32>, who: Address, basis_points: u32)
    requires
        shares.dom().finite(),
        !shares.contains_key(who),
    ensures
        total_share(Map::<Address, u32>::empty()) == 0,
        total_share(shares.insert(who, basis_points)) == total_share(shares) + basis_points,
        total_share(shares.insert(who, basis_points).remove(who)) == total_share(shares),
        total_share(shares) >= 0,
    decreases shares.dom().len(),
{
    let more = shares.insert(who, basis_points);
    lemma_share_sum(more, more.dom(), who);
    assert(more.dom().remove(who) =~= shares.dom());
    lemma_share_sum_same(more, shares, shares.dom());
    assert(more.remove(who) =~= shares);
    if shares.dom().len() > 0 {
        let key = shares.dom().choose();
        let less = shares.remove(key);
        assert(less.dom() =~= shares.dom().remove(key));
        law_shares_add_up(less, key, shares[key]);
        assert(less.insert(key, shares[key]) =~= shares);
    }
}

/// The shares of a set of collaborators are counted whichever comes first.
pub proof fn law_shares_add_up_in_any_order(
    shares: Map<Address, u32>,
    keys: Set<Address>,
    key: Address,
)
    requires
        keys.finite(),
        keys.contains(key),
    ensures
        share_sum(shares, keys) == shares[key] + share_sum(shares, keys.remove(key)),
        share_sum(shares, Set::empty()) == 0,
{
    lemma_share_sum(shares, keys, key);
}

/// A collaborator is added at the end with its share, and removed with it; the others keep theirs.
pub proof fn law_collaborators_come_and_go(s: Grid, who: Address, basis_points: u32)
    ensures
        ({
            let t = collaborator_added(s, who, basis_points);
            &&& t.collaborators == s.collaborators.push(who)
            &&& t.shares == s.shares.insert(who, basis_points)
            &&& t == (Grid { collaborators: t.collaborators, shares: t.shares, ..s })
        }),
        ({
            let t = collaborator_removed(s, who);
            &&& t.collaborators == without(s.collaborators, who)
            &&& !t.collaborators.contains(who)
            &&& t.shares == s.shares.remove(who)
            &&& t == (Grid { collaborators: t.collaborators, shares: t.shares, ..s })
        }),
{
    lemma_without_contains(s.collaborators, who);
}

/// A share that was never recorded is nothing.
pub proof fn law_shares_are_read_back(shares: Map<Address, u32>, who: Address)
    ensures
        shares.contains_key(who) ==> share_at(shares, who) == shares[who],
        !shares.contains_key(who) ==> share_at(shares, who) == 0,
{
}

/// A part is the amount times the share in ten-thousandths, rounded down: no more, and less than
/// one short of it. A full share is the whole amount.
pub proof fn law_parts_are_proportional(amount: i128, basis_points: u32)
    requires
        amount >= 0,
    ensures
        payout(amount, basis_points) * 10_000 <= amount * basis_points,
        amount * basis_points < (payout(amount, basis_points) + 1) * 10_000,
        payout(amount, 10_000) == amount,
        payout(amount, 0) == 0,
{
    assert(amount * 0 == 0) by (nonlinear_arith);
}

/// Exactly the collaborators get a part, each the one of its own share.
pub proof fn law_collaborators_get_their_parts(s: Grid, amount: i128, who: Address)
    requires
        amount > 0,
        divisible(s, amount),
    ensures
        payouts(s, amount).contains_key(who) <==> s.collaborators.contains(who),
        s.collaborators.contains(who) && s.shares.contains_key(who) ==> ({
            let part = payouts(s, amount)[who];
            part >= 0 && part * 10_000 <= amount * s.shares[who] < (part + 1) * 10_000
        }),
        s.collaborators.contains(who) && !s.shares.contains_key(who) ==> payouts(s, amount)[who]
            == 0,
{
    if s.collaborators.contains(who) {
        let share = share_at(s.shares, who);
        assert(0 <= amount * share <= i128::MAX) by {
            assert(amount * share >= 0) by (nonlinear_arith)
                requires
                    amount > 0,
            ;
        }
        assert(payout(amount, share) as i128 == payout(amount, share));
        if share == 0 {
            assert(amount * share == 0) by (nonlinear_arith)
                requires
                    share == 0,
            ;
        }
    }
}

/// The parts can be computed where the amount times each share fits.
pub proof fn law_parts_can_be_computed(s: Grid, amount: i128)
    ensures
        divisible(s, amount) <==> forall|who: Address| #[trigger]
            s.collaborators.contains(who) ==> amount * share_at(s.shares, who) <= i128::MAX,
{
}

/// What pays a distribution out moves each positive part, of the token and from the contract, to
/// whom it belongs, exactly once, in the order of addresses, and nothing else.
pub proof fn law_paying_out_reaches_everyone_once(
    transfers: Seq<Transfer>,
    token: Address,
    from: Address,
    paid: Map<Address, i128>,
    who: Address,
    i: int,
    j: int,
)
    requires
        pays_out(transfers, token, from, paid),
    ensures
        0 <= i < transfers.len() ==> transfers[i].token == token && transfers[i].from == from
            && transfers[i].amount > 0,
        0 <= i < transfers.len() ==> paid.contains_key(transfers[i].to)
            && paid[transfers[i].to] == transfers[i].amount,
        0 <= i < j < transfers.len() ==> transfers[i].to.before(transfers[j].to),
        0 <= i < j < transfers.len() ==> transfers[i].to != transfers[j].to,
        paid.contains_key(who) && paid[who] > 0 ==> exists|k: int|
            0 <= k < transfers.len() && (#[trigger] transfers[k]).to == who,
{
    if 0 <= i < transfers.len() {
        assert(is_payment(transfers[i], token, from, paid));
    }
    if paid.contains_key(who) && paid[who] > 0 {
        assert(has_payee(transfers, who));
    }
}

/// Whatever moves each positive part, and nothing else, in the order of addresses pays the
/// distribution out.
pub proof fn law_reaching_everyone_once_is_paying_out(
    transfers: Seq<Transfer>,
    token: Address,
    from: Address,
    paid: Map<Address, i128>,
)
    requires
        forall|i: int|
            0 <= i < transfers.len() ==> (#[trigger] transfers[i]).token == token
                && transfers[i].from == from && transfers[i].amount > 0 && paid.contains_key(
                transfers[i].to,
            ) && paid[transfers[i].to] == transfers[i].amount,
        forall|i: int, j: int|
            #![trigger transfers[i], transfers[j]]
            0 <= i < j < transfers.len() ==> transfers[i].to.before(transfers[j].to),
        forall|who: Address| #[trigger]
            paid.contains_key(who) && paid[who] > 0 ==> exists|k: int|
                0 <= k < transfers.len() && (#[trigger] transfers[k]).to == who,
    ensures
        pays_out(transfers, token, from, paid),
{
    assert forall|who: Address| #[trigger]
        paid.contains_key(who) && paid[who] > 0 implies has_payee(transfers, who) by {
        let k = choose|k: int| 0 <= k < transfers.len() && (#[trigger] transfers[k]).to == who;
        assert(transfers[k].to == who);
    }
}

/// The summary names the administrator and the collaborators with their revenue, and nobody else.
pub proof fn law_summary_names_everyone(s: Grid, who: Address)
    ensures
        revenue_summary(s).contains_key(who) <==> (s.admin is Some && s.admin->0 == who)
            || s.collaborators.contains(who),
        revenue_summary(s).contains_key(who) ==> revenue_summary(s)[who] == amount_at(
            s.provider_revenue,
            who,
        ),
{
}

/// A distribution that is through gives the lock back and is announced with its amount.
pub proof fn law_distribution_is_announced(s: Grid, amount: i128)
    ensures
        ({
            let t = distribution_completed(s, amount);
            &&& !t.locked
            &&& t.events == s.events.push(Event::Distributed { amount })
            &&& t == (Grid { locked: t.locked, events: t.events, ..s })
        }),
{
}

} // verus!

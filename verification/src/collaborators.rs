//! Revenue collaborators, their shares, and the distribution of amounts among them.

use vstd::prelude::*;

use crate::events::Event;
use crate::lists::{amount_at, copy_addresses, read_amount, remove_address, without};
use crate::state::{
    admin_refusal, lift, lock_taken, refusal, refuse, Grid, Invocation, SolarGridContract,
};
use crate::table::Table;
use crate::types::{CallError, ContractError, Transfer};
use crate::values::Address;

verus! {

/// All of it, in basis points.
pub const FULL_SHARE: u32 = 10_000;

/// The sum of the shares of the addresses in `keys`.
pub open spec fn share_sum(shares: Map<Address, u32>, keys: Set<Address>) -> int
    decreases keys.len(),
    when keys.finite()
{
    if keys.len() == 0 {
        0
    } else {
        let key = keys.choose();
        shares[key] + share_sum(shares, keys.remove(key))
    }
}

/// The sum of all shares.
pub open spec fn total_share(shares: Map<Address, u32>) -> int {
    share_sum(shares, shares.dom())
}

/// Any address of the sum can be taken out first.
pub proof fn lemma_share_sum(shares: Map<Address, u32>, keys: Set<Address>, key: Address)
    requires
        keys.finite(),
        keys.contains(key),
    ensures
        share_sum(shares, keys) == shares[key] + share_sum(shares, keys.remove(key)),
    decreases keys.len(),
{
    let first = keys.choose();
    if first != key {
        lemma_share_sum(shares, keys.remove(first), key);
        lemma_share_sum(shares, keys.remove(key), first);
        assert(keys.remove(first).remove(key) =~= keys.remove(key).remove(first));
    }
}

/// The sum depends on the shares of its own addresses alone.
pub proof fn lemma_share_sum_same(
    shares: Map<Address, u32>,
    others: Map<Address, u32>,
    keys: Set<Address>,
)
    requires
        keys.finite(),
        forall|key: Address| #[trigger] keys.contains(key) ==> shares[key] == others[key],
    ensures
        share_sum(shares, keys) == share_sum(others, keys),
    decreases keys.len(),
{
    if keys.len() != 0 {
        lemma_share_sum_same(shares, others, keys.remove(keys.choose()));
    }
}

/// Why adding a collaborator is refused, if it is.
pub open spec fn add_collaborator_refusal(
    s: Grid,
    env: Invocation,
    collaborator: Address,
    basis_points: u32,
) -> Option<CallError> {
    if admin_refusal(s, env) is Some {
        admin_refusal(s, env)
    } else if basis_points == 0 || basis_points > FULL_SHARE {
        refusal(ContractError::InvalidAmount)
    } else if s.shares.contains_key(collaborator) {
        refusal(ContractError::CollaboratorAlreadyExists)
    } else if total_share(s.shares) + basis_points > FULL_SHARE {
        refusal(ContractError::InvalidAmount)
    } else {
        None
    }
}

/// The state once a collaborator is added.
pub open spec fn collaborator_added(s: Grid, collaborator: Address, basis_points: u32) -> Grid {
    Grid {
        collaborators: s.collaborators.push(collaborator),
        shares: s.shares.insert(collaborator, basis_points),
        ..s
    }
}

/// Why removing a collaborator is refused, if it is.
pub open spec fn remove_collaborator_refusal(
    s: Grid,
    env: Invocation,
    collaborator: Address,
) -> Option<CallError> {
    if admin_refusal(s, env) is Some {
        admin_refusal(s, env)
    } else if !s.shares.contains_key(collaborator) {
        refusal(ContractError::CollaboratorNotFound)
    } else if total_share(s.shares.remove(collaborator)) > FULL_SHARE {
        refusal(ContractError::InvalidAmount)
    } else {
        None
    }
}

/// The state once a collaborator is removed.
pub open spec fn collaborator_removed(s: Grid, collaborator: Address) -> Grid {
    Grid {
        collaborators: without(s.collaborators, collaborator),
        shares: s.shares.remove(collaborator),
        ..s
    }
}

/// An address's share in basis points; none if it is not a collaborator.
pub open spec fn share_at(shares: Map<Address, u32>, who: Address) -> u32 {
    if shares.contains_key(who) {
        shares[who]
    } else {
        0
    }
}

/// What a share of `amount` comes to, rounded down.
pub open spec fn payout(amount: i128, basis_points: u32) -> int {
    amount * basis_points / (FULL_SHARE as int)
}

/// What each collaborator gets of `amount`.
pub open spec fn payouts(s: Grid, amount: i128) -> Map<Address, i128> {
    Map::new(
        |who: Address| s.collaborators.contains(who),
        |who: Address| payout(amount, share_at(s.shares, who)) as i128,
    )
}

/// Whether computing each collaborator's part of `amount` stays within the range of amounts.
pub open spec fn divisible(s: Grid, amount: i128) -> bool {
    forall|who: Address| #[trigger]
        s.collaborators.contains(who) ==> amount * share_at(s.shares, who) <= i128::MAX
}

/// Why computing a distribution is refused, if it is.
pub open spec fn distribute_refusal(s: Grid, env: Invocation, amount: i128) -> Option<CallError> {
    if admin_refusal(s, env) is Some {
        admin_refusal(s, env)
    } else if amount <= 0 || !divisible(s, amount) {
        refusal(ContractError::InvalidAmount)
    } else {
        None
    }
}

/// Why paying a distribution out is refused, if it is.
pub open spec fn pay_out_refusal(s: Grid, env: Invocation, amount: i128) -> Option<CallError> {
    if admin_refusal(s, env) is Some {
        admin_refusal(s, env)
    } else if amount <= 0 {
        refusal(ContractError::InvalidAmount)
    } else if s.locked {
        refusal(ContractError::ReentrantCall)
    } else if s.token is None {
        refusal(ContractError::NotInitialized)
    } else if !divisible(s, amount) {
        refusal(ContractError::InvalidAmount)
    } else {
        None
    }
}

/// Whether `t` pays an address what `paid` says.
pub open spec fn is_payment(
    t: Transfer,
    token: Address,
    from: Address,
    paid: Map<Address, i128>,
) -> bool {
    t.token == token && t.from == from && paid.contains_key(t.to) && t.amount == paid[t.to]
        && t.amount > 0
}

/// Whether one of `transfers` goes to `who`.
pub open spec fn has_payee(transfers: Seq<Transfer>, who: Address) -> bool {
    exists|i: int| 0 <= i < transfers.len() && (#[trigger] transfers[i]).to == who
}

/// Whether the recipients come in the order in which the ledger lists addresses.
pub open spec fn in_order(transfers: Seq<Transfer>) -> bool {
    forall|i: int, j: int|
        #![trigger transfers[i], transfers[j]]
        0 <= i < j < transfers.len() ==> transfers[i].to.before(transfers[j].to)
}

/// Whether `transfers` pays each address what `paid` says, nothing to those who get nothing, in
/// the order in which the ledger lists addresses.
pub open spec fn pays_out(
    transfers: Seq<Transfer>,
    token: Address,
    from: Address,
    paid: Map<Address, i128>,
) -> bool {
    &&& forall|i: int|
        0 <= i < transfers.len() ==> is_payment(#[trigger] transfers[i], token, from, paid)
    &&& in_order(transfers)
    &&& forall|who: Address| #[trigger]
        paid.contains_key(who) && paid[who] > 0 ==> has_payee(transfers, who)
}

/// What each of the administrator and the collaborators may withdraw.
pub open spec fn revenue_summary(s: Grid) -> Map<Address, i128> {
    Map::new(
        |who: Address| s.admin == Some(who) || s.collaborators.contains(who),
        |who: Address| amount_at(s.provider_revenue, who),
    )
}

/// The state once a distribution's tokens have left.
pub open spec fn distribution_completed(s: Grid, amount: i128) -> Grid {
    Grid { locked: false, events: s.events.push(Event::Distributed { amount }), ..s }
}

/// A distribution that waits for its tokens to leave.
#[derive(Debug)]
pub struct Distribution {
    pub amount: i128,
    /// What each collaborator gets.
    pub payouts: Table<Address, i128>,
    /// The movements of tokens to make, in order.
    pub transfers: Vec<Transfer>,
}

/// Puts a transfer where the order of recipients wants it.
fn insert_ordered(transfers: &mut Vec<Transfer>, transfer: Transfer)
    requires
        in_order(old(transfers)@),
        !has_payee(old(transfers)@, transfer.to),
    ensures
        in_order(final(transfers)@),
        exists|at: int|
            0 <= at <= old(transfers)@.len() && #[trigger] old(transfers)@.insert(at, transfer)
                == final(transfers)@,
{
    let mut at: usize = 0;
    while at < transfers.len() && transfers[at].to.precedes(&transfer.to)
        invariant
            at <= transfers@.len(),
            forall|i: int| 0 <= i < at ==> (#[trigger] transfers@[i]).to.before(transfer.to),
        decreases transfers@.len() - at,
    {
        at = at + 1;
    }
    transfers.insert(at, transfer);
}

impl SolarGridContract {
    /// The sum of all shares.
    fn sum_shares(&self) -> (r: u128)
        ensures
            r == total_share(self@.shares),
            self@.shares.dom().finite(),
    {
        let ghost shares = self.shares@;
        let ghost mut seen: Set<Address> = Set::empty();
        let mut total: u128 = 0;
        let mut i: usize = 0;
        while i < self.shares.len()
            invariant
                i <= self.shares.pairs().len(),
                shares == self.shares@,
                seen.finite(),
                forall|a: Address| #[trigger]
                    seen.contains(a) <==> exists|j: int|
                        0 <= j < i && (#[trigger] self.shares.pairs()[j]).0 == a,
                total == share_sum(shares, seen),
                total <= i * 0xffff_ffff,
            decreases self.shares.pairs().len() - i,
        {
            let (who, share) = self.shares.at(i);
            total = total + *share as u128;
            proof {
                assert(self.shares.pairs()[i as int].0 == *who);
                assert(!seen.contains(*who));
                let before = seen;
                seen = seen.insert(*who);
                lemma_share_sum(shares, seen, *who);
                assert(seen.remove(*who) =~= before);
                assert forall|a: Address| #[trigger] seen.contains(a) <==> exists|j: int|
                    0 <= j < i + 1 && (#[trigger] self.shares.pairs()[j]).0 == a by {
                    if before.contains(a) {
                        let j = choose|j: int|
                            0 <= j < i && (#[trigger] self.shares.pairs()[j]).0 == a;
                        assert(self.shares.pairs()[j].0 == a);
                    }
                }
            }
            i = i + 1;
        }
        assert(seen =~= shares.dom());
        total
    }

    /// Gives a collaborator a share, in basis points. All shares together cannot be more than the
    /// whole. Only the administrator may do so.
    pub fn add_collaborator(
        &mut self,
        env: &Invocation,
        collaborator: Address,
        basis_points: u32,
    ) -> (r: Result<(), CallError>)
        ensures
            match add_collaborator_refusal(old(self)@, *env, collaborator, basis_points) {
                Some(e) => r == Err::<(), CallError>(e) && final(self)@ == old(self)@,
                None => r is Ok && final(self)@ == collaborator_added(
                    old(self)@,
                    collaborator,
                    basis_points,
                ),
            },
    {
        self.require_admin(env)?;
        if basis_points == 0 || basis_points > FULL_SHARE {
            return refuse(ContractError::InvalidAmount);
        }
        if self.shares.contains(&collaborator) {
            return refuse(ContractError::CollaboratorAlreadyExists);
        }
        let total: u128 = self.sum_shares();
        if total > (FULL_SHARE - basis_points) as u128 {
            return refuse(ContractError::InvalidAmount);
        }
        self.collaborators.push(collaborator);
        self.shares.set(collaborator, basis_points);
        Ok(())
    }

    /// Takes a collaborator's share away. Only the administrator may do so.
    pub fn remove_collaborator(&mut self, env: &Invocation, collaborator: Address) -> (r: Result<
        (),
        CallError,
    >)
        ensures
            match remove_collaborator_refusal(old(self)@, *env, collaborator) {
                Some(e) => r == Err::<(), CallError>(e) && final(self)@ == old(self)@,
                None => r is Ok && final(self)@ == collaborator_removed(old(self)@, collaborator),
            },
    {
        self.require_admin(env)?;
        let share: u32 = match self.shares.get(&collaborator) {
            Some(share) => *share,
            None => {
                return refuse(ContractError::CollaboratorNotFound);
            },
        };
        let total: u128 = self.sum_shares();
        proof {
            let shares = self.shares@;
            let rest = shares.remove(collaborator);
            lemma_share_sum(shares, shares.dom(), collaborator);
            assert(rest.dom() =~= shares.dom().remove(collaborator));
            lemma_share_sum_same(shares, rest, rest.dom());
        }
        if total > FULL_SHARE as u128 + share as u128 {
            return refuse(ContractError::InvalidAmount);
        }
        self.collaborators = remove_address(&self.collaborators, collaborator);
        self.shares.remove(&collaborator);
        Ok(())
    }

    /// The collaborators, in the order in which they were added.
    pub fn get_collaborators(&self) -> (r: Vec<Address>)
        ensures
            r@ == self@.collaborators,
    {
        copy_addresses(&self.collaborators)
    }

    /// A collaborator's share in basis points.
    pub fn get_collaborator_share(&self, address: Address) -> (r: Option<u32>)
        ensures
            r == if self@.shares.contains_key(address) {
                Some(self@.shares[address])
            } else {
                None
            },
    {
        match self.shares.get(&address) {
            Some(share) => Some(*share),
            None => None,
        }
    }

    /// All shares, in basis points.
    pub fn get_all_shares(&self) -> (r: Table<Address, u32>)
        ensures
            r@ == self@.shares,
    {
        let mut copy: Table<Address, u32> = Table::new();
        let mut i: usize = 0;
        while i < self.shares.len()
            invariant
                i <= self.shares.pairs().len(),
                forall|a: Address| #[trigger]
                    copy@.contains_key(a) ==> self.shares@.contains_key(a) && self.shares@[a]
                        == copy@[a],
                forall|j: int|
                    0 <= j < i ==> copy@.contains_key((#[trigger] self.shares.pairs()[j]).0),
            decreases self.shares.pairs().len() - i,
        {
            let (who, share) = self.shares.at(i);
            copy.set(*who, *share);
            i = i + 1;
        }
        assert forall|a: Address| self.shares@.contains_key(a) implies copy@.contains_key(a) by {
            let j = choose|j: int|
                0 <= j < self.shares.pairs().len() && (#[trigger] self.shares.pairs()[j]).0 == a;
            assert(copy@.contains_key(self.shares.pairs()[j].0));
        }
        assert(copy@ =~= self.shares@);
        copy
    }

    /// What each collaborator gets of `amount`, or nothing if that cannot be computed.
    fn compute_payouts(&self, amount: i128) -> (r: Option<Table<Address, i128>>)
        requires
            amount > 0,
        ensures
            match r {
                Some(paid) => divisible(self@, amount) && paid@ == payouts(self@, amount),
                None => !divisible(self@, amount),
            },
    {
        let mut paid: Table<Address, i128> = Table::new();
        let mut i: usize = 0;
        while i < self.collaborators.len()
            invariant
                i <= self.collaborators@.len(),
                amount > 0,
                forall|j: int|
                    0 <= j < i ==> paid@.contains_key(#[trigger] self.collaborators@[j]),
                forall|who: Address| #[trigger]
                    paid@.contains_key(who) ==> self.collaborators@.contains(who),
                forall|who: Address| #[trigger]
                    paid@.contains_key(who) ==> amount * share_at(self.shares@, who) <= i128::MAX
                        && paid@[who] == payout(amount, share_at(self.shares@, who)),
            decreases self.collaborators@.len() - i,
        {
            let who: Address = self.collaborators[i];
            let share: u32 = match self.shares.get(&who) {
                Some(share) => *share,
                None => 0,
            };
            assert(amount * share >= 0) by (nonlinear_arith)
                requires
                    amount > 0,
            ;
            let product: i128 = match amount.checked_mul(share as i128) {
                Some(product) => product,
                None => {
                    assert(self@.collaborators.contains(who));
                    assert(share_at(self@.shares, who) == share);
                    assert(amount * share > i128::MAX);
                    return None;
                },
            };
            paid.set(who, product / 10_000);
            i = i + 1;
        }
        assert forall|who: Address| #[trigger] self.collaborators@.contains(
            who,
        ) implies paid@.contains_key(who) by {
            let j = choose|j: int|
                0 <= j < self.collaborators@.len() && self.collaborators@[j] == who;
            assert(paid@.contains_key(self.collaborators@[j]));
        }
        assert(paid@ =~= payouts(self@, amount));
        Some(paid)
    }

    /// Computes what each collaborator gets of `amount`, rounded down. Only the administrator may
    /// ask.
    pub fn distribute(&self, env: &Invocation, amount: i128) -> (r: Result<
        Table<Address, i128>,
        CallError,
    >)
        ensures
            match distribute_refusal(self@, *env, amount) {
                Some(e) => r == Err::<Table<Address, i128>, CallError>(e),
                None => r is Ok && r->Ok_0@ == payouts(self@, amount),
            },
    {
        self.require_admin(env)?;
        if amount <= 0 {
            return refuse(ContractError::InvalidAmount);
        }
        match self.compute_payouts(amount) {
            Some(paid) => Ok(paid),
            None => refuse(ContractError::InvalidAmount),
        }
    }

    /// Pays `amount` out among the collaborators. Only the administrator may do so.
    ///
    /// The caller makes the transfers that are returned, in order, and then calls
    /// `complete_distribution`; until then the contract is locked.
    pub fn distribute_and_transfer(&mut self, env: &Invocation, amount: i128) -> (r: Result<
        Distribution,
        CallError,
    >)
        ensures
            match pay_out_refusal(old(self)@, *env, amount) {
                Some(e) => r == Err::<Distribution, CallError>(e) && final(self)@ == old(self)@,
                None => {
                    &&& r is Ok
                    &&& r->Ok_0.amount == amount
                    &&& r->Ok_0.payouts@ == payouts(old(self)@, amount)
                    &&& pays_out(
                        r->Ok_0.transfers@,
                        old(self)@.token->0,
                        env.contract,
                        payouts(old(self)@, amount),
                    )
                    &&& final(self)@ == lock_taken(old(self)@)
                },
            },
    {
        self.require_admin(env)?;
        if amount <= 0 {
            return refuse(ContractError::InvalidAmount);
        }
        if self.locked {
            return refuse(ContractError::ReentrantCall);
        }
        let token: Address = lift(self.get_token_address())?;
        let paid: Table<Address, i128> = match self.compute_payouts(amount) {
            Some(paid) => paid,
            None => {
                return refuse(ContractError::InvalidAmount);
            },
        };
        self.locked = true;
        let transfers: Vec<Transfer> = order_transfers(token, env.contract, &paid);
        Ok(Distribution { amount, payouts: paid, transfers })
    }

    /// Ends a distribution whose tokens have left: gives the lock back and publishes what
    /// happened.
    pub fn complete_distribution(&mut self, distribution: &Distribution)
        ensures
            final(self)@ == distribution_completed(old(self)@, distribution.amount),
    {
        self.locked = false;
        self.publish(Event::Distributed { amount: distribution.amount });
    }

    /// What the administrator and each collaborator may withdraw. Only the administrator may ask.
    pub fn get_revenue_summary(&self, env: &Invocation) -> (r: Result<
        Table<Address, i128>,
        CallError,
    >)
        ensures
            match admin_refusal(self@, *env) {
                Some(e) => r == Err::<Table<Address, i128>, CallError>(e),
                None => r is Ok && r->Ok_0@ == revenue_summary(self@),
            },
    {
        let admin: Address = self.require_admin(env)?;
        let mut summary: Table<Address, i128> = Table::new();
        summary.set(admin, read_amount(&self.provider_revenue, &admin));
        let mut i: usize = 0;
        while i < self.collaborators.len()
            invariant
                i <= self.collaborators@.len(),
                self@.admin == Some(admin),
                summary@.contains_key(admin),
                forall|j: int|
                    0 <= j < i ==> summary@.contains_key(#[trigger] self.collaborators@[j]),
                forall|who: Address| #[trigger]
                    summary@.contains_key(who) ==> (who == admin || self.collaborators@.contains(
                        who,
                    )) && summary@[who] == amount_at(self.provider_revenue@, who),
            decreases self.collaborators@.len() - i,
        {
            let who: Address = self.collaborators[i];
            summary.set(who, read_amount(&self.provider_revenue, &who));
            i = i + 1;
        }
        assert forall|who: Address| #[trigger] self.collaborators@.contains(
            who,
        ) implies summary@.contains_key(who) by {
            let j = choose|j: int|
                0 <= j < self.collaborators@.len() && self.collaborators@[j] == who;
            assert(summary@.contains_key(self.collaborators@[j]));
        }
        assert(summary@ =~= revenue_summary(self@));
        Ok(summary)
    }
}

/// One more address that is paid takes one more transfer.
proof fn lemma_pays_one_more(
    before: Seq<Transfer>,
    after: Seq<Transfer>,
    at: int,
    new: Transfer,
    paid: Map<Address, i128>,
)
    requires
        pays_out(before, new.token, new.from, paid),
        !paid.contains_key(new.to),
        new.amount > 0,
        0 <= at <= before.len(),
        after == before.insert(at, new),
        in_order(after),
    ensures
        pays_out(after, new.token, new.from, paid.insert(new.to, new.amount)),
{
    let more = paid.insert(new.to, new.amount);
    assert forall|i: int| 0 <= i < after.len() implies is_payment(
        #[trigger] after[i],
        new.token,
        new.from,
        more,
    ) by {
        if i < at {
            assert(after[i] == before[i]);
        } else if i > at {
            assert(after[i] == before[i - 1]);
        }
    }
    assert forall|who: Address| #[trigger] more.contains_key(who) && more[who]
        > 0 implies has_payee(after, who) by {
        if who == new.to {
            assert(after[at].to == who);
        } else {
            assert(paid.contains_key(who));
            let i = choose|i: int| 0 <= i < before.len() && (#[trigger] before[i]).to == who;
            if i < at {
                assert(after[i].to == who);
            } else {
                assert(after[i + 1].to == who);
            }
        }
    }
}

/// The transfers that pay each address its part, in the order in which the ledger lists
/// addresses.
fn order_transfers(token: Address, from: Address, paid: &Table<Address, i128>) -> (r: Vec<Transfer>)
    ensures
        pays_out(r@, token, from, paid@),
{
    let mut transfers: Vec<Transfer> = Vec::new();
    let ghost mut done: Map<Address, i128> = Map::empty();
    let mut i: usize = 0;
    while i < paid.len()
        invariant
            i <= paid.pairs().len(),
            pays_out(transfers@, token, from, done),
            forall|j: int| 0 <= j < i ==> done.contains_key((#[trigger] paid.pairs()[j]).0),
            forall|who: Address| #[trigger]
                done.contains_key(who) ==> paid@.contains_key(who) && paid@[who] == done[who]
                    && exists|j: int| 0 <= j < i && (#[trigger] paid.pairs()[j]).0 == who,
        decreases paid.pairs().len() - i,
    {
        let (who, amount) = paid.at(i);
        let ghost before = transfers@;
        let ghost new = Transfer { token, from, to: *who, amount: *amount };
        proof {
            if done.contains_key(*who) {
                let j = choose|j: int| 0 <= j < i && (#[trigger] paid.pairs()[j]).0 == *who;
                assert(paid.pairs()[j].0 != paid.pairs()[i as int].0);
            }
        }
        if *amount > 0 {
            insert_ordered(&mut transfers, Transfer { token, from, to: *who, amount: *amount });
            proof {
                let at = choose|at: int|
                    0 <= at <= before.len() && #[trigger] before.insert(at, new) == transfers@;
                lemma_pays_one_more(before, transfers@, at, new, done);
            }
        }
        proof {
            let earlier = done;
            done = done.insert(*who, *amount);
            assert forall|a: Address| #[trigger] done.contains_key(a) implies paid@.contains_key(a)
                && paid@[a] == done[a] && exists|j: int|
                0 <= j < i + 1 && (#[trigger] paid.pairs()[j]).0 == a by {
                if a == *who {
                    assert(paid.pairs()[i as int].0 == a);
                } else {
                    assert(earlier.contains_key(a));
                }
            }
        }
        i = i + 1;
    }
    assert forall|who: Address| #[trigger] paid@.contains_key(who) implies done.contains_key(
        who,
    ) by {
        let j = choose|j: int| 0 <= j < paid.pairs().len() && (#[trigger] paid.pairs()[j]).0 == who;
        assert(done.contains_key(paid.pairs()[j].0));
    }
    assert(done =~= paid@);
    transfers
}

} // verus!

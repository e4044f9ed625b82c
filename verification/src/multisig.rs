//! Operations that several administrators decide on together.

use vstd::prelude::*;

use crate::lists::{copy_addresses, copy_texts, holds};
use crate::state::{
    admin_refusal, auth_refusal, current_meter, lock_given_back, lock_taken, pause_in_force,
    pause_settled, refusal, refuse, with_meter, Grid, Invocation, SolarGridContract,
};
use crate::types::{
    AdminOperation, AdminProposal, BalanceQuery, CallError, ContractError, Meter, OperationModel,
    StoredMeter, Transfer,
};
use crate::values::{Address, Text};

verus! {

/// The fewest administrators that decide together.
pub const MIN_MULTISIG_ADMINS: usize = 3;

/// The most administrators that decide together.
pub const MAX_MULTISIG_ADMINS: usize = 5;

/// A withdrawal that was agreed on and waits to hear how many tokens the contract holds.
#[derive(Clone, Copy, Debug, PartialEq, Eq, Structural)]
pub struct PendingExecution {
    pub proposal_id: u32,
    /// The question to ask.
    pub query: BalanceQuery,
    pub to: Address,
    pub amount: i128,
}

/// How far the execution of a proposal has come.
#[derive(Clone, Copy, Debug, PartialEq, Eq, Structural)]
pub enum Execution {
    /// It is done.
    Done,
    /// It waits for tokens to be counted and moved.
    AwaitBalance(PendingExecution),
}

/// Why a set of `n` administrators of whom `threshold` must agree is refused, if it is.
pub open spec fn configure_refusal(
    s: Grid,
    env: Invocation,
    n: nat,
    threshold: u32,
) -> Option<CallError> {
    if admin_refusal(s, env) is Some {
        admin_refusal(s, env)
    } else if n < MIN_MULTISIG_ADMINS || n > MAX_MULTISIG_ADMINS || threshold == 0 || threshold
        > n {
        refusal(ContractError::InvalidMultisigConfiguration)
    } else {
        None
    }
}

/// The state once the administrators who decide together are appointed.
pub open spec fn configured(s: Grid, admins: Seq<Address>, threshold: u32) -> Grid {
    Grid { multisig_admins: admins, multisig_threshold: threshold, ..s }
}

/// Why a proposal is refused, if it is.
pub open spec fn propose_refusal(
    s: Grid,
    env: Invocation,
    proposer: Address,
    expiry: u64,
) -> Option<CallError> {
    if auth_refusal(env, proposer) is Some {
        auth_refusal(env, proposer)
    } else if !s.multisig_admins.contains(proposer) {
        refusal(ContractError::Unauthorized)
    } else if expiry <= env.now {
        refusal(ContractError::ProposalExpired)
    } else {
        None
    }
}

/// The state once an operation is proposed. Who proposes it approves of it.
pub open spec fn proposed(
    s: Grid,
    proposer: Address,
    operation: OperationModel,
    expiry: u64,
) -> Grid {
    Grid {
        proposals: s.proposals.insert(
            s.proposal_count,
            AdminProposal {
                operation,
                approvals: seq![proposer],
                threshold: s.multisig_threshold,
                expiry,
            },
        ),
        proposal_count: (s.proposal_count + 1) as u32,
        ..s
    }
}

/// Why an approval is refused, if it is.
pub open spec fn approve_refusal(
    s: Grid,
    env: Invocation,
    id: u32,
    signer: Address,
) -> Option<CallError> {
    if auth_refusal(env, signer) is Some {
        auth_refusal(env, signer)
    } else if !s.multisig_admins.contains(signer) {
        refusal(ContractError::Unauthorized)
    } else if !s.proposals.contains_key(id) {
        refusal(ContractError::ProposalNotFound)
    } else if env.now >= s.proposals[id].expiry {
        refusal(ContractError::ProposalExpired)
    } else if s.proposals[id].approvals.contains(signer) {
        refusal(ContractError::ProposalAlreadyApproved)
    } else {
        None
    }
}

/// The state once `signer` has approved a proposal.
pub open spec fn approved(s: Grid, id: u32, signer: Address) -> Grid {
    let proposal = s.proposals[id];
    Grid {
        proposals: s.proposals.insert(
            id,
            AdminProposal { approvals: proposal.approvals.push(signer), ..proposal },
        ),
        ..s
    }
}

/// Why an operation that was agreed on cannot be done, if it cannot.
pub open spec fn operation_refusal(
    s: Grid,
    now: u64,
    operation: OperationModel,
) -> Option<ContractError> {
    match operation {
        AdminOperation::Pause => if pause_in_force(s, now) {
            Some(ContractError::AlreadyPaused)
        } else {
            None
        },
        AdminOperation::Unpause => if pause_in_force(s, now) {
            None
        } else {
            Some(ContractError::NotPaused)
        },
        AdminOperation::EmergencyWithdraw(amount) => if amount <= 0 {
            Some(ContractError::InvalidAmount)
        } else if s.admin is None || s.token is None {
            Some(ContractError::NotInitialized)
        } else {
            None
        },
        _ => None,
    }
}

/// Why executing a proposal is refused, if it is.
pub open spec fn execute_refusal(s: Grid, now: u64, id: u32) -> Option<ContractError> {
    if s.locked {
        Some(ContractError::ReentrantCall)
    } else if !s.proposals.contains_key(id) {
        Some(ContractError::ProposalNotFound)
    } else if now >= s.proposals[id].expiry {
        Some(ContractError::ProposalExpired)
    } else if s.proposals[id].approvals.len() < s.proposals[id].threshold {
        Some(ContractError::ProposalNotReady)
    } else {
        operation_refusal(s, now, s.proposals[id].operation)
    }
}

/// The state once the listed meters that are in the current layout are off.
pub open spec fn bulk_deactivated(s: Grid, ids: Seq<Seq<u8>>) -> Grid
    decreases ids.len(),
{
    if ids.len() == 0 {
        s
    } else {
        let before = bulk_deactivated(s, ids.drop_last());
        match current_meter(before, ids.last()) {
            Some(m) => with_meter(before, ids.last(), Meter { active: false, ..m }),
            None => before,
        }
    }
}

/// The state once an operation that needs no tokens is done.
pub open spec fn performed(s: Grid, now: u64, operation: OperationModel) -> Grid {
    match operation {
        AdminOperation::Pause => Grid { paused: true, paused_at: now, ..pause_settled(s, now) },
        AdminOperation::Unpause => Grid { paused: false, ..s },
        AdminOperation::SetGracePeriod(period) => Grid { grace_period: Some(period), ..s },
        AdminOperation::RotateAdmin(admin) => Grid { admin: Some(admin), ..s },
        AdminOperation::BulkDeactivate(ids) => bulk_deactivated(s, ids),
        AdminOperation::EmergencyWithdraw(_) => s,
    }
}

/// The state once a proposal is used up.
pub open spec fn proposal_spent(s: Grid, id: u32) -> Grid {
    Grid { proposals: s.proposals.remove(id), ..s }
}

/// How far executing a proposal comes at once: all the way, unless it withdraws tokens.
pub open spec fn execution_outcome(s: Grid, env: Invocation, id: u32) -> Execution {
    match s.proposals[id].operation {
        AdminOperation::EmergencyWithdraw(amount) => Execution::AwaitBalance(
            PendingExecution {
                proposal_id: id,
                query: BalanceQuery { token: s.token->0, holder: env.contract },
                to: s.admin->0,
                amount,
            },
        ),
        _ => Execution::Done,
    }
}

/// The state once a proposal is executed as far as that goes at once.
pub open spec fn executed(s: Grid, now: u64, id: u32) -> Grid {
    match s.proposals[id].operation {
        AdminOperation::EmergencyWithdraw(_) => lock_taken(s),
        operation => proposal_spent(performed(s, now, operation), id),
    }
}

/// The transfer that a withdrawal that was agreed on asks for when the contract holds `balance`
/// tokens.
pub open spec fn execution_answer(p: PendingExecution, balance: i128) -> Result<
    Transfer,
    ContractError,
> {
    if p.amount > balance {
        Err(ContractError::InsufficientBalance)
    } else {
        Ok(Transfer { token: p.query.token, from: p.query.holder, to: p.to, amount: p.amount })
    }
}

/// The state once a withdrawal that was agreed on knows that the contract holds `balance` tokens.
pub open spec fn execution_answered(s: Grid, p: PendingExecution, balance: i128) -> Grid {
    if p.amount > balance {
        lock_given_back(s)
    } else {
        s
    }
}

/// A copy of an operation.
fn copy_operation(operation: &AdminOperation<Vec<Text>>) -> (r: AdminOperation<Vec<Text>>)
    ensures
        r.deep_view() == operation.deep_view(),
{
    match operation {
        AdminOperation::Pause => AdminOperation::Pause,
        AdminOperation::Unpause => AdminOperation::Unpause,
        AdminOperation::EmergencyWithdraw(amount) => AdminOperation::EmergencyWithdraw(*amount),
        AdminOperation::BulkDeactivate(ids) => AdminOperation::BulkDeactivate(copy_texts(ids)),
        AdminOperation::RotateAdmin(admin) => AdminOperation::RotateAdmin(*admin),
        AdminOperation::SetGracePeriod(period) => AdminOperation::SetGracePeriod(*period),
    }
}

/// A copy of a proposal.
fn copy_proposal(proposal: &AdminProposal<Vec<Text>, Vec<Address>>) -> (r: AdminProposal<
    Vec<Text>,
    Vec<Address>,
>)
    ensures
        r.deep_view() == proposal.deep_view(),
{
    AdminProposal {
        operation: copy_operation(&proposal.operation),
        approvals: copy_addresses(&proposal.approvals),
        threshold: proposal.threshold,
        expiry: proposal.expiry,
    }
}

/// The state once the tokens of an executed proposal have been moved.
pub open spec fn execution_completed(s: Grid, id: u32) -> Grid {
    proposal_spent(lock_given_back(s), id)
}

impl SolarGridContract {
    /// Whether `candidate` is one of the administrators who decide together.
    pub fn is_multisig_admin(admins: &Vec<Address>, candidate: &Address) -> (r: bool)
        ensures
            r == admins@.contains(*candidate),
    {
        holds(admins, *candidate)
    }

    /// Appoints the administrators who decide together, `threshold` of whom must agree. Only the
    /// administrator may do so.
    pub fn configure_multisig(
        &mut self,
        env: &Invocation,
        admins: Vec<Address>,
        threshold: u32,
    ) -> (r: Result<(), CallError>)
        ensures
            match configure_refusal(old(self)@, *env, admins@.len(), threshold) {
                Some(e) => r == Err::<(), CallError>(e) && final(self)@ == old(self)@,
                None => r is Ok && final(self)@ == configured(old(self)@, admins@, threshold),
            },
    {
        self.require_admin(env)?;
        if admins.len() < MIN_MULTISIG_ADMINS || admins.len() > MAX_MULTISIG_ADMINS || threshold
            == 0 || threshold as usize > admins.len() {
            return refuse(ContractError::InvalidMultisigConfiguration);
        }
        self.multisig_admins = admins;
        self.multisig_threshold = threshold;
        Ok(())
    }

    /// The administrators who decide together, and how many of them must agree.
    pub fn get_multisig_config(&self) -> (r: Result<(Vec<Address>, u32), ContractError>)
        ensures
            r is Ok && r->Ok_0.0@ == self@.multisig_admins && r->Ok_0.1 == self@.multisig_threshold,
    {
        Ok((copy_addresses(&self.multisig_admins), self.multisig_threshold))
    }

    /// Proposes an operation until `expiry`. Only the administrators who decide together may do
    /// so. Returns the proposal's id.
    pub fn propose_admin_operation(
        &mut self,
        env: &Invocation,
        proposer: Address,
        operation: AdminOperation<Vec<Text>>,
        expiry: u64,
    ) -> (r: Result<u32, CallError>)
        requires
            old(self)@.proposal_count < u32::MAX,
        ensures
            match propose_refusal(old(self)@, *env, proposer, expiry) {
                Some(e) => r == Err::<u32, CallError>(e) && final(self)@ == old(self)@,
                None => r == Ok::<u32, CallError>(old(self)@.proposal_count) && final(self)@
                    == proposed(old(self)@, proposer, operation.deep_view(), expiry),
            },
    {
        env.require_auth(proposer)?;
        if !Self::is_multisig_admin(&self.multisig_admins, &proposer) {
            return refuse(ContractError::Unauthorized);
        }
        if expiry <= env.now {
            return refuse(ContractError::ProposalExpired);
        }
        let id: u32 = self.proposal_count;
        self.proposal_count = id + 1;
        let mut approvals: Vec<Address> = Vec::new();
        approvals.push(proposer);
        assert(approvals@ =~= seq![proposer]);
        let threshold: u32 = self.multisig_threshold;
        self.proposals.set(id, AdminProposal { operation, approvals, threshold, expiry });
        Ok(id)
    }

    /// Approves a proposal. Only the administrators who decide together may do so, each once.
    pub fn approve_admin_operation(
        &mut self,
        env: &Invocation,
        proposal_id: u32,
        signer: Address,
    ) -> (r: Result<(), CallError>)
        ensures
            match approve_refusal(old(self)@, *env, proposal_id, signer) {
                Some(e) => r == Err::<(), CallError>(e) && final(self)@ == old(self)@,
                None => r is Ok && final(self)@ == approved(old(self)@, proposal_id, signer),
            },
    {
        env.require_auth(signer)?;
        if !Self::is_multisig_admin(&self.multisig_admins, &signer) {
            return refuse(ContractError::Unauthorized);
        }
        let mut proposal = match self.proposals.get(&proposal_id) {
            Some(proposal) => copy_proposal(proposal),
            None => {
                return refuse(ContractError::ProposalNotFound);
            },
        };
        if env.now >= proposal.expiry {
            return refuse(ContractError::ProposalExpired);
        }
        if holds(&proposal.approvals, signer) {
            return refuse(ContractError::ProposalAlreadyApproved);
        }
        proposal.approvals.push(signer);
        self.proposals.set(proposal_id, proposal);
        Ok(())
    }

    /// Executes a proposal that enough administrators have approved, and uses it up.
    ///
    /// A withdrawal waits for tokens: the caller asks the token how much the contract holds and
    /// hands the answer to `execute_with_balance`; until the withdrawal ends the contract is
    /// locked.
    pub fn execute_admin_operation(&mut self, env: &Invocation, proposal_id: u32) -> (r: Result<
        Execution,
        ContractError,
    >)
        ensures
            match execute_refusal(old(self)@, env.now, proposal_id) {
                Some(e) => r == Err::<Execution, ContractError>(e) && final(self)@ == old(self)@,
                None => r == Ok::<Execution, ContractError>(
                    execution_outcome(old(self)@, *env, proposal_id),
                ) && final(self)@ == executed(old(self)@, env.now, proposal_id),
            },
    {
        if self.locked {
            return Err(ContractError::ReentrantCall);
        }
        let proposal = match self.proposals.get(&proposal_id) {
            Some(proposal) => copy_proposal(proposal),
            None => {
                return Err(ContractError::ProposalNotFound);
            },
        };
        if env.now >= proposal.expiry {
            return Err(ContractError::ProposalExpired);
        }
        if proposal.approvals.len() < proposal.threshold as usize {
            return Err(ContractError::ProposalNotReady);
        }
        match proposal.operation {
            AdminOperation::Pause => {
                if self.pause_is_active(env.now) {
                    return Err(ContractError::AlreadyPaused);
                }
                self.settle_pause(env.now);
                self.paused = true;
                self.paused_at = env.now;
            },
            AdminOperation::Unpause => {
                if !self.pause_is_active(env.now) {
                    return Err(ContractError::NotPaused);
                }
                self.paused = false;
            },
            AdminOperation::SetGracePeriod(period) => {
                self.grace_period = Some(period);
            },
            AdminOperation::RotateAdmin(new_admin) => {
                self.admin = Some(new_admin);
            },
            AdminOperation::BulkDeactivate(ids) => {
                self.deactivate_all(&ids);
            },
            AdminOperation::EmergencyWithdraw(amount) => {
                if amount <= 0 {
                    return Err(ContractError::InvalidAmount);
                }
                let admin: Address = self.get_admin()?;
                let token: Address = self.get_token_address()?;
                self.locked = true;
                let query = BalanceQuery { token, holder: env.contract };
                return Ok(
                    Execution::AwaitBalance(
                        PendingExecution { proposal_id, query, to: admin, amount },
                    ),
                );
            },
        }
        self.proposals.remove(&proposal_id);
        Ok(Execution::Done)
    }

    /// Switches off the listed meters that are in the current layout.
    fn deactivate_all(&mut self, meter_ids: &Vec<Text>)
        ensures
            final(self)@ == bulk_deactivated(old(self)@, meter_ids.deep_view()),
    {
        let ghost ids = meter_ids.deep_view();
        let mut i: usize = 0;
        assert(ids.take(0) =~= Seq::empty());
        while i < meter_ids.len()
            invariant
                i <= meter_ids@.len(),
                ids == meter_ids.deep_view(),
                self@ == bulk_deactivated(old(self)@, ids.take(i as int)),
            decreases meter_ids@.len() - i,
        {
            proof {
                assert(ids.take(i + 1).drop_last() =~= ids.take(i as int));
                assert(ids.take(i + 1).last() == ids[i as int]);
            }
            if let Some(StoredMeter::Current(found)) = self.meters.get(&meter_ids[i]) {
                let mut meter = found.clone();
                meter.active = false;
                self.put_meter(&meter_ids[i], meter);
            }
            i = i + 1;
        }
        assert(ids.take(ids.len() as int) =~= ids);
    }

    /// Goes on with a withdrawal that was agreed on, unless the contract holds too few tokens for
    /// it.
    ///
    /// The caller makes the transfer that is returned and then calls `complete_execution`.
    pub fn execute_with_balance(&mut self, pending: PendingExecution, balance: i128) -> (r: Result<
        Transfer,
        ContractError,
    >)
        ensures
            r == execution_answer(pending, balance),
            final(self)@ == execution_answered(old(self)@, pending, balance),
    {
        if pending.amount > balance {
            self.locked = false;
            return Err(ContractError::InsufficientBalance);
        }
        Ok(
            Transfer {
                token: pending.query.token,
                from: pending.query.holder,
                to: pending.to,
                amount: pending.amount,
            },
        )
    }

    /// Ends a withdrawal whose tokens have left: uses its proposal up and gives the lock back.
    pub fn complete_execution(&mut self, pending: PendingExecution)
        ensures
            final(self)@ == execution_completed(old(self)@, pending.proposal_id),
    {
        self.proposals.remove(&pending.proposal_id);
        self.locked = false;
    }
}

} // verus!

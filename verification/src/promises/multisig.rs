//! How several administrators decide together.

use vstd::prelude::*;

use crate::invariants::lemma_pushed_contains;
use crate::multisig::{
    approve_refusal, approved, bulk_deactivated, configure_refusal, configured, execute_refusal,
    executed, execution_answer, execution_answered, execution_completed, execution_outcome,
    operation_refusal, performed, proposal_spent, propose_refusal, proposed, PendingExecution,
};
use crate::state::{current_meter, pause_in_force, pause_settled, refusal, Grid, Invocation};
use crate::types::{
    AdminOperation, AdminProposal, CallError, ContractError, Meter, OperationModel, StoredMeter,
};
use crate::values::{Address, Text};

verus! {

/// The administrator may put 3 to 5 administrators together, of whom at least one and at most all
/// must agree.
pub proof fn law_configuration_is_let_in(s: Grid, env: Invocation, n: nat, threshold: u32)
    ensures
        ({
            let answer = configure_refusal(s, env, n, threshold);
            let no_admin = s.admin is None;
            let admin_missing = s.admin is Some && !env.signers@.contains(s.admin->0);
            let unfit = n < 3 || n > 5 || threshold < 1 || threshold > n;
            &&& answer is None <==> !no_admin && !admin_missing && !unfit
            &&& no_admin ==> answer == refusal(ContractError::NotInitialized)
            &&& !no_admin && admin_missing ==> answer == Some(CallError::MissingAuth(s.admin->0))
            &&& !no_admin && !admin_missing && unfit
                ==> answer == refusal(ContractError::InvalidMultisigConfiguration)
        }),
{
}

/// Those put together may propose, for a time to come.
pub proof fn law_proposing_is_let_in(s: Grid, env: Invocation, proposer: Address, expiry: u64)
    ensures
        ({
            let answer = propose_refusal(s, env, proposer, expiry);
            let missing = !env.signers@.contains(proposer);
            let stranger = !s.multisig_admins.contains(proposer);
            let late = expiry <= env.now;
            &&& answer is None <==> !missing && !stranger && !late
            &&& missing ==> answer == Some(CallError::MissingAuth(proposer))
            &&& !missing && stranger ==> answer == refusal(ContractError::Unauthorized)
            &&& !missing && !stranger && late ==> answer == refusal(ContractError::ProposalExpired)
        }),
{
}

/// Each of those put together may approve an open proposal once, in time.
pub proof fn law_approving_is_let_in(s: Grid, env: Invocation, id: u32, signer: Address)
    ensures
        ({
            let answer = approve_refusal(s, env, id, signer);
            let missing = !env.signers@.contains(signer);
            let stranger = !s.multisig_admins.contains(signer);
            let unknown = !s.proposals.contains_key(id);
            let late = s.proposals[id].expiry <= env.now;
            let again = s.proposals[id].approvals.contains(signer);
            &&& answer is None <==> !missing && !stranger && !unknown && !late && !again
            &&& missing ==> answer == Some(CallError::MissingAuth(signer))
            &&& !missing && stranger ==> answer == refusal(ContractError::Unauthorized)
            &&& !missing && !stranger && unknown
                ==> answer == refusal(ContractError::ProposalNotFound)
            &&& !missing && !stranger && !unknown && late
                ==> answer == refusal(ContractError::ProposalExpired)
            &&& !missing && !stranger && !unknown && !late && again
                ==> answer == refusal(ContractError::ProposalAlreadyApproved)
        }),
{
}

/// A configuration puts the given administrators together under the given threshold.
pub proof fn law_configuration_is_replaced(s: Grid, admins: Seq<Address>, threshold: u32)
    ensures
        ({
            let t = configured(s, admins, threshold);
            &&& t.multisig_admins == admins && t.multisig_threshold == threshold
            &&& t == (Grid {
                multisig_admins: t.multisig_admins,
                multisig_threshold: t.multisig_threshold,
                ..s
            })
        }),
{
}

/// A proposal is kept under the next number with what it proposes, until when, the threshold in
/// force and one approval, its proposer's.
pub proof fn law_proposals_are_kept(
    s: Grid,
    proposer: Address,
    operation: OperationModel,
    expiry: u64,
)
    ensures
        ({
            let t = proposed(s, proposer, operation, expiry);
            let p = t.proposals[s.proposal_count];
            &&& t.proposals.contains_key(s.proposal_count)
            &&& p.operation == operation && p.expiry == expiry
            &&& p.threshold == s.multisig_threshold
            &&& p.approvals.len() == 1 && p.approvals[0] == proposer
            &&& t.proposals == s.proposals.insert(s.proposal_count, p)
            &&& s.proposal_count < u32::MAX ==> t.proposal_count == s.proposal_count + 1
            &&& t == (Grid { proposals: t.proposals, proposal_count: t.proposal_count, ..s })
        }),
{
}

/// A proposal made under a configuration waits for as many approvals as that configuration asked
/// for: with fewer it is not ready, and with as many, in time, it is.
pub proof fn law_configured_agreement_is_needed(
    s: Grid,
    admins: Seq<Address>,
    threshold: u32,
    proposer: Address,
    operation: OperationModel,
    expiry: u64,
    u: Grid,
    now: u64,
)
    requires
        !u.locked,
        now < expiry,
        u.proposals.contains_key(s.proposal_count),
        ({
            let made = proposed(configured(s, admins, threshold), proposer, operation, expiry);
            let p = made.proposals[s.proposal_count];
            u.proposals[s.proposal_count] == (AdminProposal {
                approvals: u.proposals[s.proposal_count].approvals,
                ..p
            })
        }),
    ensures
        ({
            let given = u.proposals[s.proposal_count].approvals.len();
            let answer = execute_refusal(u, now, s.proposal_count);
            &&& given < threshold ==> answer == Some(ContractError::ProposalNotReady)
            &&& given >= threshold ==> answer != Some(ContractError::ProposalNotReady)
            &&& given >= threshold ==> answer == operation_refusal(u, now, operation)
        }),
{
}

/// An approval is put behind those before it; the proposal is otherwise the same, and so are the
/// others.
pub proof fn law_approvals_are_added(s: Grid, id: u32, signer: Address)
    requires
        s.proposals.contains_key(id),
    ensures
        ({
            let t = approved(s, id, signer);
            let p = t.proposals[id];
            &&& p.approvals == s.proposals[id].approvals.push(signer)
            &&& p.approvals.len() == s.proposals[id].approvals.len() + 1
            &&& p == (AdminProposal { approvals: p.approvals, ..s.proposals[id] })
            &&& t.proposals == s.proposals.insert(id, p)
            &&& t == (Grid { proposals: t.proposals, ..s })
        }),
{
}

/// A proposal is executed while nothing else is going on, in time, with enough approvals, and
/// where its operation is not refused.
pub proof fn law_execution_is_let_in(s: Grid, now: u64, id: u32)
    ensures
        ({
            let answer = execute_refusal(s, now, id);
            let p = s.proposals[id];
            let known = s.proposals.contains_key(id);
            let in_time = now < p.expiry;
            let enough = p.approvals.len() >= p.threshold;
            &&& s.locked ==> answer == Some(ContractError::ReentrantCall)
            &&& !s.locked && !known ==> answer == Some(ContractError::ProposalNotFound)
            &&& !s.locked && known && !in_time ==> answer == Some(ContractError::ProposalExpired)
            &&& !s.locked && known && in_time && !enough ==> answer == Some(
                ContractError::ProposalNotReady,
            )
            &&& !s.locked && known && in_time && enough ==> answer == operation_refusal(
                s,
                now,
                p.operation,
            )
        }),
{
}

/// A pause is refused while one is in force and lifting it while none is; taking tokens out is
/// refused for no amount and before the contract is set up; nothing else is refused.
pub proof fn law_operations_are_let_in(
    s: Grid,
    now: u64,
    amount: i128,
    ids: Seq<Seq<u8>>,
    admin: Address,
    period: u64,
)
    ensures
        ({
            let paused = s.paused && now < s.paused_at + 172_800;
            let ready = s.admin is Some && s.token is Some;
            let pause = operation_refusal(s, now, AdminOperation::Pause);
            let unpause = operation_refusal(s, now, AdminOperation::Unpause);
            let withdraw = operation_refusal(s, now, AdminOperation::EmergencyWithdraw(amount));
            &&& pause is None <==> !paused
            &&& pause is Some ==> pause->0 == ContractError::AlreadyPaused
            &&& unpause is None <==> paused
            &&& unpause is Some ==> unpause->0 == ContractError::NotPaused
            &&& withdraw is None <==> amount > 0 && ready
            &&& amount <= 0 ==> withdraw == Some(ContractError::InvalidAmount)
            &&& amount > 0 && !ready ==> withdraw == Some(ContractError::NotInitialized)
            &&& operation_refusal(s, now, AdminOperation::BulkDeactivate(ids)) is None
            &&& operation_refusal(s, now, AdminOperation::RotateAdmin(admin)) is None
            &&& operation_refusal(s, now, AdminOperation::SetGracePeriod(period)) is None
        }),
{
}

/// Meters are switched off together in order: those stored in the current layout, and nothing else
/// of them.
pub proof fn law_bulk_deactivation_goes_in_order(
    s: Grid,
    first: Seq<Seq<u8>>,
    second: Seq<Seq<u8>>,
    id: Seq<u8>,
)
    ensures
        bulk_deactivated(s, first + second) == bulk_deactivated(bulk_deactivated(s, first), second),
        bulk_deactivated(s, Seq::empty()) == s,
        ({
            let t = bulk_deactivated(s, seq![id]);
            let known = s.meters.contains_key(id) && s.meters[id] is Current;
            let after = t.meters[id]->Current_0;
            &&& !known ==> t == s
            &&& known ==> !after.active
            &&& known ==> after == (Meter { active: after.active, ..s.meters[id]->Current_0 })
            &&& known ==> t.meters == s.meters.insert(id, StoredMeter::Current(after))
            &&& t == (Grid { meters: t.meters, ..s })
        }),
    decreases second.len(),
{
    reveal_with_fuel(bulk_deactivated, 2);
    assert(seq![id].drop_last() =~= Seq::<Seq<u8>>::empty());
    if second.len() == 0 {
        assert(first + second =~= first);
    } else {
        law_bulk_deactivation_goes_in_order(s, first, second.drop_last(), id);
        assert((first + second).drop_last() =~= first + second.drop_last());
        assert((first + second).last() == second.last());
    }
}

/// After bulk deactivation each listed meter in the current layout is off, the others are as they
/// were, and nothing besides meters has changed.
pub proof fn law_bulk_deactivation_switches_off_all(s: Grid, ids: Seq<Seq<u8>>, id: Seq<u8>)
    ensures
        ({
            let t = bulk_deactivated(s, ids);
            &&& t == (Grid { meters: t.meters, ..s })
            &&& t.meters.contains_key(id) <==> s.meters.contains_key(id)
            &&& current_meter(t, id) is Some <==> current_meter(s, id) is Some
            &&& ids.contains(id) && current_meter(s, id) is Some ==> !current_meter(t, id)->0.active
            &&& !ids.contains(id) && s.meters.contains_key(id) ==> t.meters[id] == s.meters[id]
        }),
    decreases ids.len(),
{
    if ids.len() > 0 {
        law_bulk_deactivation_switches_off_all(s, ids.drop_last(), id);
        assert(ids.drop_last().push(ids.last()) =~= ids);
        lemma_pushed_contains(ids.drop_last(), ids.last(), id);
    }
}

/// Each operation does the one thing it is named after.
pub proof fn law_operations_do_one_thing(
    s: Grid,
    now: u64,
    amount: i128,
    ids: Seq<Seq<u8>>,
    admin: Address,
    period: u64,
    later: u64,
)
    ensures
        ({
            let t = performed(s, now, AdminOperation::Pause);
            &&& t.paused && t.paused_at == now
            &&& pause_in_force(t, later) <==> later < now + 172_800
            &&& t.events == pause_settled(s, now).events
            &&& t == (Grid { paused: t.paused, paused_at: t.paused_at, events: t.events, ..s })
        }),
        ({
            let t = performed(s, now, AdminOperation::Unpause);
            &&& !t.paused && !pause_in_force(t, later)
            &&& t == (Grid { paused: t.paused, ..s })
        }),
        ({
            let t = performed(s, now, AdminOperation::RotateAdmin(admin));
            &&& t.admin == Some(admin)
            &&& t == (Grid { admin: t.admin, ..s })
        }),
        ({
            let t = performed(s, now, AdminOperation::SetGracePeriod(period));
            &&& t.grace_period == Some(period)
            &&& t == (Grid { grace_period: t.grace_period, ..s })
        }),
        performed(s, now, AdminOperation::BulkDeactivate(ids)) == bulk_deactivated(s, ids),
        performed(s, now, AdminOperation::EmergencyWithdraw(amount)) == s,
{
}

/// A proposal that is spent is gone, and only that one.
pub proof fn law_spent_proposals_are_gone(s: Grid, id: u32, other: u32)
    ensures
        ({
            let t = proposal_spent(s, id);
            &&& !t.proposals.contains_key(id)
            &&& other != id ==> (t.proposals.contains_key(other) <==> s.proposals.contains_key(
                other,
            ))
            &&& other != id && s.proposals.contains_key(other) ==> t.proposals[other]
                == s.proposals[other]
            &&& t == (Grid { proposals: t.proposals, ..s })
        }),
{
}

/// Executing does what was proposed and spends the proposal; taking tokens out instead takes the
/// lock and asks how many the contract holds, for the administrator and the amount proposed.
pub proof fn law_execution_does_what_was_proposed(s: Grid, env: Invocation, id: u32)
    requires
        s.proposals.contains_key(id),
    ensures
        ({
            let t = executed(s, env.now, id);
            let outcome = execution_outcome(s, env, id);
            let operation = s.proposals[id].operation;
            let withdraw = operation is EmergencyWithdraw;
            &&& outcome is Done <==> !withdraw
            &&& !withdraw ==> !t.proposals.contains_key(id)
            &&& !withdraw ==> t == proposal_spent(performed(s, env.now, operation), id)
            &&& withdraw ==> t.locked && t == (Grid { locked: t.locked, ..s })
            &&& withdraw && s.admin is Some && s.token is Some ==> ({
                let p = outcome->AwaitBalance_0;
                &&& p.proposal_id == id && p.amount == operation->EmergencyWithdraw_0
                &&& Some(p.to) == s.admin && Some(p.query.token) == s.token
                &&& p.query.holder == env.contract
            })
        }),
{
}

/// Tokens that were decided on are moved where the contract holds them; where it does not, the
/// call is refused and only the lock is given back.
pub proof fn law_decided_tokens_are_moved(s: Grid, p: PendingExecution, balance: i128)
    ensures
        ({
            let answer = execution_answer(p, balance);
            let t = execution_answered(s, p, balance);
            &&& answer is Ok <==> p.amount <= balance
            &&& answer is Err ==> answer->Err_0 == ContractError::InsufficientBalance
            &&& answer is Ok ==> answer->Ok_0.amount == p.amount && answer->Ok_0.to == p.to
                && answer->Ok_0.from == p.query.holder && answer->Ok_0.token == p.query.token
            &&& p.amount <= balance ==> t == s
            &&& p.amount > balance ==> !t.locked && t == (Grid { locked: t.locked, ..s })
        }),
{
}

/// Once decided tokens have been moved the lock is given back and the proposal is gone.
pub proof fn law_moved_tokens_spend_the_proposal(s: Grid, id: u32)
    ensures
        ({
            let t = execution_completed(s, id);
            &&& !t.locked
            &&& !t.proposals.contains_key(id)
            &&& t.proposals == s.proposals.remove(id)
            &&& t == (Grid { locked: t.locked, proposals: t.proposals, ..s })
        }),
{
}

/// Proposals and their operations are read as they are held.
pub proof fn law_proposals_are_read_as_held(
    p: AdminProposal<Vec<Text>, Vec<Address>>,
    ids: Vec<Text>,
    amount: i128,
    admin: Address,
    period: u64,
    i: int,
)
    ensures
        p.deep_view().operation == p.operation.deep_view(),
        p.deep_view().approvals == p.approvals@ && p.deep_view().threshold == p.threshold,
        p.deep_view().expiry == p.expiry,
        AdminOperation::<Vec<Text>>::Pause.deep_view() is Pause,
        AdminOperation::<Vec<Text>>::Unpause.deep_view() is Unpause,
        AdminOperation::<Vec<Text>>::EmergencyWithdraw(amount).deep_view()
            == AdminOperation::<Seq<Seq<u8>>>::EmergencyWithdraw(amount),
        AdminOperation::<Vec<Text>>::RotateAdmin(admin).deep_view()
            == AdminOperation::<Seq<Seq<u8>>>::RotateAdmin(admin),
        AdminOperation::<Vec<Text>>::SetGracePeriod(period).deep_view()
            == AdminOperation::<Seq<Seq<u8>>>::SetGracePeriod(period),
        ({
            let read = AdminOperation::BulkDeactivate(ids).deep_view();
            &&& read is BulkDeactivate && read->BulkDeactivate_0.len() == ids@.len()
            &&& 0 <= i < ids@.len() ==> read->BulkDeactivate_0[i] == ids@[i].bytes@
        }),
{
}

} // verus!

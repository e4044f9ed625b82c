//! Payments towards meters, by anyone or by a delegate.

use vstd::prelude::*;

use crate::events::{Event, EventModel};
use crate::lists::{
    amount_at, holds, lemma_addresses_deep, list_at, read_addresses, read_amount, remove_address,
    without,
};
use crate::meters::owner_refusal;
use crate::state::{
    auth_refusal, lift, meter_of, meter_settled, pause_in_force, pause_settled, refusal, refuse,
    Grid, Invocation, SolarGridContract, SECONDS_PER_DAY, SECONDS_PER_MONTH, SECONDS_PER_WEEK,
};
use crate::types::{CallError, ContractError, Metadata, Meter, PaymentPlan, StoredMeter, Transfer};
use crate::values::{add_clamped, clamp, Address, Text};

verus! {

/// The most bytes a payment's memo may have.
pub const MAX_MEMO_LEN: usize = 100;

/// How long a plan lasts, in seconds. A usage-based plan does not run out.
pub open spec fn plan_seconds(plan: PaymentPlan) -> u64 {
    match plan {
        PaymentPlan::Daily => SECONDS_PER_DAY,
        PaymentPlan::Weekly => SECONDS_PER_WEEK,
        PaymentPlan::Monthly => SECONDS_PER_MONTH,
        PaymentPlan::UsageBased => u64::MAX,
    }
}

/// How long a plan lasts, in elapsed seconds: a day, a week, thirty days, or without end.
pub fn plan_duration_secs(plan: &PaymentPlan) -> (r: u64)
    ensures
        r == plan_seconds(*plan),
{
    match plan {
        PaymentPlan::Daily => SECONDS_PER_DAY,
        PaymentPlan::Weekly => SECONDS_PER_WEEK,
        PaymentPlan::Monthly => SECONDS_PER_MONTH,
        PaymentPlan::UsageBased => u64::MAX,
    }
}

/// Whether a memo is short enough.
pub open spec fn memo_fits(memo: Option<Seq<u8>>) -> bool {
    match memo {
        Some(m) => m.len() <= MAX_MEMO_LEN,
        None => true,
    }
}

fn check_memo(memo: &Option<Text>) -> (r: bool)
    ensures
        r == memo_fits(memo.deep_view()),
{
    match memo {
        Some(m) => m.len() <= MAX_MEMO_LEN,
        None => true,
    }
}

/// A payment that is booked and waits for its tokens. `T` holds the byte strings.
#[derive(Debug)]
pub struct PendingPayment<T> {
    /// The movement of tokens to make.
    pub transfer: Transfer,
    pub meter_id: T,
    pub plan: PaymentPlan,
    /// The plan the meter was on before.
    pub old_plan: PaymentPlan,
    pub memo: Option<T>,
    /// When the payment was made.
    pub at: u64,
}

impl DeepView for PendingPayment<Text> {
    type V = PendingPayment<Seq<u8>>;

    open spec fn deep_view(&self) -> PendingPayment<Seq<u8>> {
        PendingPayment {
            transfer: self.transfer,
            meter_id: self.meter_id@,
            plan: self.plan,
            old_plan: self.old_plan,
            memo: self.memo.deep_view(),
            at: self.at,
        }
    }
}

/// Why a payment is refused, if it is.
pub open spec fn payment_refusal(
    s: Grid,
    env: Invocation,
    id: Seq<u8>,
    payer: Address,
    amount: i128,
    memo: Option<Seq<u8>>,
) -> Option<CallError> {
    if pause_in_force(s, env.now) {
        refusal(ContractError::ContractPaused)
    } else if s.frozen {
        refusal(ContractError::ContractFrozen)
    } else if auth_refusal(env, payer) is Some {
        auth_refusal(env, payer)
    } else if amount <= 0 {
        refusal(ContractError::InvalidAmount)
    } else if !memo_fits(memo) {
        refusal(ContractError::MemoTooLong)
    } else if s.locked {
        refusal(ContractError::ReentrantCall)
    } else if s.token is None {
        refusal(ContractError::NotInitialized)
    } else if meter_of(s, id) is None {
        refusal(ContractError::MeterNotFound)
    } else if s.admin is None {
        refusal(ContractError::NotInitialized)
    } else {
        None
    }
}

/// Why a payment by a delegate is refused, if it is.
pub open spec fn delegated_refusal(
    s: Grid,
    env: Invocation,
    id: Seq<u8>,
    delegate: Address,
    amount: i128,
    memo: Option<Seq<u8>>,
) -> Option<CallError> {
    if pause_in_force(s, env.now) {
        refusal(ContractError::ContractPaused)
    } else if s.frozen {
        refusal(ContractError::ContractFrozen)
    } else if !list_at(s.delegates, id).contains(delegate) {
        refusal(ContractError::Unauthorized)
    } else if auth_refusal(env, delegate) is Some {
        auth_refusal(env, delegate)
    } else if !memo_fits(memo) {
        refusal(ContractError::MemoTooLong)
    } else if amount <= 0 {
        refusal(ContractError::InvalidAmount)
    } else if s.token is None {
        refusal(ContractError::NotInitialized)
    } else if meter_of(s, id) is None {
        refusal(ContractError::MeterNotFound)
    } else if s.admin is None {
        refusal(ContractError::NotInitialized)
    } else if s.locked {
        refusal(ContractError::ReentrantCall)
    } else {
        None
    }
}

/// When access bought at `now` runs out.
pub open spec fn payment_expiry(plan: PaymentPlan, now: u64) -> u64 {
    now.saturating_add(plan_seconds(plan))
}

/// When access that ran until `expires_at` runs out once a delegate has extended it.
pub open spec fn delegated_expiry(plan: PaymentPlan, expires_at: u64) -> u64 {
    if plan == PaymentPlan::UsageBased {
        u64::MAX
    } else {
        expires_at.saturating_add(plan_seconds(plan))
    }
}

/// The state once `payer`'s payment is booked and its tokens are awaited: the meter is on and on
/// its new plan until `expires_at`, and its balance, what `payer` has paid and the
/// administrator's revenue have grown by `amount`.
pub open spec fn payment_booked(
    s: Grid,
    id: Seq<u8>,
    payer: Address,
    amount: i128,
    plan: PaymentPlan,
    expires_at: u64,
    now: u64,
) -> Grid {
    let meter = meter_of(s, id)->0;
    let admin = s.admin->0;
    Grid {
        meters: s.meters.insert(
            id,
            StoredMeter::Current(
                Meter {
                    active: true,
                    plan,
                    last_payment: now,
                    expires_at,
                    grace_expires_at: None,
                    ..meter
                },
            ),
        ),
        balances: s.balances.insert(id, clamp(amount_at(s.balances, id) + amount)),
        payer_paid: s.payer_paid.insert(
            (id, payer),
            clamp(amount_at(s.payer_paid, (id, payer)) + amount),
        ),
        provider_revenue: s.provider_revenue.insert(
            admin,
            clamp(amount_at(s.provider_revenue, admin) + amount),
        ),
        locked: true,
        ..s
    }
}

/// The state once a payment at `now` is booked.
pub open spec fn payment_made(
    s: Grid,
    now: u64,
    id: Seq<u8>,
    payer: Address,
    amount: i128,
    plan: PaymentPlan,
) -> Grid {
    payment_booked(
        pause_settled(s, now),
        id,
        payer,
        amount,
        plan,
        payment_expiry(plan, now),
        now,
    )
}

/// The state once a delegate's payment at `now` is booked.
pub open spec fn delegated_payment_made(
    s: Grid,
    now: u64,
    id: Seq<u8>,
    delegate: Address,
    amount: i128,
    plan: PaymentPlan,
) -> Grid {
    payment_booked(
        pause_settled(s, now),
        id,
        delegate,
        amount,
        plan,
        delegated_expiry(plan, meter_of(s, id)->0.expires_at),
        now,
    )
}

/// What is left to do for a booked payment.
pub open spec fn payment_pending(
    s: Grid,
    env: Invocation,
    id: Seq<u8>,
    payer: Address,
    amount: i128,
    plan: PaymentPlan,
    memo: Option<Seq<u8>>,
) -> PendingPayment<Seq<u8>> {
    PendingPayment {
        transfer: Transfer { token: s.token->0, from: payer, to: env.contract, amount },
        meter_id: id,
        plan,
        old_plan: meter_of(s, id)->0.plan,
        memo,
        at: env.now,
    }
}

/// The events that a paid payment gives rise to.
pub open spec fn payment_events(p: PendingPayment<Seq<u8>>) -> Seq<EventModel> {
    let received = Event::PaymentReceived {
        meter_id: p.meter_id,
        payer: p.transfer.from,
        token: p.transfer.token,
        amount: p.transfer.amount,
        plan: p.plan,
        memo: p.memo,
    };
    let switched = Event::PlanChanged {
        meter_id: p.meter_id,
        old_plan: p.old_plan,
        plan: p.plan,
        at: p.at,
    };
    let activated = Event::MeterActivated { meter_id: p.meter_id };
    if p.old_plan != p.plan {
        seq![received, switched, activated]
    } else {
        seq![received, activated]
    }
}

/// The state once a payment's tokens have arrived.
pub open spec fn payment_completed(s: Grid, p: PendingPayment<Seq<u8>>) -> Grid {
    Grid { locked: false, events: s.events + payment_events(p), ..s }
}

/// The state with `delegate` among the meter's delegates.
pub open spec fn delegate_added(s: Grid, id: Seq<u8>, delegate: Address) -> Grid {
    if list_at(s.delegates, id).contains(delegate) {
        s
    } else {
        Grid {
            delegates: s.delegates.insert(id, list_at(s.delegates, id).push(delegate)),
            events: s.events.push(Event::DelegateAdded { meter_id: id, delegate }),
            ..s
        }
    }
}

/// The state without `delegate` among the meter's delegates.
pub open spec fn delegate_removed(s: Grid, id: Seq<u8>, delegate: Address) -> Grid {
    if list_at(s.delegates, id).contains(delegate) {
        Grid {
            delegates: s.delegates.insert(id, without(list_at(s.delegates, id), delegate)),
            events: s.events.push(Event::DelegateRemoved { meter_id: id, delegate }),
            ..s
        }
    } else {
        s
    }
}

impl SolarGridContract {
    /// Books a payment whose conditions were checked.
    fn book_payment(
        &mut self,
        env: &Invocation,
        meter_id: &Text,
        found: Meter<Metadata>,
        transfer: Transfer,
        admin: Address,
        plan: PaymentPlan,
        expires_at: u64,
        memo: Option<Text>,
    ) -> (r: PendingPayment<Text>)
        requires
            old(self)@.token == Some(transfer.token),
            transfer.to == env.contract,
            old(self)@.admin == Some(admin),
            meter_of(old(self)@, meter_id@) == Some(found.deep_view()),
        ensures
            final(self)@ == payment_booked(
                pause_settled(old(self)@, env.now),
                meter_id@,
                transfer.from,
                transfer.amount,
                plan,
                expires_at,
                env.now,
            ),
            r.deep_view() == payment_pending(
                old(self)@,
                *env,
                meter_id@,
                transfer.from,
                transfer.amount,
                plan,
                memo.deep_view(),
            ),
    {
        self.settle_pause(env.now);
        self.locked = true;

        let balance: i128 = read_amount(&self.balances, meter_id);
        self.balances.set(meter_id.clone(), add_clamped(balance, transfer.amount));

        let key: (Text, Address) = (meter_id.clone(), transfer.from);
        let paid: i128 = read_amount(&self.payer_paid, &key);
        self.payer_paid.set(key, add_clamped(paid, transfer.amount));

        let mut meter = found;
        let old_plan: PaymentPlan = meter.plan;
        meter.active = true;
        meter.plan = plan;
        meter.last_payment = env.now;
        meter.expires_at = expires_at;
        meter.grace_expires_at = None;
        self.put_meter(meter_id, meter);

        let revenue: i128 = read_amount(&self.provider_revenue, &admin);
        self.provider_revenue.set(admin, add_clamped(revenue, transfer.amount));

        PendingPayment { transfer, meter_id: meter_id.clone(), plan, old_plan, memo, at: env.now }
    }

    /// Pays `amount` towards a meter and switches it on for the time that `plan` buys.
    ///
    /// The payment is booked at once. The caller makes the transfer that is returned and then
    /// hands the pending payment to `complete_payment`; until then the contract is locked. A
    /// caller who cannot make the transfer drops the contract's new state.
    pub fn make_payment(
        &mut self,
        env: &Invocation,
        meter_id: &Text,
        payer: Address,
        amount: i128,
        plan: PaymentPlan,
        memo: Option<Text>,
    ) -> (r: Result<PendingPayment<Text>, CallError>)
        ensures
            match payment_refusal(
                old(self)@,
                *env,
                meter_id@,
                payer,
                amount,
                memo.deep_view(),
            ) {
                Some(e) => r == Err::<PendingPayment<Text>, CallError>(e) && final(self)@
                    == old(self)@,
                None => r is Ok && final(self)@ == payment_made(
                    old(self)@,
                    env.now,
                    meter_id@,
                    payer,
                    amount,
                    plan,
                ) && r->Ok_0.deep_view() == payment_pending(
                    old(self)@,
                    *env,
                    meter_id@,
                    payer,
                    amount,
                    plan,
                    memo.deep_view(),
                ),
            },
    {
        if self.pause_is_active(env.now) {
            return refuse(ContractError::ContractPaused);
        }
        if self.frozen {
            return refuse(ContractError::ContractFrozen);
        }
        env.require_auth(payer)?;
        if amount <= 0 {
            return refuse(ContractError::InvalidAmount);
        }
        if !check_memo(&memo) {
            return refuse(ContractError::MemoTooLong);
        }
        if self.locked {
            return refuse(ContractError::ReentrantCall);
        }
        let token: Address = lift(self.get_token_address())?;
        let meter = self.find_meter(meter_id)?;
        let admin: Address = lift(self.get_admin())?;
        let expires_at: u64 = env.now.saturating_add(plan_duration_secs(&plan));
        let transfer = Transfer { token, from: payer, to: env.contract, amount };
        Ok(self.book_payment(env, meter_id, meter, transfer, admin, plan, expires_at, memo))
    }

    /// Pays `amount` towards a meter as one of its delegates. Time bought this way is added to
    /// the time the meter has left.
    ///
    /// The transfer is made and completed as for `make_payment`.
    pub fn make_delegated_payment(
        &mut self,
        env: &Invocation,
        meter_id: &Text,
        delegate: Address,
        amount: i128,
        plan: PaymentPlan,
        memo: Option<Text>,
    ) -> (r: Result<PendingPayment<Text>, CallError>)
        ensures
            match delegated_refusal(
                old(self)@,
                *env,
                meter_id@,
                delegate,
                amount,
                memo.deep_view(),
            ) {
                Some(e) => r == Err::<PendingPayment<Text>, CallError>(e) && final(self)@
                    == old(self)@,
                None => r is Ok && final(self)@ == delegated_payment_made(
                    old(self)@,
                    env.now,
                    meter_id@,
                    delegate,
                    amount,
                    plan,
                ) && r->Ok_0.deep_view() == payment_pending(
                    old(self)@,
                    *env,
                    meter_id@,
                    delegate,
                    amount,
                    plan,
                    memo.deep_view(),
                ),
            },
    {
        if self.pause_is_active(env.now) {
            return refuse(ContractError::ContractPaused);
        }
        if self.frozen {
            return refuse(ContractError::ContractFrozen);
        }
        let delegates: Vec<Address> = read_addresses(&self.delegates, meter_id);
        if !holds(&delegates, delegate) {
            return refuse(ContractError::Unauthorized);
        }
        env.require_auth(delegate)?;
        if !check_memo(&memo) {
            return refuse(ContractError::MemoTooLong);
        }
        if amount <= 0 {
            return refuse(ContractError::InvalidAmount);
        }
        let token: Address = lift(self.get_token_address())?;
        let meter = self.find_meter(meter_id)?;
        let admin: Address = lift(self.get_admin())?;
        if self.locked {
            return refuse(ContractError::ReentrantCall);
        }
        let expires_at: u64 = if plan == PaymentPlan::UsageBased {
            u64::MAX
        } else {
            meter.expires_at.saturating_add(plan_duration_secs(&plan))
        };
        let transfer = Transfer { token, from: delegate, to: env.contract, amount };
        Ok(self.book_payment(env, meter_id, meter, transfer, admin, plan, expires_at, memo))
    }

    /// Ends a payment whose tokens have arrived: gives the lock back and publishes what happened.
    pub fn complete_payment(&mut self, pending: PendingPayment<Text>)
        ensures
            final(self)@ == payment_completed(old(self)@, pending.deep_view()),
    {
        self.locked = false;
        let ghost p = pending.deep_view();
        let PendingPayment { transfer, meter_id, plan, old_plan, memo, at } = pending;
        self.publish(
            Event::PaymentReceived {
                meter_id: meter_id.clone(),
                payer: transfer.from,
                token: transfer.token,
                amount: transfer.amount,
                plan,
                memo,
            },
        );
        if old_plan != plan {
            self.publish(Event::PlanChanged { meter_id: meter_id.clone(), old_plan, plan, at });
        }
        self.publish(Event::MeterActivated { meter_id });
        assert(self@ =~= payment_completed(old(self)@, p));
    }

    /// Lets `delegate` pay for the meter. Only its owner may decide that.
    pub fn add_delegate(
        &mut self,
        env: &Invocation,
        meter_id: &Text,
        delegate: Address,
    ) -> (r: Result<(), CallError>)
        ensures
            match owner_refusal(old(self)@, *env, meter_id@) {
                Some(e) => r == Err::<(), CallError>(e) && final(self)@ == old(self)@,
                None => r is Ok && final(self)@ == delegate_added(
                    meter_settled(old(self)@, meter_id@),
                    meter_id@,
                    delegate,
                ),
            },
    {
        broadcast use lemma_addresses_deep;

        let meter = self.find_meter(meter_id)?;
        env.require_auth(meter.owner)?;
        self.put_meter(meter_id, meter);
        let mut delegates: Vec<Address> = read_addresses(&self.delegates, meter_id);
        if !holds(&delegates, delegate) {
            delegates.push(delegate);
            self.delegates.set(meter_id.clone(), delegates);
            self.publish(Event::DelegateAdded { meter_id: meter_id.clone(), delegate });
        }
        Ok(())
    }

    /// No longer lets `delegate` pay for the meter. Only its owner may decide that.
    pub fn remove_delegate(
        &mut self,
        env: &Invocation,
        meter_id: &Text,
        delegate: Address,
    ) -> (r: Result<(), CallError>)
        ensures
            match owner_refusal(old(self)@, *env, meter_id@) {
                Some(e) => r == Err::<(), CallError>(e) && final(self)@ == old(self)@,
                None => r is Ok && final(self)@ == delegate_removed(
                    meter_settled(old(self)@, meter_id@),
                    meter_id@,
                    delegate,
                ),
            },
    {
        broadcast use lemma_addresses_deep;

        let meter = self.find_meter(meter_id)?;
        env.require_auth(meter.owner)?;
        self.put_meter(meter_id, meter);
        let delegates: Vec<Address> = read_addresses(&self.delegates, meter_id);
        if holds(&delegates, delegate) {
            let kept: Vec<Address> = remove_address(&delegates, delegate);
            self.delegates.set(meter_id.clone(), kept);
            self.publish(Event::DelegateRemoved { meter_id: meter_id.clone(), delegate });
        }
        Ok(())
    }

    /// Who may pay for the meter besides its owner.
    pub fn get_delegates(&self, meter_id: &Text) -> (r: Vec<Address>)
        ensures
            r@ == list_at(self@.delegates, meter_id@),
    {
        read_addresses(&self.delegates, meter_id)
    }

    /// What `payer` has paid towards the meter in all, whatever was refunded.
    pub fn get_payer_paid(&self, meter_id: &Text, payer: Address) -> (r: i128)
        ensures
            r == amount_at(self@.payer_paid, (meter_id@, payer)),
    {
        let key: (Text, Address) = (meter_id.clone(), payer);
        read_amount(&self.payer_paid, &key)
    }

    /// What `payer` was refunded for the meter in all.
    pub fn get_payer_refunded(&self, meter_id: &Text, payer: Address) -> (r: i128)
        ensures
            r == amount_at(self@.payer_refunded, (meter_id@, payer)),
    {
        let key: (Text, Address) = (meter_id.clone(), payer);
        read_amount(&self.payer_refunded, &key)
    }
}

} // verus!

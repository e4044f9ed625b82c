//! Refunds of earlier payments, capped by what was paid and by a limit per window.

use vstd::prelude::*;

use crate::events::Event;
use crate::lists::{amount_at, read_amount};
use crate::state::{
    admin_refusal, lift, lock_given_back, lock_taken, meter_of, meter_settled, refusal, refuse,
    Grid, Invocation, SolarGridContract, SECONDS_PER_DAY,
};
use crate::types::{
    BalanceQuery, CallError, ContractError, Metadata, MetadataModel, Meter, RefundWindow,
    StoredMeter, Transfer,
};
use crate::values::{add_clamped, clamp, drain, drained, sub_clamped, Address, Text};

verus! {

/// A refund that waits to hear how many tokens the contract holds. `T` holds the byte strings,
/// `M` the meter's metadata.
#[derive(Debug)]
pub struct RefundRequest<T, M> {
    /// The question to ask.
    pub query: BalanceQuery,
    pub meter_id: T,
    /// The meter as it was found.
    pub meter: Meter<M>,
    pub amount: i128,
    pub recipient: Address,
    pub reason: T,
    /// What the recipient was refunded before.
    pub already_refunded: i128,
    /// The refund window as it will be, if refunds are limited.
    pub window: Option<RefundWindow>,
    /// When the refund was asked for.
    pub at: u64,
}

/// The abstract value of a requested refund.
pub type RequestModel = RefundRequest<Seq<u8>, MetadataModel>;

impl DeepView for RefundRequest<Text, Metadata> {
    type V = RequestModel;

    open spec fn deep_view(&self) -> RequestModel {
        RefundRequest {
            query: self.query,
            meter_id: self.meter_id@,
            meter: self.meter.deep_view(),
            amount: self.amount,
            recipient: self.recipient,
            reason: self.reason@,
            already_refunded: self.already_refunded,
            window: self.window,
            at: self.at,
        }
    }
}

/// A refund that is booked and waits for its tokens to leave. `T` holds the byte strings.
#[derive(Debug)]
pub struct PendingRefund<T> {
    /// The movement of tokens to make.
    pub transfer: Transfer,
    pub meter_id: T,
    pub reason: T,
    /// What the meter is left with.
    pub balance: i128,
    /// When the refund was asked for.
    pub at: u64,
}

impl DeepView for PendingRefund<Text> {
    type V = PendingRefund<Seq<u8>>;

    open spec fn deep_view(&self) -> PendingRefund<Seq<u8>> {
        PendingRefund {
            transfer: self.transfer,
            meter_id: self.meter_id@,
            reason: self.reason@,
            balance: self.balance,
            at: self.at,
        }
    }
}

/// The refund window at `now`: the stored one, or a new one if that has run out.
pub open spec fn window_at(stored: Option<RefundWindow>, now: u64) -> RefundWindow {
    match stored {
        Some(w) if now.saturating_sub(w.window_start) <= SECONDS_PER_DAY => w,
        _ => RefundWindow { window_start: now, window_spent: 0 },
    }
}

/// The window once `amount` more is refunded in it.
pub open spec fn window_charged(w: RefundWindow, amount: i128) -> RefundWindow {
    RefundWindow { window_spent: clamp(w.window_spent + amount), ..w }
}

/// What may still be refunded to `recipient` for the meter.
pub open spec fn refundable(s: Grid, id: Seq<u8>, recipient: Address) -> i128 {
    clamp(
        amount_at(s.payer_paid, (id, recipient)) - amount_at(s.payer_refunded, (id, recipient)),
    )
}

/// Why a refund is refused before the contract's tokens are counted, if it is.
pub open spec fn refund_refusal(
    s: Grid,
    env: Invocation,
    id: Seq<u8>,
    amount: i128,
    recipient: Address,
) -> Option<CallError> {
    if admin_refusal(s, env) is Some {
        admin_refusal(s, env)
    } else if amount <= 0 {
        refusal(ContractError::InvalidAmount)
    } else if s.locked {
        refusal(ContractError::ReentrantCall)
    } else if meter_of(s, id) is None {
        refusal(ContractError::MeterNotFound)
    } else if amount > refundable(s, id, recipient) {
        refusal(ContractError::RefundExceedsPayments)
    } else if s.refund_limit > 0 && window_charged(
        window_at(s.refund_window, env.now),
        amount,
    ).window_spent > s.refund_limit {
        refusal(ContractError::RefundLimitExceeded)
    } else if s.token is None {
        refusal(ContractError::NotInitialized)
    } else {
        None
    }
}

/// What a refund that is not refused so far waits with.
pub open spec fn refund_request(
    s: Grid,
    env: Invocation,
    id: Seq<u8>,
    amount: i128,
    recipient: Address,
    reason: Seq<u8>,
) -> RequestModel {
    RefundRequest {
        query: BalanceQuery { token: s.token->0, holder: env.contract },
        meter_id: id,
        meter: meter_of(s, id)->0,
        amount,
        recipient,
        reason,
        already_refunded: amount_at(s.payer_refunded, (id, recipient)),
        window: if s.refund_limit > 0 {
            Some(window_charged(window_at(s.refund_window, env.now), amount))
        } else {
            None
        },
        at: env.now,
    }
}

/// Why a requested refund is refused when the contract holds `balance` tokens, if it is.
pub open spec fn refund_balance_refusal(s: Grid, p: RequestModel, balance: i128) -> Option<
    ContractError,
> {
    if p.amount > balance {
        Some(ContractError::InsufficientBalance)
    } else if s.admin is None {
        Some(ContractError::NotInitialized)
    } else {
        None
    }
}

/// The state once a refund is booked: the meter's balance and the administrator's revenue have
/// shrunk by its amount, down to zero at most; the recipient's refunds and the refund window have
/// grown by it; a meter left without balance is off; and an entry in an older layout is rewritten.
pub open spec fn refund_booked(s: Grid, p: RequestModel) -> Grid {
    let left = drained(amount_at(s.balances, p.meter_id), p.amount);
    let admin = s.admin->0;
    let off = left == 0 && p.meter.active;
    Grid {
        meters: if off {
            s.meters.insert(
                p.meter_id,
                StoredMeter::Current(Meter { active: false, ..p.meter }),
            )
        } else {
            meter_settled(s, p.meter_id).meters
        },
        balances: s.balances.insert(p.meter_id, left),
        provider_revenue: s.provider_revenue.insert(
            admin,
            drained(amount_at(s.provider_revenue, admin), p.amount),
        ),
        payer_refunded: s.payer_refunded.insert(
            (p.meter_id, p.recipient),
            clamp(p.already_refunded + p.amount),
        ),
        refund_window: if p.window is Some {
            p.window
        } else {
            s.refund_window
        },
        events: if off {
            s.events.push(Event::MeterDeactivated { meter_id: p.meter_id })
        } else {
            s.events
        },
        ..s
    }
}

/// What is left to do for a booked refund.
pub open spec fn refund_pending(s: Grid, p: RequestModel) -> PendingRefund<Seq<u8>> {
    PendingRefund {
        transfer: Transfer {
            token: p.query.token,
            from: p.query.holder,
            to: p.recipient,
            amount: p.amount,
        },
        meter_id: p.meter_id,
        reason: p.reason,
        balance: drained(amount_at(s.balances, p.meter_id), p.amount),
        at: p.at,
    }
}

/// The state once a refund's tokens have left.
pub open spec fn refund_completed(s: Grid, p: PendingRefund<Seq<u8>>) -> Grid {
    Grid {
        locked: false,
        events: s.events.push(
            Event::PaymentRefunded {
                meter_id: p.meter_id,
                recipient: p.transfer.to,
                amount: p.transfer.amount,
                reason: p.reason,
                balance: p.balance,
                at: p.at,
            },
        ),
        ..s
    }
}

/// Why a change of the refund limit is refused, if it is.
pub open spec fn refund_limit_refusal(s: Grid, env: Invocation, limit: i128) -> Option<CallError> {
    if admin_refusal(s, env) is Some {
        admin_refusal(s, env)
    } else if limit < 0 {
        refusal(ContractError::InvalidAmount)
    } else {
        None
    }
}

/// The state once the refund limit is changed.
pub open spec fn refund_limit_set(s: Grid, limit: i128) -> Grid {
    Grid {
        refund_limit: limit,
        events: s.events.push(Event::RefundLimitSet { old_limit: s.refund_limit, limit }),
        ..s
    }
}

impl SolarGridContract {
    /// Asks for a refund of `amount` to `recipient`. Only the administrator may do so.
    ///
    /// The caller asks the token how much the contract holds and hands the answer to
    /// `refund_with_balance`; until the refund ends the contract is locked.
    pub fn refund_payment(
        &mut self,
        env: &Invocation,
        meter_id: &Text,
        amount: i128,
        recipient: Address,
        reason: Text,
    ) -> (r: Result<RefundRequest<Text, Metadata>, CallError>)
        ensures
            match refund_refusal(old(self)@, *env, meter_id@, amount, recipient) {
                Some(e) => r == Err::<RefundRequest<Text, Metadata>, CallError>(e) && final(self)@
                    == old(self)@,
                None => {
                    &&& r is Ok
                    &&& final(self)@ == lock_taken(old(self)@)
                    &&& r->Ok_0.deep_view() == refund_request(
                        old(self)@,
                        *env,
                        meter_id@,
                        amount,
                        recipient,
                        reason@,
                    )
                },
            },
    {
        self.require_admin(env)?;
        if amount <= 0 {
            return refuse(ContractError::InvalidAmount);
        }
        if self.locked {
            return refuse(ContractError::ReentrantCall);
        }
        let meter = self.find_meter(meter_id)?;
        let key: (Text, Address) = (meter_id.clone(), recipient);
        let paid: i128 = read_amount(&self.payer_paid, &key);
        let already_refunded: i128 = read_amount(&self.payer_refunded, &key);
        if amount > sub_clamped(paid, already_refunded) {
            return refuse(ContractError::RefundExceedsPayments);
        }
        let mut window: Option<RefundWindow> = None;
        if self.refund_limit > 0 {
            let mut w: RefundWindow = match self.refund_window {
                Some(w) => w,
                None => RefundWindow { window_start: env.now, window_spent: 0 },
            };
            if env.now.saturating_sub(w.window_start) > SECONDS_PER_DAY {
                w = RefundWindow { window_start: env.now, window_spent: 0 };
            }
            w.window_spent = add_clamped(w.window_spent, amount);
            if w.window_spent > self.refund_limit {
                return refuse(ContractError::RefundLimitExceeded);
            }
            window = Some(w);
        }
        let token: Address = lift(self.get_token_address())?;
        self.locked = true;
        Ok(
            RefundRequest {
                query: BalanceQuery { token, holder: env.contract },
                meter_id: meter_id.clone(),
                meter,
                amount,
                recipient,
                reason,
                already_refunded,
                window,
                at: env.now,
            },
        )
    }

    /// Books a requested refund, unless the contract holds too few tokens for it.
    ///
    /// The caller makes the transfer that is returned and then hands the pending refund to
    /// `complete_refund`.
    pub fn refund_with_balance(
        &mut self,
        request: RefundRequest<Text, Metadata>,
        balance: i128,
    ) -> (r: Result<PendingRefund<Text>, ContractError>)
        ensures
            match refund_balance_refusal(old(self)@, request.deep_view(), balance) {
                Some(e) => r == Err::<PendingRefund<Text>, ContractError>(e) && final(self)@
                    == lock_given_back(old(self)@),
                None => r is Ok && final(self)@ == refund_booked(old(self)@, request.deep_view())
                    && r->Ok_0.deep_view() == refund_pending(old(self)@, request.deep_view()),
            },
    {
        let RefundRequest {
            query,
            meter_id,
            meter,
            amount,
            recipient,
            reason,
            already_refunded,
            window,
            at,
        } = request;
        if amount > balance {
            self.locked = false;
            return Err(ContractError::InsufficientBalance);
        }
        let admin: Address = match self.admin {
            Some(admin) => admin,
            None => {
                self.locked = false;
                return Err(ContractError::NotInitialized);
            },
        };
        if window.is_some() {
            self.refund_window = window;
        }
        let left: i128 = drain(read_amount(&self.balances, &meter_id), amount);
        self.balances.set(meter_id.clone(), left);
        if left == 0 && meter.active {
            let mut off = meter;
            off.active = false;
            self.put_meter(&meter_id, off);
            self.publish(Event::MeterDeactivated { meter_id: meter_id.clone() });
        } else {
            let _ = self.get_meter_or_error(&meter_id);
        }
        let revenue: i128 = read_amount(&self.provider_revenue, &admin);
        self.provider_revenue.set(admin, drain(revenue, amount));

        let key: (Text, Address) = (meter_id.clone(), recipient);
        self.payer_refunded.set(key, add_clamped(already_refunded, amount));

        let transfer = Transfer { token: query.token, from: query.holder, to: recipient, amount };
        Ok(PendingRefund { transfer, meter_id, reason, balance: left, at })
    }

    /// Ends a refund whose tokens have left: gives the lock back and publishes what happened.
    pub fn complete_refund(&mut self, pending: PendingRefund<Text>)
        ensures
            final(self)@ == refund_completed(old(self)@, pending.deep_view()),
    {
        self.locked = false;
        let PendingRefund { transfer, meter_id, reason, balance, at } = pending;
        self.publish(
            Event::PaymentRefunded {
                meter_id,
                recipient: transfer.to,
                amount: transfer.amount,
                reason,
                balance,
                at,
            },
        );
    }

    /// Sets the most that may be refunded, to all recipients together, in a window of one day. 0
    /// means no limit. Only the administrator may do so.
    pub fn set_refund_limit(&mut self, env: &Invocation, limit: i128) -> (r: Result<(), CallError>)
        ensures
            match refund_limit_refusal(old(self)@, *env, limit) {
                Some(e) => r == Err::<(), CallError>(e) && final(self)@ == old(self)@,
                None => r is Ok && final(self)@ == refund_limit_set(old(self)@, limit),
            },
    {
        self.require_admin(env)?;
        if limit < 0 {
            return refuse(ContractError::InvalidAmount);
        }
        let old_limit: i128 = self.refund_limit;
        self.refund_limit = limit;
        self.publish(Event::RefundLimitSet { old_limit, limit });
        Ok(())
    }
}

} // verus!

//! What may be refunded, and what a refund takes back.

use vstd::prelude::*;

use crate::events::Event;
use crate::lists::amount_at;
use crate::refunds::{
    refund_balance_refusal, refund_booked, refund_completed, refund_limit_refusal, refund_limit_set,
    refund_pending, refund_refusal, refund_request, refundable, window_at, window_charged,
    PendingRefund, RefundRequest, RequestModel,
};
use crate::state::{meter_of, refusal, Grid, Invocation};
use crate::types::{CallError, ContractError, Metadata, Meter, RefundWindow, StoredMeter};
use crate::values::{clamp, drained, Address, Text};

verus! {

/// A refund window stays open for a day after it began; what is refunded later begins a new one.
pub proof fn law_refund_windows_last_a_day(w: RefundWindow, now: u64)
    ensures
        now <= w.window_start + 86_400 ==> window_at(Some(w), now) == w,
        now > w.window_start + 86_400 ==> window_at(Some(w), now).window_start == now && window_at(
            Some(w),
            now,
        ).window_spent == 0,
        window_at(None, now).window_start == now,
        window_at(None, now).window_spent == 0,
{
}

/// A refund counts in its window with its whole amount.
pub proof fn law_refunds_count_in_their_window(w: RefundWindow, amount: i128)
    ensures
        window_charged(w, amount).window_start == w.window_start,
        window_charged(w, amount).window_spent == clamp(w.window_spent + amount),
{
}

/// What may still be refunded is what was paid less what was refunded.
pub proof fn law_refundable_is_paid_less_refunded(s: Grid, id: Seq<u8>, recipient: Address)
    ensures
        refundable(s, id, recipient) == clamp(
            amount_at(s.payer_paid, (id, recipient)) - amount_at(
                s.payer_refunded,
                (id, recipient),
            ),
        ),
{
}

/// A refund is the administrator's to make: of a positive amount, to someone who paid at least that
/// much for the meter and was not refunded it yet, and within what the window still allows.
pub proof fn law_refunds_are_let_in(
    s: Grid,
    env: Invocation,
    id: Seq<u8>,
    amount: i128,
    recipient: Address,
)
    ensures
        ({
            let answer = refund_refusal(s, env, id, amount, recipient);
            let no_admin = s.admin is None;
            let admin_missing = s.admin is Some && !env.signers@.contains(s.admin->0);
            let not_positive = amount <= 0;
            let busy = s.locked;
            let unknown = !s.meters.contains_key(id);
            let too_much = amount > amount_at(s.payer_paid, (id, recipient)) - amount_at(
                s.payer_refunded,
                (id, recipient),
            );
            let over_limit = s.refund_limit > 0 && clamp(
                amount + (if s.refund_window is Some && env.now
                    <= s.refund_window->0.window_start + 86_400 {
                    s.refund_window->0.window_spent
                } else {
                    0i128
                }),
            ) > s.refund_limit;
            let no_token = s.token is None;
            &&& answer is None <==> !no_admin && !admin_missing && !not_positive && !busy
                && !unknown && !too_much && !over_limit && !no_token
            &&& no_admin ==> answer == refusal(ContractError::NotInitialized)
            &&& !no_admin && admin_missing ==> answer == Some(CallError::MissingAuth(s.admin->0))
            &&& !no_admin && !admin_missing && not_positive
                ==> answer == refusal(ContractError::InvalidAmount)
            &&& !no_admin && !admin_missing && !not_positive && busy
                ==> answer == refusal(ContractError::ReentrantCall)
            &&& !no_admin && !admin_missing && !not_positive && !busy && unknown
                ==> answer == refusal(ContractError::MeterNotFound)
            &&& !no_admin && !admin_missing && !not_positive && !busy && !unknown && too_much
                ==> answer == refusal(ContractError::RefundExceedsPayments)
            &&& !no_admin && !admin_missing && !not_positive && !busy && !unknown && !too_much
                && over_limit ==> answer == refusal(ContractError::RefundLimitExceeded)
            &&& !no_admin && !admin_missing && !not_positive && !busy && !unknown && !too_much
                && !over_limit && no_token ==> answer == refusal(ContractError::NotInitialized)
        }),
{
}

/// A refund that is let in asks how much of the token the contract holds, and goes on with what it
/// found.
pub proof fn law_refund_asks_for_the_balance(
    s: Grid,
    env: Invocation,
    id: Seq<u8>,
    amount: i128,
    recipient: Address,
    reason: Seq<u8>,
)
    requires
        s.meters.contains_key(id),
        s.token is Some,
    ensures
        ({
            let p = refund_request(s, env, id, amount, recipient, reason);
            let window = window_at(s.refund_window, env.now);
            &&& Some(p.query.token) == s.token && p.query.holder == env.contract
            &&& p.meter_id == id && Some(p.meter) == meter_of(s, id)
            &&& p.amount == amount && p.recipient == recipient && p.reason == reason
            &&& p.already_refunded == amount_at(s.payer_refunded, (id, recipient))
            &&& p.at == env.now
            &&& s.refund_limit <= 0 ==> p.window is None
            &&& s.refund_limit > 0 ==> p.window is Some && p.window->0.window_start
                == window.window_start && p.window->0.window_spent == clamp(
                window.window_spent + amount,
            )
        }),
{
}

/// A refund goes on exactly where the contract holds its amount and is still initialised.
pub proof fn law_refund_needs_the_tokens(s: Grid, p: RequestModel, balance: i128)
    ensures
        refund_balance_refusal(s, p, balance) is None <==> p.amount <= balance && s.admin is Some,
        p.amount > balance ==> refund_balance_refusal(s, p, balance) == Some(
            ContractError::InsufficientBalance,
        ),
        p.amount <= balance && s.admin is None ==> refund_balance_refusal(s, p, balance) == Some(
            ContractError::NotInitialized,
        ),
{
}

/// A booked refund takes its amount from the meter's balance, or all of it where there is less; a
/// meter that is left with nothing is off. What is announced as left is what is left, and no other
/// meter's balance changes.
pub proof fn law_refund_takes_its_amount(s: Grid, p: RequestModel, other: Seq<u8>)
    requires
        amount_at(s.balances, p.meter_id) >= 0,
        p.amount > 0,
    ensures
        ({
            let t = refund_booked(s, p);
            let before = amount_at(s.balances, p.meter_id);
            let after = amount_at(t.balances, p.meter_id);
            let found = meter_of(s, p.meter_id) == Some(p.meter);
            &&& p.amount <= before ==> after == before - p.amount
            &&& p.amount > before ==> after == 0
            &&& found && after == 0 ==> !meter_of(t, p.meter_id)->0.active
            &&& found && after > 0 ==> meter_of(t, p.meter_id) == Some(p.meter)
            &&& refund_pending(s, p).balance == after
            &&& other != p.meter_id ==> amount_at(t.balances, other) == amount_at(
                s.balances,
                other,
            )
        }),
{
}

/// A booked refund takes its amount from the meter's balance and from the administrator's revenue,
/// as far as they go, and counts it as refunded to the recipient and in the refund window.
pub proof fn law_refund_does_all_it_should(s: Grid, p: RequestModel, other: Seq<u8>)
    requires
        s.admin is Some,
        meter_of(s, p.meter_id) == Some(p.meter),
    ensures
        ({
            let t = refund_booked(s, p);
            let left = amount_at(t.balances, p.meter_id);
            let admin = s.admin->0;
            let off = left == 0 && p.meter.active;
            let after = meter_of(t, p.meter_id)->0;
            &&& t.balances == s.balances.insert(p.meter_id, left)
            &&& left == drained(amount_at(s.balances, p.meter_id), p.amount)
            &&& t.provider_revenue == s.provider_revenue.insert(
                admin,
                drained(amount_at(s.provider_revenue, admin), p.amount),
            )
            &&& t.payer_refunded == s.payer_refunded.insert(
                (p.meter_id, p.recipient),
                clamp(p.already_refunded + p.amount),
            )
            &&& p.window is Some ==> t.refund_window == p.window
            &&& p.window is None ==> t.refund_window == s.refund_window
            &&& after.active <==> p.meter.active && left != 0
            &&& after == (Meter { active: after.active, ..p.meter })
            &&& t.meters == s.meters.insert(p.meter_id, StoredMeter::Current(after))
            &&& off ==> t.events == s.events.push(Event::MeterDeactivated { meter_id: p.meter_id })
            &&& !off ==> t.events == s.events
            &&& other != p.meter_id ==> meter_of(t, other) == meter_of(s, other)
            &&& t == (Grid {
                meters: t.meters,
                balances: t.balances,
                provider_revenue: t.provider_revenue,
                payer_refunded: t.payer_refunded,
                refund_window: t.refund_window,
                events: t.events,
                ..s
            })
        }),
{
}

/// A refund moves its amount of the token that was asked about from the contract to the recipient.
pub proof fn law_refund_moves_tokens_out(s: Grid, p: RequestModel)
    ensures
        ({
            let r = refund_pending(s, p);
            &&& r.transfer.token == p.query.token && r.transfer.from == p.query.holder
            &&& r.transfer.to == p.recipient && r.transfer.amount == p.amount
            &&& r.meter_id == p.meter_id && r.reason == p.reason && r.at == p.at
            &&& r.balance == drained(amount_at(s.balances, p.meter_id), p.amount)
        }),
{
}

/// A refund that is through gives the lock back and is announced.
pub proof fn law_refund_is_announced(s: Grid, p: PendingRefund<Seq<u8>>)
    ensures
        ({
            let t = refund_completed(s, p);
            let event = Event::PaymentRefunded {
                meter_id: p.meter_id,
                recipient: p.transfer.to,
                amount: p.transfer.amount,
                reason: p.reason,
                balance: p.balance,
                at: p.at,
            };
            &&& !t.locked
            &&& t.events == s.events.push(event)
            &&& t == (Grid { locked: t.locked, events: t.events, ..s })
        }),
{
}

/// Of two refunds that follow each other, the second finds what the first has left to refund.
pub proof fn law_refunds_use_up_what_was_paid(
    s: Grid,
    p: RequestModel,
    id: Seq<u8>,
    recipient: Address,
)
    requires
        p.already_refunded == amount_at(s.payer_refunded, (p.meter_id, p.recipient)),
        0 <= p.already_refunded,
        0 < p.amount <= refundable(s, p.meter_id, p.recipient),
        amount_at(s.payer_paid, (p.meter_id, p.recipient)) >= 0,
    ensures
        refundable(refund_booked(s, p), p.meter_id, p.recipient) == refundable(
            s,
            p.meter_id,
            p.recipient,
        ) - p.amount,
        (id, recipient) != (p.meter_id, p.recipient) ==> refundable(
            refund_booked(s, p),
            id,
            recipient,
        ) == refundable(s, id, recipient),
{
}

/// The administrator may set any limit that is not negative.
pub proof fn law_refund_limits_are_let_in(s: Grid, env: Invocation, limit: i128)
    ensures
        ({
            let answer = refund_limit_refusal(s, env, limit);
            let no_admin = s.admin is None;
            let admin_missing = s.admin is Some && !env.signers@.contains(s.admin->0);
            let negative = limit < 0;
            &&& answer is None <==> !no_admin && !admin_missing && !negative
            &&& no_admin ==> answer == refusal(ContractError::NotInitialized)
            &&& !no_admin && admin_missing ==> answer == Some(CallError::MissingAuth(s.admin->0))
            &&& !no_admin && !admin_missing && negative
                ==> answer == refusal(ContractError::InvalidAmount)
        }),
{
}

/// Setting the refund limit replaces it and announces the limits before and after.
pub proof fn law_refund_limit_is_replaced(s: Grid, limit: i128)
    ensures
        ({
            let t = refund_limit_set(s, limit);
            let event = Event::RefundLimitSet { old_limit: s.refund_limit, limit };
            &&& t.refund_limit == limit
            &&& t.events == s.events.push(event)
            &&& t == (Grid { refund_limit: t.refund_limit, events: t.events, ..s })
        }),
{
}

/// What a refund goes on with is read as it is held.
pub proof fn law_refund_requests_are_read_as_held(
    p: RefundRequest<Text, Metadata>,
    r: PendingRefund<Text>,
)
    ensures
        p.deep_view().query == p.query && p.deep_view().meter_id == p.meter_id.bytes@,
        p.deep_view().meter == p.meter.deep_view() && p.deep_view().amount == p.amount,
        p.deep_view().recipient == p.recipient && p.deep_view().reason == p.reason.bytes@,
        p.deep_view().already_refunded == p.already_refunded,
        p.deep_view().window == p.window && p.deep_view().at == p.at,
        r.deep_view().transfer == r.transfer && r.deep_view().meter_id == r.meter_id.bytes@,
        r.deep_view().reason == r.reason.bytes@ && r.deep_view().balance == r.balance,
        r.deep_view().at == r.at,
{
}

} // verus!

//! The events that the contract publishes, and how they are addressed to subscribers.

use vstd::prelude::*;

use crate::types::PaymentPlan;
use crate::values::{Address, Text};

verus! {

/// The namespace under which the contract publishes.
pub const EVENT_NAMESPACE: &'static str = "solargrid";

/// A published event. `T` holds the byte strings.
#[derive(Debug, PartialEq, Eq)]
pub enum Event<T> {
    /// A meter was registered for `owner`.
    MeterRegistered { meter_id: T, owner: Address },
    /// An entry of a batch was skipped.
    BatchSkipped { meter_id: T },
    /// A meter's metadata was replaced.
    MetadataUpdated { meter_id: T },
    /// A meter was taken off the registry.
    MeterDeregistered { meter_id: T },
    /// A meter changed owners.
    OwnershipTransferred { meter_id: T, old_owner: Address, new_owner: Address },
    /// `owner` may now own meters.
    AllowlistAdded { owner: Address },
    /// `owner` may no longer be given meters.
    AllowlistRemoved { owner: Address },
    /// The oracle was replaced.
    OracleSet { old_oracle: Option<Address>, oracle: Address },
    /// The oracle was cleared.
    OracleCleared,
    /// Payments and usage updates were stopped.
    Frozen,
    /// Payments and usage updates were resumed.
    Unfrozen,
    /// Payments and registration were paused for at most `duration` seconds.
    Paused { admin: Address, at: u64, duration: u64 },
    /// The pause was lifted by `admin`.
    Unpaused { admin: Address, at: u64 },
    /// The pause was found to have run out.
    PauseExpired { at: u64 },
    /// `payer` paid towards a meter.
    PaymentReceived {
        meter_id: T,
        payer: Address,
        token: Address,
        amount: i128,
        plan: PaymentPlan,
        memo: Option<T>,
    },
    /// A payment switched a meter's plan.
    PlanChanged { meter_id: T, old_plan: PaymentPlan, plan: PaymentPlan, at: u64 },
    /// A meter was switched on.
    MeterActivated { meter_id: T },
    /// A meter was switched off.
    MeterDeactivated { meter_id: T },
    /// A payment was refunded; `balance` is what the meter is left with.
    PaymentRefunded {
        meter_id: T,
        recipient: Address,
        amount: i128,
        reason: T,
        balance: i128,
        at: u64,
    },
    /// The cap on refunds per window was changed.
    RefundLimitSet { old_limit: i128, limit: i128 },
    /// `delegate` may now pay for the meter.
    DelegateAdded { meter_id: T, delegate: Address },
    /// `delegate` may no longer pay for the meter.
    DelegateRemoved { meter_id: T, delegate: Address },
    /// The provider withdrew revenue.
    RevenueWithdrawn { provider: Address, token: Address, amount: i128 },
    /// The administrator withdrew tokens.
    AdminWithdrawn { admin: Address, amount: i128 },
    /// Energy use was recorded and charged.
    UsageUpdated { meter_id: T, units: u64, cost: i128 },
    /// A charge was refused by the daily limit.
    LimitHit { meter_id: T, daily_limit: i128, day_spent: i128, cost: i128 },
    /// A meter's daily limit was changed.
    DailyLimitSet { meter_id: T, old_limit: i128, limit: i128 },
    /// A meter's emergency contact was changed.
    EmergencyContactSet { meter_id: T, contact: Option<Address> },
    /// `amount` was distributed among the collaborators.
    Distributed { amount: i128 },
    /// The contract's whole token balance was sent to `to`.
    EmergencyWithdrawn { to: Address, amount: i128 },
    /// A meter was expired early.
    MeterExpired { meter_id: T },
}

/// The abstract value of an event.
pub type EventModel = Event<Seq<u8>>;

impl DeepView for Event<Text> {
    type V = EventModel;

    open spec fn deep_view(&self) -> EventModel {
        match *self {
            Event::MeterRegistered { meter_id, owner } => Event::MeterRegistered {
                meter_id: meter_id@,
                owner,
            },
            Event::BatchSkipped { meter_id } => Event::BatchSkipped { meter_id: meter_id@ },
            Event::MetadataUpdated { meter_id } => Event::MetadataUpdated { meter_id: meter_id@ },
            Event::MeterDeregistered { meter_id } => Event::MeterDeregistered {
                meter_id: meter_id@,
            },
            Event::OwnershipTransferred {
                meter_id,
                old_owner,
                new_owner,
            } => Event::OwnershipTransferred {
                meter_id: meter_id@,
                old_owner,
                new_owner,
            },
            Event::AllowlistAdded { owner } => Event::AllowlistAdded { owner },
            Event::AllowlistRemoved { owner } => Event::AllowlistRemoved { owner },
            Event::OracleSet { old_oracle, oracle } => Event::OracleSet { old_oracle, oracle },
            Event::OracleCleared => Event::OracleCleared,
            Event::Frozen => Event::Frozen,
            Event::Unfrozen => Event::Unfrozen,
            Event::Paused { admin, at, duration } => Event::Paused { admin, at, duration },
            Event::Unpaused { admin, at } => Event::Unpaused { admin, at },
            Event::PauseExpired { at } => Event::PauseExpired { at },
            Event::PaymentReceived {
                meter_id,
                payer,
                token,
                amount,
                plan,
                memo,
            } => Event::PaymentReceived {
                meter_id: meter_id@,
                payer,
                token,
                amount,
                plan,
                memo: memo.deep_view(),
            },
            Event::PlanChanged { meter_id, old_plan, plan, at } => Event::PlanChanged {
                meter_id: meter_id@,
                old_plan,
                plan,
                at,
            },
            Event::MeterActivated { meter_id } => Event::MeterActivated { meter_id: meter_id@ },
            Event::MeterDeactivated { meter_id } => Event::MeterDeactivated { meter_id: meter_id@ },
            Event::PaymentRefunded {
                meter_id,
                recipient,
                amount,
                reason,
                balance,
                at,
            } => Event::PaymentRefunded {
                meter_id: meter_id@,
                recipient,
                amount,
                reason: reason@,
                balance,
                at,
            },
            Event::RefundLimitSet { old_limit, limit } => Event::RefundLimitSet {
                old_limit,
                limit,
            },
            Event::DelegateAdded { meter_id, delegate } => Event::DelegateAdded {
                meter_id: meter_id@,
                delegate,
            },
            Event::DelegateRemoved { meter_id, delegate } => Event::DelegateRemoved {
                meter_id: meter_id@,
                delegate,
            },
            Event::RevenueWithdrawn { provider, token, amount } => Event::RevenueWithdrawn {
                provider,
                token,
                amount,
            },
            Event::AdminWithdrawn { admin, amount } => Event::AdminWithdrawn { admin, amount },
            Event::UsageUpdated { meter_id, units, cost } => Event::UsageUpdated {
                meter_id: meter_id@,
                units,
                cost,
            },
            Event::LimitHit { meter_id, daily_limit, day_spent, cost } => Event::LimitHit {
                meter_id: meter_id@,
                daily_limit,
                day_spent,
                cost,
            },
            Event::DailyLimitSet { meter_id, old_limit, limit } => Event::DailyLimitSet {
                meter_id: meter_id@,
                old_limit,
                limit,
            },
            Event::EmergencyContactSet { meter_id, contact } => Event::EmergencyContactSet {
                meter_id: meter_id@,
                contact,
            },
            Event::Distributed { amount } => Event::Distributed { amount },
            Event::EmergencyWithdrawn { to, amount } => Event::EmergencyWithdrawn { to, amount },
            Event::MeterExpired { meter_id } => Event::MeterExpired { meter_id: meter_id@ },
        }
    }
}

/// One part of an event's address.
#[derive(Debug, PartialEq, Eq)]
pub enum Topic<S, T> {
    /// A fixed name.
    Symbol(S),
    /// A meter id.
    Meter(T),
    /// An address.
    Address(Address),
}

/// The abstract value of a topic.
pub type TopicModel = Topic<Seq<char>, Seq<u8>>;

impl DeepView for Topic<&'static str, Text> {
    type V = TopicModel;

    open spec fn deep_view(&self) -> TopicModel {
        match *self {
            Topic::Symbol(s) => Topic::Symbol(s@),
            Topic::Meter(t) => Topic::Meter(t@),
            Topic::Address(a) => Topic::Address(a),
        }
    }
}

/// The topics of an event that is addressed by its name alone.
pub open spec fn named_topics(name: Seq<char>) -> Seq<TopicModel> {
    seq![Topic::Symbol(EVENT_NAMESPACE@), Topic::Symbol(name)]
}

/// The topics of an event about one meter.
pub open spec fn meter_topics(name: Seq<char>, meter_id: Seq<u8>) -> Seq<TopicModel> {
    seq![Topic::Symbol(EVENT_NAMESPACE@), Topic::Symbol(name), Topic::Meter(meter_id)]
}

/// The topics of an event about one account.
pub open spec fn account_topics(
    first: Seq<char>,
    second: Seq<char>,
    account: Address,
) -> Seq<TopicModel> {
    seq![Topic::Symbol(first), Topic::Symbol(second), Topic::Address(account)]
}

/// The topics under which an event is published, in order.
pub open spec fn event_topics(event: EventModel) -> Seq<TopicModel> {
    match event {
        Event::MeterRegistered { meter_id, .. } => meter_topics("mtr_reg"@, meter_id),
        Event::BatchSkipped { meter_id } => seq![
            Topic::Symbol("btch_skip"@),
            Topic::Symbol(EVENT_NAMESPACE@),
            Topic::Meter(meter_id),
        ],
        Event::MetadataUpdated { meter_id, .. } => meter_topics("mtr_meta"@, meter_id),
        Event::MeterDeregistered { meter_id, .. } => meter_topics("mtr_dereg"@, meter_id),
        Event::OwnershipTransferred { meter_id, .. } => meter_topics("mtr_xfer"@, meter_id),
        Event::AllowlistAdded { .. } => named_topics("alw_add"@),
        Event::AllowlistRemoved { .. } => named_topics("alw_rem"@),
        Event::OracleSet { .. } => named_topics("ora_set"@),
        Event::OracleCleared => named_topics("ora_clr"@),
        Event::Frozen => named_topics("frz_on"@),
        Event::Unfrozen => named_topics("frz_off"@),
        Event::Paused { .. } => named_topics("paused"@),
        Event::Unpaused { .. } => named_topics("unpaused"@),
        Event::PauseExpired { .. } => named_topics("unpaused"@),
        Event::PaymentReceived { meter_id, .. } => meter_topics("payment"@, meter_id),
        Event::PlanChanged { meter_id, .. } => meter_topics("plan_chg"@, meter_id),
        Event::MeterActivated { meter_id, .. } => meter_topics("mtr_actv"@, meter_id),
        Event::MeterDeactivated { meter_id, .. } => meter_topics("mtr_deact"@, meter_id),
        Event::PaymentRefunded { meter_id, .. } => meter_topics("pmt_rfnd"@, meter_id),
        Event::RefundLimitSet { .. } => named_topics("rfnd_lim"@),
        Event::DelegateAdded { meter_id, .. } => meter_topics("dlg_add"@, meter_id),
        Event::DelegateRemoved { meter_id, .. } => meter_topics("dlg_rem"@, meter_id),
        Event::RevenueWithdrawn { provider, .. } => account_topics(
            "rev_wdrl"@,
            EVENT_NAMESPACE@,
            provider,
        ),
        Event::AdminWithdrawn { admin, .. } => account_topics(
            EVENT_NAMESPACE@,
            "adm_wdrl"@,
            admin,
        ),
        Event::UsageUpdated { meter_id, .. } => meter_topics("usg_upd"@, meter_id),
        Event::LimitHit { meter_id, .. } => meter_topics("limit_hit"@, meter_id),
        Event::DailyLimitSet { meter_id, .. } => meter_topics("lmt_set"@, meter_id),
        Event::EmergencyContactSet { meter_id, .. } => meter_topics("emg_set"@, meter_id),
        Event::Distributed { .. } => named_topics("distrib"@),
        Event::EmergencyWithdrawn { .. } => seq![
            Topic::Symbol("WITHDRAW"@),
            Topic::Symbol("emergency"@),
        ],
        Event::MeterExpired { .. } => seq![Topic::Symbol("METER"@), Topic::Symbol("expired"@)],
    }
}

fn pair(first: &'static str, second: &'static str) -> (r: Vec<Topic<&'static str, Text>>)
    ensures
        r.deep_view() == seq![
            Topic::<Seq<char>, Seq<u8>>::Symbol(first@),
            Topic::<Seq<char>, Seq<u8>>::Symbol(second@),
        ],
{
    let mut topics: Vec<Topic<&'static str, Text>> = Vec::new();
    topics.push(Topic::Symbol(first));
    topics.push(Topic::Symbol(second));
    assert(topics.deep_view() =~= seq![
        Topic::<Seq<char>, Seq<u8>>::Symbol(first@),
        Topic::<Seq<char>, Seq<u8>>::Symbol(second@),
    ]);
    topics
}

fn about(
    first: &'static str,
    second: &'static str,
    meter_id: &Text,
) -> (r: Vec<Topic<&'static str, Text>>)
    ensures
        r.deep_view() == seq![
            Topic::Symbol(first@),
            Topic::Symbol(second@),
            Topic::<Seq<char>, Seq<u8>>::Meter(meter_id@),
        ],
{
    let mut topics: Vec<Topic<&'static str, Text>> = Vec::new();
    topics.push(Topic::Symbol(first));
    topics.push(Topic::Symbol(second));
    topics.push(Topic::Meter(meter_id.clone()));
    assert(topics.deep_view() =~= seq![
        Topic::Symbol(first@),
        Topic::Symbol(second@),
        Topic::<Seq<char>, Seq<u8>>::Meter(meter_id@),
    ]);
    topics
}

fn by_account(
    first: &'static str,
    second: &'static str,
    account: Address,
) -> (r: Vec<Topic<&'static str, Text>>)
    ensures
        r.deep_view() == account_topics(first@, second@, account),
{
    let mut topics: Vec<Topic<&'static str, Text>> = Vec::new();
    topics.push(Topic::Symbol(first));
    topics.push(Topic::Symbol(second));
    topics.push(Topic::Address(account));
    assert(topics.deep_view() =~= account_topics(first@, second@, account));
    topics
}

impl Event<Text> {
    /// The topics under which the event is published, in order.
    pub fn topics(&self) -> (r: Vec<Topic<&'static str, Text>>)
        ensures
            r.deep_view() == event_topics(self.deep_view()),
    {
        match self {
            Event::MeterRegistered { meter_id, .. } => about(EVENT_NAMESPACE, "mtr_reg", meter_id),
            Event::BatchSkipped { meter_id } => about("btch_skip", EVENT_NAMESPACE, meter_id),
            Event::MetadataUpdated { meter_id, .. } => about(EVENT_NAMESPACE, "mtr_meta", meter_id),
            Event::MeterDeregistered { meter_id, .. } => {
                about(EVENT_NAMESPACE, "mtr_dereg", meter_id)
            },
            Event::OwnershipTransferred { meter_id, .. } => {
                about(EVENT_NAMESPACE, "mtr_xfer", meter_id)
            },
            Event::AllowlistAdded { .. } => pair(EVENT_NAMESPACE, "alw_add"),
            Event::AllowlistRemoved { .. } => pair(EVENT_NAMESPACE, "alw_rem"),
            Event::OracleSet { .. } => pair(EVENT_NAMESPACE, "ora_set"),
            Event::OracleCleared => pair(EVENT_NAMESPACE, "ora_clr"),
            Event::Frozen => pair(EVENT_NAMESPACE, "frz_on"),
            Event::Unfrozen => pair(EVENT_NAMESPACE, "frz_off"),
            Event::Paused { .. } => pair(EVENT_NAMESPACE, "paused"),
            Event::Unpaused { .. } => pair(EVENT_NAMESPACE, "unpaused"),
            Event::PauseExpired { .. } => pair(EVENT_NAMESPACE, "unpaused"),
            Event::PaymentReceived { meter_id, .. } => about(EVENT_NAMESPACE, "payment", meter_id),
            Event::PlanChanged { meter_id, .. } => about(EVENT_NAMESPACE, "plan_chg", meter_id),
            Event::MeterActivated { meter_id, .. } => about(EVENT_NAMESPACE, "mtr_actv", meter_id),
            Event::MeterDeactivated { meter_id, .. } => {
                about(EVENT_NAMESPACE, "mtr_deact", meter_id)
            },
            Event::PaymentRefunded { meter_id, .. } => about(EVENT_NAMESPACE, "pmt_rfnd", meter_id),
            Event::RefundLimitSet { .. } => pair(EVENT_NAMESPACE, "rfnd_lim"),
            Event::DelegateAdded { meter_id, .. } => about(EVENT_NAMESPACE, "dlg_add", meter_id),
            Event::DelegateRemoved { meter_id, .. } => about(EVENT_NAMESPACE, "dlg_rem", meter_id),
            Event::RevenueWithdrawn { provider, .. } => {
                by_account("rev_wdrl", EVENT_NAMESPACE, *provider)
            },
            Event::AdminWithdrawn { admin, .. } => by_account(EVENT_NAMESPACE, "adm_wdrl", *admin),
            Event::UsageUpdated { meter_id, .. } => about(EVENT_NAMESPACE, "usg_upd", meter_id),
            Event::LimitHit { meter_id, .. } => about(EVENT_NAMESPACE, "limit_hit", meter_id),
            Event::DailyLimitSet { meter_id, .. } => about(EVENT_NAMESPACE, "lmt_set", meter_id),
            Event::EmergencyContactSet { meter_id, .. } => {
                about(EVENT_NAMESPACE, "emg_set", meter_id)
            },
            Event::Distributed { .. } => pair(EVENT_NAMESPACE, "distrib"),
            Event::EmergencyWithdrawn { .. } => pair("WITHDRAW", "emergency"),
            Event::MeterExpired { .. } => pair("METER", "expired"),
        }
    }
}

} // verus!

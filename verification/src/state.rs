//! The contract's state, the call it is answering, and the steps that all entry points share.
//!
//! A call that is refused leaves the state as it was, as the ledger undoes a failed call. The one
//! exception is the event that reports a charge over a meter's daily limit. A later step of a call
//! that moves tokens gives the lock back when it refuses to go on.

use vstd::prelude::*;

use crate::events::{Event, EventModel};
use crate::lists::holds;
use crate::migration::{migrate, migrated};
use crate::table::Table;
use crate::types::{
    AdminProposal, CallError, ContractError, Metadata, Meter, MeterModel, OwnershipTransfer,
    ProposalModel, RefundWindow, StoredMeter, StoredModel,
};
use crate::values::{Address, Text};

verus! {

/// Seconds in a day.
pub const SECONDS_PER_DAY: u64 = 86_400;

/// Seconds in a week.
pub const SECONDS_PER_WEEK: u64 = 604_800;

/// Seconds in a month of thirty days.
pub const SECONDS_PER_MONTH: u64 = 2_592_000;

/// A pause runs out after 48 hours.
pub const MAX_PAUSE_DURATION: u64 = 172_800;

/// One call of the contract: when it is made, the contract's own address, and the addresses that
/// have authorised it.
#[derive(Debug)]
pub struct Invocation {
    pub now: u64,
    pub contract: Address,
    pub signers: Vec<Address>,
}

impl Invocation {
    /// Whether `who` has authorised the call.
    pub open spec fn signed(self, who: Address) -> bool {
        self.signers@.contains(who)
    }

    /// Refuses the call unless `who` has authorised it.
    pub fn require_auth(&self, who: Address) -> (r: Result<(), CallError>)
        ensures
            r == if self.signed(who) {
                Ok::<(), CallError>(())
            } else {
                Err(CallError::MissingAuth(who))
            },
    {
        if holds(&self.signers, who) {
            Ok(())
        } else {
            Err(CallError::MissingAuth(who))
        }
    }
}

/// The contract with everything it has stored.
#[derive(Debug)]
pub struct SolarGridContract {
    /// The administrator, who is also the energy provider.
    pub admin: Option<Address>,
    /// The token in which payments are made.
    pub token: Option<Address>,
    /// The contract version recorded at initialisation.
    pub version: Option<Text>,
    /// Addresses that may own meters.
    pub allowlist: Vec<Address>,
    /// The oracle that reports energy use.
    pub oracle: Option<Address>,
    /// The ids of all registered meters, oldest first.
    pub meter_list: Vec<Text>,
    /// How many meters are registered.
    pub meter_count: u32,
    /// Revenue collaborators, in the order in which they were added.
    pub collaborators: Vec<Address>,
    /// Each collaborator's share in basis points.
    pub shares: Table<Address, u32>,
    /// Whether payments and usage updates are stopped.
    pub frozen: bool,
    /// Whether a call that moves tokens is in progress.
    pub locked: bool,
    /// The grace period that was configured, if any.
    pub grace_period: Option<u64>,
    /// The most that may be refunded per window; 0 means no limit.
    pub refund_limit: i128,
    /// The current refund window.
    pub refund_window: Option<RefundWindow>,
    /// Whether an emergency pause was called.
    pub paused: bool,
    /// When the emergency pause was called.
    pub paused_at: u64,
    /// The administrators who decide together.
    pub multisig_admins: Vec<Address>,
    /// How many of them must agree.
    pub multisig_threshold: u32,
    /// How many proposals have been made.
    pub proposal_count: u32,
    /// The meters by id.
    pub meters: Table<Text, StoredMeter<Metadata>>,
    /// The ids of each owner's meters.
    pub owner_meters: Table<Address, Vec<Text>>,
    /// The latest changes of owner of each meter.
    pub ownership_history: Table<Text, Vec<OwnershipTransfer>>,
    /// Revenue that each provider may withdraw.
    pub provider_revenue: Table<Address, i128>,
    /// The prepaid balance of each meter.
    pub balances: Table<Text, i128>,
    /// What each address has paid towards each meter.
    pub payer_paid: Table<(Text, Address), i128>,
    /// What each address was refunded for each meter.
    pub payer_refunded: Table<(Text, Address), i128>,
    /// Who may pay for each meter besides its owner.
    pub delegates: Table<Text, Vec<Address>>,
    /// The open proposals.
    pub proposals: Table<u32, AdminProposal<Vec<Text>, Vec<Address>>>,
    /// The events published so far.
    pub events: Vec<Event<Text>>,
}

/// The abstract value of the contract's state.
#[verifier::ext_equal]
pub struct Grid {
    pub admin: Option<Address>,
    pub token: Option<Address>,
    pub version: Option<Seq<u8>>,
    pub allowlist: Seq<Address>,
    pub oracle: Option<Address>,
    pub meter_list: Seq<Seq<u8>>,
    pub meter_count: u32,
    pub collaborators: Seq<Address>,
    pub shares: Map<Address, u32>,
    pub frozen: bool,
    pub locked: bool,
    pub grace_period: Option<u64>,
    pub refund_limit: i128,
    pub refund_window: Option<RefundWindow>,
    pub paused: bool,
    pub paused_at: u64,
    pub multisig_admins: Seq<Address>,
    pub multisig_threshold: u32,
    pub proposal_count: u32,
    pub meters: Map<Seq<u8>, StoredModel>,
    pub owner_meters: Map<Address, Seq<Seq<u8>>>,
    pub ownership_history: Map<Seq<u8>, Seq<OwnershipTransfer>>,
    pub provider_revenue: Map<Address, i128>,
    pub balances: Map<Seq<u8>, i128>,
    pub payer_paid: Map<(Seq<u8>, Address), i128>,
    pub payer_refunded: Map<(Seq<u8>, Address), i128>,
    pub delegates: Map<Seq<u8>, Seq<Address>>,
    pub proposals: Map<u32, ProposalModel>,
    pub events: Seq<EventModel>,
}

impl View for SolarGridContract {
    type V = Grid;

    open spec fn view(&self) -> Grid {
        Grid {
            admin: self.admin,
            token: self.token,
            version: self.version.deep_view(),
            allowlist: self.allowlist@,
            oracle: self.oracle,
            meter_list: self.meter_list.deep_view(),
            meter_count: self.meter_count,
            collaborators: self.collaborators@,
            shares: self.shares@,
            frozen: self.frozen,
            locked: self.locked,
            grace_period: self.grace_period,
            refund_limit: self.refund_limit,
            refund_window: self.refund_window,
            paused: self.paused,
            paused_at: self.paused_at,
            multisig_admins: self.multisig_admins@,
            multisig_threshold: self.multisig_threshold,
            proposal_count: self.proposal_count,
            meters: self.meters@,
            owner_meters: self.owner_meters@,
            ownership_history: self.ownership_history@,
            provider_revenue: self.provider_revenue@,
            balances: self.balances@,
            payer_paid: self.payer_paid@,
            payer_refunded: self.payer_refunded@,
            delegates: self.delegates@,
            proposals: self.proposals@,
            events: self.events.deep_view(),
        }
    }
}

/// The state of a contract that was deployed but not initialised.
pub open spec fn fresh() -> Grid {
    Grid {
        admin: None,
        token: None,
        version: None,
        allowlist: Seq::empty(),
        oracle: None,
        meter_list: Seq::empty(),
        meter_count: 0,
        collaborators: Seq::empty(),
        shares: Map::empty(),
        frozen: false,
        locked: false,
        grace_period: None,
        refund_limit: 0,
        refund_window: None,
        paused: false,
        paused_at: 0,
        multisig_admins: Seq::empty(),
        multisig_threshold: 0,
        proposal_count: 0,
        meters: Map::empty(),
        owner_meters: Map::empty(),
        ownership_history: Map::empty(),
        provider_revenue: Map::empty(),
        balances: Map::empty(),
        payer_paid: Map::empty(),
        payer_refunded: Map::empty(),
        delegates: Map::empty(),
        proposals: Map::empty(),
        events: Seq::empty(),
    }
}

/// A refusal for the reason `e`.
pub open spec fn refusal(e: ContractError) -> Option<CallError> {
    Some(CallError::Contract(e))
}

/// Why a call that needs `who` is not let through, if it is not.
pub open spec fn auth_refusal(env: Invocation, who: Address) -> Option<CallError> {
    if env.signed(who) {
        None
    } else {
        Some(CallError::MissingAuth(who))
    }
}

/// Why a call that only the administrator may make is not let through, if it is not.
pub open spec fn admin_refusal(s: Grid, env: Invocation) -> Option<CallError> {
    match s.admin {
        None => refusal(ContractError::NotInitialized),
        Some(admin) => auth_refusal(env, admin),
    }
}

/// Whether the emergency pause is in force at `now`.
pub open spec fn pause_in_force(s: Grid, now: u64) -> bool {
    s.paused && now.saturating_sub(s.paused_at) < MAX_PAUSE_DURATION
}

/// The state once a pause that has run out by `now` is cleared.
pub open spec fn pause_settled(s: Grid, now: u64) -> Grid {
    if s.paused && !pause_in_force(s, now) {
        Grid {
            paused: false,
            paused_at: 0,
            events: s.events.push(Event::PauseExpired { at: now }),
            ..s
        }
    } else {
        s
    }
}

/// The meter stored under `id`, brought to the current layout.
pub open spec fn meter_of(s: Grid, id: Seq<u8>) -> Option<MeterModel> {
    if s.meters.contains_key(id) {
        Some(migrated(s.meters[id]))
    } else {
        None
    }
}

/// The meter stored under `id`, if it is in the current layout already.
pub open spec fn current_meter(s: Grid, id: Seq<u8>) -> Option<MeterModel> {
    if s.meters.contains_key(id) {
        match s.meters[id] {
            StoredMeter::Current(m) => Some(m),
            _ => None,
        }
    } else {
        None
    }
}

/// The state with `meter` stored under `id`.
pub open spec fn with_meter(s: Grid, id: Seq<u8>, meter: MeterModel) -> Grid {
    Grid { meters: s.meters.insert(id, StoredMeter::Current(meter)), ..s }
}

/// The state once the entry under `id`, if there is one, is stored in the current layout.
pub open spec fn meter_settled(s: Grid, id: Seq<u8>) -> Grid {
    match meter_of(s, id) {
        Some(m) => with_meter(s, id, m),
        None => s,
    }
}

/// The state once `event` is published.
pub open spec fn published(s: Grid, event: EventModel) -> Grid {
    Grid { events: s.events.push(event), ..s }
}

/// The state once a call that moves tokens is let in.
pub open spec fn lock_taken(s: Grid) -> Grid {
    Grid { locked: true, ..s }
}

/// The state once a call that moves tokens has ended.
pub open spec fn lock_given_back(s: Grid) -> Grid {
    Grid { locked: false, ..s }
}

/// Refuses a call for the reason `e`.
pub(crate) fn refuse<T>(e: ContractError) -> (r: Result<T, CallError>)
    ensures
        r == Err::<T, CallError>(CallError::Contract(e)),
{
    Err(CallError::Contract(e))
}

/// Passes a refusal on to the caller.
pub(crate) fn lift<T>(outcome: Result<T, ContractError>) -> (r: Result<T, CallError>)
    ensures
        match outcome {
            Ok(v) => r == Ok::<T, CallError>(v),
            Err(e) => r == Err::<T, CallError>(CallError::Contract(e)),
        },
{
    match outcome {
        Ok(v) => Ok(v),
        Err(e) => Err(CallError::Contract(e)),
    }
}

impl SolarGridContract {
    /// A contract that was deployed but not initialised.
    pub fn new() -> (r: SolarGridContract)
        ensures
            r@ == fresh(),
    {
        let r = SolarGridContract {
            admin: None,
            token: None,
            version: None,
            allowlist: Vec::new(),
            oracle: None,
            meter_list: Vec::new(),
            meter_count: 0,
            collaborators: Vec::new(),
            shares: Table::new(),
            frozen: false,
            locked: false,
            grace_period: None,
            refund_limit: 0,
            refund_window: None,
            paused: false,
            paused_at: 0,
            multisig_admins: Vec::new(),
            multisig_threshold: 0,
            proposal_count: 0,
            meters: Table::new(),
            owner_meters: Table::new(),
            ownership_history: Table::new(),
            provider_revenue: Table::new(),
            balances: Table::new(),
            payer_paid: Table::new(),
            payer_refunded: Table::new(),
            delegates: Table::new(),
            proposals: Table::new(),
            events: Vec::new(),
        };
        assert(r@ =~= fresh());
        r
    }

    /// Publishes an event.
    pub(crate) fn publish(&mut self, event: Event<Text>)
        ensures
            final(self)@ == published(old(self)@, event.deep_view()),
    {
        self.events.push(event);
        assert(self.events.deep_view() =~= old(self).events.deep_view().push(event.deep_view()));
    }

    /// The administrator's address.
    pub(crate) fn get_admin(&self) -> (r: Result<Address, ContractError>)
        ensures
            r == match self@.admin {
                Some(admin) => Ok::<Address, ContractError>(admin),
                None => Err(ContractError::NotInitialized),
            },
    {
        match self.admin {
            Some(admin) => Ok(admin),
            None => Err(ContractError::NotInitialized),
        }
    }

    /// The token's address.
    pub(crate) fn get_token_address(&self) -> (r: Result<Address, ContractError>)
        ensures
            r == match self@.token {
                Some(token) => Ok::<Address, ContractError>(token),
                None => Err(ContractError::NotInitialized),
            },
    {
        match self.token {
            Some(token) => Ok(token),
            None => Err(ContractError::NotInitialized),
        }
    }

    /// Lets only the administrator through, and returns the address.
    pub(crate) fn require_admin(&self, env: &Invocation) -> (r: Result<Address, CallError>)
        ensures
            match r {
                Ok(admin) => admin_refusal(self@, *env) is None && self@.admin == Some(admin),
                Err(e) => admin_refusal(self@, *env) == Some(e),
            },
    {
        let admin: Address = lift(self.get_admin())?;
        env.require_auth(admin)?;
        Ok(admin)
    }

    /// Refuses the call until the contract is initialised.
    pub(crate) fn require_initialized(&self) -> (r: Result<(), ContractError>)
        ensures
            r == if self@.admin is Some {
                Ok::<(), ContractError>(())
            } else {
                Err(ContractError::NotInitialized)
            },
    {
        if self.admin.is_none() {
            return Err(ContractError::NotInitialized);
        }
        Ok(())
    }

    /// Whether the emergency pause is in force.
    pub(crate) fn pause_is_active(&self, now: u64) -> (r: bool)
        ensures
            r == pause_in_force(self@, now),
    {
        self.paused && now.saturating_sub(self.paused_at) < MAX_PAUSE_DURATION
    }

    /// Clears a pause that has run out.
    pub(crate) fn settle_pause(&mut self, now: u64)
        ensures
            final(self)@ == pause_settled(old(self)@, now),
    {
        if self.paused && !self.pause_is_active(now) {
            self.paused = false;
            self.paused_at = 0;
            self.publish(Event::PauseExpired { at: now });
        }
    }

    /// Ends a call that moved tokens and needs nothing else done: gives the lock back.
    pub fn leave(&mut self)
        ensures
            final(self)@ == lock_given_back(old(self)@),
    {
        self.locked = false;
    }

    /// The meter under `id`, in the current layout.
    pub(crate) fn find_meter(&self, id: &Text) -> (r: Result<Meter<Metadata>, CallError>)
        ensures
            match r {
                Ok(m) => meter_of(self@, id@) == Some(m.deep_view()),
                Err(e) => meter_of(self@, id@) is None && e == CallError::Contract(
                    ContractError::MeterNotFound,
                ),
            },
    {
        match self.meters.get(id) {
            Some(stored) => Ok(migrate(stored)),
            None => Err(CallError::Contract(ContractError::MeterNotFound)),
        }
    }

    /// The meter under `id`. An entry in an older layout is rewritten in the current one.
    pub(crate) fn get_meter_or_error(&mut self, id: &Text) -> (r: Result<
        Meter<Metadata>,
        ContractError,
    >)
        ensures
            match r {
                Ok(m) => meter_of(old(self)@, id@) == Some(m.deep_view()),
                Err(e) => meter_of(old(self)@, id@) is None && e == ContractError::MeterNotFound,
            },
            final(self)@ == meter_settled(old(self)@, id@),
    {
        let (meter, rewrite) = match self.meters.get(id) {
            None => {
                return Err(ContractError::MeterNotFound);
            },
            Some(StoredMeter::Current(m)) => (m.clone(), false),
            Some(stored) => (migrate(stored), true),
        };
        if rewrite {
            self.put_meter(id, meter.clone());
        }
        assert(self@ =~= meter_settled(old(self)@, id@));
        Ok(meter)
    }

    /// Stores `meter` under `id`.
    pub(crate) fn put_meter(&mut self, id: &Text, meter: Meter<Metadata>)
        ensures
            final(self)@ == with_meter(old(self)@, id@, meter.deep_view()),
    {
        self.meters.set(id.clone(), StoredMeter::Current(meter));
    }

    /// Hands over the events published so far.
    pub fn take_events(&mut self) -> (r: Vec<Event<Text>>)
        ensures
            r.deep_view() == old(self)@.events,
            final(self)@ == (Grid { events: Seq::empty(), ..old(self)@ }),
    {
        let mut events: Vec<Event<Text>> = Vec::new();
        std::mem::swap(&mut events, &mut self.events);
        assert(self.events.deep_view() =~= Seq::empty());
        events
    }
}

} // verus!

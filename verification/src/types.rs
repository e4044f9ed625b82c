//! The contract's records: errors, plans, meters in every stored layout, proposals and results.

use vstd::prelude::*;

use crate::table::Table;
use crate::values::{Address, Text};

verus! {

/// Why the contract refuses a call.
#[derive(Clone, Copy, Debug, PartialEq, Eq, Structural)]
pub enum ContractError {
    NotInitialized,
    AlreadyInitialized,
    MeterNotFound,
    MeterAlreadyExists,
    Unauthorized,
    InvalidAmount,
    OwnerNotAllowlisted,
    OracleNotSet,
    InsufficientProviderRevenue,
    BatchTooLarge,
    CannotActivateWithoutBalance,
    InsufficientBalance,
    CollaboratorAlreadyExists,
    DailyLimitReached,
    MeterNotActive,
    ContractNotFrozen,
    ContractFrozen,
    CollaboratorNotFound,
    RefundExceedsPayments,
    RefundLimitExceeded,
    /// The contract-wide emergency pause is active.
    ContractPaused,
    /// The contract is already paused.
    AlreadyPaused,
    /// The contract is not currently paused.
    NotPaused,
    /// A payment's memo exceeds `MAX_MEMO_LEN` bytes.
    MemoTooLong,
    InvalidMultisigConfiguration,
    ProposalNotFound,
    ProposalExpired,
    ProposalAlreadyApproved,
    ProposalNotReady,
    ReentrantCall,
    /// The metadata has too many pairs or a value that is too long.
    InvalidMetadata,
}

impl ContractError {
    /// The number under which the error is reported to callers.
    pub open spec fn number(self) -> u32 {
        match self {
            ContractError::NotInitialized => 1,
            ContractError::AlreadyInitialized => 2,
            ContractError::MeterNotFound => 3,
            ContractError::MeterAlreadyExists => 4,
            ContractError::Unauthorized => 5,
            ContractError::InvalidAmount => 6,
            ContractError::OwnerNotAllowlisted => 7,
            ContractError::OracleNotSet => 8,
            ContractError::InsufficientProviderRevenue => 9,
            ContractError::BatchTooLarge => 10,
            ContractError::CannotActivateWithoutBalance => 11,
            ContractError::InsufficientBalance => 12,
            ContractError::CollaboratorAlreadyExists => 13,
            ContractError::DailyLimitReached => 14,
            ContractError::MeterNotActive => 15,
            ContractError::ContractNotFrozen => 16,
            ContractError::ContractFrozen => 17,
            ContractError::CollaboratorNotFound => 18,
            ContractError::RefundExceedsPayments => 19,
            ContractError::RefundLimitExceeded => 20,
            ContractError::ContractPaused => 21,
            ContractError::AlreadyPaused => 22,
            ContractError::NotPaused => 23,
            ContractError::MemoTooLong => 24,
            ContractError::InvalidMultisigConfiguration => 25,
            ContractError::ProposalNotFound => 26,
            ContractError::ProposalExpired => 27,
            ContractError::ProposalAlreadyApproved => 28,
            ContractError::ProposalNotReady => 29,
            ContractError::ReentrantCall => 30,
            ContractError::InvalidMetadata => 31,
        }
    }

    /// The number under which the error is reported to callers.
    pub fn code(&self) -> (r: u32)
        ensures
            r == self.number(),
    {
        match self {
            ContractError::NotInitialized => 1,
            ContractError::AlreadyInitialized => 2,
            ContractError::MeterNotFound => 3,
            ContractError::MeterAlreadyExists => 4,
            ContractError::Unauthorized => 5,
            ContractError::InvalidAmount => 6,
            ContractError::OwnerNotAllowlisted => 7,
            ContractError::OracleNotSet => 8,
            ContractError::InsufficientProviderRevenue => 9,
            ContractError::BatchTooLarge => 10,
            ContractError::CannotActivateWithoutBalance => 11,
            ContractError::InsufficientBalance => 12,
            ContractError::CollaboratorAlreadyExists => 13,
            ContractError::DailyLimitReached => 14,
            ContractError::MeterNotActive => 15,
            ContractError::ContractNotFrozen => 16,
            ContractError::ContractFrozen => 17,
            ContractError::CollaboratorNotFound => 18,
            ContractError::RefundExceedsPayments => 19,
            ContractError::RefundLimitExceeded => 20,
            ContractError::ContractPaused => 21,
            ContractError::AlreadyPaused => 22,
            ContractError::NotPaused => 23,
            ContractError::MemoTooLong => 24,
            ContractError::InvalidMultisigConfiguration => 25,
            ContractError::ProposalNotFound => 26,
            ContractError::ProposalExpired => 27,
            ContractError::ProposalAlreadyApproved => 28,
            ContractError::ProposalNotReady => 29,
            ContractError::ReentrantCall => 30,
            ContractError::InvalidMetadata => 31,
        }
    }
}

/// Why a call did not go through: the contract refused it, or an address whose authorisation it
/// needs has not given it.
#[derive(Clone, Copy, Debug, PartialEq, Eq, Structural)]
pub enum CallError {
    Contract(ContractError),
    MissingAuth(Address),
}

/// The billing cycle that a payment buys.
#[derive(Clone, Copy, Debug, PartialEq, Eq, Structural)]
pub enum PaymentPlan {
    Daily,
    Weekly,
    Monthly,
    UsageBased,
}

/// Whether a meter delivers energy, with the details of a running grace period.
#[derive(Clone, Copy, Debug, PartialEq, Eq)]
pub struct AccessStatus {
    pub has_access: bool,
    pub in_grace_period: bool,
    pub grace_expires_at: Option<u64>,
}

/// One change of a meter's owner.
#[derive(Clone, Copy, Debug, PartialEq, Eq, Structural)]
pub struct OwnershipTransfer {
    pub old_owner: Address,
    pub new_owner: Address,
    pub transferred_at: u64,
}

impl DeepView for OwnershipTransfer {
    type V = OwnershipTransfer;

    open spec fn deep_view(&self) -> OwnershipTransfer {
        *self
    }
}

/// What has been refunded since the current refund window opened.
#[derive(Clone, Copy, Debug, PartialEq, Eq, Structural)]
pub struct RefundWindow {
    pub window_start: u64,
    pub window_spent: i128,
}

/// Key-value pairs attached to a meter.
pub type Metadata = Table<Text, Text>;

/// The abstract value of a meter's key-value pairs.
pub type MetadataModel = Map<Seq<u8>, Seq<u8>>;

/// A meter in the current layout. `M` holds its metadata.
#[derive(Debug)]
pub struct Meter<M> {
    /// Schema version of the entry.
    pub version: u32,
    pub owner: Address,
    pub active: bool,
    /// Energy used, in thousandths of a kWh.
    pub units_used: u64,
    pub plan: PaymentPlan,
    /// When the last payment was made.
    pub last_payment: u64,
    /// When access expires.
    pub expires_at: u64,
    /// The most that may be charged per day; 0 means no limit.
    pub daily_limit: i128,
    /// What was charged in the current day window.
    pub day_spent: i128,
    /// When the current day window opened.
    pub day_start: u64,
    /// When the running grace period ends.
    pub grace_expires_at: Option<u64>,
    /// Whom to notify when the balance is critically low.
    pub emergency_contact: Option<Address>,
    pub metadata: M,
}

/// The abstract value of a meter.
pub type MeterModel = Meter<MetadataModel>;

impl DeepView for Meter<Metadata> {
    type V = MeterModel;

    open spec fn deep_view(&self) -> MeterModel {
        Meter {
            version: self.version,
            owner: self.owner,
            active: self.active,
            units_used: self.units_used,
            plan: self.plan,
            last_payment: self.last_payment,
            expires_at: self.expires_at,
            daily_limit: self.daily_limit,
            day_spent: self.day_spent,
            day_start: self.day_start,
            grace_expires_at: self.grace_expires_at,
            emergency_contact: self.emergency_contact,
            metadata: self.metadata@,
        }
    }
}

/// A copy of a meter's metadata.
pub fn copy_metadata(metadata: &Metadata) -> (r: Metadata)
    ensures
        r@ == metadata@,
{
    let mut copy: Metadata = Table::new();
    let mut i: usize = 0;
    while i < metadata.len()
        invariant
            i <= metadata.pairs().len(),
            forall|k: Seq<u8>| #[trigger]
                copy@.contains_key(k) ==> metadata@.contains_key(k) && metadata@[k] == copy@[k],
            forall|j: int|
                0 <= j < i ==> copy@.contains_key((#[trigger] metadata.pairs()[j]).0),
        decreases metadata.pairs().len() - i,
    {
        let (key, value) = metadata.at(i);
        copy.set(key.clone(), value.clone());
        i = i + 1;
    }
    assert(copy@ =~= metadata@) by {
        assert forall|k: Seq<u8>| metadata@.contains_key(k) implies copy@.contains_key(k) by {
            let j = choose|j: int|
                0 <= j < metadata.pairs().len() && (#[trigger] metadata.pairs()[j]).0 == k;
            assert(copy@.contains_key(metadata.pairs()[j].0));
        }
    }
    copy
}

impl Clone for Meter<Metadata> {
    fn clone(&self) -> (r: Self)
        ensures
            r.deep_view() == self.deep_view(),
    {
        Meter {
            version: self.version,
            owner: self.owner,
            active: self.active,
            units_used: self.units_used,
            plan: self.plan,
            last_payment: self.last_payment,
            expires_at: self.expires_at,
            daily_limit: self.daily_limit,
            day_spent: self.day_spent,
            day_start: self.day_start,
            grace_expires_at: self.grace_expires_at,
            emergency_contact: self.emergency_contact,
            metadata: copy_metadata(&self.metadata),
        }
    }
}

/// The layout before metadata was added.
#[derive(Clone, Copy, Debug)]
pub struct LegacyMeterV3 {
    pub version: u32,
    pub owner: Address,
    pub active: bool,
    pub units_used: u64,
    pub plan: PaymentPlan,
    pub last_payment: u64,
    pub expires_at: u64,
    pub daily_limit: i128,
    pub day_spent: i128,
    pub day_start: u64,
    pub grace_expires_at: Option<u64>,
    pub emergency_contact: Option<Address>,
}

/// The layout before the emergency contact was added.
#[derive(Clone, Copy, Debug)]
pub struct LegacyMeterV2 {
    pub version: u32,
    pub owner: Address,
    pub active: bool,
    pub units_used: u64,
    pub plan: PaymentPlan,
    pub last_payment: u64,
    pub expires_at: u64,
    pub daily_limit: i128,
    pub day_spent: i128,
    pub day_start: u64,
    pub grace_expires_at: Option<u64>,
}

/// The layout before daily limits and grace periods were added.
#[derive(Clone, Copy, Debug)]
pub struct LegacyMeterV1 {
    pub version: u32,
    pub owner: Address,
    pub active: bool,
    pub units_used: u64,
    pub plan: PaymentPlan,
    pub last_payment: u64,
    pub expires_at: u64,
}

/// The first layout, which carried the balance inside the entry.
#[derive(Clone, Copy, Debug)]
pub struct LegacyMeter {
    pub owner: Address,
    pub active: bool,
    pub balance: i128,
    pub units_used: u64,
    pub plan: PaymentPlan,
    pub last_payment: u64,
    pub expires_at: u64,
}

/// A meter entry as it lies in storage, in whichever layout it was written.
#[derive(Debug)]
pub enum StoredMeter<M> {
    Current(Meter<M>),
    V3(LegacyMeterV3),
    V2(LegacyMeterV2),
    V1(LegacyMeterV1),
    V0(LegacyMeter),
}

/// The abstract value of a stored meter entry.
pub type StoredModel = StoredMeter<MetadataModel>;

impl DeepView for StoredMeter<Metadata> {
    type V = StoredModel;

    open spec fn deep_view(&self) -> StoredModel {
        match *self {
            StoredMeter::Current(m) => StoredMeter::Current(m.deep_view()),
            StoredMeter::V3(m) => StoredMeter::V3(m),
            StoredMeter::V2(m) => StoredMeter::V2(m),
            StoredMeter::V1(m) => StoredMeter::V1(m),
            StoredMeter::V0(m) => StoredMeter::V0(m),
        }
    }
}

/// A meter together with its balance.
#[derive(Debug)]
pub struct MeterView {
    pub meter: Meter<Metadata>,
    pub balance: i128,
}

/// What became of one meter of a batch deactivation. `T` holds the byte strings.
#[derive(Debug)]
pub struct BatchDeactivateResult<T> {
    pub meter_id: T,
    pub success: bool,
    pub reason: T,
}

impl DeepView for BatchDeactivateResult<Text> {
    type V = BatchDeactivateResult<Seq<u8>>;

    open spec fn deep_view(&self) -> BatchDeactivateResult<Seq<u8>> {
        BatchDeactivateResult {
            meter_id: self.meter_id@,
            success: self.success,
            reason: self.reason@,
        }
    }
}

/// What became of a batch deactivation.
#[derive(Debug)]
pub struct BatchDeactivateSummary {
    pub total: u32,
    pub deactivated: u32,
    pub skipped: u32,
    pub results: Vec<BatchDeactivateResult<Text>>,
}

/// An operation that several administrators decide on together. `L` lists meter ids.
#[derive(Debug)]
pub enum AdminOperation<L> {
    Pause,
    Unpause,
    EmergencyWithdraw(i128),
    BulkDeactivate(L),
    RotateAdmin(Address),
    SetGracePeriod(u64),
}

/// The abstract value of an operation.
pub type OperationModel = AdminOperation<Seq<Seq<u8>>>;

impl DeepView for AdminOperation<Vec<Text>> {
    type V = OperationModel;

    open spec fn deep_view(&self) -> OperationModel {
        match *self {
            AdminOperation::Pause => AdminOperation::Pause,
            AdminOperation::Unpause => AdminOperation::Unpause,
            AdminOperation::EmergencyWithdraw(amount) => AdminOperation::EmergencyWithdraw(amount),
            AdminOperation::BulkDeactivate(ids) => AdminOperation::BulkDeactivate(ids.deep_view()),
            AdminOperation::RotateAdmin(admin) => AdminOperation::RotateAdmin(admin),
            AdminOperation::SetGracePeriod(period) => AdminOperation::SetGracePeriod(period),
        }
    }
}

/// A proposed operation and who has approved it. `L` lists meter ids, `A` the approvals.
#[derive(Debug)]
pub struct AdminProposal<L, A> {
    pub operation: AdminOperation<L>,
    pub approvals: A,
    pub threshold: u32,
    pub expiry: u64,
}

/// The abstract value of a proposal.
pub type ProposalModel = AdminProposal<Seq<Seq<u8>>, Seq<Address>>;

impl DeepView for AdminProposal<Vec<Text>, Vec<Address>> {
    type V = ProposalModel;

    open spec fn deep_view(&self) -> ProposalModel {
        AdminProposal {
            operation: self.operation.deep_view(),
            approvals: self.approvals@,
            threshold: self.threshold,
            expiry: self.expiry,
        }
    }
}

/// A movement of tokens that the contract asks for.
#[derive(Clone, Copy, Debug, PartialEq, Eq, Structural)]
pub struct Transfer {
    pub token: Address,
    pub from: Address,
    pub to: Address,
    pub amount: i128,
}

/// A question the contract asks of a token: how much `holder` holds.
#[derive(Clone, Copy, Debug, PartialEq, Eq, Structural)]
pub struct BalanceQuery {
    pub token: Address,
    pub holder: Address,
}

} // verus!

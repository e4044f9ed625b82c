//! What is announced, to whom, and how errors are numbered.

use vstd::prelude::*;

use crate::activation::expired;
use crate::events::{
    account_topics, event_topics, meter_topics, named_topics, Event, EventModel, Topic,
};
use crate::types::ContractError;
use crate::values::{Address, Text};

verus! {

/// An event about one meter is addressed by the namespace, its name and the meter.
pub proof fn law_meter_events_name_the_meter(event: EventModel, id: Seq<u8>)
    ensures
        ({
            let topics = event_topics(event);
            let at = topics.len() == 3 && topics[0] == Topic::<Seq<char>, Seq<u8>>::Symbol(
                "solargrid"@,
            ) && topics[2] == Topic::<Seq<char>, Seq<u8>>::Meter(id);
            let name = topics[1];
            &&& event is MeterRegistered && event->MeterRegistered_meter_id == id ==> at && name
                == Topic::<Seq<char>, Seq<u8>>::Symbol("mtr_reg"@)
            &&& event is MetadataUpdated && event->MetadataUpdated_meter_id == id ==> at && name
                == Topic::<Seq<char>, Seq<u8>>::Symbol("mtr_meta"@)
            &&& event is MeterDeregistered && event->MeterDeregistered_meter_id == id ==> at && name
                == Topic::<Seq<char>, Seq<u8>>::Symbol("mtr_dereg"@)
            &&& event is OwnershipTransferred && event->OwnershipTransferred_meter_id == id
                ==> at && name
                == Topic::<Seq<char>, Seq<u8>>::Symbol("mtr_xfer"@)
            &&& event is PaymentReceived && event->PaymentReceived_meter_id == id ==> at && name
                == Topic::<Seq<char>, Seq<u8>>::Symbol("payment"@)
            &&& event is PlanChanged && event->PlanChanged_meter_id == id ==> at && name
                == Topic::<Seq<char>, Seq<u8>>::Symbol("plan_chg"@)
            &&& event is MeterActivated && event->MeterActivated_meter_id == id ==> at && name
                == Topic::<Seq<char>, Seq<u8>>::Symbol("mtr_actv"@)
            &&& event is MeterDeactivated && event->MeterDeactivated_meter_id == id ==> at && name
                == Topic::<Seq<char>, Seq<u8>>::Symbol("mtr_deact"@)
            &&& event is PaymentRefunded && event->PaymentRefunded_meter_id == id ==> at && name
                == Topic::<Seq<char>, Seq<u8>>::Symbol("pmt_rfnd"@)
            &&& event is DelegateAdded && event->DelegateAdded_meter_id == id ==> at && name
                == Topic::<Seq<char>, Seq<u8>>::Symbol("dlg_add"@)
            &&& event is DelegateRemoved && event->DelegateRemoved_meter_id == id ==> at && name
                == Topic::<Seq<char>, Seq<u8>>::Symbol("dlg_rem"@)
            &&& event is UsageUpdated && event->UsageUpdated_meter_id == id ==> at && name
                == Topic::<Seq<char>, Seq<u8>>::Symbol("usg_upd"@)
            &&& event is LimitHit && event->LimitHit_meter_id == id ==> at && name
                == Topic::<Seq<char>, Seq<u8>>::Symbol("limit_hit"@)
            &&& event is DailyLimitSet && event->DailyLimitSet_meter_id == id ==> at && name
                == Topic::<Seq<char>, Seq<u8>>::Symbol("lmt_set"@)
            &&& event is EmergencyContactSet && event->EmergencyContactSet_meter_id == id
                ==> at && name
                == Topic::<Seq<char>, Seq<u8>>::Symbol("emg_set"@)
        }),
{
}

/// An event about the whole contract is addressed by the namespace and its name.
pub proof fn law_contract_events_are_named(event: EventModel)
    ensures
        ({
            let topics = event_topics(event);
            let named = topics.len() == 2 && topics[0] == Topic::<Seq<char>, Seq<u8>>::Symbol(
                "solargrid"@,
            );
            let name = topics[1];
            &&& event is AllowlistAdded ==> named && name == Topic::<Seq<char>, Seq<u8>>::Symbol(
                "alw_add"@,
            )
            &&& event is AllowlistRemoved ==> named && name == Topic::<Seq<char>, Seq<u8>>::Symbol(
                "alw_rem"@,
            )
            &&& event is OracleSet ==> named && name == Topic::<Seq<char>, Seq<u8>>::Symbol(
                "ora_set"@,
            )
            &&& event is OracleCleared ==> named && name == Topic::<Seq<char>, Seq<u8>>::Symbol(
                "ora_clr"@,
            )
            &&& event is Frozen ==> named && name == Topic::<Seq<char>, Seq<u8>>::Symbol(
                "frz_on"@,
            )
            &&& event is Unfrozen ==> named && name == Topic::<Seq<char>, Seq<u8>>::Symbol(
                "frz_off"@,
            )
            &&& event is Paused ==> named && name == Topic::<Seq<char>, Seq<u8>>::Symbol(
                "paused"@,
            )
            &&& event is Unpaused ==> named && name == Topic::<Seq<char>, Seq<u8>>::Symbol(
                "unpaused"@,
            )
            &&& event is PauseExpired ==> named && name == Topic::<Seq<char>, Seq<u8>>::Symbol(
                "unpaused"@,
            )
            &&& event is RefundLimitSet ==> named && name == Topic::<Seq<char>, Seq<u8>>::Symbol(
                "rfnd_lim"@,
            )
            &&& event is Distributed ==> named && name == Topic::<Seq<char>, Seq<u8>>::Symbol(
                "distrib"@,
            )
        }),
{
}

/// The remaining events are addressed each in its own way.
pub proof fn law_other_events_are_addressed(
    id: Seq<u8>,
    who: Address,
    token: Address,
    amount: i128,
)
    ensures
        event_topics(Event::BatchSkipped { meter_id: id }) == seq![
            Topic::<Seq<char>, Seq<u8>>::Symbol("btch_skip"@),
            Topic::Symbol("solargrid"@),
            Topic::Meter(id),
        ],
        event_topics(Event::RevenueWithdrawn { provider: who, token, amount }) == seq![
            Topic::<Seq<char>, Seq<u8>>::Symbol("rev_wdrl"@),
            Topic::Symbol("solargrid"@),
            Topic::Address(who),
        ],
        event_topics(Event::AdminWithdrawn { admin: who, amount }) == seq![
            Topic::<Seq<char>, Seq<u8>>::Symbol("solargrid"@),
            Topic::Symbol("adm_wdrl"@),
            Topic::Address(who),
        ],
        event_topics(Event::EmergencyWithdrawn { to: who, amount }) == seq![
            Topic::<Seq<char>, Seq<u8>>::Symbol("WITHDRAW"@),
            Topic::Symbol("emergency"@),
        ],
        event_topics(Event::MeterExpired { meter_id: id }) == seq![
            Topic::<Seq<char>, Seq<u8>>::Symbol("METER"@),
            Topic::Symbol("expired"@),
        ],
{
}

/// The parts of an address are in the order in which they are given.
pub proof fn law_topics_are_in_order(
    first: Seq<char>,
    second: Seq<char>,
    id: Seq<u8>,
    who: Address,
)
    ensures
        named_topics(second) == seq![
            Topic::<Seq<char>, Seq<u8>>::Symbol("solargrid"@),
            Topic::Symbol(second),
        ],
        meter_topics(second, id) == seq![
            Topic::<Seq<char>, Seq<u8>>::Symbol("solargrid"@),
            Topic::Symbol(second),
            Topic::Meter(id),
        ],
        account_topics(first, second, who) == seq![
            Topic::<Seq<char>, Seq<u8>>::Symbol(first),
            Topic::Symbol(second),
            Topic::Address(who),
        ],
{
}

/// An event is read with the fields that it was published with.
pub proof fn law_events_are_read_as_published(event: Event<Text>)
    ensures
        ({
            let read = event.deep_view();
            &&& event is MeterRegistered ==> read is MeterRegistered
                && read->MeterRegistered_meter_id == event->MeterRegistered_meter_id.bytes@
                && read->MeterRegistered_owner == event->MeterRegistered_owner
            &&& event is BatchSkipped ==> read is BatchSkipped
                && read->BatchSkipped_meter_id == event->BatchSkipped_meter_id.bytes@
            &&& event is MetadataUpdated ==> read is MetadataUpdated
                && read->MetadataUpdated_meter_id == event->MetadataUpdated_meter_id.bytes@
            &&& event is MeterDeregistered ==> read is MeterDeregistered
                && read->MeterDeregistered_meter_id == event->MeterDeregistered_meter_id.bytes@
            &&& event is OwnershipTransferred ==> read is OwnershipTransferred
                && read->OwnershipTransferred_meter_id
                == event->OwnershipTransferred_meter_id.bytes@
                && read->OwnershipTransferred_old_owner
                == event->OwnershipTransferred_old_owner
                && read->OwnershipTransferred_new_owner == event->OwnershipTransferred_new_owner
            &&& event is AllowlistAdded ==> read is AllowlistAdded
                && read->AllowlistAdded_owner == event->AllowlistAdded_owner
            &&& event is AllowlistRemoved ==> read is AllowlistRemoved
                && read->AllowlistRemoved_owner == event->AllowlistRemoved_owner
            &&& event is OracleSet ==> read is OracleSet
                && read->OracleSet_old_oracle == event->OracleSet_old_oracle
                && read->OracleSet_oracle == event->OracleSet_oracle
            &&& event is OracleCleared ==> read is OracleCleared
            &&& event is Frozen ==> read is Frozen
            &&& event is Unfrozen ==> read is Unfrozen
            &&& event is Paused ==> read is Paused
                && read->Paused_admin == event->Paused_admin
                && read->Paused_at == event->Paused_at
                && read->Paused_duration == event->Paused_duration
            &&& event is Unpaused ==> read is Unpaused
                && read->Unpaused_admin == event->Unpaused_admin
                && read->Unpaused_at == event->Unpaused_at
            &&& event is PauseExpired ==> read is PauseExpired
                && read->PauseExpired_at == event->PauseExpired_at
            &&& event is PaymentReceived ==> read is PaymentReceived
                && read->PaymentReceived_meter_id == event->PaymentReceived_meter_id.bytes@
                && read->PaymentReceived_payer == event->PaymentReceived_payer
                && read->PaymentReceived_token == event->PaymentReceived_token
                && read->PaymentReceived_amount == event->PaymentReceived_amount
                && read->PaymentReceived_plan == event->PaymentReceived_plan
                && (read->PaymentReceived_memo is Some <==> event->PaymentReceived_memo is Some)
            &&& event is PaymentReceived && event->PaymentReceived_memo is Some
                ==> read->PaymentReceived_memo->0 == event->PaymentReceived_memo->0.bytes@
            &&& event is PlanChanged ==> read is PlanChanged
                && read->PlanChanged_meter_id == event->PlanChanged_meter_id.bytes@
                && read->PlanChanged_old_plan == event->PlanChanged_old_plan
                && read->PlanChanged_plan == event->PlanChanged_plan
                && read->PlanChanged_at == event->PlanChanged_at
            &&& event is MeterActivated ==> read is MeterActivated
                && read->MeterActivated_meter_id == event->MeterActivated_meter_id.bytes@
            &&& event is MeterDeactivated ==> read is MeterDeactivated
                && read->MeterDeactivated_meter_id == event->MeterDeactivated_meter_id.bytes@
            &&& event is PaymentRefunded ==> read is PaymentRefunded
                && read->PaymentRefunded_meter_id == event->PaymentRefunded_meter_id.bytes@
                && read->PaymentRefunded_recipient == event->PaymentRefunded_recipient
                && read->PaymentRefunded_amount == event->PaymentRefunded_amount
                && read->PaymentRefunded_reason == event->PaymentRefunded_reason.bytes@
                && read->PaymentRefunded_balance == event->PaymentRefunded_balance
                && read->PaymentRefunded_at == event->PaymentRefunded_at
            &&& event is RefundLimitSet ==> read is RefundLimitSet
                && read->RefundLimitSet_old_limit == event->RefundLimitSet_old_limit
                && read->RefundLimitSet_limit == event->RefundLimitSet_limit
            &&& event is DelegateAdded ==> read is DelegateAdded
                && read->DelegateAdded_meter_id == event->DelegateAdded_meter_id.bytes@
                && read->DelegateAdded_delegate == event->DelegateAdded_delegate
            &&& event is DelegateRemoved ==> read is DelegateRemoved
                && read->DelegateRemoved_meter_id == event->DelegateRemoved_meter_id.bytes@
                && read->DelegateRemoved_delegate == event->DelegateRemoved_delegate
            &&& event is RevenueWithdrawn ==> read is RevenueWithdrawn
                && read->RevenueWithdrawn_provider == event->RevenueWithdrawn_provider
                && read->RevenueWithdrawn_token == event->RevenueWithdrawn_token
                && read->RevenueWithdrawn_amount == event->RevenueWithdrawn_amount
            &&& event is AdminWithdrawn ==> read is AdminWithdrawn
                && read->AdminWithdrawn_admin == event->AdminWithdrawn_admin
                && read->AdminWithdrawn_amount == event->AdminWithdrawn_amount
            &&& event is UsageUpdated ==> read is UsageUpdated
                && read->UsageUpdated_meter_id == event->UsageUpdated_meter_id.bytes@
                && read->UsageUpdated_units == event->UsageUpdated_units
                && read->UsageUpdated_cost == event->UsageUpdated_cost
            &&& event is LimitHit ==> read is LimitHit
                && read->LimitHit_meter_id == event->LimitHit_meter_id.bytes@
                && read->LimitHit_daily_limit == event->LimitHit_daily_limit
                && read->LimitHit_day_spent == event->LimitHit_day_spent
                && read->LimitHit_cost == event->LimitHit_cost
            &&& event is DailyLimitSet ==> read is DailyLimitSet
                && read->DailyLimitSet_meter_id == event->DailyLimitSet_meter_id.bytes@
                && read->DailyLimitSet_old_limit == event->DailyLimitSet_old_limit
                && read->DailyLimitSet_limit == event->DailyLimitSet_limit
            &&& event is EmergencyContactSet ==> read is EmergencyContactSet
                && read->EmergencyContactSet_meter_id
                == event->EmergencyContactSet_meter_id.bytes@
                && read->EmergencyContactSet_contact == event->EmergencyContactSet_contact
            &&& event is Distributed ==> read is Distributed
                && read->Distributed_amount == event->Distributed_amount
            &&& event is EmergencyWithdrawn ==> read is EmergencyWithdrawn
                && read->EmergencyWithdrawn_to == event->EmergencyWithdrawn_to
                && read->EmergencyWithdrawn_amount == event->EmergencyWithdrawn_amount
            &&& event is MeterExpired ==> read is MeterExpired
                && read->MeterExpired_meter_id == event->MeterExpired_meter_id.bytes@
        }),
{
}

/// The parts of an address are read as they are held.
pub proof fn law_topics_are_read_as_held(name: &'static str, id: Text, who: Address)
    ensures
        Topic::<&'static str, Text>::Symbol(name).deep_view() == Topic::<
            Seq<char>,
            Seq<u8>,
        >::Symbol(name@),
        Topic::<&'static str, Text>::Meter(id).deep_view() == Topic::<Seq<char>, Seq<u8>>::Meter(
            id.bytes@,
        ),
        Topic::<&'static str, Text>::Address(who).deep_view() == Topic::<
            Seq<char>,
            Seq<u8>,
        >::Address(who),
{
}

/// Every error is reported under its own number.
pub proof fn law_errors_have_their_numbers()
    ensures
        ContractError::NotInitialized.number() == 1,
        ContractError::AlreadyInitialized.number() == 2,
        ContractError::MeterNotFound.number() == 3,
        ContractError::MeterAlreadyExists.number() == 4,
        ContractError::Unauthorized.number() == 5,
        ContractError::InvalidAmount.number() == 6,
        ContractError::OwnerNotAllowlisted.number() == 7,
        ContractError::OracleNotSet.number() == 8,
        ContractError::InsufficientProviderRevenue.number() == 9,
        ContractError::BatchTooLarge.number() == 10,
        ContractError::CannotActivateWithoutBalance.number() == 11,
        ContractError::InsufficientBalance.number() == 12,
        ContractError::CollaboratorAlreadyExists.number() == 13,
        ContractError::DailyLimitReached.number() == 14,
        ContractError::MeterNotActive.number() == 15,
        ContractError::ContractNotFrozen.number() == 16,
        ContractError::ContractFrozen.number() == 17,
        ContractError::CollaboratorNotFound.number() == 18,
        ContractError::RefundExceedsPayments.number() == 19,
        ContractError::RefundLimitExceeded.number() == 20,
        ContractError::ContractPaused.number() == 21,
        ContractError::AlreadyPaused.number() == 22,
        ContractError::NotPaused.number() == 23,
        ContractError::MemoTooLong.number() == 24,
        ContractError::InvalidMultisigConfiguration.number() == 25,
        ContractError::ProposalNotFound.number() == 26,
        ContractError::ProposalExpired.number() == 27,
        ContractError::ProposalAlreadyApproved.number() == 28,
        ContractError::ProposalNotReady.number() == 29,
        ContractError::ReentrantCall.number() == 30,
        ContractError::InvalidMetadata.number() == 31,
{
}

} // verus!

//! The events that describe the outcome of a batch.

use soroban_sdk::Address;
use vstd::prelude::*;

verus! {

/// An all-or-nothing batch was executed.
#[derive(Copy, Clone, Debug, PartialEq, Eq, Structural)]
pub struct BatchExecutedEvent {
    pub batch_id: u64,
    pub total_sent: i128,
}

/// A best-effort batch was executed.
#[derive(Copy, Clone, Debug, PartialEq, Eq, Structural)]
pub struct BatchPartialEvent {
    pub batch_id: u64,
    pub success_count: u32,
    pub fail_count: u32,
}

/// A best-effort batch paid one operation.
#[derive(Debug, PartialEq, Eq)]
pub struct PaymentSentEvent {
    pub recipient: Address,
    pub amount: i128,
}

/// A best-effort batch skipped one operation.
#[derive(Debug, PartialEq, Eq)]
pub struct PaymentSkippedEvent {
    pub recipient: Address,
    pub amount: i128,
}

/// One entry of the program's event log.
#[derive(Debug, PartialEq, Eq)]
pub enum ContractEvent {
    BatchExecuted(BatchExecutedEvent),
    BatchPartial(BatchPartialEvent),
    PaymentSent(PaymentSentEvent),
    PaymentSkipped(PaymentSkippedEvent),
}

impl Clone for ContractEvent {
    fn clone(&self) -> (duplicate: Self)
        ensures
            duplicate == *self,
    {
        match self {
            ContractEvent::BatchExecuted(e) => ContractEvent::BatchExecuted(*e),
            ContractEvent::BatchPartial(e) => ContractEvent::BatchPartial(*e),
            ContractEvent::PaymentSent(e) => ContractEvent::PaymentSent(
                PaymentSentEvent { recipient: e.recipient.clone(), amount: e.amount },
            ),
            ContractEvent::PaymentSkipped(e) => ContractEvent::PaymentSkipped(
                PaymentSkippedEvent { recipient: e.recipient.clone(), amount: e.amount },
            ),
        }
    }
}

} // verus!

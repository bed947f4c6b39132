//! What the program persists: the key space and the batch record.

use soroban_sdk::Address;
use vstd::prelude::*;

verus! {

/// The keys of the program's persisted state. Each variant is a namespace of
/// its own, so no two entries can collide.
#[derive(Copy, Clone, Debug, PartialEq, Eq, Structural)]
pub enum DataKey {
    /// The administrator. It is present exactly when the program has been initialized.
    Admin,
    /// The number of batches persisted so far.
    BatchCount,
    /// The record of the batch with this id.
    Batch(u64),
    /// The replay-protection counter.
    Sequence,
}

/// How a batch ended.
#[derive(Copy, Clone, Debug, PartialEq, Eq, Structural)]
pub enum BatchStatus {
    /// Every operation was paid.
    Completed,
    /// Some operations were paid and some were skipped.
    Partial,
    /// No operation was paid.
    RolledBack,
}

impl BatchStatus {
    /// The status that the two counts of a batch derive: completed when
    /// nothing failed, rolled back when nothing succeeded, else partial.
    pub open spec fn derived_from(success_count: u32, fail_count: u32) -> BatchStatus {
        if fail_count == 0 {
            BatchStatus::Completed
        } else if success_count == 0 {
            BatchStatus::RolledBack
        } else {
            BatchStatus::Partial
        }
    }

    /// Derives the status of a batch from its counts of paid and skipped operations.
    pub fn derive(success_count: u32, fail_count: u32) -> (status: BatchStatus)
        ensures
            status == BatchStatus::derived_from(success_count, fail_count),
            fail_count == 0 ==> status == BatchStatus::Completed,
            fail_count != 0 && success_count == 0 ==> status == BatchStatus::RolledBack,
            fail_count != 0 && success_count != 0 ==> status == BatchStatus::Partial,
    {
        if fail_count == 0 {
            BatchStatus::Completed
        } else if success_count == 0 {
            BatchStatus::RolledBack
        } else {
            BatchStatus::Partial
        }
    }

    /// The short symbol under which the status is stored.
    pub open spec fn spec_symbol(&self) -> Seq<char> {
        match self {
            BatchStatus::Completed => "completed"@,
            BatchStatus::Partial => "partial"@,
            BatchStatus::RolledBack => "rollbck"@,
        }
    }

    /// The short symbol under which the status is stored.
    pub fn symbol(&self) -> (symbol: &'static str)
        ensures
            symbol@ == self.spec_symbol(),
    {
        match self {
            BatchStatus::Completed => "completed",
            BatchStatus::Partial => "partial",
            BatchStatus::RolledBack => "rollbck",
        }
    }
}

/// The persisted outcome of one batch. A record is written once, under the
/// batch's id, and never changed.
#[derive(Debug, PartialEq, Eq)]
pub struct BatchRecord {
    /// The payer.
    pub sender: Address,
    /// The token that was moved.
    pub token: Address,
    /// The sum of the amounts that reached recipients.
    pub total_sent: i128,
    /// The number of operations that were paid.
    pub success_count: u32,
    /// The number of operations that were skipped.
    pub fail_count: u32,
    /// Derived from the two counts.
    pub status: BatchStatus,
}

impl Clone for BatchRecord {
    fn clone(&self) -> (duplicate: Self)
        ensures
            duplicate == *self,
    {
        BatchRecord {
            sender: self.sender.clone(),
            token: self.token.clone(),
            total_sent: self.total_sent,
            success_count: self.success_count,
            fail_count: self.fail_count,
            status: self.status,
        }
    }
}

} // verus!

//! Bulk payments from one payer to many recipients, as a verified state
//! machine: replay-protected sequencing, overflow-checked totals, an
//! all-or-nothing and a best-effort execution strategy, and the batch records,
//! transfer instructions and events that make every outcome auditable.
//!
//! The hosting ledger keeps the storage, moves the tokens and checks
//! authorization. This library decides: every entry point maps the program's
//! state and a request to the next state, and a failed request leaves the state
//! exactly as it was.

pub mod contract;
pub mod error;
pub mod event;
pub mod executor;
pub mod host;
pub mod laws;
pub mod payment;
pub mod record;
pub mod validator;

pub use contract::{BulkPaymentContract, ContractState};
pub use error::ContractError;
pub use event::{
    BatchExecutedEvent, BatchPartialEvent, ContractEvent, PaymentSentEvent, PaymentSkippedEvent,
};
pub use executor::{distribute_all, distribute_best_effort, Distribution};
pub use payment::{PaymentOp, Transfer};
pub use record::{BatchRecord, BatchStatus, DataKey};
pub use validator::{check_batch_size, validate_atomic, validate_best_effort, MAX_BATCH_SIZE};

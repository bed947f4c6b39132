//! The failure kinds of the program and their numeric codes.

use vstd::prelude::*;

verus! {

/// Why an entry point refused a request. Every failure is fatal to the whole
/// invocation: nothing the invocation did is kept.
#[derive(Copy, Clone, Debug, PartialEq, Eq, Structural)]
pub enum ContractError {
    /// `initialize` was called although an administrator exists.
    AlreadyInitialized,
    /// An administrative operation was attempted before `initialize`.
    NotInitialized,
    /// The authorization of the claimed identity was not proven.
    Unauthorized,
    /// The batch holds no payment operation.
    EmptyBatch,
    /// The batch holds more operations than `MAX_BATCH_SIZE`.
    BatchTooLarge,
    /// An all-or-nothing batch holds an amount that is not strictly positive.
    InvalidAmount,
    /// The sum of the amounts leaves the range of `i128`.
    AmountOverflow,
    /// The expected sequence value is not the current counter.
    SequenceMismatch,
    /// No batch record is stored under the id.
    BatchNotFound,
}

impl ContractError {
    /// The code by which the error is known outside the program.
    pub open spec fn spec_code(&self) -> u32 {
        match self {
            ContractError::AlreadyInitialized => 1,
            ContractError::NotInitialized => 2,
            ContractError::Unauthorized => 3,
            ContractError::EmptyBatch => 4,
            ContractError::BatchTooLarge => 5,
            ContractError::InvalidAmount => 6,
            ContractError::AmountOverflow => 7,
            ContractError::SequenceMismatch => 8,
            ContractError::BatchNotFound => 9,
        }
    }

    /// The numeric code of the error: the stable wire form of a failure.
    #[verifier::when_used_as_spec(spec_code)]
    pub fn code(&self) -> (code: u32)
        ensures
            code == self.spec_code(),
            1 <= code <= 9,
    {
        match self {
            ContractError::AlreadyInitialized => 1,
            ContractError::NotInitialized => 2,
            ContractError::Unauthorized => 3,
            ContractError::EmptyBatch => 4,
            ContractError::BatchTooLarge => 5,
            ContractError::InvalidAmount => 6,
            ContractError::AmountOverflow => 7,
            ContractError::SequenceMismatch => 8,
            ContractError::BatchNotFound => 9,
        }
    }

    /// The error kind that a numeric code stands for, if it stands for one.
    pub fn from_code(code: u32) -> (kind: Option<ContractError>)
        ensures
            match kind {
                Some(e) => e.spec_code() == code,
                None => code < 1 || code > 9,
            },
    {
        match code {
            1 => Some(ContractError::AlreadyInitialized),
            2 => Some(ContractError::NotInitialized),
            3 => Some(ContractError::Unauthorized),
            4 => Some(ContractError::EmptyBatch),
            5 => Some(ContractError::BatchTooLarge),
            6 => Some(ContractError::InvalidAmount),
            7 => Some(ContractError::AmountOverflow),
            8 => Some(ContractError::SequenceMismatch),
            9 => Some(ContractError::BatchNotFound),
            _ => None,
        }
    }
}

} // verus!

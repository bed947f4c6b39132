//! The payment validator: the shape of a batch, the validity of its amounts,
//! and its overflow-checked total.

use crate::error::ContractError;
use crate::payment::PaymentOp;
use vstd::prelude::*;

verus! {

/// The largest number of operations that one batch may hold.
pub const MAX_BATCH_SIZE: u32 = 100;

/// The sum of the first `n` amounts.
pub open spec fn amount_sum(ops: Seq<PaymentOp>, n: int) -> int
    decreases n,
{
    if n <= 0 {
        0
    } else {
        amount_sum(ops, n - 1) + ops[n - 1].amount
    }
}

/// The sum of all amounts of a batch.
pub open spec fn total_amount(ops: Seq<PaymentOp>) -> int {
    amount_sum(ops, ops.len() as int)
}

/// The sum of the strictly positive amounts among the first `n`.
pub open spec fn positive_sum(ops: Seq<PaymentOp>, n: int) -> int
    decreases n,
{
    if n <= 0 {
        0
    } else if ops[n - 1].amount > 0 {
        positive_sum(ops, n - 1) + ops[n - 1].amount
    } else {
        positive_sum(ops, n - 1)
    }
}

/// The sum of the strictly positive amounts of a batch.
pub open spec fn positive_total(ops: Seq<PaymentOp>) -> int {
    positive_sum(ops, ops.len() as int)
}

/// The number of strictly positive amounts among the first `n`.
pub open spec fn positive_count(ops: Seq<PaymentOp>, n: int) -> int
    decreases n,
{
    if n <= 0 {
        0
    } else if ops[n - 1].amount > 0 {
        positive_count(ops, n - 1) + 1
    } else {
        positive_count(ops, n - 1)
    }
}

/// Whether every amount of a batch is strictly positive.
pub open spec fn all_positive(ops: Seq<PaymentOp>) -> bool {
    forall|k: int| 0 <= k < ops.len() ==> (#[trigger] ops[k]).amount > 0
}

/// The error that the number of operations alone raises, if any.
pub open spec fn size_error(len: nat) -> Option<ContractError> {
    if len == 0 {
        Some(ContractError::EmptyBatch)
    } else if len > MAX_BATCH_SIZE {
        Some(ContractError::BatchTooLarge)
    } else {
        None
    }
}

/// What validation of an all-or-nothing batch returns. After the size, an
/// amount that is not strictly positive, wherever it stands in the list, is
/// named before an overflow of the sum.
pub open spec fn atomic_validation(ops: Seq<PaymentOp>) -> Result<i128, ContractError> {
    match size_error(ops.len()) {
        Some(e) => Err(e),
        None => if !all_positive(ops) {
            Err(ContractError::InvalidAmount)
        } else if total_amount(ops) > i128::MAX {
            Err(ContractError::AmountOverflow)
        } else {
            Ok(total_amount(ops) as i128)
        },
    }
}

/// What validation of a best-effort batch returns: the amount to pull, which
/// is the sum of the strictly positive amounts.
pub open spec fn best_effort_validation(ops: Seq<PaymentOp>) -> Result<i128, ContractError> {
    match size_error(ops.len()) {
        Some(e) => Err(e),
        None => if positive_total(ops) > i128::MAX {
            Err(ContractError::AmountOverflow)
        } else {
            Ok(positive_total(ops) as i128)
        },
    }
}

/// Over strictly positive amounts the sum never shrinks as operations are
/// added, and it is never negative.
pub proof fn lemma_amount_sum_grows(ops: Seq<PaymentOp>, k: int, n: int)
    requires
        0 <= k <= n <= ops.len(),
        all_positive(ops),
    ensures
        0 <= amount_sum(ops, k) <= amount_sum(ops, n),
    decreases n,
{
    if k < n {
        lemma_amount_sum_grows(ops, k, n - 1);
    } else if n > 0 {
        lemma_amount_sum_grows(ops, k - 1, n - 1);
    }
}

/// The sum of the positive amounts never shrinks as operations are added,
/// and it is never negative.
pub proof fn lemma_positive_sum_grows(ops: Seq<PaymentOp>, k: int, n: int)
    requires
        k <= n,
    ensures
        0 <= positive_sum(ops, k) <= positive_sum(ops, n),
    decreases n - k,
{
    if k < n {
        lemma_positive_sum_grows(ops, k, n - 1);
    } else {
        lemma_positive_sum_nonnegative(ops, k);
    }
}

proof fn lemma_positive_sum_nonnegative(ops: Seq<PaymentOp>, n: int)
    ensures
        0 <= positive_sum(ops, n),
    decreases n,
{
    if n > 0 {
        lemma_positive_sum_nonnegative(ops, n - 1);
    }
}

/// Checks the number of operations of a batch: at least one, at most `MAX_BATCH_SIZE`.
pub fn check_batch_size(len: usize) -> (r: Result<(), ContractError>)
    ensures
        match r {
            Ok(()) => size_error(len as nat) is None,
            Err(e) => size_error(len as nat) == Some(e),
        },
        len == 0 <==> r == Err::<(), ContractError>(ContractError::EmptyBatch),
        len > MAX_BATCH_SIZE <==> r == Err::<(), ContractError>(ContractError::BatchTooLarge),
{
    if len == 0 {
        Err(ContractError::EmptyBatch)
    } else if len > MAX_BATCH_SIZE as usize {
        Err(ContractError::BatchTooLarge)
    } else {
        Ok(())
    }
}

/// Validates an all-or-nothing batch and returns its total. Every amount
/// must be strictly positive, and the sum is taken with overflow-checked
/// addition. All amounts are looked at before the sum is taken, so an amount
/// that is not positive is reported even where the amounts before it overflow.
pub fn validate_atomic(payments: &Vec<PaymentOp>) -> (r: Result<i128, ContractError>)
    ensures
        r == atomic_validation(payments@),
        r is Ok <==> {
            &&& 1 <= payments@.len() <= MAX_BATCH_SIZE
            &&& all_positive(payments@)
            &&& total_amount(payments@) <= i128::MAX
        },
        r matches Ok(total) ==> total == total_amount(payments@),
        r == Err::<i128, ContractError>(ContractError::InvalidAmount) <==> {
            &&& 1 <= payments@.len() <= MAX_BATCH_SIZE
            &&& exists|k: int| 0 <= k < payments@.len() && payments@[k].amount <= 0
        },
        r == Err::<i128, ContractError>(ContractError::AmountOverflow) <==> {
            &&& 1 <= payments@.len() <= MAX_BATCH_SIZE
            &&& all_positive(payments@)
            &&& total_amount(payments@) > i128::MAX
        },
{
    match check_batch_size(payments.len()) {
        Err(e) => {
            return Err(e);
        },
        Ok(()) => {},
    }
    let mut i: usize = 0;
    while i < payments.len()
        invariant
            i <= payments.len(),
            size_error(payments@.len()) is None,
            forall|k: int| 0 <= k < i ==> (#[trigger] payments@[k]).amount > 0,
        decreases payments.len() - i,
    {
        if payments[i].amount <= 0 {
            return Err(ContractError::InvalidAmount);
        }
        i += 1;
    }
    let mut total: i128 = 0;
    let mut i: usize = 0;
    while i < payments.len()
        invariant
            i <= payments.len(),
            size_error(payments@.len()) is None,
            all_positive(payments@),
            total == amount_sum(payments@, i as int),
        decreases payments.len() - i,
    {
        match total.checked_add(payments[i].amount) {
            Some(sum) => {
                total = sum;
            },
            None => {
                proof {
                    lemma_amount_sum_grows(payments@, 0, i as int);
                    assert(amount_sum(payments@, i + 1) > i128::MAX);
                    lemma_amount_sum_grows(payments@, i + 1, payments@.len() as int);
                }
                return Err(ContractError::AmountOverflow);
            },
        }
        i += 1;
    }
    Ok(total)
}

/// Validates a best-effort batch and returns the amount to pull: the sum of
/// its strictly positive amounts, taken with overflow-checked addition.
/// Amounts that are not positive are left out of the sum and do not fail the call.
pub fn validate_best_effort(payments: &Vec<PaymentOp>) -> (r: Result<i128, ContractError>)
    ensures
        r == best_effort_validation(payments@),
        r is Ok <==> {
            &&& 1 <= payments@.len() <= MAX_BATCH_SIZE
            &&& positive_total(payments@) <= i128::MAX
        },
        r matches Ok(total) ==> total == positive_total(payments@) && 0 <= total,
{
    match check_batch_size(payments.len()) {
        Err(e) => {
            return Err(e);
        },
        Ok(()) => {},
    }
    let mut total: i128 = 0;
    let mut i: usize = 0;
    while i < payments.len()
        invariant
            i <= payments.len(),
            size_error(payments@.len()) is None,
            total == positive_sum(payments@, i as int),
            0 <= total,
        decreases payments.len() - i,
    {
        let amount: i128 = payments[i].amount;
        if amount > 0 {
            match total.checked_add(amount) {
                Some(sum) => {
                    total = sum;
                },
                None => {
                    proof {
                        assert(positive_sum(payments@, i + 1) > i128::MAX);
                        lemma_positive_sum_grows(payments@, i + 1, payments@.len() as int);
                    }
                    return Err(ContractError::AmountOverflow);
                },
            }
        }
        i += 1;
    }
    Ok(total)
}

} // verus!

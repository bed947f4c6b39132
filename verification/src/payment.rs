//! Payment operations, and the transfer instructions that a batch hands to the
//! token mechanism.

use soroban_sdk::Address;
use vstd::prelude::*;

verus! {

/// One instruction of a batch: pay `amount` to `recipient`.
#[derive(Debug, PartialEq, Eq)]
pub struct PaymentOp {
    pub recipient: Address,
    pub amount: i128,
}

impl Clone for PaymentOp {
    fn clone(&self) -> (duplicate: Self)
        ensures
            duplicate == *self,
    {
        PaymentOp { recipient: self.recipient.clone(), amount: self.amount }
    }
}

/// One call of the token mechanism that a batch asks for. The program's own
/// holding between the pull and the payouts is its custody; it is one end of
/// every transfer.
#[derive(Debug, PartialEq, Eq)]
pub enum Transfer {
    /// Move `amount` of `token` from `payer` into custody.
    Pull { token: Address, payer: Address, amount: i128 },
    /// Move `amount` of `token` from custody to `recipient`.
    Payout { token: Address, recipient: Address, amount: i128 },
    /// Move `amount` of `token` from custody back to `payer`.
    Refund { token: Address, payer: Address, amount: i128 },
}

impl Clone for Transfer {
    fn clone(&self) -> (duplicate: Self)
        ensures
            duplicate == *self,
    {
        match self {
            Transfer::Pull { token, payer, amount } => Transfer::Pull {
                token: token.clone(),
                payer: payer.clone(),
                amount: *amount,
            },
            Transfer::Payout { token, recipient, amount } => Transfer::Payout {
                token: token.clone(),
                recipient: recipient.clone(),
                amount: *amount,
            },
            Transfer::Refund { token, payer, amount } => Transfer::Refund {
                token: token.clone(),
                payer: payer.clone(),
                amount: *amount,
            },
        }
    }
}

impl Transfer {
    /// The amount that the transfer moves.
    pub open spec fn spec_amount(&self) -> i128 {
        match self {
            Transfer::Pull { amount, .. } => *amount,
            Transfer::Payout { amount, .. } => *amount,
            Transfer::Refund { amount, .. } => *amount,
        }
    }

    /// The amount that the transfer moves.
    #[verifier::when_used_as_spec(spec_amount)]
    pub fn amount(&self) -> (amount: i128)
        ensures
            amount == self.spec_amount(),
    {
        match self {
            Transfer::Pull { amount, .. } => *amount,
            Transfer::Payout { amount, .. } => *amount,
            Transfer::Refund { amount, .. } => *amount,
        }
    }

    /// What the transfer adds to the payer's balance: a pull takes its amount,
    /// a refund gives its amount back, a payout leaves the payer alone.
    pub open spec fn payer_change(&self) -> int {
        match self {
            Transfer::Pull { amount, .. } => -(*amount as int),
            Transfer::Payout { .. } => 0,
            Transfer::Refund { amount, .. } => *amount as int,
        }
    }

    /// What the transfer adds to the program's custody.
    pub open spec fn custody_change(&self) -> int {
        match self {
            Transfer::Pull { amount, .. } => *amount as int,
            Transfer::Payout { amount, .. } => -(*amount as int),
            Transfer::Refund { amount, .. } => -(*amount as int),
        }
    }

    /// What the transfer delivers to a recipient.
    pub open spec fn delivery(&self) -> int {
        match self {
            Transfer::Payout { amount, .. } => *amount as int,
            _ => 0,
        }
    }
}

/// The net change of the payer's balance over a run of transfers.
pub open spec fn payer_balance_delta(transfers: Seq<Transfer>) -> int
    decreases transfers.len(),
{
    if transfers.len() == 0 {
        0
    } else {
        payer_balance_delta(transfers.drop_last()) + transfers.last().payer_change()
    }
}

/// The net change of the program's custody over a run of transfers.
pub open spec fn custody_delta(transfers: Seq<Transfer>) -> int
    decreases transfers.len(),
{
    if transfers.len() == 0 {
        0
    } else {
        custody_delta(transfers.drop_last()) + transfers.last().custody_change()
    }
}

/// The sum that a run of transfers delivers to recipients.
pub open spec fn delivered_total(transfers: Seq<Transfer>) -> int
    decreases transfers.len(),
{
    if transfers.len() == 0 {
        0
    } else {
        delivered_total(transfers.drop_last()) + transfers.last().delivery()
    }
}

/// Appending one transfer to a run adds its part to each of the three sums.
pub proof fn lemma_flows_push(transfers: Seq<Transfer>, next: Transfer)
    ensures
        payer_balance_delta(transfers.push(next)) == payer_balance_delta(transfers)
            + next.payer_change(),
        custody_delta(transfers.push(next)) == custody_delta(transfers) + next.custody_change(),
        delivered_total(transfers.push(next)) == delivered_total(transfers) + next.delivery(),
{
    assert(transfers.push(next).drop_last() =~= transfers);
}

} // verus!

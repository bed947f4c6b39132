//! The two transfer strategies. Each turns a validated batch into the
//! transfer instructions for the token mechanism, in the order in which they
//! are to be carried out, together with what the batch record and the events need.

use crate::event::{ContractEvent, PaymentSentEvent, PaymentSkippedEvent};
use crate::payment::{
    custody_delta, delivered_total, lemma_flows_push, payer_balance_delta, PaymentOp, Transfer,
};
use crate::record::{BatchRecord, BatchStatus};
use crate::validator::{amount_sum, total_amount};
use soroban_sdk::Address;
use vstd::prelude::*;

verus! {

/// The transfer that pays operation `i` of a batch.
pub open spec fn payout_of(token: Address, ops: Seq<PaymentOp>, i: int) -> Transfer {
    Transfer::Payout { token, recipient: ops[i].recipient, amount: ops[i].amount }
}

/// The transfers of an all-or-nothing batch: one pull of the total, then one
/// payout for each operation, in list order.
pub open spec fn atomic_transfers(
    sender: Address,
    token: Address,
    ops: Seq<PaymentOp>,
    total: i128,
) -> Seq<Transfer> {
    seq![Transfer::Pull { token, payer: sender, amount: total }] + Seq::new(
        ops.len(),
        |i: int| payout_of(token, ops, i),
    )
}

/// The record of an all-or-nothing batch: every operation succeeded.
pub open spec fn atomic_record(
    sender: Address,
    token: Address,
    ops: Seq<PaymentOp>,
    total: i128,
) -> BatchRecord {
    BatchRecord {
        sender,
        token,
        total_sent: total,
        success_count: ops.len() as u32,
        fail_count: 0,
        status: BatchStatus::Completed,
    }
}

/// The best-effort rule for one operation: it is paid when its amount is
/// strictly positive and no larger than what is left in custody; otherwise it
/// is skipped.
pub open spec fn pays(amount: i128, remaining: int) -> bool {
    0 < amount && amount <= remaining
}

/// The sum that the first `n` operations of a best-effort batch receive when
/// `total` was pulled into custody.
pub open spec fn sent_sum(ops: Seq<PaymentOp>, total: int, n: int) -> int
    decreases n,
{
    if n <= 0 {
        0
    } else if pays(ops[n - 1].amount, total - sent_sum(ops, total, n - 1)) {
        sent_sum(ops, total, n - 1) + ops[n - 1].amount
    } else {
        sent_sum(ops, total, n - 1)
    }
}

/// Whether a best-effort batch pays operation `i`: what is left in custody
/// when its turn comes is `total` less what the operations before it received.
pub open spec fn is_paid(ops: Seq<PaymentOp>, total: int, i: int) -> bool {
    pays(ops[i].amount, total - sent_sum(ops, total, i))
}

/// The number of operations among the first `n` that a best-effort batch pays.
pub open spec fn paid_count(ops: Seq<PaymentOp>, total: int, n: int) -> int
    decreases n,
{
    if n <= 0 {
        0
    } else if is_paid(ops, total, n - 1) {
        paid_count(ops, total, n - 1) + 1
    } else {
        paid_count(ops, total, n - 1)
    }
}

/// The payouts of a best-effort batch for its first `n` operations: one for
/// each paid operation, in list order.
pub open spec fn payouts(token: Address, ops: Seq<PaymentOp>, total: int, n: int) -> Seq<Transfer>
    decreases n,
{
    if n <= 0 {
        Seq::empty()
    } else if is_paid(ops, total, n - 1) {
        payouts(token, ops, total, n - 1).push(payout_of(token, ops, n - 1))
    } else {
        payouts(token, ops, total, n - 1)
    }
}

/// What is left in custody after a best-effort batch has gone through all its operations.
pub open spec fn leftover(ops: Seq<PaymentOp>, total: int) -> int {
    total - sent_sum(ops, total, ops.len() as int)
}

/// The transfers of a best-effort batch: one pull of `total`, the payouts of
/// the paid operations, and a refund of the leftover where one is left.
pub open spec fn best_effort_transfers(
    sender: Address,
    token: Address,
    ops: Seq<PaymentOp>,
    total: i128,
) -> Seq<Transfer> {
    let paid = seq![Transfer::Pull { token, payer: sender, amount: total }] + payouts(
        token,
        ops,
        total as int,
        ops.len() as int,
    );
    if leftover(ops, total as int) > 0 {
        paid.push(
            Transfer::Refund { token, payer: sender, amount: leftover(ops, total as int) as i128 },
        )
    } else {
        paid
    }
}

/// The event that a best-effort batch emits for operation `i`.
pub open spec fn payment_event(ops: Seq<PaymentOp>, total: int, i: int) -> ContractEvent {
    if is_paid(ops, total, i) {
        ContractEvent::PaymentSent(
            PaymentSentEvent { recipient: ops[i].recipient, amount: ops[i].amount },
        )
    } else {
        ContractEvent::PaymentSkipped(
            PaymentSkippedEvent { recipient: ops[i].recipient, amount: ops[i].amount },
        )
    }
}

/// The events of a best-effort batch for its operations: one for each, in list order.
pub open spec fn payment_events(ops: Seq<PaymentOp>, total: int) -> Seq<ContractEvent> {
    Seq::new(ops.len(), |i: int| payment_event(ops, total, i))
}

/// The record of a best-effort batch for which `total` was pulled.
pub open spec fn best_effort_record(
    sender: Address,
    token: Address,
    ops: Seq<PaymentOp>,
    total: i128,
) -> BatchRecord {
    let paid = paid_count(ops, total as int, ops.len() as int);
    BatchRecord {
        sender,
        token,
        total_sent: sent_sum(ops, total as int, ops.len() as int) as i128,
        success_count: paid as u32,
        fail_count: (ops.len() - paid) as u32,
        status: BatchStatus::derived_from(paid as u32, (ops.len() - paid) as u32),
    }
}

/// What a best-effort batch sends stays between nothing and what was pulled,
/// and it pays no more operations than it has.
pub proof fn lemma_sent_sum_bounds(ops: Seq<PaymentOp>, total: int, n: int)
    requires
        0 <= n,
    ensures
        0 <= sent_sum(ops, total, n),
        0 <= total ==> sent_sum(ops, total, n) <= total,
        0 <= paid_count(ops, total, n) <= n,
    decreases n,
{
    if n > 0 {
        lemma_sent_sum_bounds(ops, total, n - 1);
    }
}

/// What the pull and the first `n` payouts of an all-or-nothing batch move:
/// the payer gives `total`, the recipients get the first `n` amounts, and
/// custody holds the difference.
pub proof fn lemma_atomic_flows(
    sender: Address,
    token: Address,
    ops: Seq<PaymentOp>,
    total: i128,
    n: int,
)
    requires
        0 <= n <= ops.len(),
    ensures
        ({
            let transfers = seq![Transfer::Pull { token, payer: sender, amount: total }]
                + Seq::new(n as nat, |i: int| payout_of(token, ops, i));
            &&& payer_balance_delta(transfers) == -total
            &&& delivered_total(transfers) == amount_sum(ops, n)
            &&& custody_delta(transfers) == total - amount_sum(ops, n)
        }),
    decreases n,
{
    let pull = Transfer::Pull { token, payer: sender, amount: total };
    let transfers = seq![pull] + Seq::new(n as nat, |i: int| payout_of(token, ops, i));
    if n == 0 {
        lemma_flows_push(Seq::empty(), pull);
        assert(transfers =~= Seq::<Transfer>::empty().push(pull));
    } else {
        lemma_atomic_flows(sender, token, ops, total, n - 1);
        let before = seq![pull] + Seq::new((n - 1) as nat, |i: int| payout_of(token, ops, i));
        lemma_flows_push(before, payout_of(token, ops, n - 1));
        assert(transfers =~= before.push(payout_of(token, ops, n - 1)));
    }
}

/// What the pull and the payouts for the first `n` operations of a
/// best-effort batch move: the payer gives `total`, the recipients get what
/// was sent, and custody holds the difference.
pub proof fn lemma_best_effort_flows(
    sender: Address,
    token: Address,
    ops: Seq<PaymentOp>,
    total: i128,
    n: int,
)
    requires
        0 <= n <= ops.len(),
    ensures
        ({
            let transfers = seq![Transfer::Pull { token, payer: sender, amount: total }]
                + payouts(token, ops, total as int, n);
            &&& payer_balance_delta(transfers) == -total
            &&& delivered_total(transfers) == sent_sum(ops, total as int, n)
            &&& custody_delta(transfers) == total - sent_sum(ops, total as int, n)
        }),
    decreases n,
{
    let pull = Transfer::Pull { token, payer: sender, amount: total };
    let transfers = seq![pull] + payouts(token, ops, total as int, n);
    if n == 0 {
        lemma_flows_push(Seq::empty(), pull);
        assert(transfers =~= Seq::<Transfer>::empty().push(pull));
    } else {
        lemma_best_effort_flows(sender, token, ops, total, n - 1);
        if is_paid(ops, total as int, n - 1) {
            let before = seq![pull] + payouts(token, ops, total as int, n - 1);
            lemma_flows_push(before, payout_of(token, ops, n - 1));
            assert(transfers =~= before.push(payout_of(token, ops, n - 1)));
        }
    }
}

/// The best-effort strategy conserves what it pulls: whatever amount that is
/// not negative was pulled, the payer ends debited exactly what was sent, the
/// recipients hold exactly that, and custody ends as it began.
pub proof fn lemma_best_effort_conserves(
    sender: Address,
    token: Address,
    ops: Seq<PaymentOp>,
    total: i128,
)
    requires
        0 <= total,
    ensures
        ({
            let transfers = best_effort_transfers(sender, token, ops, total);
            let sent = sent_sum(ops, total as int, ops.len() as int);
            &&& 0 <= sent <= total
            &&& payer_balance_delta(transfers) == -sent
            &&& delivered_total(transfers) == sent
            &&& custody_delta(transfers) == 0
        }),
{
    let n = ops.len() as int;
    lemma_best_effort_flows(sender, token, ops, total, n);
    lemma_sent_sum_bounds(ops, total as int, n);
    if leftover(ops, total as int) > 0 {
        lemma_flows_push(
            seq![Transfer::Pull { token, payer: sender, amount: total }]
                + payouts(token, ops, total as int, n),
            Transfer::Refund { token, payer: sender, amount: leftover(ops, total as int) as i128 },
        );
    }
}

/// The all-or-nothing strategy: pull `total` from the payer, then pay every
/// operation its amount, in list order.
pub fn distribute_all(
    sender: &Address,
    token: &Address,
    payments: &Vec<PaymentOp>,
    total: i128,
) -> (transfers: Vec<Transfer>)
    ensures
        transfers@ == atomic_transfers(*sender, *token, payments@, total),
        payer_balance_delta(transfers@) == -total,
        delivered_total(transfers@) == total_amount(payments@),
        custody_delta(transfers@) == total - total_amount(payments@),
{
    let mut transfers: Vec<Transfer> = Vec::new();
    transfers.push(Transfer::Pull { token: token.clone(), payer: sender.clone(), amount: total });
    let mut i: usize = 0;
    while i < payments.len()
        invariant
            i <= payments.len(),
            transfers@ == seq![Transfer::Pull { token: *token, payer: *sender, amount: total }]
                + Seq::new(i as nat, |j: int| payout_of(*token, payments@, j)),
        decreases payments.len() - i,
    {
        let op = &payments[i];
        transfers.push(
            Transfer::Payout {
                token: token.clone(),
                recipient: op.recipient.clone(),
                amount: op.amount,
            },
        );
        i += 1;
        assert(transfers@ =~= seq![Transfer::Pull { token: *token, payer: *sender, amount: total }]
            + Seq::new(i as nat, |j: int| payout_of(*token, payments@, j)));
    }
    proof {
        lemma_atomic_flows(*sender, *token, payments@, total, payments@.len() as int);
    }
    transfers
}

/// What the best-effort strategy decided for a batch.
pub struct Distribution {
    /// The pull, the payouts and the refund, in the order in which they are to be carried out.
    pub transfers: Vec<Transfer>,
    /// One event for each operation, in list order.
    pub events: Vec<ContractEvent>,
    /// The sum of the amounts that were paid.
    pub total_sent: i128,
    /// The number of operations that were paid.
    pub success_count: u32,
    /// The number of operations that were skipped.
    pub fail_count: u32,
}

/// The best-effort strategy: pull `total` from the payer, go through the
/// operations in list order, pay each one whose amount is strictly positive
/// and covered by what is left, skip the others, and refund what is left at the end.
pub fn distribute_best_effort(
    sender: &Address,
    token: &Address,
    payments: &Vec<PaymentOp>,
    total: i128,
) -> (d: Distribution)
    requires
        payments@.len() <= u32::MAX,
    ensures
        d.transfers@ == best_effort_transfers(*sender, *token, payments@, total),
        d.events@ == payment_events(payments@, total as int),
        d.total_sent == sent_sum(payments@, total as int, payments@.len() as int),
        d.success_count == paid_count(payments@, total as int, payments@.len() as int),
        d.success_count + d.fail_count == payments@.len(),
        0 <= total ==> {
            &&& 0 <= d.total_sent <= total
            &&& payer_balance_delta(d.transfers@) == -d.total_sent
            &&& delivered_total(d.transfers@) == d.total_sent
            &&& custody_delta(d.transfers@) == 0
        },
{
    let mut transfers: Vec<Transfer> = Vec::new();
    let mut events: Vec<ContractEvent> = Vec::new();
    transfers.push(Transfer::Pull { token: token.clone(), payer: sender.clone(), amount: total });
    let mut remaining: i128 = total;
    let mut total_sent: i128 = 0;
    let mut success_count: u32 = 0;
    let mut fail_count: u32 = 0;
    let mut i: usize = 0;
    while i < payments.len()
        invariant
            i <= payments.len() <= u32::MAX,
            total_sent == sent_sum(payments@, total as int, i as int),
            0 <= total_sent,
            remaining == total - total_sent,
            success_count == paid_count(payments@, total as int, i as int),
            success_count + fail_count == i,
            transfers@ == seq![Transfer::Pull { token: *token, payer: *sender, amount: total }]
                + payouts(*token, payments@, total as int, i as int),
            events@ == Seq::new(i as nat, |j: int| payment_event(payments@, total as int, j)),
        decreases payments.len() - i,
    {
        let op = &payments[i];
        if op.amount <= 0 || remaining < op.amount {
            fail_count += 1;
            events.push(
                ContractEvent::PaymentSkipped(
                    PaymentSkippedEvent { recipient: op.recipient.clone(), amount: op.amount },
                ),
            );
        } else {
            transfers.push(
                Transfer::Payout {
                    token: token.clone(),
                    recipient: op.recipient.clone(),
                    amount: op.amount,
                },
            );
            remaining -= op.amount;
            total_sent += op.amount;
            success_count += 1;
            events.push(
                ContractEvent::PaymentSent(
                    PaymentSentEvent { recipient: op.recipient.clone(), amount: op.amount },
                ),
            );
        }
        i += 1;
        assert(transfers@ =~= seq![Transfer::Pull { token: *token, payer: *sender, amount: total }]
            + payouts(*token, payments@, total as int, i as int));
        assert(events@ =~= Seq::new(
            i as nat,
            |j: int| payment_event(payments@, total as int, j),
        ));
    }
    if remaining > 0 {
        transfers.push(
            Transfer::Refund { token: token.clone(), payer: sender.clone(), amount: remaining },
        );
    }
    proof {
        if 0 <= total {
            lemma_best_effort_conserves(*sender, *token, payments@, total);
        }
    }
    Distribution { transfers, events, total_sent, success_count, fail_count }
}

} // verus!

//! What holds of the program as a whole, proved from the contracts of its
//! entry points.

use crate::contract::{
    after_atomic, after_best_effort, atomic_verdict, best_effort_verdict, ContractState,
};
use crate::error::ContractError;
use crate::executor::{
    atomic_record, atomic_transfers, best_effort_record, best_effort_transfers, is_paid, leftover,
    lemma_atomic_flows, lemma_best_effort_conserves, lemma_sent_sum_bounds, paid_count, sent_sum,
};
use crate::payment::{custody_delta, delivered_total, payer_balance_delta, PaymentOp};
use crate::record::BatchStatus;
use crate::validator::{
    atomic_validation, best_effort_validation, lemma_amount_sum_grows, lemma_positive_sum_grows,
    positive_count, positive_sum, positive_total, total_amount, MAX_BATCH_SIZE,
};
use soroban_sdk::Address;
use vstd::prelude::*;

verus! {

/// The record of an all-or-nothing batch that went through: the total sent is
/// the sum of the submitted amounts, every operation counts as a success,
/// none as a failure, and the record lies under the batch's id.
pub proof fn lemma_atomic_batch_record(
    state: ContractState,
    sender: Address,
    token: Address,
    ops: Seq<PaymentOp>,
    expected: u64,
    authorized: bool,
)
    requires
        atomic_verdict(state, ops, expected, authorized) is Ok,
    ensures
        ({
            let total = atomic_verdict(state, ops, expected, authorized)->Ok_0;
            let post = after_atomic(state, sender, token, ops, total);
            let record = post.batches[state.next_id()];
            &&& post.batches.contains_key(state.next_id())
            &&& record.total_sent == total_amount(ops)
            &&& record.success_count == ops.len()
            &&& record.fail_count == 0
            &&& record.status == BatchStatus::Completed
            &&& record.sender == sender
            &&& record.token == token
        }),
{
    lemma_amount_sum_grows(ops, 0, ops.len() as int);
}

/// An all-or-nothing batch with an amount that is not strictly positive is
/// refused with `InvalidAmount`, wherever the amount stands and whatever the
/// other amounts add up to, once the request has passed the checks that come
/// before the amounts: the payer is authorized, the sequence value is
/// current, and the batch holds no more than `MAX_BATCH_SIZE` operations.
/// The entry point leaves the state unchanged on every error, so no record,
/// counter advance or transfer is left behind.
pub proof fn lemma_nonpositive_amount_is_refused(
    state: ContractState,
    ops: Seq<PaymentOp>,
    k: int,
)
    requires
        ops.len() <= MAX_BATCH_SIZE,
        0 <= k < ops.len(),
        ops[k].amount <= 0,
    ensures
        atomic_verdict(state, ops, state.sequence_value(), true) == Err::<i128, ContractError>(
            ContractError::InvalidAmount,
        ),
{
}

/// After a batch of either strategy has gone through, a second request with
/// the same expected sequence value is refused with `SequenceMismatch`,
/// whichever strategy it asks for and whatever it holds. The entry points
/// leave the state unchanged on every error, so the replay changes nothing.
pub proof fn lemma_replay_is_refused(
    state: ContractState,
    sender: Address,
    token: Address,
    ops: Seq<PaymentOp>,
    total: i128,
    replayed: Seq<PaymentOp>,
)
    requires
        state.sequence_value() < u64::MAX,
    ensures
        ({
            let post = after_atomic(state, sender, token, ops, total);
            let refused = Err::<i128, ContractError>(ContractError::SequenceMismatch);
            &&& atomic_verdict(post, replayed, state.sequence_value(), true) == refused
            &&& best_effort_verdict(post, replayed, state.sequence_value(), true) == refused
        }),
        ({
            let post = after_best_effort(state, sender, token, ops, total);
            let refused = Err::<i128, ContractError>(ContractError::SequenceMismatch);
            &&& atomic_verdict(post, replayed, state.sequence_value(), true) == refused
            &&& best_effort_verdict(post, replayed, state.sequence_value(), true) == refused
        }),
{
}

/// One id handed out: the batch counter went up by one, and `id` is its new value.
pub open spec fn hands_out(pre: ContractState, post: ContractState, id: u64) -> bool {
    &&& pre.batch_count_value() < u64::MAX
    &&& id == pre.batch_count_value() + 1
    &&& post.batch_count_value() == id
}

/// What the store looks like around one persisted batch: `id` was handed
/// out, and the records are those of before, unchanged, together with the
/// one under `id`.
pub open spec fn persists(pre: ContractState, post: ContractState, id: u64) -> bool {
    &&& hands_out(pre, post, id)
    &&& post.batches.dom() == pre.batches.dom().insert(id)
    &&& forall|other: u64|
        pre.batches.contains_key(other) && other != id ==> post.batches[other]
            == pre.batches[other]
}

/// The allocator hands out one id at each call.
pub proof fn lemma_allocator_hands_out(state: ContractState)
    requires
        state.batch_count_value() < u64::MAX,
    ensures
        hands_out(state, state.allocated(), state.next_id()),
{
}

/// Both strategies advance the sequence counter and the batch counter by
/// exactly one when a batch goes through, store the record under the new
/// batch id, and leave the administrator and the older records alone.
pub proof fn lemma_batch_advances_counters(
    state: ContractState,
    sender: Address,
    token: Address,
    ops: Seq<PaymentOp>,
    total: i128,
)
    requires
        state.sequence_value() < u64::MAX,
        state.batch_count_value() < u64::MAX,
    ensures
        ({
            let post = after_atomic(state, sender, token, ops, total);
            &&& post.sequence_value() == state.sequence_value() + 1
            &&& post.batch_count_value() == state.batch_count_value() + 1
            &&& post.admin == state.admin
            &&& persists(state, post, state.next_id())
        }),
        ({
            let post = after_best_effort(state, sender, token, ops, total);
            &&& post.sequence_value() == state.sequence_value() + 1
            &&& post.batch_count_value() == state.batch_count_value() + 1
            &&& post.admin == state.admin
            &&& persists(state, post, state.next_id())
        }),
{
    let atomic = after_atomic(state, sender, token, ops, total);
    assert(atomic.batches.dom() =~= state.batches.dom().insert(state.next_id()));
    let partial = after_best_effort(state, sender, token, ops, total);
    assert(partial.batches.dom() =~= state.batches.dom().insert(state.next_id()));
}

/// Over any run in which ids are handed out, by the allocator alone or by
/// batches that go through, the batch counter has grown by the number of
/// ids, the ids count up from the counter's first value without a gap, none
/// is 0, and each is above all that were handed out before it. From a
/// counter of 0, call number `k` returns `k`.
pub proof fn lemma_ids_count_up(states: Seq<ContractState>, ids: Seq<u64>)
    requires
        states.len() == ids.len() + 1,
        forall|k: int|
            0 <= k < ids.len() ==> hands_out(#[trigger] states[k], states[k + 1], ids[k]),
    ensures
        states.last().batch_count_value() == states[0].batch_count_value() + ids.len(),
        forall|k: int|
            0 <= k < ids.len() ==> #[trigger] ids[k] == states[0].batch_count_value() + k + 1,
        forall|k: int| 0 <= k < ids.len() ==> 1 <= #[trigger] ids[k],
        forall|j: int, k: int| 0 <= j < k < ids.len() ==> ids[j] < ids[k],
    decreases ids.len(),
{
    if ids.len() > 0 {
        let n = ids.len() - 1;
        let earlier_states = states.drop_last();
        let earlier_ids = ids.drop_last();
        assert forall|k: int| 0 <= k < earlier_ids.len() implies hands_out(
            #[trigger] earlier_states[k],
            earlier_states[k + 1],
            earlier_ids[k],
        ) by {
            assert(hands_out(states[k], states[k + 1], ids[k]));
        }
        lemma_ids_count_up(earlier_states, earlier_ids);
        assert(hands_out(states[n], states[n + 1], ids[n]));
        assert(earlier_states.last() == states[n]);
        assert(earlier_states[0] == states[0]);
        assert forall|k: int| 0 <= k < ids.len() implies #[trigger] ids[k]
            == states[0].batch_count_value() + k + 1 by {
            if k < n {
                assert(earlier_ids[k] == ids[k]);
            }
        }
    }
}

/// Over any run of persisted batches, where every record of the first state
/// lay under an id already handed out, each id is new to the store when it
/// is returned, so no record is ever overwritten and no id is returned
/// twice. Where the records of the first state were exactly those of the ids
/// handed out, they still are at the end: an id finds a record exactly when
/// it lies between 1 and the batch counter.
pub proof fn lemma_batch_ids_are_fresh(states: Seq<ContractState>, ids: Seq<u64>)
    requires
        states.len() == ids.len() + 1,
        forall|k: int|
            0 <= k < ids.len() ==> persists(#[trigger] states[k], states[k + 1], ids[k]),
    ensures
        states[0].ids_allocated() ==> states.last().ids_allocated(),
        states[0].ids_allocated() ==> forall|k: int|
            0 <= k < ids.len() ==> !(#[trigger] states[k]).batches.contains_key(ids[k]),
        states[0].ids_exact() ==> states.last().ids_exact(),
        forall|j: int, k: int| 0 <= j < k < ids.len() ==> ids[j] != ids[k],
    decreases ids.len(),
{
    assert forall|k: int| 0 <= k < ids.len() implies hands_out(
        #[trigger] states[k],
        states[k + 1],
        ids[k],
    ) by {
        assert(persists(states[k], states[k + 1], ids[k]));
    }
    lemma_ids_count_up(states, ids);
    if ids.len() > 0 {
        let n = ids.len() - 1;
        let earlier_states = states.drop_last();
        let earlier_ids = ids.drop_last();
        assert forall|k: int| 0 <= k < earlier_ids.len() implies persists(
            #[trigger] earlier_states[k],
            earlier_states[k + 1],
            earlier_ids[k],
        ) by {
            assert(persists(states[k], states[k + 1], ids[k]));
        }
        lemma_batch_ids_are_fresh(earlier_states, earlier_ids);
        assert(persists(states[n], states[n + 1], ids[n]));
        assert(earlier_states.last() == states[n]);
        assert(earlier_states[0] == states[0]);
        if states[0].ids_allocated() {
            assert forall|k: int| 0 <= k < ids.len() implies !(#[trigger] states[k])
                .batches.contains_key(ids[k]) by {
                if k < n {
                    assert(earlier_states[k] == states[k]);
                    assert(earlier_ids[k] == ids[k]);
                }
            }
        }
    }
}

/// The all-or-nothing strategy moves exactly the total: over the transfers of
/// a batch that went through, the payer is debited the sum of the amounts,
/// the recipients receive it, and custody ends as it began.
pub proof fn lemma_atomic_balances(sender: Address, token: Address, ops: Seq<PaymentOp>)
    requires
        atomic_validation(ops) is Ok,
    ensures
        ({
            let total = atomic_validation(ops)->Ok_0;
            let transfers = atomic_transfers(sender, token, ops, total);
            let record = atomic_record(sender, token, ops, total);
            &&& record.total_sent == total_amount(ops)
            &&& payer_balance_delta(transfers) == -record.total_sent
            &&& delivered_total(transfers) == record.total_sent
            &&& custody_delta(transfers) == 0
        }),
{
    let total = atomic_validation(ops)->Ok_0;
    lemma_amount_sum_grows(ops, 0, ops.len() as int);
    lemma_atomic_flows(sender, token, ops, total, ops.len() as int);
}

/// The refund invariant of the best-effort strategy: over the transfers of a
/// batch that went through, the payer is debited exactly the total sent,
/// which is what the recipients receive, and custody ends as it began. The
/// pull and the refund are the payer's only part in a batch, so this is the
/// payer's whole balance change wherever the payer is not among the paid
/// recipients.
pub proof fn lemma_best_effort_balances(sender: Address, token: Address, ops: Seq<PaymentOp>)
    requires
        best_effort_validation(ops) is Ok,
    ensures
        ({
            let total = best_effort_validation(ops)->Ok_0;
            let transfers = best_effort_transfers(sender, token, ops, total);
            let record = best_effort_record(sender, token, ops, total);
            &&& payer_balance_delta(transfers) == -record.total_sent
            &&& delivered_total(transfers) == record.total_sent
            &&& custody_delta(transfers) == 0
        }),
{
    let total = best_effort_validation(ops)->Ok_0;
    lemma_positive_sum_grows(ops, 0, ops.len() as int);
    lemma_best_effort_conserves(sender, token, ops, total);
}

/// Because a best-effort batch pulls the sum of all its strictly positive
/// amounts, what is left in custody always covers the next positive amount:
/// an operation is paid exactly when its amount is strictly positive, and is
/// never skipped for want of funds. So the total sent is the amount pulled,
/// the successes are the positive amounts, and nothing is left to refund.
pub proof fn lemma_best_effort_pays_every_positive_amount(ops: Seq<PaymentOp>)
    ensures
        forall|i: int|
            0 <= i < ops.len() ==> (#[trigger] is_paid(ops, positive_total(ops), i)
                <==> ops[i].amount > 0),
        sent_sum(ops, positive_total(ops), ops.len() as int) == positive_total(ops),
        paid_count(ops, positive_total(ops), ops.len() as int) == positive_count(
            ops,
            ops.len() as int,
        ),
        leftover(ops, positive_total(ops)) == 0,
{
    let total = positive_total(ops);
    assert forall|i: int| 0 <= i < ops.len() implies (#[trigger] is_paid(ops, total, i)
        <==> ops[i].amount > 0) by {
        lemma_paid_is_positive(ops, i);
        lemma_positive_sum_grows(ops, i + 1, ops.len() as int);
    }
    lemma_paid_is_positive(ops, ops.len() as int);
}

/// With the sum of the positive amounts in custody, the first `n` operations
/// receive the positive amounts among them.
proof fn lemma_paid_is_positive(ops: Seq<PaymentOp>, n: int)
    requires
        0 <= n <= ops.len(),
    ensures
        sent_sum(ops, positive_total(ops), n) == positive_sum(ops, n),
        paid_count(ops, positive_total(ops), n) == positive_count(ops, n),
    decreases n,
{
    if n > 0 {
        lemma_paid_is_positive(ops, n - 1);
        lemma_positive_sum_grows(ops, n, ops.len() as int);
    }
}

/// The counts of a best-effort batch add up to the number of its operations,
/// and its status is derived from them: completed when nothing failed, rolled
/// back when nothing succeeded, else partial.
pub proof fn lemma_best_effort_record_counts(
    sender: Address,
    token: Address,
    ops: Seq<PaymentOp>,
    total: i128,
)
    requires
        ops.len() <= u32::MAX,
    ensures
        ({
            let record = best_effort_record(sender, token, ops, total);
            &&& record.success_count + record.fail_count == ops.len()
            &&& record.success_count == paid_count(ops, total as int, ops.len() as int)
            &&& record.fail_count == 0 ==> record.status == BatchStatus::Completed
            &&& record.fail_count != 0 && record.success_count == 0 ==> record.status
                == BatchStatus::RolledBack
            &&& record.fail_count != 0 && record.success_count != 0 ==> record.status
                == BatchStatus::Partial
        }),
{
    lemma_sent_sum_bounds(ops, total as int, ops.len() as int);
}

} // verus!

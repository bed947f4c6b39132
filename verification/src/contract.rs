//! The program: its persisted state, the sequence guard, the batch id
//! allocator, the record store, the administrative surface and the two
//! batch entry points.

use crate::error::ContractError;
use crate::event::{BatchExecutedEvent, BatchPartialEvent, ContractEvent};
use crate::executor::{
    atomic_record, atomic_transfers, best_effort_record, best_effort_transfers, distribute_all,
    distribute_best_effort, lemma_sent_sum_bounds, payment_events,
};
use crate::laws::{
    lemma_atomic_balances, lemma_best_effort_balances,
    lemma_best_effort_pays_every_positive_amount,
};
use crate::payment::{custody_delta, payer_balance_delta, PaymentOp, Transfer};
use crate::record::{BatchRecord, BatchStatus, DataKey};
use crate::validator::{
    all_positive, atomic_validation, best_effort_validation, lemma_positive_sum_grows,
    positive_count, positive_total, total_amount, validate_atomic, validate_best_effort,
    MAX_BATCH_SIZE,
};
use soroban_sdk::Address;
use std::collections::HashMap;
use vstd::prelude::*;

verus! {

broadcast use vstd::std_specs::hash::group_hash_axioms;

/// The program as mathematics: what is persisted under each key, and the two
/// logs of what the program asked of its host.
pub struct ContractState {
    /// The entry under `DataKey::Admin`.
    pub admin: Option<Address>,
    /// The entry under `DataKey::Sequence`.
    pub sequence: Option<u64>,
    /// The entry under `DataKey::BatchCount`.
    pub batch_count: Option<u64>,
    /// The entries under `DataKey::Batch`, by batch id.
    pub batches: Map<u64, BatchRecord>,
    /// Every transfer asked of the token mechanism, oldest first.
    pub transfers: Seq<Transfer>,
    /// Every event emitted, oldest first.
    pub events: Seq<ContractEvent>,
}

impl ContractState {
    /// The state of a program that has never been called.
    pub open spec fn empty() -> ContractState {
        ContractState {
            admin: None,
            sequence: None,
            batch_count: None,
            batches: Map::empty(),
            transfers: Seq::empty(),
            events: Seq::empty(),
        }
    }

    /// The sequence counter; an absent entry counts as 0.
    pub open spec fn sequence_value(self) -> u64 {
        match self.sequence {
            Some(value) => value,
            None => 0,
        }
    }

    /// The batch counter; an absent entry counts as 0.
    pub open spec fn batch_count_value(self) -> u64 {
        match self.batch_count {
            Some(value) => value,
            None => 0,
        }
    }

    /// Whether an entry is persisted under `key`.
    pub open spec fn holds(self, key: DataKey) -> bool {
        match key {
            DataKey::Admin => self.admin is Some,
            DataKey::BatchCount => self.batch_count is Some,
            DataKey::Batch(id) => self.batches.contains_key(id),
            DataKey::Sequence => self.sequence is Some,
        }
    }

    /// The state after initialization with `admin`: the administrator is set
    /// and both counters are zero.
    pub open spec fn initialized(self, admin: Address) -> ContractState {
        ContractState { admin: Some(admin), sequence: Some(0), batch_count: Some(0), ..self }
    }

    /// The state with the sequence counter advanced by one.
    pub open spec fn advanced(self) -> ContractState {
        ContractState { sequence: Some((self.sequence_value() + 1) as u64), ..self }
    }

    /// The state with the batch counter advanced by one.
    pub open spec fn allocated(self) -> ContractState {
        ContractState { batch_count: Some((self.batch_count_value() + 1) as u64), ..self }
    }

    /// The id that the next persisted batch gets.
    pub open spec fn next_id(self) -> u64 {
        (self.batch_count_value() + 1) as u64
    }

    /// The state after a batch has gone through: the sequence counter and the
    /// batch counter are each advanced by one, `record` is stored under the
    /// new id, and the batch's transfers and events are appended to the logs.
    pub open spec fn committed(
        self,
        record: BatchRecord,
        transfers: Seq<Transfer>,
        events: Seq<ContractEvent>,
    ) -> ContractState {
        ContractState {
            admin: self.admin,
            sequence: Some((self.sequence_value() + 1) as u64),
            batch_count: Some(self.next_id()),
            batches: self.batches.insert(self.next_id(), record),
            transfers: self.transfers + transfers,
            events: self.events + events,
        }
    }

    /// Whether every stored record lies under an id that the batch counter has handed out.
    pub open spec fn ids_allocated(self) -> bool {
        forall|id: u64| self.batches.contains_key(id) ==> 1 <= id <= self.batch_count_value()
    }

    /// Whether the stored records are exactly those of the ids handed out:
    /// one under each id from 1 to the batch counter, and none elsewhere.
    /// It holds of a program that has never been called, initialization
    /// keeps it where no record is stored yet, and every batch keeps it.
    pub open spec fn ids_exact(self) -> bool {
        forall|id: u64| self.batches.contains_key(id) <==> 1 <= id <= self.batch_count_value()
    }
}

/// What the administrator check returns: the program must be initialized, and
/// the administrator's authorization proven.
pub open spec fn admin_verdict(state: ContractState, authorized: bool) -> Result<
    (),
    ContractError,
> {
    if state.admin is None {
        Err(ContractError::NotInitialized)
    } else if !authorized {
        Err(ContractError::Unauthorized)
    } else {
        Ok(())
    }
}

/// Whether an all-or-nothing batch goes through, and with which total. The
/// checks come in this order: the payer's authorization, the sequence value,
/// the size of the batch, the sign of its amounts, the range of their sum.
pub open spec fn atomic_verdict(
    state: ContractState,
    ops: Seq<PaymentOp>,
    expected: u64,
    authorized: bool,
) -> Result<i128, ContractError> {
    if !authorized {
        Err(ContractError::Unauthorized)
    } else if expected != state.sequence_value() {
        Err(ContractError::SequenceMismatch)
    } else {
        atomic_validation(ops)
    }
}

/// Whether a best-effort batch goes through, and with which amount to pull.
/// The checks come in the same order as for an all-or-nothing batch.
pub open spec fn best_effort_verdict(
    state: ContractState,
    ops: Seq<PaymentOp>,
    expected: u64,
    authorized: bool,
) -> Result<i128, ContractError> {
    if !authorized {
        Err(ContractError::Unauthorized)
    } else if expected != state.sequence_value() {
        Err(ContractError::SequenceMismatch)
    } else {
        best_effort_validation(ops)
    }
}

/// The state after an all-or-nothing batch with the validated `total` has gone through.
pub open spec fn after_atomic(
    state: ContractState,
    sender: Address,
    token: Address,
    ops: Seq<PaymentOp>,
    total: i128,
) -> ContractState {
    state.committed(
        atomic_record(sender, token, ops, total),
        atomic_transfers(sender, token, ops, total),
        seq![
            ContractEvent::BatchExecuted(
                BatchExecutedEvent { batch_id: state.next_id(), total_sent: total },
            ),
        ],
    )
}

/// The state after a best-effort batch for which `total` was pulled has gone through.
pub open spec fn after_best_effort(
    state: ContractState,
    sender: Address,
    token: Address,
    ops: Seq<PaymentOp>,
    total: i128,
) -> ContractState {
    let record = best_effort_record(sender, token, ops, total);
    state.committed(
        record,
        best_effort_transfers(sender, token, ops, total),
        payment_events(ops, total as int).push(
            ContractEvent::BatchPartial(
                BatchPartialEvent {
                    batch_id: state.next_id(),
                    success_count: record.success_count,
                    fail_count: record.fail_count,
                },
            ),
        ),
    )
}

/// One instance of the bulk payment program: the entries of its persisted
/// key space, and the logs of the transfers and events that its batches
/// produced. The host carries out the transfers in log order within the same
/// invocation; if one of them fails, the host discards the invocation as a whole.
pub struct BulkPaymentContract {
    /// The administrator, present once the program is initialized.
    pub admin: Option<Address>,
    /// The sequence counter, absent until first written.
    pub sequence: Option<u64>,
    /// The batch counter, absent until first written.
    pub batch_count: Option<u64>,
    /// The batch records by id.
    pub batches: HashMap<u64, BatchRecord>,
    /// The transfers asked of the token mechanism, oldest first.
    pub transfers: Vec<Transfer>,
    /// The events emitted, oldest first.
    pub events: Vec<ContractEvent>,
}

impl View for BulkPaymentContract {
    type V = ContractState;

    open spec fn view(&self) -> ContractState {
        ContractState {
            admin: self.admin,
            sequence: self.sequence,
            batch_count: self.batch_count,
            batches: self.batches@,
            transfers: self.transfers@,
            events: self.events@,
        }
    }
}

impl BulkPaymentContract {
    /// A program that has never been called: nothing is persisted, nothing logged.
    pub fn new() -> (contract: Self)
        ensures
            contract@ == ContractState::empty(),
            contract@.ids_allocated(),
            contract@.ids_exact(),
    {
        BulkPaymentContract {
            admin: None,
            sequence: None,
            batch_count: None,
            batches: HashMap::new(),
            transfers: Vec::new(),
            events: Vec::new(),
        }
    }

    /// Whether an entry is persisted under `key`.
    pub fn has(&self, key: &DataKey) -> (present: bool)
        ensures
            present == self@.holds(*key),
    {
        match key {
            DataKey::Admin => self.admin.is_some(),
            DataKey::BatchCount => self.batch_count.is_some(),
            DataKey::Batch(id) => self.batches.contains_key(id),
            DataKey::Sequence => self.sequence.is_some(),
        }
    }

    /// Sets the administrator and zeroes both counters. Fails with
    /// `AlreadyInitialized`, and changes nothing, when an administrator exists.
    pub fn initialize(&mut self, admin: Address) -> (r: Result<(), ContractError>)
        ensures
            match r {
                Ok(()) => old(self)@.admin is None && final(self)@ == old(self)@.initialized(admin),
                Err(e) => {
                    &&& e == ContractError::AlreadyInitialized
                    &&& old(self)@.admin is Some
                    &&& final(self)@ == old(self)@
                },
            },
            r is Ok && (forall|id: u64| !old(self)@.batches.contains_key(id))
                ==> final(self)@.ids_exact(),
    {
        if self.has(&DataKey::Admin) {
            return Err(ContractError::AlreadyInitialized);
        }
        self.admin = Some(admin);
        self.batch_count = Some(0);
        self.sequence = Some(0);
        Ok(())
    }

    /// Replaces the administrator. `authorized` says whether the current
    /// administrator's authorization is proven. Fails with `NotInitialized`
    /// when there is no administrator, else with `Unauthorized` when
    /// `authorized` is false; a failure changes nothing.
    pub fn set_admin(&mut self, new_admin: Address, authorized: bool) -> (r: Result<
        (),
        ContractError,
    >)
        ensures
            r == admin_verdict(old(self)@, authorized),
            r is Ok ==> final(self)@ == (ContractState { admin: Some(new_admin), ..old(self)@ }),
            r is Err ==> final(self)@ == old(self)@,
    {
        match self.require_admin(authorized) {
            Err(e) => {
                return Err(e);
            },
            Ok(()) => {},
        }
        self.admin = Some(new_admin);
        Ok(())
    }

    /// The current sequence counter, 0 before it was first written.
    pub fn get_sequence(&self) -> (sequence: u64)
        ensures
            sequence == self@.sequence_value(),
    {
        match self.sequence {
            Some(value) => value,
            None => 0,
        }
    }

    /// The record stored under `batch_id`. Fails with `BatchNotFound` when
    /// no batch was persisted under that id: where the records are exactly
    /// those of the ids handed out, that is for 0 and for every id above the
    /// batch counter, and for no other.
    pub fn get_batch(&self, batch_id: u64) -> (r: Result<BatchRecord, ContractError>)
        ensures
            match r {
                Ok(record) => self@.batches.contains_key(batch_id) && record
                    == self@.batches[batch_id],
                Err(e) => e == ContractError::BatchNotFound && !self@.batches.contains_key(
                    batch_id,
                ),
            },
            self@.ids_exact() ==> (r is Err <==> batch_id == 0 || batch_id
                > self@.batch_count_value()),
    {
        match self.batches.get(&batch_id) {
            Some(record) => Ok(record.clone()),
            None => Err(ContractError::BatchNotFound),
        }
    }

    /// The number of batches persisted so far.
    pub fn get_batch_count(&self) -> (count: u64)
        ensures
            count == self@.batch_count_value(),
    {
        match self.batch_count {
            Some(value) => value,
            None => 0,
        }
    }

    /// The administrator check: the program must be initialized, and
    /// `authorized` must say that the administrator's authorization is proven.
    pub fn require_admin(&self, authorized: bool) -> (r: Result<(), ContractError>)
        ensures
            r == admin_verdict(self@, authorized),
    {
        if self.admin.is_none() {
            return Err(ContractError::NotInitialized);
        }
        if !authorized {
            return Err(ContractError::Unauthorized);
        }
        Ok(())
    }

    /// The sequence guard. When `expected` is the current counter, the counter
    /// advances by one; otherwise the call fails with `SequenceMismatch` and
    /// changes nothing. So each value of the counter admits one call only.
    /// Only an advance needs room in the counter.
    pub fn check_and_advance_sequence(&mut self, expected: u64) -> (r: Result<(), ContractError>)
        requires
            expected == old(self)@.sequence_value() ==> old(self)@.sequence_value() < u64::MAX,
        ensures
            match r {
                Ok(()) => {
                    &&& expected == old(self)@.sequence_value()
                    &&& final(self)@ == old(self)@.advanced()
                },
                Err(e) => {
                    &&& e == ContractError::SequenceMismatch
                    &&& expected != old(self)@.sequence_value()
                    &&& final(self)@ == old(self)@
                },
            },
    {
        let current: u64 = self.get_sequence();
        if current != expected {
            return Err(ContractError::SequenceMismatch);
        }
        self.sequence = Some(current + 1);
        Ok(())
    }

    /// The batch id allocator: advances the batch counter by one and returns
    /// its new value. Ids start at 1 and are handed out once each.
    pub fn next_batch_id(&mut self) -> (id: u64)
        requires
            old(self)@.batch_count_value() < u64::MAX,
        ensures
            id == old(self)@.next_id(),
            id == old(self)@.batch_count_value() + 1,
            final(self)@ == old(self)@.allocated(),
    {
        let count: u64 = self.get_batch_count() + 1;
        self.batch_count = Some(count);
        count
    }

    /// Whether an all-or-nothing request would go through, and with which
    /// total. Nothing is changed. The checks come in this order: the payer's
    /// authorization, the sequence value, the size of the batch, its amounts.
    pub fn admit_batch(
        &self,
        payments: &Vec<PaymentOp>,
        expected_sequence: u64,
        authorized: bool,
    ) -> (r: Result<i128, ContractError>)
        ensures
            r == atomic_verdict(self@, payments@, expected_sequence, authorized),
    {
        if !authorized {
            return Err(ContractError::Unauthorized);
        }
        if self.get_sequence() != expected_sequence {
            return Err(ContractError::SequenceMismatch);
        }
        validate_atomic(payments)
    }

    /// Whether a best-effort request would go through, and with which amount
    /// to pull. Nothing is changed. The checks come in the same order as for
    /// an all-or-nothing request.
    pub fn admit_batch_partial(
        &self,
        payments: &Vec<PaymentOp>,
        expected_sequence: u64,
        authorized: bool,
    ) -> (r: Result<i128, ContractError>)
        ensures
            r == best_effort_verdict(self@, payments@, expected_sequence, authorized),
    {
        if !authorized {
            return Err(ContractError::Unauthorized);
        }
        if self.get_sequence() != expected_sequence {
            return Err(ContractError::SequenceMismatch);
        }
        validate_best_effort(payments)
    }

    /// The all-or-nothing batch. `authorized` says whether the payer's
    /// authorization is proven.
    ///
    /// The call goes through exactly when the payer is authorized,
    /// `expected_sequence` is the current sequence counter, the batch holds
    /// between one and `MAX_BATCH_SIZE` operations, every amount is strictly
    /// positive and their sum fits `i128`. Then the sequence counter advances,
    /// the total is pulled from the payer and every operation is paid in list
    /// order, the record is stored under the next batch id with status
    /// completed, a batch-executed event is emitted, and the id is returned.
    /// Otherwise the first of these checks that fails names the error, an
    /// amount that is not positive before an overflow, and the state stays as
    /// it was.
    ///
    /// A request that goes through needs room in both counters; a request
    /// that is refused is answered whatever the counters are.
    pub fn execute_batch(
        &mut self,
        sender: Address,
        token: Address,
        payments: Vec<PaymentOp>,
        expected_sequence: u64,
        authorized: bool,
    ) -> (r: Result<u64, ContractError>)
        requires
            atomic_verdict(old(self)@, payments@, expected_sequence, authorized) is Ok ==> {
                &&& old(self)@.sequence_value() < u64::MAX
                &&& old(self)@.batch_count_value() < u64::MAX
            },
        ensures
            match r {
                Ok(id) => {
                    &&& atomic_verdict(old(self)@, payments@, expected_sequence, authorized)
                        matches Ok(total)
                    &&& id == old(self)@.next_id()
                    &&& final(self)@ == after_atomic(old(self)@, sender, token, payments@, total)
                },
                Err(e) => {
                    &&& atomic_verdict(old(self)@, payments@, expected_sequence, authorized)
                        == Err::<i128, ContractError>(e)
                    &&& final(self)@ == old(self)@
                },
            },
            r matches Ok(id) ==> {
                let record = final(self)@.batches[id];
                let asked = final(self)@.transfers.skip(old(self)@.transfers.len() as int);
                &&& expected_sequence == old(self)@.sequence_value()
                &&& final(self)@.sequence_value() == old(self)@.sequence_value() + 1
                &&& final(self)@.batch_count_value() == old(self)@.batch_count_value() + 1
                &&& final(self)@.batches.contains_key(id)
                &&& old(self)@.ids_allocated() ==> {
                    &&& !old(self)@.batches.contains_key(id)
                    &&& final(self)@.ids_allocated()
                }
                &&& old(self)@.ids_exact() ==> final(self)@.ids_exact()
                &&& record.total_sent == total_amount(payments@)
                &&& record.success_count == payments@.len()
                &&& record.fail_count == 0
                &&& record.status == BatchStatus::Completed
                &&& record.sender == sender
                &&& record.token == token
                &&& payer_balance_delta(asked) == -record.total_sent
                &&& custody_delta(asked) == 0
            },
            r is Ok <==> {
                &&& authorized
                &&& expected_sequence == old(self)@.sequence_value()
                &&& 1 <= payments@.len() <= MAX_BATCH_SIZE
                &&& all_positive(payments@)
                &&& total_amount(payments@) <= i128::MAX
            },
            authorized && expected_sequence == old(self)@.sequence_value() && 1 <= payments@.len()
                <= MAX_BATCH_SIZE && !all_positive(payments@) ==> r == Err::<u64, ContractError>(
                ContractError::InvalidAmount,
            ),
    {
        let total: i128 = match self.admit_batch(&payments, expected_sequence, authorized) {
            Ok(total) => total,
            Err(e) => {
                return Err(e);
            },
        };
        // The request goes through: from here on nothing fails, and a failed
        // request has changed nothing. The guard finds the value current.
        match self.check_and_advance_sequence(expected_sequence) {
            Err(e) => {
                return Err(e);
            },
            Ok(()) => {},
        }
        let mut transfers = distribute_all(&sender, &token, &payments, total);
        self.transfers.append(&mut transfers);
        let batch_id = self.next_batch_id();
        let record = BatchRecord {
            sender,
            token,
            total_sent: total,
            success_count: payments.len() as u32,
            fail_count: 0,
            status: BatchStatus::Completed,
        };
        self.batches.insert(batch_id, record);
        self.events.push(
            ContractEvent::BatchExecuted(BatchExecutedEvent { batch_id, total_sent: total }),
        );
        proof {
            let post = after_atomic(old(self)@, sender, token, payments@, total);
            assert(self@.events =~= post.events);
            assert(self@ =~= post);
            assert(post.transfers.skip(old(self)@.transfers.len() as int)
                =~= atomic_transfers(sender, token, payments@, total));
            lemma_atomic_balances(sender, token, payments@);
        }
        Ok(batch_id)
    }

    /// The best-effort batch. `authorized` says whether the payer's
    /// authorization is proven.
    ///
    /// The call goes through exactly when the payer is authorized,
    /// `expected_sequence` is the current sequence counter, the batch holds
    /// between one and `MAX_BATCH_SIZE` operations, and the sum of its
    /// strictly positive amounts fits `i128`. Then the sequence counter
    /// advances, that sum is pulled from the payer, each operation is paid or
    /// skipped in list order, what is left is refunded, the record is stored
    /// under the next batch id with the status that its counts derive, the
    /// events are emitted, and the id is returned. Otherwise the first of
    /// these checks that fails names the error and the state stays as it was.
    ///
    /// A request that goes through needs room in both counters; a request
    /// that is refused is answered whatever the counters are.
    pub fn execute_batch_partial(
        &mut self,
        sender: Address,
        token: Address,
        payments: Vec<PaymentOp>,
        expected_sequence: u64,
        authorized: bool,
    ) -> (r: Result<u64, ContractError>)
        requires
            best_effort_verdict(old(self)@, payments@, expected_sequence, authorized) is Ok ==> {
                &&& old(self)@.sequence_value() < u64::MAX
                &&& old(self)@.batch_count_value() < u64::MAX
            },
        ensures
            match r {
                Ok(id) => {
                    &&& best_effort_verdict(old(self)@, payments@, expected_sequence, authorized)
                        matches Ok(total)
                    &&& id == old(self)@.next_id()
                    &&& final(self)@ == after_best_effort(
                        old(self)@,
                        sender,
                        token,
                        payments@,
                        total,
                    )
                },
                Err(e) => {
                    &&& best_effort_verdict(old(self)@, payments@, expected_sequence, authorized)
                        == Err::<i128, ContractError>(e)
                    &&& final(self)@ == old(self)@
                },
            },
            r matches Ok(id) ==> {
                let record = final(self)@.batches[id];
                let asked = final(self)@.transfers.skip(old(self)@.transfers.len() as int);
                &&& expected_sequence == old(self)@.sequence_value()
                &&& final(self)@.sequence_value() == old(self)@.sequence_value() + 1
                &&& final(self)@.batch_count_value() == old(self)@.batch_count_value() + 1
                &&& final(self)@.batches.contains_key(id)
                &&& old(self)@.ids_allocated() ==> {
                    &&& !old(self)@.batches.contains_key(id)
                    &&& final(self)@.ids_allocated()
                }
                &&& old(self)@.ids_exact() ==> final(self)@.ids_exact()
                &&& record.total_sent == positive_total(payments@)
                &&& record.success_count == positive_count(payments@, payments@.len() as int)
                &&& record.success_count + record.fail_count == payments@.len()
                &&& record.status == BatchStatus::derived_from(
                    record.success_count,
                    record.fail_count,
                )
                &&& record.sender == sender
                &&& record.token == token
                &&& payer_balance_delta(asked) == -record.total_sent
                &&& custody_delta(asked) == 0
            },
            r is Ok <==> {
                &&& authorized
                &&& expected_sequence == old(self)@.sequence_value()
                &&& 1 <= payments@.len() <= MAX_BATCH_SIZE
                &&& positive_total(payments@) <= i128::MAX
            },
    {
        let total: i128 = match self.admit_batch_partial(
            &payments,
            expected_sequence,
            authorized,
        ) {
            Ok(total) => total,
            Err(e) => {
                return Err(e);
            },
        };
        // The request goes through: from here on nothing fails, and a failed
        // request has changed nothing. The guard finds the value current.
        match self.check_and_advance_sequence(expected_sequence) {
            Err(e) => {
                return Err(e);
            },
            Ok(()) => {},
        }
        let mut outcome = distribute_best_effort(&sender, &token, &payments, total);
        proof {
            lemma_sent_sum_bounds(payments@, total as int, payments@.len() as int);
        }
        self.transfers.append(&mut outcome.transfers);
        let status = BatchStatus::derive(outcome.success_count, outcome.fail_count);
        let batch_id = self.next_batch_id();
        let record = BatchRecord {
            sender,
            token,
            total_sent: outcome.total_sent,
            success_count: outcome.success_count,
            fail_count: outcome.fail_count,
            status,
        };
        self.batches.insert(batch_id, record);
        self.events.append(&mut outcome.events);
        self.events.push(
            ContractEvent::BatchPartial(
                BatchPartialEvent {
                    batch_id,
                    success_count: outcome.success_count,
                    fail_count: outcome.fail_count,
                },
            ),
        );
        proof {
            let post = after_best_effort(old(self)@, sender, token, payments@, total);
            assert(self@ =~= post);
            assert(post.transfers.skip(old(self)@.transfers.len() as int)
                =~= best_effort_transfers(sender, token, payments@, total));
            lemma_positive_sum_grows(payments@, 0, payments@.len() as int);
            lemma_best_effort_balances(sender, token, payments@);
            lemma_best_effort_pays_every_positive_amount(payments@);
        }
        Ok(batch_id)
    }
}

} // verus!

//! The program driven as a ledger would drive it: requests go in, and the
//! transfers that a batch asks for are carried out on a real token.

use bulk_payment::{
    BatchRecord, BatchStatus, BulkPaymentContract, ContractError, PaymentOp, Transfer,
};
use soroban_sdk::testutils::{Address as _, EnvTestConfig};
use soroban_sdk::token::{Client as TokenClient, StellarAssetClient};
use soroban_sdk::{Address, Env};

// A failure reaches the caller as its numeric code only:
//
//   AlreadyInitialized = 1  -> Error(Contract, #1)
//   NotInitialized     = 2  -> Error(Contract, #2)
//   EmptyBatch         = 4  -> Error(Contract, #4)
//   BatchTooLarge      = 5  -> Error(Contract, #5)
//   InvalidAmount      = 6  -> Error(Contract, #6)
//   SequenceMismatch   = 8  -> Error(Contract, #8)
//   BatchNotFound      = 9  -> Error(Contract, #9)

// ---- Helpers ----

/// Plays the ledger's part around one program: every caller is authorized,
/// a refused request aborts with its code, and the transfers of an accepted
/// batch are carried out on the token, with `custody` as the program's holding.
struct Client {
    env: Env,
    custody: Address,
    contract: BulkPaymentContract,
    settled: usize,
}

fn abort<T>(error: ContractError) -> T {
    panic!("HostError: Error(Contract, #{})", error.code())
}

impl Client {
    fn initialize(&mut self, admin: &Address) {
        if let Err(e) = self.contract.initialize(admin.clone()) {
            abort::<()>(e);
        }
    }

    fn execute_batch(
        &mut self,
        sender: &Address,
        token: &Address,
        payments: &Vec<PaymentOp>,
        expected_sequence: &u64,
    ) -> u64 {
        let result = self.contract.execute_batch(
            sender.clone(),
            token.clone(),
            payments.clone(),
            *expected_sequence,
            true,
        );
        match result {
            Ok(batch_id) => {
                self.settle();
                batch_id
            }
            Err(e) => abort(e),
        }
    }

    fn execute_batch_partial(
        &mut self,
        sender: &Address,
        token: &Address,
        payments: &Vec<PaymentOp>,
        expected_sequence: &u64,
    ) -> u64 {
        let result = self.contract.execute_batch_partial(
            sender.clone(),
            token.clone(),
            payments.clone(),
            *expected_sequence,
            true,
        );
        match result {
            Ok(batch_id) => {
                self.settle();
                batch_id
            }
            Err(e) => abort(e),
        }
    }

    fn settle(&mut self) {
        for transfer in &self.contract.transfers[self.settled..] {
            match transfer {
                Transfer::Pull { token, payer, amount } => {
                    TokenClient::new(&self.env, token).transfer(payer, &self.custody, amount)
                }
                Transfer::Payout { token, recipient, amount } => {
                    TokenClient::new(&self.env, token).transfer(&self.custody, recipient, amount)
                }
                Transfer::Refund { token, payer, amount } => {
                    TokenClient::new(&self.env, token).transfer(&self.custody, payer, amount)
                }
            }
        }
        self.settled = self.contract.transfers.len();
    }

    fn get_sequence(&self) -> u64 {
        self.contract.get_sequence()
    }

    fn get_batch(&self, batch_id: &u64) -> BatchRecord {
        match self.contract.get_batch(*batch_id) {
            Ok(record) => record,
            Err(e) => abort(e),
        }
    }

    fn get_batch_count(&self) -> u64 {
        self.contract.get_batch_count()
    }
}

fn setup() -> (Env, Address, Address, Client) {
    // No snapshot file is wanted when the environment goes away.
    let env = Env::new_with_config(EnvTestConfig { capture_snapshot_at_drop: false });
    env.mock_all_auths();

    let token_admin = Address::generate(&env);
    let token_id = env.register_stellar_asset_contract_v2(token_admin.clone()).address();
    let sender = Address::generate(&env);
    StellarAssetClient::new(&env, &token_id).mint(&sender, &1_000_000);

    let admin = Address::generate(&env);
    let mut client = Client {
        env: env.clone(),
        custody: Address::generate(&env),
        contract: BulkPaymentContract::new(),
        settled: 0,
    };
    client.initialize(&admin);

    (env, sender, token_id, client)
}

fn one_payment(env: &Env) -> Vec<PaymentOp> {
    let mut payments: Vec<PaymentOp> = Vec::new();
    payments.push(PaymentOp { recipient: Address::generate(env), amount: 10 });
    payments
}

// ---- initialize ----

#[test]
#[should_panic(expected = "Error(Contract, #1)")]
fn test_initialize_twice_panics() {
    let (env, _, _, mut client) = setup();
    client.initialize(&Address::generate(&env));
}

// ---- execute_batch ----

#[test]
fn test_execute_batch_success() {
    let (env, sender, token, mut client) = setup();

    let r1 = Address::generate(&env);
    let r2 = Address::generate(&env);
    let r3 = Address::generate(&env);

    let mut payments: Vec<PaymentOp> = Vec::new();
    payments.push(PaymentOp { recipient: r1.clone(), amount: 100 });
    payments.push(PaymentOp { recipient: r2.clone(), amount: 200 });
    payments.push(PaymentOp { recipient: r3.clone(), amount: 300 });

    let sequence = client.get_sequence();
    let batch_id = client.execute_batch(&sender, &token, &payments, &sequence);

    let tc = TokenClient::new(&env, &token);
    assert_eq!(tc.balance(&r1), 100);
    assert_eq!(tc.balance(&r2), 200);
    assert_eq!(tc.balance(&r3), 300);

    let record = client.get_batch(&batch_id);
    assert_eq!(record.success_count, 3);
    assert_eq!(record.fail_count, 0);
    assert_eq!(record.total_sent, 600);
}

#[test]
#[should_panic(expected = "Error(Contract, #4)")]
fn test_execute_batch_empty_panics() {
    let (_env, sender, token, mut client) = setup();
    let payments: Vec<PaymentOp> = Vec::new();
    client.execute_batch(&sender, &token, &payments, &0);
}

#[test]
#[should_panic(expected = "Error(Contract, #5)")]
fn test_execute_batch_too_large_panics() {
    let (env, sender, token, mut client) = setup();
    let mut payments: Vec<PaymentOp> = Vec::new();
    for _ in 0..=100 {
        payments.push(PaymentOp { recipient: Address::generate(&env), amount: 1 });
    }
    client.execute_batch(&sender, &token, &payments, &0);
}

#[test]
#[should_panic(expected = "Error(Contract, #6)")]
fn test_execute_batch_negative_amount_panics() {
    let (env, sender, token, mut client) = setup();
    let mut payments: Vec<PaymentOp> = Vec::new();
    payments.push(PaymentOp { recipient: Address::generate(&env), amount: -5 });
    client.execute_batch(&sender, &token, &payments, &0);
}

#[test]
#[should_panic(expected = "Error(Contract, #8)")]
fn test_execute_batch_sequence_replay_panics() {
    let (env, sender, token, mut client) = setup();
    let payments = one_payment(&env);
    client.execute_batch(&sender, &token, &payments, &0); // seq -> 1
    client.execute_batch(&sender, &token, &payments, &0); // must panic
}

#[test]
fn test_sequence_advances_after_each_batch() {
    let (env, sender, token, mut client) = setup();
    let payments = one_payment(&env);

    assert_eq!(client.get_sequence(), 0);
    client.execute_batch(&sender, &token, &payments, &0);
    assert_eq!(client.get_sequence(), 1);
    client.execute_batch(&sender, &token, &payments, &1);
    assert_eq!(client.get_sequence(), 2);
}

#[test]
fn test_batch_count_increments() {
    let (env, sender, token, mut client) = setup();
    let payments = one_payment(&env);

    client.execute_batch(&sender, &token, &payments, &0);
    client.execute_batch(&sender, &token, &payments, &1);

    assert_eq!(client.get_batch_count(), 2);
}

// ---- execute_batch_partial ----

#[test]
fn test_partial_batch_skips_insufficient_funds() {
    // The program pulls the sum of all positive amounts before the first
    // payout, so a positive amount always finds enough left. An amount of
    // zero is what makes the batch skip an operation here.
    let (env, sender, token, mut client) = setup();

    let r1 = Address::generate(&env);
    let r2 = Address::generate(&env); // will be skipped (amount = 0)

    let mut payments: Vec<PaymentOp> = Vec::new();
    payments.push(PaymentOp { recipient: r1.clone(), amount: 500_000 });
    payments.push(PaymentOp { recipient: r2.clone(), amount: 0 }); // invalid -> skip

    let sequence = client.get_sequence();
    let batch_id = client.execute_batch_partial(&sender, &token, &payments, &sequence);

    let record = client.get_batch(&batch_id);
    assert_eq!(record.success_count, 1);
    assert_eq!(record.fail_count, 1);

    let tc = TokenClient::new(&env, &token);
    assert_eq!(tc.balance(&r1), 500_000);
    assert_eq!(tc.balance(&r2), 0);
    assert_eq!(tc.balance(&sender), 500_000); // only what was delivered is gone
}

#[test]
fn test_partial_batch_all_fail_status_is_rollbck() {
    let (env, sender, token, mut client) = setup();
    let mut payments: Vec<PaymentOp> = Vec::new();
    payments.push(PaymentOp { recipient: Address::generate(&env), amount: -1 });

    let sequence = client.get_sequence();
    let batch_id = client.execute_batch_partial(&sender, &token, &payments, &sequence);

    let record = client.get_batch(&batch_id);
    assert_eq!(record.success_count, 0);
    assert_eq!(record.fail_count, 1);
    assert_eq!(record.status, BatchStatus::RolledBack);
    assert_eq!(record.status.symbol(), "rollbck");
    assert_eq!(record.total_sent, 0);

    // Only positive amounts are pulled: nothing left the payer, nothing is refunded.
    assert_eq!(TokenClient::new(&env, &token).balance(&sender), 1_000_000);
    assert_eq!(
        client.contract.transfers,
        vec![Transfer::Pull { token: token.clone(), payer: sender.clone(), amount: 0 }]
    );
}

#[test]
#[should_panic(expected = "Error(Contract, #4)")]
fn test_partial_batch_empty_panics() {
    let (_env, sender, token, mut client) = setup();
    let payments: Vec<PaymentOp> = Vec::new();
    client.execute_batch_partial(&sender, &token, &payments, &0);
}

// ---- get_batch ----

#[test]
#[should_panic(expected = "Error(Contract, #9)")]
fn test_get_batch_not_found_panics() {
    let (_, _, _, client) = setup();
    client.get_batch(&999);
}

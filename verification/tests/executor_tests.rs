//! The two transfer strategies on concrete batches.

use bulk_payment::{
    distribute_all, distribute_best_effort, ContractEvent, PaymentOp, PaymentSentEvent,
    PaymentSkippedEvent, Transfer,
};
use soroban_sdk::testutils::{Address as _, EnvTestConfig};
use soroban_sdk::{Address, Env};

fn test_env() -> Env {
    Env::new_with_config(EnvTestConfig { capture_snapshot_at_drop: false })
}

fn batch(env: &Env, amounts: &[i128]) -> Vec<PaymentOp> {
    amounts
        .iter()
        .map(|amount| PaymentOp { recipient: Address::generate(env), amount: *amount })
        .collect()
}

fn pull(token: &Address, payer: &Address, amount: i128) -> Transfer {
    Transfer::Pull { token: token.clone(), payer: payer.clone(), amount }
}

fn payout(token: &Address, op: &PaymentOp) -> Transfer {
    Transfer::Payout { token: token.clone(), recipient: op.recipient.clone(), amount: op.amount }
}

fn refund(token: &Address, payer: &Address, amount: i128) -> Transfer {
    Transfer::Refund { token: token.clone(), payer: payer.clone(), amount }
}

fn sent(op: &PaymentOp) -> ContractEvent {
    ContractEvent::PaymentSent(PaymentSentEvent {
        recipient: op.recipient.clone(),
        amount: op.amount,
    })
}

fn skipped(op: &PaymentOp) -> ContractEvent {
    ContractEvent::PaymentSkipped(PaymentSkippedEvent {
        recipient: op.recipient.clone(),
        amount: op.amount,
    })
}

#[test]
fn all_or_nothing_pulls_then_pays_in_list_order() {
    let env = test_env();
    let (sender, token) = (Address::generate(&env), Address::generate(&env));
    let ops = batch(&env, &[100, 200, 300]);

    let transfers = distribute_all(&sender, &token, &ops, 600);

    assert_eq!(
        transfers,
        vec![
            pull(&token, &sender, 600),
            payout(&token, &ops[0]),
            payout(&token, &ops[1]),
            payout(&token, &ops[2]),
        ]
    );
}

#[test]
fn all_or_nothing_transfer_amounts() {
    let env = test_env();
    let (sender, token) = (Address::generate(&env), Address::generate(&env));
    let ops = batch(&env, &[7, 5]);

    let transfers = distribute_all(&sender, &token, &ops, 12);

    let amounts: Vec<i128> = transfers.iter().map(|t| t.amount()).collect();
    assert_eq!(amounts, vec![12, 7, 5]);
}

#[test]
fn best_effort_pays_positive_amounts_and_skips_the_rest() {
    let env = test_env();
    let (sender, token) = (Address::generate(&env), Address::generate(&env));
    let ops = batch(&env, &[300, -2, 200, 0]);

    let d = distribute_best_effort(&sender, &token, &ops, 500);

    assert_eq!(
        d.transfers,
        vec![pull(&token, &sender, 500), payout(&token, &ops[0]), payout(&token, &ops[2])]
    );
    assert_eq!(d.events, vec![sent(&ops[0]), skipped(&ops[1]), sent(&ops[2]), skipped(&ops[3])]);
    assert_eq!(d.total_sent, 500);
    assert_eq!(d.success_count, 2);
    assert_eq!(d.fail_count, 2);
}

#[test]
fn best_effort_skips_what_custody_cannot_cover_and_refunds_the_rest() {
    let env = test_env();
    let (sender, token) = (Address::generate(&env), Address::generate(&env));
    let ops = batch(&env, &[300, 400, 100]);

    // 600 in custody: 300 is paid, 400 exceeds the 300 left, 100 is paid, 200 goes back.
    let d = distribute_best_effort(&sender, &token, &ops, 600);

    assert_eq!(
        d.transfers,
        vec![
            pull(&token, &sender, 600),
            payout(&token, &ops[0]),
            payout(&token, &ops[2]),
            refund(&token, &sender, 200),
        ]
    );
    assert_eq!(d.events, vec![sent(&ops[0]), skipped(&ops[1]), sent(&ops[2])]);
    assert_eq!(d.total_sent, 400);
    assert_eq!(d.success_count, 2);
    assert_eq!(d.fail_count, 1);
}

#[test]
fn best_effort_pays_an_amount_equal_to_what_is_left() {
    let env = test_env();
    let (sender, token) = (Address::generate(&env), Address::generate(&env));
    let ops = batch(&env, &[300, 1]);

    let d = distribute_best_effort(&sender, &token, &ops, 300);

    assert_eq!(d.transfers, vec![pull(&token, &sender, 300), payout(&token, &ops[0])]);
    assert_eq!(d.events, vec![sent(&ops[0]), skipped(&ops[1])]);
    assert_eq!(d.total_sent, 300);
    assert_eq!(d.success_count, 1);
    assert_eq!(d.fail_count, 1);
}

#[test]
fn best_effort_with_nothing_in_custody_pays_nothing() {
    let env = test_env();
    let (sender, token) = (Address::generate(&env), Address::generate(&env));
    let ops = batch(&env, &[-1, 0, 5]);

    let d = distribute_best_effort(&sender, &token, &ops, 0);

    assert_eq!(d.transfers, vec![pull(&token, &sender, 0)]);
    assert_eq!(d.events, vec![skipped(&ops[0]), skipped(&ops[1]), skipped(&ops[2])]);
    assert_eq!(d.total_sent, 0);
    assert_eq!(d.success_count, 0);
    assert_eq!(d.fail_count, 3);
}

#[test]
fn best_effort_refunds_everything_when_nothing_is_paid() {
    let env = test_env();
    let (sender, token) = (Address::generate(&env), Address::generate(&env));
    let ops = batch(&env, &[50, 0]);

    let d = distribute_best_effort(&sender, &token, &ops, 40);

    assert_eq!(d.transfers, vec![pull(&token, &sender, 40), refund(&token, &sender, 40)]);
    assert_eq!(d.total_sent, 0);
    assert_eq!(d.success_count, 0);
    assert_eq!(d.fail_count, 2);
}

#[test]
fn best_effort_handles_the_largest_amount() {
    let env = test_env();
    let (sender, token) = (Address::generate(&env), Address::generate(&env));
    let ops = batch(&env, &[i128::MAX, i128::MIN, 1]);

    let d = distribute_best_effort(&sender, &token, &ops, i128::MAX);

    assert_eq!(d.transfers, vec![pull(&token, &sender, i128::MAX), payout(&token, &ops[0])]);
    assert_eq!(d.total_sent, i128::MAX);
    assert_eq!(d.success_count, 1);
    assert_eq!(d.fail_count, 2);
}

#[test]
fn transfer_amount_reads_every_kind() {
    let env = test_env();
    let (sender, token) = (Address::generate(&env), Address::generate(&env));
    assert_eq!(pull(&token, &sender, 11).amount(), 11);
    assert_eq!(refund(&token, &sender, 13).amount(), 13);
    let op = PaymentOp { recipient: Address::generate(&env), amount: 17 };
    assert_eq!(payout(&token, &op).amount(), 17);
}

#[test]
fn duplicates_equal_their_source() {
    let env = test_env();
    let (sender, token) = (Address::generate(&env), Address::generate(&env));
    let op = PaymentOp { recipient: Address::generate(&env), amount: 17 };
    assert_eq!(op.clone(), op);
    assert_eq!(op.clone().recipient, op.recipient);
    assert_ne!(op.clone().recipient, sender);
    let transfer = payout(&token, &op);
    assert_eq!(transfer.clone(), transfer);
    let event = sent(&op);
    assert_eq!(event.clone(), event);
    assert_ne!(event.clone(), skipped(&op));
}

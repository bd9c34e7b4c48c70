use hunterfi::ledger::generate_transaction_id;
use hunterfi::principal::Principal;
use hunterfi::state::{CallContext, Ledger, TransactionType, UserAccount};

fn user(b: u8) -> Principal {
    Principal::from_slice(&[b, b, b])
}

fn ctx_at(now: u64, caller: Principal) -> CallContext {
    CallContext { now, caller, canister_id: Principal::from_slice(&[0, 1, 0xab]) }
}

#[test]
fn transaction_id_joins_time_caller_and_canister_hex() {
    let ctx = CallContext { now: 42, caller: Principal::from_slice(&[1, 2, 3]), canister_id: Principal::from_slice(&[0, 1, 0xab]) };
    assert_eq!(generate_transaction_id(&ctx), "42-kw6ia-hibai-bq-0001ab");
}

#[test]
fn unknown_user_has_an_empty_account() {
    let l = Ledger::new();
    let a = l.get_user_account(&user(1));
    assert_eq!(a, UserAccount { owner: user(1), balance: 0, last_deposit: 0, total_deposited: 0, total_consumed: 0 });
    assert_eq!(l.check_user_balance(&user(1), 0), Ok(true));
    assert_eq!(l.check_user_balance(&user(1), 1), Ok(false));
}

#[test]
fn balance_updates_add_and_take() {
    let mut l = Ledger::new();
    assert_eq!(l.update_user_balance(&user(1), 500, true, 7), Ok(500));
    assert_eq!(l.update_user_balance(&user(1), 200, false, 8), Ok(300));
    let a = l.get_user_account(&user(1));
    assert_eq!(a.balance, 300);
    assert_eq!(a.total_deposited, 500);
    assert_eq!(a.total_consumed, 200);
    assert_eq!(a.last_deposit, 7);
    assert_eq!(
        l.update_user_balance(&user(1), 301, false, 9),
        Err("Insufficient balance: current balance 300 e8s, required 301 e8s".to_string())
    );
    assert_eq!(l.get_user_account(&user(1)).balance, 300);
}

#[test]
fn deposits_saturate() {
    let mut l = Ledger::new();
    assert_eq!(l.update_user_balance(&user(1), u64::MAX, true, 1), Ok(u64::MAX));
    assert_eq!(l.update_user_balance(&user(1), 10, true, 2), Ok(u64::MAX));
    assert_eq!(l.get_user_account(&user(1)).total_deposited, u64::MAX);
}

#[test]
fn deposit_records_a_transaction() {
    let mut l = Ledger::new();
    let ctx = ctx_at(1000, user(1));
    assert_eq!(l.process_deposit(&ctx, &user(1), 150_000_000), Ok(150_000_000));
    let all = l.get_all_transaction_records();
    assert_eq!(all.len(), 1);
    assert_eq!(all[0].transaction_id, generate_transaction_id(&ctx));
    assert_eq!(all[0].user, user(1));
    assert_eq!(all[0].amount, 150_000_000);
    assert_eq!(all[0].transaction_type, TransactionType::Deposit);
    assert_eq!(all[0].timestamp, 1000);
    assert_eq!(all[0].description, "Deposit of 1.50000000 ICP");
    assert_eq!(l.process_deposit(&ctx, &user(1), 0), Err("Deposit amount must be greater than 0".to_string()));
}

#[test]
fn withdrawal_errors_and_success() {
    let mut l = Ledger::new();
    l.process_deposit(&ctx_at(1, user(1)), &user(1), 1000).unwrap();
    let ctx = ctx_at(2, user(1));
    assert_eq!(l.process_withdrawal(&ctx, &user(1), 0), Err("Withdrawal amount must be greater than 0".to_string()));
    assert_eq!(l.process_withdrawal(&ctx, &user(1), 1001), Err("Insufficient balance".to_string()));
    assert_eq!(l.get_all_transaction_records().len(), 1);
    assert_eq!(l.process_withdrawal(&ctx, &user(1), 400), Ok(600));
    let last = l.get_all_transaction_records().pop().unwrap();
    assert_eq!(last.transaction_type, TransactionType::Withdrawal);
    assert_eq!(last.description, "Withdrawal of 0.00000400 ICP");
}

#[test]
fn deposit_then_withdrawal_restores_balance() {
    let mut l = Ledger::new();
    l.process_deposit(&ctx_at(1, user(1)), &user(1), 777).unwrap();
    let before = l.get_user_account(&user(1)).balance;
    l.process_deposit(&ctx_at(2, user(1)), &user(1), 5000).unwrap();
    assert_eq!(l.process_withdrawal(&ctx_at(3, user(1)), &user(1), 5000), Ok(before));
    let a = l.get_user_account(&user(1));
    assert_eq!(a.balance + a.total_consumed, a.total_deposited);
}

#[test]
fn deployment_fee_and_payment_and_refund() {
    let mut l = Ledger::new();
    l.process_deposit(&ctx_at(1, user(1)), &user(1), 100).unwrap();
    assert_eq!(
        l.process_deployment_fee(&ctx_at(2, user(1)), &user(1), 0, "d1"),
        Err("Deployment fee must be greater than 0".to_string())
    );
    assert_eq!(
        l.process_deployment_fee(&ctx_at(2, user(1)), &user(1), 101, "d1"),
        Err("Insufficient balance for deployment fee".to_string())
    );
    assert_eq!(l.process_deployment_fee(&ctx_at(2, user(1)), &user(1), 60, "d1"), Ok(()));
    let r = l.get_all_transaction_records().pop().unwrap();
    assert_eq!(r.description, "Deployment fee for deployment (ID: d1)");
    assert_eq!(r.transaction_type, TransactionType::DeploymentFee);
    assert_eq!(
        l.process_balance_payment(&ctx_at(3, user(1)), &user(1), 0, "x"),
        Err("Payment amount must be greater than 0".to_string())
    );
    assert_eq!(l.process_balance_payment(&ctx_at(3, user(1)), &user(1), 41, "x"), Err("Insufficient balance".to_string()));
    assert_eq!(l.process_balance_payment(&ctx_at(3, user(1)), &user(1), 40, "strategy"), Ok(()));
    assert_eq!(l.get_user_account(&user(1)).balance, 0);
    assert_eq!(
        l.process_balance_refund(&ctx_at(4, user(1)), &user(1), 0, "d1"),
        Err("Refund amount must be greater than 0".to_string())
    );
    assert_eq!(l.process_balance_refund(&ctx_at(4, user(1)), &user(1), 60, "d1"), Ok(()));
    assert_eq!(l.get_user_account(&user(1)).balance, 60);
    let r = l.get_all_transaction_records().pop().unwrap();
    assert_eq!(r.description, "Refund for failed deployment (ID: d1)");
    assert_eq!(r.transaction_type, TransactionType::Refund);
}

#[test]
fn admin_adjustment_credits_with_reason() {
    let mut l = Ledger::new();
    assert_eq!(
        l.process_admin_adjustment(&ctx_at(1, user(9)), &user(1), 0, "why".to_string()),
        Err("Adjustment amount must be greater than 0".to_string())
    );
    assert_eq!(l.process_admin_adjustment(&ctx_at(1, user(9)), &user(1), 25, "bonus".to_string()), Ok(()));
    let r = l.get_all_transaction_records().pop().unwrap();
    assert_eq!(r.description, "bonus");
    assert_eq!(r.transaction_type, TransactionType::AdminAdjustment);
    assert_eq!(l.get_user_account(&user(1)).balance, 25);
}

#[test]
fn transfer_conserves_the_sum_of_balances() {
    let mut l = Ledger::new();
    l.process_deposit(&ctx_at(1, user(1)), &user(1), 1000).unwrap();
    l.process_deposit(&ctx_at(2, user(2)), &user(2), 300).unwrap();
    let ctx = ctx_at(3, user(1));
    assert_eq!(l.process_balance_transfer(&ctx, &user(1), &user(2), 0, "p"), Err("Transfer amount must be greater than 0".to_string()));
    assert_eq!(l.process_balance_transfer(&ctx, &user(1), &user(2), 1001, "p"), Err("Insufficient balance".to_string()));
    assert_eq!(l.process_balance_transfer(&ctx, &user(1), &user(2), 250, "gift"), Ok(()));
    let a = l.get_user_account(&user(1)).balance;
    let b = l.get_user_account(&user(2)).balance;
    assert_eq!((a, b), (750, 550));
    assert_eq!(a + b, 1300);
    let cache = l.get_all_transaction_records();
    assert_eq!(cache.len(), 4);
    let mut to_text = String::new();
    hunterfi::text::push_principal(&mut to_text, &user(2));
    assert_eq!(cache[2].description, format!("Transfer to {}: gift", to_text));
    assert_eq!(cache[2].user, user(1));
    assert_eq!(cache[3].user, user(2));
    assert!(cache[3].description.starts_with("Transfer from "));
}

#[test]
fn user_records_are_filtered_in_order() {
    let mut l = Ledger::new();
    l.process_deposit(&ctx_at(1, user(1)), &user(1), 10).unwrap();
    l.process_deposit(&ctx_at(2, user(2)), &user(2), 20).unwrap();
    l.process_deposit(&ctx_at(3, user(1)), &user(1), 30).unwrap();
    let mine = l.get_user_transaction_records(&user(1));
    assert_eq!(mine.iter().map(|t| t.amount).collect::<Vec<_>>(), vec![10, 30]);
}

#[test]
fn cache_stays_bounded_and_keeps_newest() {
    let mut l = Ledger::new();
    l.max_cache_size = 2;
    for i in 1..=5u64 {
        l.process_deposit(&ctx_at(i, user(1)), &user(1), i).unwrap();
    }
    let cache = l.get_all_transaction_records();
    assert_eq!(cache.iter().map(|t| t.amount).collect::<Vec<_>>(), vec![4, 5]);
    assert_eq!(l.transactions.len(), 5);
}

#[test]
fn recording_under_the_same_id_replaces_the_stored_record() {
    let mut l = Ledger::new();
    let ctx = ctx_at(5, user(1));
    let id1 = l.record_transaction(&ctx, &user(1), 1, TransactionType::Deposit, "a".to_string());
    let id2 = l.record_transaction(&ctx, &user(2), 2, TransactionType::Refund, "b".to_string());
    assert_eq!(id1, id2);
    assert_eq!(l.transactions.len(), 1);
    assert_eq!(l.transactions.get(&id1).unwrap().description, "b");
    assert_eq!(l.get_all_transaction_records().len(), 2);
}

#[test]
fn refund_of_a_fee_restores_the_balance() {
    let mut l = Ledger::new();
    l.process_deposit(&ctx_at(1, user(2)), &user(2), 250).unwrap();
    assert_eq!(l.process_deployment_fee(&ctx_at(2, user(2)), &user(2), 180, "d7"), Ok(()));
    assert_eq!(l.get_user_account(&user(2)).balance, 70);
    assert_eq!(l.process_balance_refund(&ctx_at(3, user(2)), &user(2), 180, "d7"), Ok(()));
    assert_eq!(l.get_user_account(&user(2)).balance, 250);
}

use hunterfi::payment::{
    check_deposit, check_user_withdrawal, check_withdrawal, finish_deposit, finish_user_withdrawal,
    process_failed_deployments, TransferAttempts, MAX_WITHDRAWAL_RETRIES,
};
use hunterfi::principal::Principal;
use hunterfi::state::{CallContext, FactoryState, Ledger, TransactionType};
use hunterfi::types::{DeploymentRecord, DeploymentStatus, StrategyType};

fn p(b: u8) -> Principal {
    Principal::from_slice(&[b, 1, 1])
}

fn ctx(now: u64, caller: Principal) -> CallContext {
    CallContext { now, caller, canister_id: Principal::from_slice(&[0, 0, 1]) }
}

fn failed(id: &str, owner: Principal, fee: u64, status: DeploymentStatus) -> DeploymentRecord {
    DeploymentRecord {
        deployment_id: id.to_string(),
        strategy_type: StrategyType::LimitOrder,
        owner,
        fee_amount: fee,
        request_time: 1,
        status,
        canister_id: None,
        config_data: Vec::new(),
        error_message: Some("install failed".to_string()),
        last_updated: 2,
    }
}

#[test]
fn deposit_checks_in_order() {
    assert_eq!(check_deposit(&p(1), 999_999), Err("Deposit amount cannot be less than 0.01 ICP".to_string()));
    assert_eq!(check_deposit(&p(1), 100_000_000_001), Err("Deposit amount cannot exceed 1000 ICP".to_string()));
    assert_eq!(
        check_deposit(&Principal::anonymous(), 1_000_000),
        Err("Anonymous identity cannot make deposits".to_string())
    );
    assert_eq!(check_deposit(&p(1), 1_000_000), Ok(()));
    assert_eq!(check_deposit(&p(1), 100_000_000_000), Ok(()));
}

#[test]
fn finished_deposit_credits_or_reports() {
    let mut l = Ledger::new();
    assert_eq!(
        finish_deposit(&mut l, &ctx(1, p(1)), &p(1), 5_000_000, Err("ledger down".to_string())),
        Err("Deposit failed: ledger down".to_string())
    );
    assert_eq!(l.get_all_transaction_records().len(), 0);
    assert_eq!(finish_deposit(&mut l, &ctx(2, p(1)), &p(1), 5_000_000, Ok(())), Ok(5_000_000));
    let r = l.get_all_transaction_records().pop().unwrap();
    assert_eq!(r.description, "Deposit of 0.05000000 ICP");
    assert_eq!(r.transaction_type, TransactionType::Deposit);
}

#[test]
fn user_withdrawal_checks_in_order() {
    let mut l = Ledger::new();
    finish_deposit(&mut l, &ctx(1, p(1)), &p(1), 200_000_000, Ok(())).unwrap();
    let cycles = 2_000_000_000;
    assert_eq!(check_user_withdrawal(&l, &p(1), 0, cycles), Err("Withdrawal amount must be greater than 0".to_string()));
    assert_eq!(
        check_user_withdrawal(&l, &p(1), 10_000_000_001, cycles),
        Err("Withdrawal amount cannot exceed 100 ICP".to_string())
    );
    assert_eq!(
        check_user_withdrawal(&l, &Principal::anonymous(), 5, cycles),
        Err("Anonymous identity cannot withdraw funds".to_string())
    );
    assert_eq!(check_user_withdrawal(&l, &p(2), 5, cycles), Err("User account not found".to_string()));
    assert_eq!(
        check_user_withdrawal(&l, &p(1), 300_000_000, cycles),
        Err("Insufficient balance: you have 2.00000000 ICP but requested 3.00000000 ICP".to_string())
    );
    assert_eq!(
        check_user_withdrawal(&l, &p(1), 100_000_000, 999_999_999),
        Err("System cycles balance too low for safe operation. Please try again later or contact support.".to_string())
    );
    assert_eq!(check_user_withdrawal(&l, &p(1), 100_000_000, cycles), Ok(()));
}

#[test]
fn finished_user_withdrawal_takes_the_balance() {
    let mut l = Ledger::new();
    finish_deposit(&mut l, &ctx(1, p(1)), &p(1), 200_000_000, Ok(())).unwrap();
    assert_eq!(
        finish_user_withdrawal(&mut l, &ctx(2, p(1)), &p(1), 300_000_000),
        Err("Insufficient balance: current balance 200000000 e8s, required 300000000 e8s".to_string())
    );
    assert_eq!(finish_user_withdrawal(&mut l, &ctx(3, p(1)), &p(1), 50_000_000), Ok(150_000_000));
    let r = l.get_all_transaction_records().pop().unwrap();
    assert_eq!(r.description, "Withdrawal of 0.50000000 ICP to user wallet");
    assert_eq!(r.transaction_type, TransactionType::Refund);
}

#[test]
fn factory_withdrawal_checks_in_order() {
    assert_eq!(check_withdrawal(&p(1), 0, 2_000_000_000), Err("Withdrawal amount must be greater than 0".to_string()));
    assert_eq!(
        check_withdrawal(&p(1), 10_000_000_001, 2_000_000_000),
        Err("Withdrawal amount cannot exceed 100 ICP".to_string())
    );
    assert_eq!(
        check_withdrawal(&Principal::anonymous(), 5, 2_000_000_000),
        Err("Cannot withdraw to anonymous identity".to_string())
    );
    assert_eq!(
        check_withdrawal(&p(1), 5, 12345),
        Err("Canister cycles balance too low for safe operation. Current balance: 12345 cycles".to_string())
    );
    assert_eq!(check_withdrawal(&p(1), 5, 1_000_000_000), Ok(()));
}

#[test]
fn withdrawal_transfer_is_tried_at_most_twice() {
    let mut t = TransferAttempts::new();
    assert!(t.may_attempt());
    assert!(t.record_failure("SysTransient", "busy", true));
    assert!(!t.record_failure("SysTransient", "busy again", true));
    assert_eq!(t.failures, 2);
    assert_eq!(t.failure_message(), "Withdrawal failed after 2 attempts: code=SysTransient, message=busy again");
    assert!(t.failures < MAX_WITHDRAWAL_RETRIES);
    let mut u = TransferAttempts::new();
    assert!(!u.record_failure("CanisterReject", "no", false));
    assert_eq!(u.failure_message(), "Withdrawal failed after 1 attempts: code=CanisterReject, message=no");
    assert_eq!(TransferAttempts::new().failure_message(), "Withdrawal failed after 0 attempts: Unknown error");
}

#[test]
fn failed_deployments_are_refunded_and_marked() {
    let mut s = FactoryState::new();
    s.store_deployment_record(failed("a", p(1), 100, DeploymentStatus::DeploymentFailed));
    s.store_deployment_record(failed("b", p(2), 0, DeploymentStatus::DeploymentFailed));
    s.store_deployment_record(failed("c", p(1), 50, DeploymentStatus::Deployed));
    assert_eq!(process_failed_deployments(&mut s, &ctx(10, p(9))), Ok(1));
    assert_eq!(s.ledger.get_user_account(&p(1)).balance, 100);
    assert_eq!(s.get_deployment_record("a").unwrap().status, DeploymentStatus::Refunded);
    assert_eq!(s.get_deployment_record("b").unwrap().status, DeploymentStatus::DeploymentFailed);
    assert_eq!(s.get_deployment_record("c").unwrap().status, DeploymentStatus::Deployed);
    let r = s.ledger.get_all_transaction_records().pop().unwrap();
    assert_eq!(r.description, "Refund for failed deployment (ID: a)");
    // A second run refunds nothing more: the refunded record is no longer failed.
    assert_eq!(
        process_failed_deployments(&mut s, &ctx(11, p(9))),
        Err("Could not process any refunds. Errors: Refund error (ID: b): Refund amount must be greater than 0".to_string())
    );
    assert_eq!(s.ledger.get_user_account(&p(1)).balance, 100);
}

#[test]
fn no_failed_deployments_means_nothing_to_refund() {
    let mut s = FactoryState::new();
    assert_eq!(process_failed_deployments(&mut s, &ctx(10, p(9))), Ok(0));
    assert_eq!(hunterfi::timer::process_failed_deployments(&mut s, &ctx(10, p(9))), Ok(0));
}

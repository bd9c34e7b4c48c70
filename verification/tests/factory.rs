use hunterfi::factory::{get_version, MAX_TRANSACTION_QUERY_LIMIT};
use hunterfi::principal::Principal;
use hunterfi::state::{CallContext, FactoryState, TransactionType, DEFAULT_DEPLOYMENT_FEE};
use hunterfi::timer::{TimerAction, TimerState};
use hunterfi::types::{
    DeploymentRecord, DeploymentStatus, Exchange, StrategyMetadata, StrategyStatus, StrategyType, TokenMetadata,
    TradingPair,
};

fn p(b: u8) -> Principal {
    Principal::from_slice(&[b, 4, 4])
}

fn ctx(caller: Principal) -> CallContext {
    CallContext { now: 1_000, caller, canister_id: Principal::from_slice(&[0, 0, 7]) }
}

fn ctx_at(now: u64, caller: Principal) -> CallContext {
    CallContext { now, caller, canister_id: Principal::from_slice(&[0, 0, 7]) }
}

fn admin_state() -> FactoryState {
    let mut s = FactoryState::new();
    let mut t = TimerState::new();
    assert_eq!(s.init(&ctx(p(1)), &mut t), TimerAction::ScheduleCleanup(300));
    assert!(t.cleanup_scheduled);
    s
}

fn metadata(canister: Principal, owner: Principal) -> StrategyMetadata {
    let token = |b: u8| TokenMetadata { canister_id: p(b), symbol: "T".to_string(), decimals: 8 };
    StrategyMetadata {
        canister_id: canister,
        strategy_type: StrategyType::SelfHedging,
        owner,
        created_at: 1,
        status: StrategyStatus::Created,
        exchange: Exchange::ICPSwap,
        trading_pair: TradingPair { base_token: token(30), quote_token: token(31) },
    }
}

fn record(id: &str, owner: Principal) -> DeploymentRecord {
    DeploymentRecord {
        deployment_id: id.to_string(),
        strategy_type: StrategyType::SelfHedging,
        owner,
        fee_amount: 1,
        request_time: 1,
        status: DeploymentStatus::Deployed,
        canister_id: None,
        config_data: Vec::new(),
        error_message: None,
        last_updated: 1,
    }
}

const NOT_ADMIN: &str = "Caller is not authorized to perform this action";

#[test]
fn the_initializer_becomes_admin() {
    let s = admin_state();
    assert!(s.is_caller_admin(&ctx(p(1))));
    assert!(!s.is_caller_admin(&ctx(p(2))));
    assert_eq!(s.get_admins(), vec![p(1)]);
    assert_eq!(get_version(), "1.0.3");
}

#[test]
fn admins_are_added_and_removed() {
    let mut s = admin_state();
    assert_eq!(s.add_admin(&ctx(p(2)), p(3)), Err(NOT_ADMIN.to_string()));
    assert_eq!(s.add_admin(&ctx(p(1)), Principal::anonymous()), Err("Cannot add anonymous principal as admin".to_string()));
    assert_eq!(s.add_admin(&ctx(p(1)), p(2)), Ok(()));
    assert_eq!(s.get_admins(), vec![p(1), p(2)]);
    assert_eq!(s.remove_admin(&ctx(p(2)), p(1)), Ok(()));
    assert_eq!(s.get_admins(), vec![p(2)]);
    assert_eq!(s.remove_admin(&ctx(p(2)), p(2)), Err("Cannot remove the last admin".to_string()));
    assert_eq!(s.remove_admin(&ctx(p(1)), p(2)), Err(NOT_ADMIN.to_string()));
    assert_eq!(s.remove_admin(&ctx(p(2)), p(9)), Ok(()));
}

#[test]
fn fee_and_wasm_are_admin_only() {
    let mut s = admin_state();
    assert_eq!(s.get_fee(), DEFAULT_DEPLOYMENT_FEE);
    assert_eq!(s.set_deployment_fee(&ctx(p(2)), 5), Err(NOT_ADMIN.to_string()));
    assert_eq!(s.set_deployment_fee(&ctx(p(1)), 5), Ok(()));
    assert_eq!(s.get_fee(), 5);
    let wasm = vec![0u8, 0x61, 0x73, 0x6d, 1, 0, 0, 0, 1];
    assert_eq!(s.get_strategy_wasm(&ctx(p(2)), StrategyType::SelfHedging, &wasm), None);
    assert_eq!(s.get_strategy_wasm(&ctx(p(1)), StrategyType::SelfHedging, &wasm), Some(wasm.clone()));
    assert_eq!(s.get_strategy_wasm(&ctx(p(1)), StrategyType::LimitOrder, &wasm), Some(vec![0, 0x61, 0x73, 0x6d, 1, 0, 0, 0]));
}

#[test]
fn strategies_are_visible_to_owner_and_admins() {
    let mut s = admin_state();
    s.store_strategy_metadata(metadata(p(10), p(2)));
    s.store_strategy_metadata(metadata(p(11), p(2)));
    s.store_strategy_metadata(metadata(p(12), p(3)));
    let ids = |v: Vec<StrategyMetadata>| v.into_iter().map(|m| m.canister_id).collect::<Vec<_>>();
    assert_eq!(ids(s.get_strategies_by_owner(&ctx(p(2)), &p(2))), vec![p(10), p(11)]);
    assert_eq!(ids(s.get_strategies_by_owner(&ctx(p(1)), &p(3))), vec![p(12)]);
    assert!(s.get_strategies_by_owner(&ctx(p(3)), &p(2)).is_empty());
    assert!(s.get_strategies_by_owner(&ctx(p(4)), &p(4)).is_empty());
    assert_eq!(ids(s.get_all_strategies()), vec![p(10), p(11), p(12)]);
    assert_eq!(s.get_strategy_count(), 3);
}

#[test]
fn deployment_records_are_visible_to_owner_and_admins() {
    let mut s = admin_state();
    s.store_deployment_record(record("a", p(2)));
    s.store_deployment_record(record("b", p(3)));
    assert!(s.get_deployment_records(&ctx(p(2))).is_empty());
    assert_eq!(s.get_deployment_records(&ctx(p(1))).len(), 2);
    let mine: Vec<String> = s.get_my_deployment_records(&ctx(p(3))).into_iter().map(|r| r.deployment_id).collect();
    assert_eq!(mine, vec!["b"]);
    assert!(s.get_deployment(&ctx(p(2)), "a").is_some());
    assert!(s.get_deployment(&ctx(p(2)), "b").is_none());
    assert!(s.get_deployment(&ctx(p(1)), "b").is_some());
    assert!(s.get_deployment(&ctx(p(1)), "c").is_none());
}

#[test]
fn deposit_and_withdrawal_checks_of_the_endpoints() {
    let mut s = admin_state();
    let anon = ctx(Principal::anonymous());
    assert_eq!(FactoryState::check_deposit_icp(&anon, 5), Err("Anonymous identity cannot make deposits".to_string()));
    assert_eq!(FactoryState::check_deposit_icp(&ctx(p(2)), 5), Err("Deposit amount cannot be less than 0.01 ICP".to_string()));
    assert_eq!(FactoryState::check_deposit_icp(&ctx(p(2)), 2_000_000), Ok(()));
    assert_eq!(s.check_withdraw_user_icp(&anon, 5, 2_000_000_000), Err("Anonymous identity cannot withdraw funds".to_string()));
    assert_eq!(s.check_withdraw_user_icp(&ctx(p(2)), 5, 2_000_000_000), Err("User account not found".to_string()));
    assert_eq!(s.adjust_balance(&ctx(p(2)), &p(2), 10, "x".to_string()), Err(NOT_ADMIN.to_string()));
    assert_eq!(s.adjust_balance(&ctx(p(1)), &p(2), 10, "welcome".to_string()), Ok(()));
    assert_eq!(s.check_withdraw_user_icp(&ctx(p(2)), 5, 2_000_000_000), Ok(()));
    assert_eq!(s.get_balance(&ctx(p(2))), 10);
    assert_eq!(s.get_account_info(&ctx(p(2))).total_deposited, 10);
    let h = s.get_transaction_history(&ctx(p(2)));
    assert_eq!(h.len(), 1);
    assert_eq!(h[0].transaction_type, TransactionType::AdminAdjustment);
    assert_eq!(h[0].description, "welcome");
    assert_eq!(s.check_withdraw_icp(&ctx(p(2)), &p(3), 5, 2_000_000_000), Err(NOT_ADMIN.to_string()));
    assert_eq!(s.check_withdraw_icp(&ctx(p(1)), &p(3), 5, 2_000_000_000), Ok(()));
    assert_eq!(
        s.check_withdraw_icp(&ctx(p(1)), &Principal::anonymous(), 5, 2_000_000_000),
        Err("Cannot withdraw to anonymous identity".to_string())
    );
}

#[test]
fn history_is_capped() {
    let mut s = admin_state();
    for i in 0..(MAX_TRANSACTION_QUERY_LIMIT as u64 + 5) {
        s.adjust_balance(&ctx_at(i, p(1)), &p(2), 1, format!("n{}", i)).unwrap();
    }
    let h = s.get_transaction_history(&ctx(p(2)));
    assert_eq!(h.len(), MAX_TRANSACTION_QUERY_LIMIT);
    assert_eq!(h[0].description, "n0");
    assert_eq!(h[99].description, "n99");
}

#[test]
fn timers_are_reset_by_admins() {
    let s = admin_state();
    let mut t = TimerState::new();
    assert_eq!(s.reset_system_timers(&ctx(p(2)), &mut t), Err(NOT_ADMIN.to_string()));
    assert!(!t.cleanup_scheduled);
    assert_eq!(s.reset_system_timers(&ctx(p(1)), &mut t), Ok(TimerAction::RescheduleCleanup(300)));
    assert!(t.cleanup_scheduled);
}

#[test]
fn upgrade_preserves_the_state() {
    let mut s = admin_state();
    s.add_admin(&ctx(p(1)), p(5)).unwrap();
    s.set_deployment_fee(&ctx(p(1)), 777).unwrap();
    s.adjust_balance(&ctx(p(1)), &p(2), 40, "gift".to_string()).unwrap();
    s.store_strategy_metadata(metadata(p(10), p(2)));
    s.store_strategy_metadata(metadata(p(11), p(2)));
    s.generate_deployment_id(5, &p(2));
    let data = s.pre_upgrade();
    assert_eq!(s.ledger.get_all_transaction_records().len(), 0);
    assert_eq!(data.admins, vec![p(1), p(5)]);
    assert_eq!(data.deployment_fee, 777);
    assert_eq!(data.deployment_id_counter, 1);

    let mut fresh = FactoryState::new();
    fresh.post_upgrade(data);
    assert_eq!(fresh.get_admins(), vec![p(1), p(5)]);
    assert_eq!(fresh.get_fee(), 777);
    assert_eq!(fresh.deployment_id_counter, 1);
    assert_eq!(fresh.ledger.get_user_account(&p(2)).balance, 40);
    assert_eq!(fresh.ledger.transactions.len(), 1);
    let history = fresh.ledger.get_all_transaction_records();
    assert_eq!(history.len(), 1);
    assert_eq!(history[0].description, "gift");
    assert_eq!(history[0].amount, 40);
    assert_eq!(fresh.get_strategy_count(), 2);
    assert_eq!(fresh.owner_strategies.get(&p(2)).unwrap().clone(), vec![p(10), p(11)]);
    assert_eq!(fresh.get_strategy_metadata(&p(11)).unwrap().owner, p(2));
}


use hunterfi::deployment::{
    create_deployment_record, create_strategy_metadata, get_embedded_wasm_module, icp_ledger_principal,
    init_method_name, map_deployment_error, DeploymentAction, DeploymentError, DeploymentResult, InitOutcome,
    StrategyConfigData,
};
use hunterfi::payment::process_failed_deployments;
use hunterfi::principal::Principal;
use hunterfi::state::{CallContext, FactoryState, TransactionType};
use hunterfi::text::push_principal;
use hunterfi::types::{
    DCAConfig, DeploymentStatus, Exchange, FixedBalanceConfig, OrderSplitType, SelfHedgingConfig, StrategyStatus,
    StrategyType, TokenMetadata,
};

fn p(b: u8) -> Principal {
    Principal::from_slice(&[b, 3])
}

fn ctx(now: u64, caller: Principal) -> CallContext {
    CallContext { now, caller, canister_id: Principal::from_slice(&[0, 9]) }
}

fn token(b: u8, symbol: &str) -> TokenMetadata {
    TokenMetadata { canister_id: p(b), symbol: symbol.to_string(), decimals: 8 }
}

fn hedging_config(size: u128, interval: u64) -> SelfHedgingConfig {
    SelfHedgingConfig {
        exchange: Exchange::ICPSwap,
        trading_token: token(40, "ICP"),
        transaction_size: size,
        order_split_type: OrderSplitType::NoSplit,
        check_interval_secs: interval,
    }
}

fn dca_config() -> DCAConfig {
    DCAConfig {
        exchange: Exchange::KongSwap,
        base_token: token(41, "ckBTC"),
        quote_token: token(42, "ICP"),
        amount_per_execution: 10,
        interval_secs: 60,
        max_executions: None,
    }
}

fn funded_state(owner: Principal, amount: u64) -> FactoryState {
    let mut s = FactoryState::new();
    s.ledger.process_deposit(&ctx(1, owner), &owner, amount).unwrap();
    s
}

#[test]
fn error_texts() {
    assert_eq!(DeploymentError::ConfigError("x".to_string()).to_string(), "Configuration error: x");
    assert_eq!(DeploymentError::PaymentError("no \"money\"".to_string()).to_string(), "Payment error: \"no \\\"money\\\"\"");
    assert_eq!(
        DeploymentError::PaymentError("a\u{200B}b é".to_string()).to_string(),
        "Payment error: \"a\\u{200b}b é\""
    );
    assert_eq!(DeploymentError::ModuleNotFound(StrategyType::LimitOrder).to_string(), "LimitOrder strategy WASM module not found");
    assert_eq!(DeploymentError::RecordNotFound("r".to_string()).to_string(), "Record not found: r");
    assert_eq!(DeploymentError::SystemError("s".to_string()).to_string(), "System error: s");
    let mapped = map_deployment_error::<u8, _>(Err("bad".to_string()), DeploymentError::MetadataError);
    assert_eq!(mapped.unwrap_err().to_string(), "Metadata error: bad");
    let ok = map_deployment_error(Ok(3u8), DeploymentError::MetadataError);
    assert_eq!(ok.unwrap(), 3);
}

#[test]
fn embedded_modules() {
    let real = vec![0u8, 0x61, 0x73, 0x6d, 1, 0, 0, 0, 42];
    assert_eq!(get_embedded_wasm_module(StrategyType::SelfHedging, &real), Some(real.clone()));
    assert_eq!(get_embedded_wasm_module(StrategyType::DollarCostAveraging, &real), Some(vec![0, 0x61, 0x73, 0x6d, 1, 0, 0, 0]));
}

#[test]
fn init_methods_and_ledger_principal() {
    assert_eq!(init_method_name(StrategyType::DollarCostAveraging), "init_dca");
    assert_eq!(init_method_name(StrategyType::SelfHedging), "init_self_hedging");
    let mut s = String::new();
    push_principal(&mut s, &icp_ledger_principal());
    assert_eq!(s, "ryjl3-tyaaa-aaaaa-aaaba-cai");
}

#[test]
fn metadata_from_configurations() {
    let m = create_strategy_metadata(&p(1), &p(2), 77, &StrategyConfigData::Dca(dca_config())).unwrap();
    assert_eq!(m.strategy_type, StrategyType::DollarCostAveraging);
    assert_eq!(m.owner, p(1));
    assert_eq!(m.canister_id, p(2));
    assert_eq!(m.created_at, 77);
    assert_eq!(m.status, StrategyStatus::Created);
    assert_eq!(m.exchange, Exchange::KongSwap);
    assert_eq!(m.trading_pair.base_token.symbol, "ckBTC");
    let h = create_strategy_metadata(&p(1), &p(2), 5, &StrategyConfigData::SelfHedging(hedging_config(1, 1))).unwrap();
    assert_eq!(h.trading_pair.base_token.canister_id, p(40));
    assert_eq!(h.trading_pair.quote_token.canister_id, p(40));
    let fixed = FixedBalanceConfig { exchange: Exchange::ICPSwap, token_allocations: vec![token(43, "CHAT")], interval_secs: 1 };
    let f = create_strategy_metadata(&p(1), &p(2), 5, &StrategyConfigData::FixedBalance(fixed)).unwrap();
    assert_eq!(f.trading_pair.base_token.symbol, "CHAT");
    assert_eq!(f.trading_pair.quote_token.canister_id, icp_ledger_principal());
    assert_eq!(f.trading_pair.quote_token.symbol, "ICP");
    let empty = FixedBalanceConfig { exchange: Exchange::ICPSwap, token_allocations: vec![], interval_secs: 1 };
    assert_eq!(
        create_strategy_metadata(&p(1), &p(2), 5, &StrategyConfigData::FixedBalance(empty)).unwrap_err(),
        "Fixed Balance strategy must have at least one token allocation"
    );
}

#[test]
fn deployment_records_start_paid() {
    let r = create_deployment_record("d7", StrategyType::SelfHedging, &p(1), 300, Ok(vec![9, 9]), 55).unwrap();
    assert_eq!(r.deployment_id, "d7");
    assert_eq!(r.status, DeploymentStatus::PaymentReceived);
    assert_eq!(r.config_data, vec![9, 9]);
    assert_eq!(r.request_time, 55);
    assert_eq!(r.last_updated, 55);
    assert_eq!(r.canister_id, None);
    let e = create_deployment_record("d7", StrategyType::SelfHedging, &p(1), 300, Err("bad bytes".to_string()), 55);
    assert_eq!(e.unwrap_err().to_string(), "Configuration error: Failed to serialize config: bad bytes");
}

#[test]
fn requests_are_refused_before_any_charge() {
    let mut s = funded_state(p(1), 500_000_000);
    let c = ctx(10, p(1));
    assert_eq!(
        s.create_strategy_request(&c, &hedging_config(0, 5), Ok(vec![])).unwrap_err(),
        "Configuration error: Transaction size must be greater than 0"
    );
    let mut poor = funded_state(p(1), 1_000_000);
    assert_eq!(
        poor.create_strategy_request(&c, &hedging_config(5, 5), Ok(vec![])).unwrap_err(),
        "Payment error: \"Insufficient balance: 1.00000000 ICP required, but your balance is too low\""
    );
    assert_eq!(s.ledger.get_user_account(&p(1)).balance, 500_000_000);
}

#[test]
fn request_charges_fee_and_stores_record() {
    let mut s = funded_state(p(1), 500_000_000);
    let c = ctx(10, p(1));
    let req = s.create_strategy_request(&c, &hedging_config(5, 5), Ok(vec![1, 2, 3])).unwrap();
    let mut owner = String::new();
    push_principal(&mut owner, &p(1));
    assert_eq!(req.deployment_id, format!("10-{}-0", owner));
    assert_eq!(req.fee_amount, 100_000_000);
    assert_eq!(req.strategy_type, StrategyType::SelfHedging);
    assert_eq!(s.ledger.get_user_account(&p(1)).balance, 400_000_000);
    let t = s.ledger.get_all_transaction_records().pop().unwrap();
    assert_eq!(t.description, "Deployment fee for SelfHedging strategy");
    assert_eq!(t.transaction_type, TransactionType::DeploymentFee);
    let rec = s.start_deployment(&req.deployment_id).unwrap();
    assert_eq!(rec.status, DeploymentStatus::PaymentReceived);
    assert_eq!(rec.config_data, vec![1, 2, 3]);
    assert_eq!(
        s.start_deployment("nope").unwrap_err(),
        "Record not found: Deployment record not found for ID: nope"
    );
}

#[test]
fn a_successful_run_registers_the_strategy() {
    let mut s = funded_state(p(1), 500_000_000);
    let req = s.create_strategy_request(&ctx(10, p(1)), &hedging_config(5, 5), Ok(vec![])).unwrap();
    let id = req.deployment_id.as_str();
    let a = s.on_canister_created(&ctx(11, p(1)), id, Ok(p(50)));
    assert!(matches!(a, DeploymentAction::InstallCode(c) if c == p(50)));
    assert_eq!(s.get_deployment_record(id).unwrap().status, DeploymentStatus::CanisterCreated);
    let a = s.on_code_installed(&ctx(12, p(1)), id, p(50), Ok(()));
    assert!(matches!(a, DeploymentAction::InitializeStrategy(c) if c == p(50)));
    assert_eq!(s.get_deployment_record(id).unwrap().status, DeploymentStatus::CodeInstalled);
    let a = s.on_strategy_initialized(
        &ctx(13, p(1)),
        id,
        p(50),
        InitOutcome::Initialized(StrategyConfigData::SelfHedging(hedging_config(5, 5))),
    );
    assert!(matches!(a, DeploymentAction::Finished(Ok(DeploymentResult::Success(c))) if c == p(50)));
    let rec = s.get_deployment_record(id).unwrap();
    assert_eq!(rec.status, DeploymentStatus::Deployed);
    assert_eq!(rec.canister_id, Some(p(50)));
    assert_eq!(rec.last_updated, 13);
    let m = s.get_strategy_metadata(&p(50)).unwrap();
    assert_eq!(m.owner, p(1));
    assert_eq!(m.created_at, 13);
    assert_eq!(s.owner_strategies.get(&p(1)).unwrap().clone(), vec![p(50)]);
}

#[test]
fn a_failed_step_refunds_the_fee() {
    let mut s = funded_state(p(1), 500_000_000);
    let req = s.create_strategy_request(&ctx(10, p(1)), &hedging_config(5, 5), Ok(vec![])).unwrap();
    let id = req.deployment_id.as_str();
    s.on_canister_created(&ctx(11, p(1)), id, Ok(p(50)));
    let a = s.on_code_installed(&ctx(12, p(1)), id, p(50), Err("out of cycles".to_string()));
    match a {
        DeploymentAction::Finished(Ok(DeploymentResult::Failure(m))) => {
            assert_eq!(m, "Code installation failed: out of cycles")
        },
        other => panic!("unexpected {:?}", other),
    }
    let rec = s.get_deployment_record(id).unwrap();
    assert_eq!(rec.status, DeploymentStatus::Refunded);
    assert_eq!(rec.error_message, Some("Code installation failed: out of cycles".to_string()));
    assert_eq!(s.ledger.get_user_account(&p(1)).balance, 500_000_000);
    let t = s.ledger.get_all_transaction_records().pop().unwrap();
    assert_eq!(t.transaction_type, TransactionType::Refund);
    assert_eq!(t.description, format!("Refund for failed deployment (ID: {})", id));
}

#[test]
fn failed_canister_creation_and_initialization() {
    let mut s = funded_state(p(1), 500_000_000);
    let req = s.create_strategy_request(&ctx(10, p(1)), &hedging_config(5, 5), Ok(vec![])).unwrap();
    let id = req.deployment_id.clone();
    let a = s.on_canister_created(&ctx(11, p(1)), &id, Err("no cycles".to_string()));
    assert!(matches!(a, DeploymentAction::Finished(Ok(DeploymentResult::Failure(ref m))) if m == "Canister creation failed: no cycles"));
    assert_eq!(s.ledger.get_user_account(&p(1)).balance, 500_000_000);

    let req2 = s.create_strategy_request(&ctx(20, p(1)), &hedging_config(5, 5), Ok(vec![])).unwrap();
    let id2 = req2.deployment_id.clone();
    s.on_canister_created(&ctx(21, p(1)), &id2, Ok(p(51)));
    s.on_code_installed(&ctx(22, p(1)), &id2, p(51), Ok(()));
    let a = s.on_strategy_initialized(
        &ctx(23, p(1)),
        &id2,
        p(51),
        InitOutcome::CallRejected { code: "CanisterError".to_string(), message: "trap".to_string() },
    );
    assert!(matches!(a, DeploymentAction::Finished(Ok(DeploymentResult::Failure(ref m)))
        if m == "Strategy initialization failed: Failed to initialize strategy: code=CanisterError, message=trap"));
    let a = s.on_strategy_initialized(&ctx(24, p(1)), "gone", p(51), InitOutcome::DecodeFailed("x".to_string()));
    assert!(matches!(a, DeploymentAction::Finished(Err(ref e)) if e == "Failed to update deployment status: Deployment record not found: gone"));
}

#[test]
fn refund_of_a_failed_run() {
    let mut s = funded_state(p(1), 500_000_000);
    let req = s.create_strategy_request(&ctx(10, p(1)), &hedging_config(5, 5), Ok(vec![])).unwrap();
    assert_eq!(s.ledger.get_user_account(&p(1)).balance, 400_000_000);
    s.refund_failed_run(&ctx(11, p(1)), &req.deployment_id);
    assert_eq!(s.ledger.get_user_account(&p(1)).balance, 500_000_000);
    assert_eq!(s.get_deployment_record(&req.deployment_id).unwrap().status, DeploymentStatus::Refunded);
    s.refund_failed_run(&ctx(12, p(1)), "unknown");
    assert_eq!(s.ledger.get_user_account(&p(1)).balance, 500_000_000);
}

#[test]
fn a_dca_request_is_taken_and_charged() {
    let mut s = funded_state(p(1), 500_000_000);
    let req = s.create_strategy_request(&ctx(10, p(1)), &dca_config(), Ok(vec![4])).unwrap();
    assert_eq!(req.strategy_type, StrategyType::DollarCostAveraging);
    assert_eq!(req.fee_amount, 100_000_000);
    assert_eq!(s.ledger.get_user_account(&p(1)).balance, 400_000_000);
    let rec = s.get_deployment_record(&req.deployment_id).unwrap();
    assert_eq!(rec.status, DeploymentStatus::PaymentReceived);
    assert_eq!(rec.strategy_type, StrategyType::DollarCostAveraging);
    assert_eq!(rec.owner, p(1));
    let t = s.ledger.get_all_transaction_records().pop().unwrap();
    assert_eq!(t.description, "Deployment fee for DollarCostAveraging strategy");
}

#[test]
fn a_failed_run_is_refunded_once() {
    let mut s = funded_state(p(1), 500_000_000);
    let req = s.create_strategy_request(&ctx(10, p(1)), &hedging_config(5, 5), Ok(vec![])).unwrap();
    let id = req.deployment_id.clone();
    s.on_canister_created(&ctx(11, p(1)), &id, Err("no cycles".to_string()));
    assert_eq!(s.get_deployment_record(&id).unwrap().status, DeploymentStatus::Refunded);
    assert_eq!(s.ledger.get_user_account(&p(1)).balance, 500_000_000);
    assert_eq!(process_failed_deployments(&mut s, &ctx(12, p(1))), Ok(0));
    assert_eq!(s.ledger.get_user_account(&p(1)).balance, 500_000_000);
}

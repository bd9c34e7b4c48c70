use hunterfi::principal::Principal;
use hunterfi::state::{FactoryState, RETENTION_PERIOD_NS};
use hunterfi::text::push_principal;
use hunterfi::types::{
    DeploymentRecord, DeploymentStatus, Exchange, StrategyMetadata, StrategyStatus, StrategyType, TokenMetadata,
    TradingPair,
};

fn p(b: u8) -> Principal {
    Principal::from_slice(&[b, 7])
}

fn record(id: &str, owner: Principal, status: DeploymentStatus, last_updated: u64) -> DeploymentRecord {
    DeploymentRecord {
        deployment_id: id.to_string(),
        strategy_type: StrategyType::DollarCostAveraging,
        owner,
        fee_amount: 100,
        request_time: 1,
        status,
        canister_id: None,
        config_data: vec![1, 2],
        error_message: None,
        last_updated,
    }
}

fn token(b: u8, symbol: &str) -> TokenMetadata {
    TokenMetadata { canister_id: p(b), symbol: symbol.to_string(), decimals: 8 }
}

fn metadata(canister: Principal, owner: Principal) -> StrategyMetadata {
    StrategyMetadata {
        canister_id: canister,
        strategy_type: StrategyType::SelfHedging,
        owner,
        created_at: 5,
        status: StrategyStatus::Created,
        exchange: Exchange::ICPSwap,
        trading_pair: TradingPair { base_token: token(20, "ICP"), quote_token: token(21, "ckBTC") },
    }
}

fn text_of(x: &Principal) -> String {
    let mut s = String::new();
    push_principal(&mut s, x);
    s
}

#[test]
fn deployment_ids_count_up() {
    let mut s = FactoryState::new();
    let a = s.generate_deployment_id(100, &p(1));
    let b = s.generate_deployment_id(100, &p(1));
    assert_eq!(a, format!("100-{}-0", text_of(&p(1))));
    assert_eq!(b, format!("100-{}-1", text_of(&p(1))));
    assert_eq!(s.deployment_id_counter, 2);
}

#[test]
fn records_are_stored_and_updated() {
    let mut s = FactoryState::new();
    s.store_deployment_record(record("d1", p(1), DeploymentStatus::PaymentReceived, 10));
    assert!(s.get_deployment_record("missing").is_none());
    assert_eq!(
        s.update_deployment_status("missing", DeploymentStatus::Deployed, None, None, 20),
        Err("Deployment record not found: missing".to_string())
    );
    assert_eq!(s.update_deployment_status("d1", DeploymentStatus::CanisterCreated, Some(p(9)), None, 20), Ok(()));
    let r = s.get_deployment_record("d1").unwrap();
    assert_eq!(r.status, DeploymentStatus::CanisterCreated);
    assert_eq!(r.canister_id, Some(p(9)));
    assert_eq!(r.last_updated, 20);
    assert_eq!(r.error_message, None);
    assert_eq!(
        s.update_deployment_status("d1", DeploymentStatus::DeploymentFailed, None, Some("boom".to_string()), 30),
        Ok(())
    );
    let r = s.get_deployment_record("d1").unwrap();
    assert_eq!(r.canister_id, Some(p(9)));
    assert_eq!(r.error_message, Some("boom".to_string()));
    assert_eq!(r.status, DeploymentStatus::DeploymentFailed);
}

#[test]
fn record_queries_filter_in_stored_order() {
    let mut s = FactoryState::new();
    s.store_deployment_record(record("a", p(1), DeploymentStatus::Deployed, 1));
    s.store_deployment_record(record("b", p(2), DeploymentStatus::DeploymentFailed, 2));
    s.store_deployment_record(record("c", p(1), DeploymentStatus::DeploymentFailed, 3));
    let ids = |v: Vec<DeploymentRecord>| v.into_iter().map(|r| r.deployment_id).collect::<Vec<_>>();
    assert_eq!(ids(s.get_all_deployment_records()), vec!["a", "b", "c"]);
    assert_eq!(ids(s.get_deployment_records_by_owner(&p(1))), vec!["a", "c"]);
    assert_eq!(ids(s.get_deployment_records_by_status(DeploymentStatus::DeploymentFailed)), vec!["b", "c"]);
    assert!(ids(s.get_deployment_records_by_owner(&p(3))).is_empty());
}

#[test]
fn strategies_are_registered_under_owner() {
    let mut s = FactoryState::new();
    s.store_strategy_metadata(metadata(p(10), p(1)));
    s.store_strategy_metadata(metadata(p(11), p(1)));
    s.store_strategy_metadata(metadata(p(12), p(2)));
    assert_eq!(s.get_strategy_metadata(&p(11)).unwrap().owner, p(1));
    assert!(s.get_strategy_metadata(&p(13)).is_none());
    assert_eq!(s.owner_strategies.get(&p(1)).unwrap().clone(), vec![p(10), p(11)]);
    assert_eq!(s.owner_strategies.get(&p(2)).unwrap().clone(), vec![p(12)]);
}

#[test]
fn memory_usage_is_estimated_from_record_count() {
    let mut s = FactoryState::new();
    assert_eq!(s.get_memory_usage_percent(), 0);
    assert!(!s.should_archive_records());
    for i in 0..10_000u32 {
        s.store_deployment_record(record(&format!("r{}", i), p(1), DeploymentStatus::Deployed, 1));
    }
    // 10,000 records of 500 bytes in 4 GiB: under 1 percent.
    assert_eq!(s.get_memory_usage_percent(), 0);
    assert!(!s.should_archive_records());
}

#[test]
fn archiving_removes_only_old_completed_records() {
    let mut s = FactoryState::new();
    let now = RETENTION_PERIOD_NS + 1000;
    s.store_deployment_record(record("old-deployed", p(1), DeploymentStatus::Deployed, 10));
    s.store_deployment_record(record("old-refunded", p(1), DeploymentStatus::Refunded, 999));
    s.store_deployment_record(record("old-failed", p(1), DeploymentStatus::DeploymentFailed, 10));
    s.store_deployment_record(record("new-deployed", p(1), DeploymentStatus::Deployed, 1000));
    assert_eq!(s.archive_old_deployment_records(now), 2);
    let left: Vec<String> = s.get_all_deployment_records().into_iter().map(|r| r.deployment_id).collect();
    assert_eq!(left, vec!["old-failed", "new-deployed"]);
    assert_eq!(s.archive_old_deployment_records(now), 0);
}

#[test]
fn archiving_before_the_retention_period_keeps_everything() {
    let mut s = FactoryState::new();
    s.store_deployment_record(record("d", p(1), DeploymentStatus::Deployed, 0));
    assert_eq!(s.archive_old_deployment_records(RETENTION_PERIOD_NS - 1), 0);
    assert_eq!(s.get_all_deployment_records().len(), 1);
}

#[test]
fn records_and_strategies_are_listed_in_stored_key_order() {
    let mut s = FactoryState::new();
    s.store_deployment_record(record("zz", p(1), DeploymentStatus::Deployed, 1));
    s.store_deployment_record(record("b", p(1), DeploymentStatus::Deployed, 1));
    s.store_deployment_record(record("a", p(1), DeploymentStatus::Deployed, 1));
    s.store_deployment_record(record("\u{e9}", p(1), DeploymentStatus::Deployed, 1));
    let ids: Vec<String> = s.get_all_deployment_records().into_iter().map(|r| r.deployment_id).collect();
    // Shorter keys first (their length leads the stored bytes), then byte order.
    assert_eq!(ids, vec!["a", "b", "zz", "\u{e9}"]);
    s.store_strategy_metadata(metadata(Principal::from_slice(&[9, 9, 9]), p(2)));
    s.store_strategy_metadata(metadata(Principal::from_slice(&[10, 5]), p(2)));
    let canisters: Vec<Principal> = s.get_all_strategies().into_iter().map(|m| m.canister_id).collect();
    assert_eq!(canisters, vec![Principal::from_slice(&[10, 5]), Principal::from_slice(&[9, 9, 9])]);
}

use hunterfi::exchange::{ExchangeError, TokenStandard, TradeDirection};
use hunterfi::hedge_run::{
    reverse_direction, should_split_first, should_split_second, ExecutionStart, HedgeAction, HedgePhase, HedgeRun,
};
use hunterfi::hedging::{
    create_token_info, token_standard_from_string, transfer_outcome, HedgePair, HedgeToken, HedgingConfig,
    SelfHedgingState,
};
use hunterfi::intervals::TimerRegistry;
use hunterfi::principal::Principal;
use hunterfi::split::{get_split_order_count, split_amount};
use hunterfi::state::CallContext;
use hunterfi::text::push_principal;
use hunterfi::types::{Exchange, OrderSplitType, StrategyResult, StrategyStatus};

fn p(b: u8) -> Principal {
    Principal::from_slice(&[b, b])
}

fn text_of(x: &Principal) -> String {
    let mut s = String::new();
    push_principal(&mut s, x);
    s
}

fn hedge_token(b: u8, symbol: &str, standard: &str) -> HedgeToken {
    HedgeToken { canister_id: p(b), symbol: symbol.to_string(), decimals: 8, standard: standard.to_string(), fee: 10 }
}

fn config(hold: Principal, size: u128, split: OrderSplitType) -> HedgingConfig {
    HedgingConfig {
        exchange: Exchange::ICPSwap,
        trading_pair: HedgePair { base_token: hedge_token(1, "BASE", "icrc2"), quote_token: hedge_token(2, "QUOTE", "ICP") },
        hold_token: hold,
        transaction_size: size,
        order_split_type: split,
        check_interval_secs: 60,
    }
}

fn owner_ctx() -> CallContext {
    CallContext { now: 0, caller: p(9), canister_id: p(8) }
}

fn error_of(r: StrategyResult) -> String {
    match r {
        StrategyResult::Error(e) => e,
        StrategyResult::Success => panic!("expected an error"),
    }
}

fn running_state(split: OrderSplitType) -> (SelfHedgingState, TimerRegistry) {
    let mut s = SelfHedgingState::new();
    assert!(matches!(s.init_self_hedging(p(9), config(p(1), 1000, split), true), StrategyResult::Success));
    let mut timers = TimerRegistry::new();
    let (r, timer, cleared) = s.start(&mut timers, 100);
    assert!(matches!(r, StrategyResult::Success));
    assert_eq!(timer.id, "self_hedging_execution");
    assert_eq!(timer.interval_seconds, 60);
    assert!(timer.enabled);
    assert_eq!(cleared, None);
    timers.register_timer("self_hedging_execution", 11);
    (s, timers)
}

#[test]
fn split_counts_and_amounts() {
    assert_eq!(get_split_order_count(0), 3);
    assert_eq!(get_split_order_count(7), 10);
    assert_eq!(get_split_order_count(13), 8);
    assert_eq!(split_amount(1000, 4, 7), vec![88, 359, 432, 121]);
    assert_eq!(split_amount(100, 3, 0), vec![3, 40, 57]);
    assert_eq!(split_amount(10, 5, 3), vec![1, 2, 4, 1, 2]);
    assert_eq!(split_amount(0, 5, 3), vec![0]);
    assert_eq!(split_amount(2, 5, 3), vec![1, 1, 0, 0, 0]);
    assert_eq!(split_amount(2, 5, 3).iter().sum::<u128>(), 2);
    let huge = split_amount(u128::MAX, 4, 99);
    assert_eq!(huge.len(), 4);
    assert_eq!(huge.iter().fold(0u128, |a, b| a.checked_add(*b).unwrap()), u128::MAX);
    assert_eq!(split_amount(42, 1, 3), vec![42]);
    let big = split_amount(1_000_000, 10, 123456789);
    assert_eq!(big.len(), 10);
    assert_eq!(big.iter().sum::<u128>(), 1_000_000);
}

#[test]
fn split_directions() {
    assert!(!should_split_first(OrderSplitType::NoSplit, true));
    assert!(should_split_first(OrderSplitType::SplitSell, true));
    assert!(!should_split_first(OrderSplitType::SplitSell, false));
    assert!(should_split_first(OrderSplitType::SplitBuy, false));
    assert!(should_split_second(OrderSplitType::SplitBuy, TradeDirection::Buy));
    assert!(!should_split_second(OrderSplitType::SplitBuy, TradeDirection::Sell));
    assert!(should_split_second(OrderSplitType::SplitBoth, TradeDirection::Sell));
    assert_eq!(reverse_direction(TradeDirection::Buy), TradeDirection::Sell);
}

#[test]
fn token_standards_from_names() {
    assert_eq!(token_standard_from_string("icrc2"), TokenStandard::ICRC2);
    assert_eq!(token_standard_from_string("Dip20"), TokenStandard::DIP20);
    assert_eq!(token_standard_from_string("icp"), TokenStandard::ICP);
    assert_eq!(token_standard_from_string("unknown"), TokenStandard::ICRC1);
    let info = create_token_info(&hedge_token(3, "T", "ext"));
    assert_eq!(info.standard, TokenStandard::EXT);
    assert_eq!(info.symbol, "T");
    assert_eq!(info.canister_id, p(3));
}

#[test]
fn initialization_checks_in_order() {
    let mut s = SelfHedgingState::new();
    assert_eq!(error_of(s.init_self_hedging(p(9), config(p(1), 0, OrderSplitType::NoSplit), true)), "Transaction size must be greater than zero");
    let mut bad_interval = config(p(1), 5, OrderSplitType::NoSplit);
    bad_interval.check_interval_secs = 0;
    assert_eq!(error_of(s.init_self_hedging(p(9), bad_interval, true)), "Check interval cannot be zero");
    let mut anon = config(p(1), 5, OrderSplitType::NoSplit);
    anon.trading_pair.quote_token.canister_id = Principal::anonymous();
    assert_eq!(error_of(s.init_self_hedging(p(9), anon, true)), "Invalid token canister IDs in trading pair");
    assert_eq!(error_of(s.init_self_hedging(p(9), config(p(3), 5, OrderSplitType::NoSplit), true)), "Invalid hold token");
    assert_eq!(
        error_of(s.init_self_hedging(p(9), config(p(1), 5, OrderSplitType::NoSplit), false)),
        "Slippage tolerance must be between 0 and 100"
    );
    assert!(matches!(s.init_self_hedging(p(9), config(p(2), 5, OrderSplitType::SplitBuy), true), StrategyResult::Success));
    assert_eq!(s.owner, p(9));
    assert_eq!(s.transaction_size, 5);
    assert!(!s.hold_token_is_base());
    assert_eq!(error_of(s.init_self_hedging(p(9), config(p(1), 5, OrderSplitType::NoSplit), true)), "Strategy already initialized");
}

#[test]
fn owner_and_status_checks() {
    let mut s = SelfHedgingState::new();
    s.init_self_hedging(p(9), config(p(1), 5, OrderSplitType::NoSplit), true);
    let stranger = CallContext { now: 0, caller: p(7), canister_id: p(8) };
    assert_eq!(s.verify_owner(&stranger), Err("Caller is not the owner".to_string()));
    let itself = CallContext { now: 0, caller: p(8), canister_id: p(8) };
    assert_eq!(s.verify_owner(&itself), Ok(()));
    assert_eq!(
        s.verify_status(&[StrategyStatus::Running, StrategyStatus::Paused]),
        Err("Invalid strategy status: Created, expected one of: [Running, Paused]".to_string())
    );
    assert_eq!(s.check_start(&owner_ctx()), Ok(()));
    let mut timers = TimerRegistry::new();
    let (r, _) = s.pause(&owner_ctx(), &mut timers);
    assert_eq!(error_of(r), "Invalid strategy status: Created, expected one of: [Running]");
    assert!(s.get_state(&stranger).is_err());
    assert_eq!(s.get_state(&owner_ctx()).unwrap().owner, p(9));
}

#[test]
fn pause_and_stop_clear_the_execution_timer() {
    let (mut s, mut timers) = running_state(OrderSplitType::NoSplit);
    assert_eq!(s.get_status(), StrategyStatus::Running);
    assert_eq!(
        s.check_start(&owner_ctx()),
        Err("Invalid strategy status: Running, expected one of: [Created, Paused, Terminated]".to_string())
    );
    let (r, handle) = s.pause(&owner_ctx(), &mut timers);
    assert!(matches!(r, StrategyResult::Success));
    assert_eq!(handle, Some(11));
    assert_eq!(s.get_status(), StrategyStatus::Paused);
    let (r, handle) = s.stop(&owner_ctx(), &mut timers);
    assert!(matches!(r, StrategyResult::Success));
    assert_eq!(handle, None);
    assert_eq!(s.get_status(), StrategyStatus::Terminated);
}

#[test]
fn balances_are_ordered_by_the_pool_token0() {
    let (mut s, _) = running_state(OrderSplitType::NoSplit);
    let base_text = text_of(&p(1));
    assert_eq!(s.check_icpswap_balance(Ok((5, 6, base_text.clone())), 1), Ok((5, 6)));
    assert_eq!(s.check_icpswap_balance(Ok((5, 6, "other".to_string())), 2), Ok((6, 5)));
    assert_eq!(s.base_token_unused_balance, 6);
    assert_eq!(s.last_balance_check, Some(2));
    assert_eq!(
        s.check_icpswap_balance(Err(ExchangeError::Timeout), 3),
        Err("Failed to get unused balance: Timeout".to_string())
    );
    assert_eq!(s.last_balance_check, Some(2));
    assert_eq!(
        s.check_start_funds(Ok(()), Ok((0, 0, base_text.clone())), 4),
        Err("No balance available in ICPSwap. Please deposit tokens first.".to_string())
    );
    assert_eq!(
        s.check_start_funds(Err(ExchangeError::PoolNotFound), Ok((1, 0, base_text.clone())), 4),
        Err("Failed to get pool info: PoolNotFound".to_string())
    );
    assert_eq!(s.check_start_funds(Ok(()), Ok((1, 0, base_text.clone())), 5), Ok(()));
    assert_eq!(
        s.check_withdraw_amount(true, 2, Ok((1, 0, base_text.clone())), 6),
        Err("Insufficient unused balance. Available: 1, Requested: 2".to_string())
    );
    assert_eq!(s.check_withdraw_amount(true, 1, Ok((1, 0, base_text)), 6), Ok(()));
    assert_eq!(
        error_of(s.refresh_balance(Err(ExchangeError::Unknown("x".to_string())), 7)),
        "Failed to refresh balance: Failed to get unused balance: Unknown(\"x\")"
    );
}

#[test]
fn a_run_needs_the_cooldown() {
    let (mut s, _) = running_state(OrderSplitType::NoSplit);
    assert_eq!(s.begin_execution(0), Ok(()));
    s.update_state_after_execution(10, 1_000);
    assert_eq!(s.begin_execution(1_000 + 4_999_999_999), Err("Previous execution may still be in progress".to_string()));
    assert_eq!(s.begin_execution(1_000 + 5_000_000_000), Ok(()));
    let mut stopped = SelfHedgingState::new();
    assert_eq!(stopped.begin_execution(0), Err("Invalid strategy status: Created, expected one of: [Running]".to_string()));
    let v = s.get_volume_stats();
    assert_eq!((v.total_volume, v.execution_count, v.last_execution), (10, 1, Some(1_000)));
    assert_eq!(v.token_symbol, "BASE");
    stopped.update_unused_balance(1, 2, 3);
    let b = stopped.get_balance_info(77);
    assert_eq!((b.base_token_unused, b.quote_token_unused, b.canister_balance, b.last_update), (1, 2, 77, Some(3)));
}

#[test]
fn a_low_hold_balance_pauses_the_strategy() {
    let (mut s, mut timers) = running_state(OrderSplitType::NoSplit);
    // 49 < 1000 / 20
    match s.plan_execution(&owner_ctx(), &mut timers, Ok((49, 0, text_of(&p(1)))), 200) {
        ExecutionStart::Finished(r, handle) => {
            assert_eq!(error_of(r), "Strategy paused: insufficient BASE balance (49) < 5% of transaction size (1000).");
            assert_eq!(handle, Some(11));
        },
        other => panic!("unexpected {:?}", other),
    }
    assert_eq!(s.get_status(), StrategyStatus::Paused);
}

#[test]
fn a_full_unsplit_run_trades_back_and_forth() {
    let (mut s, mut timers) = running_state(OrderSplitType::NoSplit);
    let mut run = match s.plan_execution(&owner_ctx(), &mut timers, Ok((5000, 0, text_of(&p(1)))), 1) {
        ExecutionStart::Hedge(run) => run,
        other => panic!("unexpected {:?}", other),
    };
    assert_eq!(run.orders, vec![1000]);
    assert!(matches!(run.next_action(), HedgeAction::Trade { direction: TradeDirection::Sell, amount: 1000 }));
    run.on_trade(Ok((1000, 990)));
    assert!(matches!(run.next_action(), HedgeAction::RefreshBalance));
    run.on_refreshed(2);
    assert_eq!(run.phase, HedgePhase::Second);
    assert_eq!(run.orders, vec![990]);
    assert!(matches!(run.next_action(), HedgeAction::Trade { direction: TradeDirection::Buy, amount: 990 }));
    run.on_trade(Ok((990, 995)));
    assert!(matches!(run.next_action(), HedgeAction::RefreshBalance));
    run.on_refreshed(3);
    let outcome = match run.next_action() {
        HedgeAction::Done(o) => o,
        other => panic!("unexpected {:?}", other),
    };
    assert_eq!(outcome, Ok(1990));
    assert!(matches!(s.finish_execution(outcome, 4), StrategyResult::Success));
    assert_eq!(s.volume_generated, 1990);
    assert_eq!(s.execution_count, 1);
    assert_eq!(s.last_execution, Some(4));
}

#[test]
fn a_split_first_stage_and_its_failure_report() {
    let (mut s, mut timers) = running_state(OrderSplitType::SplitSell);
    let mut run = match s.plan_execution(&owner_ctx(), &mut timers, Ok((5000, 0, text_of(&p(1)))), 1) {
        ExecutionStart::Hedge(run) => run,
        other => panic!("unexpected {:?}", other),
    };
    assert_eq!(run.orders, vec![34, 327, 466, 173]);
    assert!(matches!(run.next_action(), HedgeAction::Trade { amount: 34, .. }));
    run.on_trade(Ok((34, 30)));
    assert!(matches!(run.next_action(), HedgeAction::Trade { amount: 327, .. }));
    run.on_trade(Err(ExchangeError::SlippageExceeded));
    match run.next_action() {
        HedgeAction::Done(Err(m)) => {
            assert_eq!(m, "Stage 1 trade failed (Split order #2, Amount 327): SlippageExceeded")
        },
        other => panic!("unexpected {:?}", other),
    }
    assert_eq!(error_of(s.finish_execution(Err("Stage 1 trade failed".to_string()), 9)), "Failed to execute hedge trades: Stage 1 trade failed");
    assert_eq!(s.execution_count, 0);
}

#[test]
fn a_second_stage_split_order_that_fails_is_passed_over() {
    let mut run = HedgeRun::new(TradeDirection::Sell, vec![100], OrderSplitType::SplitBuy, true);
    assert!(!run.split);
    run.next_action();
    run.on_trade(Ok((100, 990)));
    run.next_action();
    run.on_refreshed(1);
    assert!(run.split);
    assert_eq!(run.orders, vec![32, 325, 462, 171]);
    run.next_action();
    run.on_trade(Err(ExchangeError::Timeout));
    assert!(matches!(run.next_action(), HedgeAction::Trade { amount: 325, direction: TradeDirection::Buy }));
}

#[test]
fn transfer_outcomes_and_config_updates() {
    assert!(matches!(transfer_outcome(Ok(5), true), StrategyResult::Success));
    assert_eq!(error_of(transfer_outcome(Err(ExchangeError::InsufficientFunds), true)), "Failed to deposit token: InsufficientFunds");
    assert_eq!(error_of(transfer_outcome(Err(ExchangeError::Timeout), false)), "Failed to withdraw token: Timeout");
    let mut s = SelfHedgingState::new();
    s.init_self_hedging(p(9), config(p(1), 5, OrderSplitType::NoSplit), true);
    assert_eq!(error_of(s.update_volume_config(&owner_ctx(), 0, OrderSplitType::SplitBoth)), "Transaction size must be greater than zero");
    assert!(matches!(s.update_volume_config(&owner_ctx(), 70, OrderSplitType::SplitBoth), StrategyResult::Success));
    assert_eq!((s.transaction_size, s.config.transaction_size), (70, 70));
    assert_eq!(
        error_of(s.update_config(&owner_ctx(), 5, OrderSplitType::NoSplit, 10, true, Principal::anonymous())),
        "Hold token not anonymous"
    );
    assert_eq!(
        error_of(s.update_config(&owner_ctx(), 5, OrderSplitType::NoSplit, 10, false, p(2))),
        "Slippage tolerance must be between 0 and 100"
    );
    assert!(matches!(s.update_config(&owner_ctx(), 5, OrderSplitType::NoSplit, 10, true, p(2)), StrategyResult::Success));
    assert_eq!(s.config.check_interval_secs, 10);
    assert_eq!(s.config.hold_token, p(2));
    assert_eq!(s.check_token_transfer(&owner_ctx(), "BASE"), Ok(true));
    assert_eq!(s.check_token_transfer(&owner_ctx(), "Quote"), Ok(false));
    assert_eq!(
        s.check_token_transfer(&owner_ctx(), "both"),
        Err("Invalid token type. Must be 'base' or 'quote'".to_string())
    );
    let info = s.get_trading_pair_info();
    assert_eq!((info.base_token_symbol.as_str(), info.quote_token_canister), ("BASE", p(2)));
    assert_eq!(
        error_of(SelfHedgingState::approval_failure(&ExchangeError::TokenApprovalFailed("no".to_string()))),
        "Failed to approve base token: TokenApprovalFailed(\"no\")"
    );
}

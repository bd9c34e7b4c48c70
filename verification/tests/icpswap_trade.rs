use hunterfi::exchange::{ExchangeError, TokenInfo, TokenStandard, TradeDirection};
use hunterfi::icpswap::{ICPSwapError, ICPSwapToken};
use hunterfi::icpswap_trade::{
    amount_from_result, approve_method, balances_from_result, get_pool_args, pool_from_result, pool_info_of,
    pool_transfer_method, quote_from_result, trade_transaction_id, withdraw_args, ApproveMethod, ICPSwapBalance,
    ICPSwapBalanceResult, ICPSwapPoolData, ICPSwapPoolResult, ICPSwapQuoteResult, ICPSwapResult, IcpswapTrade,
    PoolTransfer, TradeAction, TradeStep, POOL_FEE_TIER,
};
use hunterfi::principal::Principal;
use hunterfi::text::push_principal;

fn text_of(p: &Principal) -> String {
    let mut s = String::new();
    push_principal(&mut s, p);
    s
}

fn token(b: u8, symbol: &str, standard: TokenStandard) -> TokenInfo {
    TokenInfo { canister_id: Principal::from_slice(&[b, 1]), symbol: symbol.to_string(), decimals: 8, standard }
}

fn pool(fee: u128) -> ICPSwapPoolData {
    ICPSwapPoolData {
        fee,
        key: "k".to_string(),
        tick_spacing: 60,
        token0: ICPSwapToken { address: "a".to_string(), standard: "ICRC1".to_string() },
        token1: ICPSwapToken { address: "b".to_string(), standard: "ICRC2".to_string() },
        canister_id: Principal::from_slice(&[77]),
    }
}

#[test]
fn pool_lookup_orders_the_tokens() {
    let a = token(1, "A", TokenStandard::ICRC1);
    let b = token(2, "B", TokenStandard::ICRC2);
    let args = get_pool_args(&a, &b);
    assert_eq!(args.fee, POOL_FEE_TIER);
    assert_eq!(args.fee, 3000);
    let (first, second) = if text_of(&a.canister_id) < text_of(&b.canister_id) { (&a, &b) } else { (&b, &a) };
    assert_eq!(args.token0.address, text_of(&first.canister_id));
    assert_eq!(args.token1.address, text_of(&second.canister_id));
    let swapped = get_pool_args(&b, &a);
    assert_eq!(swapped.token0.address, args.token0.address);
    assert_eq!(swapped.token1.standard, args.token1.standard);
}

#[test]
fn answers_are_unwrapped_or_mapped() {
    assert_eq!(pool_from_result(ICPSwapPoolResult::ok(pool(3000))).unwrap().fee, 3000);
    assert!(matches!(pool_from_result(ICPSwapPoolResult::err(ICPSwapError::InsufficientFunds)), Err(ExchangeError::InsufficientFunds)));
    assert_eq!(quote_from_result(ICPSwapQuoteResult::ok(99)).unwrap(), 99);
    assert_eq!(
        quote_from_result(ICPSwapQuoteResult::err(ICPSwapError::CommonError)).unwrap_err().to_string(),
        "Unknown error: ICPSwap common error"
    );
    assert_eq!(amount_from_result(ICPSwapResult::ok(5)).unwrap(), 5);
    assert_eq!(
        amount_from_result(ICPSwapResult::err(ICPSwapError::InternalError("x".to_string()))).unwrap_err().to_string(),
        "Internal error: ICPSwap internal error: x"
    );
    assert_eq!(
        balances_from_result(ICPSwapBalanceResult::ok(ICPSwapBalance { balance0: 1, balance1: 2 })).unwrap(),
        (1, 2)
    );
    assert!(balances_from_result(ICPSwapBalanceResult::err(ICPSwapError::CommonError)).is_err());
}

#[test]
fn approvals_and_transfers_by_standard() {
    assert_eq!(approve_method(TokenStandard::DIP20).unwrap(), ApproveMethod::Dip20);
    assert_eq!(approve_method(TokenStandard::EXT).unwrap(), ApproveMethod::Ext);
    assert_eq!(approve_method(TokenStandard::ICRC2).unwrap(), ApproveMethod::Icrc2);
    assert_eq!(approve_method(TokenStandard::ICP).unwrap(), ApproveMethod::Icrc2);
    match approve_method(TokenStandard::ICRC1) {
        Err(ExchangeError::UnsupportedToken(m)) => assert_eq!(m, "Token standard ICRC1 does not support approve"),
        other => panic!("unexpected {:?}", other),
    }
    assert_eq!(pool_transfer_method(TokenStandard::ICRC1), PoolTransfer::Icrc1);
    assert_eq!(pool_transfer_method(TokenStandard::ICRC2), PoolTransfer::Icrc1);
    assert_eq!(pool_transfer_method(TokenStandard::ICP), PoolTransfer::IcpLedger);
    assert_eq!(pool_transfer_method(TokenStandard::EXT), PoolTransfer::NotNeeded);
}

#[test]
fn transaction_ids_name_the_pool() {
    assert_eq!(trade_transaction_id(&Principal::anonymous(), 12), "icpswap_2vxsx-fae_12");
    let w = withdraw_args(&token(3, "C", TokenStandard::DIP20), 0, 40);
    assert_eq!((w.fee, w.amount), (0, 40));
    assert_eq!(w.token, text_of(&Principal::from_slice(&[3, 1])));
}

#[test]
fn an_icrc1_sale_transfers_then_deposits() {
    let base = token(1, "A", TokenStandard::ICRC1);
    let quote = token(2, "B", TokenStandard::ICRC2);
    let mut t = IcpswapTrade::new(TradeDirection::Sell, base.clone(), quote.clone(), 500);
    assert!(matches!(t.next_action(), TradeAction::GetPool(a) if a.fee == 3000));
    t.on_pool(&pool(3000));
    assert_eq!(t.step, TradeStep::Quote);
    match t.next_action() {
        TradeAction::Quote(q) => {
            assert_eq!(q.amount_in, "500");
            assert_eq!(q.amount_out_minimum, "0");
        },
        other => panic!("unexpected {:?}", other),
    }
    assert!(t.on_quote(480).is_ok());
    assert_eq!(t.step, TradeStep::Transfer);
    assert_eq!(t.pool, Principal::from_slice(&[77]));
    assert!(matches!(t.next_action(), TradeAction::TransferToPool { amount: 500, fee: 10000 }));
    t.on_done();
    match t.next_action() {
        TradeAction::Deposit(d) => {
            assert_eq!((d.fee, d.amount), (10000, 500));
            assert_eq!(d.token, text_of(&base.canister_id));
        },
        other => panic!("unexpected {:?}", other),
    }
    t.on_done();
    match t.next_action() {
        TradeAction::Swap(s) => {
            assert_eq!(s.amount_in, "500");
            assert_eq!(s.amount_out_minimum, "480");
            assert_eq!(s.zero_for_one, text_of(&base.canister_id) < text_of(&quote.canister_id));
        },
        other => panic!("unexpected {:?}", other),
    }
    t.on_swapped(490);
    match t.next_action() {
        TradeAction::Withdraw(w) => {
            assert_eq!((w.fee, w.amount), (10, 490));
            assert_eq!(w.token, text_of(&quote.canister_id));
        },
        other => panic!("unexpected {:?}", other),
    }
    t.on_done();
    assert_eq!(t.step, TradeStep::Done);
    assert!(matches!(t.next_action(), TradeAction::Finished { output_amount: 490, pool_fee: 3000 }));
}

#[test]
fn a_purchase_with_an_icrc2_token_approves_then_draws() {
    let base = token(1, "A", TokenStandard::ICRC1);
    let quote = token(2, "B", TokenStandard::ICRC2);
    let mut t = IcpswapTrade::new(TradeDirection::Buy, base, quote.clone(), 7);
    t.on_pool(&pool(500));
    assert!(t.on_quote(6).is_ok());
    assert!(matches!(t.next_action(), TradeAction::Approve { amount: 700 }));
    t.on_done();
    match t.next_action() {
        TradeAction::DepositFrom(d) => {
            assert_eq!((d.fee, d.amount), (10, 7));
            assert_eq!(d.token, text_of(&quote.canister_id));
        },
        other => panic!("unexpected {:?}", other),
    }
    t.on_done();
    assert_eq!(t.step, TradeStep::Swap);
}

#[test]
fn a_pool_fee_beyond_64_bits_fails_the_trade() {
    let mut t = IcpswapTrade::new(
        TradeDirection::Sell,
        token(1, "A", TokenStandard::ICRC1),
        token(2, "B", TokenStandard::ICRC1),
        1,
    );
    t.on_pool(&pool(u64::MAX as u128 + 1));
    match t.on_quote(0) {
        Err(ExchangeError::InternalError(m)) => assert_eq!(
            m,
            "Failed to convert pool fee Nat 18446744073709551616 to u64: out of range conversion regarding big integer attempted"
        ),
        other => panic!("unexpected {:?}", other),
    }
    assert_eq!(t.step, TradeStep::Quote);
}

#[test]
fn pool_information_from_a_lookup() {
    let base = token(1, "BASE", TokenStandard::ICRC1);
    let quote = token(2, "QUOTE", TokenStandard::ICRC2);
    let mut data = pool(3000);
    data.token0.address = "ryjl3-tyaaa-aaaaa-aaaba-cai".to_string();
    data.token1.address = "2vxsx-fae".to_string();
    let info = pool_info_of(&data, &base, &quote).unwrap();
    assert_eq!(info.pool_id, Principal::from_slice(&[77]));
    assert_eq!(info.token0.canister_id.as_slice(), vec![0, 0, 0, 0, 0, 0, 0, 2, 1, 1]);
    assert_eq!(info.token0.symbol, "BASE");
    assert_eq!(info.token0.standard, TokenStandard::ICRC1);
    assert!(info.token1.canister_id.is_anonymous());
    assert_eq!(info.token1.standard, TokenStandard::ICRC2);
    assert_eq!((info.fee, info.total_liquidity), (3000, 0));

    let mut bad = pool(3000);
    bad.token0.address = "xyz!".to_string();
    match pool_info_of(&bad, &base, &quote) {
        Err(ExchangeError::InternalError(m)) => {
            assert_eq!(m, "Failed to parse token0 principal: Text must be in valid Base32 encoding.")
        },
        other => panic!("unexpected {:?}", other),
    }
    let mut odd = pool(3000);
    odd.token0.address = "2vxsx-fae".to_string();
    odd.token1.address = "2vxsx-fae".to_string();
    odd.token1.standard = "BEP20".to_string();
    match pool_info_of(&odd, &base, &quote) {
        Err(ExchangeError::UnsupportedToken(m)) => assert_eq!(m, "Unknown standard string: BEP20"),
        other => panic!("unexpected {:?}", other),
    }
}

#[test]
fn the_strategy_connector_uses_its_factory() {
    let c = hunterfi::hedge_run::create_icpswap_connector(&hunterfi::types::Exchange::KongSwap);
    assert_eq!(c.exchange_type, hunterfi::exchange::ExchangeType::ICPSwap);
    assert_eq!(text_of(&c.factory_canister_id), "4mmnk-kiaaa-aaaag-qbllq-cai");
    assert_eq!((c.settings.timeout_secs, c.settings.retry_count), (30, 3));
}

use hunterfi::exchange::{
    account_identifier_of, best_quote, default_account_identifier,
    generate_trade_id, principal_to_subaccount, string_to_token_standard, token_standard_name, validate_token_standard,
    validate_trade_params, ExchangeError, ExchangeType, TokenInfo, TokenStandard, TradeDirection,
};
use hunterfi::exchange_factory::{exchange_type_name_of, Connector, ExchangeFactory, ExchangePair, ExchangeSettings};
use hunterfi::icpswap::{
    check_deposit_standard, deposit_workflow, is_zero_for_one, map_icpswap_error, quote_args, swap_args,
    token_to_icpswap_token, trade_token_fee, trade_tokens, transfer_token_fee, BatchTradeRun, DepositWorkflow,
    ICPSwapError,
};
use hunterfi::principal::Principal;
use hunterfi::text::push_principal;

fn text_of(p: &Principal) -> String {
    let mut s = String::new();
    push_principal(&mut s, p);
    s
}

fn token(bytes: &[u8], symbol: &str, standard: TokenStandard) -> TokenInfo {
    TokenInfo { canister_id: Principal::from_slice(bytes), symbol: symbol.to_string(), decimals: 8, standard }
}

#[test]
fn exchange_error_messages() {
    assert_eq!(ExchangeError::NotImplemented.to_string(), "Functionality not implemented yet");
    assert_eq!(ExchangeError::InternalError("x".to_string()).to_string(), "Internal error: x");
    assert_eq!(ExchangeError::PoolNotFound.to_string(), "Liquidity pool not found");
    assert_eq!(ExchangeError::Unknown("u".to_string()).to_string(), "Unknown error: u");
    assert_eq!(ExchangeError::TokenApprovalFailed("t".to_string()).to_string(), "Token approval failed: t");
    assert_eq!(ExchangeError::InsufficientFunds.debug_text(), "InsufficientFunds");
    assert_eq!(ExchangeError::InvalidParameters("a \"b\"".to_string()).debug_text(), "InvalidParameters(\"a \\\"b\\\"\")");
}

#[test]
fn subaccount_is_length_then_bytes_then_zeros() {
    let s = principal_to_subaccount(&Principal::from_slice(&[9, 8, 7]));
    let mut expected = vec![3u8, 9, 8, 7];
    expected.resize(32, 0);
    assert_eq!(s, expected);
    assert_eq!(principal_to_subaccount(&Principal::from_slice(&[])), vec![0u8; 32]);
    let full = principal_to_subaccount(&Principal::from_slice(&[1u8; 29]));
    assert_eq!(full.len(), 32);
    assert_eq!(full[0], 29);
    assert_eq!(full[29], 1);
    assert_eq!(full[30], 0);
}

#[test]
fn trade_ids_join_user_and_time() {
    assert_eq!(generate_trade_id(&Principal::anonymous(), 1700000000), "2vxsx-fae_1700000000");
}

#[test]
fn token_standards_by_name() {
    assert_eq!(string_to_token_standard("ICRC2").unwrap(), TokenStandard::ICRC2);
    assert_eq!(string_to_token_standard("EXT").unwrap(), TokenStandard::EXT);
    match string_to_token_standard("icrc2") {
        Err(ExchangeError::UnsupportedToken(m)) => assert_eq!(m, "Unknown standard string: icrc2"),
        other => panic!("unexpected {:?}", other),
    }
    assert_eq!(token_standard_name(TokenStandard::DIP20), "DIP20");
    assert!(validate_token_standard(&token(&[1], "A", TokenStandard::ICP)).is_ok());
}

#[test]
fn trade_parameters_are_checked_in_order() {
    let a = token(&[1], "A", TokenStandard::ICRC1);
    let b = token(&[2], "B", TokenStandard::ICRC2);
    assert!(matches!(validate_trade_params(0, false, None, 10, &a, &b), Err(ExchangeError::InvalidAmount)));
    match validate_trade_params(5, false, None, 10, &a, &b) {
        Err(ExchangeError::InvalidParameters(m)) => assert_eq!(m, "Slippage tolerance must be between 0 and 100"),
        other => panic!("unexpected {:?}", other),
    }
    match validate_trade_params(5, true, Some(9), 10, &a, &b) {
        Err(ExchangeError::InvalidParameters(m)) => assert_eq!(m, "Deadline has passed"),
        other => panic!("unexpected {:?}", other),
    }
    assert!(validate_trade_params(5, true, Some(10), 10, &a, &b).is_ok());
    assert!(validate_trade_params(5, true, None, 10, &a, &b).is_ok());
}

#[test]
fn icpswap_names_tokens_and_orders_pools() {
    let icp = token(&[0, 0, 0, 0, 0, 0, 0, 2, 1, 1], "ICP", TokenStandard::ICP);
    let other = token(&[0, 0, 0, 0, 2, 48, 2, 73, 1, 1], "X", TokenStandard::ICRC2);
    let t = token_to_icpswap_token(&icp);
    assert_eq!(t.address, "ryjl3-tyaaa-aaaaa-aaaba-cai");
    assert_eq!(t.standard, "ICP");
    let expected = text_of(&icp.canister_id) < text_of(&other.canister_id);
    assert_eq!(is_zero_for_one(&icp, &other), expected);
    assert_eq!(is_zero_for_one(&other, &icp), !expected);
    assert!(!is_zero_for_one(&icp, &icp));
}

#[test]
fn icpswap_errors_map_to_exchange_errors() {
    assert_eq!(map_icpswap_error(ICPSwapError::CommonError).to_string(), "Unknown error: ICPSwap common error");
    assert_eq!(
        map_icpswap_error(ICPSwapError::InternalError("slot".to_string())).to_string(),
        "Internal error: ICPSwap internal error: slot"
    );
    assert_eq!(
        map_icpswap_error(ICPSwapError::UnsupportedToken("abc".to_string())).to_string(),
        "Unsupported token: ICPSwap unsupported token: abc"
    );
    assert!(matches!(map_icpswap_error(ICPSwapError::InsufficientFunds), ExchangeError::InsufficientFunds));
}

#[test]
fn icpswap_fees_and_workflows() {
    assert_eq!(trade_token_fee(TokenStandard::ICRC1), 10000);
    assert_eq!(trade_token_fee(TokenStandard::ICP), 10000);
    assert_eq!(trade_token_fee(TokenStandard::ICRC2), 10);
    assert_eq!(trade_token_fee(TokenStandard::DIP20), 0);
    assert_eq!(transfer_token_fee(TokenStandard::ICRC2), 1_000_000);
    assert_eq!(transfer_token_fee(TokenStandard::EXT), 0);
    assert_eq!(deposit_workflow(TokenStandard::ICRC1), DepositWorkflow::TransferThenDeposit);
    assert_eq!(deposit_workflow(TokenStandard::ICP), DepositWorkflow::ApproveThenDepositFrom);
    match check_deposit_standard(TokenStandard::ICRC1) {
        Err(ExchangeError::InternalError(m)) => assert_eq!(m, "Unsupported type: ICRC1"),
        other => panic!("unexpected {:?}", other),
    }
    assert!(check_deposit_standard(TokenStandard::DIP20).is_ok());
}

#[test]
fn quote_and_swap_arguments() {
    let base = token(&[5], "BASE", TokenStandard::ICRC1);
    let quote = token(&[6], "QUOTE", TokenStandard::ICRC2);
    let (i, o) = trade_tokens(TradeDirection::Buy, &base, &quote);
    assert_eq!(i.symbol, "QUOTE");
    assert_eq!(o.symbol, "BASE");
    let q = quote_args(TradeDirection::Sell, &base, &quote, 12345);
    assert_eq!(q.zero_for_one, text_of(&base.canister_id) < text_of(&quote.canister_id));
    assert_eq!(q.amount_in, "12345");
    assert_eq!(q.amount_out_minimum, "0");
    let s = swap_args(TradeDirection::Buy, &base, &quote, 7, 3);
    assert_eq!(s.zero_for_one, text_of(&quote.canister_id) < text_of(&base.canister_id));
    assert_eq!(s.amount_in, "7");
    assert_eq!(s.amount_out_minimum, "3");
}

#[test]
fn batch_runs_stop_or_go_on() {
    let mut strict: BatchTradeRun<u32> = BatchTradeRun::new(true);
    assert!(strict.record(Ok(1)).is_ok());
    match strict.record(Err(ExchangeError::Timeout)) {
        Err(ExchangeError::TransactionFailed(m)) => assert_eq!(m, "Batch trade failed, one or more trades errored"),
        other => panic!("unexpected {:?}", other),
    }
    assert!(!strict.all_succeeded);
    let mut lenient: BatchTradeRun<u32> = BatchTradeRun::new(false);
    assert!(lenient.record(Err(ExchangeError::Timeout)).is_ok());
    assert!(lenient.record(Ok(2)).is_ok());
    assert!(!lenient.all_succeeded);
    assert_eq!(lenient.results, vec![Err("Operation timed out".to_string()), Ok(2)]);
}

#[test]
fn factory_defaults_and_connectors() {
    let f = ExchangeFactory::new();
    let icpswap = f.get_config(ExchangeType::ICPSwap).unwrap();
    assert_eq!(text_of(&icpswap.canister_id), "xmiu5-jqaaa-aaaag-qbz7q-cai");
    let kong = f.get_config(ExchangeType::KongSwap).unwrap();
    assert!(kong.canister_id.is_anonymous());
    match f.get_config(ExchangeType::Sonic) {
        Err(ExchangeError::InvalidParameters(m)) => assert_eq!(m, "Unsupported exchange type: Sonic"),
        other => panic!("unexpected {:?}", other),
    }
    let c = f.create_exchange(ExchangeType::ICPSwap).unwrap();
    assert_eq!(c.get_exchange_type(), ExchangeType::ICPSwap);
    assert!(matches!(f.create_exchange(ExchangeType::ICDex), Err(ExchangeError::NotImplemented)));
    assert_eq!(f.get_supported_exchanges(), vec![ExchangeType::ICPSwap, ExchangeType::KongSwap]);
    assert_eq!(exchange_type_name_of(ExchangeType::ICDex), "ICDex");
}

#[test]
fn factory_config_updates_and_pairs() {
    let mut f = ExchangeFactory::new();
    let custom = ExchangeSettings {
        exchange_type: ExchangeType::Sonic,
        canister_id: Principal::from_slice(&[3]),
        timeout_secs: 5,
        retry_count: 1,
    };
    f.update_config(custom);
    assert_eq!(f.get_config(ExchangeType::Sonic).unwrap().timeout_secs, 5);
    let pair = ExchangePair {
        base_token: token(&[1], "A", TokenStandard::ICRC1),
        quote_token: token(&[2], "B", TokenStandard::ICRC1),
        exchange: ExchangeType::KongSwap,
    };
    let c = f.create_exchange_for_pair(&pair).unwrap();
    assert_eq!(c.get_exchange_type(), ExchangeType::KongSwap);
    match c.map_error("pool empty".to_string()) {
        ExchangeError::InternalError(m) => assert_eq!(m, "KongSwap error: pool empty"),
        other => panic!("unexpected {:?}", other),
    }
    let k = Connector::new(f.get_config(ExchangeType::KongSwap).unwrap());
    assert_eq!(k.exchange_type, ExchangeType::KongSwap);
}

#[test]
fn ledger_account_identifiers() {
    let owner = Principal::from_slice(&[1, 5]);
    assert_eq!(
        default_account_identifier(&owner),
        vec![
            204, 16, 62, 117, 227, 22, 77, 198, 115, 40, 242, 243, 70, 153, 147, 170, 142, 38, 33, 102, 254, 62, 217,
            103, 150, 60, 152, 84, 161, 150, 189, 248
        ]
    );
    let mut sub = vec![2u8, 1, 5];
    sub.extend(vec![0u8; 29]);
    assert_eq!(
        account_identifier_of(&owner, &sub),
        vec![
            249, 119, 112, 202, 185, 45, 203, 39, 52, 155, 6, 43, 49, 208, 206, 211, 124, 25, 18, 227, 92, 138, 83, 239,
            23, 127, 152, 129, 164, 54, 128, 80
        ]
    );
}

#[test]
fn the_best_quote_is_the_first_largest() {
    assert_eq!(best_quote(&vec![]), None);
    let q = vec![(ExchangeType::ICPSwap, 90), (ExchangeType::KongSwap, 120), (ExchangeType::Sonic, 120)];
    assert_eq!(best_quote(&q), Some((ExchangeType::KongSwap, 120)));
    assert_eq!(best_quote(&vec![(ExchangeType::ICDex, 0)]), Some((ExchangeType::ICDex, 0)));
}

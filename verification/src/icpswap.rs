use vstd::prelude::*;
use crate::exchange::{ExchangeError, TokenInfo, TokenStandard, TradeDirection, token_standard_name, token_standard_text};
use crate::text::{decimal, principal_text, push_decimal, push_principal, str_less, text_less};

verus! {

/// A token as ICPSwap names it: the text of its canister and its standard.
#[derive(Debug)]
pub struct ICPSwapToken {
    pub address: String,
    pub standard: String,
}

/// The errors ICPSwap reports.
#[derive(Debug)]
pub enum ICPSwapError {
    CommonError,
    InternalError(String),
    UnsupportedToken(String),
    InsufficientFunds,
}

/// The arguments of a quote: the direction in pool terms, the amount in and
/// the least amount out, both in decimal.
#[derive(Debug)]
pub struct ICPSwapQuoteArgs {
    pub zero_for_one: bool,
    pub amount_in: String,
    pub amount_out_minimum: String,
}

/// The arguments of a swap, shaped as those of a quote.
#[derive(Debug)]
pub struct ICPSwapSwapArgs {
    pub zero_for_one: bool,
    pub amount_in: String,
    pub amount_out_minimum: String,
}

/// The way a token is brought into a pool before a swap.
#[derive(Clone, Copy, Debug, PartialEq, Eq, Structural)]
pub enum DepositWorkflow {
    /// Transfer to the pool's subaccount, then `deposit`.
    TransferThenDeposit,
    /// Approve the pool, then `depositFrom`.
    ApproveThenDepositFrom,
}

/// ICPSwap's name for a token.
pub fn token_to_icpswap_token(token: &TokenInfo) -> (r: ICPSwapToken)
    ensures
        r.address@ == principal_text(token.canister_id@),
        r.standard@ == token_standard_text(token.standard),
{
    let mut address = String::new();
    push_principal(&mut address, &token.canister_id);
    proof {
        assert(address@ =~= principal_text(token.canister_id@));
    }
    ICPSwapToken { address, standard: token_standard_name(token.standard) }
}

/// Whether a trade from `base` to `quote` goes from the pool's token0 to
/// its token1: token0 is the token whose canister text comes first.
pub fn is_zero_for_one(base: &TokenInfo, quote: &TokenInfo) -> (r: bool)
    ensures
        r == text_less(principal_text(base.canister_id@), principal_text(quote.canister_id@)),
{
    let a = token_to_icpswap_token(base);
    let b = token_to_icpswap_token(quote);
    str_less(a.address.as_str(), b.address.as_str())
}

/// Whether `r` is the exchange error that stands for the ICPSwap error
/// `err`.
pub open spec fn is_icpswap_error_of(err: ICPSwapError, r: ExchangeError) -> bool {
    match err {
        ICPSwapError::CommonError => r matches ExchangeError::Unknown(m) && m@ == "ICPSwap common error"@,
        ICPSwapError::InternalError(e) => r matches ExchangeError::InternalError(m) && m@
            == "ICPSwap internal error: "@ + e@,
        ICPSwapError::UnsupportedToken(t) => r matches ExchangeError::UnsupportedToken(m) && m@
            == "ICPSwap unsupported token: "@ + t@,
        ICPSwapError::InsufficientFunds => r matches ExchangeError::InsufficientFunds,
    }
}

/// The exchange error for an ICPSwap error.
pub fn map_icpswap_error(err: ICPSwapError) -> (r: ExchangeError)
    ensures
        is_icpswap_error_of(err, r),
{
    match err {
        ICPSwapError::CommonError => ExchangeError::Unknown("ICPSwap common error".to_string()),
        ICPSwapError::InternalError(e) => {
            let mut m = "ICPSwap internal error: ".to_string();
            m.append(e.as_str());
            ExchangeError::InternalError(m)
        },
        ICPSwapError::UnsupportedToken(t) => {
            let mut m = "ICPSwap unsupported token: ".to_string();
            m.append(t.as_str());
            ExchangeError::UnsupportedToken(m)
        },
        ICPSwapError::InsufficientFunds => ExchangeError::InsufficientFunds,
    }
}

/// The fee a trade pays for a token moved into or out of a pool.
pub open spec fn trade_fee_of(s: TokenStandard) -> u64 {
    match s {
        TokenStandard::ICRC1 | TokenStandard::ICP => 10000,
        TokenStandard::ICRC2 => 10,
        TokenStandard::DIP20 | TokenStandard::EXT => 0,
    }
}

/// The fee a trade pays for a token of this standard moved into or out of
/// a pool.
pub fn trade_token_fee(standard: TokenStandard) -> (r: u64)
    ensures
        r == trade_fee_of(standard),
{
    match standard {
        TokenStandard::ICRC1 | TokenStandard::ICP => 10000,
        TokenStandard::ICRC2 => 10,
        TokenStandard::DIP20 | TokenStandard::EXT => 0,
    }
}

/// The fee of a deposit into or a withdrawal from a pool.
pub open spec fn transfer_fee_of(s: TokenStandard) -> u64 {
    match s {
        TokenStandard::ICRC1 | TokenStandard::ICP => 10000,
        TokenStandard::ICRC2 => 1_000_000,
        TokenStandard::DIP20 | TokenStandard::EXT => 0,
    }
}

/// The fee of a deposit into or a withdrawal from a pool of a token of this
/// standard.
pub fn transfer_token_fee(standard: TokenStandard) -> (r: u64)
    ensures
        r == transfer_fee_of(standard),
{
    match standard {
        TokenStandard::ICRC1 | TokenStandard::ICP => 10000,
        TokenStandard::ICRC2 => 1_000_000,
        TokenStandard::DIP20 | TokenStandard::EXT => 0,
    }
}

/// How the input token of a trade reaches the pool: ICRC-1 tokens are
/// transferred, the others approved.
pub fn deposit_workflow(standard: TokenStandard) -> (r: DepositWorkflow)
    ensures
        r == (if standard == TokenStandard::ICRC1 {
            DepositWorkflow::TransferThenDeposit
        } else {
            DepositWorkflow::ApproveThenDepositFrom
        }),
{
    match standard {
        TokenStandard::ICRC1 => DepositWorkflow::TransferThenDeposit,
        _ => DepositWorkflow::ApproveThenDepositFrom,
    }
}

/// The standards a deposit into a pool accepts: all but ICRC-1.
pub fn check_deposit_standard(standard: TokenStandard) -> (r: Result<(), ExchangeError>)
    ensures
        standard == TokenStandard::ICRC1 ==> (r matches Err(ExchangeError::InternalError(m)) && m@
            == "Unsupported type: ICRC1"@),
        standard != TokenStandard::ICRC1 ==> r is Ok,
{
    match standard {
        TokenStandard::ICRC1 => Err(ExchangeError::InternalError("Unsupported type: ICRC1".to_string())),
        _ => Ok(()),
    }
}

/// The input and output tokens of a trade in `direction` on the pair:
/// buying spends the quote token, selling spends the base token.
pub fn trade_tokens<'a>(direction: TradeDirection, base: &'a TokenInfo, quote: &'a TokenInfo) -> (r: (
    &'a TokenInfo,
    &'a TokenInfo,
))
    ensures
        direction == TradeDirection::Buy ==> *r.0 == *quote && *r.1 == *base,
        direction == TradeDirection::Sell ==> *r.0 == *base && *r.1 == *quote,
{
    match direction {
        TradeDirection::Buy => (quote, base),
        TradeDirection::Sell => (base, quote),
    }
}

/// The quote asked for a trade of `amount` in `direction`: any output is
/// accepted.
pub fn quote_args(direction: TradeDirection, base: &TokenInfo, quote: &TokenInfo, amount: u128) -> (r: ICPSwapQuoteArgs)
    ensures
        r.zero_for_one == (if direction == TradeDirection::Buy {
            text_less(principal_text(quote.canister_id@), principal_text(base.canister_id@))
        } else {
            text_less(principal_text(base.canister_id@), principal_text(quote.canister_id@))
        }),
        r.amount_in@ == decimal(amount as nat),
        r.amount_out_minimum@ == "0"@,
{
    let (input, output) = trade_tokens(direction, base, quote);
    let zero_for_one = is_zero_for_one(input, output);
    let mut amount_in = String::new();
    push_decimal(&mut amount_in, amount);
    proof {
        assert(amount_in@ =~= decimal(amount as nat));
    }
    ICPSwapQuoteArgs { zero_for_one, amount_in, amount_out_minimum: "0".to_string() }
}

/// The swap of `amount` in `direction` that accepts no less than
/// `min_out`.
pub fn swap_args(direction: TradeDirection, base: &TokenInfo, quote: &TokenInfo, amount: u128, min_out: u128) -> (r:
    ICPSwapSwapArgs)
    ensures
        r.zero_for_one == (if direction == TradeDirection::Buy {
            text_less(principal_text(quote.canister_id@), principal_text(base.canister_id@))
        } else {
            text_less(principal_text(base.canister_id@), principal_text(quote.canister_id@))
        }),
        r.amount_in@ == decimal(amount as nat),
        r.amount_out_minimum@ == decimal(min_out as nat),
{
    let (input, output) = trade_tokens(direction, base, quote);
    let zero_for_one = is_zero_for_one(input, output);
    let mut amount_in = String::new();
    push_decimal(&mut amount_in, amount);
    let mut amount_out_minimum = String::new();
    push_decimal(&mut amount_out_minimum, min_out);
    proof {
        assert(amount_in@ =~= decimal(amount as nat));
        assert(amount_out_minimum@ =~= decimal(min_out as nat));
    }
    ICPSwapSwapArgs { zero_for_one, amount_in, amount_out_minimum }
}

/// The results of a batch of trades, and whether all succeeded so far.
pub struct BatchTradeRun<T> {
    pub results: Vec<Result<T, String>>,
    pub all_succeeded: bool,
    pub require_all_success: bool,
}

/// The views of the results of a batch: each success kept, each failure
/// by its message.
pub open spec fn batch_views<T>(v: Seq<Result<T, String>>) -> Seq<Result<T, Seq<char>>> {
    v.map_values(
        |r: Result<T, String>|
            match r {
                Ok(t) => Ok(t),
                Err(e) => Err(e@),
            },
    )
}

impl<T> BatchTradeRun<T> {
    /// A batch with no trade run yet.
    pub fn new(require_all_success: bool) -> (r: Self)
        ensures
            r.results@.len() == 0,
            r.all_succeeded,
            r.require_all_success == require_all_success,
    {
        BatchTradeRun { results: Vec::new(), all_succeeded: true, require_all_success }
    }

    /// Books the result of the next trade of the batch; a failure ends a
    /// batch that requires all to succeed.
    pub fn record(&mut self, result: Result<T, ExchangeError>) -> (r: Result<(), ExchangeError>)
        ensures
            final(self).require_all_success == old(self).require_all_success,
            final(self).all_succeeded == (old(self).all_succeeded && result is Ok),
            (result is Err && old(self).require_all_success) ==> (r matches Err(ExchangeError::TransactionFailed(m))
                && m@ == "Batch trade failed, one or more trades errored"@),
            !(result is Err && old(self).require_all_success) ==> r is Ok,
            r is Ok ==> batch_views(final(self).results@) == batch_views(old(self).results@).push(
                match result {
                    Ok(t) => Ok(t),
                    Err(e) => Err(crate::exchange::exchange_error_text(e)),
                },
            ),
    {
        match result {
            Ok(t) => {
                let ghost prev = self.results@;
                self.results.push(Ok(t));
                proof {
                    assert(batch_views(self.results@) =~= batch_views(prev).push(Ok(t)));
                }
                Ok(())
            },
            Err(e) => {
                self.all_succeeded = false;
                if self.require_all_success {
                    return Err(
                        ExchangeError::TransactionFailed("Batch trade failed, one or more trades errored".to_string()),
                    );
                }
                let m = e.to_string();
                let ghost prev = self.results@;
                self.results.push(Err(m));
                proof {
                    assert(batch_views(self.results@) =~= batch_views(prev).push(Err(m@)));
                }
                Ok(())
            },
        }
    }
}

} // verus!

use vstd::prelude::*;
use crate::exchange::{
    ExchangeError, PoolInfo, TokenInfo, TokenStandard, TradeDirection, standard_named, string_to_token_standard,
    token_standard_text,
};
use crate::icpswap::{
    DepositWorkflow, ICPSwapError, ICPSwapQuoteArgs, ICPSwapSwapArgs, ICPSwapToken, deposit_workflow,
    is_icpswap_error_of, is_zero_for_one, map_icpswap_error, quote_args, swap_args, token_to_icpswap_token,
    trade_fee_of, trade_token_fee,
};
use crate::principal::Principal;
use crate::text::{decimal, principal_from_text, principal_parse, principal_text, push_decimal, push_principal, text_less};

verus! {

/// The fee tier of the pools trades are routed through.
pub const POOL_FEE_TIER: u128 = 3000;

/// The arguments of a pool lookup: the fee tier and the two tokens, token0
/// being the one whose canister text comes first.
#[derive(Debug)]
pub struct ICPSwapGetPoolArgs {
    pub fee: u128,
    pub token0: ICPSwapToken,
    pub token1: ICPSwapToken,
}

/// What ICPSwap tells of a pool.
#[derive(Debug)]
pub struct ICPSwapPoolData {
    pub fee: u128,
    pub key: String,
    pub tick_spacing: i128,
    pub token0: ICPSwapToken,
    pub token1: ICPSwapToken,
    pub canister_id: Principal,
}

/// The answer to a pool lookup.
#[allow(non_camel_case_types)]
#[derive(Debug)]
pub enum ICPSwapPoolResult {
    ok(ICPSwapPoolData),
    err(ICPSwapError),
}

/// The answer to a quote: the amount out.
#[allow(non_camel_case_types)]
#[derive(Debug)]
pub enum ICPSwapQuoteResult {
    ok(u128),
    err(ICPSwapError),
}

/// The arguments of a deposit of a token already transferred to the
/// pool's subaccount.
#[derive(Debug)]
pub struct ICPSwapDepositArgs {
    pub fee: u128,
    pub token: String,
    pub amount: u128,
}

/// The arguments of a deposit drawn from an approval.
#[derive(Debug)]
pub struct ICPSwapDepositFromArgs {
    pub fee: u128,
    pub token: String,
    pub amount: u128,
}

/// The answer to a deposit, a swap or a withdrawal: an amount.
#[allow(non_camel_case_types)]
#[derive(Debug)]
pub enum ICPSwapResult {
    ok(u128),
    err(ICPSwapError),
}

/// A user's unused balances of the two tokens of a pool.
#[derive(Debug)]
pub struct ICPSwapBalance {
    pub balance0: u128,
    pub balance1: u128,
}

/// The answer to a balance query.
#[allow(non_camel_case_types)]
#[derive(Debug)]
pub enum ICPSwapBalanceResult {
    ok(ICPSwapBalance),
    err(ICPSwapError),
}

/// The arguments of a withdrawal from a pool.
#[derive(Debug)]
pub struct ICPSwapWithdrawArgs {
    pub fee: u128,
    pub token: String,
    pub amount: u128,
}

/// Whether `t` is ICPSwap's name for `token`.
pub open spec fn names_token(t: ICPSwapToken, token: TokenInfo) -> bool {
    &&& t.address@ == principal_text(token.canister_id@)
    &&& t.standard@ == token_standard_text(token.standard)
}

/// The tokens of a pool in ICPSwap's order: token0 is the token whose
/// canister text comes first.
pub open spec fn pool_tokens(base: TokenInfo, quote: TokenInfo) -> (TokenInfo, TokenInfo) {
    if text_less(principal_text(base.canister_id@), principal_text(quote.canister_id@)) {
        (base, quote)
    } else {
        (quote, base)
    }
}

/// The pool that trades two tokens is looked up the same way whichever of
/// them is the base, as long as their canister texts differ.
pub proof fn law_pool_lookup_ignores_order(base: TokenInfo, quote: TokenInfo)
    requires
        principal_text(base.canister_id@) != principal_text(quote.canister_id@),
    ensures
        pool_tokens(base, quote) == pool_tokens(quote, base),
{
    crate::text::lemma_text_less_total(principal_text(base.canister_id@), principal_text(quote.canister_id@));
    crate::text::lemma_text_less_asymmetric(principal_text(base.canister_id@), principal_text(quote.canister_id@));
}

/// The lookup of the pool that trades `base` against `quote` at the
/// routing fee tier; token0 is the token whose canister text comes first.
pub fn get_pool_args(base: &TokenInfo, quote: &TokenInfo) -> (r: ICPSwapGetPoolArgs)
    ensures
        r.fee == POOL_FEE_TIER,
        names_token(r.token0, pool_tokens(*base, *quote).0),
        names_token(r.token1, pool_tokens(*base, *quote).1),
        text_less(principal_text(base.canister_id@), principal_text(quote.canister_id@)) ==> names_token(
            r.token0,
            *base,
        ) && names_token(r.token1, *quote),
        !text_less(principal_text(base.canister_id@), principal_text(quote.canister_id@)) ==> names_token(
            r.token0,
            *quote,
        ) && names_token(r.token1, *base),
{
    let (token0, token1) = if is_zero_for_one(base, quote) {
        (base, quote)
    } else {
        (quote, base)
    };
    ICPSwapGetPoolArgs {
        fee: POOL_FEE_TIER,
        token0: token_to_icpswap_token(token0),
        token1: token_to_icpswap_token(token1),
    }
}

/// The pool of a lookup's answer, or the exchange error for ICPSwap's.
pub fn pool_from_result(res: ICPSwapPoolResult) -> (r: Result<ICPSwapPoolData, ExchangeError>)
    ensures
        match res {
            ICPSwapPoolResult::ok(d) => r == Ok::<ICPSwapPoolData, ExchangeError>(d),
            ICPSwapPoolResult::err(e) => r matches Err(x) && is_icpswap_error_of(e, x),
        },
{
    match res {
        ICPSwapPoolResult::ok(d) => Ok(d),
        ICPSwapPoolResult::err(e) => Err(map_icpswap_error(e)),
    }
}

/// The amount of a quote's answer, or the exchange error for ICPSwap's.
pub fn quote_from_result(res: ICPSwapQuoteResult) -> (r: Result<u128, ExchangeError>)
    ensures
        match res {
            ICPSwapQuoteResult::ok(a) => r == Ok::<u128, ExchangeError>(a),
            ICPSwapQuoteResult::err(e) => r matches Err(x) && is_icpswap_error_of(e, x),
        },
{
    match res {
        ICPSwapQuoteResult::ok(a) => Ok(a),
        ICPSwapQuoteResult::err(e) => Err(map_icpswap_error(e)),
    }
}

/// The amount of a deposit's, swap's or withdrawal's answer, or the
/// exchange error for ICPSwap's.
pub fn amount_from_result(res: ICPSwapResult) -> (r: Result<u128, ExchangeError>)
    ensures
        match res {
            ICPSwapResult::ok(a) => r == Ok::<u128, ExchangeError>(a),
            ICPSwapResult::err(e) => r matches Err(x) && is_icpswap_error_of(e, x),
        },
{
    match res {
        ICPSwapResult::ok(a) => Ok(a),
        ICPSwapResult::err(e) => Err(map_icpswap_error(e)),
    }
}

/// The two unused balances of a balance query's answer, or the exchange
/// error for ICPSwap's.
pub fn balances_from_result(res: ICPSwapBalanceResult) -> (r: Result<(u128, u128), ExchangeError>)
    ensures
        match res {
            ICPSwapBalanceResult::ok(b) => r == Ok::<(u128, u128), ExchangeError>((b.balance0, b.balance1)),
            ICPSwapBalanceResult::err(e) => r matches Err(x) && is_icpswap_error_of(e, x),
        },
{
    match res {
        ICPSwapBalanceResult::ok(b) => Ok((b.balance0, b.balance1)),
        ICPSwapBalanceResult::err(e) => Err(map_icpswap_error(e)),
    }
}

/// The deposit of `amount` of `token`, paying `fee`.
pub fn deposit_args(token: &TokenInfo, fee: u64, amount: u128) -> (r: ICPSwapDepositArgs)
    ensures
        r.fee == fee,
        r.token@ == principal_text(token.canister_id@),
        r.amount == amount,
{
    let mut t = String::new();
    push_principal(&mut t, &token.canister_id);
    proof {
        assert(t@ =~= principal_text(token.canister_id@));
    }
    ICPSwapDepositArgs { fee: fee as u128, token: t, amount }
}

/// The deposit of `amount` of `token` drawn from an approval, paying
/// `fee`.
pub fn deposit_from_args(token: &TokenInfo, fee: u64, amount: u128) -> (r: ICPSwapDepositFromArgs)
    ensures
        r.fee == fee,
        r.token@ == principal_text(token.canister_id@),
        r.amount == amount,
{
    let mut t = String::new();
    push_principal(&mut t, &token.canister_id);
    proof {
        assert(t@ =~= principal_text(token.canister_id@));
    }
    ICPSwapDepositFromArgs { fee: fee as u128, token: t, amount }
}

/// The withdrawal of `amount` of `token`, paying `fee`.
pub fn withdraw_args(token: &TokenInfo, fee: u64, amount: u128) -> (r: ICPSwapWithdrawArgs)
    ensures
        r.fee == fee,
        r.token@ == principal_text(token.canister_id@),
        r.amount == amount,
{
    let mut t = String::new();
    push_principal(&mut t, &token.canister_id);
    proof {
        assert(t@ =~= principal_text(token.canister_id@));
    }
    ICPSwapWithdrawArgs { fee: fee as u128, token: t, amount }
}

/// How a token of a standard approves a spender.
#[derive(Clone, Copy, Debug, PartialEq, Eq, Structural)]
pub enum ApproveMethod {
    /// `approve` with the spender and the amount.
    Dip20,
    /// `approve` with no subaccount, the spender and the allowance.
    Ext,
    /// `icrc2_approve` with the spender's account and the amount.
    Icrc2,
}

/// The approval call for a token of `standard`; ICRC-1 tokens cannot
/// approve.
pub fn approve_method(standard: TokenStandard) -> (r: Result<ApproveMethod, ExchangeError>)
    ensures
        standard == TokenStandard::DIP20 ==> r == Ok::<ApproveMethod, ExchangeError>(ApproveMethod::Dip20),
        standard == TokenStandard::EXT ==> r == Ok::<ApproveMethod, ExchangeError>(ApproveMethod::Ext),
        (standard == TokenStandard::ICRC2 || standard == TokenStandard::ICP) ==> r == Ok::<
            ApproveMethod,
            ExchangeError,
        >(ApproveMethod::Icrc2),
        standard == TokenStandard::ICRC1 ==> (r matches Err(ExchangeError::UnsupportedToken(m)) && m@
            == "Token standard ICRC1 does not support approve"@),
{
    match standard {
        TokenStandard::DIP20 => Ok(ApproveMethod::Dip20),
        TokenStandard::EXT => Ok(ApproveMethod::Ext),
        TokenStandard::ICRC2 | TokenStandard::ICP => Ok(ApproveMethod::Icrc2),
        TokenStandard::ICRC1 => Err(
            ExchangeError::UnsupportedToken("Token standard ICRC1 does not support approve".to_string()),
        ),
    }
}

/// How a token of a standard reaches a pool's subaccount.
#[derive(Clone, Copy, Debug, PartialEq, Eq, Structural)]
pub enum PoolTransfer {
    /// `icrc1_transfer` from the caller's subaccount to the pool's.
    Icrc1,
    /// A transfer on the ICP ledger, to the pool's account identifier.
    IcpLedger,
    /// Nothing: the token is drawn by `depositFrom` instead.
    NotNeeded,
}

/// The transfer to a pool's subaccount for a token of `standard`.
pub fn pool_transfer_method(standard: TokenStandard) -> (r: PoolTransfer)
    ensures
        (standard == TokenStandard::ICRC1 || standard == TokenStandard::ICRC2) ==> r == PoolTransfer::Icrc1,
        standard == TokenStandard::ICP ==> r == PoolTransfer::IcpLedger,
        (standard == TokenStandard::DIP20 || standard == TokenStandard::EXT) ==> r == PoolTransfer::NotNeeded,
{
    match standard {
        TokenStandard::ICRC1 | TokenStandard::ICRC2 => PoolTransfer::Icrc1,
        TokenStandard::ICP => PoolTransfer::IcpLedger,
        TokenStandard::DIP20 | TokenStandard::EXT => PoolTransfer::NotNeeded,
    }
}

/// The id of a trade through `pool` at `nanos`.
pub fn trade_transaction_id(pool: &Principal, nanos: u64) -> (r: String)
    ensures
        r@ == "icpswap_"@ + principal_text(pool@) + "_"@ + decimal(nanos as nat),
{
    let mut s = "icpswap_".to_string();
    push_principal(&mut s, pool);
    s.append("_");
    push_decimal(&mut s, nanos as u128);
    proof {
        assert(s@ =~= "icpswap_"@ + principal_text(pool@) + "_"@ + decimal(nanos as nat));
    }
    s
}

/// Where a trade through an ICPSwap pool stands.
#[derive(Clone, Copy, Debug, PartialEq, Eq, Structural)]
pub enum TradeStep {
    /// Looking the pool up.
    GetPool,
    /// Asking the pool for a quote.
    Quote,
    /// Transferring the input to the pool's subaccount.
    Transfer,
    /// Depositing the transferred input.
    Deposit,
    /// Approving the pool to draw the input.
    Approve,
    /// Depositing the input from the approval.
    DepositFrom,
    /// Swapping.
    Swap,
    /// Withdrawing the output.
    Withdraw,
    /// The trade is done.
    Done,
}

/// What the caller of a trade does next, on the pool it was told of.
#[derive(Debug)]
pub enum TradeAction {
    /// Look the pool up.
    GetPool(ICPSwapGetPoolArgs),
    /// Ask the pool for a quote.
    Quote(ICPSwapQuoteArgs),
    /// Transfer `amount` of the input token to the pool's subaccount,
    /// paying `fee`.
    TransferToPool { amount: u128, fee: u64 },
    /// Deposit the transferred input.
    Deposit(ICPSwapDepositArgs),
    /// Approve the pool to draw `amount` of the input token.
    Approve { amount: u128 },
    /// Deposit the input from the approval.
    DepositFrom(ICPSwapDepositFromArgs),
    /// Swap.
    Swap(ICPSwapSwapArgs),
    /// Withdraw the output.
    Withdraw(ICPSwapWithdrawArgs),
    /// The trade is done: `output_amount` came out of a pool of fee
    /// `pool_fee`.
    Finished { output_amount: u128, pool_fee: u64 },
}

/// The token a trade in `direction` spends.
pub open spec fn input_token(direction: TradeDirection, base: TokenInfo, quote: TokenInfo) -> TokenInfo {
    if direction == TradeDirection::Buy {
        quote
    } else {
        base
    }
}

/// The token a trade in `direction` yields.
pub open spec fn output_token(direction: TradeDirection, base: TokenInfo, quote: TokenInfo) -> TokenInfo {
    if direction == TradeDirection::Buy {
        base
    } else {
        quote
    }
}

/// The step that follows a step that succeeded, once the pool and the
/// quote are known.
pub open spec fn step_after(step: TradeStep) -> TradeStep {
    match step {
        TradeStep::Transfer => TradeStep::Deposit,
        TradeStep::Deposit => TradeStep::Swap,
        TradeStep::Approve => TradeStep::DepositFrom,
        TradeStep::DepositFrom => TradeStep::Swap,
        TradeStep::Swap => TradeStep::Withdraw,
        _ => TradeStep::Done,
    }
}

/// The text of a pool fee too large for 64 bits.
pub open spec fn pool_fee_overflow_text(fee: u128) -> Seq<char> {
    "Failed to convert pool fee Nat "@ + decimal(fee as nat)
        + " to u64: out of range conversion regarding big integer attempted"@
}

/// A trade of `amount` in `direction` on the pair `base`/`quote` through
/// an ICPSwap pool. Tokens transferred in (ICRC-1) are deposited; the
/// others are approved and drawn. Every step that fails ends the trade with
/// its error.
#[derive(Debug)]
pub struct IcpswapTrade {
    pub direction: TradeDirection,
    pub base: TokenInfo,
    pub quote: TokenInfo,
    pub amount: u128,
    pub step: TradeStep,
    pub pool: Principal,
    pub pool_fee_tier: u128,
    pub pool_fee: u64,
    pub min_out: u128,
    pub swap_out: u128,
}

impl IcpswapTrade {
    /// The spent token.
    pub open spec fn input(&self) -> TokenInfo {
        input_token(self.direction, self.base, self.quote)
    }

    /// The token that comes out.
    pub open spec fn output(&self) -> TokenInfo {
        output_token(self.direction, self.base, self.quote)
    }

    /// Whether the fields fit the step: the approval of a hundred times the
    /// amount fits in 128 bits.
    pub open spec fn wf(&self) -> bool {
        (self.step == TradeStep::Approve ==> self.amount * 100 <= u128::MAX)
    }

    /// A trade that starts by looking the pool up.
    pub fn new(direction: TradeDirection, base: TokenInfo, quote: TokenInfo, amount: u128) -> (r: Self)
        ensures
            r.direction == direction,
            r.base == base,
            r.quote == quote,
            r.amount == amount,
            r.step == TradeStep::GetPool,
            r.wf(),
    {
        IcpswapTrade {
            direction,
            base,
            quote,
            amount,
            step: TradeStep::GetPool,
            pool: Principal::anonymous(),
            pool_fee_tier: 0,
            pool_fee: 0,
            min_out: 0,
            swap_out: 0,
        }
    }

    /// The next call the trade makes.
    pub fn next_action(&self) -> (r: TradeAction)
        requires
            self.wf(),
        ensures
            self.step == TradeStep::GetPool ==> (r matches TradeAction::GetPool(a) && a.fee == POOL_FEE_TIER && (
            if text_less(principal_text(self.base.canister_id@), principal_text(self.quote.canister_id@)) {
                names_token(a.token0, self.base) && names_token(a.token1, self.quote)
            } else {
                names_token(a.token0, self.quote) && names_token(a.token1, self.base)
            })),
            self.step == TradeStep::Quote ==> (r matches TradeAction::Quote(a) && a.zero_for_one == text_less(
                principal_text(self.input().canister_id@),
                principal_text(self.output().canister_id@),
            ) && a.amount_in@ == decimal(self.amount as nat) && a.amount_out_minimum@ == "0"@),
            self.step == TradeStep::Transfer ==> r == (TradeAction::TransferToPool {
                amount: self.amount,
                fee: trade_fee_of(self.input().standard),
            }),
            self.step == TradeStep::Deposit ==> (r matches TradeAction::Deposit(a) && a.fee == trade_fee_of(
                self.input().standard,
            ) && a.token@ == principal_text(self.input().canister_id@) && a.amount == self.amount),
            self.step == TradeStep::Approve ==> r == (TradeAction::Approve { amount: (self.amount * 100) as u128 }),
            self.step == TradeStep::DepositFrom ==> (r matches TradeAction::DepositFrom(a) && a.fee == trade_fee_of(
                self.input().standard,
            ) && a.token@ == principal_text(self.input().canister_id@) && a.amount == self.amount),
            self.step == TradeStep::Swap ==> (r matches TradeAction::Swap(a) && a.zero_for_one == text_less(
                principal_text(self.input().canister_id@),
                principal_text(self.output().canister_id@),
            ) && a.amount_in@ == decimal(self.amount as nat) && a.amount_out_minimum@ == decimal(
                self.min_out as nat,
            )),
            self.step == TradeStep::Withdraw ==> (r matches TradeAction::Withdraw(a) && a.fee == trade_fee_of(
                self.output().standard,
            ) && a.token@ == principal_text(self.output().canister_id@) && a.amount == self.swap_out),
            self.step == TradeStep::Done ==> r == (TradeAction::Finished {
                output_amount: self.swap_out,
                pool_fee: self.pool_fee,
            }),
    {
        let input = match self.direction {
            TradeDirection::Buy => &self.quote,
            TradeDirection::Sell => &self.base,
        };
        let output = match self.direction {
            TradeDirection::Buy => &self.base,
            TradeDirection::Sell => &self.quote,
        };
        match self.step {
            TradeStep::GetPool => TradeAction::GetPool(get_pool_args(&self.base, &self.quote)),
            TradeStep::Quote => TradeAction::Quote(quote_args(self.direction, &self.base, &self.quote, self.amount)),
            TradeStep::Transfer => TradeAction::TransferToPool {
                amount: self.amount,
                fee: trade_token_fee(input.standard),
            },
            TradeStep::Deposit => TradeAction::Deposit(
                deposit_args(input, trade_token_fee(input.standard), self.amount),
            ),
            TradeStep::Approve => TradeAction::Approve { amount: self.amount * 100 },
            TradeStep::DepositFrom => TradeAction::DepositFrom(
                deposit_from_args(input, trade_token_fee(input.standard), self.amount),
            ),
            TradeStep::Swap => TradeAction::Swap(
                swap_args(self.direction, &self.base, &self.quote, self.amount, self.min_out),
            ),
            TradeStep::Withdraw => TradeAction::Withdraw(
                withdraw_args(output, trade_token_fee(output.standard), self.swap_out),
            ),
            TradeStep::Done => TradeAction::Finished { output_amount: self.swap_out, pool_fee: self.pool_fee },
        }
    }

    /// Books the pool found; the quote comes next.
    pub fn on_pool(&mut self, pool: &ICPSwapPoolData)
        requires
            old(self).step == TradeStep::GetPool,
        ensures
            final(self).step == TradeStep::Quote,
            final(self).pool == pool.canister_id,
            final(self).pool_fee_tier == pool.fee,
            final(self).direction == old(self).direction,
            final(self).base == old(self).base,
            final(self).quote == old(self).quote,
            final(self).amount == old(self).amount,
            final(self).wf(),
    {
        self.pool = pool.canister_id;
        self.pool_fee_tier = pool.fee;
        self.step = TradeStep::Quote;
    }

    /// Books the least amount out, computed from the quote; fails when the
    /// pool's fee does not fit in 64 bits. Otherwise the input is
    /// transferred when it is an ICRC-1 token and approved when it is not.
    pub fn on_quote(&mut self, min_out: u128) -> (r: Result<(), ExchangeError>)
        requires
            old(self).step == TradeStep::Quote,
            old(self).input().standard != TokenStandard::ICRC1 ==> old(self).amount * 100 <= u128::MAX,
        ensures
            final(self).direction == old(self).direction,
            final(self).base == old(self).base,
            final(self).quote == old(self).quote,
            final(self).amount == old(self).amount,
            final(self).pool == old(self).pool,
            final(self).wf(),
            old(self).pool_fee_tier > u64::MAX ==> (r matches Err(ExchangeError::InternalError(m)) && m@
                == pool_fee_overflow_text(old(self).pool_fee_tier)) && final(self).step == old(self).step,
            old(self).pool_fee_tier <= u64::MAX ==> r is Ok && final(self).pool_fee == old(self).pool_fee_tier
                && final(self).min_out == min_out && final(self).step == (if old(self).input().standard
                == TokenStandard::ICRC1 {
                TradeStep::Transfer
            } else {
                TradeStep::Approve
            }),
    {
        if self.pool_fee_tier > u64::MAX as u128 {
            let mut m = "Failed to convert pool fee Nat ".to_string();
            push_decimal(&mut m, self.pool_fee_tier);
            m.append(" to u64: out of range conversion regarding big integer attempted");
            proof {
                assert(m@ =~= pool_fee_overflow_text(self.pool_fee_tier));
            }
            return Err(ExchangeError::InternalError(m));
        }
        self.pool_fee = self.pool_fee_tier as u64;
        self.min_out = min_out;
        let input = match self.direction {
            TradeDirection::Buy => self.quote.standard,
            TradeDirection::Sell => self.base.standard,
        };
        self.step = match deposit_workflow(input) {
            DepositWorkflow::TransferThenDeposit => TradeStep::Transfer,
            DepositWorkflow::ApproveThenDepositFrom => TradeStep::Approve,
        };
        Ok(())
    }

    /// Books the success of a transfer, a deposit, an approval or the
    /// withdrawal; the trade moves to the step that follows.
    pub fn on_done(&mut self)
        requires
            old(self).step == TradeStep::Transfer || old(self).step == TradeStep::Deposit || old(self).step
                == TradeStep::Approve || old(self).step == TradeStep::DepositFrom || old(self).step
                == TradeStep::Withdraw,
        ensures
            final(self).step == step_after(old(self).step),
            final(self).direction == old(self).direction,
            final(self).base == old(self).base,
            final(self).quote == old(self).quote,
            final(self).amount == old(self).amount,
            final(self).pool == old(self).pool,
            final(self).pool_fee == old(self).pool_fee,
            final(self).min_out == old(self).min_out,
            final(self).swap_out == old(self).swap_out,
            final(self).wf(),
    {
        self.step = match self.step {
            TradeStep::Transfer => TradeStep::Deposit,
            TradeStep::Approve => TradeStep::DepositFrom,
            TradeStep::Deposit | TradeStep::DepositFrom => TradeStep::Swap,
            _ => TradeStep::Done,
        };
    }

    /// Books what the swap yielded; it is withdrawn next.
    pub fn on_swapped(&mut self, amount_out: u128)
        requires
            old(self).step == TradeStep::Swap,
        ensures
            final(self).step == TradeStep::Withdraw,
            final(self).swap_out == amount_out,
            final(self).direction == old(self).direction,
            final(self).base == old(self).base,
            final(self).quote == old(self).quote,
            final(self).amount == old(self).amount,
            final(self).pool == old(self).pool,
            final(self).pool_fee == old(self).pool_fee,
            final(self).min_out == old(self).min_out,
            final(self).wf(),
    {
        self.swap_out = amount_out;
        self.step = TradeStep::Withdraw;
    }
}

/// Whether `r` is the error of a token address of a pool that does not
/// parse as a principal: the parser's message after `prefix`.
pub open spec fn address_error(prefix: Seq<char>, address: Seq<char>, r: ExchangeError) -> bool {
    principal_parse(address) matches Err(m) && (r matches ExchangeError::InternalError(x) && x@ == prefix + m)
}

/// The pool of an ICPSwap pool lookup, described with the pair's tokens:
/// the pool's token addresses parsed as principals, their standards read
/// from their names, the base token's symbol and decimals for token0 and
/// the quote token's for token1, and the fee tier, which must fit in 64
/// bits. Liquidity and reserves are not known from a lookup and are zero.
pub fn pool_info_of(pool: &ICPSwapPoolData, base: &TokenInfo, quote: &TokenInfo) -> (r: Result<PoolInfo, ExchangeError>)
    ensures
        principal_parse(pool.token0.address@) is Err ==> (r matches Err(e) && address_error(
            "Failed to parse token0 principal: "@,
            pool.token0.address@,
            e,
        )),
        principal_parse(pool.token0.address@) is Ok && principal_parse(pool.token1.address@) is Err ==> (r matches Err(
            e,
        ) && address_error("Failed to parse token1 principal: "@, pool.token1.address@, e)),
        (principal_parse(pool.token0.address@) is Ok && principal_parse(pool.token1.address@) is Ok) ==> {
            let s0 = standard_named(pool.token0.standard@);
            let s1 = standard_named(pool.token1.standard@);
            &&& s0 is None ==> (r matches Err(ExchangeError::UnsupportedToken(m)) && m@ == "Unknown standard string: "@
                + pool.token0.standard@)
            &&& (s0 is Some && s1 is None) ==> (r matches Err(ExchangeError::UnsupportedToken(m)) && m@
                == "Unknown standard string: "@ + pool.token1.standard@)
            &&& (s0 is Some && s1 is Some && pool.fee > u64::MAX) ==> (r matches Err(ExchangeError::InternalError(m))
                && m@ == pool_fee_overflow_text(pool.fee))
            &&& (s0 is Some && s1 is Some && pool.fee <= u64::MAX) ==> (r matches Ok(info) && {
                &&& info.pool_id == pool.canister_id
                &&& Ok::<Seq<u8>, Seq<char>>(info.token0.canister_id@) == principal_parse(pool.token0.address@)
                &&& info.token0.symbol == base.symbol
                &&& info.token0.decimals == base.decimals
                &&& Some(info.token0.standard) == s0
                &&& Ok::<Seq<u8>, Seq<char>>(info.token1.canister_id@) == principal_parse(pool.token1.address@)
                &&& info.token1.symbol == quote.symbol
                &&& info.token1.decimals == quote.decimals
                &&& Some(info.token1.standard) == s1
                &&& info.fee == pool.fee
                &&& info.total_liquidity == 0 && info.token0_reserves == 0 && info.token1_reserves == 0
            })
        },
{
    let token0 = match principal_from_text(pool.token0.address.as_str()) {
        Ok(p) => p,
        Err(e) => {
            let mut m = "Failed to parse token0 principal: ".to_string();
            m.append(e.as_str());
            return Err(ExchangeError::InternalError(m));
        },
    };
    let token1 = match principal_from_text(pool.token1.address.as_str()) {
        Ok(p) => p,
        Err(e) => {
            let mut m = "Failed to parse token1 principal: ".to_string();
            m.append(e.as_str());
            return Err(ExchangeError::InternalError(m));
        },
    };
    let standard0 = string_to_token_standard(pool.token0.standard.as_str())?;
    let standard1 = string_to_token_standard(pool.token1.standard.as_str())?;
    if pool.fee > u64::MAX as u128 {
        let mut m = "Failed to convert pool fee Nat ".to_string();
        push_decimal(&mut m, pool.fee);
        m.append(" to u64: out of range conversion regarding big integer attempted");
        proof {
            assert(m@ =~= pool_fee_overflow_text(pool.fee));
        }
        return Err(ExchangeError::InternalError(m));
    }
    Ok(PoolInfo {
        pool_id: pool.canister_id,
        token0: TokenInfo { canister_id: token0, symbol: base.symbol.clone(), decimals: base.decimals, standard: standard0 },
        token1: TokenInfo { canister_id: token1, symbol: quote.symbol.clone(), decimals: quote.decimals, standard: standard1 },
        fee: pool.fee as u64,
        total_liquidity: 0,
        token0_reserves: 0,
        token1_reserves: 0,
    })
}

/// A pool's fee tier as a 64-bit number, or the error of one too large.
pub fn pool_fee_u64(fee: u128) -> (r: Result<u64, ExchangeError>)
    ensures
        fee <= u64::MAX ==> r == Ok::<u64, ExchangeError>(fee as u64),
        fee > u64::MAX ==> (r matches Err(ExchangeError::InternalError(m)) && m@ == pool_fee_overflow_text(fee)),
{
    if fee > u64::MAX as u128 {
        let mut m = "Failed to convert pool fee Nat ".to_string();
        push_decimal(&mut m, fee);
        m.append(" to u64: out of range conversion regarding big integer attempted");
        proof {
            assert(m@ =~= pool_fee_overflow_text(fee));
        }
        return Err(ExchangeError::InternalError(m));
    }
    Ok(fee as u64)
}

} // verus!

use vstd::prelude::*;
use crate::exchange::{ExchangeError, TokenInfo, TokenStandard, exchange_error_debug, standard_named, string_to_token_standard};
use crate::intervals::{TimerConfig, TimerRegistry};
use crate::principal::Principal;
use crate::state::CallContext;
use crate::text::{decimal, joined, lowercase, principal_text, push_decimal, push_principal, to_lowercase, to_uppercase, uppercase};
use crate::types::{Exchange, OrderSplitType, StrategyResult, StrategyStatus, strategy_status_name};

verus! {

/// The name of the self-hedging strategy's execution timer.
pub open spec fn execution_timer_id() -> Seq<char> {
    "self_hedging_execution"@
}

/// A token of the strategy's pair: its ledger, symbol, decimals, the name
/// of its standard and its transfer fee.
#[derive(Debug)]
pub struct HedgeToken {
    pub canister_id: Principal,
    pub symbol: String,
    pub decimals: u8,
    pub standard: String,
    pub fee: u64,
}

impl Clone for HedgeToken {
    fn clone(&self) -> (r: Self)
        ensures
            r == *self,
    {
        HedgeToken {
            canister_id: self.canister_id,
            symbol: self.symbol.clone(),
            decimals: self.decimals,
            standard: self.standard.clone(),
            fee: self.fee,
        }
    }
}

/// The pair the strategy trades.
#[derive(Debug)]
pub struct HedgePair {
    pub base_token: HedgeToken,
    pub quote_token: HedgeToken,
}

impl Clone for HedgePair {
    fn clone(&self) -> (r: Self)
        ensures
            r == *self,
    {
        HedgePair { base_token: self.base_token.clone(), quote_token: self.quote_token.clone() }
    }
}

/// The self-hedging strategy's configuration: the exchange, the pair, the
/// token it holds between runs, the size of a run's trade, how orders are
/// split, and the period of the runs.
#[derive(Debug)]
pub struct HedgingConfig {
    pub exchange: Exchange,
    pub trading_pair: HedgePair,
    pub hold_token: Principal,
    pub transaction_size: u128,
    pub order_split_type: OrderSplitType,
    pub check_interval_secs: u64,
}

impl Clone for HedgingConfig {
    fn clone(&self) -> (r: Self)
        ensures
            r == *self,
    {
        HedgingConfig {
            exchange: self.exchange,
            trading_pair: self.trading_pair.clone(),
            hold_token: self.hold_token,
            transaction_size: self.transaction_size,
            order_split_type: self.order_split_type,
            check_interval_secs: self.check_interval_secs,
        }
    }
}

/// The strategy canister's state.
#[derive(Debug)]
pub struct SelfHedgingState {
    pub owner: Principal,
    pub config: HedgingConfig,
    pub status: StrategyStatus,
    pub last_execution: Option<u64>,
    pub execution_count: u64,
    pub volume_generated: u128,
    pub order_split_type: OrderSplitType,
    pub transaction_size: u128,
    pub base_token_unused_balance: u128,
    pub quote_token_unused_balance: u128,
    pub last_balance_check: Option<u64>,
}

impl Clone for SelfHedgingState {
    fn clone(&self) -> (r: Self)
        ensures
            r == *self,
    {
        SelfHedgingState {
            owner: self.owner,
            config: self.config.clone(),
            status: self.status,
            last_execution: self.last_execution,
            execution_count: self.execution_count,
            volume_generated: self.volume_generated,
            order_split_type: self.order_split_type,
            transaction_size: self.transaction_size,
            base_token_unused_balance: self.base_token_unused_balance,
            quote_token_unused_balance: self.quote_token_unused_balance,
            last_balance_check: self.last_balance_check,
        }
    }
}

/// The volume the strategy generated and the settings that produce it.
#[derive(Debug)]
pub struct VolumeStats {
    pub total_volume: u128,
    pub execution_count: u64,
    pub last_execution: Option<u64>,
    pub transaction_size: u128,
    pub split_type: OrderSplitType,
    pub token_symbol: String,
}

/// The strategy's unused balances on the exchange and its cycles.
#[derive(Debug)]
pub struct BalanceInfo {
    pub base_token_unused: u128,
    pub quote_token_unused: u128,
    pub canister_balance: u128,
    pub last_update: Option<u64>,
}

/// The pair's tokens: symbols, decimals and canisters.
#[derive(Debug)]
pub struct TradingPairInfo {
    pub base_token_symbol: String,
    pub base_token_decimals: u8,
    pub base_token_canister: Principal,
    pub quote_token_symbol: String,
    pub quote_token_decimals: u8,
    pub quote_token_canister: Principal,
}

/// The anonymous principal.
pub open spec fn anonymous_bytes() -> Seq<u8> {
    seq![4u8]
}

/// The list of statuses as its debug form prints it.
pub open spec fn status_list_text(s: Seq<StrategyStatus>) -> Seq<char> {
    "["@ + joined(s.map_values(|x: StrategyStatus| strategy_status_name(x)), ", "@) + "]"@
}

/// The error of a status not among `expected`.
pub open spec fn status_error_text(status: StrategyStatus, expected: Seq<StrategyStatus>) -> Seq<char> {
    "Invalid strategy status: "@ + strategy_status_name(status) + ", expected one of: "@ + status_list_text(expected)
}

/// The outcome `r` is the error with message `m`.
pub open spec fn fails_with(r: StrategyResult, m: Seq<char>) -> bool {
    r matches StrategyResult::Error(e) && e@ == m
}

fn empty_token() -> (r: HedgeToken)
    ensures
        r.canister_id@ == anonymous_bytes(),
        r.symbol@ == Seq::<char>::empty(),
        r.decimals == 0,
        r.standard@ == Seq::<char>::empty(),
        r.fee == 0,
{
    HedgeToken { canister_id: Principal::anonymous(), symbol: String::new(), decimals: 0, standard: String::new(), fee: 0 }
}

impl SelfHedgingState {
    /// The state of a strategy not yet initialized: no owner (the anonymous
    /// principal), an empty configuration, status `Created`, nothing run.
    pub fn new() -> (r: Self)
        ensures
            r.owner@ == anonymous_bytes(),
            r.status == StrategyStatus::Created,
            r.last_execution is None,
            r.execution_count == 0,
            r.volume_generated == 0,
            r.transaction_size == 0,
            r.order_split_type == OrderSplitType::NoSplit,
            r.base_token_unused_balance == 0,
            r.quote_token_unused_balance == 0,
            r.last_balance_check is None,
            r.config.exchange == Exchange::ICPSwap,
            r.config.hold_token@ == anonymous_bytes(),
            r.config.transaction_size == 0,
            r.config.order_split_type == OrderSplitType::NoSplit,
            r.config.check_interval_secs == 0,
    {
        SelfHedgingState {
            owner: Principal::anonymous(),
            config: HedgingConfig {
                exchange: Exchange::ICPSwap,
                trading_pair: HedgePair { base_token: empty_token(), quote_token: empty_token() },
                hold_token: Principal::anonymous(),
                transaction_size: 0,
                order_split_type: OrderSplitType::NoSplit,
                check_interval_secs: 0,
            },
            status: StrategyStatus::Created,
            last_execution: None,
            execution_count: 0,
            volume_generated: 0,
            order_split_type: OrderSplitType::NoSplit,
            transaction_size: 0,
            base_token_unused_balance: 0,
            quote_token_unused_balance: 0,
            last_balance_check: None,
        }
    }

    /// Whether the caller may act as the owner: the owner itself, or the
    /// strategy canister.
    pub open spec fn owner_allows(self, ctx: CallContext) -> bool {
        ctx.caller@ == self.owner@ || ctx.canister_id@ == ctx.caller@
    }

    /// `Ok` when the caller of `ctx` is the owner or the canister itself.
    pub fn verify_owner(&self, ctx: &CallContext) -> (r: Result<(), String>)
        ensures
            r is Ok <==> self.owner_allows(*ctx),
            r matches Err(e) ==> e@ == "Caller is not the owner"@,
    {
        if !ctx.caller.equals(&self.owner) && !ctx.canister_id.equals(&ctx.caller) {
            return Err("Caller is not the owner".to_string());
        }
        Ok(())
    }

    /// `Ok` when the status is one of `expected`.
    pub fn verify_status(&self, expected: &[StrategyStatus]) -> (r: Result<(), String>)
        ensures
            r is Ok <==> expected@.contains(self.status),
            r matches Err(e) ==> e@ == status_error_text(self.status, expected@),
    {
        let mut found = false;
        let mut list = "[".to_string();
        let ghost names = expected@.map_values(|x: StrategyStatus| strategy_status_name(x));
        let mut i: usize = 0;
        while i < expected.len()
            invariant
                names == expected@.map_values(|x: StrategyStatus| strategy_status_name(x)),
                i <= expected@.len(),
                found == expected@.take(i as int).contains(self.status),
                list@ == "["@ + joined(names.take(i as int), ", "@),
            decreases expected@.len() - i,
        {
            proof {
                assert(names.take(i + 1).drop_last() =~= names.take(i as int));
                assert(expected@.take(i + 1) =~= expected@.take(i as int).push(expected@[i as int]));
            }
            if i > 0 {
                list.append(", ");
            }
            list.append(expected[i].name());
            if expected[i] == self.status {
                found = true;
            }
            proof {
                assert(list@ =~= "["@ + joined(names.take(i + 1), ", "@));
                assert(found == expected@.take(i + 1).contains(self.status)) by {
                    if expected@.take(i as int).contains(self.status) {
                        let j = choose|j: int| 0 <= j < i && #[trigger] expected@.take(i as int)[j] == self.status;
                        assert(expected@.take(i + 1)[j] == self.status);
                    }
                    if expected@[i as int] == self.status {
                        assert(expected@.take(i + 1)[i as int] == self.status);
                    }
                    if expected@.take(i + 1).contains(self.status) {
                        let j = choose|j: int| 0 <= j < i + 1 && #[trigger] expected@.take(i + 1)[j] == self.status;
                        if j < i {
                            assert(expected@.take(i as int)[j] == self.status);
                        }
                    }
                }
            }
            i = i + 1;
        }
        proof {
            assert(expected@.take(expected@.len() as int) =~= expected@);
            assert(names.take(expected@.len() as int) =~= names);
        }
        if !found {
            list.append("]");
            let mut e = "Invalid strategy status: ".to_string();
            e.append(self.status.name());
            e.append(", expected one of: ");
            e.append(list.as_str());
            proof {
                assert(e@ =~= status_error_text(self.status, expected@));
            }
            return Err(e);
        }
        Ok(())
    }

    /// Why a configuration is refused at initialization, if it is;
    /// `slippage_in_range` says whether its slippage tolerance, a percentage,
    /// is above 0 and at most 100.
    pub open spec fn init_refusal(self, config: HedgingConfig, slippage_in_range: bool) -> Option<Seq<char>> {
        let base = config.trading_pair.base_token.canister_id@;
        let quote = config.trading_pair.quote_token.canister_id@;
        let hold = config.hold_token@;
        if self.owner@ != anonymous_bytes() {
            Some("Strategy already initialized"@)
        } else if config.transaction_size == 0 {
            Some("Transaction size must be greater than zero"@)
        } else if config.check_interval_secs == 0 {
            Some("Check interval cannot be zero"@)
        } else if base == anonymous_bytes() || quote == anonymous_bytes() {
            Some("Invalid token canister IDs in trading pair"@)
        } else if hold == anonymous_bytes() || (base != hold && quote != hold) {
            Some("Invalid hold token"@)
        } else if !slippage_in_range {
            Some("Slippage tolerance must be between 0 and 100"@)
        } else {
            None
        }
    }

    /// Initializes the strategy for `owner` with `config`, once: the
    /// amounts must be positive, the pair's tokens real, the hold token one
    /// of them, and the slippage tolerance within range.
    pub fn init_self_hedging(&mut self, owner: Principal, config: HedgingConfig, slippage_in_range: bool) -> (r:
        StrategyResult)
        ensures
            old(self).init_refusal(config, slippage_in_range) matches Some(m) ==> fails_with(r, m) && *final(self)
                == *old(self),
            old(self).init_refusal(config, slippage_in_range) is None ==> r == StrategyResult::Success && *final(self)
                == (SelfHedgingState {
                owner,
                config,
                status: StrategyStatus::Created,
                last_execution: None,
                execution_count: 0,
                volume_generated: 0,
                order_split_type: config.order_split_type,
                transaction_size: config.transaction_size,
                base_token_unused_balance: 0,
                quote_token_unused_balance: 0,
                last_balance_check: None,
            }),
    {
        if !self.owner.is_anonymous() {
            return StrategyResult::Error("Strategy already initialized".to_string());
        }
        if config.transaction_size == 0 {
            return StrategyResult::Error("Transaction size must be greater than zero".to_string());
        }
        if config.check_interval_secs == 0 {
            return StrategyResult::Error("Check interval cannot be zero".to_string());
        }
        if config.trading_pair.base_token.canister_id.is_anonymous()
            || config.trading_pair.quote_token.canister_id.is_anonymous() {
            return StrategyResult::Error("Invalid token canister IDs in trading pair".to_string());
        }
        if config.hold_token.is_anonymous() || (!config.trading_pair.base_token.canister_id.equals(&config.hold_token)
            && !config.trading_pair.quote_token.canister_id.equals(&config.hold_token)) {
            return StrategyResult::Error("Invalid hold token".to_string());
        }
        if !slippage_in_range {
            return StrategyResult::Error("Slippage tolerance must be between 0 and 100".to_string());
        }
        let split = config.order_split_type;
        let size = config.transaction_size;
        *self = SelfHedgingState {
            owner,
            config,
            status: StrategyStatus::Created,
            last_execution: None,
            execution_count: 0,
            volume_generated: 0,
            order_split_type: split,
            transaction_size: size,
            base_token_unused_balance: 0,
            quote_token_unused_balance: 0,
            last_balance_check: None,
        };
        StrategyResult::Success
    }

    /// Whether the hold token is the pair's base token.
    pub open spec fn holds_base(self) -> bool {
        self.config.hold_token@ == self.config.trading_pair.base_token.canister_id@
    }

    /// Whether the hold token is the pair's base token.
    pub fn hold_token_is_base(&self) -> (r: bool)
        ensures
            r == self.holds_base(),
    {
        self.config.hold_token.equals(&self.config.trading_pair.base_token.canister_id)
    }

    /// Checks that the caller may start the strategy and that it is
    /// created, paused or terminated.
    pub fn check_start(&self, ctx: &CallContext) -> (r: Result<(), String>)
        ensures
            !self.owner_allows(*ctx) ==> (r matches Err(e) && e@ == "Caller is not the owner"@),
            self.owner_allows(*ctx) ==> {
                let expected = seq![StrategyStatus::Created, StrategyStatus::Paused, StrategyStatus::Terminated];
                &&& r is Ok <==> expected.contains(self.status)
                &&& r matches Err(e) ==> e@ == status_error_text(self.status, expected)
            },
    {
        self.verify_owner(ctx)?;
        let expected = [StrategyStatus::Created, StrategyStatus::Paused, StrategyStatus::Terminated];
        proof {
            assert(expected@ =~= seq![StrategyStatus::Created, StrategyStatus::Paused, StrategyStatus::Terminated]);
        }
        self.verify_status(&expected)
    }

    /// Pauses a running strategy for its owner: its execution timer is
    /// forgotten (the handle returned, to be cleared) and the status becomes
    /// `Paused`.
    pub fn pause(&mut self, ctx: &CallContext, timers: &mut TimerRegistry) -> (r: (StrategyResult, Option<u64>))
        ensures
            !old(self).owner_allows(*ctx) ==> fails_with(r.0, "Caller is not the owner"@) && *final(self)
                == *old(self) && *final(timers) == *old(timers) && r.1 is None,
            old(self).owner_allows(*ctx) && old(self).status != StrategyStatus::Running ==> fails_with(
                r.0,
                status_error_text(old(self).status, seq![StrategyStatus::Running]),
            ) && *final(self) == *old(self) && *final(timers) == *old(timers) && r.1 is None,
            old(self).owner_allows(*ctx) && old(self).status == StrategyStatus::Running ==> {
                &&& r.0 == StrategyResult::Success
                &&& *final(self) == (SelfHedgingState { status: StrategyStatus::Paused, ..*old(self) })
                &&& final(timers).active@ == old(timers).active@.remove(execution_timer_id())
                &&& final(timers).last_execution == old(timers).last_execution
                &&& r.1 == (if old(timers).active@.contains_key(execution_timer_id()) {
                    Some(old(timers).active@[execution_timer_id()])
                } else {
                    None::<u64>
                })
            },
    {
        if let Err(e) = self.verify_owner(ctx) {
            return (StrategyResult::Error(e), None);
        }
        let expected = [StrategyStatus::Running];
        proof {
            assert(expected@ =~= seq![StrategyStatus::Running]);
        }
        if let Err(e) = self.verify_status(&expected) {
            return (StrategyResult::Error(e), None);
        }
        let cleared = timers.clear_timer("self_hedging_execution");
        self.status = StrategyStatus::Paused;
        (StrategyResult::Success, cleared)
    }

    /// Stops the strategy for its owner, whatever its status: its execution
    /// timer is forgotten (the handle returned, to be cleared) and the
    /// status becomes `Terminated`.
    pub fn stop(&mut self, ctx: &CallContext, timers: &mut TimerRegistry) -> (r: (StrategyResult, Option<u64>))
        ensures
            !old(self).owner_allows(*ctx) ==> fails_with(r.0, "Caller is not the owner"@) && *final(self)
                == *old(self) && *final(timers) == *old(timers) && r.1 is None,
            old(self).owner_allows(*ctx) ==> {
                &&& r.0 == StrategyResult::Success
                &&& *final(self) == (SelfHedgingState { status: StrategyStatus::Terminated, ..*old(self) })
                &&& final(timers).active@ == old(timers).active@.remove(execution_timer_id())
                &&& final(timers).last_execution == old(timers).last_execution
                &&& r.1 == (if old(timers).active@.contains_key(execution_timer_id()) {
                    Some(old(timers).active@[execution_timer_id()])
                } else {
                    None::<u64>
                })
            },
    {
        if let Err(e) = self.verify_owner(ctx) {
            return (StrategyResult::Error(e), None);
        }
        let cleared = timers.clear_timer("self_hedging_execution");
        self.status = StrategyStatus::Terminated;
        (StrategyResult::Success, cleared)
    }

    /// Books the exchange's reply about the strategy's unused balances,
    /// given for the pool's token0 and token1 with token0's canister text:
    /// the balances are stored as base and quote at `now` and returned in
    /// that order.
    pub fn check_icpswap_balance(&mut self, reply: Result<(u128, u128, String), ExchangeError>, now: u64) -> (r: Result<
        (u128, u128),
        String,
    >)
        ensures
            reply matches Err(e) ==> (r matches Err(m) && m@ == "Failed to get unused balance: "@ + exchange_error_debug(e))
                && *final(self) == *old(self),
            reply matches Ok((b0, b1, token0)) ==> {
                let base_first = principal_text(old(self).config.trading_pair.base_token.canister_id@) == token0@;
                let (base, quote) = if base_first { (b0, b1) } else { (b1, b0) };
                &&& r == Ok::<(u128, u128), String>((base, quote))
                &&& *final(self) == (SelfHedgingState {
                    base_token_unused_balance: base,
                    quote_token_unused_balance: quote,
                    last_balance_check: Some(now),
                    ..*old(self)
                })
            },
    {
        match reply {
            Err(e) => {
                let mut m = "Failed to get unused balance: ".to_string();
                m.append(e.debug_text().as_str());
                Err(m)
            },
            Ok((b0, b1, token0)) => {
                let mut base_text = String::new();
                push_principal(&mut base_text, &self.config.trading_pair.base_token.canister_id);
                proof {
                    assert(base_text@ =~= principal_text(self.config.trading_pair.base_token.canister_id@));
                }
                let (base, quote) = if base_text == token0 {
                    (b0, b1)
                } else {
                    (b1, b0)
                };
                self.update_unused_balance(base, quote, now);
                Ok((base, quote))
            },
        }
    }

    /// Stores the unused balances of the base and quote tokens, checked at
    /// `now`.
    pub fn update_unused_balance(&mut self, base_balance: u128, quote_balance: u128, now: u64)
        ensures
            *final(self) == (SelfHedgingState {
                base_token_unused_balance: base_balance,
                quote_token_unused_balance: quote_balance,
                last_balance_check: Some(now),
                ..*old(self)
            }),
    {
        self.base_token_unused_balance = base_balance;
        self.quote_token_unused_balance = quote_balance;
        self.last_balance_check = Some(now);
    }

    /// Starts the strategy once its pool, balances and approval of the hold
    /// token are settled: sets up the periodic execution timer at `now`
    /// (the timer to create is returned) and marks the strategy running.
    /// Only a strategy that `check_start` lets start can be started: one
    /// created, paused or terminated.
    pub fn start(&mut self, timers: &mut TimerRegistry, now: u64) -> (r: (StrategyResult, TimerConfig, Option<u64>))
        requires
            old(self).status == StrategyStatus::Created || old(self).status == StrategyStatus::Paused
                || old(self).status == StrategyStatus::Terminated,
        ensures
            r.0 == StrategyResult::Success,
            *final(self) == (SelfHedgingState { status: StrategyStatus::Running, ..*old(self) }),
            r.1.id@ == execution_timer_id(),
            r.1.interval_seconds == old(self).config.check_interval_secs,
            r.1.enabled,
            final(timers).active@ == old(timers).active@.remove(execution_timer_id()),
            final(timers).last_execution@ == old(timers).last_execution@.insert(execution_timer_id(), now),
            r.2 == (if old(timers).active@.contains_key(execution_timer_id()) {
                Some(old(timers).active@[execution_timer_id()])
            } else {
                None::<u64>
            }),
    {
        let config = TimerConfig {
            id: "self_hedging_execution".to_string(),
            interval_seconds: self.config.check_interval_secs,
            enabled: true,
        };
        let cleared = timers.set_timer(&config, now);
        self.status = StrategyStatus::Running;
        (StrategyResult::Success, config, cleared)
    }

    /// Books the answers that come before a start: the pool's information,
    /// then the balances on the exchange, which must not both be empty.
    pub fn check_start_funds(
        &mut self,
        pool: Result<(), ExchangeError>,
        balances: Result<(u128, u128, String), ExchangeError>,
        now: u64,
    ) -> (r: Result<(), String>)
        ensures
            pool matches Err(e) ==> (r matches Err(m) && m@ == "Failed to get pool info: "@ + exchange_error_debug(e))
                && *final(self) == *old(self),
            pool is Ok ==> match balances {
                Err(e) => (r matches Err(m) && m@ == "Failed to check exchange balance: "@
                    + "Failed to get unused balance: "@ + exchange_error_debug(e)) && *final(self) == *old(self),
                Ok((b0, b1, token0)) => {
                    let base_first = principal_text(old(self).config.trading_pair.base_token.canister_id@) == token0@;
                    let (base, quote) = if base_first { (b0, b1) } else { (b1, b0) };
                    &&& *final(self) == (SelfHedgingState {
                        base_token_unused_balance: base,
                        quote_token_unused_balance: quote,
                        last_balance_check: Some(now),
                        ..*old(self)
                    })
                    &&& (base == 0 && quote == 0) ==> (r matches Err(m) && m@
                        == "No balance available in ICPSwap. Please deposit tokens first."@)
                    &&& !(base == 0 && quote == 0) ==> r is Ok
                },
            },
    {
        if let Err(e) = pool {
            let mut m = "Failed to get pool info: ".to_string();
            m.append(e.debug_text().as_str());
            return Err(m);
        }
        let (base, quote) = match self.check_icpswap_balance(balances, now) {
            Ok(b) => b,
            Err(e) => {
                let mut m = "Failed to check exchange balance: ".to_string();
                m.append(e.as_str());
                return Err(m);
            },
        };
        if base == 0 && quote == 0 {
            return Err("No balance available in ICPSwap. Please deposit tokens first.".to_string());
        }
        Ok(())
    }

    /// The error of a refused approval of the hold token at start.
    pub fn approval_failure(e: &ExchangeError) -> (r: StrategyResult)
        ensures
            fails_with(r, "Failed to approve base token: "@ + exchange_error_debug(*e)),
    {
        let mut m = "Failed to approve base token: ".to_string();
        m.append(e.debug_text().as_str());
        StrategyResult::Error(m)
    }

    /// Books a completed run that generated `volume` at `now`: one more run,
    /// its time, and the volume added.
    pub fn update_state_after_execution(&mut self, volume: u128, now: u64) -> (r: StrategyResult)
        requires
            old(self).execution_count < u64::MAX,
            old(self).volume_generated + volume <= u128::MAX,
        ensures
            r == StrategyResult::Success,
            *final(self) == (SelfHedgingState {
                execution_count: (old(self).execution_count + 1) as u64,
                last_execution: Some(now),
                volume_generated: (old(self).volume_generated + volume) as u128,
                ..*old(self)
            }),
    {
        self.execution_count = self.execution_count + 1;
        self.last_execution = Some(now);
        self.volume_generated = self.volume_generated + volume;
        StrategyResult::Success
    }

    /// Why a configuration update is refused, if it is: only the owner may
    /// update, only a created or paused strategy, and only with a positive
    /// size.
    pub open spec fn volume_update_refusal(self, ctx: CallContext, transaction_size: u128) -> Option<Seq<char>> {
        let expected = seq![StrategyStatus::Created, StrategyStatus::Paused];
        if !self.owner_allows(ctx) {
            Some("Caller is not the owner"@)
        } else if !expected.contains(self.status) {
            Some("Cannot update configuration while strategy is running. Please pause first: "@ + status_error_text(
                self.status,
                expected,
            ))
        } else if transaction_size == 0 {
            Some("Transaction size must be greater than zero"@)
        } else {
            None
        }
    }

    fn check_config_update(&self, ctx: &CallContext) -> (r: Result<(), String>)
        ensures
            !self.owner_allows(*ctx) ==> (r matches Err(e) && e@ == "Caller is not the owner"@),
            self.owner_allows(*ctx) ==> {
                let expected = seq![StrategyStatus::Created, StrategyStatus::Paused];
                &&& r is Ok <==> expected.contains(self.status)
                &&& r matches Err(e) ==> e@ == "Cannot update configuration while strategy is running. Please pause first: "@
                    + status_error_text(self.status, expected)
            },
    {
        self.verify_owner(ctx)?;
        let expected = [StrategyStatus::Created, StrategyStatus::Paused];
        proof {
            assert(expected@ =~= seq![StrategyStatus::Created, StrategyStatus::Paused]);
        }
        if let Err(e) = self.verify_status(&expected) {
            let mut m = "Cannot update configuration while strategy is running. Please pause first: ".to_string();
            m.append(e.as_str());
            return Err(m);
        }
        Ok(())
    }

    /// Sets the size of a run's trade and the order split, for the owner of
    /// a strategy that is not running.
    pub fn update_volume_config(&mut self, ctx: &CallContext, transaction_size: u128, split_type: OrderSplitType) -> (r:
        StrategyResult)
        ensures
            old(self).volume_update_refusal(*ctx, transaction_size) matches Some(m) ==> fails_with(r, m)
                && *final(self) == *old(self),
            old(self).volume_update_refusal(*ctx, transaction_size) is None ==> r == StrategyResult::Success
                && *final(self) == (SelfHedgingState {
                config: HedgingConfig { transaction_size, order_split_type: split_type, ..old(self).config },
                transaction_size,
                order_split_type: split_type,
                ..*old(self)
            }),
    {
        if let Err(e) = self.check_config_update(ctx) {
            return StrategyResult::Error(e);
        }
        if transaction_size == 0 {
            return StrategyResult::Error("Transaction size must be greater than zero".to_string());
        }
        self.config.transaction_size = transaction_size;
        self.config.order_split_type = split_type;
        self.transaction_size = transaction_size;
        self.order_split_type = split_type;
        StrategyResult::Success
    }

    /// Why a full configuration update is refused, if it is;
    /// `slippage_in_range` says whether the new slippage tolerance lies in
    /// (0, 100].
    pub open spec fn config_update_refusal(
        self,
        ctx: CallContext,
        transaction_size: u128,
        check_interval_secs: u64,
        slippage_in_range: bool,
        hold_token: Principal,
    ) -> Option<Seq<char>> {
        let expected = seq![StrategyStatus::Created, StrategyStatus::Paused];
        if !self.owner_allows(ctx) {
            Some("Caller is not the owner"@)
        } else if !expected.contains(self.status) {
            Some("Cannot update configuration while strategy is running. Please pause first: "@ + status_error_text(
                self.status,
                expected,
            ))
        } else if hold_token@ == anonymous_bytes() {
            Some("Hold token not anonymous"@)
        } else if transaction_size == 0 {
            Some("Transaction size must be greater than zero"@)
        } else if check_interval_secs == 0 {
            Some("Check interval cannot be zero"@)
        } else if !slippage_in_range {
            Some("Slippage tolerance must be between 0 and 100"@)
        } else {
            None
        }
    }

    /// Sets the size, split, period and hold token, for the owner of a
    /// strategy that is not running.
    pub fn update_config(
        &mut self,
        ctx: &CallContext,
        transaction_size: u128,
        split_type: OrderSplitType,
        check_interval_secs: u64,
        slippage_in_range: bool,
        hold_token: Principal,
    ) -> (r: StrategyResult)
        ensures
            old(self).config_update_refusal(*ctx, transaction_size, check_interval_secs, slippage_in_range, hold_token)
                matches Some(m) ==> fails_with(r, m) && *final(self) == *old(self),
            old(self).config_update_refusal(*ctx, transaction_size, check_interval_secs, slippage_in_range, hold_token)
                is None ==> r == StrategyResult::Success && *final(self) == (SelfHedgingState {
                config: HedgingConfig {
                    transaction_size,
                    order_split_type: split_type,
                    check_interval_secs,
                    hold_token,
                    ..old(self).config
                },
                transaction_size,
                order_split_type: split_type,
                ..*old(self)
            }),
    {
        if let Err(e) = self.check_config_update(ctx) {
            return StrategyResult::Error(e);
        }
        if hold_token.is_anonymous() {
            return StrategyResult::Error("Hold token not anonymous".to_string());
        }
        if transaction_size == 0 {
            return StrategyResult::Error("Transaction size must be greater than zero".to_string());
        }
        if check_interval_secs == 0 {
            return StrategyResult::Error("Check interval cannot be zero".to_string());
        }
        if !slippage_in_range {
            return StrategyResult::Error("Slippage tolerance must be between 0 and 100".to_string());
        }
        self.config.transaction_size = transaction_size;
        self.config.order_split_type = split_type;
        self.config.check_interval_secs = check_interval_secs;
        self.config.hold_token = hold_token;
        self.transaction_size = transaction_size;
        self.order_split_type = split_type;
        StrategyResult::Success
    }

    /// The strategy's status.
    pub fn get_status(&self) -> (r: StrategyStatus)
        ensures
            r == self.status,
    {
        self.status
    }

    /// A copy of the state, for the owner.
    pub fn get_state(&self, ctx: &CallContext) -> (r: Result<SelfHedgingState, String>)
        ensures
            self.owner_allows(*ctx) ==> r == Ok::<SelfHedgingState, String>(*self),
            !self.owner_allows(*ctx) ==> (r matches Err(e) && e@ == "Caller is not the owner"@),
    {
        self.verify_owner(ctx)?;
        Ok(self.clone())
    }

    /// The volume generated and the settings that produce it.
    pub fn get_volume_stats(&self) -> (r: VolumeStats)
        ensures
            r == (VolumeStats {
                total_volume: self.volume_generated,
                execution_count: self.execution_count,
                last_execution: self.last_execution,
                transaction_size: self.transaction_size,
                split_type: self.order_split_type,
                token_symbol: self.config.trading_pair.base_token.symbol,
            }),
    {
        VolumeStats {
            total_volume: self.volume_generated,
            execution_count: self.execution_count,
            last_execution: self.last_execution,
            transaction_size: self.transaction_size,
            split_type: self.order_split_type,
            token_symbol: self.config.trading_pair.base_token.symbol.clone(),
        }
    }

    /// The unused balances on the exchange, when they were checked, and the
    /// canister's cycles balance.
    pub fn get_balance_info(&self, canister_balance: u64) -> (r: BalanceInfo)
        ensures
            r == (BalanceInfo {
                base_token_unused: self.base_token_unused_balance,
                quote_token_unused: self.quote_token_unused_balance,
                canister_balance: canister_balance as u128,
                last_update: self.last_balance_check,
            }),
    {
        BalanceInfo {
            base_token_unused: self.base_token_unused_balance,
            quote_token_unused: self.quote_token_unused_balance,
            canister_balance: canister_balance as u128,
            last_update: self.last_balance_check,
        }
    }

    /// The symbols, decimals and canisters of the pair's tokens.
    pub fn get_trading_pair_info(&self) -> (r: TradingPairInfo)
        ensures
            r == (TradingPairInfo {
                base_token_symbol: self.config.trading_pair.base_token.symbol,
                base_token_decimals: self.config.trading_pair.base_token.decimals,
                base_token_canister: self.config.trading_pair.base_token.canister_id,
                quote_token_symbol: self.config.trading_pair.quote_token.symbol,
                quote_token_decimals: self.config.trading_pair.quote_token.decimals,
                quote_token_canister: self.config.trading_pair.quote_token.canister_id,
            }),
    {
        let base = &self.config.trading_pair.base_token;
        let quote = &self.config.trading_pair.quote_token;
        TradingPairInfo {
            base_token_symbol: base.symbol.clone(),
            base_token_decimals: base.decimals,
            base_token_canister: base.canister_id,
            quote_token_symbol: quote.symbol.clone(),
            quote_token_decimals: quote.decimals,
            quote_token_canister: quote.canister_id,
        }
    }

    /// Checks a deposit to or withdrawal from the exchange asked by the
    /// caller of `ctx` for the token named by `token_type`: the owner may
    /// ask, and the token is `base` or `quote` in any case; says whether it
    /// is the base token.
    pub fn check_token_transfer(&self, ctx: &CallContext, token_type: &str) -> (r: Result<bool, String>)
        ensures
            !self.owner_allows(*ctx) ==> (r matches Err(e) && e@ == "Caller is not the owner"@),
            self.owner_allows(*ctx) ==> {
                let t = lowercase(token_type@);
                &&& t == "base"@ ==> r == Ok::<bool, String>(true)
                &&& (t != "base"@ && t == "quote"@) ==> r == Ok::<bool, String>(false)
                &&& (t != "base"@ && t != "quote"@) ==> (r matches Err(e) && e@
                    == "Invalid token type. Must be 'base' or 'quote'"@)
            },
    {
        self.verify_owner(ctx)?;
        let t = to_lowercase(token_type);
        if t == "base".to_string() {
            Ok(true)
        } else if t == "quote".to_string() {
            Ok(false)
        } else {
            Err("Invalid token type. Must be 'base' or 'quote'".to_string())
        }
    }

    /// Checks a withdrawal of `amount` of the base token (`is_base`) or the
    /// quote token against the unused balances the exchange reports, which
    /// are stored at `now`.
    pub fn check_withdraw_amount(
        &mut self,
        is_base: bool,
        amount: u128,
        balances: Result<(u128, u128, String), ExchangeError>,
        now: u64,
    ) -> (r: Result<(), String>)
        ensures
            balances matches Err(e) ==> (r matches Err(m) && m@ == "Failed to check exchange balance: "@
                + "Failed to get unused balance: "@ + exchange_error_debug(e)) && *final(self) == *old(self),
            balances matches Ok((b0, b1, token0)) ==> {
                let base_first = principal_text(old(self).config.trading_pair.base_token.canister_id@) == token0@;
                let (base, quote) = if base_first { (b0, b1) } else { (b1, b0) };
                let available = if is_base { base } else { quote };
                &&& *final(self) == (SelfHedgingState {
                    base_token_unused_balance: base,
                    quote_token_unused_balance: quote,
                    last_balance_check: Some(now),
                    ..*old(self)
                })
                &&& amount > available ==> (r matches Err(m) && m@ == "Insufficient unused balance. Available: "@
                    + decimal(available as nat) + ", Requested: "@ + decimal(amount as nat))
                &&& amount <= available ==> r is Ok
            },
    {
        let ghost reply = balances;
        let (base, quote) = match self.check_icpswap_balance(balances, now) {
            Ok(b) => b,
            Err(e) => {
                let mut m = "Failed to check exchange balance: ".to_string();
                m.append(e.as_str());
                proof {
                    if let Err(x) = reply {
                        assert(m@ =~= "Failed to check exchange balance: "@ + "Failed to get unused balance: "@
                            + exchange_error_debug(x));
                    }
                }
                return Err(m);
            },
        };
        let available = if is_base { base } else { quote };
        if amount > available {
            let mut m = "Insufficient unused balance. Available: ".to_string();
            push_decimal(&mut m, available);
            m.append(", Requested: ");
            push_decimal(&mut m, amount);
            proof {
                assert(m@ =~= "Insufficient unused balance. Available: "@ + decimal(available as nat) + ", Requested: "@
                    + decimal(amount as nat));
            }
            return Err(m);
        }
        Ok(())
    }

    /// Books a refresh of the unused balances at `now`.
    pub fn refresh_balance(&mut self, balances: Result<(u128, u128, String), ExchangeError>, now: u64) -> (r:
        StrategyResult)
        ensures
            balances matches Err(e) ==> fails_with(
                r,
                "Failed to refresh balance: "@ + "Failed to get unused balance: "@ + exchange_error_debug(e),
            ) && *final(self) == *old(self),
            balances matches Ok((b0, b1, token0)) ==> {
                let base_first = principal_text(old(self).config.trading_pair.base_token.canister_id@) == token0@;
                let (base, quote) = if base_first { (b0, b1) } else { (b1, b0) };
                &&& r == StrategyResult::Success
                &&& *final(self) == (SelfHedgingState {
                    base_token_unused_balance: base,
                    quote_token_unused_balance: quote,
                    last_balance_check: Some(now),
                    ..*old(self)
                })
            },
    {
        let ghost reply = balances;
        match self.check_icpswap_balance(balances, now) {
            Ok(_) => StrategyResult::Success,
            Err(e) => {
                let mut m = "Failed to refresh balance: ".to_string();
                m.append(e.as_str());
                proof {
                    if let Err(x) = reply {
                        assert(m@ =~= "Failed to refresh balance: "@ + "Failed to get unused balance: "@
                            + exchange_error_debug(x));
                    }
                }
                StrategyResult::Error(m)
            },
        }
    }
}

/// The standard a token's standard name stands for, in any case; an
/// unknown name stands for ICRC-1.
pub open spec fn standard_of_name(s: Seq<char>) -> TokenStandard {
    match standard_named(uppercase(s)) {
        Some(t) => t,
        None => TokenStandard::ICRC1,
    }
}

/// The standard a token's standard name stands for, in any case; an
/// unknown name stands for ICRC-1.
pub fn token_standard_from_string(standard: &str) -> (r: TokenStandard)
    ensures
        r == standard_of_name(standard@),
{
    let upper = to_uppercase(standard);
    match string_to_token_standard(upper.as_str()) {
        Ok(t) => t,
        Err(_) => TokenStandard::ICRC1,
    }
}

/// The exchange's description of a token of the pair.
pub fn create_token_info(metadata: &HedgeToken) -> (r: TokenInfo)
    ensures
        r.canister_id == metadata.canister_id,
        r.symbol == metadata.symbol,
        r.decimals == metadata.decimals,
        r.standard == standard_of_name(metadata.standard@),
{
    TokenInfo {
        canister_id: metadata.canister_id,
        symbol: metadata.symbol.clone(),
        decimals: metadata.decimals,
        standard: token_standard_from_string(metadata.standard.as_str()),
    }
}

/// The outcome of a deposit (`is_deposit`) or withdrawal on the exchange.
pub fn transfer_outcome(result: Result<u128, ExchangeError>, is_deposit: bool) -> (r: StrategyResult)
    ensures
        result is Ok ==> r == StrategyResult::Success,
        result matches Err(e) ==> fails_with(
            r,
            (if is_deposit { "Failed to deposit token: "@ } else { "Failed to withdraw token: "@ })
                + exchange_error_debug(e),
        ),
{
    match result {
        Ok(_) => StrategyResult::Success,
        Err(e) => {
            let mut m = if is_deposit {
                "Failed to deposit token: ".to_string()
            } else {
                "Failed to withdraw token: ".to_string()
            };
            m.append(e.debug_text().as_str());
            StrategyResult::Error(m)
        },
    }
}

/// The owner may change the trade volume with a positive size exactly while
/// the strategy is created or paused; a running or terminated strategy
/// refuses it, and so does a caller who is not the owner.
pub proof fn law_volume_update_allowed_when_created_or_paused(s: SelfHedgingState, ctx: CallContext, size: u128)
    ensures
        (s.owner_allows(ctx) && size > 0 && (s.status == StrategyStatus::Created || s.status == StrategyStatus::Paused))
            ==> s.volume_update_refusal(ctx, size) is None,
        (s.status == StrategyStatus::Running || s.status == StrategyStatus::Terminated) ==> s.volume_update_refusal(
            ctx,
            size,
        ) is Some,
        !s.owner_allows(ctx) ==> s.volume_update_refusal(ctx, size) is Some,
{
    let expected = seq![StrategyStatus::Created, StrategyStatus::Paused];
    if s.status == StrategyStatus::Created {
        assert(expected[0] == s.status);
    }
    if s.status == StrategyStatus::Paused {
        assert(expected[1] == s.status);
    }
}

} // verus!

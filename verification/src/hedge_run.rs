use vstd::prelude::*;
use crate::exchange::{ExchangeError, ExchangeType, TradeDirection, exchange_error_debug};
use crate::exchange_factory::{Connector, ExchangeSettings};
use crate::principal::Principal;
use crate::hedging::{SelfHedgingState, fails_with, status_error_text};
use crate::intervals::TimerRegistry;
use crate::split::{amounts_view, get_split_order_count, nat_sum, split_amount, split_amounts, split_order_count};
use crate::state::CallContext;
use crate::text::{decimal, principal_text, push_decimal};
use crate::types::{Exchange, OrderSplitType, StrategyResult, StrategyStatus};

verus! {

/// The least time between two runs of the strategy: 5 seconds in
/// nanoseconds.
pub const EXECUTION_COOLDOWN_NS: u64 = 5_000_000_000;

/// The direction opposite to `d`.
pub open spec fn reversed(d: TradeDirection) -> TradeDirection {
    match d {
        TradeDirection::Buy => TradeDirection::Sell,
        TradeDirection::Sell => TradeDirection::Buy,
    }
}

/// Whether a stage trading in direction `d` is split under `split_type`:
/// always under `SplitBoth`, the buying stage under `SplitBuy`, the selling
/// stage under `SplitSell`, never under `NoSplit`.
pub open spec fn splits_stage(split_type: OrderSplitType, d: TradeDirection) -> bool {
    match split_type {
        OrderSplitType::NoSplit => false,
        OrderSplitType::SplitBuy => d == TradeDirection::Buy,
        OrderSplitType::SplitSell => d == TradeDirection::Sell,
        OrderSplitType::SplitBoth => true,
    }
}

/// The direction of the first stage, which sells the hold token: selling
/// the base token when it is the hold token, buying it otherwise.
pub open spec fn first_direction(hold_is_base: bool) -> TradeDirection {
    if hold_is_base { TradeDirection::Sell } else { TradeDirection::Buy }
}

/// Whether the first stage, which sells the hold token, is split.
pub fn should_split_first(split_type: OrderSplitType, hold_is_base: bool) -> (r: bool)
    ensures
        r == (match split_type {
            OrderSplitType::NoSplit => false,
            OrderSplitType::SplitBuy => !hold_is_base,
            OrderSplitType::SplitSell => hold_is_base,
            OrderSplitType::SplitBoth => true,
        }),
{
    match split_type {
        OrderSplitType::NoSplit => false,
        OrderSplitType::SplitBuy => !hold_is_base,
        OrderSplitType::SplitSell => hold_is_base,
        OrderSplitType::SplitBoth => true,
    }
}

/// Whether the second stage, trading in `direction`, is split.
pub fn should_split_second(split_type: OrderSplitType, direction: TradeDirection) -> (r: bool)
    ensures
        r == splits_stage(split_type, direction),
{
    match split_type {
        OrderSplitType::NoSplit => false,
        OrderSplitType::SplitBuy => direction == TradeDirection::Buy,
        OrderSplitType::SplitSell => direction == TradeDirection::Sell,
        OrderSplitType::SplitBoth => true,
    }
}

/// The direction opposite to `d`.
pub fn reverse_direction(d: TradeDirection) -> (r: TradeDirection)
    ensures
        r == reversed(d),
{
    match d {
        TradeDirection::Buy => TradeDirection::Sell,
        TradeDirection::Sell => TradeDirection::Buy,
    }
}

/// Both stages follow the split type alike: each stage is split exactly
/// when the split type covers its direction, whichever token is held.
pub proof fn law_split_type_covers_stage_direction(split_type: OrderSplitType, hold_is_base: bool)
    ensures
        (match split_type {
            OrderSplitType::NoSplit => false,
            OrderSplitType::SplitBuy => !hold_is_base,
            OrderSplitType::SplitSell => hold_is_base,
            OrderSplitType::SplitBoth => true,
        }) == splits_stage(split_type, first_direction(hold_is_base)),
        splits_stage(split_type, reversed(first_direction(hold_is_base))) == (match split_type {
            OrderSplitType::NoSplit => false,
            OrderSplitType::SplitBuy => hold_is_base,
            OrderSplitType::SplitSell => !hold_is_base,
            OrderSplitType::SplitBoth => true,
        }),
{
}

/// Where a hedge run stands.
#[derive(Clone, Copy, Debug, PartialEq, Eq, Structural)]
pub enum HedgePhase {
    /// Placing the orders that sell the hold token.
    First,
    /// The first stage is over; the balances are to be refreshed.
    AfterFirst,
    /// Placing the orders that buy the hold token back.
    Second,
    /// The second stage is over; the balances are to be refreshed.
    AfterSecond,
    /// The run is over.
    Done,
}

/// A run of the two hedge stages: sell `amount` of the hold token, then
/// buy it back with what the first stage yielded.
#[derive(Debug)]
pub struct HedgeRun {
    pub split_type: OrderSplitType,
    pub phase: HedgePhase,
    pub direction: TradeDirection,
    pub split: bool,
    pub orders: Vec<u128>,
    pub next: usize,
    pub volume: u128,
    pub first_output: u128,
    pub outcome: Option<Result<u128, String>>,
}

/// What the caller of a hedge run does next.
#[derive(Debug)]
pub enum HedgeAction {
    /// Trade `amount` in `direction`.
    Trade { direction: TradeDirection, amount: u128 },
    /// Refresh the unused balances on the exchange.
    RefreshBalance,
    /// The run is over, with the volume it generated or why it failed.
    Done(Result<u128, String>),
}

/// The text of a failed trade of order `index` (counted from 1) of
/// `amount` in the first stage.
pub open spec fn first_split_failure(index: nat, amount: u128, e: ExchangeError) -> Seq<char> {
    "Stage 1 trade failed (Split order #"@ + decimal(index) + ", Amount "@ + decimal(amount as nat) + "): "@
        + exchange_error_debug(e)
}

impl HedgeRun {
    /// A run whose first stage trades in `direction`, with the orders
    /// `splits` when that stage is split and their sum as one order when it
    /// is not.
    pub fn new(direction: TradeDirection, splits: Vec<u128>, split_type: OrderSplitType, hold_is_base: bool) -> (r:
        HedgeRun)
        requires
            nat_sum(amounts_view(splits@)) <= u128::MAX,
        ensures
            r.phase == HedgePhase::First,
            r.direction == direction,
            r.split_type == split_type,
            r.split == (match split_type {
                OrderSplitType::NoSplit => false,
                OrderSplitType::SplitBuy => !hold_is_base,
                OrderSplitType::SplitSell => hold_is_base,
                OrderSplitType::SplitBoth => true,
            }),
            r.split ==> r.orders@ == splits@,
            !r.split ==> r.orders@ == seq![nat_sum(amounts_view(splits@)) as u128],
            r.next == 0,
            r.volume == 0,
            r.first_output == 0,
            r.outcome is None,
    {
        let split = should_split_first(split_type, hold_is_base);
        let orders = if split {
            splits
        } else {
            let mut sum: u128 = 0;
            let mut i: usize = 0;
            while i < splits.len()
                invariant
                    i <= splits@.len(),
                    sum == nat_sum(amounts_view(splits@.take(i as int))),
                    nat_sum(amounts_view(splits@)) <= u128::MAX,
                decreases splits@.len() - i,
            {
                proof {
                    assert(amounts_view(splits@.take(i + 1)).drop_last() =~= amounts_view(splits@.take(i as int)));
                    lemma_prefix_sum_le(amounts_view(splits@), i + 1);
                    assert(amounts_view(splits@.take(i + 1)) =~= amounts_view(splits@).take(i + 1));
                }
                sum = sum + splits[i];
                i = i + 1;
            }
            proof {
                assert(splits@.take(splits@.len() as int) =~= splits@);
            }
            vec![sum]
        };
        HedgeRun {
            split_type,
            phase: HedgePhase::First,
            direction,
            split,
            orders,
            next: 0,
            volume: 0,
            first_output: 0,
            outcome: None,
        }
    }

    /// The next step of the run. Orders of zero are passed over; once a
    /// stage has placed its orders the balances are refreshed.
    pub fn next_action(&mut self) -> (r: HedgeAction)
        requires
            old(self).next <= old(self).orders@.len(),
        ensures
            final(self).next <= final(self).orders@.len(),
            final(self).orders == old(self).orders,
            final(self).split == old(self).split,
            final(self).split_type == old(self).split_type,
            final(self).direction == old(self).direction,
            final(self).volume == old(self).volume,
            final(self).first_output == old(self).first_output,
            final(self).outcome == old(self).outcome,
            old(self).next <= final(self).next,
            forall|i: int| old(self).next <= i < final(self).next ==> old(self).orders@[i] == 0,
            (old(self).phase == HedgePhase::First || old(self).phase == HedgePhase::Second) ==> match r {
                HedgeAction::Trade { direction, amount } => final(self).next < final(self).orders@.len()
                    && amount == final(self).orders@[final(self).next as int] && amount != 0 && direction
                    == final(self).direction && final(self).phase == old(self).phase,
                HedgeAction::RefreshBalance => final(self).next == final(self).orders@.len() && final(self).phase
                    == (if old(self).phase == HedgePhase::First {
                    HedgePhase::AfterFirst
                } else {
                    HedgePhase::AfterSecond
                }),
                HedgeAction::Done(_) => false,
            },
            (old(self).phase == HedgePhase::AfterFirst || old(self).phase == HedgePhase::AfterSecond) ==> (r
                matches HedgeAction::RefreshBalance) && final(self).phase == old(self).phase && final(self).next
                == old(self).next,
            old(self).phase == HedgePhase::Done ==> (match (r, old(self).outcome) {
                (HedgeAction::Done(a), Some(b)) => a == b,
                (HedgeAction::Done(a), None) => a == Ok::<u128, String>(old(self).volume),
                _ => false,
            }) && final(self).phase == old(self).phase && final(self).next == old(self).next,
    {
        match self.phase {
            HedgePhase::First | HedgePhase::Second => {
                while self.next < self.orders.len() && self.orders[self.next] == 0
                    invariant
                        self.next <= self.orders@.len(),
                        self.orders == old(self).orders,
                        self.phase == old(self).phase,
                        self.split == old(self).split,
                        self.split_type == old(self).split_type,
                        self.direction == old(self).direction,
                        self.volume == old(self).volume,
                        self.first_output == old(self).first_output,
                        self.outcome == old(self).outcome,
                        old(self).next <= self.next,
                        forall|i: int| old(self).next <= i < self.next ==> old(self).orders@[i] == 0,
                    decreases self.orders@.len() - self.next,
                {
                    self.next = self.next + 1;
                }
                if self.next < self.orders.len() {
                    HedgeAction::Trade { direction: self.direction, amount: self.orders[self.next] }
                } else {
                    self.phase = match self.phase {
                        HedgePhase::First => HedgePhase::AfterFirst,
                        _ => HedgePhase::AfterSecond,
                    };
                    HedgeAction::RefreshBalance
                }
            },
            HedgePhase::AfterFirst | HedgePhase::AfterSecond => HedgeAction::RefreshBalance,
            HedgePhase::Done => match &self.outcome {
                Some(Ok(v)) => HedgeAction::Done(Ok(*v)),
                Some(Err(e)) => HedgeAction::Done(Err(e.clone())),
                None => HedgeAction::Done(Ok(self.volume)),
            },
        }
    }

    /// Books the result of the trade of the current order, as its input
    /// and output amounts. A success adds the input to the volume (capped at
    /// the largest amount) and, in the first stage, the output to what the
    /// second stage trades back. A failure ends the run, except for a split
    /// order of the second stage, which is passed over.
    pub fn on_trade(&mut self, result: Result<(u128, u128), ExchangeError>)
        requires
            old(self).phase == HedgePhase::First || old(self).phase == HedgePhase::Second,
            old(self).next < old(self).orders@.len(),
            match result {
                Ok((i, o)) => old(self).phase == HedgePhase::First ==> old(self).first_output + o <= u128::MAX,
                Err(_) => true,
            },
        ensures
            final(self).next <= final(self).orders@.len(),
            final(self).orders == old(self).orders,
            final(self).split == old(self).split,
            final(self).split_type == old(self).split_type,
            final(self).direction == old(self).direction,
            match result {
                Ok((input, output)) => {
                    &&& final(self).volume == old(self).volume.saturating_add(input)
                    &&& final(self).first_output == (if old(self).phase == HedgePhase::First {
                        (old(self).first_output + output) as u128
                    } else {
                        old(self).first_output
                    })
                    &&& final(self).next == old(self).next + 1
                    &&& final(self).phase == old(self).phase
                    &&& final(self).outcome == old(self).outcome
                },
                Err(e) => {
                    &&& final(self).volume == old(self).volume
                    &&& final(self).first_output == old(self).first_output
                    &&& if old(self).phase == HedgePhase::Second && old(self).split {
                        final(self).next == old(self).next + 1 && final(self).phase == old(self).phase
                            && final(self).outcome == old(self).outcome
                    } else {
                        &&& final(self).phase == HedgePhase::Done
                        &&& final(self).next == old(self).next
                        &&& final(self).outcome matches Some(Err(m)) && m@ == if old(self).phase == HedgePhase::First {
                            if old(self).split {
                                first_split_failure(
                                    (old(self).next + 1) as nat,
                                    old(self).orders@[old(self).next as int],
                                    e,
                                )
                            } else {
                                "Stage 1 trade failed (Single order): "@ + exchange_error_debug(e)
                            }
                        } else {
                            "Stage 2 trade failed (Single order): "@ + exchange_error_debug(e)
                        }
                    }
                },
            },
    {
        let _ = self.orders.len();
        match result {
            Ok((input, output)) => {
                self.volume = self.volume.saturating_add(input);
                if self.phase == HedgePhase::First {
                    self.first_output = self.first_output + output;
                }
                self.next = self.next + 1;
            },
            Err(e) => {
                if self.phase == HedgePhase::Second && self.split {
                    self.next = self.next + 1;
                } else {
                    let m = if self.phase == HedgePhase::First {
                        if self.split {
                            let mut m = "Stage 1 trade failed (Split order #".to_string();
                            push_decimal(&mut m, (self.next as u128) + 1);
                            m.append(", Amount ");
                            push_decimal(&mut m, self.orders[self.next]);
                            m.append("): ");
                            m.append(e.debug_text().as_str());
                            proof {
                                assert(m@ =~= first_split_failure(
                                    (old(self).next + 1) as nat,
                                    old(self).orders@[old(self).next as int],
                                    e,
                                ));
                            }
                            m
                        } else {
                            let mut m = "Stage 1 trade failed (Single order): ".to_string();
                            m.append(e.debug_text().as_str());
                            m
                        }
                    } else {
                        let mut m = "Stage 2 trade failed (Single order): ".to_string();
                        m.append(e.debug_text().as_str());
                        m
                    };
                    self.phase = HedgePhase::Done;
                    self.outcome = Some(Err(m));
                }
            },
        }
    }

    /// Continues once the balances are refreshed at `now`. After the first
    /// stage, a run that yielded nothing ends; otherwise the second stage
    /// trades the yield back in the opposite direction, split into
    /// `split_order_count(now)` orders seeded with `now` when the split type
    /// covers that direction, or as one order. After the second stage the
    /// run ends with its volume.
    pub fn on_refreshed(&mut self, now: u64)
        requires
            old(self).phase == HedgePhase::AfterFirst || old(self).phase == HedgePhase::AfterSecond,
            old(self).next <= old(self).orders@.len(),
        ensures
            final(self).volume == old(self).volume,
            final(self).first_output == old(self).first_output,
            final(self).split_type == old(self).split_type,
            final(self).next <= final(self).orders@.len(),
            (old(self).phase == HedgePhase::AfterSecond || old(self).first_output == 0) ==> final(self).phase
                == HedgePhase::Done && final(self).outcome == Some(Ok::<u128, String>(old(self).volume)),
            (old(self).phase == HedgePhase::AfterFirst && old(self).first_output != 0) ==> {
                &&& final(self).phase == HedgePhase::Second
                &&& final(self).direction == reversed(old(self).direction)
                &&& final(self).split == splits_stage(old(self).split_type, reversed(old(self).direction))
                &&& final(self).split ==> amounts_view(final(self).orders@) == split_amounts(
                    old(self).first_output as nat,
                    split_order_count(now),
                    now as nat,
                )
                &&& !final(self).split ==> final(self).orders@ == seq![old(self).first_output]
                &&& final(self).next == 0
                &&& final(self).outcome == old(self).outcome
            },
    {
        if self.phase == HedgePhase::AfterSecond || self.first_output == 0 {
            self.phase = HedgePhase::Done;
            self.outcome = Some(Ok(self.volume));
            return;
        }
        let direction = reverse_direction(self.direction);
        let split = should_split_second(self.split_type, direction);
        let orders = if split {
            let count = get_split_order_count(now);
            split_amount(self.first_output, count, now)
        } else {
            vec![self.first_output]
        };
        self.direction = direction;
        self.split = split;
        self.orders = orders;
        self.next = 0;
        self.phase = HedgePhase::Second;
    }
}

/// A prefix of a sequence of naturals sums to no more than the whole.
proof fn lemma_prefix_sum_le(s: Seq<nat>, i: int)
    requires
        0 <= i <= s.len(),
    ensures
        nat_sum(s.take(i)) <= nat_sum(s),
    decreases s.len() - i,
{
    if i < s.len() {
        lemma_prefix_sum_le(s, i + 1);
        assert(s.take(i + 1).drop_last() =~= s.take(i));
    } else {
        assert(s.take(i) =~= s);
    }
}

/// How a run of the strategy starts: it ends at once, with the outcome and
/// the handle of a timer to clear, or it runs the hedge trades.
#[derive(Debug)]
pub enum ExecutionStart {
    Finished(StrategyResult, Option<u64>),
    Hedge(HedgeRun),
}

/// The balance of the hold token among the balances of the base and quote
/// tokens.
pub open spec fn hold_balance(s: SelfHedgingState, base: u128, quote: u128) -> u128 {
    if s.holds_base() { base } else { quote }
}

/// The symbol of the hold token.
pub open spec fn hold_symbol(s: SelfHedgingState) -> Seq<char> {
    if s.holds_base() {
        s.config.trading_pair.base_token.symbol@
    } else {
        s.config.trading_pair.quote_token.symbol@
    }
}

/// The amount a run trades: the transaction size, or the hold balance when
/// it is smaller.
pub open spec fn run_amount(s: SelfHedgingState, base: u128, quote: u128) -> u128 {
    let hold = hold_balance(s, base, quote);
    if hold >= s.transaction_size { s.transaction_size } else { hold }
}

/// The end of the text of a balance too low for a run.
pub open spec fn shortfall_text(sym: Seq<char>, hold: u128, size: u128) -> Seq<char> {
    sym + " balance ("@ + decimal(hold as nat) + ") < 5% of transaction size ("@ + decimal(size as nat) + ")"@
}

impl SelfHedgingState {
    /// Why a run cannot begin at `now`, if it cannot: the strategy must be
    /// running and the last run at least 5 seconds old.
    pub open spec fn run_refusal(self, now: u64) -> Option<Seq<char>> {
        if self.status != StrategyStatus::Running {
            Some(status_error_text(self.status, seq![StrategyStatus::Running]))
        } else if self.last_execution matches Some(t) && t.saturating_add(EXECUTION_COOLDOWN_NS) > now {
            Some("Previous execution may still be in progress"@)
        } else {
            None
        }
    }

    /// Checks that a run may begin at `now`.
    pub fn begin_execution(&self, now: u64) -> (r: Result<(), String>)
        ensures
            r is Ok <==> self.run_refusal(now) is None,
            r matches Err(e) ==> self.run_refusal(now) == Some(e@),
    {
        let expected = [StrategyStatus::Running];
        proof {
            assert(expected@ =~= seq![StrategyStatus::Running]);
        }
        self.verify_status(&expected)?;
        if let Some(last) = self.last_execution {
            if last.saturating_add(EXECUTION_COOLDOWN_NS) > now {
                return Err("Previous execution may still be in progress".to_string());
            }
        }
        Ok(())
    }

    /// Plans a run at `now` from the exchange's reply about the unused
    /// balances, which are stored. A hold balance under 5% of the
    /// transaction size pauses the strategy; a run with nothing to trade
    /// ends; otherwise the hedge trades sell the run's amount of the hold
    /// token, split into `split_order_count(now)` orders seeded with `now`.
    pub fn plan_execution(
        &mut self,
        ctx: &CallContext,
        timers: &mut TimerRegistry,
        balances: Result<(u128, u128, String), ExchangeError>,
        now: u64,
    ) -> (r: ExecutionStart)
        ensures
            balances matches Err(e) ==> *final(self) == *old(self) && *final(timers) == *old(timers) && (r matches ExecutionStart::Finished(res, None) && fails_with(
                res,
                "Failed to check exchange balance: "@ + "Failed to get unused balance: "@ + exchange_error_debug(e),
            )),
            balances matches Ok((b0, b1, token0)) ==> {
                let base_first = principal_text(old(self).config.trading_pair.base_token.canister_id@) == token0@;
                &&& final(self).base_token_unused_balance == (if base_first { b0 } else { b1 })
                &&& final(self).quote_token_unused_balance == (if base_first { b1 } else { b0 })
            },
            balances is Ok ==> {
                let s = SelfHedgingState {
                    base_token_unused_balance: final(self).base_token_unused_balance,
                    quote_token_unused_balance: final(self).quote_token_unused_balance,
                    last_balance_check: Some(now),
                    ..*old(self)
                };
                let base = s.base_token_unused_balance;
                let quote = s.quote_token_unused_balance;
                let hold = hold_balance(s, base, quote);
                let size = s.transaction_size;
                let amount = run_amount(s, base, quote);
                &&& hold < size / 20 ==> (r matches ExecutionStart::Finished(res, h) && if s.owner_allows(*ctx) && s.status
                    == StrategyStatus::Running {
                    &&& fails_with(res, "Strategy paused: insufficient "@ + shortfall_text(hold_symbol(s), hold, size) + "."@)
                    &&& *final(self) == (SelfHedgingState { status: StrategyStatus::Paused, ..s })
                    &&& final(timers).active@ == old(timers).active@.remove(crate::hedging::execution_timer_id())
                    &&& final(timers).last_execution == old(timers).last_execution
                } else {
                    &&& *final(self) == s
                    &&& *final(timers) == *old(timers)
                    &&& h is None
                    &&& fails_with(res, "Insufficient "@ + shortfall_text(hold_symbol(s), hold, size) + ", but failed to pause: "@ + if s.owner_allows(*ctx) {
                        status_error_text(s.status, seq![StrategyStatus::Running])
                    } else {
                        "Caller is not the owner"@
                    })
                })
                &&& hold >= size / 20 ==> *final(self) == s && *final(timers) == *old(timers)
                &&& (hold >= size / 20 && amount == 0) ==> (r matches ExecutionStart::Finished(res, None) && res == StrategyResult::Success)
                &&& (hold >= size / 20 && amount != 0) ==> (r matches ExecutionStart::Hedge(run) && {
                    let splits = split_amounts(amount as nat, split_order_count(now), now as nat);
                    &&& run.phase == HedgePhase::First
                    &&& run.direction == first_direction(s.holds_base())
                    &&& run.split_type == s.order_split_type
                    &&& run.split == splits_stage(s.order_split_type, first_direction(s.holds_base()))
                    &&& run.split ==> amounts_view(run.orders@) == splits
                    &&& !run.split ==> run.orders@ == seq![amount]
                    &&& nat_sum(splits) == amount
                    &&& run.next == 0
                    &&& run.volume == 0
                    &&& run.first_output == 0
                    &&& run.outcome is None
                })
            },
    {
        let ghost reply = balances;
        let (base, quote) = match self.check_icpswap_balance(balances, now) {
            Ok(b) => b,
            Err(e) => {
                let mut m = "Failed to check exchange balance: ".to_string();
                m.append(e.as_str());
                proof {
                    if let Err(x) = reply {
                        assert(m@ =~= "Failed to check exchange balance: "@ + "Failed to get unused balance: "@
                            + exchange_error_debug(x));
                    }
                }
                return ExecutionStart::Finished(StrategyResult::Error(m), None);
            },
        };
        let ghost s = *self;
        let hold_is_base = self.hold_token_is_base();
        let hold = if hold_is_base { base } else { quote };
        let size = self.transaction_size;
        let symbol = if hold_is_base {
            self.config.trading_pair.base_token.symbol.clone()
        } else {
            self.config.trading_pair.quote_token.symbol.clone()
        };
        if hold < size / 20 {
            let mut detail = symbol;
            detail.append(" balance (");
            push_decimal(&mut detail, hold);
            detail.append(") < 5% of transaction size (");
            push_decimal(&mut detail, size);
            detail.append(")");
            proof {
                assert(detail@ =~= shortfall_text(hold_symbol(s), hold, size));
            }
            let (paused, handle) = self.pause(ctx, timers);
            return match paused {
                StrategyResult::Success => {
                    let mut m = "Strategy paused: insufficient ".to_string();
                    m.append(detail.as_str());
                    m.append(".");
                    ExecutionStart::Finished(StrategyResult::Error(m), handle)
                },
                StrategyResult::Error(e) => {
                    let mut m = "Insufficient ".to_string();
                    m.append(detail.as_str());
                    m.append(", but failed to pause: ");
                    m.append(e.as_str());
                    ExecutionStart::Finished(StrategyResult::Error(m), handle)
                },
            };
        }
        let amount = if hold >= size { size } else { hold };
        if amount == 0 {
            return ExecutionStart::Finished(StrategyResult::Success, None);
        }
        let direction = if hold_is_base { TradeDirection::Sell } else { TradeDirection::Buy };
        let count = get_split_order_count(now);
        let splits = split_amount(amount, count, now);
        ExecutionStart::Hedge(HedgeRun::new(direction, splits, self.order_split_type, hold_is_base))
    }

    /// Ends a run: a run that generated `volume` is booked at `now`; a
    /// failed one is reported.
    pub fn finish_execution(&mut self, outcome: Result<u128, String>, now: u64) -> (r: StrategyResult)
        requires
            outcome matches Ok(v) ==> old(self).execution_count < u64::MAX && old(self).volume_generated + v
                <= u128::MAX,
        ensures
            outcome matches Ok(v) ==> r == StrategyResult::Success && *final(self) == (SelfHedgingState {
                execution_count: (old(self).execution_count + 1) as u64,
                last_execution: Some(now),
                volume_generated: (old(self).volume_generated + v) as u128,
                ..*old(self)
            }),
            outcome matches Err(e) ==> fails_with(r, "Failed to execute hedge trades: "@ + e@) && *final(self)
                == *old(self),
    {
        match outcome {
            Ok(volume) => self.update_state_after_execution(volume, now),
            Err(e) => {
                let mut m = "Failed to execute hedge trades: ".to_string();
                m.append(e.as_str());
                StrategyResult::Error(m)
            },
        }
    }
}

/// The ICPSwap factory canister the strategy trades through,
/// `4mmnk-kiaaa-aaaag-qbllq-cai`.
pub open spec fn hedging_factory_bytes() -> Seq<u8> {
    seq![0u8, 0u8, 0u8, 0u8, 0u8, 208u8, 10u8, 215u8, 1u8, 1u8]
}

/// The ICPSwap connector the strategy trades through: the strategy's
/// factory canister, a 30-second timeout and 3 retries. Every strategy
/// exchange gets this connector.
pub fn create_icpswap_connector(_exchange: &Exchange) -> (r: Connector)
    ensures
        r.exchange_type == ExchangeType::ICPSwap,
        r.factory_canister_id@ == hedging_factory_bytes(),
        r.settings.exchange_type == ExchangeType::ICPSwap,
        r.settings.canister_id@ == hedging_factory_bytes(),
        r.settings.timeout_secs == 30,
        r.settings.retry_count == 3,
{
    let bytes: [u8; 10] = [0u8, 0u8, 0u8, 0u8, 0u8, 208u8, 10u8, 215u8, 1u8, 1u8];
    proof {
        assert(bytes@ =~= hedging_factory_bytes());
    }
    let factory = Principal::from_slice(&bytes);
    Connector::new(
        ExchangeSettings { exchange_type: ExchangeType::ICPSwap, canister_id: factory, timeout_secs: 30, retry_count: 3 },
    )
}

/// A run never trades more of the hold token than the exchange holds for
/// the strategy, nor more than the transaction size: it trades the
/// transaction size when the hold token's unused balance covers it, and
/// the whole unused balance when it does not. The hold token's balance is
/// the base token's when the hold token is the pair's base token, and the
/// quote token's otherwise.
pub proof fn law_run_never_exceeds_the_hold_balance(s: SelfHedgingState, base: u128, quote: u128)
    ensures
        ({
            let held = if s.config.hold_token@ == s.config.trading_pair.base_token.canister_id@ { base } else { quote };
            &&& hold_balance(s, base, quote) == held
            &&& run_amount(s, base, quote) <= held
            &&& run_amount(s, base, quote) <= s.transaction_size
            &&& held < s.transaction_size ==> run_amount(s, base, quote) == held
            &&& held >= s.transaction_size ==> run_amount(s, base, quote) == s.transaction_size
        }),
{
}

} // verus!

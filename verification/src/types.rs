use vstd::prelude::*;
use crate::principal::Principal;

verus! {

/// The kinds of strategy the platform deploys.
#[derive(Clone, Copy, Debug, PartialEq, Eq, Hash, PartialOrd, Ord, Structural)]
pub enum StrategyType {
    DollarCostAveraging,
    ValueAveraging,
    FixedBalance,
    LimitOrder,
    SelfHedging,
}

/// The name of the strategy type, as its debug form prints it.
pub open spec fn strategy_type_name(t: StrategyType) -> Seq<char> {
    match t {
        StrategyType::DollarCostAveraging => "DollarCostAveraging"@,
        StrategyType::ValueAveraging => "ValueAveraging"@,
        StrategyType::FixedBalance => "FixedBalance"@,
        StrategyType::LimitOrder => "LimitOrder"@,
        StrategyType::SelfHedging => "SelfHedging"@,
    }
}

impl StrategyType {
    /// The variant's name.
    pub fn name(&self) -> (r: &'static str)
        ensures
            r@ == strategy_type_name(*self),
    {
        match self {
            StrategyType::DollarCostAveraging => "DollarCostAveraging",
            StrategyType::ValueAveraging => "ValueAveraging",
            StrategyType::FixedBalance => "FixedBalance",
            StrategyType::LimitOrder => "LimitOrder",
            StrategyType::SelfHedging => "SelfHedging",
        }
    }
}

/// The life-cycle status of a deployed strategy.
#[derive(Clone, Copy, Debug, PartialEq, Eq, PartialOrd, Ord, Structural)]
pub enum StrategyStatus {
    Created,
    Running,
    Paused,
    EmergencyStopped,
    Terminated,
}

/// The name of the status, as its debug form prints it.
pub open spec fn strategy_status_name(s: StrategyStatus) -> Seq<char> {
    match s {
        StrategyStatus::Created => "Created"@,
        StrategyStatus::Running => "Running"@,
        StrategyStatus::Paused => "Paused"@,
        StrategyStatus::EmergencyStopped => "EmergencyStopped"@,
        StrategyStatus::Terminated => "Terminated"@,
    }
}

impl StrategyStatus {
    /// The variant's name.
    pub fn name(&self) -> (r: &'static str)
        ensures
            r@ == strategy_status_name(*self),
    {
        match self {
            StrategyStatus::Created => "Created",
            StrategyStatus::Running => "Running",
            StrategyStatus::Paused => "Paused",
            StrategyStatus::EmergencyStopped => "EmergencyStopped",
            StrategyStatus::Terminated => "Terminated",
        }
    }
}

/// The decentralized exchanges a strategy can trade on.
#[derive(Clone, Copy, Debug, PartialEq, Eq, Hash, PartialOrd, Ord, Structural)]
pub enum Exchange {
    ICPSwap,
    KongSwap,
    Sonic,
    InfinitySwap,
    ICDex,
}

/// A token: its ledger canister, symbol and number of decimals.
#[derive(Debug)]
pub struct TokenMetadata {
    pub canister_id: Principal,
    pub symbol: String,
    pub decimals: u8,
}

impl Clone for TokenMetadata {
    fn clone(&self) -> (r: Self)
        ensures
            r == *self,
    {
        TokenMetadata {
            canister_id: self.canister_id,
            symbol: self.symbol.clone(),
            decimals: self.decimals,
        }
    }
}

/// A base token traded against a quote token.
#[derive(Debug)]
pub struct TradingPair {
    pub base_token: TokenMetadata,
    pub quote_token: TokenMetadata,
}

impl Clone for TradingPair {
    fn clone(&self) -> (r: Self)
        ensures
            r == *self,
    {
        TradingPair { base_token: self.base_token.clone(), quote_token: self.quote_token.clone() }
    }
}

/// The side of an order.
#[derive(Clone, Copy, Debug, PartialEq, Eq, PartialOrd, Ord, Structural)]
pub enum OrderType {
    Buy,
    Sell,
}

/// The state of a trade transaction.
#[derive(Clone, Copy, Debug, PartialEq, Eq, PartialOrd, Ord, Structural)]
pub enum TransactionStatus {
    Pending,
    Executed,
    Failed,
}

/// The outcome of a strategy operation.
#[derive(Debug)]
pub enum StrategyResult {
    Success,
    Error(String),
}

impl Clone for StrategyResult {
    fn clone(&self) -> (r: Self)
        ensures
            r == *self,
    {
        match self {
            StrategyResult::Success => StrategyResult::Success,
            StrategyResult::Error(e) => StrategyResult::Error(e.clone()),
        }
    }
}

/// What the factory records of a deployed strategy canister.
#[derive(Debug)]
pub struct StrategyMetadata {
    pub canister_id: Principal,
    pub strategy_type: StrategyType,
    pub owner: Principal,
    pub created_at: u64,
    pub status: StrategyStatus,
    pub exchange: Exchange,
    pub trading_pair: TradingPair,
}

impl Clone for StrategyMetadata {
    fn clone(&self) -> (r: Self)
        ensures
            r == *self,
    {
        StrategyMetadata {
            canister_id: self.canister_id,
            strategy_type: self.strategy_type,
            owner: self.owner,
            created_at: self.created_at,
            status: self.status,
            exchange: self.exchange,
            trading_pair: self.trading_pair.clone(),
        }
    }
}

/// How the self-hedging strategy splits its orders.
#[derive(Clone, Copy, Debug, PartialEq, Eq, Structural)]
pub enum OrderSplitType {
    NoSplit,
    SplitBuy,
    SplitSell,
    SplitBoth,
}

/// The stages a deployment passes through.
#[derive(Clone, Copy, Debug, PartialEq, Eq, PartialOrd, Ord, Structural)]
pub enum DeploymentStatus {
    PendingPayment,
    AuthorizationConfirmed,
    PaymentReceived,
    CanisterCreated,
    CodeInstalled,
    Initialized,
    Deployed,
    DeploymentCancelled,
    DeploymentFailed,
    Refunding,
    Refunded,
}

/// The factory's record of one deployment request.
#[derive(Debug)]
pub struct DeploymentRecord {
    pub deployment_id: String,
    pub strategy_type: StrategyType,
    pub owner: Principal,
    pub fee_amount: u64,
    pub request_time: u64,
    pub status: DeploymentStatus,
    pub canister_id: Option<Principal>,
    pub config_data: Vec<u8>,
    pub error_message: Option<String>,
    pub last_updated: u64,
}

/// A deployment record with its serialized configuration as a sequence.
pub struct DeploymentRecordView {
    pub deployment_id: Seq<char>,
    pub strategy_type: StrategyType,
    pub owner: Principal,
    pub fee_amount: u64,
    pub request_time: u64,
    pub status: DeploymentStatus,
    pub canister_id: Option<Principal>,
    pub config_data: Seq<u8>,
    pub error_message: Option<Seq<char>>,
    pub last_updated: u64,
}

/// The view of an optional string.
pub open spec fn opt_string_view(s: Option<String>) -> Option<Seq<char>> {
    match s {
        Some(s) => Some(s@),
        None => None,
    }
}

impl View for DeploymentRecord {
    type V = DeploymentRecordView;

    open spec fn view(&self) -> DeploymentRecordView {
        DeploymentRecordView {
            deployment_id: self.deployment_id@,
            strategy_type: self.strategy_type,
            owner: self.owner,
            fee_amount: self.fee_amount,
            request_time: self.request_time,
            status: self.status,
            canister_id: self.canister_id,
            config_data: self.config_data@,
            error_message: opt_string_view(self.error_message),
            last_updated: self.last_updated,
        }
    }
}

impl Clone for DeploymentRecord {
    fn clone(&self) -> (r: Self)
        ensures
            r@ == self@,
    {
        let error_message = match &self.error_message {
            Some(e) => Some(e.clone()),
            None => None,
        };
        DeploymentRecord {
            deployment_id: self.deployment_id.clone(),
            strategy_type: self.strategy_type,
            owner: self.owner,
            fee_amount: self.fee_amount,
            request_time: self.request_time,
            status: self.status,
            canister_id: self.canister_id,
            config_data: self.config_data.clone(),
            error_message,
            last_updated: self.last_updated,
        }
    }
}

/// What the factory answers to a deployment request.
#[derive(Debug)]
pub struct DeploymentRequest {
    pub deployment_id: String,
    pub fee_amount: u64,
    pub strategy_type: StrategyType,
}

/// The outcome of deploying a strategy canister.
#[derive(Debug)]
pub enum DeploymentResult {
    Success(Principal),
    Error(String),
}

/// The common interface of strategy configurations.
pub trait StrategyConfig {
    /// The first rule the configuration breaks, if any.
    spec fn validation_error(&self) -> Option<Seq<char>>;

    /// The strategy type the configuration is for.
    spec fn spec_strategy_type(&self) -> StrategyType;

    /// The exchange the configuration trades on.
    spec fn spec_exchange(&self) -> Exchange;

    /// `Ok` when the configuration's parameters are acceptable, otherwise
    /// the first rule it breaks.
    fn validate(&self) -> (r: Result<(), String>)
        ensures
            r is Ok <==> self.validation_error() is None,
            r matches Err(e) ==> self.validation_error() == Some(e@),
    ;

    /// The strategy type the configuration is for.
    fn get_strategy_type(&self) -> (r: StrategyType)
        ensures
            r == self.spec_strategy_type(),
    ;

    /// The exchange the configuration trades on.
    fn get_exchange(&self) -> (r: Exchange)
        ensures
            r == self.spec_exchange(),
    ;
}

/// Dollar-cost averaging: buy a fixed amount at every interval. The
/// slippage tolerance travels beside this value, as a float.
#[derive(Debug)]
pub struct DCAConfig {
    pub exchange: Exchange,
    pub base_token: TokenMetadata,
    pub quote_token: TokenMetadata,
    pub amount_per_execution: u128,
    pub interval_secs: u64,
    pub max_executions: Option<u64>,
}

/// Value averaging: invest towards a value that grows by a target every
/// period. The slippage tolerance travels beside this value, as a float.
#[derive(Debug)]
pub struct ValueAvgConfig {
    pub exchange: Exchange,
    pub base_token: TokenMetadata,
    pub quote_token: TokenMetadata,
    pub target_value_increase: u128,
    pub interval_secs: u64,
    pub max_executions: Option<u64>,
}

/// Fixed balance: keep token holdings at set proportions. The tokens are
/// listed in the order the allocation map yields them; their ratios, the
/// rebalance threshold and the slippage tolerance travel beside this
/// value, as floats.
#[derive(Debug)]
pub struct FixedBalanceConfig {
    pub exchange: Exchange,
    pub token_allocations: Vec<TokenMetadata>,
    pub interval_secs: u64,
}

/// A limit order at a price, with an optional expiration.
#[derive(Debug)]
pub struct LimitOrderConfig {
    pub exchange: Exchange,
    pub base_token: TokenMetadata,
    pub quote_token: TokenMetadata,
    pub order_type: OrderType,
    pub price: u128,
    pub amount: u128,
    pub expiration: Option<u64>,
}

/// Self-hedging: trade a token back and forth to generate volume. The
/// slippage tolerance travels beside this value, as a float.
#[derive(Debug)]
pub struct SelfHedgingConfig {
    pub exchange: Exchange,
    pub trading_token: TokenMetadata,
    pub transaction_size: u128,
    pub order_split_type: OrderSplitType,
    pub check_interval_secs: u64,
}

impl StrategyConfig for DCAConfig {
    open spec fn validation_error(&self) -> Option<Seq<char>> {
        if self.amount_per_execution == 0 {
            Some("Amount per execution must be greater than 0"@)
        } else if self.interval_secs == 0 {
            Some("Interval must be greater than 0"@)
        } else {
            None
        }
    }

    open spec fn spec_strategy_type(&self) -> StrategyType {
        StrategyType::DollarCostAveraging
    }

    open spec fn spec_exchange(&self) -> Exchange {
        self.exchange
    }

    fn validate(&self) -> (r: Result<(), String>) {
        if self.amount_per_execution == 0 {
            return Err("Amount per execution must be greater than 0".to_string());
        }
        if self.interval_secs == 0 {
            return Err("Interval must be greater than 0".to_string());
        }
        Ok(())
    }

    fn get_strategy_type(&self) -> (r: StrategyType) {
        StrategyType::DollarCostAveraging
    }

    fn get_exchange(&self) -> (r: Exchange) {
        self.exchange
    }
}

impl StrategyConfig for ValueAvgConfig {
    open spec fn validation_error(&self) -> Option<Seq<char>> {
        if self.target_value_increase == 0 {
            Some("Target value increase must be greater than 0"@)
        } else if self.interval_secs == 0 {
            Some("Interval must be greater than 0"@)
        } else {
            None
        }
    }

    open spec fn spec_strategy_type(&self) -> StrategyType {
        StrategyType::ValueAveraging
    }

    open spec fn spec_exchange(&self) -> Exchange {
        self.exchange
    }

    fn validate(&self) -> (r: Result<(), String>) {
        if self.target_value_increase == 0 {
            return Err("Target value increase must be greater than 0".to_string());
        }
        if self.interval_secs == 0 {
            return Err("Interval must be greater than 0".to_string());
        }
        Ok(())
    }

    fn get_strategy_type(&self) -> (r: StrategyType) {
        StrategyType::ValueAveraging
    }

    fn get_exchange(&self) -> (r: Exchange) {
        self.exchange
    }
}

impl StrategyConfig for FixedBalanceConfig {
    open spec fn validation_error(&self) -> Option<Seq<char>> {
        if self.token_allocations@.len() == 0 {
            Some("Token allocations cannot be empty"@)
        } else if self.interval_secs == 0 {
            Some("Interval must be greater than 0"@)
        } else {
            None
        }
    }

    open spec fn spec_strategy_type(&self) -> StrategyType {
        StrategyType::FixedBalance
    }

    open spec fn spec_exchange(&self) -> Exchange {
        self.exchange
    }

    fn validate(&self) -> (r: Result<(), String>) {
        if self.token_allocations.len() == 0 {
            return Err("Token allocations cannot be empty".to_string());
        }
        if self.interval_secs == 0 {
            return Err("Interval must be greater than 0".to_string());
        }
        Ok(())
    }

    fn get_strategy_type(&self) -> (r: StrategyType) {
        StrategyType::FixedBalance
    }

    fn get_exchange(&self) -> (r: Exchange) {
        self.exchange
    }
}

impl StrategyConfig for LimitOrderConfig {
    open spec fn validation_error(&self) -> Option<Seq<char>> {
        if self.amount == 0 {
            Some("Amount must be greater than 0"@)
        } else if self.price == 0 {
            Some("Price must be greater than 0"@)
        } else {
            None
        }
    }

    open spec fn spec_strategy_type(&self) -> StrategyType {
        StrategyType::LimitOrder
    }

    open spec fn spec_exchange(&self) -> Exchange {
        self.exchange
    }

    fn validate(&self) -> (r: Result<(), String>) {
        if self.amount == 0 {
            return Err("Amount must be greater than 0".to_string());
        }
        if self.price == 0 {
            return Err("Price must be greater than 0".to_string());
        }
        Ok(())
    }

    fn get_strategy_type(&self) -> (r: StrategyType) {
        StrategyType::LimitOrder
    }

    fn get_exchange(&self) -> (r: Exchange) {
        self.exchange
    }
}

impl StrategyConfig for SelfHedgingConfig {
    open spec fn validation_error(&self) -> Option<Seq<char>> {
        if self.transaction_size == 0 {
            Some("Transaction size must be greater than 0"@)
        } else if self.check_interval_secs == 0 {
            Some("Check interval must be greater than 0"@)
        } else {
            None
        }
    }

    open spec fn spec_strategy_type(&self) -> StrategyType {
        StrategyType::SelfHedging
    }

    open spec fn spec_exchange(&self) -> Exchange {
        self.exchange
    }

    fn validate(&self) -> (r: Result<(), String>) {
        if self.transaction_size == 0 {
            return Err("Transaction size must be greater than 0".to_string());
        }
        if self.check_interval_secs == 0 {
            return Err("Check interval must be greater than 0".to_string());
        }
        Ok(())
    }

    fn get_strategy_type(&self) -> (r: StrategyType) {
        StrategyType::SelfHedging
    }

    fn get_exchange(&self) -> (r: Exchange) {
        self.exchange
    }
}

/// A trade a strategy made.
#[derive(Debug)]
pub struct Transaction {
    pub id: u64,
    pub timestamp: u64,
    pub direction: OrderType,
    pub input_token: TokenMetadata,
    pub output_token: TokenMetadata,
    pub input_amount: u128,
    pub output_amount: u128,
    pub exchange: Exchange,
    pub status: TransactionStatus,
    pub error_message: Option<String>,
}

/// What a strategy asks of an exchange for a swap.
#[derive(Debug)]
pub struct SwapParams {
    pub trading_pair: TradingPair,
    pub direction: OrderType,
    pub amount_in: u128,
    pub min_amount_out: u128,
    pub max_slippage_percentage: u64,
}

/// The outcome of a swap.
#[derive(Debug)]
pub enum SwapResult {
    Success { transaction_id: String, amount_in: u128, amount_out: u128 },
    Error(String),
}

/// The states of an order on an exchange.
#[derive(Clone, Copy, Debug, PartialEq, Eq, Structural)]
pub enum OrderStatus {
    Pending,
    PartiallyFilled,
    Filled,
    Canceled,
    Failed,
}

/// An order on an exchange.
#[derive(Debug)]
pub struct OrderInfo {
    pub order_id: String,
    pub trading_pair: TradingPair,
    pub direction: OrderType,
    pub amount_in: u128,
    pub amount_out: u128,
    pub status: OrderStatus,
    pub created_at: u64,
    pub updated_at: u64,
}

/// A liquidity pool of a pair.
#[derive(Debug)]
pub struct PoolInfo {
    pub canister_id: String,
    pub trading_pair: TradingPair,
    pub token0_reserve: u128,
    pub token1_reserve: u128,
    pub fee_percentage: u64,
}

/// Each kind of configuration requests the strategy of its own kind, and
/// no two kinds request the same strategy type.
pub proof fn law_config_kinds_request_their_own_type(
    dca: DCAConfig,
    value_avg: ValueAvgConfig,
    fixed: FixedBalanceConfig,
    limit: LimitOrderConfig,
    hedging: SelfHedgingConfig,
)
    ensures
        dca.spec_strategy_type() == StrategyType::DollarCostAveraging,
        value_avg.spec_strategy_type() == StrategyType::ValueAveraging,
        fixed.spec_strategy_type() == StrategyType::FixedBalance,
        limit.spec_strategy_type() == StrategyType::LimitOrder,
        hedging.spec_strategy_type() == StrategyType::SelfHedging,
        seq![
            dca.spec_strategy_type(),
            value_avg.spec_strategy_type(),
            fixed.spec_strategy_type(),
            limit.spec_strategy_type(),
            hedging.spec_strategy_type(),
        ].no_duplicates(),
{
    let s = seq![
        dca.spec_strategy_type(),
        value_avg.spec_strategy_type(),
        fixed.spec_strategy_type(),
        limit.spec_strategy_type(),
        hedging.spec_strategy_type(),
    ];
    assert forall|i: int, j: int| 0 <= i < s.len() && 0 <= j < s.len() && i != j implies s[i] != s[j] by {}
}

} // verus!

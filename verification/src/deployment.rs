use vstd::prelude::*;
use crate::ledger::{after_charge, after_deposit, moves_balance, refund_description};
use crate::payment::{payment_shortfall_text, process_balance_payment, process_balance_refund};
use crate::principal::Principal;
use crate::records::{deployment_id_text, records_view, registers_strategy, status_updated};
use crate::state::{CallContext, FactoryState, Ledger, TransactionType};
use crate::text::{debug_str, push_debug_str};
use crate::types::{
    DCAConfig, DeploymentRecord, DeploymentRecordView, DeploymentRequest, DeploymentStatus, Exchange, FixedBalanceConfig,
    LimitOrderConfig, SelfHedgingConfig, StrategyConfig, StrategyMetadata, StrategyStatus, StrategyType,
    TokenMetadata, TradingPair, ValueAvgConfig, strategy_type_name,
};

verus! {

/// The ways a deployment can fail.
#[derive(Debug)]
pub enum DeploymentError {
    ConfigError(String),
    PaymentError(String),
    ModuleNotFound(StrategyType),
    CanisterCreationFailed(String),
    CodeInstallationFailed(String),
    InitializationFailed(String),
    MetadataError(String),
    RecordNotFound(String),
    SystemError(String),
}

/// The message of a deployment error.
pub open spec fn deployment_error_text(e: DeploymentError) -> Seq<char> {
    match e {
        DeploymentError::ConfigError(m) => "Configuration error: "@ + m@,
        DeploymentError::PaymentError(m) => "Payment error: "@ + debug_str(m@),
        DeploymentError::ModuleNotFound(t) => strategy_type_name(t) + " strategy WASM module not found"@,
        DeploymentError::CanisterCreationFailed(m) => "Canister creation failed: "@ + m@,
        DeploymentError::CodeInstallationFailed(m) => "Code installation failed: "@ + m@,
        DeploymentError::InitializationFailed(m) => "Strategy initialization failed: "@ + m@,
        DeploymentError::MetadataError(m) => "Metadata error: "@ + m@,
        DeploymentError::RecordNotFound(m) => "Record not found: "@ + m@,
        DeploymentError::SystemError(m) => "System error: "@ + m@,
    }
}

impl DeploymentError {
    /// The error's message: a prefix naming the kind of failure, then the
    /// detail (for a payment error, in its debug form).
    pub fn to_string(&self) -> (r: String)
        ensures
            r@ == deployment_error_text(*self),
    {
        let mut s = String::new();
        match self {
            DeploymentError::ConfigError(m) => {
                s.append("Configuration error: ");
                s.append(m.as_str());
            },
            DeploymentError::PaymentError(m) => {
                s.append("Payment error: ");
                push_debug_str(&mut s, m.as_str());
            },
            DeploymentError::ModuleNotFound(t) => {
                s.append(t.name());
                s.append(" strategy WASM module not found");
            },
            DeploymentError::CanisterCreationFailed(m) => {
                s.append("Canister creation failed: ");
                s.append(m.as_str());
            },
            DeploymentError::CodeInstallationFailed(m) => {
                s.append("Code installation failed: ");
                s.append(m.as_str());
            },
            DeploymentError::InitializationFailed(m) => {
                s.append("Strategy initialization failed: ");
                s.append(m.as_str());
            },
            DeploymentError::MetadataError(m) => {
                s.append("Metadata error: ");
                s.append(m.as_str());
            },
            DeploymentError::RecordNotFound(m) => {
                s.append("Record not found: ");
                s.append(m.as_str());
            },
            DeploymentError::SystemError(m) => {
                s.append("System error: ");
                s.append(m.as_str());
            },
        }
        proof {
            assert(s@ =~= deployment_error_text(*self));
        }
        s
    }
}

/// Passes a failed result on as a deployment error built from its message.
pub fn map_deployment_error<T, F: Fn(String) -> DeploymentError>(result: Result<T, String>, error_type: F) -> (r: Result<
    T,
    DeploymentError,
>)
    requires
        forall|e: String| call_requires(error_type, (e,)),
    ensures
        result is Ok <==> r is Ok,
        result matches Ok(v) ==> r == Ok::<T, DeploymentError>(v),
        result matches Err(e) ==> r matches Err(d) && call_ensures(error_type, (e,), d),
{
    match result {
        Ok(v) => Ok(v),
        Err(e) => Err(error_type(e)),
    }
}

/// The first bytes of every WASM module: the magic number and version 1.
pub open spec fn wasm_header() -> Seq<u8> {
    seq![0x00u8, 0x61u8, 0x73u8, 0x6Du8, 0x01u8, 0x00u8, 0x00u8, 0x00u8]
}

/// The module installed for a strategy type: the self-hedging build for
/// the self-hedging strategy, a bare WASM header for the others, whose
/// builds do not exist yet.
pub fn get_embedded_wasm_module(strategy_type: StrategyType, self_hedging_wasm: &Vec<u8>) -> (r: Option<Vec<u8>>)
    ensures
        r is Some,
        r matches Some(w) ==> w@ == (if strategy_type == StrategyType::SelfHedging {
            self_hedging_wasm@
        } else {
            wasm_header()
        }),
{
    match strategy_type {
        StrategyType::SelfHedging => Some(self_hedging_wasm.clone()),
        _ => {
            let v: Vec<u8> = vec![0x00u8, 0x61u8, 0x73u8, 0x6Du8, 0x01u8, 0x00u8, 0x00u8, 0x00u8];
            assert(v@ =~= wasm_header());
            Some(v)
        },
    }
}

/// A strategy configuration of any type, as decoded from a record.
#[derive(Debug)]
pub enum StrategyConfigData {
    Dca(DCAConfig),
    ValueAvg(ValueAvgConfig),
    FixedBalance(FixedBalanceConfig),
    LimitOrder(LimitOrderConfig),
    SelfHedging(SelfHedgingConfig),
}

/// The ICP ledger canister `ryjl3-tyaaa-aaaaa-aaaba-cai`.
pub open spec fn icp_ledger_bytes() -> Seq<u8> {
    seq![0u8, 0u8, 0u8, 0u8, 0u8, 0u8, 0u8, 2u8, 1u8, 1u8]
}

/// The principal of the ICP ledger canister.
pub fn icp_ledger_principal() -> (r: Principal)
    ensures
        r@ == icp_ledger_bytes(),
{
    let bytes: Vec<u8> = vec![0u8, 0u8, 0u8, 0u8, 0u8, 0u8, 0u8, 2u8, 1u8, 1u8];
    assert(bytes@ =~= icp_ledger_bytes());
    Principal::from_slice(bytes.as_slice())
}

/// The ICP token: the ledger canister, symbol `ICP`, eight decimals.
pub open spec fn is_icp_token(t: TokenMetadata) -> bool {
    t.canister_id@ == icp_ledger_bytes() && t.symbol@ == "ICP"@ && t.decimals == 8
}

/// `m` registers a new strategy in `canister_id` of the given type, owned
/// by `owner`, created at `now`, trading `base` against `quote`.
pub open spec fn new_strategy(
    m: StrategyMetadata,
    canister_id: Principal,
    strategy_type: StrategyType,
    owner: Principal,
    now: u64,
    exchange: Exchange,
) -> bool {
    &&& m.canister_id == canister_id
    &&& m.strategy_type == strategy_type
    &&& m.owner == owner
    &&& m.created_at == now
    &&& m.status == StrategyStatus::Created
    &&& m.exchange == exchange
}

/// A fixed-balance configuration without any token allocation, from which
/// no strategy metadata can be made.
pub open spec fn lacks_allocation(config: StrategyConfigData) -> bool {
    config matches StrategyConfigData::FixedBalance(c) && c.token_allocations@.len() == 0
}

/// `m` is the metadata of a strategy deployed in `canister_id` for `owner`
/// at `now` with the given configuration. A fixed-balance strategy trades
/// its first allocated token against ICP; a self-hedging strategy trades
/// its token against itself.
pub open spec fn describes_strategy(
    m: StrategyMetadata,
    owner: Principal,
    canister_id: Principal,
    now: u64,
    config: StrategyConfigData,
) -> bool {
    match config {
        StrategyConfigData::Dca(c) => new_strategy(m, canister_id, StrategyType::DollarCostAveraging, owner, now,
            c.exchange) && m.trading_pair.base_token == c.base_token && m.trading_pair.quote_token
            == c.quote_token,
        StrategyConfigData::ValueAvg(c) => new_strategy(m, canister_id, StrategyType::ValueAveraging, owner, now,
            c.exchange) && m.trading_pair.base_token == c.base_token && m.trading_pair.quote_token
            == c.quote_token,
        StrategyConfigData::FixedBalance(c) => new_strategy(m, canister_id, StrategyType::FixedBalance, owner,
            now, c.exchange) && m.trading_pair.base_token == c.token_allocations@[0] && is_icp_token(
            m.trading_pair.quote_token,
        ),
        StrategyConfigData::LimitOrder(c) => new_strategy(m, canister_id, StrategyType::LimitOrder, owner, now,
            c.exchange) && m.trading_pair.base_token == c.base_token && m.trading_pair.quote_token
            == c.quote_token,
        StrategyConfigData::SelfHedging(c) => new_strategy(m, canister_id, StrategyType::SelfHedging, owner, now,
            c.exchange) && m.trading_pair.base_token == c.trading_token && m.trading_pair.quote_token
            == c.trading_token,
    }
}

/// The metadata of a strategy deployed in `canister_id` for `owner` at
/// `now` with the given configuration; a fixed-balance strategy needs at
/// least one allocation.
pub fn create_strategy_metadata(owner: &Principal, canister_id: &Principal, now: u64, config: &StrategyConfigData) -> (r:
    Result<StrategyMetadata, String>)
    ensures
        r is Err <==> lacks_allocation(*config),
        r matches Err(e) ==> e@ == "Fixed Balance strategy must have at least one token allocation"@,
        r matches Ok(m) ==> describes_strategy(m, *owner, *canister_id, now, *config),
{
    let (strategy_type, exchange, base_token, quote_token) = match config {
        StrategyConfigData::Dca(c) => (
            StrategyType::DollarCostAveraging,
            c.exchange,
            c.base_token.clone(),
            c.quote_token.clone(),
        ),
        StrategyConfigData::ValueAvg(c) => (
            StrategyType::ValueAveraging,
            c.exchange,
            c.base_token.clone(),
            c.quote_token.clone(),
        ),
        StrategyConfigData::FixedBalance(c) => {
            if c.token_allocations.len() == 0 {
                return Err("Fixed Balance strategy must have at least one token allocation".to_string());
            }
            let quote = TokenMetadata {
                canister_id: icp_ledger_principal(),
                symbol: "ICP".to_string(),
                decimals: 8,
            };
            (StrategyType::FixedBalance, c.exchange, c.token_allocations[0].clone(), quote)
        },
        StrategyConfigData::LimitOrder(c) => (
            StrategyType::LimitOrder,
            c.exchange,
            c.base_token.clone(),
            c.quote_token.clone(),
        ),
        StrategyConfigData::SelfHedging(c) => (
            StrategyType::SelfHedging,
            c.exchange,
            c.trading_token.clone(),
            c.trading_token.clone(),
        ),
    };
    Ok(StrategyMetadata {
        canister_id: *canister_id,
        strategy_type,
        owner: *owner,
        created_at: now,
        status: StrategyStatus::Created,
        exchange,
        trading_pair: TradingPair { base_token, quote_token },
    })
}

/// A new record of a paid deployment: status `PaymentReceived`, requested
/// and updated at `now`, no canister and no error yet.
pub open spec fn new_record_view(
    deployment_id: Seq<char>,
    strategy_type: StrategyType,
    owner: Principal,
    fee: u64,
    config_data: Seq<u8>,
    now: u64,
) -> DeploymentRecordView {
    DeploymentRecordView {
        deployment_id,
        strategy_type,
        owner,
        fee_amount: fee,
        request_time: now,
        status: DeploymentStatus::PaymentReceived,
        canister_id: None,
        config_data,
        error_message: None,
        last_updated: now,
    }
}

/// Builds the record of a paid deployment from its serialized
/// configuration, or fails with the serialization error.
pub fn create_deployment_record(
    deployment_id: &str,
    strategy_type: StrategyType,
    owner: &Principal,
    fee: u64,
    config_bytes: Result<Vec<u8>, String>,
    now: u64,
) -> (r: Result<DeploymentRecord, DeploymentError>)
    ensures
        r is Ok <==> config_bytes is Ok,
        config_bytes matches Err(e) ==> r matches Err(DeploymentError::ConfigError(m)) && m@
            == "Failed to serialize config: "@ + e@,
        config_bytes matches Ok(b) ==> r matches Ok(rec) && rec@ == new_record_view(deployment_id@,
            strategy_type, *owner, fee, b@, now),
{
    match config_bytes {
        Err(e) => {
            let mut m = "Failed to serialize config: ".to_string();
            m.append(e.as_str());
            Err(DeploymentError::ConfigError(m))
        },
        Ok(bytes) => Ok(
            DeploymentRecord {
                deployment_id: deployment_id.to_string(),
                strategy_type,
                owner: *owner,
                fee_amount: fee,
                request_time: now,
                status: DeploymentStatus::PaymentReceived,
                canister_id: None,
                config_data: bytes,
                error_message: None,
                last_updated: now,
            },
        ),
    }
}

/// The description of the fee charged for a deployment of a strategy type.
pub open spec fn fee_description(t: StrategyType) -> Seq<char> {
    "Deployment fee for "@ + strategy_type_name(t) + " strategy"@
}

/// Why a deployment request is turned down before anything is charged, if
/// it is: an invalid configuration, or a fee the caller's balance does not
/// cover.
pub open spec fn request_refusal<T: StrategyConfig>(s: FactoryState, caller: Principal, config: T) -> Option<
    Seq<char>,
> {
    let fee = s.deployment_fee;
    if config.validation_error() is Some {
        Some("Configuration error: "@ + config.validation_error()->0)
    } else if fee == 0 {
        Some("Payment error: "@ + debug_str("Payment amount must be greater than 0"@))
    } else if s.ledger.account(caller).balance < fee {
        Some("Payment error: "@ + debug_str(payment_shortfall_text(fee)))
    } else {
        None
    }
}

impl FactoryState {
    /// Takes a deployment request from the caller of `ctx`: validates the
    /// configuration (every strategy type has a module), charges the
    /// deployment fee to the caller's balance, generates a deployment id and
    /// stores a `PaymentReceived` record with the serialized configuration.
    /// Running the deployment is up to the caller of this function.
    pub fn create_strategy_request<T: StrategyConfig>(
        &mut self,
        ctx: &CallContext,
        config: &T,
        config_bytes: Result<Vec<u8>, String>,
    ) -> (r: Result<DeploymentRequest, String>)
        requires
            old(self).wf(),
            old(self).deployment_id_counter < u64::MAX,
        ensures
            final(self).wf(),
            request_refusal(*old(self), ctx.caller, *config) matches Some(m) ==> r matches Err(e) && e@ == m
                && *final(self) == *old(self),
            request_refusal(*old(self), ctx.caller, *config) is None ==> {
                let fee = old(self).deployment_fee;
                let id = deployment_id_text(ctx.now, ctx.caller, old(self).deployment_id_counter);
                &&& moves_balance(
                    old(self).ledger,
                    final(self).ledger,
                    *ctx,
                    ctx.caller,
                    after_charge(old(self).ledger.account(ctx.caller), fee),
                    fee,
                    TransactionType::DeploymentFee,
                    fee_description(config.spec_strategy_type()),
                )
                &&& final(self).deployment_id_counter == old(self).deployment_id_counter + 1
                &&& final(self).strategies == old(self).strategies
                &&& final(self).owner_strategies == old(self).owner_strategies
                &&& final(self).admins == old(self).admins
                &&& final(self).deployment_fee == old(self).deployment_fee
                &&& (config_bytes matches Err(b) ==> r matches Err(e) && e@
                    == "Configuration error: "@ + "Failed to serialize config: "@ + b@
                    && final(self).deployment_records == old(self).deployment_records)
                &&& (config_bytes matches Ok(b) ==> r matches Ok(req) && req.deployment_id@ == id
                    && req.fee_amount == fee && req.strategy_type == config.spec_strategy_type()
                    && records_view(final(self).deployment_records@) == records_view(
                    old(self).deployment_records@,
                ).insert(id, new_record_view(id, config.spec_strategy_type(), ctx.caller, fee, b@, ctx.now)))
            },
    {
        let owner = ctx.caller;
        let fee = self.get_fee();
        if let Err(e) = config.validate() {
            return Err(DeploymentError::ConfigError(e).to_string());
        }
        let strategy_type = config.get_strategy_type();
        let mut description = "Deployment fee for ".to_string();
        description.append(strategy_type.name());
        description.append(" strategy");
        proof {
            assert(description@ =~= fee_description(strategy_type));
        }
        if let Err(e) = process_balance_payment(&mut self.ledger, ctx, &owner, fee, description.as_str()) {
            return Err(DeploymentError::PaymentError(e).to_string());
        }
        let deployment_id = self.generate_deployment_id(ctx.now, &owner);
        let record = match create_deployment_record(deployment_id.as_str(), strategy_type, &owner, fee,
            config_bytes, ctx.now) {
            Ok(record) => record,
            Err(e) => return Err(e.to_string()),
        };
        let ghost rv = record@;
        self.store_deployment_record(record);
        proof {
            assert(records_view(self.deployment_records@) =~= records_view(old(self).deployment_records@).insert(
                deployment_id@,
                rv,
            ));
        }
        Ok(DeploymentRequest { deployment_id, fee_amount: fee, strategy_type })
    }
}

/// How a deployment run ends: the canister of the deployed strategy, or
/// the error that made it fail.
#[derive(Debug)]
pub enum DeploymentResult {
    Success(Principal),
    Failure(String),
}

/// What the deployment run does next.
#[derive(Debug)]
pub enum DeploymentAction {
    /// Install the strategy type's module in this canister.
    InstallCode(Principal),
    /// Call the strategy's initialization method in this canister with the
    /// owner and the configuration.
    InitializeStrategy(Principal),
    /// The run is over.
    Finished(Result<DeploymentResult, String>),
}

/// The ledger after the refund of the fee of deployment `id` to `owner` in
/// `ctx`, recorded as a refund; a zero fee is not refunded.
pub open spec fn refunded_ledger(old: Ledger, new: Ledger, ctx: CallContext, owner: Principal, fee: u64, id: Seq<char>) -> bool {
    if fee > 0 {
        moves_balance(old, new, ctx, owner, after_deposit(old.account(owner), fee, ctx.now), fee, TransactionType::Refund,
            refund_description(id))
    } else {
        new == old
    }
}

/// Neither the strategy registry, the admins, the fee nor the counter
/// changed.
pub open spec fn registry_unchanged(old: FactoryState, new: FactoryState) -> bool {
    &&& new.strategies == old.strategies
    &&& new.owner_strategies == old.owner_strategies
    &&& new.admins == old.admins
    &&& new.deployment_fee == old.deployment_fee
    &&& new.deployment_id_counter == old.deployment_id_counter
}

/// The record of a deployment that failed at `now` with `msg`: marked
/// `DeploymentFailed` with the canister and the message; then, when it has
/// a fee, marked `Refunding` while the fee is paid back and `Refunded` once
/// it is.
pub open spec fn failed_record(
    r: DeploymentRecordView,
    canister_id: Option<Principal>,
    msg: Seq<char>,
    now: u64,
) -> DeploymentRecordView {
    let failed = status_updated(r, DeploymentStatus::DeploymentFailed, canister_id, Some(msg), now);
    if r.fee_amount > 0 {
        let refunding = status_updated(failed, DeploymentStatus::Refunding, None, None, now);
        status_updated(refunding, DeploymentStatus::Refunded, None, None, now)
    } else {
        failed
    }
}

/// The deployment `id`, whose records were `recs` before this step, failed
/// with `msg`: its record is marked `DeploymentFailed` with the canister
/// and the message, the fee is refunded to the owner once and the record
/// marked `Refunded` (a record without a fee stays `DeploymentFailed`), and
/// the run ends with that failure.
pub open spec fn fails_deployment(
    old: FactoryState,
    recs: Map<Seq<char>, DeploymentRecordView>,
    new: FactoryState,
    r: DeploymentAction,
    id: Seq<char>,
    canister_id: Option<Principal>,
    msg: Seq<char>,
    ctx: CallContext,
) -> bool {
    let rec = old.deployment_records@[id];
    &&& recs[id].fee_amount == rec.fee_amount
    &&& records_view(new.deployment_records@) == recs.insert(id, failed_record(recs[id], canister_id, msg, ctx.now))
    &&& refunded_ledger(old.ledger, new.ledger, ctx, rec.owner, rec.fee_amount, id)
    &&& registry_unchanged(old, new)
    &&& r matches DeploymentAction::Finished(Ok(DeploymentResult::Failure(m))) && m@ == msg
}

/// Only the deployment records changed, to `recs`.
pub open spec fn only_records_become(old: FactoryState, new: FactoryState, recs: Map<
    Seq<char>,
    DeploymentRecordView,
>) -> bool {
    &&& records_view(new.deployment_records@) == recs
    &&& new.ledger == old.ledger
    &&& registry_unchanged(old, new)
}

/// The text of a missing record, as the status update reports it.
pub open spec fn missing_record_text(id: Seq<char>) -> Seq<char> {
    "Deployment record not found: "@ + id
}

impl FactoryState {
    /// The record a deployment run starts from.
    pub fn start_deployment(&self, deployment_id: &str) -> (r: Result<DeploymentRecord, String>)
        ensures
            r is Ok <==> self.deployment_records@.contains_key(deployment_id@),
            r matches Ok(rec) ==> rec@ == self.deployment_records@[deployment_id@]@,
            r matches Err(e) ==> e@ == "Record not found: "@ + "Deployment record not found for ID: "@
                + deployment_id@,
    {
        match self.get_deployment_record(deployment_id) {
            Some(rec) => Ok(rec),
            None => {
                let mut m = "Deployment record not found for ID: ".to_string();
                m.append(deployment_id);
                Err(DeploymentError::RecordNotFound(m).to_string())
            },
        }
    }

    /// Marks a deployment as failed with `msg`, refunds its fee and marks
    /// it refunded.
    fn fail_deployment(&mut self, ctx: &CallContext, deployment_id: &str, canister_id: Option<Principal>, msg: String) -> (r:
        DeploymentAction)
        requires
            old(self).wf(),
        ensures
            final(self).wf(),
            !old(self).deployment_records@.contains_key(deployment_id@) ==> *final(self) == *old(self)
                && (r matches DeploymentAction::Finished(Err(e)) && e@ == "Failed to update deployment status: "@
                + missing_record_text(deployment_id@)),
            old(self).deployment_records@.contains_key(deployment_id@) ==> fails_deployment(*old(self),
                records_view(old(self).deployment_records@), *final(self), r, deployment_id@,
                canister_id, msg@, *ctx),
    {
        let ghost m = msg@;
        let note = msg.clone();
        match self.update_deployment_status(deployment_id, DeploymentStatus::DeploymentFailed, canister_id, Some(note),
            ctx.now) {
            Err(e) => {
                let mut t = "Failed to update deployment status: ".to_string();
                t.append(e.as_str());
                return DeploymentAction::Finished(Err(t));
            },
            Ok(()) => {},
        }
        proof {
            crate::records::lemma_records_view(self.deployment_records@);
            crate::records::lemma_records_view(old(self).deployment_records@);
        }
        let ghost mid = *self;
        match self.get_deployment_record(deployment_id) {
            Some(record) => {
                if record.fee_amount > 0 {
                    let _ = self.update_deployment_status(deployment_id, DeploymentStatus::Refunding, None, None, ctx.now);
                    proof {
                        crate::records::lemma_records_view(self.deployment_records@);
                    }
                    let _ = process_balance_refund(&mut self.ledger, ctx, &record.owner, record.fee_amount, deployment_id);
                    let _ = self.update_deployment_status(deployment_id, DeploymentStatus::Refunded, None, None, ctx.now);
                    proof {
                        crate::records::lemma_records_view(self.deployment_records@);
                        assert(records_view(self.deployment_records@) =~= records_view(old(self).deployment_records@).insert(
                            deployment_id@,
                            failed_record(records_view(old(self).deployment_records@)[deployment_id@], canister_id, m, ctx.now),
                        ));
                    }
                }
            },
            None => {
                proof { assert(false); }
            },
        }
        DeploymentAction::Finished(Ok(DeploymentResult::Failure(msg)))
    }
}

/// The name a strategy type's configuration goes by in decode errors.
pub open spec fn config_label(t: StrategyType) -> Seq<char> {
    match t {
        StrategyType::DollarCostAveraging => "DCA"@,
        StrategyType::ValueAveraging => "Value Averaging"@,
        StrategyType::FixedBalance => "Fixed Balance"@,
        StrategyType::LimitOrder => "Limit Order"@,
        StrategyType::SelfHedging => "Self Hedging"@,
    }
}

fn config_label_str(t: StrategyType) -> (r: String)
    ensures
        r@ == config_label(t),
{
    match t {
        StrategyType::DollarCostAveraging => "DCA".to_string(),
        StrategyType::ValueAveraging => "Value Averaging".to_string(),
        StrategyType::FixedBalance => "Fixed Balance".to_string(),
        StrategyType::LimitOrder => "Limit Order".to_string(),
        StrategyType::SelfHedging => "Self Hedging".to_string(),
    }
}

/// The method that initializes a deployed strategy of a type.
pub open spec fn init_method_text(t: StrategyType) -> Seq<char> {
    match t {
        StrategyType::DollarCostAveraging => "init_dca"@,
        StrategyType::ValueAveraging => "init_value_avg"@,
        StrategyType::FixedBalance => "init_fixed_balance"@,
        StrategyType::LimitOrder => "init_limit_order"@,
        StrategyType::SelfHedging => "init_self_hedging"@,
    }
}

/// The method to call on a new strategy canister of this type with the
/// owner and the configuration.
pub fn init_method_name(strategy_type: StrategyType) -> (r: String)
    ensures
        r@ == init_method_text(strategy_type),
{
    match strategy_type {
        StrategyType::DollarCostAveraging => "init_dca".to_string(),
        StrategyType::ValueAveraging => "init_value_avg".to_string(),
        StrategyType::FixedBalance => "init_fixed_balance".to_string(),
        StrategyType::LimitOrder => "init_limit_order".to_string(),
        StrategyType::SelfHedging => "init_self_hedging".to_string(),
    }
}

/// What became of the initialization of a deployed strategy.
#[derive(Debug)]
pub enum InitOutcome {
    /// The stored configuration could not be decoded.
    DecodeFailed(String),
    /// The strategy canister rejected the call, with this code and message.
    CallRejected { code: String, message: String },
    /// The strategy accepted this configuration.
    Initialized(StrategyConfigData),
}

/// The detail of a failed initialization of a strategy of type `t`.
pub open spec fn init_failure_text(t: StrategyType, o: InitOutcome) -> Seq<char> {
    match o {
        InitOutcome::DecodeFailed(e) => "Failed to decode "@ + config_label(t) + " config: "@ + e@,
        InitOutcome::CallRejected { code, message } => "Failed to initialize strategy: code="@ + code@
            + ", message="@ + message@,
        InitOutcome::Initialized(_) => Seq::empty(),
    }
}

/// The records `recs` with deployment `id` moved to `status` in canister
/// `cid` at `now`.
pub open spec fn advanced(
    recs: Map<Seq<char>, DeploymentRecordView>,
    id: Seq<char>,
    status: DeploymentStatus,
    cid: Principal,
    now: u64,
) -> Map<Seq<char>, DeploymentRecordView> {
    recs.insert(id, status_updated(recs[id], status, Some(cid), None, now))
}

/// The run of a deployment whose record is gone ends with an error and
/// changes nothing.
pub open spec fn ends_without_record(old: FactoryState, new: FactoryState, r: DeploymentAction, msg: Seq<char>) -> bool {
    &&& new == old
    &&& r matches DeploymentAction::Finished(Err(e)) && e@ == msg
}

impl FactoryState {
    fn missing_record_error(deployment_id: &str) -> (r: String)
        ensures
            r@ == missing_record_text(deployment_id@),
    {
        let mut e = "Deployment record not found: ".to_string();
        e.append(deployment_id);
        e
    }

    /// The step of a deployment run once the creation of its canister is
    /// answered: a failure fails the deployment and refunds the fee; a new
    /// canister is recorded (`CanisterCreated`) and gets the module
    /// installed, which only the self-hedging strategy type has.
    pub fn on_canister_created(&mut self, ctx: &CallContext, deployment_id: &str, created: Result<Principal, String>) -> (r:
        DeploymentAction)
        requires
            old(self).wf(),
        ensures
            final(self).wf(),
            !old(self).deployment_records@.contains_key(deployment_id@) ==> ends_without_record(
                *old(self),
                *final(self),
                r,
                if created is Ok {
                    "System error: "@ + missing_record_text(deployment_id@)
                } else {
                    "Failed to update deployment status: "@ + missing_record_text(deployment_id@)
                },
            ),
            old(self).deployment_records@.contains_key(deployment_id@) ==> {
                let recs = records_view(old(self).deployment_records@);
                let t = recs[deployment_id@].strategy_type;
                match created {
                    Err(e) => fails_deployment(*old(self), recs, *final(self), r, deployment_id@, None,
                        "Canister creation failed: "@ + e@, *ctx),
                    Ok(cid) => {
                        let step = advanced(recs, deployment_id@, DeploymentStatus::CanisterCreated, cid, ctx.now);
                        if t == StrategyType::SelfHedging {
                            only_records_become(*old(self), *final(self), step) && r == DeploymentAction::InstallCode(
                                cid,
                            )
                        } else {
                            fails_deployment(*old(self), step, *final(self), r, deployment_id@, Some(cid),
                                strategy_type_name(t) + " strategy WASM module not found"@, *ctx)
                        }
                    },
                }
            },
    {
        proof {
            crate::records::lemma_records_view(self.deployment_records@);
        }
        let cid = match created {
            Err(e) => {
                let msg = DeploymentError::CanisterCreationFailed(e).to_string();
                return self.fail_deployment(ctx, deployment_id, None, msg);
            },
            Ok(cid) => cid,
        };
        let record = self.get_deployment_record(deployment_id);
        if let Err(e) = self.update_deployment_status(deployment_id, DeploymentStatus::CanisterCreated, Some(cid), None,
            ctx.now) {
            return DeploymentAction::Finished(Err(DeploymentError::SystemError(e).to_string()));
        }
        proof {
            crate::records::lemma_records_view(self.deployment_records@);
        }
        match record {
            Some(record) => {
                match record.strategy_type {
                    StrategyType::SelfHedging => DeploymentAction::InstallCode(cid),
                    t => self.fail_deployment(ctx, deployment_id, Some(cid), DeploymentError::ModuleNotFound(t).to_string()),
                }
            },
            None => {
                proof {
                    assert(false);
                }
                DeploymentAction::Finished(Err(String::new()))
            },
        }
    }

    /// The step of a deployment run once the installation of the module in
    /// `canister_id` is answered: a failure fails the deployment and refunds
    /// the fee; otherwise the record moves to `CodeInstalled` and the
    /// strategy is initialized next.
    pub fn on_code_installed(
        &mut self,
        ctx: &CallContext,
        deployment_id: &str,
        canister_id: Principal,
        installed: Result<(), String>,
    ) -> (r: DeploymentAction)
        requires
            old(self).wf(),
        ensures
            final(self).wf(),
            !old(self).deployment_records@.contains_key(deployment_id@) ==> ends_without_record(
                *old(self),
                *final(self),
                r,
                if installed is Ok {
                    "System error: "@ + missing_record_text(deployment_id@)
                } else {
                    "Failed to update deployment status: "@ + missing_record_text(deployment_id@)
                },
            ),
            old(self).deployment_records@.contains_key(deployment_id@) ==> {
                let recs = records_view(old(self).deployment_records@);
                match installed {
                    Err(e) => fails_deployment(*old(self), recs, *final(self), r, deployment_id@, Some(canister_id),
                        "Code installation failed: "@ + e@, *ctx),
                    Ok(()) => only_records_become(
                        *old(self),
                        *final(self),
                        advanced(recs, deployment_id@, DeploymentStatus::CodeInstalled, canister_id, ctx.now),
                    ) && r == DeploymentAction::InitializeStrategy(canister_id),
                }
            },
    {
        if let Err(e) = installed {
            let msg = DeploymentError::CodeInstallationFailed(e).to_string();
            return self.fail_deployment(ctx, deployment_id, Some(canister_id), msg);
        }
        if let Err(e) = self.update_deployment_status(deployment_id, DeploymentStatus::CodeInstalled, Some(canister_id),
            None, ctx.now) {
            return DeploymentAction::Finished(Err(DeploymentError::SystemError(e).to_string()));
        }
        DeploymentAction::InitializeStrategy(canister_id)
    }

    /// The last step of a deployment run, once the initialization of the
    /// strategy in `canister_id` is answered. A failure fails the
    /// deployment and refunds the fee. Otherwise the record moves to
    /// `Initialized`, the strategy is registered with metadata made from
    /// its configuration, and the record moves to `Deployed`; metadata that
    /// cannot be made fails the deployment instead.
    pub fn on_strategy_initialized(
        &mut self,
        ctx: &CallContext,
        deployment_id: &str,
        canister_id: Principal,
        outcome: InitOutcome,
    ) -> (r: DeploymentAction)
        requires
            old(self).wf(),
        ensures
            final(self).wf(),
            !old(self).deployment_records@.contains_key(deployment_id@) ==> ends_without_record(
                *old(self),
                *final(self),
                r,
                if outcome is Initialized {
                    "System error: "@ + missing_record_text(deployment_id@)
                } else {
                    "Failed to update deployment status: "@ + missing_record_text(deployment_id@)
                },
            ),
            old(self).deployment_records@.contains_key(deployment_id@) ==> {
                let recs = records_view(old(self).deployment_records@);
                let rec = recs[deployment_id@];
                let step = advanced(recs, deployment_id@, DeploymentStatus::Initialized, canister_id, ctx.now);
                match outcome {
                    InitOutcome::Initialized(config) => if lacks_allocation(config) {
                        fails_deployment(*old(self), step, *final(self), r, deployment_id@, Some(canister_id),
                            "Metadata error: "@ + "Fixed Balance strategy must have at least one token allocation"@,
                            *ctx)
                    } else {
                        let m = final(self).strategies@[canister_id@];
                        &&& describes_strategy(m, rec.owner, canister_id, ctx.now, config)
                        &&& registers_strategy(*old(self), *final(self), m)
                        &&& records_view(final(self).deployment_records@) == advanced(recs, deployment_id@,
                            DeploymentStatus::Deployed, canister_id, ctx.now)
                        &&& final(self).ledger == old(self).ledger
                        &&& final(self).admins == old(self).admins
                        &&& final(self).deployment_fee == old(self).deployment_fee
                        &&& final(self).deployment_id_counter == old(self).deployment_id_counter
                        &&& r == DeploymentAction::Finished(Ok(DeploymentResult::Success(canister_id)))
                    },
                    _ => fails_deployment(*old(self), recs, *final(self), r, deployment_id@, Some(canister_id),
                        "Strategy initialization failed: "@ + init_failure_text(rec.strategy_type, outcome), *ctx),
                }
            },
    {
        proof {
            crate::records::lemma_records_view(self.deployment_records@);
        }
        let record = match self.get_deployment_record(deployment_id) {
            Some(record) => record,
            None => {
                let e = Self::missing_record_error(deployment_id);
                let r = match outcome {
                    InitOutcome::Initialized(_) => DeploymentAction::Finished(
                        Err(DeploymentError::SystemError(e).to_string()),
                    ),
                    _ => {
                        let mut t = "Failed to update deployment status: ".to_string();
                        t.append(e.as_str());
                        DeploymentAction::Finished(Err(t))
                    },
                };
                return r;
            },
        };
        let config = match outcome {
            InitOutcome::DecodeFailed(e) => {
                let mut m = "Failed to decode ".to_string();
                m.append(config_label_str(record.strategy_type).as_str());
                m.append(" config: ");
                m.append(e.as_str());
                let msg = DeploymentError::InitializationFailed(m).to_string();
                return self.fail_deployment(ctx, deployment_id, Some(canister_id), msg);
            },
            InitOutcome::CallRejected { code, message } => {
                let mut m = "Failed to initialize strategy: code=".to_string();
                m.append(code.as_str());
                m.append(", message=");
                m.append(message.as_str());
                let msg = DeploymentError::InitializationFailed(m).to_string();
                return self.fail_deployment(ctx, deployment_id, Some(canister_id), msg);
            },
            InitOutcome::Initialized(config) => config,
        };
        let _ = self.update_deployment_status(deployment_id, DeploymentStatus::Initialized, Some(canister_id), None,
            ctx.now);
        proof {
            crate::records::lemma_records_view(self.deployment_records@);
        }
        let metadata = match create_strategy_metadata(&record.owner, &canister_id, ctx.now, &config) {
            Ok(m) => m,
            Err(e) => {
                let msg = DeploymentError::MetadataError(e).to_string();
                return self.fail_deployment(ctx, deployment_id, Some(canister_id), msg);
            },
        };
        self.store_strategy_metadata(metadata);
        let _ = self.update_deployment_status(deployment_id, DeploymentStatus::Deployed, Some(canister_id), None,
            ctx.now);
        proof {
            crate::records::lemma_records_view(self.deployment_records@);
            assert(records_view(self.deployment_records@) =~= advanced(records_view(old(self).deployment_records@),
                deployment_id@, DeploymentStatus::Deployed, canister_id, ctx.now));
        }
        DeploymentAction::Finished(Ok(DeploymentResult::Success(canister_id)))
    }

    /// After a run that ended in an error, refunds the deployment's fee to
    /// its owner if its record still exists, records the refund and marks
    /// the deployment `Refunded` (a deployment without a fee is left as it
    /// is).
    pub fn refund_failed_run(&mut self, ctx: &CallContext, deployment_id: &str)
        requires
            old(self).wf(),
        ensures
            final(self).wf(),
            !old(self).deployment_records@.contains_key(deployment_id@) ==> *final(self) == *old(self),
            old(self).deployment_records@.contains_key(deployment_id@) ==> {
                let rec = old(self).deployment_records@[deployment_id@];
                &&& refunded_ledger(old(self).ledger, final(self).ledger, *ctx, rec.owner, rec.fee_amount, deployment_id@)
                &&& rec.fee_amount == 0 ==> final(self).deployment_records == old(self).deployment_records
                &&& rec.fee_amount > 0 ==> records_view(final(self).deployment_records@) == records_view(
                    old(self).deployment_records@,
                ).insert(
                    deployment_id@,
                    status_updated(rec@, DeploymentStatus::Refunded, None, None, ctx.now),
                )
                &&& registry_unchanged(*old(self), *final(self))
            },
    {
        if let Some(record) = self.get_deployment_record(deployment_id) {
            if process_balance_refund(&mut self.ledger, ctx, &record.owner, record.fee_amount, deployment_id).is_ok() {
                let _ = self.update_deployment_status(deployment_id, DeploymentStatus::Refunded, None, None, ctx.now);
            }
        }
    }
}

/// A new strategy canister is initialized through the method of its own
/// type, and different strategy types have different init methods.
pub proof fn law_init_methods_match_types(a: StrategyType, b: StrategyType)
    ensures
        init_method_text(StrategyType::DollarCostAveraging) == "init_dca"@,
        init_method_text(StrategyType::ValueAveraging) == "init_value_avg"@,
        init_method_text(StrategyType::FixedBalance) == "init_fixed_balance"@,
        init_method_text(StrategyType::LimitOrder) == "init_limit_order"@,
        init_method_text(StrategyType::SelfHedging) == "init_self_hedging"@,
        a != b ==> init_method_text(a) != init_method_text(b),
{
    reveal_strlit("init_dca");
    reveal_strlit("init_value_avg");
    reveal_strlit("init_fixed_balance");
    reveal_strlit("init_limit_order");
    reveal_strlit("init_self_hedging");
    if a != b {
        assert(init_method_text(a).len() != init_method_text(b).len());
    }
}

} // verus!

use vstd::prelude::*;
use crate::principal::Principal;
use crate::table::Table;
use crate::types::{DeploymentRecord, StrategyMetadata, StrategyType};

verus! {

/// The deployment fee charged by default: 1 ICP in e8s.
pub const DEFAULT_DEPLOYMENT_FEE: u64 = 100_000_000;

/// Completed deployment records older than this many days are archived.
pub const COMPLETED_RECORD_RETENTION_DAYS: u64 = 90;

/// The retention period in nanoseconds.
pub const RETENTION_PERIOD_NS: u64 = 7_776_000_000_000_000;

/// At most this many completed deployment records are kept.
pub const MAX_COMPLETED_RECORDS: usize = 10000;

/// Records are archived once estimated memory use exceeds this percentage.
pub const ARCHIVING_THRESHOLD_PERCENT: u8 = 80;

/// The number of recent transaction records kept in the cache.
pub const DEFAULT_MAX_CACHE_SIZE: usize = 1000;

/// What the environment of a canister call provides: the time in
/// nanoseconds, the caller, and the canister's own principal.
#[derive(Clone, Copy, Debug)]
pub struct CallContext {
    pub now: u64,
    pub caller: Principal,
    pub canister_id: Principal,
}

/// A user's prepaid balance and its history totals, all in e8s.
#[derive(Clone, Copy, Debug, PartialEq, Eq)]
pub struct UserAccount {
    pub owner: Principal,
    pub balance: u64,
    pub last_deposit: u64,
    pub total_deposited: u64,
    pub total_consumed: u64,
}

/// The kinds of balance movement the factory records.
#[derive(Clone, Copy, Debug, PartialEq, Eq, PartialOrd, Ord, Structural)]
pub enum TransactionType {
    Deposit,
    DeploymentFee,
    Refund,
    AdminAdjustment,
    Withdrawal,
    Transfer,
}

/// One recorded balance movement.
#[derive(Debug)]
pub struct TransactionRecord {
    pub transaction_id: String,
    pub user: Principal,
    pub amount: u64,
    pub transaction_type: TransactionType,
    pub timestamp: u64,
    pub description: String,
}

impl Clone for TransactionRecord {
    fn clone(&self) -> (r: Self)
        ensures
            r == *self,
    {
        TransactionRecord {
            transaction_id: self.transaction_id.clone(),
            user: self.user,
            amount: self.amount,
            transaction_type: self.transaction_type,
            timestamp: self.timestamp,
            description: self.description.clone(),
        }
    }
}

/// A strategy WASM module registered for a strategy type.
#[derive(Debug)]
pub struct WasmModule {
    pub strategy_type: StrategyType,
    pub wasm_module: Vec<u8>,
}

/// User accounts and the record of balance movements: every movement kept
/// by id, and the most recent ones in a bounded cache, oldest first.
pub struct Ledger {
    pub accounts: Table<Principal, UserAccount>,
    pub transactions: Table<String, TransactionRecord>,
    pub transaction_cache: Vec<TransactionRecord>,
    pub max_cache_size: usize,
}

/// The factory canister's state: the ledger, deployment records, the
/// strategy registry, admins, the fee and the deployment id counter.
pub struct FactoryState {
    pub ledger: Ledger,
    pub deployment_records: Table<String, DeploymentRecord>,
    pub strategies: Table<Principal, StrategyMetadata>,
    pub owner_strategies: Table<Principal, Vec<Principal>>,
    pub admins: Table<Principal, ()>,
    pub deployment_fee: u64,
    pub deployment_id_counter: u64,
}

/// The account a user has before any deposit.
pub open spec fn empty_account(owner: Principal) -> UserAccount {
    UserAccount { owner, balance: 0, last_deposit: 0, total_deposited: 0, total_consumed: 0 }
}

impl Ledger {
    /// Every account is stored under its owner.
    pub open spec fn wf(self) -> bool {
        forall|k: Seq<u8>| #[trigger] self.accounts@.contains_key(k) ==> self.accounts@[k].owner@ == k
    }

    /// The stored account of `user`, or an empty one.
    pub open spec fn account(self, user: Principal) -> UserAccount {
        if self.accounts@.contains_key(user@) {
            self.accounts@[user@]
        } else {
            empty_account(user)
        }
    }

    /// An empty ledger with the default cache size.
    pub fn new() -> (r: Self)
        ensures
            r.accounts@ == Map::<Seq<u8>, UserAccount>::empty(),
            r.transactions@ == Map::<Seq<char>, TransactionRecord>::empty(),
            r.transaction_cache@ == Seq::<TransactionRecord>::empty(),
            r.max_cache_size == DEFAULT_MAX_CACHE_SIZE,
            r.wf(),
    {
        Ledger {
            accounts: Table::new(),
            transactions: Table::new(),
            transaction_cache: Vec::new(),
            max_cache_size: DEFAULT_MAX_CACHE_SIZE,
        }
    }
}

impl FactoryState {
    /// Everything but the fee is as in `other`.
    pub open spec fn same_but_fee(self, other: FactoryState) -> bool {
        &&& self.ledger == other.ledger
        &&& self.deployment_records == other.deployment_records
        &&& self.strategies == other.strategies
        &&& self.owner_strategies == other.owner_strategies
        &&& self.admins == other.admins
        &&& self.deployment_id_counter == other.deployment_id_counter
    }

    /// Whether `p` is one of the admins.
    pub open spec fn spec_is_admin(self, p: Principal) -> bool {
        self.admins@.contains_key(p@)
    }

    /// A fresh state: no records, the default fee, the counter at zero.
    pub fn new() -> (r: Self)
        ensures
            r.ledger.accounts@ == Map::<Seq<u8>, UserAccount>::empty(),
            r.ledger.transactions@ == Map::<Seq<char>, TransactionRecord>::empty(),
            r.ledger.transaction_cache@ == Seq::<TransactionRecord>::empty(),
            r.ledger.max_cache_size == DEFAULT_MAX_CACHE_SIZE,
            r.deployment_records@ == Map::<Seq<char>, DeploymentRecord>::empty(),
            r.strategies@ == Map::<Seq<u8>, StrategyMetadata>::empty(),
            r.owner_strategies@ == Map::<Seq<u8>, Vec<Principal>>::empty(),
            r.admins@ == Map::<Seq<u8>, ()>::empty(),
            r.deployment_fee == DEFAULT_DEPLOYMENT_FEE,
            r.deployment_id_counter == 0,
    {
        FactoryState {
            ledger: Ledger::new(),
            deployment_records: Table::new(),
            strategies: Table::new(),
            owner_strategies: Table::new(),
            admins: Table::new(),
            deployment_fee: DEFAULT_DEPLOYMENT_FEE,
            deployment_id_counter: 0,
        }
    }

    /// Whether `caller` is an admin.
    pub fn is_admin(&self, caller: &Principal) -> (r: bool)
        ensures
            r == self.spec_is_admin(*caller),
    {
        self.admins.contains_key(caller)
    }

    /// `Ok` when `caller` is an admin, otherwise the authorization error.
    pub fn require_admin(&self, caller: &Principal) -> (r: Result<(), String>)
        ensures
            r is Ok <==> self.spec_is_admin(*caller),
            r matches Err(e) ==> e@ == "Caller is not authorized to perform this action"@,
    {
        if !self.is_admin(caller) {
            return Err("Caller is not authorized to perform this action".to_string());
        }
        Ok(())
    }

    /// The current deployment fee in e8s.
    pub fn get_fee(&self) -> (r: u64)
        ensures
            r == self.deployment_fee,
    {
        self.deployment_fee
    }

    /// Sets the deployment fee when `caller` is an admin.
    pub fn set_fee(&mut self, caller: &Principal, fee: u64) -> (r: Result<(), String>)
        ensures
            r is Ok <==> old(self).spec_is_admin(*caller),
            r matches Err(e) ==> e@ == "Caller is not authorized to perform this action"@,
            final(self).deployment_fee == (if r is Ok { fee } else { old(self).deployment_fee }),
            final(self).same_but_fee(*old(self)),
    {
        self.require_admin(caller)?;
        self.deployment_fee = fee;
        Ok(())
    }
}

} // verus!

use vstd::prelude::*;
use crate::deployment::{get_embedded_wasm_module, wasm_header};
use crate::payment::{check_deposit, check_user_withdrawal, check_withdrawal, deposit_refusal, is_anonymous_id,
    user_withdrawal_refusal, withdrawal_refusal};
use crate::principal::Principal;
use crate::key_order::{key_order, key_sorted};
use crate::records::{all_stored, record_list, views};
use crate::state::{CallContext, FactoryState, Ledger, TransactionRecord, UserAccount};
use crate::ledger::{after_deposit, moves_balance};
use crate::state::TransactionType;
use crate::timer::{TimerAction, TimerState, CLEANUP_INTERVAL_SECS};
use crate::types::{DeploymentRecord, DeploymentRecordView, StrategyMetadata, StrategyType};

verus! {

/// The most transaction records a history query returns.
pub const MAX_TRANSACTION_QUERY_LIMIT: usize = 100;

/// The error of a caller who is not an admin.
pub open spec fn not_admin_text() -> Seq<char> {
    "Caller is not authorized to perform this action"@
}

/// The strategies stored for the canisters of `ids`, in order, skipping
/// canisters without one.
pub open spec fn strategies_of(m: Map<Seq<u8>, StrategyMetadata>, ids: Seq<Principal>) -> Seq<StrategyMetadata>
    decreases ids.len(),
{
    if ids.len() == 0 {
        Seq::empty()
    } else {
        let prev = strategies_of(m, ids.drop_last());
        if m.contains_key(ids.last()@) {
            prev.push(m[ids.last()@])
        } else {
            prev
        }
    }
}

impl FactoryState {
    /// Sets up a new factory: the caller of `ctx` becomes its first admin
    /// and the cleanup timer is scheduled.
    pub fn init(&mut self, ctx: &CallContext, timers: &mut TimerState) -> (r: TimerAction)
        requires
            old(self).wf(),
        ensures
            final(self).wf(),
            final(self).admins@ == old(self).admins@.insert(ctx.caller@, ()),
            final(self).ledger == old(self).ledger,
            final(self).deployment_records == old(self).deployment_records,
            final(self).strategies == old(self).strategies,
            final(self).owner_strategies == old(self).owner_strategies,
            final(self).deployment_fee == old(self).deployment_fee,
            final(self).deployment_id_counter == old(self).deployment_id_counter,
            final(timers).cleanup_scheduled,
            final(timers).retry_count == 0,
            r == TimerAction::ScheduleCleanup(CLEANUP_INTERVAL_SECS),
    {
        self.admins.insert(ctx.caller, ());
        timers.schedule_timers()
    }

    /// Adds `principal` to the admins, for an admin; the anonymous principal
    /// cannot be one.
    pub fn add_admin(&mut self, ctx: &CallContext, principal: Principal) -> (r: Result<(), String>)
        requires
            old(self).wf(),
        ensures
            final(self).wf(),
            !old(self).spec_is_admin(ctx.caller) ==> (r matches Err(e) && e@ == not_admin_text()) && *final(self)
                == *old(self),
            old(self).spec_is_admin(ctx.caller) && is_anonymous_id(principal) ==> (r matches Err(e) && e@
                == "Cannot add anonymous principal as admin"@) && *final(self) == *old(self),
            old(self).spec_is_admin(ctx.caller) && !is_anonymous_id(principal) ==> r is Ok && final(self).admins@
                == old(self).admins@.insert(principal@, ()) && final(self).same_but_admins(*old(self)),
    {
        self.require_admin(&ctx.caller)?;
        if principal.is_anonymous() {
            return Err("Cannot add anonymous principal as admin".to_string());
        }
        self.admins.insert(principal, ());
        Ok(())
    }

    /// Everything but the admins is as in `other`.
    pub open spec fn same_but_admins(self, other: FactoryState) -> bool {
        &&& self.ledger == other.ledger
        &&& self.deployment_records == other.deployment_records
        &&& self.strategies == other.strategies
        &&& self.owner_strategies == other.owner_strategies
        &&& self.deployment_fee == other.deployment_fee
        &&& self.deployment_id_counter == other.deployment_id_counter
    }

    /// Removes `principal` from the admins, for an admin; the last admin
    /// stays.
    pub fn remove_admin(&mut self, ctx: &CallContext, principal: Principal) -> (r: Result<(), String>)
        requires
            old(self).wf(),
        ensures
            final(self).wf(),
            !old(self).spec_is_admin(ctx.caller) ==> (r matches Err(e) && e@ == not_admin_text()) && *final(self)
                == *old(self),
            old(self).spec_is_admin(ctx.caller) && old(self).admins@.dom().len() <= 1
                && old(self).admins@.contains_key(principal@) ==> (r matches Err(e) && e@
                == "Cannot remove the last admin"@) && *final(self) == *old(self),
            old(self).spec_is_admin(ctx.caller) && !(old(self).admins@.dom().len() <= 1
                && old(self).admins@.contains_key(principal@)) ==> r is Ok && final(self).admins@ == old(
                self,
            ).admins@.remove(principal@) && final(self).same_but_admins(*old(self)),
    {
        self.require_admin(&ctx.caller)?;
        if self.admins.len() <= 1 && self.admins.contains_key(&principal) {
            return Err("Cannot remove the last admin".to_string());
        }
        let _ = self.admins.remove(&principal);
        Ok(())
    }

    /// The admins, in the order they were added.
    pub fn get_admins(&self) -> (r: Vec<Principal>)
        ensures
            r@ == self.admins.entries().map_values(|e: (Principal, ())| e.0),
    {
        let n = self.admins.len();
        let mut out: Vec<Principal> = Vec::new();
        let mut i: usize = 0;
        while i < n
            invariant
                n == self.admins.entries().len(),
                i <= n,
                out@ == self.admins.entries().map_values(|e: (Principal, ())| e.0).take(i as int),
            decreases n - i,
        {
            let (p, _) = self.admins.entry_at(i);
            out.push(*p);
            proof {
                let all = self.admins.entries().map_values(|e: (Principal, ())| e.0);
                assert(out@ =~= all.take(i + 1));
            }
            i = i + 1;
        }
        proof {
            let all = self.admins.entries().map_values(|e: (Principal, ())| e.0);
            assert(all.take(n as int) =~= all);
        }
        out
    }

    /// Whether the caller of `ctx` is an admin.
    pub fn is_caller_admin(&self, ctx: &CallContext) -> (r: bool)
        ensures
            r == self.spec_is_admin(ctx.caller),
    {
        self.is_admin(&ctx.caller)
    }

    /// The module installed for a strategy type, for an admin.
    pub fn get_strategy_wasm(&self, ctx: &CallContext, strategy_type: StrategyType, self_hedging_wasm: &Vec<u8>) -> (r:
        Option<Vec<u8>>)
        ensures
            !self.spec_is_admin(ctx.caller) ==> r is None,
            self.spec_is_admin(ctx.caller) ==> (r matches Some(w) && w@ == (if strategy_type == StrategyType::SelfHedging {
                self_hedging_wasm@
            } else {
                wasm_header()
            })),
    {
        if !self.is_admin(&ctx.caller) {
            return None;
        }
        get_embedded_wasm_module(strategy_type, self_hedging_wasm)
    }

    /// Sets the deployment fee, for an admin.
    pub fn set_deployment_fee(&mut self, ctx: &CallContext, fee_e8s: u64) -> (r: Result<(), String>)
        ensures
            r is Ok <==> old(self).spec_is_admin(ctx.caller),
            r matches Err(e) ==> e@ == not_admin_text(),
            final(self).deployment_fee == (if r is Ok { fee_e8s } else { old(self).deployment_fee }),
            final(self).same_but_fee(*old(self)),
    {
        self.require_admin(&ctx.caller)?;
        let _ = self.set_fee(&ctx.caller, fee_e8s);
        Ok(())
    }

    /// The strategies of `owner`, in the order they were deployed, for the
    /// owner or an admin; nothing for anyone else.
    pub fn get_strategies_by_owner(&self, ctx: &CallContext, owner: &Principal) -> (r: Vec<StrategyMetadata>)
        ensures
            (ctx.caller@ != owner@ && !self.spec_is_admin(ctx.caller)) ==> r@.len() == 0,
            !(ctx.caller@ != owner@ && !self.spec_is_admin(ctx.caller)) ==> r@ == (if self.owner_strategies@.contains_key(
                owner@,
            ) {
                strategies_of(self.strategies@, self.owner_strategies@[owner@]@)
            } else {
                Seq::empty()
            }),
    {
        if !ctx.caller.equals(owner) && !self.is_admin(&ctx.caller) {
            return Vec::new();
        }
        let mut out: Vec<StrategyMetadata> = Vec::new();
        match self.owner_strategies.get(owner) {
            None => {},
            Some(ids) => {
                let mut i: usize = 0;
                while i < ids.len()
                    invariant
                        i <= ids@.len(),
                        out@ == strategies_of(self.strategies@, ids@.take(i as int)),
                    decreases ids@.len() - i,
                {
                    proof {
                        assert(ids@.take(i + 1).drop_last() =~= ids@.take(i as int));
                    }
                    if let Some(m) = self.get_strategy_metadata(&ids[i]) {
                        out.push(m);
                    }
                    i = i + 1;
                }
                proof {
                    assert(ids@.take(ids@.len() as int) =~= ids@);
                }
            },
        }
        out
    }

    /// All registered strategies, in the order of their canisters' stored
    /// keys, as the stable map of strategies walks them.
    pub fn get_all_strategies(&self) -> (r: Vec<StrategyMetadata>)
        ensures
            r@ == key_sorted(self.strategies.entries()).map_values(|e: (Principal, StrategyMetadata)| e.1),
    {
        let order = key_order(&self.strategies);
        let ghost e = self.strategies.entries();
        let ghost all = key_sorted(e).map_values(|x: (Principal, StrategyMetadata)| x.1);
        let n = order.len();
        let mut out: Vec<StrategyMetadata> = Vec::new();
        let mut i: usize = 0;
        while i < n
            invariant
                n == order@.len(),
                e == self.strategies.entries(),
                all == key_sorted(e).map_values(|x: (Principal, StrategyMetadata)| x.1),
                forall|j: int| 0 <= j < n ==> #[trigger] order@[j] < e.len(),
                order@.map_values(|x: usize| e[x as int]) == key_sorted(e),
                i <= n,
                out@ == all.take(i as int),
            decreases n - i,
        {
            let (_, m) = self.strategies.entry_at(order[i]);
            out.push(m.clone());
            proof {
                assert(key_sorted(e)[i as int] == e[order@[i as int] as int]);
                assert(out@ =~= all.take(i + 1));
            }
            i = i + 1;
        }
        proof {
            assert(all.take(n as int) =~= all);
        }
        out
    }

    /// The number of registered strategies.
    pub fn get_strategy_count(&self) -> (r: u64)
        ensures
            r == self.strategies@.dom().len(),
    {
        self.strategies.len() as u64
    }

    /// All deployment records, for an admin; nothing for anyone else.
    pub fn get_deployment_records(&self, ctx: &CallContext) -> (r: Vec<DeploymentRecord>)
        ensures
            !self.spec_is_admin(ctx.caller) ==> r@.len() == 0,
            self.spec_is_admin(ctx.caller) ==> views(r@) == record_list(self.deployment_records),
    {
        if !self.is_admin(&ctx.caller) {
            return Vec::new();
        }
        self.get_all_deployment_records()
    }

    /// The deployment records of the caller of `ctx`.
    pub fn get_my_deployment_records(&self, ctx: &CallContext) -> (r: Vec<DeploymentRecord>)
        ensures
            views(r@) == record_list(self.deployment_records).filter(
                |v: DeploymentRecordView| v.owner@ == ctx.caller@,
            ),
    {
        self.get_deployment_records_by_owner(&ctx.caller)
    }

    /// The deployment record `deployment_id`, for its owner or an admin.
    pub fn get_deployment(&self, ctx: &CallContext, deployment_id: &str) -> (r: Option<DeploymentRecord>)
        ensures
            r is Some <==> self.deployment_records@.contains_key(deployment_id@) && (self.deployment_records@[
                deployment_id@
            ].owner@ == ctx.caller@ || self.spec_is_admin(ctx.caller)),
            r matches Some(rec) ==> rec@ == self.deployment_records@[deployment_id@]@,
    {
        let record = self.get_deployment_record(deployment_id)?;
        if record.owner.equals(&ctx.caller) || self.is_admin(&ctx.caller) {
            Some(record)
        } else {
            None
        }
    }

    /// Checks a withdrawal of the factory's funds to `recipient`: for an
    /// admin, then as any withdrawal.
    pub fn check_withdraw_icp(&self, ctx: &CallContext, recipient: &Principal, amount_e8s: u64, cycles: u64) -> (r:
        Result<(), String>)
        ensures
            !self.spec_is_admin(ctx.caller) ==> (r matches Err(e) && e@ == not_admin_text()),
            self.spec_is_admin(ctx.caller) ==> (r is Ok <==> withdrawal_refusal(*recipient, amount_e8s, cycles) is None)
                && (r matches Err(e) ==> withdrawal_refusal(*recipient, amount_e8s, cycles) == Some(e@)),
    {
        self.require_admin(&ctx.caller)?;
        check_withdrawal(recipient, amount_e8s, cycles)
    }

    /// Checks a deposit of the caller's ICP: the anonymous identity cannot
    /// deposit, then as any deposit.
    pub fn check_deposit_icp(ctx: &CallContext, amount: u64) -> (r: Result<(), String>)
        ensures
            is_anonymous_id(ctx.caller) ==> (r matches Err(e) && e@ == "Anonymous identity cannot make deposits"@),
            !is_anonymous_id(ctx.caller) ==> (r is Ok <==> deposit_refusal(ctx.caller, amount) is None) && (r matches Err(
                e,
            ) ==> deposit_refusal(ctx.caller, amount) == Some(e@)),
    {
        if ctx.caller.is_anonymous() {
            return Err("Anonymous identity cannot make deposits".to_string());
        }
        check_deposit(&ctx.caller, amount)
    }

    /// Checks a withdrawal of the caller's balance: the anonymous identity
    /// cannot withdraw, then as any user withdrawal.
    pub fn check_withdraw_user_icp(&self, ctx: &CallContext, amount: u64, cycles: u64) -> (r: Result<(), String>)
        ensures
            is_anonymous_id(ctx.caller) ==> (r matches Err(e) && e@ == "Anonymous identity cannot withdraw funds"@),
            !is_anonymous_id(ctx.caller) ==> (r is Ok <==> user_withdrawal_refusal(self.ledger, ctx.caller, amount, cycles)
                is None) && (r matches Err(e) ==> user_withdrawal_refusal(self.ledger, ctx.caller, amount, cycles)
                == Some(e@)),
    {
        if ctx.caller.is_anonymous() {
            return Err("Anonymous identity cannot withdraw funds".to_string());
        }
        check_user_withdrawal(&self.ledger, &ctx.caller, amount, cycles)
    }

    /// The balance of the caller of `ctx`.
    pub fn get_balance(&self, ctx: &CallContext) -> (r: u64)
        ensures
            r == self.ledger.account(ctx.caller).balance,
    {
        self.ledger.get_user_account(&ctx.caller).balance
    }

    /// The account of the caller of `ctx`.
    pub fn get_account_info(&self, ctx: &CallContext) -> (r: UserAccount)
        ensures
            r == self.ledger.account(ctx.caller),
    {
        self.ledger.get_user_account(&ctx.caller)
    }

    /// The first cached transaction records of the caller of `ctx`, at most
    /// `MAX_TRANSACTION_QUERY_LIMIT` of them.
    pub fn get_transaction_history(&self, ctx: &CallContext) -> (r: Vec<TransactionRecord>)
        ensures
            ({
                let all = self.ledger.transaction_cache@.filter(|t: TransactionRecord| t.user@ == ctx.caller@);
                r@ == if all.len() > MAX_TRANSACTION_QUERY_LIMIT { all.take(MAX_TRANSACTION_QUERY_LIMIT as int) } else { all }
            }),
    {
        let all = self.ledger.get_user_transaction_records(&ctx.caller);
        if all.len() <= MAX_TRANSACTION_QUERY_LIMIT {
            return all;
        }
        let mut out: Vec<TransactionRecord> = Vec::new();
        let mut i: usize = 0;
        while i < MAX_TRANSACTION_QUERY_LIMIT
            invariant
                all@.len() > MAX_TRANSACTION_QUERY_LIMIT,
                i <= MAX_TRANSACTION_QUERY_LIMIT,
                out@ == all@.take(i as int),
            decreases MAX_TRANSACTION_QUERY_LIMIT - i,
        {
            out.push(all[i].clone());
            proof {
                assert(out@ =~= all@.take(i + 1));
            }
            i = i + 1;
        }
        out
    }

    /// Credits `amount` to `user` as an admin adjustment recorded with
    /// `reason`, for an admin.
    pub fn adjust_balance(&mut self, ctx: &CallContext, user: &Principal, amount: u64, reason: String) -> (r: Result<
        (),
        String,
    >)
        requires
            old(self).wf(),
        ensures
            final(self).wf(),
            !old(self).spec_is_admin(ctx.caller) ==> (r matches Err(e) && e@ == not_admin_text()) && *final(self)
                == *old(self),
            old(self).spec_is_admin(ctx.caller) ==> r is Ok && moves_balance(
                old(self).ledger,
                final(self).ledger,
                *ctx,
                *user,
                after_deposit(old(self).ledger.account(*user), amount, ctx.now),
                amount,
                TransactionType::AdminAdjustment,
                reason@,
            ) && final(self).deployment_records == old(self).deployment_records && final(self).strategies == old(
                self,
            ).strategies && final(self).owner_strategies == old(self).owner_strategies && final(self).admins == old(
                self,
            ).admins && final(self).deployment_fee == old(self).deployment_fee && final(self).deployment_id_counter
                == old(self).deployment_id_counter,
    {
        self.require_admin(&ctx.caller)?;
        let _ = self.ledger.update_user_balance(user, amount, true, ctx.now);
        self.ledger.record_transaction(ctx, user, amount, TransactionType::AdminAdjustment, reason);
        Ok(())
    }

    /// Cancels and reschedules the cleanup timer, for an admin.
    pub fn reset_system_timers(&self, ctx: &CallContext, timers: &mut TimerState) -> (r: Result<TimerAction, String>)
        ensures
            !self.spec_is_admin(ctx.caller) ==> (r matches Err(e) && e@ == not_admin_text()) && *final(timers)
                == *old(timers),
            self.spec_is_admin(ctx.caller) ==> r == Ok::<TimerAction, String>(
                TimerAction::RescheduleCleanup(CLEANUP_INTERVAL_SECS),
            ) && final(timers).cleanup_scheduled && final(timers).retry_count == 0 && final(timers).last_error
                == old(timers).last_error,
    {
        self.require_admin(&ctx.caller)?;
        Ok(timers.reset_timers())
    }
}

/// The version of the factory.
pub fn get_version() -> (r: String)
    ensures
        r@ == "1.0.3"@,
{
    "1.0.3".to_string()
}

} // verus!

use vstd::prelude::*;
use crate::principal::Principal;
use crate::state::{CallContext, Ledger, TransactionRecord, TransactionType, UserAccount, empty_account};
use crate::text::{decimal, hex_lower, icp_text, principal_text, push_decimal, push_hex, push_icp, push_principal};

verus! {

/// The account of `p` in the map of accounts, or an empty one.
pub open spec fn account_in(m: Map<Seq<u8>, UserAccount>, p: Principal) -> UserAccount {
    if m.contains_key(p@) { m[p@] } else { empty_account(p) }
}

/// The account after a deposit of `amount` at time `now`; the balance and
/// the deposited total saturate at `u64::MAX`.
pub open spec fn after_deposit(a: UserAccount, amount: u64, now: u64) -> UserAccount {
    UserAccount {
        balance: a.balance.saturating_add(amount),
        last_deposit: now,
        total_deposited: a.total_deposited.saturating_add(amount),
        ..a
    }
}

/// The account after `amount` is taken from it (which needs
/// `amount <= a.balance`); the consumed total saturates at `u64::MAX`.
pub open spec fn after_charge(a: UserAccount, amount: u64) -> UserAccount {
    UserAccount {
        balance: (a.balance - amount) as u64,
        total_consumed: a.total_consumed.saturating_add(amount),
        ..a
    }
}

/// The identifier given to a transaction recorded in `ctx`: the time, the
/// caller's text and the hexadecimal bytes of the canister, joined by dashes.
pub open spec fn transaction_id_text(ctx: CallContext) -> Seq<char> {
    decimal(ctx.now as nat) + "-"@ + principal_text(ctx.caller@) + "-"@ + hex_lower(ctx.canister_id@)
}

/// `r` holds the given fields.
pub open spec fn describes(
    r: TransactionRecord,
    id: Seq<char>,
    user: Principal,
    amount: u64,
    ty: TransactionType,
    now: u64,
    description: Seq<char>,
) -> bool {
    &&& r.transaction_id@ == id
    &&& r.user == user
    &&& r.amount == amount
    &&& r.transaction_type == ty
    &&& r.timestamp == now
    &&& r.description@ == description
}

/// The cache after `r` is appended: when it then holds more than `max`
/// records, the oldest one is dropped.
pub open spec fn cache_after(cache: Seq<TransactionRecord>, r: TransactionRecord, max: usize) -> Seq<
    TransactionRecord,
> {
    let c = cache.push(r);
    if c.len() > max { c.drop_first() } else { c }
}

/// The transaction log of `new` is that of `old` with one more transaction
/// recorded in `ctx`: the record is stored under the context's transaction
/// id (replacing any record with that id) and appended to the cache.
pub open spec fn logs_transaction(
    old: Ledger,
    new: Ledger,
    ctx: CallContext,
    user: Principal,
    amount: u64,
    ty: TransactionType,
    description: Seq<char>,
) -> bool {
    let id = transaction_id_text(ctx);
    &&& new.transactions@.contains_key(id)
    &&& describes(new.transactions@[id], id, user, amount, ty, ctx.now, description)
    &&& new.transactions@ == old.transactions@.insert(id, new.transactions@[id])
    &&& new.transaction_cache@ == cache_after(
        old.transaction_cache@,
        new.transactions@[id],
        old.max_cache_size,
    )
    &&& new.max_cache_size == old.max_cache_size
}

/// `new` is `old` with one more transaction recorded in `ctx` and the
/// accounts untouched.
pub open spec fn records_transaction(
    old: Ledger,
    new: Ledger,
    ctx: CallContext,
    user: Principal,
    amount: u64,
    ty: TransactionType,
    description: Seq<char>,
) -> bool {
    &&& logs_transaction(old, new, ctx, user, amount, ty, description)
    &&& new.accounts == old.accounts
}

/// The account of `user` in `new` is `account`, the other accounts are as in
/// `old`, and one transaction is recorded in `ctx`.
pub open spec fn moves_balance(
    old: Ledger,
    new: Ledger,
    ctx: CallContext,
    user: Principal,
    account: UserAccount,
    amount: u64,
    ty: TransactionType,
    description: Seq<char>,
) -> bool {
    &&& new.accounts@ == old.accounts@.insert(user@, account)
    &&& logs_transaction(old, new, ctx, user, amount, ty, description)
}

/// The text of an insufficient-balance error of the balance update.
pub open spec fn insufficient_balance_text(balance: u64, amount: u64) -> Seq<char> {
    "Insufficient balance: current balance "@ + decimal(balance as nat) + " e8s, required "@
        + decimal(amount as nat) + " e8s"@
}

/// Generates the transaction id for `ctx`.
pub fn generate_transaction_id(ctx: &CallContext) -> (r: String)
    ensures
        r@ == transaction_id_text(*ctx),
{
    let mut s = String::new();
    push_decimal(&mut s, ctx.now as u128);
    s.append("-");
    push_principal(&mut s, &ctx.caller);
    s.append("-");
    let bytes = ctx.canister_id.as_slice();
    push_hex(&mut s, &bytes);
    assert(s@ =~= transaction_id_text(*ctx));
    s
}

impl Ledger {
    /// The account of `user`; a user without one gets an empty account.
    pub fn get_user_account(&self, user: &Principal) -> (r: UserAccount)
        ensures
            r == self.account(*user),
    {
        match self.accounts.get(user) {
            Some(a) => *a,
            None => UserAccount {
                owner: *user,
                balance: 0,
                last_deposit: 0,
                total_deposited: 0,
                total_consumed: 0,
            },
        }
    }

    /// Stores the account under its owner.
    pub fn store_user_account(&mut self, account: UserAccount)
        requires
            old(self).wf(),
        ensures
            final(self).wf(),
            final(self).accounts@ == old(self).accounts@.insert(account.owner@, account),
            final(self).transactions == old(self).transactions,
            final(self).transaction_cache == old(self).transaction_cache,
            final(self).max_cache_size == old(self).max_cache_size,
    {
        let owner = account.owner;
        self.accounts.insert(owner, account);
    }

    /// Adds `amount` to the balance of `user` (a deposit), or takes it from
    /// the balance when it covers it; returns the new balance.
    pub fn update_user_balance(&mut self, user: &Principal, amount: u64, is_deposit: bool, now: u64) -> (r:
        Result<u64, String>)
        requires
            old(self).wf(),
        ensures
            final(self).wf(),
            final(self).transactions == old(self).transactions,
            final(self).transaction_cache == old(self).transaction_cache,
            final(self).max_cache_size == old(self).max_cache_size,
            r is Err <==> !is_deposit && old(self).account(*user).balance < amount,
            r matches Err(e) ==> e@ == insufficient_balance_text(old(self).account(*user).balance, amount)
                && final(self).accounts == old(self).accounts,
            r matches Ok(b) ==> {
                let a = if is_deposit {
                    after_deposit(old(self).account(*user), amount, now)
                } else {
                    after_charge(old(self).account(*user), amount)
                };
                &&& final(self).accounts@ == old(self).accounts@.insert(user@, a)
                &&& b == a.balance
            },
    {
        let mut account = self.get_user_account(user);
        if is_deposit {
            account.balance = account.balance.saturating_add(amount);
            account.last_deposit = now;
            account.total_deposited = account.total_deposited.saturating_add(amount);
        } else {
            if account.balance < amount {
                let mut e = "Insufficient balance: current balance ".to_string();
                push_decimal(&mut e, account.balance as u128);
                e.append(" e8s, required ");
                push_decimal(&mut e, amount as u128);
                e.append(" e8s");
                assert(e@ =~= insufficient_balance_text(account.balance, amount));
                return Err(e);
            }
            account.balance = account.balance.saturating_sub(amount);
            account.total_consumed = account.total_consumed.saturating_add(amount);
        }
        self.store_user_account(account);
        Ok(account.balance)
    }

    /// Whether the balance of `user` covers `amount`.
    pub fn check_user_balance(&self, user: &Principal, amount: u64) -> (r: Result<bool, String>)
        ensures
            r == Ok::<bool, String>(self.account(*user).balance >= amount),
    {
        Ok(self.get_user_account(user).balance >= amount)
    }

    /// Stores the record under its id and appends it to the cache, dropping
    /// the oldest cached record when the cache grows beyond its size.
    pub fn store_transaction_record(&mut self, record: TransactionRecord)
        requires
            old(self).wf(),
        ensures
            final(self).wf(),
            final(self).transactions@ == old(self).transactions@.insert(record.transaction_id@, record),
            final(self).transaction_cache@ == cache_after(
                old(self).transaction_cache@,
                record,
                old(self).max_cache_size,
            ),
            final(self).max_cache_size == old(self).max_cache_size,
            final(self).accounts == old(self).accounts,
    {
        let id = record.transaction_id.clone();
        let cached = record.clone();
        self.transactions.insert(id, record);
        self.transaction_cache.push(cached);
        if self.transaction_cache.len() > self.max_cache_size {
            self.transaction_cache.remove(0);
        }
        proof {
            assert(self.transaction_cache@ =~= cache_after(
                old(self).transaction_cache@,
                cached,
                old(self).max_cache_size,
            ));
        }
    }

    /// The cached transaction records, oldest first.
    pub fn get_all_transaction_records(&self) -> (r: Vec<TransactionRecord>)
        ensures
            r@ == self.transaction_cache@,
    {
        let mut out: Vec<TransactionRecord> = Vec::new();
        let n = self.transaction_cache.len();
        let mut i: usize = 0;
        while i < n
            invariant
                n == self.transaction_cache@.len(),
                i <= n,
                out@ == self.transaction_cache@.subrange(0, i as int),
            decreases n - i,
        {
            out.push(self.transaction_cache[i].clone());
            assert(out@ =~= self.transaction_cache@.subrange(0, i + 1));
            i = i + 1;
        }
        assert(out@ =~= self.transaction_cache@);
        out
    }

    /// The cached transaction records of `user`, oldest first.
    pub fn get_user_transaction_records(&self, user: &Principal) -> (r: Vec<TransactionRecord>)
        ensures
            r@ == self.transaction_cache@.filter(|t: TransactionRecord| t.user@ == user@),
    {
        let ghost pred = |t: TransactionRecord| t.user@ == user@;
        let mut out: Vec<TransactionRecord> = Vec::new();
        let n = self.transaction_cache.len();
        let mut i: usize = 0;
        while i < n
            invariant
                n == self.transaction_cache@.len(),
                i <= n,
                pred == (|t: TransactionRecord| t.user@ == user@),
                out@ == self.transaction_cache@.subrange(0, i as int).filter(pred),
            decreases n - i,
        {
            let t = &self.transaction_cache[i];
            proof {
                let s = self.transaction_cache@;
                assert(s.subrange(0, i + 1) =~= s.subrange(0, i as int).push(s[i as int]));
                s.subrange(0, i as int).lemma_filter_push(s[i as int], pred);
            }
            if t.user.equals(user) {
                out.push(t.clone());
            }
            i = i + 1;
        }
        assert(self.transaction_cache@.subrange(0, n as int) =~= self.transaction_cache@);
        out
    }

    /// Records a balance movement of `user` under the transaction id of
    /// `ctx` and returns that id.
    pub fn record_transaction(
        &mut self,
        ctx: &CallContext,
        user: &Principal,
        amount: u64,
        transaction_type: TransactionType,
        description: String,
    ) -> (r: String)
        requires
            old(self).wf(),
        ensures
            final(self).wf(),
            r@ == transaction_id_text(*ctx),
            records_transaction(*old(self), *final(self), *ctx, *user, amount, transaction_type, description@),
    {
        let transaction_id = generate_transaction_id(ctx);
        let record = TransactionRecord {
            transaction_id: transaction_id.clone(),
            user: *user,
            amount,
            transaction_type,
            timestamp: ctx.now,
            description,
        };
        self.store_transaction_record(record);
        transaction_id
    }
}

/// The description of a refund for a failed deployment.
pub open spec fn refund_description(deployment_id: Seq<char>) -> Seq<char> {
    "Refund for failed deployment (ID: "@ + deployment_id + ")"@
}

/// The description of a deployment fee charged for a deployment.
pub open spec fn deployment_fee_description(deployment_id: Seq<char>) -> Seq<char> {
    "Deployment fee for deployment (ID: "@ + deployment_id + ")"@
}

impl Ledger {
    /// Credits a refund for a failed deployment to `user` and records it.
    pub fn process_balance_refund(&mut self, ctx: &CallContext, user: &Principal, amount: u64, deployment_id: &str) -> (r:
        Result<(), String>)
        requires
            old(self).wf(),
        ensures
            final(self).wf(),
            r is Err <==> amount == 0,
            r matches Err(e) ==> e@ == "Refund amount must be greater than 0"@ && *final(self) == *old(self),
            r is Ok ==> moves_balance(*old(self), *final(self), *ctx, *user,
                after_deposit(old(self).account(*user), amount, ctx.now), amount, TransactionType::Refund,
                refund_description(deployment_id@)),
    {
        if amount == 0 {
            return Err("Refund amount must be greater than 0".to_string());
        }
        let _ = self.update_user_balance(user, amount, true, ctx.now);
        let mut description = "Refund for failed deployment (ID: ".to_string();
        description.append(deployment_id);
        description.append(")");
        self.record_transaction(ctx, user, amount, TransactionType::Refund, description);
        Ok(())
    }

    /// Credits a deposit to `user`, records it and returns the new balance.
    pub fn process_deposit(&mut self, ctx: &CallContext, user: &Principal, amount: u64) -> (r: Result<u64, String>)
        requires
            old(self).wf(),
        ensures
            final(self).wf(),
            r is Err <==> amount == 0,
            r matches Err(e) ==> e@ == "Deposit amount must be greater than 0"@ && *final(self) == *old(self),
            r matches Ok(b) ==> {
                let a = after_deposit(old(self).account(*user), amount, ctx.now);
                &&& b == a.balance
                &&& moves_balance(*old(self), *final(self), *ctx, *user, a, amount, TransactionType::Deposit,
                    "Deposit of "@ + icp_text(amount as nat) + " ICP"@)
            },
    {
        if amount == 0 {
            return Err("Deposit amount must be greater than 0".to_string());
        }
        let new_balance = match self.update_user_balance(user, amount, true, ctx.now) {
            Ok(b) => b,
            Err(_) => {
                proof { assert(false); }
                0
            },
        };
        let mut description = "Deposit of ".to_string();
        push_icp(&mut description, amount);
        description.append(" ICP");
        self.record_transaction(ctx, user, amount, TransactionType::Deposit, description);
        Ok(new_balance)
    }

    /// Takes `amount` from the balance of `user` when it covers it, records
    /// the movement with the given type and description, and returns the new
    /// balance; `zero_error` and `short_error` are the errors for a zero
    /// amount and for a balance that does not cover it.
    fn charge_and_record(
        &mut self,
        ctx: &CallContext,
        user: &Principal,
        amount: u64,
        ty: TransactionType,
        description: String,
        zero_error: &str,
        short_error: &str,
    ) -> (r: Result<u64, String>)
        requires
            old(self).wf(),
        ensures
            final(self).wf(),
            r is Err <==> amount == 0 || old(self).account(*user).balance < amount,
            r matches Err(e) ==> *final(self) == *old(self) && (if amount == 0 { e@ == zero_error@ } else {
                e@ == short_error@
            }),
            r matches Ok(b) ==> {
                let a = after_charge(old(self).account(*user), amount);
                &&& b == a.balance
                &&& moves_balance(*old(self), *final(self), *ctx, *user, a, amount, ty, description@)
            },
    {
        if amount == 0 {
            return Err(zero_error.to_string());
        }
        let covered = match self.check_user_balance(user, amount) {
            Ok(c) => c,
            Err(e) => {
                proof { assert(false); }
                return Err(e);
            },
        };
        if !covered {
            return Err(short_error.to_string());
        }
        let new_balance = match self.update_user_balance(user, amount, false, ctx.now) {
            Ok(b) => b,
            Err(e) => {
                proof { assert(false); }
                return Err(e);
            },
        };
        self.record_transaction(ctx, user, amount, ty, description);
        Ok(new_balance)
    }

    /// Takes a withdrawal from the balance of `user` when it covers it,
    /// records it and returns the new balance.
    pub fn process_withdrawal(&mut self, ctx: &CallContext, user: &Principal, amount: u64) -> (r: Result<u64, String>)
        requires
            old(self).wf(),
        ensures
            final(self).wf(),
            r is Err <==> amount == 0 || old(self).account(*user).balance < amount,
            r matches Err(e) ==> *final(self) == *old(self) && (if amount == 0 {
                e@ == "Withdrawal amount must be greater than 0"@
            } else {
                e@ == "Insufficient balance"@
            }),
            r matches Ok(b) ==> {
                let a = after_charge(old(self).account(*user), amount);
                &&& b == a.balance
                &&& moves_balance(*old(self), *final(self), *ctx, *user, a, amount, TransactionType::Withdrawal,
                    "Withdrawal of "@ + icp_text(amount as nat) + " ICP"@)
            },
    {
        let mut description = "Withdrawal of ".to_string();
        push_icp(&mut description, amount);
        description.append(" ICP");
        self.charge_and_record(ctx, user, amount, TransactionType::Withdrawal, description,
            "Withdrawal amount must be greater than 0", "Insufficient balance")
    }

    /// Charges the deployment fee of a deployment to `user` when the balance
    /// covers it, and records it.
    pub fn process_deployment_fee(&mut self, ctx: &CallContext, user: &Principal, amount: u64, deployment_id: &str) -> (r:
        Result<(), String>)
        requires
            old(self).wf(),
        ensures
            final(self).wf(),
            r is Err <==> amount == 0 || old(self).account(*user).balance < amount,
            r matches Err(e) ==> *final(self) == *old(self) && (if amount == 0 {
                e@ == "Deployment fee must be greater than 0"@
            } else {
                e@ == "Insufficient balance for deployment fee"@
            }),
            r is Ok ==> moves_balance(*old(self), *final(self), *ctx, *user,
                after_charge(old(self).account(*user), amount), amount, TransactionType::DeploymentFee,
                deployment_fee_description(deployment_id@)),
    {
        let mut description = "Deployment fee for deployment (ID: ".to_string();
        description.append(deployment_id);
        description.append(")");
        match self.charge_and_record(ctx, user, amount, TransactionType::DeploymentFee, description,
            "Deployment fee must be greater than 0", "Insufficient balance for deployment fee") {
            Ok(_) => Ok(()),
            Err(e) => Err(e),
        }
    }

    /// Credits an adjustment made by an admin to `user` and records it with
    /// the given reason.
    pub fn process_admin_adjustment(&mut self, ctx: &CallContext, user: &Principal, amount: u64, reason: String) -> (r:
        Result<(), String>)
        requires
            old(self).wf(),
        ensures
            final(self).wf(),
            r is Err <==> amount == 0,
            r matches Err(e) ==> e@ == "Adjustment amount must be greater than 0"@ && *final(self) == *old(self),
            r is Ok ==> moves_balance(*old(self), *final(self), *ctx, *user,
                after_deposit(old(self).account(*user), amount, ctx.now), amount,
                TransactionType::AdminAdjustment, reason@),
    {
        if amount == 0 {
            return Err("Adjustment amount must be greater than 0".to_string());
        }
        let _ = self.update_user_balance(user, amount, true, ctx.now);
        self.record_transaction(ctx, user, amount, TransactionType::AdminAdjustment, reason);
        Ok(())
    }

    /// Takes a payment for `purpose` from the balance of `user` when it covers
    /// it, and records it as a deployment fee.
    pub fn process_balance_payment(&mut self, ctx: &CallContext, user: &Principal, amount: u64, purpose: &str) -> (r:
        Result<(), String>)
        requires
            old(self).wf(),
        ensures
            final(self).wf(),
            r is Err <==> amount == 0 || old(self).account(*user).balance < amount,
            r matches Err(e) ==> *final(self) == *old(self) && (if amount == 0 {
                e@ == "Payment amount must be greater than 0"@
            } else {
                e@ == "Insufficient balance"@
            }),
            r is Ok ==> moves_balance(*old(self), *final(self), *ctx, *user,
                after_charge(old(self).account(*user), amount), amount, TransactionType::DeploymentFee, purpose@),
    {
        match self.charge_and_record(ctx, user, amount, TransactionType::DeploymentFee, purpose.to_string(),
            "Payment amount must be greater than 0", "Insufficient balance") {
            Ok(_) => Ok(()),
            Err(e) => Err(e),
        }
    }
}

impl Ledger {
    /// Moves `amount` from the balance of `from` to that of `to` when the
    /// sender's balance covers it, and records one transfer for each side,
    /// the sender's first. Both records get the transaction id of `ctx`, so
    /// the recipient's replaces the sender's under that id; the cache keeps
    /// both.
    pub fn process_balance_transfer(
        &mut self,
        ctx: &CallContext,
        from: &Principal,
        to: &Principal,
        amount: u64,
        purpose: &str,
    ) -> (r: Result<(), String>)
        requires
            old(self).wf(),
        ensures
            final(self).wf(),
            r is Err <==> amount == 0 || old(self).account(*from).balance < amount,
            r matches Err(e) ==> *final(self) == *old(self) && (if amount == 0 {
                e@ == "Transfer amount must be greater than 0"@
            } else {
                e@ == "Insufficient balance"@
            }),
            r is Ok ==> {
                let mid = old(self).accounts@.insert(from@, after_charge(old(self).account(*from), amount));
                let id = transaction_id_text(*ctx);
                let last = final(self).transactions@[id];
                &&& final(self).accounts@ == mid.insert(to@, after_deposit(account_in(mid, *to), amount, ctx.now))
                &&& final(self).transactions@.contains_key(id)
                &&& describes(last, id, *to, amount, TransactionType::Transfer, ctx.now,
                    "Transfer from "@ + principal_text(from@) + ": "@ + purpose@)
                &&& final(self).transactions@ == old(self).transactions@.insert(id, last)
                &&& final(self).max_cache_size == old(self).max_cache_size
                &&& exists|first: TransactionRecord| {
                    &&& describes(first, id, *from, amount, TransactionType::Transfer, ctx.now,
                        "Transfer to "@ + principal_text(to@) + ": "@ + purpose@)
                    &&& final(self).transaction_cache@ == cache_after(
                        cache_after(old(self).transaction_cache@, first, old(self).max_cache_size),
                        last,
                        old(self).max_cache_size,
                    )
                }
            },
    {
        if amount == 0 {
            return Err("Transfer amount must be greater than 0".to_string());
        }
        let covered = self.get_user_account(from).balance >= amount;
        if !covered {
            return Err("Insufficient balance".to_string());
        }
        let _ = self.update_user_balance(from, amount, false, ctx.now);
        let _ = self.update_user_balance(to, amount, true, ctx.now);
        let mut sender_description = "Transfer to ".to_string();
        push_principal(&mut sender_description, to);
        sender_description.append(": ");
        sender_description.append(purpose);
        let mut recipient_description = "Transfer from ".to_string();
        push_principal(&mut recipient_description, from);
        recipient_description.append(": ");
        recipient_description.append(purpose);
        let ghost before = *self;
        self.record_transaction(ctx, from, amount, TransactionType::Transfer, sender_description);
        let ghost middle = *self;
        self.record_transaction(ctx, to, amount, TransactionType::Transfer, recipient_description);
        proof {
            let id = transaction_id_text(*ctx);
            let first = middle.transactions@[id];
            assert(describes(first, id, *from, amount, TransactionType::Transfer, ctx.now,
                "Transfer to "@ + principal_text(to@) + ": "@ + purpose@));
            assert(self.transactions@ =~= old(self).transactions@.insert(id, self.transactions@[id]));
        }
        Ok(())
    }
}

/// An account's books balance when its balance plus everything consumed
/// equals everything deposited.
pub open spec fn books_balance(a: UserAccount) -> bool {
    a.balance + a.total_consumed == a.total_deposited
}

/// A transfer between two different users leaves the sum of their balances
/// unchanged, as long as the recipient's balance does not saturate, and
/// leaves every other account as it was.
pub proof fn law_transfer_conserves_balances(
    accounts: Map<Seq<u8>, UserAccount>,
    from: Principal,
    to: Principal,
    amount: u64,
    now: u64,
)
    requires
        from@ != to@,
        account_in(accounts, from).balance >= amount,
        account_in(accounts, to).balance + amount <= u64::MAX,
    ensures
        ({
            let mid = accounts.insert(from@, after_charge(account_in(accounts, from), amount));
            let fin = mid.insert(to@, after_deposit(account_in(mid, to), amount, now));
            &&& account_in(fin, from).balance + account_in(fin, to).balance == account_in(accounts, from).balance
                + account_in(accounts, to).balance
            &&& account_in(fin, from).balance == account_in(accounts, from).balance - amount
            &&& account_in(fin, to).balance == account_in(accounts, to).balance + amount
            &&& forall|p: Principal| p@ != from@ && p@ != to@ ==> #[trigger] account_in(fin, p) == account_in(accounts, p)
        }),
{
}

/// Depositing an amount and then withdrawing the same amount gives back the
/// balance one started with, as long as the deposit does not saturate.
pub proof fn law_deposit_then_withdrawal_restores_balance(a: UserAccount, amount: u64, now: u64)
    requires
        a.balance + amount <= u64::MAX,
    ensures
        after_deposit(a, amount, now).balance >= amount,
        after_charge(after_deposit(a, amount, now), amount).balance == a.balance,
{
}

/// Refunding a charged fee gives back the balance held before the charge:
/// a failed deployment costs its user nothing once it is refunded.
pub proof fn law_refund_undoes_fee(a: UserAccount, fee: u64, now: u64)
    requires
        fee <= a.balance,
    ensures
        after_deposit(after_charge(a, fee), fee, now).balance == a.balance,
{
}

/// Every balance update keeps an account's books balanced, as long as the
/// deposited total does not saturate.
pub proof fn law_updates_keep_books_balanced(a: UserAccount, amount: u64, now: u64)
    requires
        books_balance(a),
    ensures
        a.total_deposited + amount <= u64::MAX ==> books_balance(after_deposit(a, amount, now)),
        amount <= a.balance ==> books_balance(after_charge(a, amount)),
{
}

/// The transaction cache never grows beyond its size, and the record just
/// stored is always its newest entry (when the size is not zero).
pub proof fn law_cache_stays_bounded(cache: Seq<TransactionRecord>, r: TransactionRecord, max: usize)
    requires
        cache.len() <= max,
    ensures
        cache_after(cache, r, max).len() <= max,
        max > 0 ==> cache_after(cache, r, max).last() == r,
        cache.len() < max ==> cache_after(cache, r, max) == cache.push(r),
{
}

} // verus!

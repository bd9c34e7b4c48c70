use vstd::prelude::*;
use crate::deployment::registry_unchanged;
use crate::ledger::{account_in, after_charge, after_deposit, insufficient_balance_text, moves_balance, refund_description};
use crate::key_order::{key_sorted, lemma_key_sorted_contains};
use crate::records::{all_stored, lemma_records_view, record_list, records_view, status_updated, views};
use crate::principal::Principal;
use crate::state::{CallContext, FactoryState, Ledger, TransactionType, UserAccount};
use crate::types::{DeploymentRecordView, DeploymentStatus};
use crate::text::{decimal, icp_text, join_strings, joined, push_decimal, push_icp, strings_view};

verus! {

/// The largest deposit accepted: 1,000 ICP in e8s.
pub const MAX_DEPOSIT_AMOUNT: u64 = 100_000_000_000;

/// The largest withdrawal accepted: 100 ICP in e8s.
pub const MAX_WITHDRAWAL_AMOUNT: u64 = 10_000_000_000;

/// The smallest deposit accepted: 0.01 ICP in e8s.
pub const MIN_DEPOSIT_AMOUNT: u64 = 1_000_000;

/// The ledger fee of an ICP transfer in e8s.
pub const ICP_TRANSFER_FEE: u128 = 10_000;

/// The bound on transfer attempts of a withdrawal.
pub const MAX_WITHDRAWAL_RETRIES: u8 = 3;

/// The cycles the factory must hold to send a withdrawal.
pub const MIN_CYCLES_BALANCE: u64 = 1_000_000_000;

/// The error of a payment that the balance does not cover.
pub open spec fn payment_shortfall_text(amount: u64) -> Seq<char> {
    "Insufficient balance: "@ + icp_text(amount as nat) + " ICP required, but your balance is too low"@
}

/// Takes a payment for `purpose` from the balance of `user` when it covers
/// it, and records it as a deployment fee.
pub fn process_balance_payment(ledger: &mut Ledger, ctx: &CallContext, user: &Principal, amount: u64, purpose: &str) -> (r:
    Result<(), String>)
    requires
        old(ledger).wf(),
    ensures
        final(ledger).wf(),
        r is Err <==> amount == 0 || old(ledger).account(*user).balance < amount,
        r matches Err(e) ==> *final(ledger) == *old(ledger) && (if amount == 0 {
            e@ == "Payment amount must be greater than 0"@
        } else {
            e@ == payment_shortfall_text(amount)
        }),
        r is Ok ==> moves_balance(*old(ledger), *final(ledger), *ctx, *user, after_charge(old(ledger).account(*user), amount),
            amount, TransactionType::DeploymentFee, purpose@),
{
    if amount == 0 {
        return Err("Payment amount must be greater than 0".to_string());
    }
    let covered = match ledger.check_user_balance(user, amount) {
        Ok(c) => c,
        Err(e) => {
            proof { assert(false); }
            return Err(e);
        },
    };
    if !covered {
        let mut e = "Insufficient balance: ".to_string();
        push_icp(&mut e, amount);
        e.append(" ICP required, but your balance is too low");
        return Err(e);
    }
    match ledger.update_user_balance(user, amount, false, ctx.now) {
        Ok(_) => {},
        Err(e) => {
            proof { assert(false); }
            return Err(e);
        },
    }
    ledger.record_transaction(ctx, user, amount, TransactionType::DeploymentFee, purpose.to_string());
    Ok(())
}

/// Credits the refund of the fee of deployment `deployment_id` to the
/// balance of `user`, and records it.
pub fn process_balance_refund(ledger: &mut Ledger, ctx: &CallContext, user: &Principal, amount: u64, deployment_id: &str) -> (r:
    Result<(), String>)
    requires
        old(ledger).wf(),
    ensures
        final(ledger).wf(),
        r is Err <==> amount == 0,
        r matches Err(e) ==> e@ == "Refund amount must be greater than 0"@ && *final(ledger) == *old(ledger),
        r is Ok ==> moves_balance(*old(ledger), *final(ledger), *ctx, *user,
            after_deposit(old(ledger).account(*user), amount, ctx.now), amount, TransactionType::Refund,
            refund_description(deployment_id@)),
{
    if amount == 0 {
        return Err("Refund amount must be greater than 0".to_string());
    }
    let _ = ledger.update_user_balance(user, amount, true, ctx.now);
    let mut description = "Refund for failed deployment (ID: ".to_string();
    description.append(deployment_id);
    description.append(")");
    ledger.record_transaction(ctx, user, amount, TransactionType::Refund, description);
    Ok(())
}

/// The accounts after each record of `f` with a fee has the fee refunded
/// to its owner at `now`, in order.
pub open spec fn refunded_accounts(
    m: Map<Seq<u8>, UserAccount>,
    f: Seq<DeploymentRecordView>,
    now: u64,
) -> Map<Seq<u8>, UserAccount>
    decreases f.len(),
{
    if f.len() == 0 {
        m
    } else {
        let prev = refunded_accounts(m, f.drop_last(), now);
        let r = f.last();
        if r.fee_amount > 0 {
            prev.insert(r.owner@, after_deposit(account_in(prev, r.owner), r.fee_amount, now))
        } else {
            prev
        }
    }
}

/// The records after each record of `f` with a fee is marked `Refunded`
/// at `now`, in order.
pub open spec fn marked_refunded(
    m: Map<Seq<char>, DeploymentRecordView>,
    f: Seq<DeploymentRecordView>,
    now: u64,
) -> Map<Seq<char>, DeploymentRecordView>
    decreases f.len(),
{
    if f.len() == 0 {
        m
    } else {
        let prev = marked_refunded(m, f.drop_last(), now);
        let id = f.last().deployment_id;
        if f.last().fee_amount > 0 {
            prev.insert(id, status_updated(prev[id], DeploymentStatus::Refunded, None, None, now))
        } else {
            prev
        }
    }
}

/// The records of `f` with a fee.
pub open spec fn with_fee(f: Seq<DeploymentRecordView>) -> Seq<DeploymentRecordView> {
    f.filter(|v: DeploymentRecordView| v.fee_amount > 0)
}

/// The errors of the records of `f` whose refund is refused: those with no
/// fee.
pub open spec fn refund_errors(f: Seq<DeploymentRecordView>) -> Seq<Seq<char>> {
    f.filter(|v: DeploymentRecordView| v.fee_amount == 0).map_values(
        |v: DeploymentRecordView|
            "Refund error (ID: "@ + v.deployment_id + "): "@ + "Refund amount must be greater than 0"@,
    )
}

/// The failed deployments of the stored records, in their stored order.
pub open spec fn failed_records(s: FactoryState) -> Seq<DeploymentRecordView> {
    record_list(s.deployment_records).filter(
        |v: DeploymentRecordView| v.status == DeploymentStatus::DeploymentFailed,
    )
}

/// `new` is `mid` after the fee of `r`, if it has one, is refunded to its
/// owner and recorded in `ctx`.
pub open spec fn refund_step(mid: Ledger, new: Ledger, ctx: CallContext, r: DeploymentRecordView) -> bool {
    if r.fee_amount > 0 {
        moves_balance(
            mid,
            new,
            ctx,
            r.owner,
            after_deposit(mid.account(r.owner), r.fee_amount, ctx.now),
            r.fee_amount,
            TransactionType::Refund,
            refund_description(r.deployment_id),
        )
    } else {
        new == mid
    }
}

/// `ls` goes from its first ledger to its last by one refund step per
/// record of `f`.
pub open spec fn refund_steps(ls: Seq<Ledger>, ctx: CallContext, f: Seq<DeploymentRecordView>) -> bool {
    &&& ls.len() == f.len() + 1
    &&& forall|i: int| 0 <= i < f.len() ==> refund_step(ls[i], ls[i + 1], ctx, #[trigger] f[i])
}

/// `new` is `old` after each record of `f` with a fee has the fee refunded
/// to its owner and recorded in `ctx`, in order.
pub open spec fn refunds_logged(old: Ledger, new: Ledger, ctx: CallContext, f: Seq<DeploymentRecordView>) -> bool {
    exists|ls: Seq<Ledger>| #[trigger] refund_steps(ls, ctx, f) && ls[0] == old && ls.last() == new
}

/// `new` is `old` after the failed deployments `f` of `old` are refunded in
/// `ctx`: each fee paid back to its owner and recorded, each refunded
/// record marked `Refunded`, nothing else changed.
pub open spec fn refunds_failed(old: FactoryState, new: FactoryState, ctx: CallContext, f: Seq<DeploymentRecordView>) -> bool {
    &&& refunds_logged(old.ledger, new.ledger, ctx, f)
    &&& new.ledger.accounts@ == refunded_accounts(old.ledger.accounts@, f, ctx.now)
    &&& records_view(new.deployment_records@) == marked_refunded(records_view(old.deployment_records@), f, ctx.now)
    &&& registry_unchanged(old, new)
}

/// Refunds every failed deployment with a fee and marks it `Refunded`;
/// returns how many were refunded and the errors of the others.
pub(crate) fn refund_failed_deployments(state: &mut FactoryState, ctx: &CallContext) -> (r: (usize, Vec<String>))
    requires
        old(state).wf(),
    ensures
        final(state).wf(),
        refunds_failed(*old(state), *final(state), *ctx, failed_records(*old(state))),
        r.0 == with_fee(failed_records(*old(state))).len(),
        strings_view(r.1@) == refund_errors(failed_records(*old(state))),
{
    let failed = state.get_deployment_records_by_status(DeploymentStatus::DeploymentFailed);
    let ghost f = views(failed@);
    let ghost fee_pred = |v: DeploymentRecordView| v.fee_amount > 0;
    let ghost zero_pred = |v: DeploymentRecordView| v.fee_amount == 0;
    let ghost old_recs = records_view(state.deployment_records@);
    let ghost old_accounts = state.ledger.accounts@;
    let ghost mut ls: Seq<Ledger> = seq![state.ledger];
    proof {
        lemma_records_view(state.deployment_records@);
    }
    let mut processed: usize = 0;
    let mut errors: Vec<String> = Vec::new();
    let mut i: usize = 0;
    while i < failed.len()
        invariant
            f == views(failed@),
            f == failed_records(*old(state)),
            all_stored(*old(state), failed@),
            fee_pred == (|v: DeploymentRecordView| v.fee_amount > 0),
            zero_pred == (|v: DeploymentRecordView| v.fee_amount == 0),
            old_recs == records_view(old(state).deployment_records@),
            old_accounts == old(state).ledger.accounts@,
            i <= failed@.len(),
            state.wf(),
            state.deployment_records@.dom() == old(state).deployment_records@.dom(),
            refund_steps(ls, *ctx, f.take(i as int)),
            ls[0] == old(state).ledger,
            ls.last() == state.ledger,
            state.ledger.accounts@ == refunded_accounts(old_accounts, f.take(i as int), ctx.now),
            records_view(state.deployment_records@) == marked_refunded(old_recs, f.take(i as int), ctx.now),
            registry_unchanged(*old(state), *state),
            processed == f.take(i as int).filter(fee_pred).len(),
            processed <= i,
            strings_view(errors@) == refund_errors(f.take(i as int)),
        decreases failed@.len() - i,
    {
        let record = &failed[i];
        let ghost t = f.take(i as int);
        let ghost mid = state.ledger;
        proof {
            assert(f.take(i + 1) =~= t.push(f[i as int]));
            assert(f.take(i + 1).drop_last() =~= t);
            t.lemma_filter_push(f[i as int], fee_pred);
            t.lemma_filter_push(f[i as int], zero_pred);
            assert(refund_errors(t) =~= t.filter(zero_pred).map_values(
                |v: DeploymentRecordView|
                    "Refund error (ID: "@ + v.deployment_id + "): "@ + "Refund amount must be greater than 0"@,
            ));
            assert(state.deployment_records@.contains_key(record.deployment_id@));
            assert(f[i as int] == failed@[i as int]@);
        }
        let ghost before = *state;
        match process_balance_refund(&mut state.ledger, ctx, &record.owner, record.fee_amount, &record.deployment_id) {
            Ok(()) => {
                match state.update_deployment_status(&record.deployment_id, DeploymentStatus::Refunded, None, None, ctx.now) {
                    Ok(()) => {
                        processed = processed + 1;
                    },
                    Err(e) => {
                        let mut m = "Status update error (ID: ".to_string();
                        m.append(record.deployment_id.as_str());
                        m.append("): ");
                        m.append(e.as_str());
                        errors.push(m);
                    },
                }
                proof {
                    lemma_records_view(state.deployment_records@);
                    lemma_records_view(before.deployment_records@);
                    assert(state.deployment_records@.dom() =~= before.deployment_records@.dom());
                }
            },
            Err(e) => {
                let mut m = "Refund error (ID: ".to_string();
                m.append(record.deployment_id.as_str());
                m.append("): ");
                m.append(e.as_str());
                let ghost prev = errors@;
                errors.push(m);
                proof {
                    assert(strings_view(errors@) =~= strings_view(prev).push(m@));
                }
            },
        }
        proof {
            let t1 = f.take(i + 1);
            assert(refund_errors(t1) =~= t1.filter(zero_pred).map_values(
                |v: DeploymentRecordView|
                    "Refund error (ID: "@ + v.deployment_id + "): "@ + "Refund amount must be greater than 0"@,
            ));
            assert(refund_step(mid, state.ledger, *ctx, f[i as int]));
            let ls1 = ls.push(state.ledger);
            assert forall|j: int| 0 <= j < t1.len() implies refund_step(ls1[j], ls1[j + 1], *ctx, #[trigger] t1[j]) by {
                if j < t.len() {
                    assert(t1[j] == t[j]);
                    assert(refund_step(ls[j], ls[j + 1], *ctx, t[j]));
                }
            }
            ls = ls1;
        }
        i = i + 1;
    }
    proof {
        assert(f.take(failed@.len() as int) =~= f);
        assert(refund_steps(ls, *ctx, f));
    }
    (processed, errors)
}

/// Refunds the fee of every failed deployment to its owner's balance,
/// records the refund and marks the deployment `Refunded`; a deployment
/// without a fee cannot be refunded and is reported. Returns how many were
/// refunded, or the reports when there were some and nothing was refunded.
pub fn process_failed_deployments(state: &mut FactoryState, ctx: &CallContext) -> (r: Result<usize, String>)
    requires
        old(state).wf(),
    ensures
        final(state).wf(),
        refunds_failed(*old(state), *final(state), *ctx, failed_records(*old(state))),
        ({
            let f = failed_records(*old(state));
            let n = with_fee(f).len();
            let errors = refund_errors(f);
            &&& (r is Err <==> errors.len() > 0 && n == 0)
            &&& (r matches Ok(k) ==> k == n)
            &&& (r matches Err(e) ==> e@ == "Could not process any refunds. Errors: "@ + joined(errors, ", "@))
        }),
{
    let (processed, errors) = refund_failed_deployments(state, ctx);
    if errors.len() > 0 && processed == 0 {
        let mut m = "Could not process any refunds. Errors: ".to_string();
        let all = join_strings(&errors, ", ");
        m.append(all.as_str());
        Err(m)
    } else {
        Ok(processed)
    }
}

/// After the records `f` are marked refunded, each record is either
/// refunded or as it was, with no record of `f` with a fee under its id.
proof fn lemma_marked_refunded(m: Map<Seq<char>, DeploymentRecordView>, f: Seq<DeploymentRecordView>, now: u64)
    ensures
        forall|k: Seq<char>| #[trigger] marked_refunded(m, f, now).contains_key(k) ==> {
            ||| marked_refunded(m, f, now)[k].status == DeploymentStatus::Refunded
            ||| {
                &&& m.contains_key(k)
                &&& marked_refunded(m, f, now)[k] == m[k]
                &&& forall|j: int| 0 <= j < f.len() && (#[trigger] f[j]).deployment_id == k ==> f[j].fee_amount == 0
            }
        },
    decreases f.len(),
{
    if f.len() > 0 {
        let p = f.drop_last();
        lemma_marked_refunded(m, p, now);
        let prev = marked_refunded(m, p, now);
        let cur = marked_refunded(m, f, now);
        assert forall|k: Seq<char>| #[trigger] cur.contains_key(k) implies {
            ||| cur[k].status == DeploymentStatus::Refunded
            ||| {
                &&& m.contains_key(k)
                &&& cur[k] == m[k]
                &&& forall|j: int| 0 <= j < f.len() && (#[trigger] f[j]).deployment_id == k ==> f[j].fee_amount == 0
            }
        } by {
            if !(f.last().deployment_id == k && f.last().fee_amount > 0) {
                assert(prev.contains_key(k));
                if prev[k].status != DeploymentStatus::Refunded {
                    assert forall|j: int| 0 <= j < f.len() && (#[trigger] f[j]).deployment_id == k implies f[j].fee_amount
                        == 0 by {
                        if j < f.len() - 1 {
                            assert(f[j] == p[j]);
                        }
                    }
                }
            }
        }
    }
}

/// No element of `s` that meets `p` meets `q`: filtering by both leaves
/// nothing.
proof fn lemma_filter_both_empty<A>(s: Seq<A>, p: spec_fn(A) -> bool, q: spec_fn(A) -> bool)
    requires
        forall|i: int| 0 <= i < s.len() && p(#[trigger] s[i]) ==> !q(s[i]),
    ensures
        s.filter(p).filter(q).len() == 0,
    decreases s.len(),
{
    if s.len() == 0 {
        assert(s.filter(p) =~= Seq::<A>::empty()) by {
            reveal(Seq::filter);
        }
        assert(s.filter(p).filter(q) =~= Seq::<A>::empty()) by {
            reveal(Seq::filter);
        }
    } else {
        let r = s.drop_last();
        let x = s.last();
        assert forall|i: int| 0 <= i < r.len() && p(#[trigger] r[i]) implies !q(r[i]) by {
            assert(r[i] == s[i]);
        }
        lemma_filter_both_empty(r, p, q);
        assert(s =~= r.push(x));
        r.lemma_filter_push(x, p);
        if p(x) {
            r.filter(p).lemma_filter_push(x, q);
        }
    }
}

/// No element of `s` meets `p`: filtering by it leaves nothing.
proof fn lemma_filter_none<A>(s: Seq<A>, p: spec_fn(A) -> bool)
    requires
        forall|i: int| 0 <= i < s.len() ==> !p(#[trigger] s[i]),
    ensures
        s.filter(p).len() == 0,
    decreases s.len(),
{
    if s.len() == 0 {
        assert(s.filter(p) =~= Seq::<A>::empty()) by {
            reveal(Seq::filter);
        }
    } else {
        let r = s.drop_last();
        assert forall|i: int| 0 <= i < r.len() implies !p(#[trigger] r[i]) by {
            assert(r[i] == s[i]);
        }
        lemma_filter_none(r, p);
        assert(s =~= r.push(s.last()));
        r.lemma_filter_push(s.last(), p);
    }
}

/// Once the failed deployments are refunded, a second refund pass finds no
/// failed deployment with a fee: it refunds nothing. When every failed
/// deployment had a fee, none is left failed, so the second pass has
/// nothing to report either and returns `Ok(0)`.
pub proof fn law_second_refund_pass_refunds_nothing(s: FactoryState, t: FactoryState, ctx: CallContext)
    requires
        s.wf(),
        t.deployment_records.keys_distinct(),
        refunds_failed(s, t, ctx, failed_records(s)),
    ensures
        with_fee(failed_records(t)).len() == 0,
        (forall|j: int| 0 <= j < failed_records(s).len() ==> (#[trigger] failed_records(s)[j]).fee_amount > 0)
            ==> failed_records(t).len() == 0,
{
    let f = failed_records(s);
    let failed_pred = |v: DeploymentRecordView| v.status == DeploymentStatus::DeploymentFailed;
    let fee_pred = |v: DeploymentRecordView| v.fee_amount > 0;
    let lt = record_list(t.deployment_records);
    let te = t.deployment_records.entries();
    let se = s.deployment_records.entries();
    let st = key_sorted(te);
    let ss = key_sorted(se);
    let ls = record_list(s.deployment_records);
    let marked = marked_refunded(records_view(s.deployment_records@), f, ctx.now);
    lemma_marked_refunded(records_view(s.deployment_records@), f, ctx.now);
    lemma_records_view(t.deployment_records@);
    lemma_records_view(s.deployment_records@);
    t.deployment_records.lemma_view_entries();
    s.deployment_records.lemma_view_entries();
    lemma_key_sorted_contains(te);
    lemma_key_sorted_contains(se);
    assert forall|i: int| 0 <= i < lt.len() && failed_pred(#[trigger] lt[i]) implies lt[i].fee_amount == 0 && f.contains(
        lt[i],
    ) by {
        let x = lt[i];
        assert(x == st[i].1@);
        assert(st.contains(st[i]));
        let idx = choose|idx: int| 0 <= idx < te.len() && te[idx] == st[i];
        let k = te[idx].0@;
        crate::table::lemma_index_of_unique(crate::table::entry_keys(te), idx);
        assert(crate::table::entry_keys(te)[idx] == k);
        assert(t.deployment_records@.contains_key(k));
        assert(t.deployment_records@[k] == te[idx].1);
        assert(marked.contains_key(k));
        assert(marked[k] == x);
        assert(records_view(s.deployment_records@).contains_key(k));
        let w = s.deployment_records@[k];
        assert(w@ == x);
        assert(w.deployment_id@ == k);
        let sidx = crate::table::entry_keys(se).index_of(k);
        assert(crate::table::entry_keys(se).contains(k));
        assert(se[sidx].1 == w);
        assert(se.contains(se[sidx]));
        assert(ss.contains(se[sidx]));
        let m = choose|m: int| 0 <= m < ss.len() && ss[m] == se[sidx];
        assert(ls[m] == x);
        ls.lemma_filter_contains(failed_pred, m);
        assert(f.contains(x));
        let j = choose|j: int| 0 <= j < f.len() && f[j] == x;
        assert(f[j].deployment_id == k);
    }
    lemma_filter_both_empty(lt, failed_pred, fee_pred);
    if forall|j: int| 0 <= j < f.len() ==> (#[trigger] f[j]).fee_amount > 0 {
        assert forall|i: int| 0 <= i < lt.len() implies !failed_pred(#[trigger] lt[i]) by {
            if failed_pred(lt[i]) {
                let j = choose|j: int| 0 <= j < f.len() && f[j] == lt[i];
                assert(f[j].fee_amount > 0);
            }
        }
        lemma_filter_none(lt, failed_pred);
    }
}

/// The principal of the anonymous caller.
pub open spec fn is_anonymous_id(p: Principal) -> bool {
    p@ == seq![4u8]
}

/// Why a deposit is refused before any transfer, if it is.
pub open spec fn deposit_refusal(user: Principal, amount: u64) -> Option<Seq<char>> {
    if amount < MIN_DEPOSIT_AMOUNT {
        Some("Deposit amount cannot be less than 0.01 ICP"@)
    } else if amount > MAX_DEPOSIT_AMOUNT {
        Some("Deposit amount cannot exceed 1000 ICP"@)
    } else if is_anonymous_id(user) {
        Some("Anonymous identity cannot make deposits"@)
    } else {
        None
    }
}

/// Checks a deposit of `amount` e8s by `user` before the transfer to the
/// factory is made.
pub fn check_deposit(user: &Principal, amount: u64) -> (r: Result<(), String>)
    ensures
        r is Ok <==> deposit_refusal(*user, amount) is None,
        r matches Err(e) ==> deposit_refusal(*user, amount) == Some(e@),
{
    if amount < MIN_DEPOSIT_AMOUNT {
        return Err("Deposit amount cannot be less than 0.01 ICP".to_string());
    }
    if amount > MAX_DEPOSIT_AMOUNT {
        return Err("Deposit amount cannot exceed 1000 ICP".to_string());
    }
    if user.is_anonymous() {
        return Err("Anonymous identity cannot make deposits".to_string());
    }
    Ok(())
}

/// Completes a deposit once the ledger answered the transfer: a transfer
/// made credits `amount` to `user`, records the deposit and gives the new
/// balance; a refused one changes nothing.
pub fn finish_deposit(ledger: &mut Ledger, ctx: &CallContext, user: &Principal, amount: u64, transfer: Result<(), String>) -> (r:
    Result<u64, String>)
    requires
        old(ledger).wf(),
    ensures
        final(ledger).wf(),
        transfer matches Err(m) ==> *final(ledger) == *old(ledger) && (r matches Err(e) && e@ == "Deposit failed: "@
            + m@),
        transfer is Ok ==> {
            let a = after_deposit(old(ledger).account(*user), amount, ctx.now);
            &&& r == Ok::<u64, String>(a.balance)
            &&& moves_balance(*old(ledger), *final(ledger), *ctx, *user, a, amount, TransactionType::Deposit,
                "Deposit of "@ + icp_text(amount as nat) + " ICP"@)
        },
{
    match transfer {
        Err(m) => {
            let mut e = "Deposit failed: ".to_string();
            e.append(m.as_str());
            Err(e)
        },
        Ok(()) => {
            let balance = match ledger.update_user_balance(user, amount, true, ctx.now) {
                Ok(b) => b,
                Err(e) => {
                    proof { assert(false); }
                    return Err(e);
                },
            };
            let mut description = "Deposit of ".to_string();
            push_icp(&mut description, amount);
            description.append(" ICP");
            ledger.record_transaction(ctx, user, amount, TransactionType::Deposit, description);
            Ok(balance)
        },
    }
}

/// Completes a user's withdrawal once the transfer to their wallet went
/// through: takes `amount` from their balance when it still covers it,
/// records the withdrawal (as a refund) and gives the new balance.
pub fn finish_user_withdrawal(ledger: &mut Ledger, ctx: &CallContext, user: &Principal, amount: u64) -> (r: Result<
    u64,
    String,
>)
    requires
        old(ledger).wf(),
    ensures
        final(ledger).wf(),
        r is Err <==> old(ledger).account(*user).balance < amount,
        r matches Err(e) ==> *final(ledger) == *old(ledger) && e@ == insufficient_balance_text(
            old(ledger).account(*user).balance,
            amount,
        ),
        r is Ok ==> {
            let a = after_charge(old(ledger).account(*user), amount);
            &&& r == Ok::<u64, String>(a.balance)
            &&& moves_balance(*old(ledger), *final(ledger), *ctx, *user, a, amount, TransactionType::Refund,
                "Withdrawal of "@ + icp_text(amount as nat) + " ICP to user wallet"@)
        },
{
    let balance = ledger.update_user_balance(user, amount, false, ctx.now)?;
    let mut description = "Withdrawal of ".to_string();
    push_icp(&mut description, amount);
    description.append(" ICP to user wallet");
    ledger.record_transaction(ctx, user, amount, TransactionType::Refund, description);
    Ok(balance)
}

/// The error of a withdrawal larger than the balance.
pub open spec fn withdrawal_shortfall_text(balance: u64, amount: u64) -> Seq<char> {
    "Insufficient balance: you have "@ + icp_text(balance as nat) + " ICP but requested "@ + icp_text(amount as nat)
        + " ICP"@
}

/// Why a user's withdrawal of `amount` e8s to their wallet is refused
/// before any transfer, if it is, with the factory holding `cycles`.
pub open spec fn user_withdrawal_refusal(ledger: Ledger, user: Principal, amount: u64, cycles: u64) -> Option<Seq<char>> {
    if amount == 0 {
        Some("Withdrawal amount must be greater than 0"@)
    } else if amount > MAX_WITHDRAWAL_AMOUNT {
        Some("Withdrawal amount cannot exceed 100 ICP"@)
    } else if is_anonymous_id(user) {
        Some("Anonymous identity cannot withdraw funds"@)
    } else if !ledger.accounts@.contains_key(user@) {
        Some("User account not found"@)
    } else if ledger.accounts@[user@].balance < amount {
        Some(withdrawal_shortfall_text(ledger.accounts@[user@].balance, amount))
    } else if cycles < MIN_CYCLES_BALANCE {
        Some("System cycles balance too low for safe operation. Please try again later or contact support."@)
    } else {
        None
    }
}

/// Checks a user's withdrawal of `amount` e8s to their wallet before the
/// transfer is made; `cycles` is the factory's cycles balance.
pub fn check_user_withdrawal(ledger: &Ledger, user: &Principal, amount: u64, cycles: u64) -> (r: Result<(), String>)
    ensures
        r is Ok <==> user_withdrawal_refusal(*ledger, *user, amount, cycles) is None,
        r matches Err(e) ==> user_withdrawal_refusal(*ledger, *user, amount, cycles) == Some(e@),
{
    if amount == 0 {
        return Err("Withdrawal amount must be greater than 0".to_string());
    }
    if amount > MAX_WITHDRAWAL_AMOUNT {
        return Err("Withdrawal amount cannot exceed 100 ICP".to_string());
    }
    if user.is_anonymous() {
        return Err("Anonymous identity cannot withdraw funds".to_string());
    }
    let balance = match ledger.accounts.get(user) {
        Some(a) => a.balance,
        None => {
            return Err("User account not found".to_string());
        },
    };
    if balance < amount {
        let mut e = "Insufficient balance: you have ".to_string();
        push_icp(&mut e, balance);
        e.append(" ICP but requested ");
        push_icp(&mut e, amount);
        e.append(" ICP");
        assert(e@ =~= withdrawal_shortfall_text(balance, amount));
        return Err(e);
    }
    if cycles < MIN_CYCLES_BALANCE {
        return Err(
            "System cycles balance too low for safe operation. Please try again later or contact support.".to_string(),
        );
    }
    Ok(())
}

/// Why a withdrawal of `amount` e8s from the factory to `recipient` is
/// refused before any transfer, if it is, with the factory holding
/// `cycles`.
pub open spec fn withdrawal_refusal(recipient: Principal, amount: u64, cycles: u64) -> Option<Seq<char>> {
    if amount == 0 {
        Some("Withdrawal amount must be greater than 0"@)
    } else if amount > MAX_WITHDRAWAL_AMOUNT {
        Some("Withdrawal amount cannot exceed 100 ICP"@)
    } else if is_anonymous_id(recipient) {
        Some("Cannot withdraw to anonymous identity"@)
    } else if cycles < MIN_CYCLES_BALANCE {
        Some("Canister cycles balance too low for safe operation. Current balance: "@ + decimal(cycles as nat)
            + " cycles"@)
    } else {
        None
    }
}

/// Checks a withdrawal of `amount` e8s from the factory to `recipient`
/// before the transfer is made; `cycles` is the factory's cycles balance.
pub fn check_withdrawal(recipient: &Principal, amount: u64, cycles: u64) -> (r: Result<(), String>)
    ensures
        r is Ok <==> withdrawal_refusal(*recipient, amount, cycles) is None,
        r matches Err(e) ==> withdrawal_refusal(*recipient, amount, cycles) == Some(e@),
{
    if amount == 0 {
        return Err("Withdrawal amount must be greater than 0".to_string());
    }
    if amount > MAX_WITHDRAWAL_AMOUNT {
        return Err("Withdrawal amount cannot exceed 100 ICP".to_string());
    }
    if recipient.is_anonymous() {
        return Err("Cannot withdraw to anonymous identity".to_string());
    }
    if cycles < MIN_CYCLES_BALANCE {
        let mut e = "Canister cycles balance too low for safe operation. Current balance: ".to_string();
        push_decimal(&mut e, cycles as u128);
        e.append(" cycles");
        return Err(e);
    }
    Ok(())
}

/// The transfer attempts of a withdrawal: how many failed, and the last
/// failure.
pub struct TransferAttempts {
    pub failures: u8,
    pub last_error: String,
}

impl TransferAttempts {
    /// No attempt made yet.
    pub fn new() -> (r: Self)
        ensures
            r.failures == 0,
            r.last_error@ == "Unknown error"@,
    {
        TransferAttempts { failures: 0, last_error: "Unknown error".to_string() }
    }

    /// Whether the bound on attempts still allows one.
    pub fn may_attempt(&self) -> (r: bool)
        ensures
            r == (self.failures < MAX_WITHDRAWAL_RETRIES),
    {
        self.failures < MAX_WITHDRAWAL_RETRIES
    }

    /// Records a failed attempt, rejected with `code` and `message`, and
    /// says whether to try again at once: only when the failure was
    /// transient and it was the first, so a withdrawal makes at most two
    /// attempts.
    pub fn record_failure(&mut self, code: &str, message: &str, transient: bool) -> (retry: bool)
        requires
            old(self).failures < MAX_WITHDRAWAL_RETRIES,
        ensures
            final(self).failures == old(self).failures + 1,
            final(self).last_error@ == "code="@ + code@ + ", message="@ + message@,
            retry == (transient && final(self).failures < MAX_WITHDRAWAL_RETRIES - 1),
    {
        let mut e = "code=".to_string();
        e.append(code);
        e.append(", message=");
        e.append(message);
        self.last_error = e;
        self.failures = self.failures + 1;
        if transient && self.failures < MAX_WITHDRAWAL_RETRIES {
            if self.failures == MAX_WITHDRAWAL_RETRIES - 1 {
                return false;
            }
            return true;
        }
        false
    }

    /// The error of a withdrawal whose transfer did not go through.
    pub fn failure_message(&self) -> (r: String)
        ensures
            r@ == "Withdrawal failed after "@ + decimal(self.failures as nat) + " attempts: "@ + self.last_error@,
    {
        let mut e = "Withdrawal failed after ".to_string();
        push_decimal(&mut e, self.failures as u128);
        e.append(" attempts: ");
        e.append(self.last_error.as_str());
        e
    }
}

/// A user's withdrawal to their wallet is accepted whenever it is positive,
/// at most 100 ICP (10,000,000,000 e8s), made by a non-anonymous user whose
/// account covers it, while the factory holds at least 1,000,000,000
/// cycles; an amount above 100 ICP is refused as too large, and only such
/// an amount.
pub proof fn law_user_withdrawal_accepts_covered_amounts(ledger: Ledger, user: Principal, amount: u64, cycles: u64)
    ensures
        (0 < amount <= 10_000_000_000 && user@ != seq![4u8] && ledger.accounts@.contains_key(user@)
            && ledger.accounts@[user@].balance >= amount && cycles >= 1_000_000_000) ==> user_withdrawal_refusal(
            ledger,
            user,
            amount,
            cycles,
        ) is None,
        amount > 10_000_000_000 ==> user_withdrawal_refusal(ledger, user, amount, cycles) == Some(
            "Withdrawal amount cannot exceed 100 ICP"@,
        ),
        user_withdrawal_refusal(ledger, user, amount, cycles) == Some("Withdrawal amount cannot exceed 100 ICP"@)
            ==> amount > 10_000_000_000,
{
    let lit = "Withdrawal amount cannot exceed 100 ICP"@;
    reveal_strlit("Withdrawal amount cannot exceed 100 ICP");
    reveal_strlit("Withdrawal amount must be greater than 0");
    reveal_strlit("Anonymous identity cannot withdraw funds");
    reveal_strlit("User account not found");
    reveal_strlit("System cycles balance too low for safe operation. Please try again later or contact support.");
    reveal_strlit("Insufficient balance: you have ");
    assert(lit[0] == 'W' && lit[18] == 'c');
    if amount == 0 {
        assert("Withdrawal amount must be greater than 0"@[18] == 'm');
    } else if amount <= MAX_WITHDRAWAL_AMOUNT {
        if is_anonymous_id(user) {
            assert("Anonymous identity cannot withdraw funds"@[0] == 'A');
        } else if !ledger.accounts@.contains_key(user@) {
            assert("User account not found"@[0] == 'U');
        } else if ledger.accounts@[user@].balance < amount {
            let t = withdrawal_shortfall_text(ledger.accounts@[user@].balance, amount);
            assert(t[0] == 'I');
        } else if cycles < MIN_CYCLES_BALANCE {
            assert("System cycles balance too low for safe operation. Please try again later or contact support."@[0]
                == 'S');
        }
    }
}

} // verus!

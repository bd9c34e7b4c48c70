use vstd::prelude::*;
use crate::principal::Principal;
use crate::state::{ARCHIVING_THRESHOLD_PERCENT, FactoryState, MAX_COMPLETED_RECORDS, RETENTION_PERIOD_NS};
use crate::key_order::{key_order, key_sorted};
use crate::table::Table;
use crate::text::{decimal, principal_text, push_decimal, push_principal};
use crate::types::{
    DeploymentRecord, DeploymentRecordView, DeploymentStatus, StrategyMetadata, opt_string_view,
};

verus! {

/// The views of the deployment records, by id.
pub open spec fn records_view(m: Map<Seq<char>, DeploymentRecord>) -> Map<Seq<char>, DeploymentRecordView> {
    m.map_values(|r: DeploymentRecord| r@)
}

/// The record after a status update at time `now`: the status and time
/// are replaced, the canister and error only when given.
pub open spec fn status_updated(
    r: DeploymentRecordView,
    status: DeploymentStatus,
    canister_id: Option<Principal>,
    error_message: Option<Seq<char>>,
    now: u64,
) -> DeploymentRecordView {
    DeploymentRecordView {
        status,
        last_updated: now,
        canister_id: if canister_id is Some { canister_id } else { r.canister_id },
        error_message: if error_message is Some { error_message } else { r.error_message },
        ..r
    }
}

/// The deployment id generated in a call at `now` by `caller` with the
/// counter at `counter`.
pub open spec fn deployment_id_text(now: u64, caller: Principal, counter: u64) -> Seq<char> {
    decimal(now as nat) + "-"@ + principal_text(caller@) + "-"@ + decimal(counter as nat)
}

/// The view of the records keeps their keys and views each record.
pub proof fn lemma_records_view(m: Map<Seq<char>, DeploymentRecord>)
    ensures
        records_view(m).dom() == m.dom(),
        forall|k: Seq<char>| #[trigger] m.contains_key(k) ==> records_view(m)[k] == m[k]@,
{
    assert(records_view(m).dom() =~= m.dom());
}

/// The views of a sequence of records.
pub open spec fn views(v: Seq<DeploymentRecord>) -> Seq<DeploymentRecordView> {
    v.map_values(|r: DeploymentRecord| r@)
}

/// The stored records, by view, in the order of their stored ids, as the
/// stable map of records walks them.
pub open spec fn record_list(t: Table<String, DeploymentRecord>) -> Seq<DeploymentRecordView> {
    key_sorted(t.entries()).map_values(|e: (String, DeploymentRecord)| e.1@)
}

/// Deployment ids generated with different counter values differ, whatever
/// the times and callers: the counter is what follows the last dash.
pub proof fn law_deployment_ids_differ(now1: u64, caller1: Principal, counter1: u64, now2: u64, caller2: Principal, counter2: u64)
    requires
        counter1 != counter2,
    ensures
        deployment_id_text(now1, caller1, counter1) != deployment_id_text(now2, caller2, counter2),
{
    if deployment_id_text(now1, caller1, counter1) == deployment_id_text(now2, caller2, counter2) {
        let x = decimal(now1 as nat) + "-"@ + principal_text(caller1@);
        let y = decimal(now2 as nat) + "-"@ + principal_text(caller2@);
        assert(deployment_id_text(now1, caller1, counter1) =~= x + seq!['-'] + decimal(counter1 as nat)) by {
            reveal_strlit("-");
        }
        assert(deployment_id_text(now2, caller2, counter2) =~= y + seq!['-'] + decimal(counter2 as nat)) by {
            reveal_strlit("-");
        }
        crate::text::lemma_dash_numeral_suffix(x, counter1 as nat, y, counter2 as nat);
    }
}

/// Each record of `v` is, by view, the record stored under its id in `s`.
pub open spec fn all_stored(s: FactoryState, v: Seq<DeploymentRecord>) -> bool {
    forall|i: int|
        0 <= i < v.len() ==> s.deployment_records@.contains_key(#[trigger] v[i].deployment_id@)
            && s.deployment_records@[v[i].deployment_id@]@ == v[i]@
}

/// Whether a record is completed: deployed or refunded.
pub open spec fn is_completed(v: DeploymentRecordView) -> bool {
    v.status == DeploymentStatus::Deployed || v.status == DeploymentStatus::Refunded
}

/// The completed records, in their stored order.
pub open spec fn completed_records(t: Table<String, DeploymentRecord>) -> Seq<DeploymentRecordView> {
    record_list(t).filter(|v: DeploymentRecordView| is_completed(v))
}

/// The position of `c[i]` once `c` is sorted by last update, ties keeping
/// their order.
pub open spec fn update_rank(c: Seq<DeploymentRecordView>, i: int) -> nat {
    c.filter(|x: DeploymentRecordView| x.last_updated < c[i].last_updated).len() + c.take(i).filter(
        |x: DeploymentRecordView| x.last_updated == c[i].last_updated,
    ).len()
}

/// How many completed records are beyond the number kept.
pub open spec fn excess_count(n: nat) -> nat {
    if n > MAX_COMPLETED_RECORDS { (n - MAX_COMPLETED_RECORDS) as nat } else { 0 }
}

/// Whether completed record `c[i]` is archived at `now`: it is among the
/// oldest beyond the number kept, or was last updated before the retention
/// period.
pub open spec fn archivable(c: Seq<DeploymentRecordView>, i: int, now: u64) -> bool {
    update_rank(c, i) < excess_count(c.len()) || c[i].last_updated < now.saturating_sub(RETENTION_PERIOD_NS)
}

/// The ids of the archivable records among the first `n` of `c`.
pub open spec fn archived_prefix(c: Seq<DeploymentRecordView>, n: int, now: u64) -> Set<Seq<char>> {
    Set::new(|id: Seq<char>| exists|i: int| 0 <= i < n && archivable(c, i, now) && #[trigger] c[i].deployment_id == id)
}

/// The ids of the completed records archived at `now`.
pub open spec fn archived_ids(c: Seq<DeploymentRecordView>, now: u64) -> Set<Seq<char>> {
    archived_prefix(c, c.len() as int, now)
}

/// The estimated use of stable memory by `n` records, in percent: each
/// record is taken as 500 bytes of the 4 GiB of stable memory, and the
/// result is capped at 100.
pub open spec fn memory_usage_percent(n: nat) -> nat {
    let p = n * 500 * 100 / (4 * 1024 * 1024 * 1024);
    if p > 100 { 100 } else { p }
}

/// `new` registers the strategy `m` of `old`: stored under its canister,
/// its canister appended to its owner's list, the other owners' lists kept.
pub open spec fn registers_strategy(old: FactoryState, new: FactoryState, m: StrategyMetadata) -> bool {
    &&& new.strategies@ == old.strategies@.insert(m.canister_id@, m)
    &&& new.owner_strategies@.dom() == old.owner_strategies@.dom().insert(m.owner@)
    &&& new.owner_strategies@[m.owner@]@ == (if old.owner_strategies@.contains_key(m.owner@) {
        old.owner_strategies@[m.owner@]@
    } else {
        Seq::<Principal>::empty()
    }).push(m.canister_id)
    &&& forall|k: Seq<u8>|
        k != m.owner@ && #[trigger] old.owner_strategies@.contains_key(k) ==> new.owner_strategies@[k]
            == old.owner_strategies@[k]
}

impl FactoryState {
    /// Every record is stored under its id and every strategy under its
    /// canister; the ledger is well formed.
    pub open spec fn wf(self) -> bool {
        &&& self.ledger.wf()
        &&& forall|k: Seq<char>| #[trigger] self.deployment_records@.contains_key(k)
            ==> self.deployment_records@[k].deployment_id@ == k
        &&& forall|k: Seq<u8>| #[trigger] self.strategies@.contains_key(k) ==> self.strategies@[k].canister_id@ == k
    }

    /// Only the deployment records may differ from `other`.
    pub open spec fn same_but_records(self, other: FactoryState) -> bool {
        &&& self.ledger == other.ledger
        &&& self.strategies == other.strategies
        &&& self.owner_strategies == other.owner_strategies
        &&& self.admins == other.admins
        &&& self.deployment_fee == other.deployment_fee
        &&& self.deployment_id_counter == other.deployment_id_counter
    }

    /// Generates a deployment id from the time, the caller and the counter,
    /// and advances the counter.
    pub fn generate_deployment_id(&mut self, now: u64, caller: &Principal) -> (r: String)
        requires
            old(self).deployment_id_counter < u64::MAX,
        ensures
            r@ == deployment_id_text(now, *caller, old(self).deployment_id_counter),
            final(self).deployment_id_counter == old(self).deployment_id_counter + 1,
            final(self).ledger == old(self).ledger,
            final(self).deployment_records == old(self).deployment_records,
            final(self).strategies == old(self).strategies,
            final(self).owner_strategies == old(self).owner_strategies,
            final(self).admins == old(self).admins,
            final(self).deployment_fee == old(self).deployment_fee,
    {
        let counter = self.deployment_id_counter;
        self.deployment_id_counter = counter + 1;
        let mut s = String::new();
        push_decimal(&mut s, now as u128);
        s.append("-");
        push_principal(&mut s, caller);
        s.append("-");
        push_decimal(&mut s, counter as u128);
        assert(s@ =~= deployment_id_text(now, *caller, counter));
        s
    }

    /// Stores the record under its id.
    pub fn store_deployment_record(&mut self, record: DeploymentRecord)
        requires
            old(self).wf(),
        ensures
            final(self).wf(),
            final(self).deployment_records@ == old(self).deployment_records@.insert(record.deployment_id@, record),
            final(self).same_but_records(*old(self)),
    {
        let id = record.deployment_id.clone();
        self.deployment_records.insert(id, record);
    }

    /// A copy of the record with the given id, if any.
    pub fn get_deployment_record(&self, deployment_id: &str) -> (r: Option<DeploymentRecord>)
        ensures
            r is Some <==> self.deployment_records@.contains_key(deployment_id@),
            r matches Some(rec) ==> rec@ == self.deployment_records@[deployment_id@]@,
    {
        let key = deployment_id.to_string();
        match self.deployment_records.get(&key) {
            Some(rec) => Some(rec.clone()),
            None => None,
        }
    }

    /// Sets the status and time of the record with the given id, and its
    /// canister and error when given.
    pub fn update_deployment_status(
        &mut self,
        deployment_id: &str,
        status: DeploymentStatus,
        canister_id: Option<Principal>,
        error_message: Option<String>,
        now: u64,
    ) -> (r: Result<(), String>)
        requires
            old(self).wf(),
        ensures
            final(self).wf(),
            final(self).same_but_records(*old(self)),
            r is Ok <==> old(self).deployment_records@.contains_key(deployment_id@),
            r matches Err(e) ==> e@ == "Deployment record not found: "@ + deployment_id@
                && final(self).deployment_records == old(self).deployment_records,
            r is Ok ==> records_view(final(self).deployment_records@) == records_view(
                old(self).deployment_records@,
            ).insert(
                deployment_id@,
                status_updated(
                    old(self).deployment_records@[deployment_id@]@,
                    status,
                    canister_id,
                    opt_string_view(error_message),
                    now,
                ),
            ),
    {
        match self.get_deployment_record(deployment_id) {
            Some(mut record) => {
                record.status = status;
                record.last_updated = now;
                if let Some(cid) = canister_id {
                    record.canister_id = Some(cid);
                }
                if let Some(error) = error_message {
                    record.error_message = Some(error);
                }
                let ghost updated = record@;
                self.store_deployment_record(record);
                proof {
                    assert(records_view(self.deployment_records@) =~= records_view(
                        old(self).deployment_records@,
                    ).insert(deployment_id@, updated));
                }
                Ok(())
            },
            None => {
                let mut e = "Deployment record not found: ".to_string();
                e.append(deployment_id);
                Err(e)
            },
        }
    }

    /// Registers the strategy under its canister and adds the canister to
    /// its owner's list.
    pub fn store_strategy_metadata(&mut self, metadata: StrategyMetadata)
        requires
            old(self).wf(),
        ensures
            final(self).wf(),
            registers_strategy(*old(self), *final(self), metadata),
            final(self).ledger == old(self).ledger,
            final(self).deployment_records == old(self).deployment_records,
            final(self).admins == old(self).admins,
            final(self).deployment_fee == old(self).deployment_fee,
            final(self).deployment_id_counter == old(self).deployment_id_counter,
    {
        let canister_id = metadata.canister_id;
        let owner = metadata.owner;
        self.strategies.insert(canister_id, metadata);
        let mut list: Vec<Principal> = match self.owner_strategies.get(&owner) {
            Some(l) => l.clone(),
            None => Vec::new(),
        };
        list.push(canister_id);
        self.owner_strategies.insert(owner, list);
    }

    /// A copy of the metadata of the strategy in `canister_id`, if any.
    pub fn get_strategy_metadata(&self, canister_id: &Principal) -> (r: Option<StrategyMetadata>)
        ensures
            r is Some <==> self.strategies@.contains_key(canister_id@),
            r matches Some(m) ==> m == self.strategies@[canister_id@],
    {
        match self.strategies.get(canister_id) {
            Some(m) => Some(m.clone()),
            None => None,
        }
    }

    /// The stored deployment records, in the order of their ids.
    pub fn get_all_deployment_records(&self) -> (r: Vec<DeploymentRecord>)
        ensures
            views(r@) == record_list(self.deployment_records),
            self.wf() ==> all_stored(*self, r@),
    {
        let order = key_order(&self.deployment_records);
        let ghost e = self.deployment_records.entries();
        let ghost sorted = key_sorted(e);
        let n = order.len();
        let mut out: Vec<DeploymentRecord> = Vec::new();
        let mut i: usize = 0;
        while i < n
            invariant
                n == order@.len(),
                e == self.deployment_records.entries(),
                sorted == key_sorted(e),
                forall|j: int| 0 <= j < n ==> #[trigger] order@[j] < e.len(),
                order@.map_values(|x: usize| e[x as int]) == sorted,
                i <= n,
                out@.len() == i,
                views(out@) == record_list(self.deployment_records).take(i as int),
                self.wf() ==> all_stored(*self, out@),
            decreases n - i,
        {
            let (_, rec) = self.deployment_records.entry_at(order[i]);
            let ghost prev = out@;
            out.push(rec.clone());
            proof {
                let all = record_list(self.deployment_records);
                assert(sorted[i as int] == e[order@[i as int] as int]);
                assert(all[i as int] == sorted[i as int].1@);
                assert(out@ == prev.push(out@[i as int]));
                assert(views(out@) =~= views(prev).push(out@[i as int]@));
                assert(all.take(i + 1) =~= all.take(i as int).push(all[i as int]));
            }
            i = i + 1;
        }
        proof {
            assert(record_list(self.deployment_records).take(n as int) =~= record_list(self.deployment_records));
        }
        out
    }

    /// The stored deployment records of `owner`, in the order of their ids.
    pub fn get_deployment_records_by_owner(&self, owner: &Principal) -> (r: Vec<DeploymentRecord>)
        ensures
            views(r@) == record_list(self.deployment_records).filter(|v: DeploymentRecordView| v.owner@ == owner@),
            self.wf() ==> all_stored(*self, r@),
    {
        let ghost pred = |v: DeploymentRecordView| v.owner@ == owner@;
        let all_recs = self.get_all_deployment_records();
        let ghost all = record_list(self.deployment_records);
        let n = all_recs.len();
        let mut out: Vec<DeploymentRecord> = Vec::new();
        let mut i: usize = 0;
        while i < n
            invariant
                n == all_recs@.len(),
                views(all_recs@) == all,
                self.wf() ==> all_stored(*self, all_recs@),
                all == record_list(self.deployment_records),
                i <= n,
                pred == (|v: DeploymentRecordView| v.owner@ == owner@),
                views(out@) == all.take(i as int).filter(pred),
                self.wf() ==> all_stored(*self, out@),
            decreases n - i,
        {
            let rec = &all_recs[i];
            proof {
                assert(all[i as int] == rec@);
                assert(all.take(i + 1) =~= all.take(i as int).push(all[i as int]));
                all.take(i as int).lemma_filter_push(all[i as int], pred);
            }
            if rec.owner.equals(owner) {
                out.push(rec.clone());
                proof {
                    assert(views(out@) =~= all.take(i + 1).filter(pred));
                }
            }
            i = i + 1;
        }
        proof {
            assert(all.take(n as int) =~= all);
        }
        out
    }

    /// The stored deployment records with the given status, in the order of
    /// their ids.
    pub fn get_deployment_records_by_status(&self, status: DeploymentStatus) -> (r: Vec<DeploymentRecord>)
        ensures
            views(r@) == record_list(self.deployment_records).filter(|v: DeploymentRecordView| v.status == status),
            self.wf() ==> all_stored(*self, r@),
    {
        let ghost pred = |v: DeploymentRecordView| v.status == status;
        let all_recs = self.get_all_deployment_records();
        let ghost all = record_list(self.deployment_records);
        let n = all_recs.len();
        let mut out: Vec<DeploymentRecord> = Vec::new();
        let mut i: usize = 0;
        while i < n
            invariant
                n == all_recs@.len(),
                views(all_recs@) == all,
                self.wf() ==> all_stored(*self, all_recs@),
                all == record_list(self.deployment_records),
                i <= n,
                pred == (|v: DeploymentRecordView| v.status == status),
                views(out@) == all.take(i as int).filter(pred),
                self.wf() ==> all_stored(*self, out@),
            decreases n - i,
        {
            let rec = &all_recs[i];
            proof {
                assert(all[i as int] == rec@);
                assert(all.take(i + 1) =~= all.take(i as int).push(all[i as int]));
                all.take(i as int).lemma_filter_push(all[i as int], pred);
            }
            if rec.status == status {
                out.push(rec.clone());
                proof {
                    assert(views(out@) =~= all.take(i + 1).filter(pred));
                }
            }
            i = i + 1;
        }
        proof {
            assert(all.take(n as int) =~= all);
        }
        out
    }

    /// The estimated use of stable memory, in percent, capped at 100.
    pub fn get_memory_usage_percent(&self) -> (r: u8)
        ensures
            r == memory_usage_percent(self.deployment_records@.dom().len()),
    {
        let total = self.deployment_records.len() as u128;
        let percent = total * 50000 / 4294967296;
        if percent > 100 {
            100
        } else {
            percent as u8
        }
    }

    /// Whether the estimated memory use is above the archiving threshold.
    pub fn should_archive_records(&self) -> (r: bool)
        ensures
            r == (memory_usage_percent(self.deployment_records@.dom().len()) > ARCHIVING_THRESHOLD_PERCENT),
    {
        self.get_memory_usage_percent() > ARCHIVING_THRESHOLD_PERCENT
    }


    /// Removes completed records (deployed or refunded) that are either
    /// among the oldest beyond the first `MAX_COMPLETED_RECORDS` by last
    /// update, or last updated before the retention period that ends at
    /// `now`; returns how many were removed.
    pub fn archive_old_deployment_records(&mut self, now: u64) -> (r: usize)
        requires
            old(self).wf(),
        ensures
            final(self).wf(),
            final(self).same_but_records(*old(self)),
            final(self).deployment_records@ == old(self).deployment_records@.remove_keys(
                archived_ids(completed_records(old(self).deployment_records), now),
            ),
            r == old(self).deployment_records@.dom().len() - final(self).deployment_records@.dom().len(),
    {
        let all = self.get_all_deployment_records();
        let ghost all_v = record_list(self.deployment_records);
        let mut completed: Vec<DeploymentRecord> = Vec::new();
        let mut i: usize = 0;
        while i < all.len()
            invariant
                views(all@) == all_v,
                i <= all@.len(),
                views(completed@) == all_v.take(i as int).filter(|v: DeploymentRecordView| is_completed(v)),
            decreases all@.len() - i,
        {
            proof {
                assert(all_v.take(i + 1) =~= all_v.take(i as int).push(all_v[i as int]));
                all_v.take(i as int).lemma_filter_push(all_v[i as int], |v: DeploymentRecordView| is_completed(v));
            }
            let status = all[i].status;
            if status == DeploymentStatus::Deployed || status == DeploymentStatus::Refunded {
                let ghost prev = completed@;
                completed.push(all[i].clone());
                proof {
                    assert(views(completed@) =~= views(prev).push(all_v[i as int]));
                }
            }
            i = i + 1;
        }
        proof {
            assert(all_v.take(all@.len() as int) =~= all_v);
        }
        let ghost c = views(completed@);
        let m = completed.len();
        let excess: usize = if m > MAX_COMPLETED_RECORDS {
            m - MAX_COMPLETED_RECORDS
        } else {
            0
        };
        let threshold = now.saturating_sub(RETENTION_PERIOD_NS);
        let ghost before = self.deployment_records@;
        let total = self.deployment_records.len();
        let mut count: usize = 0;
        let mut i: usize = 0;
        while i < m
            invariant
                m == completed@.len(),
                c == views(completed@),
                c == completed_records(old(self).deployment_records),
                i <= m,
                excess == excess_count(m as nat),
                threshold == now.saturating_sub(RETENTION_PERIOD_NS),
                before == old(self).deployment_records@,
                before.dom().finite(),
                before.dom().len() == total,
                self.deployment_records@.dom().finite(),
                self.deployment_records@ == before.remove_keys(archived_prefix(c, i as int, now)),
                count + self.deployment_records@.dom().len() == before.dom().len(),
                self.wf(),
                self.same_but_records(*old(self)),
            decreases m - i,
        {
            let rank = Self::update_rank_of(&completed, i);
            let updated = completed[i].last_updated;
            let ghost id = c[i as int].deployment_id;
            proof {
                assert(archived_prefix(c, i + 1, now) =~= if archivable(c, i as int, now) {
                    archived_prefix(c, i as int, now).insert(id)
                } else {
                    archived_prefix(c, i as int, now)
                });
            }
            if rank < excess as u128 || updated < threshold {
                let ghost cur = self.deployment_records@;
                if self.deployment_records.remove(&completed[i].deployment_id).is_some() {
                    proof {
                        assert(self.deployment_records@.dom() =~= cur.dom().remove(id));
                        assert(cur.dom().contains(id));
                        assert(cur.dom().len() >= 1) by {
                            if cur.dom().len() == 0 {
                                cur.dom().lemma_len0_is_empty();
                            }
                        }
                    }
                    count = count + 1;
                }
                proof {
                    assert(self.deployment_records@ =~= before.remove_keys(archived_prefix(c, i + 1, now)));
                }
            }
            i = i + 1;
        }
        proof {
            assert(archived_prefix(c, m as int, now) =~= archived_ids(c, now));
        }
        count
    }

    /// The position of record `i` of `v` once `v` is sorted by last update,
    /// ties keeping their order.
    fn update_rank_of(v: &Vec<DeploymentRecord>, i: usize) -> (r: u128)
        requires
            i < v@.len(),
        ensures
            r == update_rank(views(v@), i as int),
    {
        let ghost c = views(v@);
        let t = v[i].last_updated;
        let ghost lt = |x: DeploymentRecordView| x.last_updated < t;
        let ghost eq = |x: DeploymentRecordView| x.last_updated == t;
        let mut below: usize = 0;
        let mut ties: usize = 0;
        let mut j: usize = 0;
        while j < v.len()
            invariant
                c == views(v@),
                i < v@.len(),
                t == c[i as int].last_updated,
                j <= v@.len(),
                lt == (|x: DeploymentRecordView| x.last_updated < t),
                eq == (|x: DeploymentRecordView| x.last_updated == t),
                below == c.take(j as int).filter(lt).len(),
                ties == c.take(if j < i { j as int } else { i as int }).filter(eq).len(),
                below <= j,
                ties <= j,
            decreases v@.len() - j,
        {
            proof {
                assert(c.take(j + 1) =~= c.take(j as int).push(c[j as int]));
                c.take(j as int).lemma_filter_push(c[j as int], lt);
                c.take(j as int).lemma_filter_push(c[j as int], eq);
                c.take(j as int).lemma_filter_len(lt);
                c.take(j as int).lemma_filter_len(eq);
            }
            let u = v[j].last_updated;
            if u < t {
                below = below + 1;
            }
            if j < i && u == t {
                ties = ties + 1;
            }
            j = j + 1;
        }
        proof {
            assert(c.take(v@.len() as int) =~= c);
        }
        below as u128 + ties as u128
    }
}

} // verus!

use vstd::prelude::*;
use vstd::set_lib::{lemma_int_range, lemma_len_subset, lemma_map_size, lemma_map_size_bound, set_int_range};
use crate::key_order::{key_sorted, lemma_key_sorted_contains, lemma_key_sorted_distinct};
use crate::records::{archivable, archived_ids, completed_records, excess_count, is_completed, lemma_records_view, record_list, records_view, update_rank};
use crate::state::{FactoryState, MAX_COMPLETED_RECORDS, RETENTION_PERIOD_NS};
use crate::table::{entry_keys, lemma_index_of_unique};
use crate::types::{DeploymentRecord, DeploymentRecordView};

verus! {

/// Filtering by a weaker predicate keeps at least as much.
proof fn lemma_filter_mono<A>(s: Seq<A>, p: spec_fn(A) -> bool, q: spec_fn(A) -> bool)
    requires
        forall|x: A| #[trigger] p(x) ==> q(x),
    ensures
        s.filter(p).len() <= s.filter(q).len(),
    decreases s.len(),
{
    reveal(Seq::filter);
    if s.len() > 0 {
        lemma_filter_mono(s.drop_last(), p, q);
    }
}

/// Filtering by either of two exclusive predicates keeps what each keeps.
proof fn lemma_filter_sum<A>(s: Seq<A>, p: spec_fn(A) -> bool, q: spec_fn(A) -> bool, r: spec_fn(A) -> bool)
    requires
        forall|x: A| #[trigger] r(x) == (p(x) || q(x)),
        forall|x: A| !(#[trigger] p(x) && q(x)),
    ensures
        s.filter(r).len() == s.filter(p).len() + s.filter(q).len(),
    decreases s.len(),
{
    reveal(Seq::filter);
    if s.len() > 0 {
        lemma_filter_sum(s.drop_last(), p, q, r);
    }
}

/// A longer prefix keeps at least as much.
proof fn lemma_filter_prefix<A>(s: Seq<A>, p: spec_fn(A) -> bool, m: int, k: int)
    requires
        0 <= m <= k <= s.len(),
    ensures
        s.take(m).filter(p).len() <= s.take(k).filter(p).len(),
    decreases k - m,
{
    if m < k {
        lemma_filter_prefix(s, p, m, k - 1);
        assert(s.take(k) =~= s.take(k - 1).push(s[k - 1]));
        s.take(k - 1).lemma_filter_push(s[k - 1], p);
    }
}

/// Taking one more element that is kept keeps one more.
proof fn lemma_filter_step<A>(s: Seq<A>, p: spec_fn(A) -> bool, i: int)
    requires
        0 <= i < s.len(),
        p(s[i]),
    ensures
        s.take(i + 1).filter(p).len() == s.take(i).filter(p).len() + 1,
{
    assert(s.take(i + 1) =~= s.take(i).push(s[i]));
    s.take(i).lemma_filter_push(s[i], p);
}

/// The rank of `c[i]` and the count of records updated no later than it.
proof fn lemma_rank_below_le(c: Seq<DeploymentRecordView>, i: int)
    requires
        0 <= i < c.len(),
    ensures
        update_rank(c, i) < c.filter(|x: DeploymentRecordView| x.last_updated <= c[i].last_updated).len(),
        c.filter(|x: DeploymentRecordView| x.last_updated <= c[i].last_updated).len() <= c.len(),
{
    let a = c[i].last_updated;
    let lt = |x: DeploymentRecordView| x.last_updated < a;
    let eq = |x: DeploymentRecordView| x.last_updated == a;
    let le = |x: DeploymentRecordView| x.last_updated <= a;
    lemma_filter_step(c, eq, i);
    lemma_filter_prefix(c, eq, i + 1, c.len() as int);
    assert(c.take(c.len() as int) =~= c);
    lemma_filter_sum(c, lt, eq, le);
    c.lemma_filter_len(le);
}

/// Ranks follow last updates, ties broken by position: they are distinct,
/// and each is below the number of records.
proof fn lemma_rank_injective(c: Seq<DeploymentRecordView>, i: int, j: int)
    requires
        0 <= i < j < c.len(),
    ensures
        update_rank(c, i) != update_rank(c, j),
        update_rank(c, i) < c.len(),
        update_rank(c, j) < c.len(),
{
    lemma_rank_below_le(c, i);
    lemma_rank_below_le(c, j);
    let ai = c[i].last_updated;
    let aj = c[j].last_updated;
    if ai < aj {
        lemma_filter_mono(c, |x: DeploymentRecordView| x.last_updated <= ai, |x: DeploymentRecordView| x.last_updated < aj);
    } else if aj < ai {
        lemma_filter_mono(c, |x: DeploymentRecordView| x.last_updated <= aj, |x: DeploymentRecordView| x.last_updated < ai);
    } else {
        let eq = |x: DeploymentRecordView| x.last_updated == ai;
        assert((|x: DeploymentRecordView| x.last_updated == aj) =~= eq);
        assert((|x: DeploymentRecordView| x.last_updated < aj) =~= (|x: DeploymentRecordView| x.last_updated < ai));
        lemma_filter_step(c, eq, i);
        lemma_filter_prefix(c, eq, i + 1, j);
    }
}

/// The ids of the completed records stored in `m`.
pub open spec fn completed_ids(m: Map<Seq<char>, DeploymentRecord>) -> Set<Seq<char>> {
    m.dom().filter(|k: Seq<char>| is_completed(m[k]@))
}

/// The records left after archiving at `now`.
pub open spec fn kept_after_archiving(s: FactoryState, now: u64) -> Map<Seq<char>, DeploymentRecord> {
    s.deployment_records@.remove_keys(archived_ids(completed_records(s.deployment_records), now))
}

/// Archiving keeps at most `MAX_COMPLETED_RECORDS` completed records, and
/// none last updated before the retention period: archiving again at the
/// same time finds nothing beyond the limit and nothing too old.
pub proof fn law_archiving_keeps_the_limit(s: FactoryState, now: u64)
    requires
        s.wf(),
        s.deployment_records.keys_distinct(),
    ensures
        completed_ids(kept_after_archiving(s, now)).finite(),
        completed_ids(kept_after_archiving(s, now)).len() <= MAX_COMPLETED_RECORDS,
        forall|k: Seq<char>| #[trigger] completed_ids(kept_after_archiving(s, now)).contains(k)
            ==> kept_after_archiving(s, now)[k].last_updated >= now.saturating_sub(RETENTION_PERIOD_NS),
{
    let t = s.deployment_records;
    let c = completed_records(t);
    let n = c.len();
    let e = excess_count(n);
    let kept = kept_after_archiving(s, now);
    let ids = completed_ids(kept);
    let x = Set::new(|i: int| 0 <= i < n && update_rank(c, i) >= e);
    let y = Set::new(|i: int| 0 <= i < n && !archivable(c, i, now));
    let rank = |i: int| update_rank(c, i) as int;
    let id_of = |i: int| c[i].deployment_id;
    lemma_int_range(0, n as int);
    assert(x.subset_of(set_int_range(0, n as int)));
    lemma_len_subset(x, set_int_range(0, n as int));
    assert(y.subset_of(x));
    lemma_len_subset(y, x);
    assert forall|i: int, j: int| #![trigger rank(i), rank(j)] x.contains(i) && x.contains(j) && rank(i) == rank(j)
        implies i == j by {
        if i < j {
            lemma_rank_injective(c, i, j);
        } else if j < i {
            lemma_rank_injective(c, j, i);
        }
    }
    lemma_map_size(x, x.map(rank), rank);
    lemma_int_range(e as int, n as int);
    assert forall|r: int| #[trigger] x.map(rank).contains(r) implies set_int_range(e as int, n as int).contains(r) by {
        let i = choose|i: int| x.contains(i) && rank(i) == r;
        if i + 1 < n {
            lemma_rank_injective(c, i, n - 1);
        } else if i > 0 {
            lemma_rank_injective(c, 0, i);
        } else {
            lemma_rank_below_le(c, i);
        }
    }
    lemma_len_subset(x.map(rank), set_int_range(e as int, n as int));
    lemma_map_size_bound(y, y.map(id_of), id_of);
    let te = t.entries();
    t.lemma_view_entries();
    lemma_key_sorted_contains(te);
    lemma_records_view(t@);
    let all = record_list(t);
    assert forall|k: Seq<char>| #[trigger] ids.contains(k) implies y.map(id_of).contains(k) && kept[k].last_updated
        >= now.saturating_sub(RETENTION_PERIOD_NS) by {
        let idx = entry_keys(te).index_of(k);
        assert(entry_keys(te).contains(k));
        assert(te[idx].0@ == k);
        lemma_index_of_unique(entry_keys(te), idx);
        assert(t@[k] == te[idx].1);
        assert(key_sorted(te).contains(te[idx]));
        let m = choose|m: int| 0 <= m < key_sorted(te).len() && key_sorted(te)[m] == te[idx];
        assert(all[m] == t@[k]@);
        all.lemma_filter_contains(|v: DeploymentRecordView| is_completed(v), m);
        let i = choose|i: int| 0 <= i < c.len() && c[i] == t@[k]@;
        assert(c[i].deployment_id == k);
        assert(!archived_ids(c, now).contains(k));
        if archivable(c, i, now) {
            assert(archived_ids(c, now).contains(k));
        }
        assert(y.contains(i));
    }
    assert(ids.subset_of(y.map(id_of)));
    lemma_len_subset(ids, y.map(id_of));
}

/// What a filter keeps comes from the sequence and meets the predicate.
proof fn lemma_filter_from<A>(s: Seq<A>, p: spec_fn(A) -> bool)
    ensures
        forall|x: A| #[trigger] s.filter(p).contains(x) ==> s.contains(x) && p(x),
    decreases s.len(),
{
    if s.len() > 0 {
        let r = s.drop_last();
        lemma_filter_from(r, p);
        assert(s =~= r.push(s.last()));
        r.lemma_filter_push(s.last(), p);
        assert forall|x: A| #[trigger] s.filter(p).contains(x) implies s.contains(x) && p(x) by {
            let i = choose|i: int| 0 <= i < s.filter(p).len() && s.filter(p)[i] == x;
            if p(s.last()) && i == s.filter(p).len() - 1 {
                assert(x == s.last());
                assert(s[s.len() - 1] == x);
            } else {
                assert(r.filter(p)[i] == x);
                assert(r.filter(p).contains(x));
                let j = choose|j: int| 0 <= j < r.len() && r[j] == x;
                assert(s[j] == x);
            }
        }
    }
}

/// Filtering records whose ids are distinct keeps their ids distinct.
proof fn lemma_filter_ids_distinct(v: Seq<DeploymentRecordView>, p: spec_fn(DeploymentRecordView) -> bool)
    requires
        v.map_values(|x: DeploymentRecordView| x.deployment_id).no_duplicates(),
    ensures
        v.filter(p).map_values(|x: DeploymentRecordView| x.deployment_id).no_duplicates(),
    decreases v.len(),
{
    let id = |x: DeploymentRecordView| x.deployment_id;
    if v.len() > 0 {
        let r = v.drop_last();
        let x = v.last();
        assert(r.map_values(id) =~= v.map_values(id).drop_last());
        assert forall|i: int, j: int| 0 <= i < j < r.len() implies r.map_values(id)[i] != r.map_values(id)[j] by {
            assert(v.map_values(id)[i] == r.map_values(id)[i]);
            assert(v.map_values(id)[j] == r.map_values(id)[j]);
        }
        lemma_filter_ids_distinct(r, p);
        assert(v =~= r.push(x));
        r.lemma_filter_push(x, p);
        if p(x) {
            let fr = r.filter(p);
            lemma_filter_from(r, p);
            assert(v.filter(p).map_values(id) =~= fr.map_values(id).push(x.deployment_id));
            assert forall|i: int| 0 <= i < fr.len() implies fr.map_values(id)[i] != x.deployment_id by {
                assert(fr.contains(fr[i]));
                let j = choose|j: int| 0 <= j < r.len() && r[j] == fr[i];
                assert(v.map_values(id)[j] == fr[i].deployment_id);
                assert(v.map_values(id)[v.len() - 1] == x.deployment_id);
            }
            vstd::seq_lib::lemma_no_dup_in_concat(fr.map_values(id), seq![x.deployment_id]);
            assert(fr.map_values(id).push(x.deployment_id) =~= fr.map_values(id) + seq![x.deployment_id]);
        }
    }
}

/// Archiving again at the same time, on the records the first archiving
/// kept, archives nothing.
pub proof fn law_second_archiving_removes_nothing(s: FactoryState, now: u64, t: FactoryState)
    requires
        s.wf(),
        s.deployment_records.keys_distinct(),
        t.wf(),
        t.deployment_records.keys_distinct(),
        t.deployment_records@ == kept_after_archiving(s, now),
    ensures
        archived_ids(completed_records(t.deployment_records), now) == Set::<Seq<char>>::empty(),
{
    law_archiving_keeps_the_limit(s, now);
    let kept = kept_after_archiving(s, now);
    let tt = t.deployment_records;
    let te = tt.entries();
    let st = key_sorted(te);
    let all = record_list(tt);
    let c = completed_records(tt);
    let id = |x: DeploymentRecordView| x.deployment_id;
    let cpred = |v: DeploymentRecordView| is_completed(v);
    tt.lemma_view_entries();
    lemma_key_sorted_contains(te);
    lemma_key_sorted_distinct(te);
    lemma_records_view(tt@);
    assert forall|m: int| 0 <= m < all.len() implies tt@.contains_key(st[m].0@) && #[trigger] all[m] == tt@[st[m].0@]@
        && all.map_values(id)[m] == entry_keys(st)[m] by {
        assert(st.contains(st[m]));
        let j = choose|j: int| 0 <= j < te.len() && te[j] == st[m];
        lemma_index_of_unique(entry_keys(te), j);
        assert(entry_keys(te)[j] == st[m].0@);
        assert(tt@.contains_key(st[m].0@));
        assert(tt@[st[m].0@] == te[j].1);
        assert(all[m] == st[m].1@);
        assert(tt@[st[m].0@].deployment_id@ == st[m].0@);
        assert(entry_keys(st)[m] == st[m].0@);
    }
    assert(all.map_values(id) =~= entry_keys(st));
    lemma_filter_ids_distinct(all, cpred);
    lemma_filter_from(all, cpred);
    let cids = c.map_values(id);
    cids.unique_seq_to_set();
    assert forall|k: Seq<char>| #[trigger] cids.to_set().contains(k) implies completed_ids(kept).contains(k) by {
        let i = choose|i: int| 0 <= i < cids.len() && cids[i] == k;
        assert(c.contains(c[i]));
        let m = choose|m: int| 0 <= m < all.len() && all[m] == c[i];
        assert(all[m] == tt@[st[m].0@]@);
        assert(all.map_values(id)[m] == entry_keys(st)[m]);
        assert(entry_keys(st)[m] == st[m].0@);
        assert(tt@.contains_key(st[m].0@));
        assert(is_completed(c[i]));
        assert(kept.dom().contains(k));
    }
    lemma_len_subset(cids.to_set(), completed_ids(kept));
    assert(excess_count(c.len()) == 0);
    assert forall|k: Seq<char>| !#[trigger] archived_ids(c, now).contains(k) by {
        if archived_ids(c, now).contains(k) {
            let i = choose|i: int| 0 <= i < c.len() && archivable(c, i, now) && #[trigger] c[i].deployment_id == k;
            assert(cids[i] == k);
            assert(cids.to_set().contains(k));
            assert(completed_ids(kept).contains(k));
            assert(c.contains(c[i]));
            let m = choose|m: int| 0 <= m < all.len() && all[m] == c[i];
            assert(all[m] == tt@[st[m].0@]@);
            assert(all.map_values(id)[m] == st[m].0@);
            assert(kept[k]@ == c[i]);
        }
    }
    assert(archived_ids(c, now) =~= Set::<Seq<char>>::empty());
}

} // verus!

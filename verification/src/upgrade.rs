use vstd::prelude::*;
use crate::principal::Principal;
use crate::state::{FactoryState, TransactionRecord, UserAccount};
use crate::table::{Table, TableKey, entries_map, entry_keys, lemma_index_of_unique};
use crate::types::StrategyMetadata;

verus! {

/// What the factory keeps across an upgrade besides its stable tables: the
/// owners' strategy lists, the admins, the counter and the fee, and the
/// contents of the tables of transactions, accounts and strategies.
pub struct UpgradeData {
    pub owner_strategies: Vec<(Principal, Vec<Principal>)>,
    pub admins: Vec<Principal>,
    pub deployment_id_counter: u64,
    pub deployment_fee: u64,
    pub transactions: Option<Vec<(String, TransactionRecord)>>,
    pub user_accounts: Option<Vec<(Principal, UserAccount)>>,
    pub strategies: Option<Vec<(Principal, StrategyMetadata)>>,
}

/// `m` after each pair is stored in turn.
pub open spec fn insert_all<K: View, V>(m: Map<K::V, V>, pairs: Seq<(K, V)>) -> Map<K::V, V>
    decreases pairs.len(),
{
    if pairs.len() == 0 {
        m
    } else {
        insert_all(m, pairs.drop_last()).insert(pairs.last().0@, pairs.last().1)
    }
}

/// The owners' lists, by view.
pub open spec fn owner_lists(m: Map<Seq<u8>, Vec<Principal>>) -> Map<Seq<u8>, Seq<Principal>> {
    m.map_values(|v: Vec<Principal>| v@)
}

/// The admins as the pairs their table stores.
pub open spec fn admin_pairs(v: Seq<Principal>) -> Seq<(Principal, ())> {
    v.map_values(|p: Principal| (p, ()))
}

/// `d` holds what `s` must keep across an upgrade, in the order of its
/// tables.
pub open spec fn captures(d: UpgradeData, s: FactoryState) -> bool {
    let os = s.owner_strategies.entries();
    &&& d.owner_strategies@.len() == os.len()
    &&& forall|i: int|
        0 <= i < os.len() ==> (#[trigger] d.owner_strategies@[i]).0 == os[i].0 && d.owner_strategies@[i].1@
            == os[i].1@
    &&& admin_pairs(d.admins@) == s.admins.entries()
    &&& d.deployment_id_counter == s.deployment_id_counter
    &&& d.deployment_fee == s.deployment_fee
    &&& d.transactions matches Some(v) && v@ == s.ledger.transactions.entries()
    &&& d.user_accounts matches Some(v) && v@ == s.ledger.accounts.entries()
    &&& d.strategies matches Some(v) && v@ == s.strategies.entries()
}

/// Every account is stored under its owner and every strategy under its
/// canister.
pub open spec fn consistent(d: UpgradeData) -> bool {
    &&& d.user_accounts matches Some(v) ==> forall|i: int|
        0 <= i < v@.len() ==> (#[trigger] v@[i]).1.owner@ == v@[i].0@
    &&& d.strategies matches Some(v) ==> forall|i: int|
        0 <= i < v@.len() ==> (#[trigger] v@[i]).1.canister_id@ == v@[i].0@
}

/// `new` is `old` with `d` restored: the owners' lists and the admins
/// replaced, the counter and fee set, and the transactions, accounts and
/// strategies of `d` stored over the tables' contents.
pub open spec fn restores(old: FactoryState, d: UpgradeData, new: FactoryState) -> bool {
    &&& new.owner_strategies@ == insert_all(Map::<Seq<u8>, Vec<Principal>>::empty(), d.owner_strategies@)
    &&& new.admins@ == insert_all(Map::<Seq<u8>, ()>::empty(), admin_pairs(d.admins@))
    &&& new.deployment_id_counter == d.deployment_id_counter
    &&& new.deployment_fee == d.deployment_fee
    &&& new.ledger.transactions@ == (match d.transactions {
        Some(v) => insert_all(old.ledger.transactions@, v@),
        None => old.ledger.transactions@,
    })
    &&& new.ledger.accounts@ == (match d.user_accounts {
        Some(v) => insert_all(old.ledger.accounts@, v@),
        None => old.ledger.accounts@,
    })
    &&& new.strategies@ == (match d.strategies {
        Some(v) => insert_all(old.strategies@, v@),
        None => old.strategies@,
    })
    &&& new.deployment_records == old.deployment_records
    &&& new.ledger.max_cache_size == old.ledger.max_cache_size
}

/// The records of the last `max` stored transactions, oldest first.
pub open spec fn latest_records(e: Seq<(String, TransactionRecord)>, max: nat) -> Seq<TransactionRecord> {
    let start = if e.len() > max { e.len() - max } else { 0 };
    e.subrange(start, e.len() as int).map_values(|p: (String, TransactionRecord)| p.1)
}

fn copy_transactions(t: &Table<String, TransactionRecord>) -> (r: Vec<(String, TransactionRecord)>)
    ensures
        r@ == t.entries(),
{
    let n = t.len();
    let mut out: Vec<(String, TransactionRecord)> = Vec::new();
    let mut i: usize = 0;
    while i < n
        invariant
            n == t.entries().len(),
            i <= n,
            out@ == t.entries().take(i as int),
        decreases n - i,
    {
        let (k, v) = t.entry_at(i);
        out.push((k.clone(), v.clone()));
        proof {
            assert(out@ =~= t.entries().take(i + 1));
        }
        i = i + 1;
    }
    proof {
        assert(t.entries().take(n as int) =~= t.entries());
    }
    out
}

fn copy_accounts(t: &Table<Principal, UserAccount>) -> (r: Vec<(Principal, UserAccount)>)
    ensures
        r@ == t.entries(),
{
    let n = t.len();
    let mut out: Vec<(Principal, UserAccount)> = Vec::new();
    let mut i: usize = 0;
    while i < n
        invariant
            n == t.entries().len(),
            i <= n,
            out@ == t.entries().take(i as int),
        decreases n - i,
    {
        let (k, v) = t.entry_at(i);
        out.push((*k, *v));
        proof {
            assert(out@ =~= t.entries().take(i + 1));
        }
        i = i + 1;
    }
    proof {
        assert(t.entries().take(n as int) =~= t.entries());
    }
    out
}

fn copy_strategies(t: &Table<Principal, StrategyMetadata>) -> (r: Vec<(Principal, StrategyMetadata)>)
    ensures
        r@ == t.entries(),
{
    let n = t.len();
    let mut out: Vec<(Principal, StrategyMetadata)> = Vec::new();
    let mut i: usize = 0;
    while i < n
        invariant
            n == t.entries().len(),
            i <= n,
            out@ == t.entries().take(i as int),
        decreases n - i,
    {
        let (k, v) = t.entry_at(i);
        out.push((*k, v.clone()));
        proof {
            assert(out@ =~= t.entries().take(i + 1));
        }
        i = i + 1;
    }
    proof {
        assert(t.entries().take(n as int) =~= t.entries());
    }
    out
}

fn store_all<K: TableKey, V>(t: &mut Table<K, V>, pairs: Vec<(K, V)>)
    ensures
        final(t)@ == insert_all(old(t)@, pairs@),
{
    let ghost all = pairs@;
    let n = pairs.len();
    let mut rest = pairs;
    let mut i: usize = 0;
    while rest.len() > 0
        invariant
            i <= all.len(),
            all.len() == n,
            rest@ == all.skip(i as int),
            t@ == insert_all(old(t)@, all.take(i as int)),
        decreases rest@.len(),
    {
        let (k, v) = rest.remove(0);
        proof {
            assert(all.take(i + 1).drop_last() =~= all.take(i as int));
            assert(all[i as int] == (k, v));
        }
        t.insert(k, v);
        proof {
            assert(rest@ =~= all.skip(i + 1));
        }
        i = i + 1;
    }
    proof {
        assert(all.take(i as int) =~= all);
    }
}

impl FactoryState {
    /// What the factory must keep across an upgrade.
    pub fn get_upgrade_data(&self) -> (r: UpgradeData)
        ensures
            captures(r, *self),
    {
        let n = self.owner_strategies.len();
        let mut owner_strategies: Vec<(Principal, Vec<Principal>)> = Vec::new();
        let mut i: usize = 0;
        while i < n
            invariant
                n == self.owner_strategies.entries().len(),
                i <= n,
                owner_strategies@.len() == i,
                forall|j: int|
                    0 <= j < i ==> (#[trigger] owner_strategies@[j]).0 == self.owner_strategies.entries()[j].0
                        && owner_strategies@[j].1@ == self.owner_strategies.entries()[j].1@,
            decreases n - i,
        {
            let (owner, list) = self.owner_strategies.entry_at(i);
            let mut copy: Vec<Principal> = Vec::new();
            let mut j: usize = 0;
            while j < list.len()
                invariant
                    j <= list@.len(),
                    copy@ == list@.take(j as int),
                decreases list@.len() - j,
            {
                copy.push(list[j]);
                proof {
                    assert(copy@ =~= list@.take(j + 1));
                }
                j = j + 1;
            }
            proof {
                assert(list@.take(list@.len() as int) =~= list@);
            }
            owner_strategies.push((*owner, copy));
            i = i + 1;
        }
        let m = self.admins.len();
        let mut admins: Vec<Principal> = Vec::new();
        let mut i: usize = 0;
        while i < m
            invariant
                m == self.admins.entries().len(),
                i <= m,
                admin_pairs(admins@) == self.admins.entries().take(i as int),
            decreases m - i,
        {
            let (p, _) = self.admins.entry_at(i);
            let ghost prev = admins@;
            admins.push(*p);
            proof {
                let e = self.admins.entries()[i as int];
                assert(e == (e.0, ()));
                assert(admin_pairs(admins@) =~= admin_pairs(prev).push((*p, ())));
                assert(self.admins.entries().take(i + 1) =~= self.admins.entries().take(i as int).push(e));
                assert(admin_pairs(admins@) =~= self.admins.entries().take(i + 1));
            }
            i = i + 1;
        }
        proof {
            assert(self.admins.entries().take(m as int) =~= self.admins.entries());
        }
        UpgradeData {
            owner_strategies,
            admins,
            deployment_id_counter: self.deployment_id_counter,
            deployment_fee: self.deployment_fee,
            transactions: Some(copy_transactions(&self.ledger.transactions)),
            user_accounts: Some(copy_accounts(&self.ledger.accounts)),
            strategies: Some(copy_strategies(&self.strategies)),
        }
    }

    /// Restores what was kept across an upgrade.
    pub fn restore_upgrade_data(&mut self, data: UpgradeData)
        requires
            old(self).wf(),
            consistent(data),
        ensures
            final(self).wf(),
            restores(*old(self), data, *final(self)),
            final(self).ledger.transaction_cache@ == old(self).ledger.transaction_cache@,
    {
        let ghost d = data;
        let mut owner_strategies: Table<Principal, Vec<Principal>> = Table::new();
        store_all(&mut owner_strategies, data.owner_strategies);
        self.owner_strategies = owner_strategies;
        let mut admin_list: Vec<(Principal, ())> = Vec::new();
        let mut i: usize = 0;
        while i < data.admins.len()
            invariant
                i <= d.admins@.len(),
                data.admins == d.admins,
                admin_list@ == admin_pairs(d.admins@).take(i as int),
            decreases d.admins@.len() - i,
        {
            admin_list.push((data.admins[i], ()));
            proof {
                assert(admin_list@ =~= admin_pairs(d.admins@).take(i + 1));
            }
            i = i + 1;
        }
        proof {
            assert(admin_pairs(d.admins@).take(d.admins@.len() as int) =~= admin_pairs(d.admins@));
        }
        let mut admins: Table<Principal, ()> = Table::new();
        store_all(&mut admins, admin_list);
        self.admins = admins;
        self.deployment_id_counter = data.deployment_id_counter;
        self.deployment_fee = data.deployment_fee;
        let ghost before = *self;
        if let Some(v) = data.transactions {
            store_all(&mut self.ledger.transactions, v);
        }
        if let Some(v) = data.user_accounts {
            let ghost pairs = v@;
            store_all(&mut self.ledger.accounts, v);
            proof {
                lemma_insert_all_keyed(before.ledger.accounts@, pairs);
            }
        }
        if let Some(v) = data.strategies {
            let ghost pairs = v@;
            store_all(&mut self.strategies, v);
            proof {
                lemma_insert_all_strategies(before.strategies@, pairs);
            }
        }
    }

    /// Takes what must be kept across an upgrade; the transaction cache is
    /// emptied, to be rebuilt after it.
    pub fn pre_upgrade(&mut self) -> (r: UpgradeData)
        ensures
            captures(r, *old(self)),
            final(self).ledger.transaction_cache@.len() == 0,
            final(self).ledger.accounts == old(self).ledger.accounts,
            final(self).ledger.transactions == old(self).ledger.transactions,
            final(self).ledger.max_cache_size == old(self).ledger.max_cache_size,
            final(self).deployment_records == old(self).deployment_records,
            final(self).strategies == old(self).strategies,
            final(self).owner_strategies == old(self).owner_strategies,
            final(self).admins == old(self).admins,
            final(self).deployment_fee == old(self).deployment_fee,
            final(self).deployment_id_counter == old(self).deployment_id_counter,
    {
        let data = self.get_upgrade_data();
        self.ledger.transaction_cache = Vec::new();
        data
    }

    /// Restores what was kept across an upgrade, and rebuilds the
    /// transaction cache from the stored transactions: the most recent ones,
    /// as many as the cache holds.
    pub fn post_upgrade(&mut self, data: UpgradeData)
        requires
            old(self).wf(),
            consistent(data),
        ensures
            final(self).wf(),
            restores(*old(self), data, *final(self)),
            final(self).ledger.transaction_cache@ == latest_records(
                final(self).ledger.transactions.entries(),
                final(self).ledger.max_cache_size as nat,
            ),
    {
        self.restore_upgrade_data(data);
        let n = self.ledger.transactions.len();
        let max = self.ledger.max_cache_size;
        let start = if n > max { n - max } else { 0 };
        let ghost e = self.ledger.transactions.entries();
        let mut cached: Vec<TransactionRecord> = Vec::new();
        let mut i: usize = start;
        while i < n
            invariant
                e == self.ledger.transactions.entries(),
                n == e.len(),
                start <= i <= n,
                cached@ == e.subrange(start as int, i as int).map_values(|p: (String, TransactionRecord)| p.1),
            decreases n - i,
        {
            let (_, v) = self.ledger.transactions.entry_at(i);
            cached.push(v.clone());
            proof {
                assert(e.subrange(start as int, i + 1) =~= e.subrange(start as int, i as int).push(e[i as int]));
                assert(cached@ =~= e.subrange(start as int, i + 1).map_values(|p: (String, TransactionRecord)| p.1));
            }
            i = i + 1;
        }
        self.ledger.transaction_cache = cached;
    }
}

proof fn lemma_insert_all_keyed(m: Map<Seq<u8>, UserAccount>, pairs: Seq<(Principal, UserAccount)>)
    requires
        forall|k: Seq<u8>| #[trigger] m.contains_key(k) ==> m[k].owner@ == k,
        forall|i: int| 0 <= i < pairs.len() ==> (#[trigger] pairs[i]).1.owner@ == pairs[i].0@,
    ensures
        forall|k: Seq<u8>| #[trigger] insert_all(m, pairs).contains_key(k) ==> insert_all(m, pairs)[k].owner@ == k,
    decreases pairs.len(),
{
    if pairs.len() > 0 {
        let p = pairs.drop_last();
        assert forall|i: int| 0 <= i < p.len() implies (#[trigger] p[i]).1.owner@ == p[i].0@ by {
            assert(p[i] == pairs[i]);
        }
        lemma_insert_all_keyed(m, p);
        assert(pairs.last() == pairs[pairs.len() - 1]);
        assert forall|k: Seq<u8>| #[trigger] insert_all(m, pairs).contains_key(k) implies insert_all(m, pairs)[k].owner@
            == k by {
            if k != pairs.last().0@ {
                assert(insert_all(m, p).contains_key(k));
            }
        }
    }
}

proof fn lemma_insert_all_strategies(m: Map<Seq<u8>, StrategyMetadata>, pairs: Seq<(Principal, StrategyMetadata)>)
    requires
        forall|k: Seq<u8>| #[trigger] m.contains_key(k) ==> m[k].canister_id@ == k,
        forall|i: int| 0 <= i < pairs.len() ==> (#[trigger] pairs[i]).1.canister_id@ == pairs[i].0@,
    ensures
        forall|k: Seq<u8>| #[trigger] insert_all(m, pairs).contains_key(k) ==> insert_all(m, pairs)[k].canister_id@
            == k,
    decreases pairs.len(),
{
    if pairs.len() > 0 {
        let p = pairs.drop_last();
        assert forall|i: int| 0 <= i < p.len() implies (#[trigger] p[i]).1.canister_id@ == p[i].0@ by {
            assert(p[i] == pairs[i]);
        }
        lemma_insert_all_strategies(m, p);
        assert(pairs.last() == pairs[pairs.len() - 1]);
        assert forall|k: Seq<u8>| #[trigger] insert_all(m, pairs).contains_key(k) implies insert_all(m, pairs)[k].canister_id@
            == k by {
            if k != pairs.last().0@ {
                assert(insert_all(m, p).contains_key(k));
            }
        }
    }
}

/// Storing one more entry whose key is new adds it to the map of the
/// entries.
proof fn lemma_entries_map_push<K: View, V>(s: Seq<(K, V)>, e: (K, V))
    requires
        entry_keys(s.push(e)).no_duplicates(),
    ensures
        entries_map(s.push(e)) == entries_map(s).insert(e.0@, e.1),
{
    let s2 = s.push(e);
    let ks = entry_keys(s);
    let ks2 = entry_keys(s2);
    assert(ks2 =~= ks.push(e.0@));
    assert(ks.no_duplicates()) by {
        assert forall|a: int, b: int| 0 <= a < ks.len() && 0 <= b < ks.len() && a != b implies ks[a] != ks[b] by {
            assert(ks[a] == ks2[a] && ks[b] == ks2[b]);
        }
    }
    assert(entries_map(s2) =~= entries_map(s).insert(e.0@, e.1)) by {
        assert forall|k: K::V| #[trigger] entries_map(s2).contains_key(k) implies entries_map(s2)[k] == entries_map(
            s,
        ).insert(e.0@, e.1)[k] by {
            let i = ks2.index_of(k);
            assert(ks2[i] == k);
            lemma_index_of_unique(ks2, i);
            if i < s.len() {
                assert(ks[i] == k);
                lemma_index_of_unique(ks, i);
                if k == e.0@ {
                    lemma_index_of_unique(ks2, s.len() as int);
                }
            }
        }
        assert forall|k: K::V| entries_map(s).insert(e.0@, e.1).contains_key(k) implies #[trigger] entries_map(
            s2,
        ).contains_key(k) by {
            if k == e.0@ {
                assert(ks2[s.len() as int] == k);
            } else {
                let j = ks.index_of(k);
                assert(ks2[j] == k);
            }
        }
    }
}

/// Storing pairs with distinct keys in turn stores the map of the pairs
/// over the map.
proof fn lemma_insert_all_union<K: View, V>(m: Map<K::V, V>, pairs: Seq<(K, V)>)
    requires
        entry_keys(pairs).no_duplicates(),
    ensures
        insert_all(m, pairs) == m.union_prefer_right(entries_map(pairs)),
    decreases pairs.len(),
{
    if pairs.len() == 0 {
        assert(entries_map(pairs) =~= Map::<K::V, V>::empty());
        assert(m.union_prefer_right(entries_map(pairs)) =~= m);
    } else {
        let p = pairs.drop_last();
        let e = pairs.last();
        assert(p.push(e) =~= pairs);
        let ks = entry_keys(pairs);
        assert(entry_keys(p).no_duplicates()) by {
            let kp = entry_keys(p);
            assert forall|a: int, b: int| 0 <= a < kp.len() && 0 <= b < kp.len() && a != b implies kp[a] != kp[b] by {
                assert(kp[a] == ks[a] && kp[b] == ks[b]);
            }
        }
        lemma_insert_all_union(m, p);
        lemma_entries_map_push(p, e);
        assert(m.union_prefer_right(entries_map(p)).insert(e.0@, e.1) =~= m.union_prefer_right(
            entries_map(p).insert(e.0@, e.1),
        ));
    }
}

/// Two sequences of pairs with the same keys, in order, and values with the
/// same views map each key to values with the same view.
proof fn lemma_entries_map_views(a: Seq<(Principal, Vec<Principal>)>, b: Seq<(Principal, Vec<Principal>)>)
    requires
        a.len() == b.len(),
        forall|i: int| 0 <= i < a.len() ==> (#[trigger] a[i]).0 == b[i].0 && a[i].1@ == b[i].1@,
        entry_keys(a).no_duplicates(),
    ensures
        owner_lists(entries_map(a)) == owner_lists(entries_map(b)),
{
    let ka = entry_keys(a);
    let kb = entry_keys(b);
    assert(ka =~= kb) by {
        assert forall|i: int| 0 <= i < ka.len() implies ka[i] == kb[i] by {
            assert(a[i].0 == b[i].0);
        }
    }
    assert(owner_lists(entries_map(a)) =~= owner_lists(entries_map(b))) by {
        assert forall|k: Seq<u8>| #[trigger] owner_lists(entries_map(a)).contains_key(k) implies owner_lists(
            entries_map(a),
        )[k] == owner_lists(entries_map(b))[k] by {
            let i = ka.index_of(k);
            assert(ka[i] == k);
            assert(a[i].1@ == b[i].1@);
        }
    }
}

impl FactoryState {
    /// The state's tables hold no two entries with the same key.
    pub open spec fn tables_valid(self) -> bool {
        &&& self.owner_strategies.keys_distinct()
        &&& self.admins.keys_distinct()
        &&& self.strategies.keys_distinct()
        &&& self.ledger.accounts.keys_distinct()
        &&& self.ledger.transactions.keys_distinct()
    }
}

/// The state an upgrade leaves of `s`: its stable tables (deployment
/// records, strategies, accounts and transactions), with the owners' lists
/// and the admins empty.
pub open spec fn upgraded(s: FactoryState, t: FactoryState) -> bool {
    &&& t.deployment_records == s.deployment_records
    &&& t.strategies@ == s.strategies@
    &&& t.ledger.accounts@ == s.ledger.accounts@
    &&& t.ledger.transactions@ == s.ledger.transactions@
    &&& t.owner_strategies@ == Map::<Seq<u8>, Vec<Principal>>::empty()
    &&& t.admins@ == Map::<Seq<u8>, ()>::empty()
}

/// The factory's state survives an upgrade: the data taken from `s`
/// before the upgrade, restored into the state the upgrade leaves, gives
/// back `s`'s owners' strategy lists, admins, counter, fee, accounts,
/// transactions, strategies and deployment records.
pub proof fn law_upgrade_preserves_state(s: FactoryState, d: UpgradeData, t: FactoryState, after: FactoryState)
    requires
        s.tables_valid(),
        captures(d, s),
        upgraded(s, t),
        restores(t, d, after),
    ensures
        owner_lists(after.owner_strategies@) == owner_lists(s.owner_strategies@),
        after.admins@ == s.admins@,
        after.deployment_id_counter == s.deployment_id_counter,
        after.deployment_fee == s.deployment_fee,
        after.ledger.accounts@ == s.ledger.accounts@,
        after.ledger.transactions@ == s.ledger.transactions@,
        after.strategies@ == s.strategies@,
        after.deployment_records == s.deployment_records,
{
    s.owner_strategies.lemma_view_entries();
    s.admins.lemma_view_entries();
    s.strategies.lemma_view_entries();
    s.ledger.accounts.lemma_view_entries();
    s.ledger.transactions.lemma_view_entries();
    let os = s.owner_strategies.entries();
    let dos = d.owner_strategies@;
    assert(entry_keys(dos) =~= entry_keys(os)) by {
        assert forall|i: int| 0 <= i < dos.len() implies entry_keys(dos)[i] == entry_keys(os)[i] by {
            assert(dos[i].0 == os[i].0);
        }
    }
    lemma_insert_all_union(Map::<Seq<u8>, Vec<Principal>>::empty(), dos);
    assert(Map::<Seq<u8>, Vec<Principal>>::empty().union_prefer_right(entries_map(dos)) =~= entries_map(dos));
    lemma_entries_map_views(dos, os);
    let ae = s.admins.entries();
    lemma_insert_all_union(Map::<Seq<u8>, ()>::empty(), ae);
    assert(Map::<Seq<u8>, ()>::empty().union_prefer_right(entries_map(ae)) =~= entries_map(ae));
    let acc = s.ledger.accounts.entries();
    lemma_insert_all_union(s.ledger.accounts@, acc);
    assert(s.ledger.accounts@.union_prefer_right(entries_map(acc)) =~= s.ledger.accounts@);
    let tx = s.ledger.transactions.entries();
    lemma_insert_all_union(s.ledger.transactions@, tx);
    assert(s.ledger.transactions@.union_prefer_right(entries_map(tx)) =~= s.ledger.transactions@);
    let st = s.strategies.entries();
    lemma_insert_all_union(s.strategies@, st);
    assert(s.strategies@.union_prefer_right(entries_map(st)) =~= s.strategies@);
}

/// The data taken from a state, restored into a fresh state whose tables
/// are empty, gives back that state's owners' strategy lists, admins,
/// counter, fee, accounts, transactions and strategies.
pub proof fn law_restore_into_fresh_state(s: FactoryState, d: UpgradeData, fresh: FactoryState, after: FactoryState)
    requires
        s.tables_valid(),
        captures(d, s),
        fresh.ledger.accounts@ == Map::<Seq<u8>, UserAccount>::empty(),
        fresh.ledger.transactions@ == Map::<Seq<char>, TransactionRecord>::empty(),
        fresh.strategies@ == Map::<Seq<u8>, StrategyMetadata>::empty(),
        restores(fresh, d, after),
    ensures
        owner_lists(after.owner_strategies@) == owner_lists(s.owner_strategies@),
        after.admins@ == s.admins@,
        after.deployment_id_counter == s.deployment_id_counter,
        after.deployment_fee == s.deployment_fee,
        after.ledger.accounts@ == s.ledger.accounts@,
        after.ledger.transactions@ == s.ledger.transactions@,
        after.strategies@ == s.strategies@,
{
    s.owner_strategies.lemma_view_entries();
    s.admins.lemma_view_entries();
    s.strategies.lemma_view_entries();
    s.ledger.accounts.lemma_view_entries();
    s.ledger.transactions.lemma_view_entries();
    let os = s.owner_strategies.entries();
    let dos = d.owner_strategies@;
    assert(entry_keys(dos) =~= entry_keys(os)) by {
        assert forall|i: int| 0 <= i < dos.len() implies entry_keys(dos)[i] == entry_keys(os)[i] by {
            assert(dos[i].0 == os[i].0);
        }
    }
    lemma_insert_all_union(Map::<Seq<u8>, Vec<Principal>>::empty(), dos);
    assert(Map::<Seq<u8>, Vec<Principal>>::empty().union_prefer_right(entries_map(dos)) =~= entries_map(dos));
    lemma_entries_map_views(dos, os);
    let ae = s.admins.entries();
    lemma_insert_all_union(Map::<Seq<u8>, ()>::empty(), ae);
    assert(Map::<Seq<u8>, ()>::empty().union_prefer_right(entries_map(ae)) =~= entries_map(ae));
    let acc = s.ledger.accounts.entries();
    lemma_insert_all_union(Map::<Seq<u8>, UserAccount>::empty(), acc);
    assert(Map::<Seq<u8>, UserAccount>::empty().union_prefer_right(entries_map(acc)) =~= entries_map(acc));
    let tx = s.ledger.transactions.entries();
    lemma_insert_all_union(Map::<Seq<char>, TransactionRecord>::empty(), tx);
    assert(Map::<Seq<char>, TransactionRecord>::empty().union_prefer_right(entries_map(tx)) =~= entries_map(tx));
    let st = s.strategies.entries();
    lemma_insert_all_union(Map::<Seq<u8>, StrategyMetadata>::empty(), st);
    assert(Map::<Seq<u8>, StrategyMetadata>::empty().union_prefer_right(entries_map(st)) =~= entries_map(st));
}

/// Whether `r` is stored in `m` under some key.
pub open spec fn is_stored(m: Map<Seq<char>, TransactionRecord>, r: TransactionRecord) -> bool {
    exists|k: Seq<char>| #[trigger] m.contains_key(k) && m[k] == r
}

/// Across an upgrade, `pre_upgrade` then `post_upgrade`: the data taken
/// from `s` and restored into the state the upgrade leaves gives back `s`'s
/// state (as `law_upgrade_preserves_state` states), and the rebuilt
/// transaction history holds `s`'s stored transactions, as many of them as
/// the cache holds.
pub proof fn law_upgrade_rebuilds_history(s: FactoryState, d: UpgradeData, t: FactoryState, after: FactoryState)
    requires
        s.tables_valid(),
        after.tables_valid(),
        captures(d, s),
        upgraded(s, t),
        restores(t, d, after),
        after.ledger.transaction_cache@ == latest_records(
            after.ledger.transactions.entries(),
            after.ledger.max_cache_size as nat,
        ),
    ensures
        after.ledger.transactions@ == s.ledger.transactions@,
        after.ledger.transaction_cache@.len() == (if s.ledger.transactions@.dom().len()
            > after.ledger.max_cache_size {
            after.ledger.max_cache_size as nat
        } else {
            s.ledger.transactions@.dom().len()
        }),
        forall|i: int|
            0 <= i < after.ledger.transaction_cache@.len() ==> is_stored(
                s.ledger.transactions@,
                #[trigger] after.ledger.transaction_cache@[i],
            ),
{
    law_upgrade_preserves_state(s, d, t, after);
    let e = after.ledger.transactions.entries();
    let max = after.ledger.max_cache_size as nat;
    let start = if e.len() > max { e.len() - max } else { 0 };
    after.ledger.transactions.lemma_view_entries();
    after.ledger.transactions.lemma_entries();
    assert forall|i: int| 0 <= i < after.ledger.transaction_cache@.len() implies is_stored(
        s.ledger.transactions@,
        #[trigger] after.ledger.transaction_cache@[i],
    ) by {
        let j = start + i;
        let k = e[j].0@;
        lemma_index_of_unique(entry_keys(e), j);
        assert(entry_keys(e)[j] == k);
        assert(after.ledger.transactions@.contains_key(k));
        assert(after.ledger.transactions@[k] == e[j].1);
        assert(after.ledger.transaction_cache@[i] == e[j].1);
        assert(s.ledger.transactions@.contains_key(k));
        assert(s.ledger.transactions@[k] == after.ledger.transaction_cache@[i]);
    }
}

} // verus!

use vstd::prelude::*;
use vstd::utf8::encode_utf8;
use crate::principal::Principal;
use crate::table::{Table, TableKey, entry_keys};

verus! {

/// The low `k` bytes of `n`, least significant first.
pub open spec fn le_bytes(n: nat, k: nat) -> Seq<u8>
    decreases k,
{
    if k == 0 {
        Seq::empty()
    } else {
        seq![(n % 256) as u8] + le_bytes(n / 256, (k - 1) as nat)
    }
}

/// A byte string framed as the factory's stable maps store their keys: its
/// length as eight little-endian bytes, then its bytes.
pub open spec fn framed(bytes: Seq<u8>) -> Seq<u8> {
    le_bytes(bytes.len(), 8) + bytes
}

/// Whether `a` comes before `b` in lexicographic byte order, looking from
/// position `i` on (the bytes before it being equal).
pub open spec fn bytes_less_from(a: Seq<u8>, b: Seq<u8>, i: int) -> bool
    decreases a.len() - i,
{
    if i < 0 || i >= a.len() {
        0 <= i < b.len()
    } else if i >= b.len() {
        false
    } else if a[i] != b[i] {
        a[i] < b[i]
    } else {
        bytes_less_from(a, b, i + 1)
    }
}

/// Whether `a` comes before `b` in lexicographic byte order: `a` is a
/// proper prefix of `b`, or has the smaller byte where they first differ.
pub open spec fn bytes_less(a: Seq<u8>, b: Seq<u8>) -> bool {
    bytes_less_from(a, b, 0)
}

/// Whether `a` comes before `b` in lexicographic byte order.
pub fn bytes_less_exec(a: &Vec<u8>, b: &Vec<u8>) -> (r: bool)
    ensures
        r == bytes_less(a@, b@),
{
    let mut i: usize = 0;
    while i < a.len() && i < b.len()
        invariant
            i <= a@.len(),
            i <= b@.len(),
            bytes_less(a@, b@) == bytes_less_from(a@, b@, i as int),
        decreases a@.len() - i,
    {
        if a[i] != b[i] {
            return a[i] < b[i];
        }
        i = i + 1;
    }
    i < b.len()
}

/// A key of a stable map, ordered as the map orders it: by its stored
/// bytes.
pub trait StoredKey: TableKey {
    /// The bytes under which the key is stored.
    spec fn stored_key(&self) -> Seq<u8>;

    /// The bytes under which the key is stored.
    fn stored_key_bytes(&self) -> (r: Vec<u8>)
        ensures
            r@ == self.stored_key(),
    ;
}

/// `bytes` framed by its length.
fn frame(bytes: &[u8]) -> (r: Vec<u8>)
    ensures
        r@ == framed(bytes@),
{
    let mut out: Vec<u8> = Vec::new();
    let mut n: u64 = bytes.len() as u64;
    let mut k: usize = 0;
    while k < 8
        invariant
            k <= 8,
            bytes@.len() <= u64::MAX,
            out@ + le_bytes(n as nat, (8 - k) as nat) == le_bytes(bytes@.len(), 8),
        decreases 8 - k,
    {
        proof {
            assert(le_bytes(n as nat, (8 - k) as nat) =~= seq![(n % 256) as u8] + le_bytes(n as nat / 256, (
            8 - k - 1) as nat));
        }
        out.push((n % 256) as u8);
        n = n / 256;
        k = k + 1;
    }
    proof {
        assert(le_bytes(n as nat, 0) =~= Seq::<u8>::empty());
        assert(out@ =~= le_bytes(bytes@.len(), 8));
    }
    let mut i: usize = 0;
    while i < bytes.len()
        invariant
            i <= bytes@.len(),
            out@ == le_bytes(bytes@.len(), 8) + bytes@.take(i as int),
        decreases bytes@.len() - i,
    {
        out.push(bytes[i]);
        proof {
            assert(bytes@.take(i + 1) =~= bytes@.take(i as int).push(bytes@[i as int]));
        }
        i = i + 1;
    }
    proof {
        assert(bytes@.take(bytes@.len() as int) =~= bytes@);
    }
    out
}

impl StoredKey for String {
    /// A text is stored as its UTF-8 bytes, framed by their length.
    open spec fn stored_key(&self) -> Seq<u8> {
        framed(encode_utf8(self@))
    }

    fn stored_key_bytes(&self) -> (r: Vec<u8>) {
        frame(self.as_str().as_bytes())
    }
}

impl StoredKey for Principal {
    /// A principal is stored as its bytes, framed by their length.
    open spec fn stored_key(&self) -> Seq<u8> {
        framed(self@)
    }

    fn stored_key_bytes(&self) -> (r: Vec<u8>) {
        let bytes = self.as_slice();
        frame(bytes.as_slice())
    }
}

/// `s`, sorted by stored key, with `e` put before the first entry whose key
/// comes after its own.
pub open spec fn insert_by_key<K: StoredKey, V>(s: Seq<(K, V)>, e: (K, V)) -> Seq<(K, V)>
    decreases s.len(),
{
    if s.len() == 0 {
        seq![e]
    } else if bytes_less(e.0.stored_key(), s[0].0.stored_key()) {
        seq![e] + s
    } else {
        seq![s[0]] + insert_by_key(s.drop_first(), e)
    }
}

/// The entries in the order of their stored keys, as a stable map walks
/// them; entries whose keys compare equal keep their order.
pub open spec fn key_sorted<K: StoredKey, V>(s: Seq<(K, V)>) -> Seq<(K, V)>
    decreases s.len(),
{
    if s.len() == 0 {
        s
    } else {
        insert_by_key(key_sorted(s.drop_last()), s.last())
    }
}

/// Putting `e` in place goes in before the first entry at or after `p`
/// whose key comes after its own, when none before `p` does.
proof fn lemma_insert_by_key_at<K: StoredKey, V>(s: Seq<(K, V)>, e: (K, V), p: int)
    requires
        0 <= p <= s.len(),
        forall|j: int| 0 <= j < p ==> !bytes_less(e.0.stored_key(), #[trigger] s[j].0.stored_key()),
        p < s.len() ==> bytes_less(e.0.stored_key(), s[p].0.stored_key()),
    ensures
        insert_by_key(s, e) == s.take(p).push(e) + s.skip(p),
    decreases s.len(),
{
    if s.len() == 0 {
        assert(s.take(p).push(e) + s.skip(p) =~= seq![e]);
    } else if p == 0 {
        assert(s.take(p).push(e) + s.skip(p) =~= seq![e] + s);
    } else {
        let t = s.drop_first();
        assert forall|j: int| 0 <= j < p - 1 implies !bytes_less(e.0.stored_key(), #[trigger] t[j].0.stored_key()) by {
            assert(t[j] == s[j + 1]);
        }
        if p < s.len() {
            assert(t[p - 1] == s[p]);
        }
        lemma_insert_by_key_at(t, e, p - 1);
        assert(seq![s[0]] + (t.take(p - 1).push(e) + t.skip(p - 1)) =~= s.take(p).push(e) + s.skip(p));
    }
}

/// Putting an entry in place keeps the others and adds it.
pub proof fn lemma_insert_by_key_contains<K: StoredKey, V>(s: Seq<(K, V)>, e: (K, V))
    ensures
        insert_by_key(s, e).len() == s.len() + 1,
        forall|x: (K, V)| #[trigger] insert_by_key(s, e).contains(x) <==> (s.contains(x) || x == e),
    decreases s.len(),
{
    let r = insert_by_key(s, e);
    if s.len() == 0 {
        assert(r =~= seq![e]);
        assert forall|x: (K, V)| #[trigger] r.contains(x) <==> (s.contains(x) || x == e) by {
            if r.contains(x) {
                let i = choose|i: int| 0 <= i < r.len() && r[i] == x;
                assert(r[i] == e);
            }
            if x == e {
                assert(r[0] == e);
            }
        }
    } else if bytes_less(e.0.stored_key(), s[0].0.stored_key()) {
        assert(r =~= seq![e] + s);
        assert forall|x: (K, V)| #[trigger] r.contains(x) <==> (s.contains(x) || x == e) by {
            if r.contains(x) {
                let i = choose|i: int| 0 <= i < r.len() && r[i] == x;
                if i > 0 {
                    assert(s[i - 1] == x);
                }
            }
            if s.contains(x) {
                let j = choose|j: int| 0 <= j < s.len() && s[j] == x;
                assert(r[j + 1] == x);
            }
            if x == e {
                assert(r[0] == e);
            }
        }
    } else {
        let t = s.drop_first();
        lemma_insert_by_key_contains(t, e);
        let ri = insert_by_key(t, e);
        assert(r =~= seq![s[0]] + ri);
        assert(s =~= seq![s[0]] + t);
        assert forall|x: (K, V)| #[trigger] r.contains(x) <==> (s.contains(x) || x == e) by {
            if r.contains(x) {
                let i = choose|i: int| 0 <= i < r.len() && r[i] == x;
                if i > 0 {
                    assert(ri[i - 1] == x);
                    assert(ri.contains(x));
                    if t.contains(x) {
                        let j = choose|j: int| 0 <= j < t.len() && t[j] == x;
                        assert(s[j + 1] == x);
                    }
                } else {
                    assert(s[0] == x);
                }
            }
            if s.contains(x) {
                let j = choose|j: int| 0 <= j < s.len() && s[j] == x;
                if j > 0 {
                    assert(t[j - 1] == x);
                    assert(t.contains(x));
                    assert(ri.contains(x));
                    let k = choose|k: int| 0 <= k < ri.len() && ri[k] == x;
                    assert(r[k + 1] == x);
                } else {
                    assert(r[0] == x);
                }
            }
            if x == e {
                assert(ri.contains(e));
                let k = choose|k: int| 0 <= k < ri.len() && ri[k] == e;
                assert(r[k + 1] == e);
            }
        }
    }
}

/// Sorting by key keeps exactly the entries there were.
pub proof fn lemma_key_sorted_contains<K: StoredKey, V>(s: Seq<(K, V)>)
    ensures
        key_sorted(s).len() == s.len(),
        forall|x: (K, V)| #[trigger] key_sorted(s).contains(x) <==> s.contains(x),
    decreases s.len(),
{
    if s.len() > 0 {
        let t = s.drop_last();
        lemma_key_sorted_contains(t);
        lemma_insert_by_key_contains(key_sorted(t), s.last());
        assert forall|x: (K, V)| #[trigger] key_sorted(s).contains(x) <==> s.contains(x) by {
            if t.contains(x) {
                let j = choose|j: int| 0 <= j < t.len() && t[j] == x;
                assert(s[j] == x);
            }
            if s.contains(x) {
                let j = choose|j: int| 0 <= j < s.len() && s[j] == x;
                if j < s.len() - 1 {
                    assert(t[j] == x);
                    assert(t.contains(x));
                }
            }
        }
    }
}

/// Putting in place an entry whose key is new keeps the keys distinct.
proof fn lemma_insert_by_key_distinct<K: StoredKey, V>(s: Seq<(K, V)>, e: (K, V))
    requires
        entry_keys(s).no_duplicates(),
        !entry_keys(s).contains(e.0@),
    ensures
        entry_keys(insert_by_key(s, e)).no_duplicates(),
    decreases s.len(),
{
    let r = insert_by_key(s, e);
    lemma_insert_by_key_contains(s, e);
    if s.len() == 0 {
        assert(entry_keys(r) =~= seq![e.0@]);
    } else if bytes_less(e.0.stored_key(), s[0].0.stored_key()) {
        assert(r =~= seq![e] + s);
        assert(entry_keys(r) =~= seq![e.0@] + entry_keys(s));
        vstd::seq_lib::lemma_no_dup_in_concat(seq![e.0@], entry_keys(s));
    } else {
        let t = s.drop_first();
        assert(entry_keys(t) =~= entry_keys(s).drop_first());
        assert forall|i: int, j: int| 0 <= i < j < entry_keys(t).len() implies entry_keys(t)[i] != entry_keys(t)[j] by {
            assert(entry_keys(t)[i] == entry_keys(s)[i + 1]);
            assert(entry_keys(t)[j] == entry_keys(s)[j + 1]);
        }
        if entry_keys(t).contains(e.0@) {
            let j = choose|j: int| 0 <= j < entry_keys(t).len() && entry_keys(t)[j] == e.0@;
            assert(entry_keys(s)[j + 1] == e.0@);
        }
        lemma_insert_by_key_distinct(t, e);
        lemma_insert_by_key_contains(t, e);
        let ri = insert_by_key(t, e);
        assert(r =~= seq![s[0]] + ri);
        assert(entry_keys(r) =~= seq![s[0].0@] + entry_keys(ri));
        assert forall|i: int, j: int| 0 <= i < 1 && 0 <= j < entry_keys(ri).len() implies seq![s[0].0@][i]
            != entry_keys(ri)[j] by {
            let y = ri[j];
            assert(ri.contains(y));
            if t.contains(y) {
                let m = choose|m: int| 0 <= m < t.len() && t[m] == y;
                assert(entry_keys(s)[m + 1] == y.0@);
                assert(entry_keys(s)[0] == s[0].0@);
            } else {
                assert(y == e);
                assert(entry_keys(s)[0] == s[0].0@);
            }
        }
        vstd::seq_lib::lemma_no_dup_in_concat(seq![s[0].0@], entry_keys(ri));
    }
}

/// Sorting entries with distinct keys keeps their keys distinct.
pub proof fn lemma_key_sorted_distinct<K: StoredKey, V>(s: Seq<(K, V)>)
    requires
        entry_keys(s).no_duplicates(),
    ensures
        entry_keys(key_sorted(s)).no_duplicates(),
    decreases s.len(),
{
    if s.len() > 0 {
        let t = s.drop_last();
        assert(entry_keys(t) =~= entry_keys(s).drop_last());
        assert forall|i: int, j: int| 0 <= i < j < entry_keys(t).len() implies entry_keys(t)[i] != entry_keys(t)[j] by {
            assert(entry_keys(t)[i] == entry_keys(s)[i]);
            assert(entry_keys(t)[j] == entry_keys(s)[j]);
        }
        lemma_key_sorted_distinct(t);
        lemma_key_sorted_contains(t);
        let st = key_sorted(t);
        if entry_keys(st).contains(s.last().0@) {
            let j = choose|j: int| 0 <= j < entry_keys(st).len() && entry_keys(st)[j] == s.last().0@;
            assert(st.contains(st[j]));
            assert(t.contains(st[j]));
            let m = choose|m: int| 0 <= m < t.len() && t[m] == st[j];
            assert(entry_keys(s)[m] == s.last().0@);
            assert(entry_keys(s)[s.len() - 1] == s.last().0@);
        }
        lemma_insert_by_key_distinct(st, s.last());
    }
}

/// The entries of `t` as the positions at which they stand, listed in the
/// order of their stored keys.
pub fn key_order<K: StoredKey, V>(t: &Table<K, V>) -> (r: Vec<usize>)
    ensures
        r@.len() == t.entries().len(),
        forall|j: int| 0 <= j < r@.len() ==> #[trigger] r@[j] < t.entries().len(),
        r@.map_values(|i: usize| t.entries()[i as int]) == key_sorted(t.entries()),
{
    let n = t.len();
    let ghost e = t.entries();
    let mut keys: Vec<Vec<u8>> = Vec::new();
    let mut i: usize = 0;
    while i < n
        invariant
            n == e.len(),
            e == t.entries(),
            i <= n,
            keys@.len() == i,
            forall|j: int| 0 <= j < i ==> (#[trigger] keys@[j])@ == e[j].0.stored_key(),
        decreases n - i,
    {
        let (k, _) = t.entry_at(i);
        keys.push(k.stored_key_bytes());
        i = i + 1;
    }
    let mut order: Vec<usize> = Vec::new();
    let mut i: usize = 0;
    while i < n
        invariant
            n == e.len(),
            e == t.entries(),
            i <= n,
            keys@.len() == n,
            forall|j: int| 0 <= j < n ==> (#[trigger] keys@[j])@ == e[j].0.stored_key(),
            order@.len() == i,
            forall|j: int| 0 <= j < order@.len() ==> #[trigger] order@[j] < i,
            order@.map_values(|x: usize| e[x as int]) == key_sorted(e.take(i as int)),
        decreases n - i,
    {
        let ghost mapped = order@.map_values(|x: usize| e[x as int]);
        let mut p: usize = 0;
        while p < order.len() && !bytes_less_exec(&keys[i], &keys[order[p]])
            invariant
                p <= order@.len(),
                i < n,
                keys@.len() == n,
                forall|j: int| 0 <= j < n ==> (#[trigger] keys@[j])@ == e[j].0.stored_key(),
                forall|j: int| 0 <= j < order@.len() ==> #[trigger] order@[j] < i,
                mapped == order@.map_values(|x: usize| e[x as int]),
                forall|j: int| 0 <= j < p ==> !bytes_less(e[i as int].0.stored_key(), #[trigger] mapped[j].0.stored_key()),
            decreases order@.len() - p,
        {
            p = p + 1;
        }
        proof {
            if p < order@.len() {
                assert(mapped[p as int] == e[order@[p as int] as int]);
            }
            lemma_insert_by_key_at(mapped, e[i as int], p as int);
            assert(e.take(i + 1).drop_last() =~= e.take(i as int));
            assert(e.take(i + 1).last() == e[i as int]);
        }
        let ghost before = order@;
        order.insert(p, i);
        proof {
            assert(order@.map_values(|x: usize| e[x as int]) =~= mapped.take(p as int).push(e[i as int]) + mapped.skip(
                p as int,
            ));
            assert forall|j: int| 0 <= j < order@.len() implies #[trigger] order@[j] < i + 1 by {
                if j < p {
                    assert(order@[j] == before[j]);
                } else if j > p {
                    assert(order@[j] == before[j - 1]);
                }
            }
        }
        i = i + 1;
    }
    proof {
        assert(e.take(n as int) =~= e);
    }
    order
}

} // verus!

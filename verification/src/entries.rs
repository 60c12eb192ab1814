//! Small maps from `u32` keys to values, held as vectors of pairs in
//! ascending key order: a lookup finds a key's value and an upsert adds or
//! replaces one, and walking the vector visits the keys in ascending order.
use vstd::prelude::*;

verus! {

/// The keys ascend strictly.
pub open spec fn keys_sorted<V>(s: Seq<(u32, V)>) -> bool {
    forall|i: int, j: int| 0 <= i < j < s.len() ==> s[i].0 < s[j].0
}

/// `k` is one of the keys.
pub open spec fn has_key<V>(s: Seq<(u32, V)>, k: u32) -> bool {
    exists|i: int| 0 <= i < s.len() && s[i].0 == k
}

/// The value stored under `k`.
pub open spec fn lookup<V>(s: Seq<(u32, V)>, k: u32) -> Option<V> {
    if has_key(s, k) {
        Some(s[choose|i: int| 0 <= i < s.len() && s[i].0 == k].1)
    } else {
        None
    }
}

/// `p` is where `k` belongs among keys that do not hold it.
pub open spec fn is_gap<V>(s: Seq<(u32, V)>, k: u32, p: int) -> bool {
    &&& 0 <= p <= s.len()
    &&& forall|j: int| 0 <= j < p ==> s[j].0 < k
    &&& forall|j: int| p <= j < s.len() ==> s[j].0 > k
}

/// `s` with `v` stored under `k`: replacing what was there, or inserted
/// where `k` belongs.
pub open spec fn upsert<V>(s: Seq<(u32, V)>, k: u32, v: V) -> Seq<(u32, V)> {
    if has_key(s, k) {
        s.update(choose|i: int| 0 <= i < s.len() && s[i].0 == k, (k, v))
    } else {
        s.insert(choose|p: int| is_gap(s, k, p), (k, v))
    }
}

/// The view of each stored value.
pub open spec fn entries_view<T: View>(s: Seq<(u32, T)>) -> Seq<(u32, T::V)> {
    s.map_values(|e: (u32, T)| (e.0, e.1@))
}

/// When `k` is stored at `pos`, the upsert replaces that entry.
pub proof fn lemma_upsert_found<V>(s: Seq<(u32, V)>, k: u32, v: V, pos: int)
    requires
        keys_sorted(s),
        0 <= pos < s.len(),
        s[pos].0 == k,
    ensures
        lookup(s, k) == Some(s[pos].1),
        upsert(s, k, v) == s.update(pos, (k, v)),
        keys_sorted(upsert(s, k, v)),
{
    assert(has_key(s, k));
    let i = choose|i: int| 0 <= i < s.len() && s[i].0 == k;
    if i < pos {
        assert(s[i].0 < s[pos].0);
    }
    if pos < i {
        assert(s[pos].0 < s[i].0);
    }
    assert(i == pos);
}

/// When `k` is not stored and belongs at `pos`, the upsert inserts there.
pub proof fn lemma_upsert_absent<V>(s: Seq<(u32, V)>, k: u32, v: V, pos: int)
    requires
        keys_sorted(s),
        is_gap(s, k, pos),
    ensures
        lookup(s, k) is None,
        upsert(s, k, v) == s.insert(pos, (k, v)),
        keys_sorted(upsert(s, k, v)),
{
    assert(!has_key(s, k)) by {
        if has_key(s, k) {
            let i = choose|i: int| 0 <= i < s.len() && s[i].0 == k;
            if i < pos {
                assert(s[i].0 < k);
            } else {
                assert(s[i].0 > k);
            }
        }
    }
    let p = choose|p: int| is_gap(s, k, p);
    assert(is_gap(s, k, p));
    if p < pos {
        assert(s[p].0 > k);
        assert(s[p].0 < k);
    }
    if pos < p {
        assert(s[pos].0 < k);
        assert(s[pos].0 > k);
    }
    assert(p == pos);
    let t = s.insert(pos, (k, v));
    assert forall|i: int, j: int| 0 <= i < j < t.len() implies t[i].0 < t[j].0 by {
        if j < pos {
        } else if j == pos {
        } else if i < pos {
        } else if i == pos {
            assert(t[j] == s[j - 1]);
        } else {
            assert(t[i] == s[i - 1]);
            assert(t[j] == s[j - 1]);
        }
    }
}

/// After an upsert, the key holds the new value.
pub proof fn lemma_lookup_upsert_same<V>(s: Seq<(u32, V)>, k: u32, v: V)
    requires
        keys_sorted(s),
    ensures
        lookup(upsert(s, k, v), k) == Some(v),
        keys_sorted(upsert(s, k, v)),
{
    let t = upsert(s, k, v);
    if has_key(s, k) {
        let i = choose|i: int| 0 <= i < s.len() && s[i].0 == k;
        lemma_upsert_found(s, k, v, i);
        lemma_upsert_found(t, k, v, i);
    } else {
        let p = choose|p: int| is_gap(s, k, p);
        lemma_gap_exists(s, k);
        lemma_upsert_absent(s, k, v, p);
        lemma_upsert_found(t, k, v, p);
    }
}

/// After an upsert, the other keys keep their values.
pub proof fn lemma_lookup_upsert_other<V>(s: Seq<(u32, V)>, k: u32, v: V, j: u32)
    requires
        keys_sorted(s),
        j != k,
    ensures
        lookup(upsert(s, k, v), j) == lookup(s, j),
{
    let t = upsert(s, k, v);
    if has_key(s, k) {
        let i = choose|i: int| 0 <= i < s.len() && s[i].0 == k;
        lemma_upsert_found(s, k, v, i);
        if has_key(s, j) {
            let q = choose|q: int| 0 <= q < s.len() && s[q].0 == j;
            lemma_upsert_found(s, j, s[q].1, q);
            lemma_upsert_found(t, j, s[q].1, q);
        } else {
            assert(!has_key(t, j)) by {
                if has_key(t, j) {
                    let q = choose|q: int| 0 <= q < t.len() && t[q].0 == j;
                    assert(s[q].0 == j);
                }
            }
        }
    } else {
        lemma_gap_exists(s, k);
        let p = choose|p: int| is_gap(s, k, p);
        lemma_upsert_absent(s, k, v, p);
        if has_key(s, j) {
            let q = choose|q: int| 0 <= q < s.len() && s[q].0 == j;
            lemma_upsert_found(s, j, s[q].1, q);
            let q2 = if q < p {
                q
            } else {
                q + 1
            };
            assert(t[q2] == s[q]);
            lemma_upsert_found(t, j, s[q].1, q2);
        } else {
            assert(!has_key(t, j)) by {
                if has_key(t, j) {
                    let q = choose|q: int| 0 <= q < t.len() && t[q].0 == j;
                    if q < p {
                        assert(s[q].0 == j);
                    } else if q > p {
                        assert(s[q - 1].0 == j);
                    }
                }
            }
        }
    }
}

/// Every sorted sequence has a place for a key it does not hold.
pub proof fn lemma_gap_exists<V>(s: Seq<(u32, V)>, k: u32)
    requires
        keys_sorted(s),
        !has_key(s, k),
    ensures
        exists|p: int| is_gap(s, k, p),
    decreases s.len(),
{
    if s.len() == 0 {
        assert(is_gap(s, k, 0));
    } else if s.last().0 < k {
        assert(is_gap(s, k, s.len() as int));
    } else {
        let t = s.drop_last();
        assert(!has_key(t, k)) by {
            if has_key(t, k) {
                let i = choose|i: int| 0 <= i < t.len() && t[i].0 == k;
                assert(s[i].0 == k);
            }
        }
        lemma_gap_exists(t, k);
        let p = choose|p: int| is_gap(t, k, p);
        assert(s.last().0 != k) by {
            assert(s[s.len() - 1].0 == s.last().0);
        }
        assert(s[s.len() - 1].0 > k);
        assert forall|j: int| p <= j < s.len() implies s[j].0 > k by {
            if j < t.len() {
                assert(s[j] == t[j]);
            }
        }
        assert forall|j: int| 0 <= j < p implies s[j].0 < k by {
            assert(s[j] == t[j]);
        }
        assert(is_gap(s, k, p));
    }
}

/// Where `k` is, or where it belongs.
pub enum Slot {
    Found(usize),
    Gap(usize),
}

/// Finds `k` among the sorted keys of `v`.
pub fn find_slot<T>(v: &Vec<(u32, T)>, k: u32) -> (r: Slot)
    requires
        keys_sorted(v@),
    ensures
        match r {
            Slot::Found(i) => i < v@.len() && v@[i as int].0 == k,
            Slot::Gap(p) => is_gap(v@, k, p as int),
        },
{
    let mut i: usize = 0;
    while i < v.len()
        invariant
            i <= v@.len(),
            keys_sorted(v@),
            forall|j: int| 0 <= j < i ==> v@[j].0 < k,
        decreases v.len() - i,
    {
        if v[i].0 == k {
            return Slot::Found(i);
        }
        if v[i].0 > k {
            return Slot::Gap(i);
        }
        i = i + 1;
    }
    Slot::Gap(i)
}

/// Views of a sequence commute with replacing one entry.
pub proof fn lemma_view_update<T: View>(s: Seq<(u32, T)>, i: int, e: (u32, T))
    requires
        0 <= i < s.len(),
    ensures
        entries_view(s.update(i, e)) == entries_view(s).update(i, (e.0, e.1@)),
{
    assert(entries_view(s.update(i, e)) =~= entries_view(s).update(i, (e.0, e.1@)));
}

/// Views of a sequence commute with inserting one entry.
pub proof fn lemma_view_insert<T: View>(s: Seq<(u32, T)>, i: int, e: (u32, T))
    requires
        0 <= i <= s.len(),
    ensures
        entries_view(s.insert(i, e)) == entries_view(s).insert(i, (e.0, e.1@)),
{
    assert(entries_view(s.insert(i, e)) =~= entries_view(s).insert(i, (e.0, e.1@)));
}

/// Keys of a sequence are those of its view.
pub proof fn lemma_view_keys<T: View>(s: Seq<(u32, T)>)
    ensures
        entries_view(s).len() == s.len(),
        forall|i: int| 0 <= i < s.len() ==> #[trigger] entries_view(s)[i] == (s[i].0, s[i].1@),
        keys_sorted(s) <==> keys_sorted(entries_view(s)),
{
    let w = entries_view(s);
    assert forall|i: int| 0 <= i < s.len() implies #[trigger] w[i] == (s[i].0, s[i].1@) by {}
    if keys_sorted(s) {
        assert forall|i: int, j: int| 0 <= i < j < w.len() implies w[i].0 < w[j].0 by {
            assert(w[i].0 == s[i].0);
            assert(w[j].0 == s[j].0);
        }
    }
    if keys_sorted(w) {
        assert forall|i: int, j: int| 0 <= i < j < s.len() implies s[i].0 < s[j].0 by {
            assert(w[i].0 == s[i].0);
            assert(w[j].0 == s[j].0);
        }
    }
}

} // verus!

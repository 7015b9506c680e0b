//! Lists of records identified by a key, seen as maps from key to
//! record. The library keeps its registries (devices, nodes, routes) as such
//! lists, with no key twice.

use vstd::prelude::*;

verus! {

/// Whether no two entries of `s` share a key.
pub open spec fn keys_distinct<K, V>(s: Seq<V>, key: spec_fn(V) -> K) -> bool {
    forall|i: int, j: int|
        #![trigger key(s[i]), key(s[j])]
        0 <= i < s.len() && 0 <= j < s.len() && key(s[i]) == key(s[j]) ==> i == j
}

/// Whether some entry of `s` has key `k`.
pub open spec fn has_key<K, V>(s: Seq<V>, key: spec_fn(V) -> K, k: K) -> bool {
    exists|i: int| 0 <= i < s.len() && #[trigger] key(s[i]) == k
}

/// The entries of `s` by key.
pub open spec fn keyed_map<K, V>(s: Seq<V>, key: spec_fn(V) -> K) -> Map<K, V> {
    Map::new(
        |k: K| has_key(s, key, k),
        |k: K| s[choose|i: int| 0 <= i < s.len() && #[trigger] key(s[i]) == k],
    )
}

/// The entry at a position is the map's entry for its key.
pub proof fn lemma_keyed_at<K, V>(s: Seq<V>, key: spec_fn(V) -> K, i: int)
    requires
        keys_distinct(s, key),
        0 <= i < s.len(),
    ensures
        keyed_map(s, key).contains_key(key(s[i])),
        keyed_map(s, key)[key(s[i])] == s[i],
{
    let k = key(s[i]);
    assert(has_key(s, key, k));
    let c = choose|j: int| 0 <= j < s.len() && #[trigger] key(s[j]) == k;
    assert(key(s[c]) == key(s[i]));
}

/// Replacing an entry by one with the same key replaces the map's entry.
pub proof fn lemma_keyed_update<K, V>(s: Seq<V>, key: spec_fn(V) -> K, i: int, v: V)
    requires
        keys_distinct(s, key),
        0 <= i < s.len(),
        key(v) == key(s[i]),
    ensures
        keys_distinct(s.update(i, v), key),
        keyed_map(s.update(i, v), key) == keyed_map(s, key).insert(key(v), v),
{
    let t = s.update(i, v);
    assert forall|a: int, b: int|
        0 <= a < t.len() && 0 <= b < t.len() && #[trigger] key(t[a]) == #[trigger] key(t[b]) implies a
        == b by {
        assert(key(t[a]) == key(s[a]));
        assert(key(t[b]) == key(s[b]));
    }
    assert forall|k: K| has_key(t, key, k) == has_key(s, key, k) by {
        if has_key(t, key, k) {
            let a = choose|a: int| 0 <= a < t.len() && #[trigger] key(t[a]) == k;
            assert(key(s[a]) == k);
        }
        if has_key(s, key, k) {
            let a = choose|a: int| 0 <= a < s.len() && #[trigger] key(s[a]) == k;
            assert(key(t[a]) == k);
        }
    }
    assert forall|k: K| #[trigger]
        keyed_map(t, key).contains_key(k) implies keyed_map(t, key)[k] == keyed_map(s, key).insert(
        key(v),
        v,
    )[k] by {
        let a = choose|a: int| 0 <= a < t.len() && #[trigger] key(t[a]) == k;
        lemma_keyed_at(t, key, a);
        if a != i {
            assert(key(s[a]) == k);
            lemma_keyed_at(s, key, a);
        }
    }
    assert(keyed_map(t, key) =~= keyed_map(s, key).insert(key(v), v));
}

/// Appending an entry with a new key adds it to the map.
pub proof fn lemma_keyed_push<K, V>(s: Seq<V>, key: spec_fn(V) -> K, v: V)
    requires
        keys_distinct(s, key),
        !has_key(s, key, key(v)),
    ensures
        keys_distinct(s.push(v), key),
        keyed_map(s.push(v), key) == keyed_map(s, key).insert(key(v), v),
{
    let t = s.push(v);
    let n = s.len() as int;
    assert forall|a: int, b: int|
        0 <= a < t.len() && 0 <= b < t.len() && #[trigger] key(t[a]) == #[trigger] key(t[b]) implies a
        == b by {
        if a < n && b == n {
            assert(key(s[a]) == key(v));
        }
        if b < n && a == n {
            assert(key(s[b]) == key(v));
        }
        if a < n && b < n {
            assert(key(s[a]) == key(s[b]));
        }
    }
    assert forall|k: K| has_key(t, key, k) == (has_key(s, key, k) || k == key(v)) by {
        if has_key(t, key, k) {
            let a = choose|a: int| 0 <= a < t.len() && #[trigger] key(t[a]) == k;
            if a < n {
                assert(key(s[a]) == k);
            }
        }
        if has_key(s, key, k) {
            let a = choose|a: int| 0 <= a < s.len() && #[trigger] key(s[a]) == k;
            assert(key(t[a]) == k);
        }
        if k == key(v) {
            assert(key(t[n]) == k);
        }
    }
    assert forall|k: K| #[trigger]
        keyed_map(t, key).contains_key(k) implies keyed_map(t, key)[k] == keyed_map(s, key).insert(
        key(v),
        v,
    )[k] by {
        let a = choose|a: int| 0 <= a < t.len() && #[trigger] key(t[a]) == k;
        lemma_keyed_at(t, key, a);
        if a < n {
            assert(key(s[a]) == k);
            lemma_keyed_at(s, key, a);
        }
    }
    assert(keyed_map(t, key) =~= keyed_map(s, key).insert(key(v), v));
}

/// Removing the entry at a position removes its key from the map.
pub proof fn lemma_keyed_remove<K, V>(s: Seq<V>, key: spec_fn(V) -> K, i: int)
    requires
        keys_distinct(s, key),
        0 <= i < s.len(),
    ensures
        keys_distinct(s.remove(i), key),
        keyed_map(s.remove(i), key) == keyed_map(s, key).remove(key(s[i])),
{
    let t = s.remove(i);
    let src = |a: int| if a < i { a } else { a + 1 };
    assert forall|a: int| 0 <= a < t.len() implies #[trigger] t[a] == s[src(a)] by {}
    assert forall|a: int, b: int|
        0 <= a < t.len() && 0 <= b < t.len() && #[trigger] key(t[a]) == #[trigger] key(t[b]) implies a
        == b by {
        assert(t[a] == s[src(a)]);
        assert(t[b] == s[src(b)]);
        assert(key(s[src(a)]) == key(s[src(b)]));
    }
    assert forall|k: K| has_key(t, key, k) == (has_key(s, key, k) && k != key(s[i])) by {
        if has_key(t, key, k) {
            let a = choose|a: int| 0 <= a < t.len() && #[trigger] key(t[a]) == k;
            assert(t[a] == s[src(a)]);
            assert(key(s[src(a)]) == k);
            assert(key(s[src(a)]) != key(s[i]));
        }
        if has_key(s, key, k) && k != key(s[i]) {
            let a = choose|a: int| 0 <= a < s.len() && #[trigger] key(s[a]) == k;
            assert(a != i);
            if a < i {
                assert(t[a] == s[a]);
                assert(key(t[a]) == k);
            } else {
                assert(t[a - 1] == s[a]);
                assert(key(t[a - 1]) == k);
            }
        }
    }
    assert forall|k: K| #[trigger]
        keyed_map(t, key).contains_key(k) implies keyed_map(t, key)[k] == keyed_map(s, key).remove(
        key(s[i]),
    )[k] by {
        let a = choose|a: int| 0 <= a < t.len() && #[trigger] key(t[a]) == k;
        lemma_keyed_at(t, key, a);
        assert(t[a] == s[src(a)]);
        assert(key(s[src(a)]) == k);
        lemma_keyed_at(s, key, src(a));
    }
    assert(keyed_map(t, key) =~= keyed_map(s, key).remove(key(s[i])));
}

/// The empty list is the empty map.
pub proof fn lemma_keyed_empty<K, V>(key: spec_fn(V) -> K)
    ensures
        keys_distinct(Seq::<V>::empty(), key),
        keyed_map(Seq::<V>::empty(), key) == Map::<K, V>::empty(),
{
    assert(keyed_map(Seq::<V>::empty(), key) =~= Map::<K, V>::empty());
}

/// A list with no key twice has as many entries as its map has keys.
pub proof fn lemma_keyed_len<K, V>(s: Seq<V>, key: spec_fn(V) -> K)
    requires
        keys_distinct(s, key),
    ensures
        keyed_map(s, key).dom().finite(),
        keyed_map(s, key).dom().len() == s.len(),
    decreases s.len(),
{
    if s.len() == 0 {
        lemma_keyed_empty(key);
        assert(keyed_map(s, key).dom() =~= Set::<K>::empty());
    } else {
        let t = s.drop_last();
        let v = s.last();
        assert forall|i: int, j: int|
            0 <= i < t.len() && 0 <= j < t.len() && #[trigger] key(t[i]) == #[trigger] key(t[j]) implies i == j by {
            assert(t[i] == s[i] && t[j] == s[j]);
            assert(key(s[i]) == key(s[j]));
        }
        lemma_keyed_len(t, key);
        assert(!has_key(t, key, key(v))) by {
            if has_key(t, key, key(v)) {
                let i = choose|i: int| 0 <= i < t.len() && #[trigger] key(t[i]) == key(v);
                assert(t[i] == s[i]);
                assert(key(s[i]) == key(s[s.len() - 1]));
            }
        }
        lemma_keyed_push(t, key, v);
        assert(t.push(v) =~= s);
        let d = keyed_map(t, key).dom();
        assert(keyed_map(s, key).dom() =~= d.insert(key(v)));
        assert(!d.contains(key(v)));
    }
}

/// The number of values over all entries of a table of keyed lists.
pub open spec fn entries_total<K, T>(t: Seq<(K, Seq<T>)>) -> nat
    decreases t.len(),
{
    if t.len() == 0 {
        0
    } else {
        entries_total(t.drop_last()) + t.last().1.len()
    }
}

/// Replacing an entry changes the total by the difference in lengths.
pub proof fn lemma_entries_total_update<K, T>(t: Seq<(K, Seq<T>)>, i: int, e: (K, Seq<T>))
    requires
        0 <= i < t.len(),
    ensures
        entries_total(t.update(i, e)) + t[i].1.len() == entries_total(t) + e.1.len(),
    decreases t.len(),
{
    let u = t.update(i, e);
    if i < t.len() - 1 {
        lemma_entries_total_update(t.drop_last(), i, e);
        assert(u.drop_last() =~= t.drop_last().update(i, e));
    } else {
        assert(u.drop_last() =~= t.drop_last());
    }
}

/// Removing an entry takes its values out of the total.
pub proof fn lemma_entries_total_remove<K, T>(t: Seq<(K, Seq<T>)>, i: int)
    requires
        0 <= i < t.len(),
    ensures
        entries_total(t.remove(i)) + t[i].1.len() == entries_total(t),
    decreases t.len(),
{
    let u = t.remove(i);
    if i < t.len() - 1 {
        lemma_entries_total_remove(t.drop_last(), i);
        assert(u.drop_last() =~= t.drop_last().remove(i));
        assert(u.last() == t.last());
    } else {
        assert(u =~= t.drop_last());
    }
}

/// The total of a prefix is at most the total.
pub proof fn lemma_entries_total_prefix<K, T>(t: Seq<(K, Seq<T>)>, n: int)
    requires
        0 <= n <= t.len(),
    ensures
        entries_total(t.take(n)) <= entries_total(t),
        n < t.len() ==> entries_total(t.take(n + 1)) == entries_total(t.take(n)) + t[n].1.len(),
    decreases t.len() - n,
{
    if n < t.len() {
        lemma_entries_total_prefix(t, n + 1);
        assert(t.take(n + 1).drop_last() =~= t.take(n));
    } else {
        assert(t.take(n) =~= t);
    }
}

} // verus!

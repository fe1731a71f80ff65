//! Association lists viewed as maps.
//!
//! The registry and the ledger both keep their entries in a `Vec` of
//! key-value pairs with pairwise distinct keys, and state their contracts
//! over the `Map` that the pairs denote. The lemmas here relate the
//! sequence operations that the executable code performs to `insert` and
//! `remove` on that map.

use vstd::prelude::*;

verus! {

/// No key occurs twice in the pair sequence.
pub open spec fn pairs_unique<K, V>(s: Seq<(K, V)>) -> bool {
    forall|i: int, j: int| 0 <= i < j < s.len() ==> s[i].0 != s[j].0
}

/// Some pair carries the key `k`.
pub open spec fn pairs_has_key<K, V>(s: Seq<(K, V)>, k: K) -> bool {
    exists|i: int| 0 <= i < s.len() && s[i].0 == k
}

/// The value beside `k`; meaningful only when `k` occurs exactly once.
pub open spec fn pairs_value<K, V>(s: Seq<(K, V)>, k: K) -> V {
    s[choose|i: int| 0 <= i < s.len() && s[i].0 == k].1
}

/// The map that a pair sequence denotes.
pub open spec fn pairs_map<K, V>(s: Seq<(K, V)>) -> Map<K, V> {
    Map::new(|k: K| pairs_has_key(s, k), |k: K| pairs_value(s, k))
}

/// With distinct keys, the pair at index `i` is what the map holds for its key.
pub proof fn lemma_pairs_value_at<K, V>(s: Seq<(K, V)>, i: int)
    requires
        pairs_unique(s),
        0 <= i < s.len(),
    ensures
        pairs_map(s).contains_key(s[i].0),
        pairs_map(s)[s[i].0] == s[i].1,
{
    assert(pairs_has_key(s, s[i].0));
    let w = choose|j: int| 0 <= j < s.len() && s[j].0 == s[i].0;
    assert(w == i);
}

/// Replacing the pair at `i` by one with the same key updates the map at that key.
pub proof fn lemma_pairs_update<K, V>(s: Seq<(K, V)>, i: int, k: K, v: V)
    requires
        pairs_unique(s),
        0 <= i < s.len(),
        s[i].0 == k,
    ensures
        pairs_unique(s.update(i, (k, v))),
        pairs_map(s.update(i, (k, v))) == pairs_map(s).insert(k, v),
{
    let t = s.update(i, (k, v));
    assert forall|k2: K| pairs_has_key(t, k2) <==> pairs_map(s).insert(k, v).contains_key(k2) by {
        if pairs_has_key(t, k2) {
            let j = choose|j: int| 0 <= j < t.len() && t[j].0 == k2;
            if j == i {
                assert(k2 == k);
            } else {
                assert(s[j].0 == k2);
            }
        }
        if pairs_map(s).insert(k, v).contains_key(k2) {
            if k2 == k {
                assert(t[i].0 == k2);
            } else {
                let j = choose|j: int| 0 <= j < s.len() && s[j].0 == k2;
                assert(t[j].0 == k2);
            }
        }
    }
    assert forall|k2: K| pairs_has_key(t, k2) implies pairs_value(t, k2) == pairs_map(s).insert(
        k,
        v,
    )[k2] by {
        let j = choose|j: int| 0 <= j < t.len() && t[j].0 == k2;
        if k2 == k {
            assert(j == i);
        } else {
            assert(j != i);
            assert(s[j].0 == k2);
            let w = choose|w: int| 0 <= w < s.len() && s[w].0 == k2;
            assert(w == j);
        }
    }
    assert(pairs_map(t) =~= pairs_map(s).insert(k, v));
}

/// Appending a pair with a fresh key inserts that key into the map.
pub proof fn lemma_pairs_push<K, V>(s: Seq<(K, V)>, k: K, v: V)
    requires
        pairs_unique(s),
        !pairs_has_key(s, k),
    ensures
        pairs_unique(s.push((k, v))),
        pairs_map(s.push((k, v))) == pairs_map(s).insert(k, v),
{
    let t = s.push((k, v));
    assert forall|i: int, j: int| 0 <= i < j < t.len() implies t[i].0 != t[j].0 by {
        if j == s.len() {
            assert(t[i].0 == s[i].0);
        }
    }
    assert forall|k2: K| pairs_has_key(t, k2) <==> pairs_map(s).insert(k, v).contains_key(k2) by {
        if pairs_has_key(t, k2) {
            let j = choose|j: int| 0 <= j < t.len() && t[j].0 == k2;
            if j < s.len() {
                assert(s[j].0 == k2);
            }
        }
        if pairs_map(s).insert(k, v).contains_key(k2) {
            if k2 == k {
                assert(t[s.len() as int].0 == k2);
            } else {
                let j = choose|j: int| 0 <= j < s.len() && s[j].0 == k2;
                assert(t[j].0 == k2);
            }
        }
    }
    assert forall|k2: K| pairs_has_key(t, k2) implies pairs_value(t, k2) == pairs_map(s).insert(
        k,
        v,
    )[k2] by {
        let j = choose|j: int| 0 <= j < t.len() && t[j].0 == k2;
        if k2 == k {
            assert(j == s.len());
        } else {
            assert(j < s.len());
            assert(s[j].0 == k2);
            let w = choose|w: int| 0 <= w < s.len() && s[w].0 == k2;
            assert(w == j);
        }
    }
    assert(pairs_map(t) =~= pairs_map(s).insert(k, v));
}

/// Removing the pair at `i` removes its key from the map.
pub proof fn lemma_pairs_remove<K, V>(s: Seq<(K, V)>, i: int)
    requires
        pairs_unique(s),
        0 <= i < s.len(),
    ensures
        pairs_unique(s.remove(i)),
        pairs_map(s.remove(i)) == pairs_map(s).remove(s[i].0),
{
    let t = s.remove(i);
    assert forall|a: int, b: int| 0 <= a < b < t.len() implies t[a].0 != t[b].0 by {
        let a0: int = if a < i {
            a
        } else {
            a + 1
        };
        let b0: int = if b < i {
            b
        } else {
            b + 1
        };
        assert(t[a].0 == s[a0].0);
        assert(t[b].0 == s[b0].0);
    }
    assert forall|k2: K| pairs_has_key(t, k2) <==> pairs_map(s).remove(s[i].0).contains_key(
        k2,
    ) by {
        if pairs_has_key(t, k2) {
            let j = choose|j: int| 0 <= j < t.len() && t[j].0 == k2;
            let j0: int = if j < i {
                j
            } else {
                j + 1
            };
            assert(s[j0].0 == k2);
            assert(j0 != i);
        }
        if pairs_map(s).remove(s[i].0).contains_key(k2) {
            let j = choose|j: int| 0 <= j < s.len() && s[j].0 == k2;
            assert(j != i);
            let j1: int = if j < i {
                j
            } else {
                j - 1
            };
            assert(t[j1].0 == k2);
        }
    }
    assert forall|k2: K| pairs_has_key(t, k2) implies pairs_value(t, k2) == pairs_map(s).remove(
        s[i].0,
    )[k2] by {
        let j = choose|j: int| 0 <= j < t.len() && t[j].0 == k2;
        let j0: int = if j < i {
            j
        } else {
            j + 1
        };
        assert(s[j0].0 == k2);
        let w = choose|w: int| 0 <= w < s.len() && s[w].0 == k2;
        assert(w == j0);
    }
    assert(pairs_map(t) =~= pairs_map(s).remove(s[i].0));
}

} // verus!

//! Lists of key-value pairs in which no key occurs twice, and the maps they stand
//! for.  The library keeps its keyed collections this way.

use vstd::prelude::*;

verus! {

/// The map that a list of pairs stands for; a later pair wins over an earlier
/// one with the same key.
pub open spec fn pairs_map<K, V>(s: Seq<(K, V)>) -> Map<K, V>
    decreases s.len(),
{
    if s.len() == 0 {
        Map::empty()
    } else {
        pairs_map(s.drop_last()).insert(s.last().0, s.last().1)
    }
}

/// No key occurs twice.
pub open spec fn keys_distinct<K, V>(s: Seq<(K, V)>) -> bool {
    forall|i: int, j: int| 0 <= i < j < s.len() ==> #[trigger] s[i].0 != #[trigger] s[j].0
}

/// In a list without repeated keys, each pair is in the map, and the map holds
/// nothing else.
pub proof fn lemma_pairs_map<K, V>(s: Seq<(K, V)>)
    requires
        keys_distinct(s),
    ensures
        forall|i: int|
            0 <= i < s.len() ==> #[trigger] pairs_map(s).contains_key(s[i].0) && pairs_map(s)[s[i].0]
                == s[i].1,
        forall|k: K|
            #[trigger] pairs_map(s).contains_key(k) ==> exists|i: int| 0 <= i < s.len() && s[i].0 == k,
        pairs_map(s).dom().finite(),
        pairs_map(s).len() == s.len(),
    decreases s.len(),
{
    if s.len() > 0 {
        let t = s.drop_last();
        assert(keys_distinct(t));
        lemma_pairs_map(t);
        assert(pairs_map(s) == pairs_map(t).insert(s.last().0, s.last().1));
        assert forall|i: int| 0 <= i < s.len() implies #[trigger] pairs_map(s).contains_key(s[i].0)
            && pairs_map(s)[s[i].0] == s[i].1 by {
            if i < s.len() - 1 {
                assert(t[i] == s[i]);
                assert(s[i].0 != s[s.len() - 1].0);
            }
        }
        assert forall|k: K| #[trigger] pairs_map(s).contains_key(k) implies exists|i: int|
            0 <= i < s.len() && s[i].0 == k by {
            if k != s.last().0 {
                assert(pairs_map(t).contains_key(k));
                let j = choose|j: int| 0 <= j < t.len() && t[j].0 == k;
                assert(s[j] == t[j]);
            } else {
                assert(s[s.len() - 1].0 == k);
            }
        }
        if pairs_map(t).contains_key(s.last().0) {
            let j = choose|j: int| 0 <= j < t.len() && t[j].0 == s.last().0;
            assert(s[j] == t[j]);
        }
    }
}

/// Removing a pair removes its key from the map and keeps the keys distinct.
pub proof fn lemma_pairs_remove<K, V>(s: Seq<(K, V)>, p: int)
    requires
        keys_distinct(s),
        0 <= p < s.len(),
    ensures
        keys_distinct(s.remove(p)),
        pairs_map(s.remove(p)) == pairs_map(s).remove(s[p].0),
{
    let r = s.remove(p);
    assert forall|i: int| 0 <= i < r.len() implies #[trigger] r[i] == s[if i < p { i } else { i + 1 }] by {}
    assert forall|a: int, b: int| 0 <= a < b < r.len() implies #[trigger] r[a].0 != #[trigger] r[b].0 by {
        assert(r[a] == s[if a < p { a } else { a + 1 }]);
        assert(r[b] == s[if b < p { b } else { b + 1 }]);
    }
    lemma_pairs_map(s);
    lemma_pairs_map(r);
    let m = pairs_map(s).remove(s[p].0);
    assert forall|k: K| #[trigger] pairs_map(r).contains_key(k) implies m.contains_key(k)
        && pairs_map(r)[k] == m[k] by {
        let i = choose|i: int| 0 <= i < r.len() && r[i].0 == k;
        let j = if i < p { i } else { i + 1 };
        assert(r[i] == s[j]);
        assert(s[j].0 != s[p].0);
    }
    assert forall|k: K| #[trigger] m.contains_key(k) implies pairs_map(r).contains_key(k) by {
        let j = choose|j: int| 0 <= j < s.len() && s[j].0 == k;
        let i = if j < p { j } else { j - 1 };
        assert(r[i] == s[j]);
    }
    assert(pairs_map(r) =~= m);
}

/// Adding a pair with a new key adds it to the map and keeps the keys distinct.
pub proof fn lemma_pairs_push<K, V>(s: Seq<(K, V)>, k: K, v: V)
    requires
        keys_distinct(s),
        forall|i: int| 0 <= i < s.len() ==> s[i].0 != k,
    ensures
        keys_distinct(s.push((k, v))),
        pairs_map(s.push((k, v))) == pairs_map(s).insert(k, v),
{
    let t = s.push((k, v));
    assert(t.drop_last() =~= s);
    assert forall|a: int, b: int| 0 <= a < b < t.len() implies #[trigger] t[a].0 != #[trigger] t[b].0 by {
        assert(t[a] == s[a]);
        if b < s.len() {
            assert(t[b] == s[b]);
        }
    }
}

} // verus!

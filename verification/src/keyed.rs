//! Maps kept as lists of key-value pairs in which no key occurs twice.
use vstd::prelude::*;

verus! {

/// The map that a list of pairs holds; a later pair wins over an earlier one
/// with the same key.
pub open spec fn pairs_map<K, V>(s: Seq<(K, V)>) -> Map<K, V>
    decreases s.len(),
{
    if s.len() == 0 {
        Map::empty()
    } else {
        pairs_map(s.drop_last()).insert(s.last().0, s.last().1)
    }
}

/// No key occurs twice among the pairs.
pub open spec fn distinct_keys<K, V>(s: Seq<(K, V)>) -> bool {
    forall|i: int, j: int| 0 <= i < s.len() && 0 <= j < s.len() && i != j ==> s[i].0 != s[j].0
}

/// A key that no pair holds is not in the map.
pub proof fn lemma_pairs_absent<K, V>(s: Seq<(K, V)>, k: K)
    requires
        forall|i: int| 0 <= i < s.len() ==> s[i].0 != k,
    ensures
        !pairs_map(s).contains_key(k),
    decreases s.len(),
{
    if s.len() > 0 {
        lemma_pairs_absent(s.drop_last(), k);
    }
}

/// Each pair's key maps to the pair's value.
pub proof fn lemma_pairs_index<K, V>(s: Seq<(K, V)>, i: int)
    requires
        distinct_keys(s),
        0 <= i < s.len(),
    ensures
        pairs_map(s).contains_key(s[i].0),
        pairs_map(s)[s[i].0] == s[i].1,
    decreases s.len(),
{
    if i < s.len() - 1 {
        lemma_pairs_index(s.drop_last(), i);
    }
}

/// The map's keys are exactly the pairs' keys.
pub proof fn lemma_pairs_domain<K, V>(s: Seq<(K, V)>, k: K)
    ensures
        pairs_map(s).contains_key(k) <==> exists|i: int| 0 <= i < s.len() && s[i].0 == k,
    decreases s.len(),
{
    if s.len() > 0 {
        lemma_pairs_domain(s.drop_last(), k);
        if pairs_map(s.drop_last()).contains_key(k) {
            let i = choose|i: int| 0 <= i < s.drop_last().len() && s.drop_last()[i].0 == k;
            assert(s[i].0 == k);
        }
        if exists|i: int| 0 <= i < s.len() && s[i].0 == k {
            let i = choose|i: int| 0 <= i < s.len() && s[i].0 == k;
            if i < s.len() - 1 {
                assert(s.drop_last()[i].0 == k);
            }
        }
    }
}

/// Replacing the value of a pair replaces the value of its key.
pub proof fn lemma_pairs_update<K, V>(s: Seq<(K, V)>, i: int, v: V)
    requires
        distinct_keys(s),
        0 <= i < s.len(),
    ensures
        distinct_keys(s.update(i, (s[i].0, v))),
        pairs_map(s.update(i, (s[i].0, v))) == pairs_map(s).insert(s[i].0, v),
    decreases s.len(),
{
    let u = s.update(i, (s[i].0, v));
    if i == s.len() - 1 {
        assert(u.drop_last() == s.drop_last());
        assert(pairs_map(u) =~= pairs_map(s).insert(s[i].0, v));
    } else {
        assert(u.drop_last() == s.drop_last().update(i, (s[i].0, v)));
        lemma_pairs_update(s.drop_last(), i, v);
        assert(s.last().0 != s[i].0);
        assert(pairs_map(u) =~= pairs_map(s).insert(s[i].0, v));
    }
}

/// Appending a pair with a new key adds that key.
pub proof fn lemma_pairs_push<K, V>(s: Seq<(K, V)>, k: K, v: V)
    requires
        distinct_keys(s),
        forall|i: int| 0 <= i < s.len() ==> s[i].0 != k,
    ensures
        distinct_keys(s.push((k, v))),
        pairs_map(s.push((k, v))) == pairs_map(s).insert(k, v),
{
    assert(s.push((k, v)).drop_last() == s);
}

} // verus!

//! Sequences of key-value pairs read as finite maps: the model behind the
//! cache's tables, which only ever grow at the end.

use vstd::prelude::*;

verus! {

/// Whether some pair of the sequence has the key.
pub open spec fn has_key<K, V>(pairs: Seq<(K, V)>, key: K) -> bool {
    exists|i: int| 0 <= i < pairs.len() && (#[trigger] pairs[i]).0 == key
}

/// Whether no key occurs in two pairs.
pub open spec fn distinct_keys<K, V>(pairs: Seq<(K, V)>) -> bool {
    forall|i: int, j: int|
        0 <= i < j < pairs.len() ==> (#[trigger] pairs[i]).0 != (#[trigger] pairs[j]).0
}

/// A place at which the key stands, where it stands anywhere.
pub open spec fn place_of<K, V>(pairs: Seq<(K, V)>, key: K) -> int {
    choose|i: int| 0 <= i < pairs.len() && (#[trigger] pairs[i]).0 == key
}

/// The map that takes each key of the sequence to the value beside it.
pub open spec fn as_map<K, V>(pairs: Seq<(K, V)>) -> Map<K, V> {
    Map::new(|key: K| has_key(pairs, key), |key: K| pairs[place_of(pairs, key)].1)
}

/// The empty sequence is the empty map.
pub proof fn lemma_as_map_empty<K, V>()
    ensures
        as_map(Seq::<(K, V)>::empty()) == Map::<K, V>::empty(),
        distinct_keys(Seq::<(K, V)>::empty()),
{
    assert(as_map(Seq::<(K, V)>::empty()) =~= Map::<K, V>::empty());
}

/// With distinct keys, the map takes the key at each place to the value at
/// that place.
pub proof fn lemma_as_map_at<K, V>(pairs: Seq<(K, V)>, i: int)
    requires
        distinct_keys(pairs),
        0 <= i < pairs.len(),
    ensures
        as_map(pairs).contains_key(pairs[i].0),
        as_map(pairs)[pairs[i].0] == pairs[i].1,
{
    let key = pairs[i].0;
    assert(has_key(pairs, key));
    let j = place_of(pairs, key);
    assert(0 <= j < pairs.len() && pairs[j].0 == key);
    if j < i {
        assert(pairs[j].0 != pairs[i].0);
    }
    if i < j {
        assert(pairs[i].0 != pairs[j].0);
    }
}

/// Adding a pair with a new key at the end keeps the keys distinct and
/// inserts the pair into the map.
pub proof fn lemma_as_map_push<K, V>(pairs: Seq<(K, V)>, key: K, value: V)
    requires
        distinct_keys(pairs),
        !has_key(pairs, key),
    ensures
        distinct_keys(pairs.push((key, value))),
        as_map(pairs.push((key, value))) == as_map(pairs).insert(key, value),
{
    let longer = pairs.push((key, value));
    assert forall|i: int, j: int| 0 <= i < j < longer.len() implies (#[trigger] longer[i]).0 != (
    #[trigger] longer[j]).0 by {
        if j < pairs.len() {
            assert(pairs[i].0 != pairs[j].0);
        } else {
            assert(longer[i] == pairs[i]);
            if pairs[i].0 == key {
                assert(has_key(pairs, key));
            }
        }
    }
    assert forall|k: K| has_key(longer, k) <==> (k == key || has_key(pairs, k)) by {
        if has_key(longer, k) {
            let i = place_of(longer, k);
            if i < pairs.len() {
                assert(pairs[i] == longer[i]);
            }
        }
        if k == key {
            assert(longer[pairs.len() as int].0 == key);
        }
        if has_key(pairs, k) {
            let i = place_of(pairs, k);
            assert(longer[i] == pairs[i]);
        }
    }
    assert forall|k: K| has_key(pairs, k) implies #[trigger] as_map(longer)[k] == as_map(
        pairs,
    )[k] by {
        let i = place_of(pairs, k);
        assert(longer[i] == pairs[i]);
        lemma_as_map_at(longer, i);
        lemma_as_map_at(pairs, i);
    }
    lemma_as_map_at(longer, pairs.len() as int);
    assert(as_map(longer) =~= as_map(pairs).insert(key, value));
}

} // verus!

//! Association lists: sequences of key/value pairs and the mappings they stand for.

use vstd::prelude::*;

verus! {

/// No key occurs twice in the sequence.
pub open spec fn keys_distinct<K, V>(pairs: Seq<(K, V)>) -> bool {
    forall|i: int, j: int| 0 <= i < j < pairs.len() ==> pairs[i].0 != pairs[j].0
}

/// The key occurs in the sequence.
pub open spec fn has_key<K, V>(pairs: Seq<(K, V)>, key: K) -> bool {
    exists|i: int| 0 <= i < pairs.len() && #[trigger] pairs[i].0 == key
}

/// The last position at which the key occurs.
pub open spec fn last_index_of<K, V>(pairs: Seq<(K, V)>, key: K) -> int
    decreases pairs.len(),
{
    if pairs.len() == 0 {
        -1
    } else if pairs.last().0 == key {
        pairs.len() - 1
    } else {
        last_index_of(pairs.drop_last(), key)
    }
}

/// The mapping that a sequence of entries stands for; of two entries with
/// one key the later one counts.
pub open spec fn pairs_map<K, V>(pairs: Seq<(K, V)>) -> Map<K, V> {
    Map::new(
        |key: K| has_key(pairs, key),
        |key: K| pairs[last_index_of(pairs, key)].1,
    )
}

/// `last_index_of` finds a position of the key when there is one, and the
/// greatest such position.
pub proof fn lemma_last_index_of<K, V>(pairs: Seq<(K, V)>, key: K)
    ensures
        has_key(pairs, key) ==> 0 <= last_index_of(pairs, key) < pairs.len() && pairs[last_index_of(
            pairs,
            key,
        )].0 == key,
        !has_key(pairs, key) ==> last_index_of(pairs, key) == -1,
        forall|i: int|
            last_index_of(pairs, key) < i < pairs.len() ==> (#[trigger] pairs[i]).0 != key,
    decreases pairs.len(),
{
    if pairs.len() == 0 {
    } else if pairs.last().0 == key {
        assert(pairs[pairs.len() - 1].0 == key);
    } else {
        let front = pairs.drop_last();
        lemma_last_index_of(front, key);
        if has_key(pairs, key) {
            let i = choose|i: int| 0 <= i < pairs.len() && #[trigger] pairs[i].0 == key;
            assert(front[i].0 == key);
        }
        if has_key(front, key) {
            let i = choose|i: int| 0 <= i < front.len() && #[trigger] front[i].0 == key;
            assert(pairs[i].0 == key);
        }
        assert forall|i: int| last_index_of(pairs, key) < i < pairs.len() implies (
        #[trigger] pairs[i]).0 != key by {
            if i < front.len() {
                assert(front[i] == pairs[i]);
            }
        }
    }
}

/// With distinct keys, every entry is the one that counts for its key.
pub proof fn lemma_distinct_index<K, V>(pairs: Seq<(K, V)>, i: int)
    requires
        keys_distinct(pairs),
        0 <= i < pairs.len(),
    ensures
        has_key(pairs, pairs[i].0),
        last_index_of(pairs, pairs[i].0) == i,
        pairs_map(pairs).contains_key(pairs[i].0),
        pairs_map(pairs)[pairs[i].0] == pairs[i].1,
{
    assert(pairs[i].0 == pairs[i].0);
    lemma_last_index_of(pairs, pairs[i].0);
}

/// Appending an entry inserts it into the mapping.
pub proof fn lemma_push_inserts<K, V>(pairs: Seq<(K, V)>, pair: (K, V))
    ensures
        pairs_map(pairs.push(pair)) == pairs_map(pairs).insert(pair.0, pair.1),
{
    let longer = pairs.push(pair);
    assert(longer.drop_last() =~= pairs);
    assert(longer.last() == pair);
    assert(longer[pairs.len() as int].0 == pair.0);
    assert forall|key: K| has_key(longer, key) <==> (has_key(pairs, key) || key == pair.0) by {
        if has_key(pairs, key) {
            let i = choose|i: int| 0 <= i < pairs.len() && #[trigger] pairs[i].0 == key;
            assert(longer[i].0 == key);
        }
        if has_key(longer, key) && key != pair.0 {
            let i = choose|i: int| 0 <= i < longer.len() && #[trigger] longer[i].0 == key;
            assert(pairs[i].0 == key);
        }
    }
    assert forall|key: K| has_key(longer, key) implies #[trigger] pairs_map(longer)[key]
        == pairs_map(pairs).insert(pair.0, pair.1)[key] by {
        if key != pair.0 {
            lemma_last_index_of(pairs, key);
        }
    }
    assert(pairs_map(longer) =~= pairs_map(pairs).insert(pair.0, pair.1));
}

/// Replacing the value of an entry, with distinct keys, inserts into the mapping.
pub proof fn lemma_update_inserts<K, V>(pairs: Seq<(K, V)>, i: int, value: V)
    requires
        keys_distinct(pairs),
        0 <= i < pairs.len(),
    ensures
        keys_distinct(pairs.update(i, (pairs[i].0, value))),
        pairs_map(pairs.update(i, (pairs[i].0, value))) == pairs_map(pairs).insert(
            pairs[i].0,
            value,
        ),
{
    let key = pairs[i].0;
    let changed = pairs.update(i, (key, value));
    assert forall|a: int, b: int| 0 <= a < b < changed.len() implies changed[a].0 != changed[b].0 by {
        assert(changed[a].0 == pairs[a].0);
        assert(changed[b].0 == pairs[b].0);
    }
    assert forall|k: K| has_key(changed, k) <==> has_key(pairs, k) by {
        if has_key(pairs, k) {
            let j = choose|j: int| 0 <= j < pairs.len() && #[trigger] pairs[j].0 == k;
            assert(changed[j].0 == k);
        }
        if has_key(changed, k) {
            let j = choose|j: int| 0 <= j < changed.len() && #[trigger] changed[j].0 == k;
            assert(pairs[j].0 == k);
        }
    }
    lemma_distinct_index(pairs, i);
    assert forall|k: K| has_key(changed, k) implies #[trigger] pairs_map(changed)[k]
        == pairs_map(pairs).insert(key, value)[k] by {
        let j = choose|j: int| 0 <= j < changed.len() && #[trigger] changed[j].0 == k;
        lemma_distinct_index(changed, j);
        lemma_distinct_index(pairs, j);
    }
    assert(pairs_map(changed) =~= pairs_map(pairs).insert(key, value));
}

/// With distinct keys, the mapping has as many entries as the sequence.
pub proof fn lemma_distinct_len<K, V>(pairs: Seq<(K, V)>)
    requires
        keys_distinct(pairs),
    ensures
        pairs_map(pairs).dom().finite(),
        pairs_map(pairs).dom().len() == pairs.len(),
    decreases pairs.len(),
{
    if pairs.len() == 0 {
        assert(pairs_map(pairs).dom() =~= Set::<K>::empty());
    } else {
        let front = pairs.drop_last();
        let last = pairs.last();
        lemma_distinct_len(front);
        assert(pairs =~= front.push(last));
        lemma_push_inserts(front, last);
        assert(!has_key(front, last.0)) by {
            if has_key(front, last.0) {
                let i = choose|i: int| 0 <= i < front.len() && #[trigger] front[i].0 == last.0;
                assert(pairs[i].0 == pairs[pairs.len() - 1].0);
            }
        }
        assert(pairs_map(pairs).dom() =~= pairs_map(front).dom().insert(last.0));
    }
}

} // verus!

//! A list of keys beside a list of values, read as a map.
//!
//! The registry keeps its rooms in a list, in the order in which they came,
//! and stands for a map from their names to their members. The lemmas here
//! say what a push, an overwrite and a removal in such a pair of lists do to
//! the map that it stands for.

use vstd::prelude::*;

verus! {

/// The map that takes each key of `keys` to the value at the same place in
/// `values`. It is meant for keys that do not repeat.
pub open spec fn assoc<K, V>(keys: Seq<K>, values: Seq<V>) -> Map<K, V> {
    Map::new(|k: K| keys.contains(k), |k: K| values[keys.index_of(k)])
}

/// With keys that do not repeat, the key at a place is found at that place.
pub proof fn lemma_assoc_index<K, V>(keys: Seq<K>, values: Seq<V>, i: int)
    requires
        keys.no_duplicates(),
        0 <= i < keys.len(),
    ensures
        keys.contains(keys[i]),
        keys.index_of(keys[i]) == i,
        assoc(keys, values).contains_key(keys[i]),
        assoc(keys, values)[keys[i]] == values[i],
{
}

/// No keys, no entries.
pub proof fn lemma_assoc_empty<K, V>()
    ensures
        assoc(Seq::<K>::empty(), Seq::<V>::empty()) == Map::<K, V>::empty(),
{
    assert(assoc(Seq::<K>::empty(), Seq::<V>::empty()) =~= Map::<K, V>::empty());
}

/// Pushing a key that is new, with its value, inserts the entry.
pub proof fn lemma_assoc_push<K, V>(keys: Seq<K>, values: Seq<V>, k: K, v: V)
    requires
        keys.no_duplicates(),
        keys.len() == values.len(),
        !keys.contains(k),
    ensures
        keys.push(k).no_duplicates(),
        assoc(keys.push(k), values.push(v)) == assoc(keys, values).insert(k, v),
{
    let keys2 = keys.push(k);
    let values2 = values.push(v);
    assert(keys2.no_duplicates());
    assert forall|x: K| keys2.contains(x) <==> (keys.contains(x) || x == k) by {
        if keys.contains(x) {
            let i = keys.index_of(x);
            assert(keys2[i] == x);
        }
        if x == k {
            assert(keys2[keys.len() as int] == x);
        }
    }
    assert forall|x: K| keys2.contains(x) implies #[trigger] assoc(keys2, values2)[x] == assoc(
        keys,
        values,
    ).insert(k, v)[x] by {
        if x == k {
            lemma_assoc_index(keys2, values2, keys.len() as int);
        } else {
            let i = keys.index_of(x);
            assert(keys2[i] == x);
            lemma_assoc_index(keys2, values2, i);
        }
    }
    assert(assoc(keys2, values2) =~= assoc(keys, values).insert(k, v));
}

/// Overwriting the value at a place overwrites the entry of the key there.
pub proof fn lemma_assoc_update<K, V>(keys: Seq<K>, values: Seq<V>, i: int, v: V)
    requires
        keys.no_duplicates(),
        keys.len() == values.len(),
        0 <= i < keys.len(),
    ensures
        assoc(keys, values.update(i, v)) == assoc(keys, values).insert(keys[i], v),
{
    let values2 = values.update(i, v);
    lemma_assoc_index(keys, values, i);
    assert forall|x: K| keys.contains(x) implies #[trigger] assoc(keys, values2)[x] == assoc(
        keys,
        values,
    ).insert(keys[i], v)[x] by {
        let at = keys.index_of(x);
        if at == i {
        } else {
            assert(keys[at] != keys[i]);
        }
    }
    assert(assoc(keys, values2) =~= assoc(keys, values).insert(keys[i], v));
}

/// Removing a place from both lists removes the entry of the key there.
pub proof fn lemma_assoc_remove<K, V>(keys: Seq<K>, values: Seq<V>, i: int)
    requires
        keys.no_duplicates(),
        keys.len() == values.len(),
        0 <= i < keys.len(),
    ensures
        keys.remove(i).no_duplicates(),
        assoc(keys.remove(i), values.remove(i)) == assoc(keys, values).remove(keys[i]),
{
    let keys2 = keys.remove(i);
    let values2 = values.remove(i);
    assert forall|a: int| 0 <= a < keys2.len() implies #[trigger] keys2[a] == keys[if a < i {
        a
    } else {
        a + 1
    }] by {}
    assert forall|a: int| 0 <= a < values2.len() implies #[trigger] values2[a] == values[if a < i {
        a
    } else {
        a + 1
    }] by {}
    assert(keys2.no_duplicates());
    assert forall|x: K| keys2.contains(x) <==> (keys.contains(x) && x != keys[i]) by {
        if keys2.contains(x) {
            let a = keys2.index_of(x);
            let b = if a < i {
                a
            } else {
                a + 1
            };
            assert(keys[b] == x);
        }
        if keys.contains(x) && x != keys[i] {
            let b = keys.index_of(x);
            let a = if b < i {
                b
            } else {
                b - 1
            };
            assert(keys2[a] == x);
        }
    }
    assert forall|x: K| keys2.contains(x) implies #[trigger] assoc(keys2, values2)[x] == assoc(
        keys,
        values,
    ).remove(keys[i])[x] by {
        let a = keys2.index_of(x);
        let b = if a < i {
            a
        } else {
            a + 1
        };
        assert(keys[b] == x);
        lemma_assoc_index(keys, values, b);
    }
    assert(assoc(keys2, values2) =~= assoc(keys, values).remove(keys[i]));
}

} // verus!

//! Finite maps that are stored as two sequences of equal length: the keys,
//! without repetition, and the value that belongs to each.

use vstd::prelude::*;

verus! {

/// Keys and values fit together: one value per key, and no key twice.
pub open spec fn paired<K, V>(keys: Seq<K>, values: Seq<V>) -> bool {
    keys.len() == values.len() && keys.no_duplicates()
}

/// The map that takes each key to the value at the key's position.
pub open spec fn seq_map<K, V>(keys: Seq<K>, values: Seq<V>) -> Map<K, V> {
    Map::new(|k: K| keys.contains(k), |k: K| values[keys.index_of(k)])
}

/// A key that occurs once is found at the position where it stands.
pub proof fn lemma_index_of_unique<K>(keys: Seq<K>, i: int)
    requires
        keys.no_duplicates(),
        0 <= i < keys.len(),
    ensures
        keys.index_of(keys[i]) == i,
        keys.contains(keys[i]),
{
    keys.index_of_first_ensures(keys[i]);
    let j = keys.index_of(keys[i]);
    assert(keys[j] == keys[i]);
}

/// The map's domain is the set of keys, which is finite and as large as the
/// sequence of keys is long.
pub proof fn lemma_seq_map_dom<K, V>(keys: Seq<K>, values: Seq<V>)
    requires
        paired(keys, values),
    ensures
        seq_map(keys, values).dom() == keys.to_set(),
        seq_map(keys, values).dom().finite(),
        seq_map(keys, values).dom().len() == keys.len(),
        forall|i: int| 0 <= i < keys.len() ==> #[trigger] seq_map(keys, values)[keys[i]] == values[i],
{
    assert(seq_map(keys, values).dom() =~= keys.to_set());
    keys.unique_seq_to_set();
    vstd::seq_lib::seq_to_set_is_finite(keys);
    assert forall|i: int| 0 <= i < keys.len() implies #[trigger] seq_map(keys, values)[keys[i]]
        == values[i] by {
        lemma_index_of_unique(keys, i);
    }
}

/// Appending a new key with its value inserts the pair into the map.
pub proof fn lemma_seq_map_push<K, V>(keys: Seq<K>, values: Seq<V>, k: K, v: V)
    requires
        paired(keys, values),
        !keys.contains(k),
    ensures
        paired(keys.push(k), values.push(v)),
        seq_map(keys.push(k), values.push(v)) == seq_map(keys, values).insert(k, v),
{
    let keys2 = keys.push(k);
    let values2 = values.push(v);
    assert(keys2.no_duplicates()) by {
        assert forall|i: int, j: int| 0 <= i < keys2.len() && 0 <= j < keys2.len() && i != j implies keys2[i]
            != keys2[j] by {
            if i < keys.len() && j < keys.len() {
            } else if i < keys.len() {
                assert(keys.contains(keys[i]));
            } else {
                assert(keys.contains(keys[j]));
            }
        }
    }
    assert forall|x: K| keys2.contains(x) <==> (keys.contains(x) || x == k) by {
        if keys.contains(x) {
            let i = keys.index_of(x);
            keys.index_of_first_ensures(x);
            assert(keys2[i] == x);
        }
        if x == k {
            assert(keys2[keys.len() as int] == k);
        }
        if keys2.contains(x) {
            let i = choose|i: int| 0 <= i < keys2.len() && keys2[i] == x;
            if i < keys.len() {
                assert(keys[i] == x);
            }
        }
    }
    assert forall|x: K| keys2.contains(x) implies #[trigger] seq_map(keys2, values2)[x] == seq_map(
        keys,
        values,
    ).insert(k, v)[x] by {
        let i = keys2.index_of(x);
        keys2.index_of_first_ensures(x);
        if x == k {
            lemma_index_of_unique(keys2, keys.len() as int);
        } else {
            assert(i < keys.len());
            assert(keys[i] == x);
            lemma_index_of_unique(keys, i);
        }
    }
    assert(seq_map(keys2, values2) =~= seq_map(keys, values).insert(k, v));
}

/// Removing the pair at one position removes its key from the map.
pub proof fn lemma_seq_map_remove<K, V>(keys: Seq<K>, values: Seq<V>, i: int)
    requires
        paired(keys, values),
        0 <= i < keys.len(),
    ensures
        paired(keys.remove(i), values.remove(i)),
        !keys.remove(i).contains(keys[i]),
        seq_map(keys.remove(i), values.remove(i)) == seq_map(keys, values).remove(keys[i]),
{
    let keys2 = keys.remove(i);
    let values2 = values.remove(i);
    assert(keys2.no_duplicates());
    assert(!keys2.contains(keys[i])) by {
        if keys2.contains(keys[i]) {
            let j = choose|j: int| 0 <= j < keys2.len() && keys2[j] == keys[i];
            if j < i {
                assert(keys[j] == keys[i]);
            } else {
                assert(keys[j + 1] == keys[i]);
            }
        }
    }
    assert forall|x: K| keys2.contains(x) <==> (keys.contains(x) && x != keys[i]) by {
        if keys2.contains(x) {
            let j = choose|j: int| 0 <= j < keys2.len() && keys2[j] == x;
            if j < i {
                assert(keys[j] == x);
            } else {
                assert(keys[j + 1] == x);
            }
        }
        if keys.contains(x) && x != keys[i] {
            let j = keys.index_of(x);
            keys.index_of_first_ensures(x);
            if j < i {
                assert(keys2[j] == x);
            } else {
                assert(keys2[j - 1] == x);
            }
        }
    }
    assert forall|x: K| keys2.contains(x) implies #[trigger] seq_map(keys2, values2)[x] == seq_map(
        keys,
        values,
    )[x] by {
        let j = keys2.index_of(x);
        keys2.index_of_first_ensures(x);
        if j < i {
            assert(keys[j] == x);
            lemma_index_of_unique(keys, j);
        } else {
            assert(keys[j + 1] == x);
            lemma_index_of_unique(keys, j + 1);
        }
    }
    assert(seq_map(keys2, values2) =~= seq_map(keys, values).remove(keys[i]));
}

/// Replacing the value at one position replaces the value of its key.
pub proof fn lemma_seq_map_update<K, V>(keys: Seq<K>, values: Seq<V>, i: int, v: V)
    requires
        paired(keys, values),
        0 <= i < keys.len(),
    ensures
        paired(keys, values.update(i, v)),
        seq_map(keys, values.update(i, v)) == seq_map(keys, values).insert(keys[i], v),
{
    let values2 = values.update(i, v);
    lemma_index_of_unique(keys, i);
    assert forall|x: K| keys.contains(x) implies #[trigger] seq_map(keys, values2)[x] == seq_map(
        keys,
        values,
    ).insert(keys[i], v)[x] by {
        let j = keys.index_of(x);
        keys.index_of_first_ensures(x);
        if x != keys[i] {
            assert(j != i);
        }
    }
    assert(seq_map(keys, values2) =~= seq_map(keys, values).insert(keys[i], v));
}

} // verus!

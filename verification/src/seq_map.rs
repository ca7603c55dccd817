//! Viewing a sequence of records as a map keyed by a field. The record
//! store keeps its records in vectors; contracts speak of the map each
//! vector denotes under a key function, so these lemmas relate vector
//! edits (push, update) to map edits (insert).

use vstd::prelude::*;

verus! {

/// The map a sequence denotes under the key function `key`: each element
/// at the key it carries, later elements shadowing earlier ones.
pub open spec fn map_of<T, K>(s: Seq<T>, key: spec_fn(T) -> K) -> Map<K, T>
    decreases s.len(),
{
    if s.len() == 0 {
        Map::empty()
    } else {
        map_of(s.drop_last(), key).insert(key(s.last()), s.last())
    }
}

/// No two elements carry the same key.
pub open spec fn distinct_keys<T, K>(s: Seq<T>, key: spec_fn(T) -> K) -> bool {
    forall|i: int, j: int| 0 <= i < j < s.len() ==> key(s[i]) != key(s[j])
}

/// A key is in the map exactly when some element carries it.
pub proof fn lemma_map_of_contains<T, K>(s: Seq<T>, key: spec_fn(T) -> K, k: K)
    ensures
        map_of(s, key).contains_key(k) <==> exists|i: int|
            0 <= i < s.len() && key(#[trigger] s[i]) == k,
    decreases s.len(),
{
    if s.len() > 0 {
        lemma_map_of_contains(s.drop_last(), key, k);
        if map_of(s, key).contains_key(k) {
            if key(s.last()) != k {
                let i = choose|i: int| 0 <= i < s.drop_last().len() && key(#[trigger] s.drop_last()[i]) == k;
                assert(key(s[i]) == k);
            }
        } else {
            assert(forall|i: int| 0 <= i < s.len() - 1 ==> s.drop_last()[i] == #[trigger] s[i]);
        }
    }
}

/// Under distinct keys, the map sends each element's key to that element.
pub proof fn lemma_map_of_index<T, K>(s: Seq<T>, key: spec_fn(T) -> K, i: int)
    requires
        distinct_keys(s, key),
        0 <= i < s.len(),
    ensures
        map_of(s, key).contains_key(key(s[i])),
        map_of(s, key)[key(s[i])] == s[i],
    decreases s.len(),
{
    if i == s.len() - 1 {
        assert(map_of(s, key)[key(s.last())] == s.last());
    } else {
        assert(forall|j: int| 0 <= j < s.len() - 1 ==> s.drop_last()[j] == #[trigger] s[j]);
        lemma_map_of_index(s.drop_last(), key, i);
        assert(key(s[i]) != key(s.last()));
    }
}

/// Appending an element inserts it into the map.
pub proof fn lemma_map_of_push<T, K>(s: Seq<T>, key: spec_fn(T) -> K, t: T)
    ensures
        map_of(s.push(t), key) == map_of(s, key).insert(key(t), t),
{
    assert(s.push(t).drop_last() =~= s);
    assert(s.push(t).last() == t);
}

/// Replacing the element that carries a key re-inserts at that key.
pub proof fn lemma_map_of_update<T, K>(s: Seq<T>, key: spec_fn(T) -> K, i: int, t: T)
    requires
        distinct_keys(s, key),
        0 <= i < s.len(),
        key(t) == key(s[i]),
    ensures
        map_of(s.update(i, t), key) == map_of(s, key).insert(key(t), t),
    decreases s.len(),
{
    let s2 = s.update(i, t);
    if i == s.len() - 1 {
        assert(s2.drop_last() =~= s.drop_last());
        assert(s2.last() == t);
        assert(map_of(s2, key) =~= map_of(s, key).insert(key(t), t));
    } else {
        assert(forall|j: int| 0 <= j < s.len() - 1 ==> s.drop_last()[j] == #[trigger] s[j]);
        assert(s2.drop_last() =~= s.drop_last().update(i, t));
        assert(s2.last() == s.last());
        lemma_map_of_update(s.drop_last(), key, i, t);
        assert(key(t) != key(s.last()));
        assert(map_of(s2, key) =~= map_of(s, key).insert(key(t), t));
    }
}

/// An updated or extended sequence keeps its keys distinct when the new
/// element's key stays in place (update) or is fresh (push).
pub proof fn lemma_distinct_keys_update<T, K>(s: Seq<T>, key: spec_fn(T) -> K, i: int, t: T)
    requires
        distinct_keys(s, key),
        0 <= i < s.len(),
        key(t) == key(s[i]),
    ensures
        distinct_keys(s.update(i, t), key),
{
    let s2 = s.update(i, t);
    assert forall|a: int, b: int| 0 <= a < b < s2.len() implies key(s2[a]) != key(s2[b]) by {
        assert(key(s2[a]) == key(s[a]));
        assert(key(s2[b]) == key(s[b]));
    }
}

/// Appending an element whose key no existing element carries keeps the
/// keys distinct.
pub proof fn lemma_distinct_keys_push<T, K>(s: Seq<T>, key: spec_fn(T) -> K, t: T)
    requires
        distinct_keys(s, key),
        forall|i: int| 0 <= i < s.len() ==> key(#[trigger] s[i]) != key(t),
    ensures
        distinct_keys(s.push(t), key),
{
    let s2 = s.push(t);
    assert forall|a: int, b: int| 0 <= a < b < s2.len() implies key(s2[a]) != key(s2[b]) by {
        if b < s.len() {
            assert(key(s2[a]) == key(s[a]));
            assert(key(s2[b]) == key(s[b]));
        } else {
            assert(key(s2[a]) == key(s[a]));
            assert(s2[b] == t);
        }
    }
}

} // verus!

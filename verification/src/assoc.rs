//! Association lists: a sequence of distinct keys beside a sequence of
//! values of the same length, read as a finite map. The lemmas say what
//! pushing, updating and swap-removing do to that map.

use vstd::prelude::*;

verus! {

/// The map that sends each key to the value at the key's index.
pub open spec fn assoc<K, V>(ks: Seq<K>, vs: Seq<V>) -> Map<K, V> {
    Map::new(|k: K| ks.contains(k), |k: K| vs[ks.index_of(k)])
}

/// Keys and values form an association list.
pub open spec fn paired<K, V>(ks: Seq<K>, vs: Seq<V>) -> bool {
    ks.len() == vs.len() && ks.no_duplicates()
}

/// The key at index `i` is mapped to the value at index `i`.
pub proof fn assoc_at<K, V>(ks: Seq<K>, vs: Seq<V>, i: int)
    requires
        paired(ks, vs),
        0 <= i < ks.len(),
    ensures
        assoc(ks, vs).contains_key(ks[i]),
        assoc(ks, vs)[ks[i]] == vs[i],
        ks.index_of(ks[i]) == i,
{
    assert(ks.contains(ks[i]));
    let j = ks.index_of(ks[i]);
    assert(0 <= j < ks.len() && ks[j] == ks[i]);
}

/// A key of the map stands at some index, with its value.
pub proof fn assoc_index<K, V>(ks: Seq<K>, vs: Seq<V>, k: K) -> (i: int)
    requires
        paired(ks, vs),
        assoc(ks, vs).contains_key(k),
    ensures
        0 <= i < ks.len(),
        ks[i] == k,
        assoc(ks, vs)[k] == vs[i],
{
    assert(ks.contains(k));
    ks.index_of(k)
}

/// The map is finite and has as many entries as there are keys.
pub proof fn assoc_len<K, V>(ks: Seq<K>, vs: Seq<V>)
    requires
        paired(ks, vs),
    ensures
        assoc(ks, vs).dom().finite(),
        assoc(ks, vs).len() == ks.len(),
        assoc(ks, vs).dom() == ks.to_set(),
{
    assert(assoc(ks, vs).dom() =~= ks.to_set());
    ks.unique_seq_to_set();
    vstd::seq_lib::seq_to_set_is_finite(ks);
}

/// Pushing a new key with a value inserts the pair.
pub proof fn assoc_push<K, V>(ks: Seq<K>, vs: Seq<V>, k: K, v: V)
    requires
        paired(ks, vs),
        !ks.contains(k),
    ensures
        paired(ks.push(k), vs.push(v)),
        assoc(ks.push(k), vs.push(v)) == assoc(ks, vs).insert(k, v),
{
    let ks2 = ks.push(k);
    let vs2 = vs.push(v);
    assert(ks2.no_duplicates()) by {
        assert forall|i: int, j: int| 0 <= i < ks2.len() && 0 <= j < ks2.len() && i != j implies ks2[i]
            != ks2[j] by {
            if i < ks.len() {
                assert(ks.contains(ks[i]));
            }
            if j < ks.len() {
                assert(ks.contains(ks[j]));
            }
        }
    }
    assert forall|x: K| #[trigger] assoc(ks2, vs2).contains_key(x) == assoc(ks, vs).insert(
        k,
        v,
    ).contains_key(x) by {
        if ks2.contains(x) {
            let i = choose|i: int| 0 <= i < ks2.len() && ks2[i] == x;
            if i < ks.len() {
                assert(ks[i] == x);
            }
        }
        if ks.contains(x) {
            let i = choose|i: int| 0 <= i < ks.len() && ks[i] == x;
            assert(ks2[i] == x);
        }
        if x == k {
            assert(ks2[ks.len() as int] == k);
        }
    }
    assert forall|x: K| #[trigger] assoc(ks2, vs2).contains_key(x) implies assoc(ks2, vs2)[x]
        == assoc(ks, vs).insert(k, v)[x] by {
        let i = assoc_index(ks2, vs2, x);
        if i < ks.len() {
            assert(ks[i] == x);
            assert(ks.contains(x));
            assoc_at(ks, vs, i);
        }
    }
    assert(assoc(ks2, vs2) =~= assoc(ks, vs).insert(k, v));
}

/// Replacing the value at index `i` re-maps the key at index `i`.
pub proof fn assoc_update<K, V>(ks: Seq<K>, vs: Seq<V>, i: int, v: V)
    requires
        paired(ks, vs),
        0 <= i < ks.len(),
    ensures
        paired(ks, vs.update(i, v)),
        assoc(ks, vs.update(i, v)) == assoc(ks, vs).insert(ks[i], v),
{
    let vs2 = vs.update(i, v);
    assoc_at(ks, vs, i);
    assert forall|x: K| #[trigger] assoc(ks, vs2).contains_key(x) implies assoc(ks, vs2)[x]
        == assoc(ks, vs).insert(ks[i], v)[x] by {
        let j = assoc_index(ks, vs2, x);
        assoc_at(ks, vs, j);
    }
    assert(assoc(ks, vs2) =~= assoc(ks, vs).insert(ks[i], v));
}

/// Moving the last pair to index `i` and dropping the last index removes
/// the key that stood at `i`.
pub proof fn assoc_swap_remove<K, V>(ks: Seq<K>, vs: Seq<V>, i: int)
    requires
        paired(ks, vs),
        0 <= i < ks.len(),
    ensures
        paired(ks.update(i, ks.last()).drop_last(), vs.update(i, vs.last()).drop_last()),
        assoc(ks.update(i, ks.last()).drop_last(), vs.update(i, vs.last()).drop_last()) == assoc(
            ks,
            vs,
        ).remove(ks[i]),
{
    let ks2 = ks.update(i, ks.last()).drop_last();
    let vs2 = vs.update(i, vs.last()).drop_last();
    let last = ks.len() - 1;
    // Where each index of the shorter list came from.
    let from = |j: int| if j == i { last } else { j };
    assert forall|j: int| 0 <= j < ks2.len() implies ks2[j] == ks[from(j)] && vs2[j] == vs[from(
        j,
    )] by {}
    assert(ks2.no_duplicates()) by {
        assert forall|a: int, b: int| 0 <= a < ks2.len() && 0 <= b < ks2.len() && a != b implies ks2[a]
            != ks2[b] by {
            assert(ks2[a] == ks[from(a)] && ks2[b] == ks[from(b)]);
            assert(from(a) != from(b));
        }
    }
    assert forall|x: K| #[trigger] assoc(ks2, vs2).contains_key(x) == assoc(ks, vs).remove(
        ks[i],
    ).contains_key(x) by {
        if ks2.contains(x) {
            let j = choose|j: int| 0 <= j < ks2.len() && ks2[j] == x;
            assert(ks[from(j)] == x);
            assert(ks.contains(x));
            assert(from(j) != i);
        }
        if ks.contains(x) && x != ks[i] {
            let j = choose|j: int| 0 <= j < ks.len() && ks[j] == x;
            if j == last {
                assert(ks2[i] == x);
            } else {
                assert(ks2[j] == x);
            }
        }
    }
    assert forall|x: K| #[trigger] assoc(ks2, vs2).contains_key(x) implies assoc(ks2, vs2)[x]
        == assoc(ks, vs).remove(ks[i])[x] by {
        let j = assoc_index(ks2, vs2, x);
        assoc_at(ks, vs, from(j));
    }
    assert(assoc(ks2, vs2) =~= assoc(ks, vs).remove(ks[i]));
}

} // verus!

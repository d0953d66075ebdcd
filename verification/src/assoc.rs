//! Association lists: a map kept as a sequence of key-value pairs in which
//! no key occurs twice.

use vstd::prelude::*;

verus! {

/// The map that a sequence of pairs stands for. Where a key occurs more than
/// once, the last pair counts.
pub open spec fn to_map<K, V>(s: Seq<(K, V)>) -> Map<K, V>
    decreases s.len(),
{
    if s.len() == 0 {
        Map::empty()
    } else {
        to_map(s.drop_last()).insert(s.last().0, s.last().1)
    }
}

/// No key occurs twice in `s`.
pub open spec fn distinct_keys<K, V>(s: Seq<(K, V)>) -> bool {
    forall|i: int, j: int| 0 <= i < j < s.len() ==> (#[trigger] s[i]).0 != (#[trigger] s[j]).0
}

/// Some pair of `s` has the key `k`.
pub open spec fn has_key<K, V>(s: Seq<(K, V)>, k: K) -> bool {
    exists|i: int| 0 <= i < s.len() && (#[trigger] s[i]).0 == k
}

/// The map of a sequence is finite and holds exactly the keys of its pairs.
pub proof fn lemma_keys<K, V>(s: Seq<(K, V)>)
    ensures
        to_map(s).dom().finite(),
        forall|k: K| #[trigger] to_map(s).dom().contains(k) <==> has_key(s, k),
    decreases s.len(),
{
    if s.len() > 0 {
        let prev = s.drop_last();
        lemma_keys(prev);
        assert forall|k: K| #[trigger] to_map(s).dom().contains(k) <==> has_key(s, k) by {
            if has_key(s, k) {
                let i = choose|i: int| 0 <= i < s.len() && (#[trigger] s[i]).0 == k;
                if i < s.len() - 1 {
                    assert(prev[i].0 == k);
                    assert(has_key(prev, k));
                }
            }
            if to_map(s).dom().contains(k) {
                if k == s.last().0 {
                    assert(s[s.len() - 1].0 == k);
                } else {
                    assert(has_key(prev, k));
                    let i = choose|i: int| 0 <= i < prev.len() && (#[trigger] prev[i]).0 == k;
                    assert(s[i].0 == k);
                }
            }
        }
    }
}

/// Where no key occurs twice, each pair is an entry of the map.
pub proof fn lemma_entry<K, V>(s: Seq<(K, V)>, i: int)
    requires
        distinct_keys(s),
        0 <= i < s.len(),
    ensures
        to_map(s).dom().contains(s[i].0),
        to_map(s)[s[i].0] == s[i].1,
    decreases s.len(),
{
    let prev = s.drop_last();
    if i < s.len() - 1 {
        assert(distinct_keys(prev)) by {
            assert forall|a: int, b: int| 0 <= a < b < prev.len() implies (#[trigger] prev[a]).0
                != (#[trigger] prev[b]).0 by {
                assert(prev[a] == s[a] && prev[b] == s[b]);
            }
        }
        lemma_entry(prev, i);
        assert(prev[i] == s[i]);
        assert(s[i].0 != s[s.len() - 1].0);
    }
}

/// Where no key occurs twice, the map has as many entries as the sequence
/// has pairs.
pub proof fn lemma_size<K, V>(s: Seq<(K, V)>)
    requires
        distinct_keys(s),
    ensures
        to_map(s).dom().finite(),
        to_map(s).dom().len() == s.len(),
    decreases s.len(),
{
    lemma_keys(s);
    if s.len() > 0 {
        let prev = s.drop_last();
        assert(distinct_keys(prev)) by {
            assert forall|a: int, b: int| 0 <= a < b < prev.len() implies (#[trigger] prev[a]).0
                != (#[trigger] prev[b]).0 by {
                assert(prev[a] == s[a] && prev[b] == s[b]);
            }
        }
        lemma_size(prev);
        lemma_keys(prev);
        if has_key(prev, s.last().0) {
            let i = choose|i: int| 0 <= i < prev.len() && (#[trigger] prev[i]).0 == s.last().0;
            assert(s[i].0 == s[s.len() - 1].0);
        }
        assert(!to_map(prev).dom().contains(s.last().0));
    }
}

/// Appending a pair with a new key inserts it into the map.
pub proof fn lemma_push<K, V>(s: Seq<(K, V)>, k: K, v: V)
    requires
        distinct_keys(s),
        !has_key(s, k),
    ensures
        distinct_keys(s.push((k, v))),
        to_map(s.push((k, v))) == to_map(s).insert(k, v),
{
    let t = s.push((k, v));
    assert(t.drop_last() =~= s);
    assert forall|a: int, b: int| 0 <= a < b < t.len() implies (#[trigger] t[a]).0 != (
    #[trigger] t[b]).0 by {
        assert(t[a] == s[a]);
        if b < s.len() {
            assert(t[b] == s[b]);
        }
    }
}

/// Replacing the value of the pair at `i` replaces it in the map.
pub proof fn lemma_update<K, V>(s: Seq<(K, V)>, i: int, v: V)
    requires
        distinct_keys(s),
        0 <= i < s.len(),
    ensures
        distinct_keys(s.update(i, (s[i].0, v))),
        to_map(s.update(i, (s[i].0, v))) == to_map(s).insert(s[i].0, v),
{
    let t = s.update(i, (s[i].0, v));
    assert forall|a: int, b: int| 0 <= a < b < t.len() implies (#[trigger] t[a]).0 != (
    #[trigger] t[b]).0 by {
        assert(t[a].0 == s[a].0 && t[b].0 == s[b].0);
    }
    lemma_keys(s);
    lemma_keys(t);
    let m = to_map(s).insert(s[i].0, v);
    assert forall|k: K| to_map(t).dom().contains(k) <==> m.dom().contains(k) by {
        if has_key(t, k) {
            let j = choose|j: int| 0 <= j < t.len() && (#[trigger] t[j]).0 == k;
            assert(s[j].0 == k);
        }
        if has_key(s, k) {
            let j = choose|j: int| 0 <= j < s.len() && (#[trigger] s[j]).0 == k;
            assert(t[j].0 == k);
        }
        if k == s[i].0 {
            assert(t[i].0 == k);
        }
    }
    assert forall|k: K| to_map(t).dom().contains(k) implies to_map(t)[k] == m[k] by {
        let j = choose|j: int| 0 <= j < t.len() && (#[trigger] t[j]).0 == k;
        lemma_entry(t, j);
        lemma_entry(s, j);
        assert(s[j].0 == k);
    }
    assert(to_map(t) =~= m);
}

/// Taking the pair at `i` out takes its key out of the map.
pub proof fn lemma_remove<K, V>(s: Seq<(K, V)>, i: int)
    requires
        distinct_keys(s),
        0 <= i < s.len(),
    ensures
        distinct_keys(s.remove(i)),
        to_map(s.remove(i)) == to_map(s).remove(s[i].0),
{
    let t = s.remove(i);
    assert forall|a: int, b: int| 0 <= a < b < t.len() implies (#[trigger] t[a]).0 != (
    #[trigger] t[b]).0 by {
        let a0 = if a < i {
            a
        } else {
            a + 1
        };
        let b0 = if b < i {
            b
        } else {
            b + 1
        };
        assert(t[a] == s[a0] && t[b] == s[b0]);
    }
    lemma_keys(s);
    lemma_keys(t);
    let m = to_map(s).remove(s[i].0);
    assert forall|k: K| to_map(t).dom().contains(k) <==> m.dom().contains(k) by {
        if has_key(t, k) {
            let j = choose|j: int| 0 <= j < t.len() && (#[trigger] t[j]).0 == k;
            let j0 = if j < i {
                j
            } else {
                j + 1
            };
            assert(s[j0].0 == k);
            assert(s[j0].0 != s[i].0);
        }
        if has_key(s, k) && k != s[i].0 {
            let j = choose|j: int| 0 <= j < s.len() && (#[trigger] s[j]).0 == k;
            let j1 = if j < i {
                j
            } else {
                j - 1
            };
            assert(t[j1].0 == k);
        }
    }
    assert forall|k: K| to_map(t).dom().contains(k) implies to_map(t)[k] == m[k] by {
        let j = choose|j: int| 0 <= j < t.len() && (#[trigger] t[j]).0 == k;
        let j0 = if j < i {
            j
        } else {
            j + 1
        };
        lemma_entry(t, j);
        lemma_entry(s, j0);
        assert(t[j] == s[j0]);
    }
    assert(to_map(t) =~= m);
}

} // verus!

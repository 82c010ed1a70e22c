//! Association lists: a sequence of key-value pairs read as a finite map.

use vstd::prelude::*;

verus! {

/// The map that a sequence of pairs stands for; a later pair overrides an
/// earlier one with the same key.
pub open spec fn assoc<K, V>(s: Seq<(K, V)>) -> Map<K, V>
    decreases s.len(),
{
    if s.len() == 0 {
        Map::empty()
    } else {
        assoc(s.drop_last()).insert(s.last().0, s.last().1)
    }
}

/// No key occurs twice.
pub open spec fn distinct_keys<K, V>(s: Seq<(K, V)>) -> bool {
    forall|i: int, j: int| 0 <= i < j < s.len() ==> s[i].0 != s[j].0
}

/// Some pair of `s` has the key `k`.
pub open spec fn has_key<K, V>(s: Seq<(K, V)>, k: K) -> bool {
    exists|i: int| 0 <= i < s.len() && (#[trigger] s[i]).0 == k
}

/// The keys of the map are the keys of the pairs.
pub proof fn lemma_assoc_dom<K, V>(s: Seq<(K, V)>, k: K)
    ensures
        assoc(s).dom().contains(k) <==> has_key(s, k),
    decreases s.len(),
{
    if s.len() > 0 {
        let t = s.drop_last();
        lemma_assoc_dom(t, k);
        if has_key(t, k) {
            let i = choose|i: int| 0 <= i < t.len() && (#[trigger] t[i]).0 == k;
            assert(s[i].0 == k);
        }
        if s.last().0 == k {
            assert(s[s.len() - 1].0 == k);
        }
        if has_key(s, k) {
            let i = choose|i: int| 0 <= i < s.len() && (#[trigger] s[i]).0 == k;
            if i < s.len() - 1 {
                assert(t[i].0 == k);
            }
        }
    }
}

/// With distinct keys, the map sends each pair's key to that pair's value.
pub proof fn lemma_assoc_value<K, V>(s: Seq<(K, V)>, i: int)
    requires
        distinct_keys(s),
        0 <= i < s.len(),
    ensures
        assoc(s).dom().contains(s[i].0),
        assoc(s)[s[i].0] == s[i].1,
    decreases s.len(),
{
    let t = s.drop_last();
    if i < s.len() - 1 {
        assert(distinct_keys(t)) by {
            assert forall|a: int, b: int| 0 <= a < b < t.len() implies t[a].0 != t[b].0 by {
                assert(s[a].0 != s[b].0);
            }
        }
        lemma_assoc_value(t, i);
        assert(t[i] == s[i]);
        assert(s[i].0 != s[s.len() - 1].0);
    }
}

/// Replacing the value of the pair at `i` is an insertion under its key.
pub proof fn lemma_assoc_update<K, V>(s: Seq<(K, V)>, i: int, v: V)
    requires
        distinct_keys(s),
        0 <= i < s.len(),
    ensures
        distinct_keys(s.update(i, (s[i].0, v))),
        assoc(s.update(i, (s[i].0, v))) == assoc(s).insert(s[i].0, v),
{
    let k = s[i].0;
    let t = s.update(i, (k, v));
    assert(distinct_keys(t)) by {
        assert forall|a: int, b: int| 0 <= a < b < t.len() implies t[a].0 != t[b].0 by {
            assert(s[a].0 != s[b].0);
        }
    }
    let m = assoc(s).insert(k, v);
    assert forall|q: K| assoc(t).dom().contains(q) <==> m.dom().contains(q) by {
        lemma_assoc_dom(s, q);
        lemma_assoc_dom(t, q);
        if has_key(s, q) {
            let a = choose|a: int| 0 <= a < s.len() && (#[trigger] s[a]).0 == q;
            assert(t[a].0 == q);
        }
        if has_key(t, q) {
            let a = choose|a: int| 0 <= a < t.len() && (#[trigger] t[a]).0 == q;
            assert(s[a].0 == q);
        }
        if q == k {
            assert(t[i].0 == q);
        }
    }
    assert forall|q: K| assoc(t).dom().contains(q) implies assoc(t)[q] == m[q] by {
        lemma_assoc_dom(t, q);
        let a = choose|a: int| 0 <= a < t.len() && (#[trigger] t[a]).0 == q;
        lemma_assoc_value(t, a);
        if a != i {
            lemma_assoc_value(s, a);
            if a < i {
                assert(s[a].0 != s[i].0);
            } else {
                assert(s[i].0 != s[a].0);
            }
        }
    }
    assert(assoc(t) =~= m);
}

/// Appending a pair whose key is new keeps the keys distinct.
pub proof fn lemma_assoc_push<K, V>(s: Seq<(K, V)>, k: K, v: V)
    requires
        distinct_keys(s),
        !has_key(s, k),
    ensures
        distinct_keys(s.push((k, v))),
        assoc(s.push((k, v))) == assoc(s).insert(k, v),
{
    let t = s.push((k, v));
    assert(t.drop_last() =~= s);
    assert forall|a: int, b: int| 0 <= a < b < t.len() implies t[a].0 != t[b].0 by {
        if b < s.len() {
            assert(s[a].0 != s[b].0);
        } else {
            assert(s[a].0 != k);
        }
    }
}

/// Taking out the pair at `i` removes its key from the map.
pub proof fn lemma_assoc_remove<K, V>(s: Seq<(K, V)>, i: int)
    requires
        distinct_keys(s),
        0 <= i < s.len(),
    ensures
        distinct_keys(s.remove(i)),
        assoc(s.remove(i)) == assoc(s).remove(s[i].0),
{
    let k = s[i].0;
    let t = s.remove(i);
    assert forall|a: int, b: int| 0 <= a < b < t.len() implies t[a].0 != t[b].0 by {
        let a0 = if a < i { a } else { a + 1 };
        let b0 = if b < i { b } else { b + 1 };
        assert(s[a0].0 != s[b0].0);
    }
    let m = assoc(s).remove(k);
    assert forall|q: K| assoc(t).dom().contains(q) <==> m.dom().contains(q) by {
        lemma_assoc_dom(s, q);
        lemma_assoc_dom(t, q);
        if has_key(t, q) {
            let a = choose|a: int| 0 <= a < t.len() && (#[trigger] t[a]).0 == q;
            let a0 = if a < i { a } else { a + 1 };
            assert(s[a0].0 == q);
            if a0 < i {
                assert(s[a0].0 != s[i].0);
            } else {
                assert(s[i].0 != s[a0].0);
            }
        }
        if has_key(s, q) && q != k {
            let a = choose|a: int| 0 <= a < s.len() && (#[trigger] s[a]).0 == q;
            let a1 = if a < i { a } else { a - 1 };
            assert(t[a1].0 == q);
        }
    }
    assert forall|q: K| assoc(t).dom().contains(q) implies assoc(t)[q] == m[q] by {
        lemma_assoc_dom(t, q);
        let a = choose|a: int| 0 <= a < t.len() && (#[trigger] t[a]).0 == q;
        let a0 = if a < i { a } else { a + 1 };
        lemma_assoc_value(t, a);
        lemma_assoc_value(s, a0);
    }
    assert(assoc(t) =~= m);
}

} // verus!

use std::collections::HashMap;
use vstd::prelude::*;
use vstd::std_specs::iter::IteratorSpec;

verus! {

broadcast use vstd::std_specs::hash::group_hash_axioms;

/// Whether entry `i` of `s` is the one for key `k`.
pub open spec fn entry_for<K, V>(s: Seq<(K, V)>, i: int, k: K) -> bool {
    0 <= i < s.len() && s[i].0 == k
}

/// No key occurs twice in `s`.
pub open spec fn keys_distinct<K, V>(s: Seq<(K, V)>) -> bool {
    forall|a: int, b: int|
        0 <= a < s.len() && 0 <= b < s.len() && a != b ==> #[trigger] s[a].0 != #[trigger] s[b].0
}

/// The map that a list of (key, value) entries with distinct keys stands for.
pub open spec fn pairs_map<K, V>(s: Seq<(K, V)>) -> Map<K, V> {
    Map::new(
        |k: K| exists|i: int| entry_for(s, i, k),
        |k: K| s[choose|i: int| entry_for(s, i, k)].1,
    )
}

/// In a list with distinct keys, the entry for a key is the one the map reads.
pub proof fn lemma_pairs_map_at<K, V>(s: Seq<(K, V)>, i: int)
    requires
        keys_distinct(s),
        0 <= i < s.len(),
    ensures
        pairs_map(s).contains_key(s[i].0),
        pairs_map(s)[s[i].0] == s[i].1,
{
    let k = s[i].0;
    assert(entry_for(s, i, k));
    let c = choose|c: int| entry_for(s, c, k);
    assert(entry_for(s, c, k));
    assert(s[c].0 == s[i].0);
    assert(c == i);
}

/// Appending an entry for a new key adds that key to the map.
pub proof fn lemma_pairs_map_push<K, V>(s: Seq<(K, V)>, k: K, v: V)
    requires
        keys_distinct(s),
        forall|x: int| !entry_for(s, x, k),
    ensures
        keys_distinct(s.push((k, v))),
        pairs_map(s.push((k, v))) == pairs_map(s).insert(k, v),
{
    let t = s.push((k, v));
    let n = s.len() as int;
    assert forall|a: int, b: int| 0 <= a < t.len() && 0 <= b < t.len() && a != b implies #[trigger] t[a].0
        != #[trigger] t[b].0 by {
        if a < n && b < n {
            assert(s[a].0 != s[b].0);
        } else if a < n {
            assert(!entry_for(s, a, k));
        } else {
            assert(!entry_for(s, b, k));
        }
    }
    assert forall|j: K| #[trigger] pairs_map(t).contains_key(j) == pairs_map(s).insert(
        k,
        v,
    ).contains_key(j) by {
        if j != k {
            if exists|x: int| entry_for(s, x, j) {
                let x = choose|x: int| entry_for(s, x, j);
                assert(entry_for(t, x, j));
            }
            if exists|x: int| entry_for(t, x, j) {
                let x = choose|x: int| entry_for(t, x, j);
                assert(entry_for(s, x, j));
            }
        } else {
            assert(entry_for(t, n, j));
        }
    }
    assert forall|j: K| #[trigger] pairs_map(t).contains_key(j) implies pairs_map(t)[j]
        == pairs_map(s).insert(k, v)[j] by {
        let c = choose|c: int| entry_for(t, c, j);
        assert(entry_for(t, c, j));
        if j == k {
            assert(t[c].0 == t[n].0);
            assert(c == n);
        } else {
            assert(entry_for(s, c, j));
            let c0 = choose|c0: int| entry_for(s, c0, j);
            assert(entry_for(s, c0, j));
            assert(t[c0].0 == t[c].0);
            assert(c0 == c);
        }
    }
    assert(pairs_map(t) =~= pairs_map(s).insert(k, v));
}

/// Replacing the value of entry `i` replaces the value its key maps to.
pub proof fn lemma_pairs_map_update<K, V>(s: Seq<(K, V)>, i: int, v: V)
    requires
        keys_distinct(s),
        0 <= i < s.len(),
    ensures
        keys_distinct(s.update(i, (s[i].0, v))),
        pairs_map(s.update(i, (s[i].0, v))) == pairs_map(s).insert(s[i].0, v),
{
    let k = s[i].0;
    let t = s.update(i, (k, v));
    assert forall|a: int, b: int| 0 <= a < t.len() && 0 <= b < t.len() && a != b implies #[trigger] t[a].0
        != #[trigger] t[b].0 by {
        assert(s[a].0 != s[b].0);
    }
    assert forall|j: K| #[trigger] pairs_map(t).contains_key(j) == pairs_map(s).insert(
        k,
        v,
    ).contains_key(j) by {
        if j != k {
            if exists|x: int| entry_for(s, x, j) {
                let x = choose|x: int| entry_for(s, x, j);
                assert(entry_for(t, x, j));
            }
            if exists|x: int| entry_for(t, x, j) {
                let x = choose|x: int| entry_for(t, x, j);
                assert(entry_for(s, x, j));
            }
        } else {
            assert(entry_for(t, i, j));
        }
    }
    assert forall|j: K| #[trigger] pairs_map(t).contains_key(j) implies pairs_map(t)[j]
        == pairs_map(s).insert(k, v)[j] by {
        let c = choose|c: int| entry_for(t, c, j);
        assert(entry_for(t, c, j));
        if j == k {
            assert(t[c].0 == t[i].0);
            assert(c == i);
        } else {
            assert(entry_for(s, c, j));
            let c0 = choose|c0: int| entry_for(s, c0, j);
            assert(entry_for(s, c0, j));
            assert(s[c0].0 == s[c].0);
            assert(c0 == c);
        }
    }
    assert(pairs_map(t) =~= pairs_map(s).insert(k, v));
}

/// The keys of a list of entries, in order.
pub open spec fn keys_of<K, V>(s: Seq<(K, V)>) -> Seq<K> {
    s.map_values(|e: (K, V)| e.0)
}

/// A list with distinct keys stands for a finite map with one key per entry.
pub proof fn lemma_pairs_map_len<K, V>(s: Seq<(K, V)>)
    requires
        keys_distinct(s),
    ensures
        pairs_map(s).dom() == keys_of(s).to_set(),
        pairs_map(s).dom().finite(),
        pairs_map(s).len() == s.len(),
{
    let ks = keys_of(s);
    assert forall|k: K| #[trigger] pairs_map(s).dom().contains(k) == ks.to_set().contains(k) by {
        if exists|i: int| entry_for(s, i, k) {
            let i = choose|i: int| entry_for(s, i, k);
            assert(ks[i] == k);
        }
        if ks.to_set().contains(k) {
            let i = choose|i: int| 0 <= i < ks.len() && ks[i] == k;
            assert(entry_for(s, i, k));
        }
    }
    assert(pairs_map(s).dom() =~= ks.to_set());
    assert(ks.no_duplicates()) by {
        assert forall|a: int, b: int| 0 <= a < ks.len() && 0 <= b < ks.len() && a != b implies ks[a]
            != ks[b] by {
            assert(s[a].0 != s[b].0);
        }
    }
    ks.unique_seq_to_set();
    vstd::seq_lib::seq_to_set_is_finite(ks);
}

/// The entries of a map keyed by `u64`, in the order the map yields them.
pub fn export_map<V: Copy>(m: &HashMap<u64, V>) -> (r: Vec<(u64, V)>)
    ensures
        keys_distinct(r@),
        pairs_map(r@) == m@,
        r@.len() == m@.len(),
{
    let mut out: Vec<(u64, V)> = Vec::new();
    let ghost s = vstd::std_specs::hash::spec_hash_map_iter(m).remaining();
    for (k, v) in it: m.iter()
        invariant
            out@.len() == it.index(),
            it.seq() == s,
            forall|i: int| 0 <= i < out@.len() ==> #[trigger] out@[i] == (*s[i].0, *s[i].1),
    {
        out.push((*k, *v));
    }
    assert forall|a: int, b: int|
        0 <= a < out@.len() && 0 <= b < out@.len() && a != b implies #[trigger] out@[a].0
        != #[trigger] out@[b].0 by {
        if out@[a].0 == out@[b].0 {
            assert(m@.contains_key(*s[a].0) && m@[*s[a].0] == *s[a].1);
            assert(m@.contains_key(*s[b].0) && m@[*s[b].0] == *s[b].1);
            assert(s[a] == s[b]);
        }
    }
    assert forall|k: u64| #[trigger] pairs_map(out@).contains_key(k) == m@.contains_key(k) by {
        if m@.contains_key(k) {
            assert(s.contains((&k, &m@[k])));
            let j = choose|j: int| 0 <= j < s.len() && s[j] == (&k, &m@[k]);
            assert(entry_for(out@, j, k));
        }
        if pairs_map(out@).contains_key(k) {
            let j = choose|j: int| entry_for(out@, j, k);
            assert(m@.contains_key(*s[j].0));
        }
    }
    assert forall|k: u64| #[trigger] pairs_map(out@).contains_key(k) implies pairs_map(out@)[k]
        == m@[k] by {
        let j = choose|j: int| entry_for(out@, j, k);
        assert(entry_for(out@, j, k));
        assert(m@.contains_key(*s[j].0) && m@[*s[j].0] == *s[j].1);
    }
    assert(pairs_map(out@) =~= m@);
    out
}

/// The map a list of entries stands for, or `None` where a key occurs twice.
pub fn import_map<V: Copy>(v: &Vec<(u64, V)>) -> (r: Option<HashMap<u64, V>>)
    ensures
        r is Some <==> keys_distinct(v@),
        r matches Some(m) ==> m@ == pairs_map(v@),
{
    let mut m: HashMap<u64, V> = HashMap::new();
    let mut k: usize = 0;
    while k < v.len()
        invariant
            k <= v.len(),
            keys_distinct(v@.subrange(0, k as int)),
            m@ == pairs_map(v@.subrange(0, k as int)),
        decreases v.len() - k,
    {
        let (key, value) = v[k];
        let ghost prefix = v@.subrange(0, k as int);
        if m.contains_key(&key) {
            proof {
                let j = choose|j: int| entry_for(prefix, j, key);
                assert(v@[j].0 == v@[k as int].0);
            }
            return None;
        }
        proof {
            lemma_pairs_map_push(prefix, key, value);
            assert(v@.subrange(0, k + 1) =~= prefix.push((key, value)));
        }
        m.insert(key, value);
        k = k + 1;
    }
    assert(v@.subrange(0, k as int) =~= v@);
    Some(m)
}

} // verus!

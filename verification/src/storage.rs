//! Saving a contract's storage as lists of entries and loading it back, so
//! that a host can keep the state between invocations.

use vstd::prelude::*;
use std::collections::HashMap;
use std::hash::Hash;
use vstd::std_specs::iter::IteratorSpec;
use crate::common::{lemma_pair_key_injective, lemma_pair_view_insert, pair_key, pair_view, spec_pair_key, Address};

verus! {

/// The map that a list of entries describes; a later entry for a key replaces
/// an earlier one.
pub open spec fn entries_map<K, V>(entries: Seq<(K, V)>) -> Map<K, V>
    decreases entries.len(),
{
    if entries.len() == 0 {
        Map::empty()
    } else {
        entries_map(entries.drop_last()).insert(entries.last().0, entries.last().1)
    }
}

/// No key appears twice in the list.
pub open spec fn keys_distinct<K, V>(entries: Seq<(K, V)>) -> bool {
    forall|i: int, j: int| 0 <= i < j < entries.len() ==> entries[i].0 != entries[j].0
}

/// A list with distinct keys that lists exactly the entries of `m` describes `m`.
pub proof fn lemma_entries_map_of<K, V>(s: Seq<(K, V)>, m: Map<K, V>)
    requires
        keys_distinct(s),
        forall|i: int| 0 <= i < s.len() ==> m.contains_key(#[trigger] s[i].0) && m[s[i].0] == s[i].1,
        forall|k: K| #[trigger] m.contains_key(k) ==> exists|i: int| 0 <= i < s.len() && s[i].0 == k,
    ensures
        entries_map(s) == m,
    decreases s.len(),
{
    if s.len() == 0 {
        assert forall|k: K| !m.contains_key(k) by {
            if m.contains_key(k) {
                let i = choose|i: int| 0 <= i < s.len() && s[i].0 == k;
            }
        }
        assert(m =~= Map::empty());
    } else {
        let last = s.last();
        let init = s.drop_last();
        let m2 = m.remove(last.0);
        assert forall|i: int| 0 <= i < init.len() implies m2.contains_key(#[trigger] init[i].0) && m2[init[i].0]
            == init[i].1 by {
            assert(s[i].0 != s[s.len() - 1].0);
            assert(init[i] == s[i]);
        }
        assert forall|k: K| #[trigger] m2.contains_key(k) implies exists|i: int| 0 <= i < init.len() && init[i].0 == k by {
            let i = choose|i: int| 0 <= i < s.len() && s[i].0 == k;
            assert(i != s.len() - 1);
            assert(init[i] == s[i]);
        }
        lemma_entries_map_of(init, m2);
        assert(m.contains_key(s[s.len() - 1].0));
        assert(entries_map(s) =~= m);
    }
}

/// The entries of `m`, each key once, in the map's iteration order.
pub fn entries_of<K: Copy + Eq + Hash, V: Copy>(m: &HashMap<K, V>) -> (v: Vec<(K, V)>)
    requires
        vstd::std_specs::hash::obeys_key_model::<K>(),
    ensures
        keys_distinct(v@),
        entries_map(v@) == m@,
{
    broadcast use vstd::std_specs::hash::axiom_spec_hash_map_iter;
    let mut out: Vec<(K, V)> = Vec::new();
    for p in it: m.iter()
        invariant
            it.seq() == vstd::std_specs::hash::spec_hash_map_iter(m).remaining(),
            out@.len() == it.index(),
            forall|i: int| 0 <= i < it.index() ==> #[trigger] out@[i] == (*it.seq()[i].0, *it.seq()[i].1),
    {
        let (k, val) = p;
        out.push((*k, *val));
    }
    proof {
        let s = vstd::std_specs::hash::spec_hash_map_iter(m).remaining();
        assert(out@.len() == s.len());
        assert forall|i: int| 0 <= i < out@.len() implies m@.contains_key(#[trigger] out@[i].0) && m@[out@[i].0]
            == out@[i].1 by {
            assert(m@.contains_key(*s[i].0));
        }
        assert forall|i: int, j: int| 0 <= i < j < out@.len() implies out@[i].0 != out@[j].0 by {
            if out@[i].0 == out@[j].0 {
                assert(m@.contains_key(*s[i].0));
                assert(m@.contains_key(*s[j].0));
                assert(s[i] == s[j]);
            }
        }
        assert forall|k: K| #[trigger] m@.contains_key(k) implies exists|i: int| 0 <= i < out@.len() && out@[i].0 == k by {
            assert(s.contains((&k, &m@[k])));
            let i = choose|i: int| 0 <= i < s.len() && s[i] == (&k, &m@[k]);
            assert(out@[i].0 == k);
        }
        lemma_entries_map_of(out@, m@);
    }
    out
}

/// The map of a list of entries, built as a hash map.
pub fn map_of<K: Copy + Eq + Hash, V: Copy>(entries: &Vec<(K, V)>) -> (m: HashMap<K, V>)
    requires
        vstd::std_specs::hash::obeys_key_model::<K>(),
    ensures
        m@ == entries_map(entries@),
{
    let mut m: HashMap<K, V> = HashMap::new();
    let mut i: usize = 0;
    while i < entries.len()
        invariant
            vstd::std_specs::hash::obeys_key_model::<K>(),
            i <= entries@.len(),
            m@ == entries_map(entries@.take(i as int)),
        decreases entries@.len() - i,
    {
        let (k, v) = entries[i];
        m.insert(k, v);
        assert(entries@.take(i + 1).drop_last() =~= entries@.take(i as int));
        i += 1;
    }
    assert(entries@.take(entries@.len() as int) =~= entries@);
    m
}

/// The map from addresses that a map keyed by address ids stores.
pub open spec fn addr_view<V>(inner: Map<u64, V>) -> Map<Address, V> {
    Map::new(|a: Address| inner.contains_key(a.id), |a: Address| inner[a.id])
}

/// The entries of a map keyed by address ids, each address once.
pub fn addr_entries_of<V: Copy>(m: &HashMap<u64, V>) -> (v: Vec<(Address, V)>)
    ensures
        keys_distinct(v@),
        entries_map(v@) == addr_view(m@),
{
    let raw = entries_of(m);
    let mut out: Vec<(Address, V)> = Vec::new();
    let mut i: usize = 0;
    while i < raw.len()
        invariant
            i <= raw@.len(),
            out@.len() == i,
            forall|j: int| 0 <= j < i ==> #[trigger] out@[j] == (Address { id: raw@[j].0 }, raw@[j].1),
        decreases raw@.len() - i,
    {
        let (k, val) = raw[i];
        out.push((Address { id: k }, val));
        i += 1;
    }
    proof {
        lemma_entries_map_distinct(raw@);
        assert forall|j: int| 0 <= j < out@.len() implies addr_view(m@).contains_key(#[trigger] out@[j].0)
            && addr_view(m@)[out@[j].0] == out@[j].1 by {
            assert(entries_map(raw@).contains_key(raw@[j].0));
        }
        assert forall|a: Address| #[trigger] addr_view(m@).contains_key(a) implies exists|j: int|
            0 <= j < out@.len() && out@[j].0 == a by {
            let j = lemma_entries_map_witness(raw@, a.id);
            assert(out@[j].0 == a);
        }
        lemma_entries_map_of(out@, addr_view(m@));
    }
    out
}

/// A map keyed by address ids holding the entries of a list.
pub fn addr_map_of<V: Copy>(entries: &Vec<(Address, V)>) -> (m: HashMap<u64, V>)
    ensures
        addr_view(m@) == entries_map(entries@),
{
    let mut m: HashMap<u64, V> = HashMap::new();
    let mut i: usize = 0;
    while i < entries.len()
        invariant
            i <= entries@.len(),
            addr_view(m@) == entries_map(entries@.take(i as int)),
        decreases entries@.len() - i,
    {
        let (a, v) = entries[i];
        let ghost before = m@;
        m.insert(a.id, v);
        assert(entries@.take(i + 1).drop_last() =~= entries@.take(i as int));
        assert(addr_view(m@) =~= addr_view(before).insert(a, v));
        i += 1;
    }
    assert(entries@.take(entries@.len() as int) =~= entries@);
    m
}

/// In a list with distinct keys, each entry is the map's entry for its key.
pub proof fn lemma_entries_map_distinct<K, V>(s: Seq<(K, V)>)
    requires
        keys_distinct(s),
    ensures
        forall|j: int| 0 <= j < s.len() ==> entries_map(s).contains_key(#[trigger] s[j].0) && entries_map(s)[s[j].0]
            == s[j].1,
    decreases s.len(),
{
    if s.len() > 0 {
        let init = s.drop_last();
        assert forall|i: int, j: int| 0 <= i < j < init.len() implies init[i].0 != init[j].0 by {
            assert(init[i] == s[i] && init[j] == s[j]);
        }
        lemma_entries_map_distinct(init);
        assert forall|j: int| 0 <= j < s.len() implies entries_map(s).contains_key(#[trigger] s[j].0)
            && entries_map(s)[s[j].0] == s[j].1 by {
            if j < s.len() - 1 {
                assert(init[j] == s[j]);
                assert(s[j].0 != s[s.len() - 1].0);
            }
        }
    }
}

/// Every key of the map of a list is the key of some entry.
pub proof fn lemma_entries_map_witness<K, V>(s: Seq<(K, V)>, k: K) -> (j: int)
    requires
        entries_map(s).contains_key(k),
    ensures
        0 <= j < s.len(),
        s[j].0 == k,
    decreases s.len(),
{
    if s.len() == 0 {
        0
    } else if s.last().0 == k {
        s.len() - 1
    } else {
        let j = lemma_entries_map_witness(s.drop_last(), k);
        assert(s.drop_last()[j] == s[j]);
        j
    }
}

/// The (address, id) pair whose storage key is `k`.
pub open spec fn spec_pair_of_key(k: u128) -> (Address, u32) {
    (Address { id: (k >> 32u128) as u64 }, k as u32)
}

/// Keys below 2^96 are exactly the keys of (address, id) pairs.
pub proof fn lemma_pair_key_decode(a: Address, id: u32, k: u128)
    ensures
        spec_pair_key(a, id) >> 96u128 == 0,
        k >> 96u128 == 0 ==> spec_pair_key(spec_pair_of_key(k).0, spec_pair_of_key(k).1) == k,
{
    let x = a.id;
    assert((((x as u128) << 32u128) | (id as u128)) >> 96u128 == 0) by (bit_vector);
    assert(k >> 96u128 == 0 ==> (((((k >> 32u128) as u64) as u128) << 32u128) | ((k as u32) as u128)) == k)
        by (bit_vector);
}

/// The entries of a map keyed by (address, id) storage keys, each pair once.
pub fn pair_entries_of<V: Copy>(m: &HashMap<u128, V>) -> (v: Vec<((Address, u32), V)>)
    ensures
        keys_distinct(v@),
        entries_map(v@) == pair_view(m@),
{
    let raw = entries_of(m);
    let mut out: Vec<((Address, u32), V)> = Vec::new();
    let ghost mut from: Seq<int> = Seq::empty();
    let mut i: usize = 0;
    while i < raw.len()
        invariant
            i <= raw@.len(),
            keys_distinct(raw@),
            entries_map(raw@) == m@,
            from.len() == out@.len(),
            forall|t: int| 0 <= t < out@.len() ==> 0 <= #[trigger] from[t] < i && raw@[from[t]].0 >> 96u128 == 0
                && out@[t] == (spec_pair_of_key(raw@[from[t]].0), raw@[from[t]].1),
            forall|t: int, u: int| 0 <= t < u < out@.len() ==> #[trigger] from[t] < #[trigger] from[u],
            forall|j: int| 0 <= j < i && #[trigger] raw@[j].0 >> 96u128 == 0 ==> exists|t: int|
                0 <= t < out@.len() && from[t] == j,
        decreases raw@.len() - i,
    {
        let (k, val) = raw[i];
        let ghost from0 = from;
        let ghost n0 = out@.len();
        if k >> 96u128 == 0 {
            out.push(((Address { id: #[verifier::truncate] ((k >> 32u128) as u64) }, #[verifier::truncate] (k as u32)), val));
            proof {
                from = from.push(i as int);
            }
        }
        proof {
            assert forall|j: int| 0 <= j < i + 1 && #[trigger] raw@[j].0 >> 96u128 == 0 implies exists|t: int|
                0 <= t < out@.len() && from[t] == j by {
                if j == i as int {
                    assert(from[n0 as int] == j);
                } else {
                    let t = choose|t: int| 0 <= t < n0 && from0[t] == j;
                    assert(from[t] == j);
                }
            }
        }
        i += 1;
    }
    proof {
        lemma_entries_map_distinct(raw@);
        assert forall|t: int, u: int| 0 <= t < u < out@.len() implies out@[t].0 != out@[u].0 by {
            let kt = raw@[from[t]].0;
            let ku = raw@[from[u]].0;
            lemma_pair_key_decode(out@[t].0.0, out@[t].0.1, kt);
            lemma_pair_key_decode(out@[u].0.0, out@[u].0.1, ku);
            assert(kt != ku);
        }
        assert forall|t: int| 0 <= t < out@.len() implies pair_view(m@).contains_key(#[trigger] out@[t].0)
            && pair_view(m@)[out@[t].0] == out@[t].1 by {
            let k = raw@[from[t]].0;
            lemma_pair_key_decode(out@[t].0.0, out@[t].0.1, k);
            assert(entries_map(raw@).contains_key(raw@[from[t]].0));
        }
        assert forall|p: (Address, u32)| #[trigger] pair_view(m@).contains_key(p) implies exists|t: int|
            0 <= t < out@.len() && out@[t].0 == p by {
            let k = spec_pair_key(p.0, p.1);
            let j = lemma_entries_map_witness(raw@, k);
            lemma_pair_key_decode(p.0, p.1, k);
            assert(raw@[j].0 >> 96u128 == 0);
            let t = choose|t: int| 0 <= t < out@.len() && from[t] == j;
            let q = spec_pair_of_key(k);
            lemma_pair_key_injective(q.0, q.1, p.0, p.1);
            assert(out@[t].0 == p);
        }
        lemma_entries_map_of(out@, pair_view(m@));
    }
    out
}

/// A map keyed by (address, id) storage keys holding the entries of a list.
pub fn pair_map_of<V: Copy>(entries: &Vec<((Address, u32), V)>) -> (m: HashMap<u128, V>)
    ensures
        pair_view(m@) == entries_map(entries@),
{
    let mut m: HashMap<u128, V> = HashMap::new();
    let mut i: usize = 0;
    assert(pair_view(m@) =~= Map::<(Address, u32), V>::empty());
    while i < entries.len()
        invariant
            i <= entries@.len(),
            pair_view(m@) == entries_map(entries@.take(i as int)),
        decreases entries@.len() - i,
    {
        let (p, v) = entries[i];
        let ghost before = m@;
        m.insert(pair_key(p.0, p.1), v);
        proof {
            lemma_pair_view_insert(before, p.0, p.1, v);
        }
        assert(entries@.take(i + 1).drop_last() =~= entries@.take(i as int));
        i += 1;
    }
    assert(entries@.take(entries@.len() as int) =~= entries@);
    m
}

/// The keys of `m`, each once, in the map's iteration order.
pub fn keys_of<K: Copy + Eq + Hash, V>(m: &HashMap<K, V>) -> (v: Vec<K>)
    requires
        vstd::std_specs::hash::obeys_key_model::<K>(),
    ensures
        forall|i: int, j: int| 0 <= i < j < v@.len() ==> v@[i] != v@[j],
        forall|i: int| 0 <= i < v@.len() ==> m@.contains_key(#[trigger] v@[i]),
        forall|k: K| #[trigger] m@.contains_key(k) ==> exists|i: int| 0 <= i < v@.len() && v@[i] == k,
{
    broadcast use vstd::std_specs::hash::axiom_spec_hash_map_iter;
    let mut out: Vec<K> = Vec::new();
    for p in it: m.iter()
        invariant
            it.seq() == vstd::std_specs::hash::spec_hash_map_iter(m).remaining(),
            out@.len() == it.index(),
            forall|i: int| 0 <= i < it.index() ==> #[trigger] out@[i] == *it.seq()[i].0,
    {
        let (k, _) = p;
        out.push(*k);
    }
    proof {
        let s = vstd::std_specs::hash::spec_hash_map_iter(m).remaining();
        assert forall|i: int| 0 <= i < out@.len() implies m@.contains_key(#[trigger] out@[i]) by {
            assert(m@.contains_key(*s[i].0));
        }
        assert forall|i: int, j: int| 0 <= i < j < out@.len() implies out@[i] != out@[j] by {
            if out@[i] == out@[j] {
                assert(m@.contains_key(*s[i].0) && m@[*s[i].0] == *s[i].1);
                assert(m@.contains_key(*s[j].0) && m@[*s[j].0] == *s[j].1);
                assert(s[i] == s[j]);
            }
        }
        assert forall|k: K| #[trigger] m@.contains_key(k) implies exists|i: int| 0 <= i < out@.len() && out@[i] == k by {
            assert(s.contains((&k, &m@[k])));
            let i = choose|i: int| 0 <= i < s.len() && s[i] == (&k, &m@[k]);
            assert(out@[i] == k);
        }
    }
    out
}

} // verus!
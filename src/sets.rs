//! Small helpers over std's hashed collections of identifiers.
use std::collections::{HashMap, HashSet};
use vstd::prelude::*;

verus! {

broadcast use vstd::std_specs::hash::group_hash_axioms;

/// A duplicate-free sequence of members of `s` that is as long as `s` lists
/// exactly the members of `s`.
proof fn lemma_full_listing(v: Seq<u64>, s: Set<u64>)
    requires
        s.finite(),
        v.no_duplicates(),
        v.len() == s.len(),
        forall|j: int| 0 <= j < v.len() ==> s.contains(#[trigger] v[j]),
    ensures
        v.to_set() == s,
{
    v.unique_seq_to_set();
    assert(v.to_set().subset_of(s));
    if exists|e: u64| s.contains(e) && !v.to_set().contains(e) {
        let e = choose|e: u64| s.contains(e) && !v.to_set().contains(e);
        v.to_set().lemma_subset_not_in_lt(s, e);
    }
    assert(v.to_set() =~= s);
}

/// Lists the members of `s`, each once, in the set's iteration order.
pub fn set_elements(s: &HashSet<u64>) -> (v: Vec<u64>)
    ensures
        v@.to_set() == s@,
        v@.no_duplicates(),
        v@.len() == s@.len(),
{
    let mut v: Vec<u64> = Vec::new();
    for x in it: s.iter()
        invariant
            v@.len() == it.index(),
            forall|j: int| 0 <= j < it.index() ==> v@[j] == *it.seq()[j],
            it.seq().unref().to_set() == s@,
            it.seq().no_duplicates(),
            it.seq().len() == s@.len(),
            forall|j: int| 0 <= j < v@.len() ==> s@.contains(#[trigger] v@[j]),
            v@.no_duplicates(),
    {
        proof {
            assert(it.seq().unref().contains(*x));
            assert forall|j: int| 0 <= j < v@.len() implies v@[j] != *x by {
                assert(it.seq()[j] != it.seq()[it.index()]);
            }
        }
        v.push(*x);
    }
    proof {
        lemma_full_listing(v@, s@);
    }
    v
}

/// Lists the keys of `m`, each once, in the map's iteration order.
pub fn key_elements<V>(m: &HashMap<u64, V>) -> (v: Vec<u64>)
    ensures
        v@.to_set() == m@.dom(),
        v@.no_duplicates(),
{
    let mut v: Vec<u64> = Vec::new();
    for x in it: m.keys()
        invariant
            v@.len() == it.index(),
            forall|j: int| 0 <= j < it.index() ==> v@[j] == *it.seq()[j],
            it.seq().unref().to_set() == m@.dom(),
            it.seq().no_duplicates(),
            it.seq().len() == m@.dom().len(),
            forall|j: int| 0 <= j < v@.len() ==> m@.dom().contains(#[trigger] v@[j]),
            v@.no_duplicates(),
    {
        proof {
            assert(it.seq().unref().contains(*x));
            assert forall|j: int| 0 <= j < v@.len() implies v@[j] != *x by {
                assert(it.seq()[j] != it.seq()[it.index()]);
            }
        }
        v.push(*x);
    }
    proof {
        lemma_full_listing(v@, m@.dom());
    }
    v
}

/// A copy of `s`.
pub fn copy_set(s: &HashSet<u64>) -> (r: HashSet<u64>)
    ensures
        r@ == s@,
{
    let v = set_elements(s);
    let mut r: HashSet<u64> = HashSet::new();
    for i in 0..v.len()
        invariant
            r@ == v@.subrange(0, i as int).to_set(),
    {
        proof {
            assert(v@.subrange(0, i + 1) =~= v@.subrange(0, i as int) + seq![v@[i as int]]);
            Seq::lemma_to_set_insert_commutes(v@.subrange(0, i as int), v@[i as int]);
        }
        r.insert(v[i]);
    }
    assert(v@.subrange(0, v@.len() as int) == v@);
    r
}

} // verus!

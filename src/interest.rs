//! The interest map: for each followed author, the clients that want it.
use crate::sets::{key_elements, set_elements};
use std::collections::{HashMap, HashSet};
use vstd::prelude::*;

verus! {

broadcast use vstd::std_specs::hash::group_hash_axioms;

/// The clients under `fid` in `m`; empty when `fid` is not a key.
pub open spec fn subscribers(m: Map<u64, Set<u64>>, fid: u64) -> Set<u64> {
    if m.contains_key(fid) {
        m[fid]
    } else {
        Set::empty()
    }
}

/// The clients under `fid` once client `cid` has replaced its interests by `follows`.
pub open spec fn replaced_subscribers(
    m: Map<u64, Set<u64>>,
    cid: u64,
    follows: Set<u64>,
    fid: u64,
) -> Set<u64> {
    if follows.contains(fid) {
        subscribers(m, fid).insert(cid)
    } else {
        subscribers(m, fid).remove(cid)
    }
}

/// The interest map once client `cid` has replaced its interests by
/// `follows`: `cid` stands exactly under the authors in `follows`, every
/// other client keeps its place, and authors nobody wants are gone.
pub open spec fn after_delta(m: Map<u64, Set<u64>>, cid: u64, follows: Set<u64>) -> Map<
    u64,
    Set<u64>,
> {
    Map::new(
        |fid: u64| replaced_subscribers(m, cid, follows, fid) != Set::<u64>::empty(),
        |fid: u64| replaced_subscribers(m, cid, follows, fid),
    )
}

/// Some author in `follows` is not yet a key of `m`.
pub open spec fn introduces_author(m: Map<u64, Set<u64>>, follows: Set<u64>) -> bool {
    exists|fid: u64| follows.contains(fid) && !m.contains_key(fid)
}

/// Some key of `m` disappears when `cid` replaces its interests by `follows`.
pub open spec fn drops_author(m: Map<u64, Set<u64>>, cid: u64, follows: Set<u64>) -> bool {
    exists|fid: u64| m.contains_key(fid) && !after_delta(m, cid, follows).contains_key(fid)
}

/// Every key has at least one subscriber.
pub open spec fn valid_interests(m: Map<u64, Set<u64>>) -> bool {
    forall|fid: u64| m.contains_key(fid) ==> #[trigger] m[fid] != Set::<u64>::empty()
}

/// Only the latest delta of a client counts: a delta applied over an earlier
/// delta of the same client gives the map that the later one alone gives.
pub proof fn lemma_latest_delta_wins(
    m: Map<u64, Set<u64>>,
    cid: u64,
    first: Set<u64>,
    second: Set<u64>,
)
    ensures
        after_delta(after_delta(m, cid, first), cid, second) == after_delta(m, cid, second),
{
    let mid = after_delta(m, cid, first);
    assert forall|fid: u64| subscribers(mid, fid) == replaced_subscribers(m, cid, first, fid) by {
        if !mid.contains_key(fid) {
            assert(replaced_subscribers(m, cid, first, fid) == Set::<u64>::empty());
        }
    }
    assert forall|fid: u64|
        #[trigger] replaced_subscribers(mid, cid, second, fid) == replaced_subscribers(
            m,
            cid,
            second,
            fid,
        ) by {
        assert(subscribers(mid, fid) == replaced_subscribers(m, cid, first, fid));
        if second.contains(fid) {
            assert(replaced_subscribers(mid, cid, second, fid) =~= replaced_subscribers(
                m,
                cid,
                second,
                fid,
            ));
        } else {
            assert(replaced_subscribers(mid, cid, second, fid) =~= replaced_subscribers(
                m,
                cid,
                second,
                fid,
            ));
        }
    }
    assert(after_delta(mid, cid, second) =~= after_delta(m, cid, second));
}

/// After a delta, an author is a key exactly when its subscriber set is not
/// empty, and client `cid` stands under an author exactly when `follows`
/// holds it.
pub proof fn lemma_delta_membership(m: Map<u64, Set<u64>>, cid: u64, follows: Set<u64>)
    ensures
        valid_interests(after_delta(m, cid, follows)),
        forall|fid: u64|
            #[trigger] after_delta(m, cid, follows).contains_key(fid) <==> replaced_subscribers(
                m,
                cid,
                follows,
                fid,
            ) != Set::<u64>::empty(),
        forall|fid: u64|
            #[trigger] subscribers(after_delta(m, cid, follows), fid).contains(cid)
                <==> follows.contains(fid),
{
    let r = after_delta(m, cid, follows);
    assert forall|fid: u64|
        #[trigger] subscribers(r, fid).contains(cid) <==> follows.contains(fid) by {
        if follows.contains(fid) {
            assert(replaced_subscribers(m, cid, follows, fid).contains(cid));
        }
    }
}

/// The map after the first stage of a delta: `cid` has left every author in
/// `done` that it no longer wants, and authors left without subscribers are gone.
spec fn without_client(m: Map<u64, Set<u64>>, cid: u64, follows: Set<u64>, done: Set<u64>) -> Map<
    u64,
    Set<u64>,
> {
    Map::new(
        |fid: u64|
            m.contains_key(fid) && (done.contains(fid) && !follows.contains(fid) ==> m[fid].remove(
                cid,
            ) != Set::<u64>::empty()),
        |fid: u64|
            if done.contains(fid) && !follows.contains(fid) {
                m[fid].remove(cid)
            } else {
                m[fid]
            },
    )
}

/// The map after the second stage of a delta: `cid` stands under every author in `done`.
spec fn with_client(m: Map<u64, Set<u64>>, cid: u64, done: Set<u64>) -> Map<u64, Set<u64>> {
    Map::new(
        |fid: u64| m.contains_key(fid) || done.contains(fid),
        |fid: u64|
            if done.contains(fid) {
                subscribers(m, fid).insert(cid)
            } else {
                m[fid]
            },
    )
}

proof fn lemma_prefix_to_set(v: Seq<u64>, i: int)
    requires
        0 <= i < v.len(),
    ensures
        v.subrange(0, i + 1).to_set() == v.subrange(0, i).to_set().insert(v[i]),
{
    assert(v.subrange(0, i + 1) =~= v.subrange(0, i) + seq![v[i]]);
    Seq::lemma_to_set_insert_commutes(v.subrange(0, i), v[i]);
}

proof fn lemma_prefix_excludes(v: Seq<u64>, i: int)
    requires
        0 <= i < v.len(),
        v.no_duplicates(),
    ensures
        !v.subrange(0, i).to_set().contains(v[i]),
{
    if v.subrange(0, i).to_set().contains(v[i]) {
        let k = choose|k: int| 0 <= k < i && v.subrange(0, i)[k] == v[i];
        assert(v[k] == v[i]);
    }
}

spec fn view_of(m: Map<u64, HashSet<u64>>) -> Map<u64, Set<u64>> {
    Map::new(|fid: u64| m.contains_key(fid), |fid: u64| m[fid]@)
}

proof fn lemma_view_remove(m: Map<u64, HashSet<u64>>, fid: u64)
    ensures
        view_of(m.remove(fid)) == view_of(m).remove(fid),
{
    assert(view_of(m.remove(fid)) =~= view_of(m).remove(fid));
}

proof fn lemma_view_insert(m: Map<u64, HashSet<u64>>, fid: u64, h: HashSet<u64>)
    ensures
        view_of(m.insert(fid, h)) == view_of(m).insert(fid, h@),
{
    assert(view_of(m.insert(fid, h)) =~= view_of(m).insert(fid, h@));
}

/// What a delta did to the set of keys.
#[derive(Clone, Copy, Debug, PartialEq, Eq, Structural)]
pub struct DeltaEffect {
    /// At least one author became a key.
    pub grew: bool,
    /// At least one author stopped being a key.
    pub shrunk: bool,
}

/// Mapping from followed author to the set of clients that want it.
pub struct InterestMap {
    by_author: HashMap<u64, HashSet<u64>>,
}

impl View for InterestMap {
    type V = Map<u64, Set<u64>>;

    closed spec fn view(&self) -> Map<u64, Set<u64>> {
        view_of(self.by_author@)
    }
}

impl InterestMap {
    /// An empty map: nobody follows anything.
    pub fn new() -> (r: InterestMap)
        ensures
            r@ == Map::<u64, Set<u64>>::empty(),
    {
        let r = InterestMap { by_author: HashMap::new() };
        assert(r@ =~= Map::<u64, Set<u64>>::empty());
        r
    }

    /// Whether no author is followed.
    pub fn is_empty(&self) -> (r: bool)
        ensures
            r == (self@.dom() == Set::<u64>::empty()),
    {
        let r = self.by_author.is_empty();
        assert(self@.dom() =~= self.by_author@.dom());
        r
    }

    /// Whether some client follows `fid`.
    pub fn contains(&self, fid: u64) -> (r: bool)
        ensures
            r == self@.contains_key(fid),
    {
        self.by_author.contains_key(&fid)
    }

    /// The authors that at least one client follows: the upstream filter.
    pub fn follow_set(&self) -> (r: HashSet<u64>)
        ensures
            r@ == self@.dom(),
    {
        let keys = key_elements(&self.by_author);
        let mut r: HashSet<u64> = HashSet::new();
        for i in 0..keys.len()
            invariant
                r@ == keys@.subrange(0, i as int).to_set(),
        {
            proof {
                lemma_prefix_to_set(keys@, i as int);
            }
            r.insert(keys[i]);
        }
        assert(keys@.subrange(0, keys@.len() as int) == keys@);
        assert(r@ =~= self@.dom());
        r
    }

    /// Applies a delta: client `cid` now wants exactly the authors in
    /// `follows`. Reports whether an author became or stopped being a key.
    pub fn apply_delta(&mut self, cid: u64, follows: &HashSet<u64>) -> (effect: DeltaEffect)
        ensures
            final(self)@ == after_delta(old(self)@, cid, follows@),
            valid_interests(final(self)@),
            effect.grew == introduces_author(old(self)@, follows@),
            effect.shrunk == drops_author(old(self)@, cid, follows@),
    {
        let ghost m0 = self@;
        let ghost s = follows@;
        let keys = key_elements(&self.by_author);
        let mut shrunk = false;
        let mut i: usize = 0;
        assert(self@ =~= without_client(m0, cid, s, keys@.subrange(0, 0).to_set()));
        while i < keys.len()
            invariant
                keys@.to_set() == m0.dom(),
                keys@.no_duplicates(),
                i <= keys.len(),
                follows@ == s,
                self@ == without_client(m0, cid, s, keys@.subrange(0, i as int).to_set()),
                shrunk == exists|fid: u64|
                    keys@.subrange(0, i as int).to_set().contains(fid) && !s.contains(fid)
                        && m0[fid].remove(cid) == Set::<u64>::empty(),
            decreases keys.len() - i,
        {
            let fid = keys[i];
            let ghost done = keys@.subrange(0, i as int).to_set();
            let ghost done2 = done.insert(fid);
            let ghost pre = self.by_author@;
            let ghost v0 = self@;
            proof {
                lemma_prefix_to_set(keys@, i as int);
                lemma_prefix_excludes(keys@, i as int);
                assert(keys@.to_set().contains(fid));
                assert(m0.contains_key(fid));
                assert(!done.contains(fid));
                assert(without_client(m0, cid, s, done)[fid] == m0[fid]);
                assert(v0.contains_key(fid));
                assert(v0[fid] == m0[fid]);
                assert(pre.contains_key(fid));
                assert(pre[fid]@ == m0[fid]);
            }
            if !follows.contains(&fid) {
                let taken = self.by_author.remove(&fid);
                if let Some(mut subs) = taken {
                    assert(subs@ == m0[fid]);
                    subs.remove(&cid);
                    assert(subs@ == m0[fid].remove(cid));
                    if subs.is_empty() {
                        shrunk = true;
                        proof {
                            lemma_view_remove(pre, fid);
                            assert(subs@ == Set::<u64>::empty());
                            assert(without_client(m0, cid, s, done2) =~= v0.remove(fid));
                        }
                    } else {
                        self.by_author.insert(fid, subs);
                        proof {
                            lemma_view_remove(pre, fid);
                            lemma_view_insert(pre.remove(fid), fid, subs);
                            assert(without_client(m0, cid, s, done2) =~= v0.remove(fid).insert(
                                fid,
                                subs@,
                            ));
                        }
                    }
                }
            } else {
                assert(self@ =~= without_client(m0, cid, s, done2));
            }
            i = i + 1;
            proof {
                assert(keys@.subrange(0, i as int).to_set() == done2);
                if !s.contains(fid) && m0[fid].remove(cid) == Set::<u64>::empty() {
                    assert(done2.contains(fid));
                    assert(shrunk);
                }
                if shrunk {
                    if !(!s.contains(fid) && m0[fid].remove(cid) == Set::<u64>::empty()) {
                        let w = choose|w: u64|
                            done.contains(w) && !s.contains(w) && m0[w].remove(cid)
                                == Set::<u64>::empty();
                        assert(done2.contains(w));
                    }
                } else {
                    assert forall|w: u64|
                        done2.contains(w) && !s.contains(w) implies m0[w].remove(cid)
                        != Set::<u64>::empty() by {
                        if w != fid {
                            assert(done.contains(w));
                        }
                    }
                }
            }
        }
        assert(keys@.subrange(0, keys@.len() as int) == keys@);
        let ghost trimmed = self@;
        let list = set_elements(follows);
        let mut grew = false;
        let mut j: usize = 0;
        assert(self@ =~= with_client(trimmed, cid, list@.subrange(0, 0).to_set()));
        while j < list.len()
            invariant
                list@.to_set() == s,
                list@.no_duplicates(),
                j <= list.len(),
                trimmed == without_client(m0, cid, s, m0.dom()),
                self@ == with_client(trimmed, cid, list@.subrange(0, j as int).to_set()),
                grew == exists|fid: u64|
                    list@.subrange(0, j as int).to_set().contains(fid) && !m0.contains_key(fid),
            decreases list.len() - j,
        {
            let fid = list[j];
            let ghost done = list@.subrange(0, j as int).to_set();
            let ghost done2 = done.insert(fid);
            let ghost pre = self.by_author@;
            let ghost v0 = self@;
            proof {
                lemma_prefix_to_set(list@, j as int);
                lemma_prefix_excludes(list@, j as int);
                assert(list@.to_set().contains(fid));
                assert(s.contains(fid));
                assert(trimmed.contains_key(fid) == m0.contains_key(fid));
                assert(self@.contains_key(fid) == m0.contains_key(fid));
            }
            let taken = self.by_author.remove(&fid);
            match taken {
                Some(mut subs) => {
                    proof {
                        assert(v0[fid] == trimmed[fid]);
                        assert(subs@ == subscribers(trimmed, fid));
                    }
                    subs.insert(cid);
                    self.by_author.insert(fid, subs);
                    proof {
                        lemma_view_remove(pre, fid);
                        lemma_view_insert(pre.remove(fid), fid, subs);
                    }
                },
                None => {
                    grew = true;
                    let mut subs: HashSet<u64> = HashSet::new();
                    subs.insert(cid);
                    assert(subs@ == subscribers(trimmed, fid).insert(cid));
                    self.by_author.insert(fid, subs);
                    proof {
                        lemma_view_remove(pre, fid);
                        lemma_view_insert(pre.remove(fid), fid, subs);
                    }
                },
            }
            assert(with_client(trimmed, cid, done2) =~= v0.insert(fid, subscribers(trimmed, fid).insert(cid)));
            j = j + 1;
            proof {
                assert(list@.subrange(0, j as int).to_set() == done2);
                if !m0.contains_key(fid) {
                    assert(done2.contains(fid));
                }
                if grew && m0.contains_key(fid) {
                    let w = choose|w: u64| done.contains(w) && !m0.contains_key(w);
                    assert(done2.contains(w));
                }
                if !grew {
                    assert forall|w: u64| done2.contains(w) implies m0.contains_key(w) by {
                        if w != fid {
                            assert(done.contains(w));
                        }
                    }
                }
            }
        }
        proof {
            assert(list@.subrange(0, list@.len() as int) == list@);
            assert(self@ == with_client(trimmed, cid, s));
            assert forall|fid: u64|
                #[trigger] after_delta(m0, cid, s).contains_key(fid) == self@.contains_key(fid)
                    && (self@.contains_key(fid) ==> self@[fid] == after_delta(m0, cid, s)[fid]) by {
                if s.contains(fid) {
                    assert(subscribers(m0, fid).insert(cid).contains(cid));
                    assert(subscribers(trimmed, fid) == subscribers(m0, fid));
                } else if m0.contains_key(fid) {
                    assert(subscribers(m0, fid) == m0[fid]);
                } else {
                    assert(subscribers(m0, fid).remove(cid) =~= Set::<u64>::empty());
                }
            }
            assert(self@ =~= after_delta(m0, cid, s));
            if drops_author(m0, cid, s) {
                let w = choose|w: u64|
                    m0.contains_key(w) && !after_delta(m0, cid, s).contains_key(w);
                assert(keys@.to_set().contains(w));
            }
            if shrunk {
                let w = choose|w: u64|
                    keys@.to_set().contains(w) && !s.contains(w) && m0[w].remove(cid)
                        == Set::<u64>::empty();
                assert(!after_delta(m0, cid, s).contains_key(w));
            }
        }
        DeltaEffect { grew, shrunk }
    }
}

} // verus!

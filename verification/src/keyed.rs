//! A map keyed by 32-bit ids that remembers the order in which keys were
//! first inserted, so that it can be walked deterministically.

use std::collections::HashMap;
use vstd::prelude::*;
use crate::vocab::bounded::no_dups;

verus! {

broadcast use vstd::std_specs::hash::group_hash_axioms;

/// Map from `u32` keys to values, with the keys also kept in first-insertion
/// order.
pub struct KeyedMap<V> {
    map: HashMap<u32, V>,
    keys: Vec<u32>,
}

impl<V> View for KeyedMap<V> {
    type V = Map<u32, V>;

    closed spec fn view(&self) -> Map<u32, V> {
        self.map@
    }
}

impl<V> KeyedMap<V> {
    /// The keys in first-insertion order.
    pub closed spec fn key_order(&self) -> Seq<u32> {
        self.keys@
    }

    /// The key order lists exactly the keys of the map, each once.
    pub closed spec fn wf(&self) -> bool {
        &&& no_dups(self.keys@)
        &&& forall|k: u32| self.map@.contains_key(k) <==> self.keys@.contains(k)
    }

    /// Facts every well-formed map offers its users.
    pub proof fn lemma_wf(&self)
        requires
            self.wf(),
        ensures
            no_dups(self.key_order()),
            forall|k: u32| #[trigger] self@.contains_key(k) <==> self.key_order().contains(k),
            self@.dom().len() == self.key_order().len(),
            self@.dom().finite(),
    {
        let ks = self.keys@;
        ks.unique_seq_to_set();
        assert(self.map@.dom() =~= ks.to_set());
    }

    /// An empty map.
    pub fn new() -> (r: Self)
        ensures
            r.wf(),
            r@ == Map::<u32, V>::empty(),
            r.key_order() == Seq::<u32>::empty(),
    {
        let r = KeyedMap { map: HashMap::new(), keys: Vec::new() };
        assert(r.map@ =~= Map::<u32, V>::empty());
        r
    }

    /// The value of key `k`, if any.
    pub fn get(&self, k: u32) -> (r: Option<&V>)
        ensures
            match r {
                Some(v) => self@.contains_key(k) && self@[k] == *v,
                None => !self@.contains_key(k),
            },
    {
        self.map.get(&k)
    }

    /// Whether key `k` is present.
    pub fn contains_key(&self, k: u32) -> (r: bool)
        ensures
            r == self@.contains_key(k),
    {
        self.map.contains_key(&k)
    }

    /// Sets the value of key `k`; a new key goes to the end of the order.
    pub fn insert(&mut self, k: u32, v: V)
        requires
            old(self).wf(),
        ensures
            final(self).wf(),
            final(self)@ == old(self)@.insert(k, v),
            old(self)@.contains_key(k) ==> final(self).key_order() == old(self).key_order(),
            !old(self)@.contains_key(k) ==> final(self).key_order() == old(self).key_order().push(k),
    {
        let fresh = !self.map.contains_key(&k);
        self.map.insert(k, v);
        if fresh {
            self.keys.push(k);
            proof {
                let ks = self.keys@;
                assert forall|i: int, j: int| 0 <= i < j < ks.len() implies ks[i] != ks[j] by {
                    if j == ks.len() - 1 {
                        assert(old(self).keys@.contains(ks[i]));
                    }
                }
                assert forall|x: u32| self.map@.contains_key(x) <==> self.keys@.contains(x) by {
                    if x != k && self.keys@.contains(x) {
                        let i = choose|i: int| 0 <= i < self.keys@.len() && self.keys@[i] == x;
                        assert(old(self).keys@[i] == x);
                    }
                    if x == k {
                        assert(self.keys@[self.keys@.len() - 1] == k);
                    }
                    if old(self).keys@.contains(x) {
                        let i = choose|i: int| 0 <= i < old(self).keys@.len() && old(self).keys@[i] == x;
                        assert(self.keys@[i] == x);
                    }
                }
            }
        }
    }

    /// Removes key `k`, if present.
    pub fn remove(&mut self, k: u32)
        requires
            old(self).wf(),
        ensures
            final(self).wf(),
            final(self)@ == old(self)@.remove(k),
    {
        self.map.remove(&k);
        let pos = position_of(&self.keys, k);
        match pos {
            Some(i) => {
                let ghost ks = self.keys@;
                let _ = self.keys.remove(i);
                proof {
                    let ns = self.keys@;
                    assert(ns =~= ks.remove(i as int));
                    assert forall|a: int, b: int| 0 <= a < b < ns.len() implies ns[a] != ns[b] by {
                        let a0 = if a < i { a } else { a + 1 };
                        let b0 = if b < i { b } else { b + 1 };
                        assert(ns[a] == ks[a0]);
                        assert(ns[b] == ks[b0]);
                        assert(a0 < b0);
                    }
                    assert forall|x: u32| self.map@.contains_key(x) <==> ns.contains(x) by {
                        if ns.contains(x) {
                            let a = choose|a: int| 0 <= a < ns.len() && ns[a] == x;
                            let a0 = if a < i { a } else { a + 1 };
                            assert(ks[a0] == x);
                            assert(ks[i as int] == k);
                            assert(a0 != i);
                            assert(x != k);
                            assert(old(self).keys@.contains(x));
                            assert(old(self).map@.contains_key(x));
                        }
                        if self.map@.contains_key(x) {
                            assert(old(self).map@.contains_key(x));
                            assert(old(self).keys@.contains(x));
                            assert(ks.contains(x));
                            let a0 = choose|a0: int| 0 <= a0 < ks.len() && ks[a0] == x;
                            assert(x != k);
                            assert(a0 != i);
                            let a = if a0 < i { a0 } else { a0 - 1 };
                            assert(ns[a] == x);
                        }
                    }
                }
            },
            None => {
                proof {
                    assert forall|x: u32| self.map@.contains_key(x) <==> self.keys@.contains(x) by {
                        if x == k {
                            assert(!self.keys@.contains(k));
                        }
                    }
                }
            },
        }
    }

    /// Number of keys.
    pub fn len(&self) -> (r: usize)
        requires
            self.wf(),
        ensures
            r == self@.dom().len(),
            r == self.key_order().len(),
    {
        proof {
            self.lemma_wf();
        }
        self.keys.len()
    }

    /// The `i`-th key in first-insertion order.
    pub fn key_at(&self, i: usize) -> (r: u32)
        requires
            i < self.key_order().len(),
        ensures
            r == self.key_order()[i as int],
    {
        self.keys[i]
    }

    /// Removes every key.
    pub fn clear(&mut self)
        ensures
            final(self).wf(),
            final(self)@ == Map::<u32, V>::empty(),
            final(self).key_order() == Seq::<u32>::empty(),
    {
        self.map.clear();
        self.keys.clear();
        assert(self.map@ =~= Map::<u32, V>::empty());
    }
}

/// Where `k` stands in `keys`, if anywhere (the first place).
fn position_of(keys: &Vec<u32>, k: u32) -> (r: Option<usize>)
    ensures
        match r {
            Some(i) => i < keys@.len() && keys@[i as int] == k,
            None => !keys@.contains(k),
        },
{
    let mut i: usize = 0;
    while i < keys.len()
        invariant
            0 <= i <= keys@.len(),
            forall|j: int| 0 <= j < i ==> keys@[j] != k,
        decreases keys@.len() - i,
    {
        if keys[i] == k {
            return Some(i);
        }
        i = i + 1;
    }
    None
}

} // verus!

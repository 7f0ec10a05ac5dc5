//! Capacity-bounded set for per-epoch deduplication.
//!
//! Each sub-protocol client keeps a deduplication set that MUST NOT grow
//! without bound within a single epoch. This type is a set with
//! insertion-order eviction: when capacity is exceeded the oldest entry is
//! dropped.

use std::collections::VecDeque;
use vstd::prelude::*;
use crate::vocab::conformance::str_eq;

verus! {

/// A key that can be stored in a [`BoundedSeen`]: compared and copied by
/// its view.
pub trait SeenKey: View + Sized {
    /// Compares two keys by view.
    fn same_key(&self, other: &Self) -> (r: bool)
        ensures
            r == (self@ == other@);

    /// Copies a key.
    fn copy_key(&self) -> (r: Self)
        ensures
            r@ == self@;
}

impl SeenKey for u32 {
    fn same_key(&self, other: &Self) -> (r: bool) {
        *self == *other
    }

    fn copy_key(&self) -> (r: Self) {
        *self
    }
}

impl SeenKey for u64 {
    fn same_key(&self, other: &Self) -> (r: bool) {
        *self == *other
    }

    fn copy_key(&self) -> (r: Self) {
        *self
    }
}

impl SeenKey for (u32, u64) {
    fn same_key(&self, other: &Self) -> (r: bool) {
        self.0 == other.0 && self.1 == other.1
    }

    fn copy_key(&self) -> (r: Self) {
        (self.0, self.1)
    }
}

impl SeenKey for String {
    fn same_key(&self, other: &Self) -> (r: bool) {
        str_eq(self.as_str(), other.as_str())
    }

    fn copy_key(&self) -> (r: Self) {
        self.clone()
    }
}

impl<'a> SeenKey for &'a str {
    fn same_key(&self, other: &Self) -> (r: bool) {
        str_eq(*self, *other)
    }

    fn copy_key(&self) -> (r: Self) {
        *self
    }
}

/// No value occurs twice in `s`.
pub open spec fn no_dups<V>(s: Seq<V>) -> bool {
    forall|i: int, j: int| 0 <= i < j < s.len() ==> s[i] != s[j]
}

/// The insertion-ordered contents after inserting a new value `v` into
/// `s` under capacity `cap`: `v` is appended and, when that overflows the
/// capacity, the oldest entry is evicted.
pub open spec fn evict_insert<V>(s: Seq<V>, v: V, cap: nat) -> Seq<V> {
    if s.len() + 1 > cap {
        s.push(v).drop_first()
    } else {
        s.push(v)
    }
}

/// A set with a bounded capacity that evicts the oldest entry on overflow.
pub struct BoundedSeen<T> {
    order: VecDeque<T>,
    cap: usize,
}

impl<T: SeenKey> View for BoundedSeen<T> {
    type V = Seq<T::V>;

    /// The retained keys, oldest first.
    closed spec fn view(&self) -> Seq<T::V> {
        self.order@.map_values(|t: T| t@)
    }
}

impl<T: SeenKey> BoundedSeen<T> {
    /// The capacity limit.
    pub closed spec fn capacity(&self) -> nat {
        self.cap as nat
    }

    /// Well-formedness: no key is retained twice and the capacity holds.
    pub open spec fn wf(&self) -> bool {
        &&& no_dups(self@)
        &&& self@.len() <= self.capacity()
    }

    /// Creates a new, empty set with the given capacity limit.
    pub fn new(cap: usize) -> (r: Self)
        ensures
            r.wf(),
            r@ == Seq::<T::V>::empty(),
            r.capacity() == cap,
    {
        let r = BoundedSeen { order: VecDeque::new(), cap };
        assert(r@ =~= Seq::<T::V>::empty());
        r
    }

    /// Returns `true` if a key with the view of `item` is retained.
    pub fn contains(&self, item: &T) -> (r: bool)
        ensures
            r == self@.contains(item@),
    {
        let mut i: usize = 0;
        while i < self.order.len()
            invariant
                0 <= i <= self.order@.len(),
                forall|j: int| 0 <= j < i ==> self@[j] != item@,
            decreases self.order@.len() - i,
        {
            if self.order[i].same_key(item) {
                assert(self@[i as int] == item@);
                return true;
            }
            i = i + 1;
        }
        proof {
            if self@.contains(item@) {
                let j = choose|j: int| 0 <= j < self@.len() && self@[j] == item@;
                assert(self@[j] != item@);
            }
        }
        false
    }

    /// Inserts an item. Returns `true` if the item is new and was added,
    /// `false` if it was already present. When the set is at capacity, the
    /// oldest entry is evicted.
    pub fn insert(&mut self, item: T) -> (r: bool)
        requires
            old(self).wf(),
        ensures
            final(self).wf(),
            final(self).capacity() == old(self).capacity(),
            r == !old(self)@.contains(item@),
            r ==> final(self)@ == evict_insert(old(self)@, item@, old(self).capacity()),
            !r ==> final(self)@ == old(self)@,
    {
        if self.contains(&item) {
            return false;
        }
        let ghost pre = self@;
        self.order.push_back(item);
        assert(self@ =~= pre.push(item@));
        if self.order.len() > self.cap {
            let _ = self.order.pop_front();
            assert(self@ =~= pre.push(item@).drop_first());
        }
        proof {
            let post = self@;
            assert forall|i: int, j: int| 0 <= i < j < post.len() implies post[i] != post[j] by {
                let full = pre.push(item@);
                if pre.len() + 1 > self.cap {
                    assert(post[i] == full[i + 1]);
                    assert(post[j] == full[j + 1]);
                    if j + 1 == pre.len() {
                        assert(pre.contains(full[i + 1]) == true);
                    }
                } else {
                    if j == pre.len() {
                        assert(pre[i] == post[i]);
                        assert(pre.contains(post[i]));
                    }
                }
            }
        }
        true
    }

    /// Returns the number of entries currently in the set.
    pub fn len(&self) -> (r: usize)
        ensures
            r == self@.len(),
    {
        self.order.len()
    }

    /// Returns `true` if the set is empty.
    pub fn is_empty(&self) -> (r: bool)
        ensures
            r == (self@.len() == 0),
    {
        self.order.len() == 0
    }

    /// Clears the set; the capacity is kept.
    pub fn clear(&mut self)
        ensures
            final(self).wf(),
            final(self)@ == Seq::<T::V>::empty(),
            final(self).capacity() == old(self).capacity(),
    {
        self.order.clear();
        assert(self@ =~= Seq::<T::V>::empty());
    }
}

/// With a positive capacity, a newly inserted value is retained, and the
/// set never grows past its capacity.
pub proof fn lemma_inserted_is_retained<V>(s: Seq<V>, v: V, cap: nat)
    requires
        cap > 0,
        s.len() <= cap,
    ensures
        evict_insert(s, v, cap).contains(v),
        evict_insert(s, v, cap).len() <= cap,
{
    let t = evict_insert(s, v, cap);
    assert(t[t.len() - 1] == v);
}

} // verus!

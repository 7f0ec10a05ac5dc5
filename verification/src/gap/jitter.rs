//! A bounded reorder buffer for GAP audio frames.
//!
//! Voice frames arrive out of order; the receiver holds them briefly so the
//! decoder consumes them in `rtp_sequence` order, and drops frames that
//! arrive after their turn. The buffer owns no clock: the application pops
//! from its render loop.

use std::collections::HashMap;
use std::collections::VecDeque;
use vstd::prelude::*;
use crate::gap::payload::{GapPayload, GapPayloadView};

verus! {

broadcast use vstd::std_specs::hash::group_hash_axioms;

/// Per-source state of a [`JitterBuffer`].
struct SourceState {
    waiting: VecDeque<GapPayload>,
    next: Option<u32>,
}

/// The abstract state of one source.
pub struct SourceView {
    /// Frames waiting, in ascending `rtp_sequence` order.
    pub waiting: Seq<GapPayloadView>,
    /// The sequence number expected next, once something was popped.
    pub next: Option<u32>,
}

impl View for SourceState {
    type V = SourceView;

    closed spec fn view(&self) -> SourceView {
        SourceView { waiting: self.waiting@.map_values(|p: GapPayload| p@), next: self.next }
    }
}

/// Outcome of [`JitterBuffer::push`].
#[derive(Debug)]
pub enum JitterPush {
    /// The frame was buffered (or its sequence number was already waiting).
    Accepted,
    /// The frame is older than the next expected sequence number; dropped.
    Late,
    /// The buffer was full; the oldest waiting frame was evicted to make
    /// room and is returned.
    Evicted(GapPayload),
}

/// The sequence numbers of `s` strictly ascend.
pub open spec fn ascending(s: Seq<GapPayloadView>) -> bool {
    forall|i: int, j: int| 0 <= i < j < s.len() ==> #[trigger] s[i].rtp_sequence < #[trigger] s[j].rtp_sequence
}

/// Some waiting frame has sequence number `x`.
pub open spec fn waits_for(s: Seq<GapPayloadView>, x: u32) -> bool {
    exists|i: int| 0 <= i < s.len() && #[trigger] s[i].rtp_sequence == x
}

/// Where a frame with sequence number `x` goes: before the first frame
/// with a larger one.
pub open spec fn insert_pos(s: Seq<GapPayloadView>, x: u32) -> int
    decreases s.len(),
{
    if s.len() == 0 || s[0].rtp_sequence > x {
        0
    } else {
        1 + insert_pos(s.drop_first(), x)
    }
}

proof fn lemma_insert_pos(s: Seq<GapPayloadView>, x: u32, k: int)
    requires
        0 <= k <= s.len(),
        forall|j: int| 0 <= j < k ==> (#[trigger] s[j]).rtp_sequence <= x,
        k == s.len() || s[k].rtp_sequence > x,
    ensures
        insert_pos(s, x) == k,
    decreases k,
{
    if k > 0 {
        let rest = s.drop_first();
        assert forall|j: int| 0 <= j < k - 1 implies (#[trigger] rest[j]).rtp_sequence <= x by {
            assert(rest[j] == s[j + 1]);
        }
        lemma_insert_pos(rest, x, k - 1);
        assert(s[0].rtp_sequence <= x);
    }
}

/// The empty state of a source not seen before.
pub open spec fn fresh_source() -> SourceView {
    SourceView { waiting: Seq::empty(), next: None }
}

/// The state of source `src` (fresh when not seen before).
pub open spec fn source_of(m: Map<u32, SourceView>, src: u32) -> SourceView {
    if m.contains_key(src) {
        m[src]
    } else {
        fresh_source()
    }
}

/// The verdict of a push.
pub enum PushVerdict {
    /// Buffered, or already waiting.
    Accepted,
    /// Dropped as late.
    Late,
    /// Buffered, evicting this oldest frame.
    Evicted(GapPayloadView),
}

/// The sources and verdict after pushing `p` with the given per-source
/// capacity. The source is registered in any case.
pub open spec fn jitter_pushed(m: Map<u32, SourceView>, cap: nat, p: GapPayloadView) -> (
    Map<u32, SourceView>,
    PushVerdict,
) {
    let st = source_of(m, p.media_source_id);
    if st.next is Some && p.rtp_sequence < st.next->0 {
        (m.insert(p.media_source_id, st), PushVerdict::Late)
    } else if waits_for(st.waiting, p.rtp_sequence) {
        (m.insert(p.media_source_id, st), PushVerdict::Accepted)
    } else {
        let w = st.waiting.insert(insert_pos(st.waiting, p.rtp_sequence), p);
        if w.len() > cap {
            (
                m.insert(p.media_source_id, SourceView { waiting: w.drop_first(), ..st }),
                PushVerdict::Evicted(w[0]),
            )
        } else {
            (m.insert(p.media_source_id, SourceView { waiting: w, ..st }), PushVerdict::Accepted)
        }
    }
}

/// `x + 1`, wrapping at `u32::MAX`.
pub open spec fn wrap_inc(x: u32) -> u32 {
    if x == u32::MAX {
        0
    } else {
        (x + 1) as u32
    }
}

/// The sources and the frame popped from `src`: with `in_order`, only the
/// head that continues the sequence (any head before the first pop).
pub open spec fn jitter_popped(m: Map<u32, SourceView>, src: u32, in_order: bool) -> (
    Map<u32, SourceView>,
    Option<GapPayloadView>,
) {
    if !m.contains_key(src) || m[src].waiting.len() == 0 {
        (m, None)
    } else {
        let st = m[src];
        let h = st.waiting[0];
        if in_order && st.next is Some && h.rtp_sequence != st.next->0 {
            (m, None)
        } else {
            (
                m.insert(
                    src,
                    SourceView { waiting: st.waiting.drop_first(), next: Some(wrap_inc(h.rtp_sequence)) },
                ),
                Some(h),
            )
        }
    }
}

/// Bounded reorder window for GAP audio frames, per media source.
pub struct JitterBuffer {
    capacity_per_source: usize,
    sources: HashMap<u32, SourceState>,
}

impl View for JitterBuffer {
    type V = Map<u32, SourceView>;

    /// The state of each source seen.
    closed spec fn view(&self) -> Map<u32, SourceView> {
        self.sources@.map_values(|s: SourceState| s@)
    }
}

impl JitterBuffer {
    /// The per-source capacity.
    pub closed spec fn capacity(&self) -> nat {
        self.capacity_per_source as nat
    }

    /// A positive capacity; every source waits in ascending order with at
    /// most `capacity` frames.
    pub open spec fn wf(&self) -> bool {
        &&& self.capacity() > 0
        &&& forall|src: u32|
            #[trigger] self@.contains_key(src) ==> ascending(self@[src].waiting)
                && self@[src].waiting.len() <= self.capacity()
    }

    /// Builds a buffer that holds up to `capacity_per_source` frames per
    /// source.
    pub fn new(capacity_per_source: usize) -> (r: Self)
        requires
            capacity_per_source > 0,
        ensures
            r.wf(),
            r.capacity() == capacity_per_source,
            r@ == Map::<u32, SourceView>::empty(),
    {
        let r = JitterBuffer { capacity_per_source, sources: HashMap::new() };
        assert(r@ =~= Map::<u32, SourceView>::empty());
        r
    }

    fn take_source(&mut self, src: u32) -> (r: SourceState)
        ensures
            r@ == source_of(old(self)@, src),
            final(self)@ == old(self)@.remove(src),
            final(self).capacity() == old(self).capacity(),
    {
        match self.sources.remove(&src) {
            Some(st) => {
                assert(self@ =~= old(self)@.remove(src));
                st
            },
            None => {
                assert(self@ =~= old(self)@.remove(src));
                let st = SourceState { waiting: VecDeque::new(), next: None };
                assert(st@.waiting =~= Seq::<GapPayloadView>::empty());
                st
            },
        }
    }

    fn put_source(&mut self, src: u32, st: SourceState)
        ensures
            final(self)@ == old(self)@.insert(src, st@),
            final(self).capacity() == old(self).capacity(),
    {
        self.sources.insert(src, st);
        assert(self@ =~= old(self)@.insert(src, st@));
    }

    /// Inserts a frame: dropped as `Late` when older than the next expected
    /// sequence number; otherwise placed in sequence order (a sequence
    /// number already waiting is kept once), and, when that overflows the
    /// capacity, the oldest waiting frame is evicted and returned.
    pub fn push(&mut self, frame: GapPayload) -> (r: JitterPush)
        requires
            old(self).wf(),
        ensures
            final(self).wf(),
            final(self).capacity() == old(self).capacity(),
            ({
                let (post, verdict) = jitter_pushed(old(self)@, old(self).capacity(), frame@);
                &&& final(self)@ == post
                &&& match verdict {
                    PushVerdict::Accepted => r is Accepted,
                    PushVerdict::Late => r is Late,
                    PushVerdict::Evicted(e) => r matches JitterPush::Evicted(x) && x@ == e,
                }
            }),
    {
        let src = frame.media_source_id;
        let seq = frame.rtp_sequence;
        let ghost fv = frame@;
        let mut st = self.take_source(src);
        let ghost sv = st@;
        proof {
            if old(self)@.contains_key(src) {
                assert(ascending(old(self)@[src].waiting));
            }
        }
        let late = match st.next {
            Some(n) => seq < n,
            None => false,
        };
        if late {
            self.put_source(src, st);
            proof { self.lemma_wf_after(old(self), src); }
            return JitterPush::Late;
        }
        let mut k: usize = 0;
        let mut dup = false;
        while k < st.waiting.len()
            invariant_except_break
                !dup,
            invariant
                0 <= k <= sv.waiting.len(),
                st@ == sv,
                ascending(sv.waiting),
                seq == fv.rtp_sequence,
                forall|j: int| 0 <= j < k ==> (#[trigger] sv.waiting[j]).rtp_sequence < seq,
            ensures
                0 <= k <= sv.waiting.len(),
                forall|j: int| 0 <= j < k ==> (#[trigger] sv.waiting[j]).rtp_sequence < seq,
                dup ==> k < sv.waiting.len() && sv.waiting[k as int].rtp_sequence == seq,
                !dup ==> k == sv.waiting.len() || sv.waiting[k as int].rtp_sequence > seq,
            decreases sv.waiting.len() - k,
        {
            let q = st.waiting[k].rtp_sequence;
            assert(q == sv.waiting[k as int].rtp_sequence);
            if q == seq {
                dup = true;
                break;
            }
            if q > seq {
                break;
            }
            k = k + 1;
        }
        if dup {
            proof {
                assert(waits_for(sv.waiting, seq));
            }
            self.put_source(src, st);
            proof { self.lemma_wf_after(old(self), src); }
            return JitterPush::Accepted;
        }
        proof {
            assert(!waits_for(sv.waiting, seq)) by {
                if waits_for(sv.waiting, seq) {
                    let i = choose|i: int| 0 <= i < sv.waiting.len() && #[trigger] sv.waiting[i].rtp_sequence == seq;
                    if i >= k {
                        assert(k < sv.waiting.len());
                        if i > k {
                            assert(sv.waiting[k as int].rtp_sequence < sv.waiting[i].rtp_sequence);
                        }
                    }
                }
            }
            lemma_insert_pos(sv.waiting, seq, k as int);
        }
        let ghost before = st@.waiting;
        st.waiting.insert(k, frame);
        let ghost w = before.insert(k as int, fv);
        assert(st@.waiting =~= w);
        proof {
            assert forall|i: int, j: int| 0 <= i < j < w.len() implies #[trigger] w[i].rtp_sequence
                < #[trigger] w[j].rtp_sequence by {
                if i < k && j < k {
                    assert(w[i] == before[i] && w[j] == before[j]);
                } else if i < k && j == k {
                    assert(w[i] == before[i]);
                } else if i < k {
                    assert(w[i] == before[i] && w[j] == before[j - 1]);
                } else if i == k {
                    assert(w[j] == before[j - 1]);
                    assert(j - 1 >= k);
                    if j - 1 > k {
                        assert(before[k as int].rtp_sequence < before[j - 1].rtp_sequence);
                    }
                } else {
                    assert(w[i] == before[i - 1] && w[j] == before[j - 1]);
                }
            }
        }
        if st.waiting.len() > self.capacity_per_source {
            let evicted = st.waiting.pop_front();
            match evicted {
                Some(e) => {
                    assert(st@.waiting =~= w.drop_first());
                    self.put_source(src, st);
                    proof { self.lemma_wf_after(old(self), src); }
                    JitterPush::Evicted(e)
                },
                None => {
                    self.put_source(src, st);
                    JitterPush::Accepted
                },
            }
        } else {
            self.put_source(src, st);
            proof { self.lemma_wf_after(old(self), src); }
            JitterPush::Accepted
        }
    }

    proof fn lemma_wf_after(&self, pre: &JitterBuffer, src: u32)
        requires
            pre.wf(),
            self.capacity() == pre.capacity(),
            self@ == pre@.remove(src).insert(src, self@[src]),
            ascending(self@[src].waiting),
            self@[src].waiting.len() <= self.capacity(),
        ensures
            self.wf(),
    {
        assert forall|s: u32| #[trigger] self@.contains_key(s) implies ascending(self@[s].waiting)
            && self@[s].waiting.len() <= self.capacity() by {
            if s != src {
                assert(pre@.contains_key(s));
            }
        }
    }

    fn pop(&mut self, media_source_id: u32, in_order: bool) -> (r: Option<GapPayload>)
        requires
            old(self).wf(),
        ensures
            final(self).wf(),
            final(self).capacity() == old(self).capacity(),
            ({
                let (post, out) = jitter_popped(old(self)@, media_source_id, in_order);
                &&& final(self)@ == post
                &&& match out {
                    Some(h) => r matches Some(x) && x@ == h,
                    None => r is None,
                }
            }),
    {
        if !self.sources.contains_key(&media_source_id) {
            return None;
        }
        let mut st = self.take_source(media_source_id);
        let ghost sv = st@;
        proof {
            assert(ascending(old(self)@[media_source_id].waiting));
        }
        if st.waiting.len() == 0 {
            self.put_source(media_source_id, st);
            proof {
                assert(self@ =~= old(self)@);
            }
            return None;
        }
        let head = st.waiting[0].rtp_sequence;
        let blocked = match st.next {
            Some(n) => in_order && head != n,
            None => false,
        };
        if blocked {
            self.put_source(media_source_id, st);
            proof {
                assert(self@ =~= old(self)@);
            }
            return None;
        }
        match st.waiting.pop_front() {
            Some(p) => {
                st.next = Some(p.rtp_sequence.wrapping_add(1));
                assert(st@.waiting =~= sv.waiting.drop_first());
                self.put_source(media_source_id, st);
                proof {
                    self.lemma_wf_after(old(self), media_source_id);
                }
                Some(p)
            },
            None => {
                self.put_source(media_source_id, st);
                None
            },
        }
    }

    /// Pops the next frame of `media_source_id` if it continues the
    /// sequence (any frame before the first pop); `None` when the source is
    /// unknown or empty or its head is from the future.
    pub fn pop_in_order(&mut self, media_source_id: u32) -> (r: Option<GapPayload>)
        requires
            old(self).wf(),
        ensures
            final(self).wf(),
            final(self).capacity() == old(self).capacity(),
            ({
                let (post, out) = jitter_popped(old(self)@, media_source_id, true);
                &&& final(self)@ == post
                &&& match out {
                    Some(h) => r matches Some(x) && x@ == h,
                    None => r is None,
                }
            }),
    {
        self.pop(media_source_id, true)
    }

    /// Pops the next waiting frame of `media_source_id` whatever its
    /// sequence number, skipping a gap (used when the playout deadline is
    /// reached).
    pub fn pop_force(&mut self, media_source_id: u32) -> (r: Option<GapPayload>)
        requires
            old(self).wf(),
        ensures
            final(self).wf(),
            final(self).capacity() == old(self).capacity(),
            ({
                let (post, out) = jitter_popped(old(self)@, media_source_id, false);
                &&& final(self)@ == post
                &&& match out {
                    Some(h) => r matches Some(x) && x@ == h,
                    None => r is None,
                }
            }),
    {
        self.pop(media_source_id, false)
    }

    /// Number of frames waiting for `media_source_id`.
    pub fn len_for(&self, media_source_id: u32) -> (r: usize)
        ensures
            r == source_of(self@, media_source_id).waiting.len(),
    {
        match self.sources.get(&media_source_id) {
            Some(st) => st.waiting.len(),
            None => 0,
        }
    }

    /// Drops every waiting frame and forgets every source.
    pub fn clear(&mut self)
        requires
            old(self).wf(),
        ensures
            final(self).wf(),
            final(self).capacity() == old(self).capacity(),
            final(self)@ == Map::<u32, SourceView>::empty(),
    {
        self.sources.clear();
        assert(self@ =~= Map::<u32, SourceView>::empty());
    }
}

/// Frames leave a source in ascending sequence order: of two successive
/// pops, the second has the higher sequence number.
pub proof fn lemma_pops_ascend(m: Map<u32, SourceView>, src: u32, first: bool, second: bool)
    requires
        m.contains_key(src),
        ascending(m[src].waiting),
    ensures
        ({
            let (m1, a) = jitter_popped(m, src, first);
            let (m2, b) = jitter_popped(m1, src, second);
            (a is Some && b is Some) ==> a->0.rtp_sequence < b->0.rtp_sequence
        }),
{
    let (m1, a) = jitter_popped(m, src, first);
    let (m2, b) = jitter_popped(m1, src, second);
    if a is Some && b is Some {
        let w = m[src].waiting;
        assert(a == Some(w[0]));
        assert(m1[src].waiting == w.drop_first());
        assert(b == Some(w.drop_first()[0]));
        assert(w.drop_first()[0] == w[1]);
        assert(w[0].rtp_sequence < w[1].rtp_sequence);
    }
}

} // verus!

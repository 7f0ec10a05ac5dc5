//! A bounded message log and per-sender resynchronisation watermarks.
//!
//! A re-joining client asks the group for every message produced after
//! the last `message_id` it observed from each sender; peers that hold
//! recent messages answer from a [`MessageHistory`], and clients track
//! their position in a [`Watermark`].

use std::collections::VecDeque;
use vstd::prelude::*;
use crate::gtp::message::{GtpMessage, GtpMessageView};
use crate::keyed::KeyedMap;
use crate::vocab::ids::MemberId;

verus! {

/// Two retained messages never share `(sender_id, message_id)`.
pub open spec fn distinct_ids(s: Seq<GtpMessageView>) -> bool {
    forall|i: int, j: int|
        0 <= i < j < s.len() ==> !(#[trigger] s[i].sender_id == #[trigger] s[j].sender_id
            && s[i].message_id == s[j].message_id)
}

/// Some retained message has this `(sender_id, message_id)`.
pub open spec fn holds_id(s: Seq<GtpMessageView>, sender_id: u32, message_id: u64) -> bool {
    exists|i: int| 0 <= i < s.len() && #[trigger] s[i].sender_id == sender_id && s[i].message_id == message_id
}

/// The log after recording a new message under capacity `cap`: appended,
/// with the oldest message dropped when the log was full.
pub open spec fn history_push(s: Seq<GtpMessageView>, m: GtpMessageView, cap: nat) -> Seq<
    GtpMessageView,
> {
    if s.len() == cap {
        s.drop_first().push(m)
    } else {
        s.push(m)
    }
}

/// `m` comes after the watermark: its sender has no mark, or its id is
/// above the sender's mark.
pub open spec fn after_mark(marks: Map<u32, u64>, m: GtpMessageView) -> bool {
    !marks.contains_key(m.sender_id) || m.message_id > marks[m.sender_id]
}

/// Bounded ring buffer of recent GTP messages. Once full, recording a new
/// message drops the oldest.
pub struct MessageHistory {
    capacity: usize,
    buffer: VecDeque<GtpMessage>,
}

impl View for MessageHistory {
    type V = Seq<GtpMessageView>;

    /// The retained messages, oldest first.
    closed spec fn view(&self) -> Seq<GtpMessageView> {
        self.buffer@.map_values(|m: GtpMessage| m@)
    }
}

impl MessageHistory {
    /// The fixed capacity.
    pub closed spec fn capacity(&self) -> nat {
        self.capacity as nat
    }

    /// At most `capacity` messages (a positive capacity), no two with the
    /// same `(sender_id, message_id)`.
    pub open spec fn wf(&self) -> bool {
        &&& 0 < self.capacity()
        &&& self@.len() <= self.capacity()
        &&& distinct_ids(self@)
    }

    /// Builds a history that retains up to `capacity` messages.
    pub fn with_capacity(capacity: usize) -> (r: Self)
        requires
            capacity > 0,
        ensures
            r.wf(),
            r.capacity() == capacity,
            r@ == Seq::<GtpMessageView>::empty(),
    {
        let r = MessageHistory { capacity, buffer: VecDeque::new() };
        assert(r@ =~= Seq::<GtpMessageView>::empty());
        r
    }

    /// Records a message. Returns `true` if it was added, `false` (and
    /// changes nothing) if its `(sender_id, message_id)` is already held.
    pub fn push(&mut self, msg: GtpMessage) -> (r: bool)
        requires
            old(self).wf(),
        ensures
            final(self).wf(),
            final(self).capacity() == old(self).capacity(),
            r == !holds_id(old(self)@, msg.sender_id, msg.message_id),
            r ==> final(self)@ == history_push(old(self)@, msg@, old(self).capacity()),
            !r ==> final(self)@ == old(self)@,
    {
        if self.contains(msg.sender_id, msg.message_id) {
            return false;
        }
        let ghost pre = self@;
        let ghost m = msg@;
        if self.buffer.len() == self.capacity {
            let _ = self.buffer.pop_front();
            assert(self@ =~= pre.drop_first());
        }
        let ghost mid = self@;
        self.buffer.push_back(msg);
        assert(self@ =~= mid.push(m));
        proof {
            let post = self@;
            assert forall|i: int, j: int| 0 <= i < j < post.len() implies !(#[trigger] post[i].sender_id
                == #[trigger] post[j].sender_id && post[i].message_id == post[j].message_id) by {
                if j == post.len() - 1 {
                    let i0 = if pre.len() == self.capacity { i + 1 } else { i };
                    assert(post[i] == pre[i0]);
                    if post[i].sender_id == m.sender_id && post[i].message_id == m.message_id {
                        assert(holds_id(pre, m.sender_id, m.message_id));
                    }
                } else {
                    let i0 = if pre.len() == self.capacity { i + 1 } else { i };
                    let j0 = if pre.len() == self.capacity { j + 1 } else { j };
                    assert(post[i] == pre[i0]);
                    assert(post[j] == pre[j0]);
                }
            }
        }
        true
    }

    /// Number of messages currently held.
    pub fn len(&self) -> (r: usize)
        ensures
            r == self@.len(),
    {
        self.buffer.len()
    }

    /// `true` if no message is held.
    pub fn is_empty(&self) -> (r: bool)
        ensures
            r == (self@.len() == 0),
    {
        self.buffer.len() == 0
    }

    /// `true` if a message with `(sender_id, message_id)` is held.
    pub fn contains(&self, sender_id: MemberId, message_id: u64) -> (r: bool)
        ensures
            r == holds_id(self@, sender_id, message_id),
    {
        let mut i: usize = 0;
        while i < self.buffer.len()
            invariant
                0 <= i <= self@.len(),
                forall|k: int|
                    0 <= k < i ==> !(#[trigger] self@[k].sender_id == sender_id && self@[k].message_id
                        == message_id),
            decreases self@.len() - i,
        {
            let m = &self.buffer[i];
            if m.sender_id == sender_id && m.message_id == message_id {
                assert(self@[i as int].sender_id == sender_id);
                return true;
            }
            i = i + 1;
        }
        false
    }

    /// Every held message that comes after the watermark, oldest first
    /// (copies). This answers a peer's resync request.
    pub fn since(&self, watermark: &Watermark) -> (r: Vec<GtpMessage>)
        requires
            watermark.wf(),
        ensures
            r@.map_values(|m: GtpMessage| m@) == self@.filter(
                |m: GtpMessageView| after_mark(watermark@, m),
            ),
    {
        let ghost pred = |m: GtpMessageView| after_mark(watermark@, m);
        let mut out: Vec<GtpMessage> = Vec::new();
        let mut i: usize = 0;
        while i < self.buffer.len()
            invariant
                0 <= i <= self@.len(),
                watermark.wf(),
                pred == (|m: GtpMessageView| after_mark(watermark@, m)),
                out@.map_values(|m: GtpMessage| m@) == self@.take(i as int).filter(pred),
            decreases self@.len() - i,
        {
            let m = &self.buffer[i];
            let keep = match watermark.last_seen(m.sender_id) {
                Some(hw) => m.message_id > hw,
                None => true,
            };
            proof {
                assert(self@.take(i + 1).drop_last() =~= self@.take(i as int));
                assert(self@.take(i + 1).last() == self@[i as int]);
                reveal(Seq::filter);
                assert(keep == pred(self@[i as int]));
            }
            if keep {
                let ghost before = out@.map_values(|m: GtpMessage| m@);
                out.push(m.copy());
                assert(out@.map_values(|m: GtpMessage| m@) =~= before.push(self@[i as int]));
            }
            i = i + 1;
        }
        assert(self@.take(self@.len() as int) =~= self@);
        out
    }

    /// Every held message from `sender_id` with an id above
    /// `since_message_id`, oldest first (copies).
    pub fn since_for_sender(&self, sender_id: MemberId, since_message_id: u64) -> (r: Vec<
        GtpMessage,
    >)
        ensures
            r@.map_values(|m: GtpMessage| m@) == self@.filter(
                |m: GtpMessageView| m.sender_id == sender_id && m.message_id > since_message_id,
            ),
    {
        let ghost pred = |m: GtpMessageView|
            m.sender_id == sender_id && m.message_id > since_message_id;
        let mut out: Vec<GtpMessage> = Vec::new();
        let mut i: usize = 0;
        while i < self.buffer.len()
            invariant
                0 <= i <= self@.len(),
                pred == (|m: GtpMessageView|
                    m.sender_id == sender_id && m.message_id > since_message_id),
                out@.map_values(|m: GtpMessage| m@) == self@.take(i as int).filter(pred),
            decreases self@.len() - i,
        {
            let m = &self.buffer[i];
            let keep = m.sender_id == sender_id && m.message_id > since_message_id;
            proof {
                assert(self@.take(i + 1).drop_last() =~= self@.take(i as int));
                assert(self@.take(i + 1).last() == self@[i as int]);
                reveal(Seq::filter);
            }
            if keep {
                let ghost before = out@.map_values(|m: GtpMessage| m@);
                out.push(m.copy());
                assert(out@.map_values(|m: GtpMessage| m@) =~= before.push(self@[i as int]));
            }
            i = i + 1;
        }
        assert(self@.take(self@.len() as int) =~= self@);
        out
    }

    /// Drops every message; the capacity is kept.
    pub fn clear(&mut self)
        requires
            old(self).wf(),
        ensures
            final(self).wf(),
            final(self).capacity() == old(self).capacity(),
            final(self)@ == Seq::<GtpMessageView>::empty(),
    {
        self.buffer.clear();
        assert(self@ =~= Seq::<GtpMessageView>::empty());
    }
}

/// Per-sender high-water mark of accepted GTP `message_id`s.
pub struct Watermark {
    last_seen: KeyedMap<u64>,
}

impl View for Watermark {
    type V = Map<u32, u64>;

    /// The mark of each sender seen.
    closed spec fn view(&self) -> Map<u32, u64> {
        self.last_seen@
    }
}

/// The mark of `sender_id` after observing `message_id`: the larger of the
/// old mark (0 when none) and `message_id`.
pub open spec fn observed(marks: Map<u32, u64>, sender_id: u32, message_id: u64) -> Map<u32, u64> {
    let old_mark: u64 = if marks.contains_key(sender_id) {
        marks[sender_id]
    } else {
        0
    };
    marks.insert(sender_id, if message_id > old_mark { message_id } else { old_mark })
}

impl Watermark {
    /// The senders in the order they were first observed.
    pub closed spec fn senders(&self) -> Seq<u32> {
        self.last_seen.key_order()
    }

    /// The sender order lists exactly the senders with a mark, each once.
    pub closed spec fn wf(&self) -> bool {
        self.last_seen.wf()
    }

    /// An empty watermark (no message seen).
    pub fn new() -> (r: Self)
        ensures
            r.wf(),
            r@ == Map::<u32, u64>::empty(),
    {
        Watermark { last_seen: KeyedMap::new() }
    }

    /// Records that `message_id` from `sender_id` was observed; the mark
    /// keeps the maximum.
    pub fn observe(&mut self, sender_id: MemberId, message_id: u64)
        requires
            old(self).wf(),
        ensures
            final(self).wf(),
            final(self)@ == observed(old(self)@, sender_id, message_id),
    {
        let cur: u64 = match self.last_seen.get(sender_id) {
            Some(v) => *v,
            None => 0,
        };
        let next = if message_id > cur {
            message_id
        } else {
            cur
        };
        self.last_seen.insert(sender_id, next);
    }

    /// The mark of `sender_id`, or `None` if nothing was observed from it.
    pub fn last_seen(&self, sender_id: MemberId) -> (r: Option<u64>)
        ensures
            r == (if self@.contains_key(sender_id) {
                Some(self@[sender_id])
            } else {
                None::<u64>
            }),
    {
        match self.last_seen.get(sender_id) {
            Some(v) => Some(*v),
            None => None,
        }
    }

    /// The `(sender_id, mark)` pairs, in the order the senders were first
    /// observed.
    pub fn iter(&self) -> (r: Vec<(MemberId, u64)>)
        requires
            self.wf(),
        ensures
            r@.len() == self.senders().len(),
            forall|i: int|
                0 <= i < r@.len() ==> #[trigger] r@[i] == (self.senders()[i], self@[self.senders()[i]]),
            forall|s: u32| self@.contains_key(s) <==> #[trigger] self.senders().contains(s),
    {
        proof {
            self.last_seen.lemma_wf();
        }
        let n = self.last_seen.len();
        let mut out: Vec<(MemberId, u64)> = Vec::new();
        let mut i: usize = 0;
        while i < n
            invariant
                0 <= i <= n,
                n == self.senders().len(),
                self.wf(),
                forall|s: u32| #[trigger] self@.contains_key(s) <==> self.senders().contains(s),
                out@.len() == i,
                forall|k: int|
                    0 <= k < i ==> #[trigger] out@[k] == (self.senders()[k], self@[self.senders()[k]]),
            decreases n - i,
        {
            let s = self.last_seen.key_at(i);
            assert(self.senders().contains(s));
            let v = match self.last_seen.get(s) {
                Some(v) => *v,
                None => 0,
            };
            out.push((s, v));
            i = i + 1;
        }
        out
    }

    /// Number of senders tracked.
    pub fn len(&self) -> (r: usize)
        requires
            self.wf(),
        ensures
            r == self@.dom().len(),
    {
        self.last_seen.len()
    }

    /// `true` if no sender is tracked.
    pub fn is_empty(&self) -> (r: bool)
        requires
            self.wf(),
        ensures
            r == (self@.dom().len() == 0),
    {
        self.last_seen.len() == 0
    }

    /// Drops every mark.
    pub fn clear(&mut self)
        ensures
            final(self).wf(),
            final(self)@ == Map::<u32, u64>::empty(),
    {
        self.last_seen.clear();
    }
}

/// A message the history records is held afterwards.
pub proof fn lemma_pushed_is_held(s: Seq<GtpMessageView>, m: GtpMessageView, cap: nat)
    requires
        cap > 0,
        s.len() <= cap,
    ensures
        holds_id(history_push(s, m, cap), m.sender_id, m.message_id),
{
    let t = history_push(s, m, cap);
    assert(t[t.len() - 1] == m);
}

/// Observing never lowers a sender's mark, and the mark covers what was
/// observed.
pub proof fn lemma_observe_keeps_max(marks: Map<u32, u64>, sender: u32, a: u64, b: u64)
    ensures
        observed(marks, sender, a)[sender] >= a,
        marks.contains_key(sender) ==> observed(marks, sender, a)[sender] >= marks[sender],
        observed(observed(marks, sender, a), sender, b)[sender] >= a,
{
}

impl Default for Watermark {
    /// A watermark that has observed nothing.
    fn default() -> (r: Self)
        ensures
            r.wf(),
            r@ == Map::<u32, u64>::empty(),
    {
        Self::new()
    }
}

} // verus!

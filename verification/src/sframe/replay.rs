//! Sliding-window replay protection for a single `(KID, sender)` pair.
//!
//! Maintains a 1024-entry bit window: bit `i` is set iff counter `base - i`
//! has been received, where `base` is the highest counter seen so far.
//! Counters 1024 or more positions behind `base` are rejected as too old;
//! counters ahead of `base` advance the window.

use vstd::prelude::*;

verus! {

/// Number of counters the window covers.
pub const WINDOW_SIZE: u64 = 1024;

/// Bit `p` of the packed 1024-bit window `w` (bit 0 is the lowest bit of
/// word 0).
pub open spec fn bit_at(w: Seq<u64>, p: int) -> bool {
    0 <= p < 1024 && (w[p / 64] >> ((p % 64) as u64)) & 1u64 == 1u64
}

/// The bits of `w` moved up by `by` positions, the low `by` positions
/// cleared.
pub open spec fn shifted(w: Seq<u64>, by: int, p: int) -> bool {
    p >= by && bit_at(w, p - by)
}

/// Sliding-window replay protection state.
pub struct ReplayWindow {
    /// Highest counter seen. Meaningless while `!initialized`.
    base: u64,
    /// 1024-bit window stored as 16 words (bit 0 of word 0 = `base`).
    window: [u64; 16],
    initialized: bool,
}

/// The abstract state of a replay window: whether any counter was accepted,
/// the highest accepted counter, and which counters are remembered as seen.
pub struct ReplayState {
    /// Some counter has been accepted since creation or the last reset.
    pub initialized: bool,
    /// The highest accepted counter.
    pub base: u64,
    /// The counters remembered as seen (all within the window below `base`).
    pub marked: Set<u64>,
}

impl View for ReplayWindow {
    type V = ReplayState;

    closed spec fn view(&self) -> ReplayState {
        ReplayState {
            initialized: self.initialized,
            base: self.base,
            marked: Set::new(
                |c: u64|
                    self.initialized && c <= self.base && bit_at(
                        self.window@,
                        self.base - c,
                    ),
            ),
        }
    }
}

/// The outcome that the window owes for counter `ctr` in state `s`:
/// accepted (`true`) or rejected as replayed or too old (`false`).
pub open spec fn accepts(s: ReplayState, ctr: u64) -> bool {
    !s.initialized || ctr > s.base || (s.base - ctr < WINDOW_SIZE && !s.marked.contains(ctr))
}

/// The state after `ctr` has been accepted in state `s`.
pub open spec fn after_accept(s: ReplayState, ctr: u64) -> ReplayState {
    if !s.initialized {
        ReplayState { initialized: true, base: ctr, marked: set![ctr] }
    } else if ctr > s.base {
        ReplayState {
            initialized: true,
            base: ctr,
            marked: Set::new(|c: u64| c == ctr || (s.marked.contains(c) && ctr - c < WINDOW_SIZE)),
        }
    } else {
        ReplayState { initialized: true, base: s.base, marked: s.marked.insert(ctr) }
    }
}

/// A counter that was just accepted is rejected when it arrives again.
pub proof fn lemma_accepted_counter_is_replay(s: ReplayState, ctr: u64)
    ensures
        !accepts(after_accept(s, ctr), ctr),
{
    let t = after_accept(s, ctr);
    assert(t.marked.contains(ctr));
}

/// A counter a full window or more behind the highest accepted counter is
/// rejected, whether or not it was seen.
pub proof fn lemma_too_old_is_rejected(s: ReplayState, ctr: u64)
    requires
        s.initialized,
        ctr <= s.base,
        s.base - ctr >= WINDOW_SIZE,
    ensures
        !accepts(s, ctr),
{
}

/// A window that has accepted nothing accepts every counter.
pub proof fn lemma_fresh_window_accepts(s: ReplayState, ctr: u64)
    requires
        !s.initialized,
    ensures
        accepts(s, ctr),
{
}

/// Accepting a counter never lowers the highest accepted counter, and every
/// counter ahead of it is accepted.
pub proof fn lemma_base_is_monotone(s: ReplayState, ctr: u64, next: u64)
    requires
        s.initialized,
        next > after_accept(s, ctr).base,
    ensures
        after_accept(s, ctr).base >= s.base,
        accepts(after_accept(s, ctr), next),
{
}

/// A window that was reset behaves like a new one: whatever its highest
/// counter was, it accepts every counter and ends in the same state.
pub proof fn lemma_reset_is_fresh(a: ReplayState, b: ReplayState, ctr: u64)
    requires
        !a.initialized,
        !b.initialized,
    ensures
        accepts(a, ctr) && accepts(b, ctr),
        after_accept(a, ctr) == after_accept(b, ctr),
{
}

/// The state after accepting each counter of `ctrs` in turn from `s`.
pub open spec fn after_all(s: ReplayState, ctrs: Seq<u64>) -> ReplayState
    decreases ctrs.len(),
{
    if ctrs.len() == 0 {
        s
    } else {
        after_accept(after_all(s, ctrs.drop_last()), ctrs.last())
    }
}

/// Accepting a counter keeps every rejected counter rejected.
proof fn lemma_rejection_persists(s: ReplayState, ctr: u64, c: u64)
    requires
        !accepts(s, c),
    ensures
        !accepts(after_accept(s, ctr), c),
{
    let t = after_accept(s, ctr);
    if ctr > s.base && t.base - c < WINDOW_SIZE {
        assert(t.marked.contains(c));
    }
}

/// Every counter accepted since creation or the last reset is rejected
/// from then on: after accepting the counters `ctrs` in turn, the window
/// rejects each of them (as replayed, or as too old).
pub proof fn lemma_accepted_stay_rejected(s: ReplayState, ctrs: Seq<u64>, i: int)
    requires
        0 <= i < ctrs.len(),
    ensures
        !accepts(after_all(s, ctrs), ctrs[i]),
    decreases ctrs.len(),
{
    let pre = ctrs.drop_last();
    if i == ctrs.len() - 1 {
        lemma_accepted_counter_is_replay(after_all(s, pre), ctrs.last());
    } else {
        lemma_accepted_stay_rejected(s, pre, i);
        assert(pre[i] == ctrs[i]);
        lemma_rejection_persists(after_all(s, pre), ctrs.last(), ctrs[i]);
    }
}

/// The largest counter of `ctrs` (0 for none).
pub open spec fn seq_max(ctrs: Seq<u64>) -> u64
    decreases ctrs.len(),
{
    if ctrs.len() == 0 {
        0
    } else if ctrs.len() == 1 {
        ctrs[0]
    } else if ctrs.last() > seq_max(ctrs.drop_last()) {
        ctrs.last()
    } else {
        seq_max(ctrs.drop_last())
    }
}

/// Each counter of `ctrs` was accepted in turn, starting from `s0`.
pub open spec fn accepted_in_turn(s0: ReplayState, ctrs: Seq<u64>) -> bool {
    forall|i: int| 0 <= i < ctrs.len() ==> #[trigger] accepts(after_all(s0, ctrs.take(i)), ctrs[i])
}

/// `s` is the window that accepted exactly the counters `ctrs`: it has
/// accepted something iff `ctrs` is not empty, its highest counter is
/// theirs, and within the window it remembers exactly them.
pub open spec fn window_holds(s: ReplayState, ctrs: Seq<u64>) -> bool {
    &&& s.initialized == (ctrs.len() > 0)
    &&& ctrs.len() > 0 ==> s.base == seq_max(ctrs)
    &&& forall|c: u64| #[trigger]
        s.marked.contains(c) ==> s.initialized && c <= s.base && s.base - c < WINDOW_SIZE
    &&& forall|c: u64|
        #![trigger s.marked.contains(c)]
        #![trigger ctrs.contains(c)]
        s.initialized && c <= s.base && s.base - c < WINDOW_SIZE ==> (s.marked.contains(c)
            <==> ctrs.contains(c))
}

proof fn lemma_seq_max(ctrs: Seq<u64>)
    requires
        ctrs.len() > 0,
    ensures
        ctrs.contains(seq_max(ctrs)),
        forall|i: int| 0 <= i < ctrs.len() ==> ctrs[i] <= seq_max(ctrs),
    decreases ctrs.len(),
{
    if ctrs.len() == 1 {
        assert(ctrs[0] == seq_max(ctrs));
    } else {
        let p = ctrs.drop_last();
        lemma_seq_max(p);
        assert forall|i: int| 0 <= i < ctrs.len() implies ctrs[i] <= seq_max(ctrs) by {
            if i < ctrs.len() - 1 {
                assert(ctrs[i] == p[i]);
            }
        }
        if ctrs.last() > seq_max(p) {
            assert(ctrs[ctrs.len() - 1] == seq_max(ctrs));
        } else {
            let j = choose|j: int| 0 <= j < p.len() && p[j] == seq_max(p);
            assert(ctrs[j] == seq_max(ctrs));
        }
    }
}

proof fn lemma_push_contains(p: Seq<u64>, x: u64, c: u64)
    ensures
        p.push(x).contains(c) <==> (p.contains(c) || c == x),
{
    if p.contains(c) {
        let j = choose|j: int| 0 <= j < p.len() && p[j] == c;
        assert(p.push(x)[j] == c);
    }
    if c == x {
        assert(p.push(x)[p.len() as int] == c);
    }
    if p.push(x).contains(c) {
        let j = choose|j: int| 0 <= j < p.push(x).len() && p.push(x)[j] == c;
        if j < p.len() {
            assert(p[j] == c);
        }
    }
}

proof fn lemma_history_holds(s0: ReplayState, ctrs: Seq<u64>)
    requires
        !s0.initialized,
        s0.marked == Set::<u64>::empty(),
        accepted_in_turn(s0, ctrs),
    ensures
        window_holds(after_all(s0, ctrs), ctrs),
    decreases ctrs.len(),
{
    if ctrs.len() > 0 {
        let p = ctrs.drop_last();
        let x = ctrs.last();
        assert forall|i: int| 0 <= i < p.len() implies #[trigger] accepts(after_all(s0, p.take(i)), p[i]) by {
            assert(p.take(i) =~= ctrs.take(i));
            assert(accepts(after_all(s0, ctrs.take(i)), ctrs[i]));
        }
        lemma_history_holds(s0, p);
        let sp = after_all(s0, p);
        assert(ctrs.take(ctrs.len() - 1) =~= p);
        assert(accepts(after_all(s0, ctrs.take(ctrs.len() - 1)), ctrs[ctrs.len() - 1]));
        assert(accepts(sp, x));
        let s = after_accept(sp, x);
        assert(ctrs =~= p.push(x));
        if p.len() > 0 {
            lemma_seq_max(p);
        }
        assert forall|c: u64| #[trigger] s.marked.contains(c) implies s.initialized && c <= s.base
            && s.base - c < WINDOW_SIZE by {
            if sp.initialized && x <= sp.base && c != x {
                assert(sp.marked.contains(c));
            }
        }
        assert forall|c: u64|
            s.initialized && c <= s.base && s.base - c < WINDOW_SIZE implies (s.marked.contains(c)
                <==> ctrs.contains(c)) by {
            lemma_push_contains(p, x, c);
            if p.len() > 0 && c != x && c > sp.base {
                if p.contains(c) {
                    let j = choose|j: int| 0 <= j < p.len() && p[j] == c;
                    assert(p[j] <= seq_max(p));
                }
                assert(!sp.marked.contains(c));
            }
        }
    }
}

/// `check_and_mark` over a window's history. With `ctrs` the counters the
/// window accepted, in turn, since it was created or last reset (from a
/// state that had accepted nothing), a counter is accepted exactly when it
/// is not one of them and either none was accepted, or it is above the
/// highest of them, or less than the window size below it; accepting it
/// extends that history by it.
pub proof fn lemma_check_and_mark_history(s0: ReplayState, ctrs: Seq<u64>, ctr: u64)
    requires
        !s0.initialized,
        s0.marked == Set::<u64>::empty(),
        accepted_in_turn(s0, ctrs),
    ensures
        accepts(after_all(s0, ctrs), ctr) <==> (!ctrs.contains(ctr) && (ctrs.len() == 0 || ctr > seq_max(ctrs)
            || seq_max(ctrs) - ctr < WINDOW_SIZE)),
        accepts(after_all(s0, ctrs), ctr) ==> accepted_in_turn(s0, ctrs.push(ctr)) && after_all(
            s0,
            ctrs.push(ctr),
        ) == after_accept(after_all(s0, ctrs), ctr),
{
    lemma_history_holds(s0, ctrs);
    let s = after_all(s0, ctrs);
    if ctrs.len() > 0 {
        lemma_seq_max(ctrs);
        if ctr > seq_max(ctrs) && ctrs.contains(ctr) {
            let j = choose|j: int| 0 <= j < ctrs.len() && ctrs[j] == ctr;
            assert(ctrs[j] <= seq_max(ctrs));
        }
    }
    assert(ctrs.push(ctr).drop_last() =~= ctrs);
    if accepts(s, ctr) {
        let q = ctrs.push(ctr);
        assert forall|i: int| 0 <= i < q.len() implies #[trigger] accepts(after_all(s0, q.take(i)), q[i]) by {
            if i < ctrs.len() {
                assert(q.take(i) =~= ctrs.take(i));
                assert(accepts(after_all(s0, ctrs.take(i)), ctrs[i]));
            } else {
                assert(q.take(i) =~= ctrs);
            }
        }
    }
}

proof fn lemma_word_shift(lo: u64, hi: u64, bs: u64, b: u64)
    requires
        0 < bs < 64,
        b < 64,
    ensures
        ((((lo << bs) | (hi >> ((64 - bs) as u64))) >> b) & 1u64 == 1u64) == (if b >= bs {
            ((lo >> ((b - bs) as u64)) & 1u64) == 1u64
        } else {
            ((hi >> ((b + 64 - bs) as u64)) & 1u64) == 1u64
        }),
{
    assert(((((lo << bs) | (hi >> ((64 - bs) as u64))) >> b) & 1u64 == 1u64) == (if b >= bs {
        ((lo >> ((b - bs) as u64)) & 1u64) == 1u64
    } else {
        ((hi >> ((b + 64 - bs) as u64)) & 1u64) == 1u64
    })) by (bit_vector)
        requires
            0 < bs < 64,
            b < 64,
    ;
}

proof fn lemma_zero_bits(b: u64)
    requires
        b < 64,
    ensures
        (0u64 >> b) & 1u64 != 1u64,
{
    assert((0u64 >> b) & 1u64 != 1u64) by (bit_vector);
}

proof fn lemma_set_bit(x: u64, b: u64, c: u64)
    requires
        b < 64,
        c < 64,
    ensures
        (((x | (1u64 << b)) >> c) & 1u64 == 1u64) == (c == b || (x >> c) & 1u64 == 1u64),
        ((x & (1u64 << b)) != 0u64) == ((x >> b) & 1u64 == 1u64),
{
    assert((((x | (1u64 << b)) >> c) & 1u64 == 1u64) == (c == b || (x >> c) & 1u64 == 1u64))
        by (bit_vector)
        requires
            b < 64,
            c < 64,
    ;
    assert(((x & (1u64 << b)) != 0u64) == ((x >> b) & 1u64 == 1u64)) by (bit_vector)
        requires
            b < 64,
    ;
}

proof fn lemma_or_one(x: u64, c: u64)
    requires
        c < 64,
    ensures
        (((x | 1u64) >> c) & 1u64 == 1u64) == (c == 0 || (x >> c) & 1u64 == 1u64),
        ((1u64 >> c) & 1u64 == 1u64) == (c == 0),
{
    assert((((x | 1u64) >> c) & 1u64 == 1u64) == (c == 0 || (x >> c) & 1u64 == 1u64))
        by (bit_vector)
        requires
            c < 64,
    ;
    assert(((1u64 >> c) & 1u64 == 1u64) == (c == 0)) by (bit_vector)
        requires
            c < 64,
    ;
}

/// The value word `i` of `w` takes when the window moves up by `ws` words
/// and `bs` bits.
spec fn shifted_word(w: Seq<u64>, i: int, ws: int, bs: int) -> u64 {
    if i < ws {
        0
    } else if bs == 0 {
        w[i - ws]
    } else {
        let lo = w[i - ws];
        let hi: u64 = if i - ws > 0 {
            w[i - ws - 1]
        } else {
            0
        };
        (lo << (bs as u64)) | (hi >> ((64 - bs) as u64))
    }
}

proof fn lemma_shifted_word_bits(w: Seq<u64>, ws: int, bs: int, p: int)
    requires
        w.len() == 16,
        0 <= ws < 16,
        0 <= bs < 64,
        0 <= p < 1024,
    ensures
        ((shifted_word(w, p / 64, ws, bs) >> ((p % 64) as u64)) & 1u64 == 1u64) == shifted(
            w,
            ws * 64 + bs,
            p,
        ),
{
    let i = p / 64;
    let b = p % 64;
    let by = ws * 64 + bs;
    if i < ws {
        lemma_zero_bits(b as u64);
    } else if bs == 0 {
        assert((p - by) / 64 == i - ws);
        assert((p - by) % 64 == b);
    } else {
        let lo = w[i - ws];
        let hi: u64 = if i - ws > 0 {
            w[i - ws - 1]
        } else {
            0
        };
        lemma_word_shift(lo, hi, bs as u64, b as u64);
        if b >= bs {
            assert((p - by) / 64 == i - ws);
            assert((p - by) % 64 == b - bs);
        } else {
            if i - ws > 0 {
                assert((p - by) / 64 == i - ws - 1);
                assert((p - by) % 64 == b + 64 - bs);
            } else {
                assert(p - by < 0);
                lemma_zero_bits((b + 64 - bs) as u64);
            }
        }
    }
}

/// Shifts the packed 1024-bit window "up" by `by` bit positions in place:
/// the bit at position `n` moves to `n + by`, positions `0..by` are
/// cleared.
fn shift_window_up(window: &mut [u64; 16], by: usize)
    ensures
        forall|p: int| 0 <= p < 1024 ==> #[trigger] bit_at(final(window)@, p) == shifted(old(window)@, by as int, p),
{
    if by >= WINDOW_SIZE as usize {
        *window = [0u64; 16];
        assert forall|p: int| 0 <= p < 1024 implies #[trigger] bit_at(window@, p) == shifted(
            old(window)@,
            by as int,
            p,
        ) by {
            lemma_zero_bits((p % 64) as u64);
        }
        return;
    }
    let word_shift = by / 64;
    let bit_shift = by % 64;
    let ghost w0 = window@;
    let mut i: usize = 16;
    while i > 0
        invariant
            0 <= i <= 16,
            window@.len() == 16,
            word_shift < 16,
            bit_shift < 64,
            by == word_shift * 64 + bit_shift,
            w0 == old(window)@,
            forall|k: int| 0 <= k < i ==> window@[k] == w0[k],
            forall|k: int|
                i <= k < 16 ==> window@[k] == shifted_word(
                    w0,
                    k,
                    word_shift as int,
                    bit_shift as int,
                ),
        decreases i,
    {
        i = i - 1;
        if i < word_shift {
            window[i] = 0;
        } else {
            let src = i - word_shift;
            if bit_shift == 0 {
                window[i] = window[src];
            } else {
                let lo = window[src];
                let hi = if src > 0 {
                    window[src - 1]
                } else {
                    0
                };
                window[i] = (lo << (bit_shift as u64)) | (hi >> ((64 - bit_shift) as u64));
            }
        }
    }
    assert forall|p: int| 0 <= p < 1024 implies #[trigger] bit_at(window@, p) == shifted(
        w0,
        by as int,
        p,
    ) by {
        lemma_shifted_word_bits(w0, word_shift as int, bit_shift as int, p);
    }
}

impl ReplayWindow {
    /// Creates a new, empty replay window.
    pub fn new() -> (r: Self)
        ensures
            !r@.initialized,
            r@.base == 0,
            r@.marked == Set::<u64>::empty(),
    {
        let r = ReplayWindow { base: 0, window: [0u64; 16], initialized: false };
        assert(r@.marked =~= Set::<u64>::empty());
        r
    }

    /// Checks whether `ctr` is acceptable (not replayed, not too old) and
    /// marks it as seen. Returns `Ok(())` on first acceptance, `Err(())` for
    /// replays or overly-old counters (and then leaves the window as it
    /// was).
    pub fn check_and_mark(&mut self, ctr: u64) -> (r: Result<(), ()>)
        ensures
            r is Ok == accepts(old(self)@, ctr),
            r is Ok ==> final(self)@ == after_accept(old(self)@, ctr),
            r is Err ==> final(self)@ == old(self)@,
    {
        let ghost s0 = self@;
        if !self.initialized {
            self.base = ctr;
            self.window = [1u64, 0, 0, 0, 0, 0, 0, 0, 0, 0, 0, 0, 0, 0, 0, 0];
            self.initialized = true;
            proof {
                assert forall|c: u64| #[trigger] self@.marked.contains(c) == (c == ctr) by {
                    if c <= ctr {
                        let p = (ctr - c) as int;
                        if p < 1024 {
                            assert(self.window@[p / 64] == (if p / 64 == 0 { 1u64 } else { 0u64 }));
                            if p >= 64 {
                                lemma_zero_bits((p % 64) as u64);
                            } else {
                                lemma_or_one(0, p as u64);
                            }
                        }
                    }
                }
                assert(self@.marked =~= set![ctr]);
            }
            return Ok(());
        }
        if ctr > self.base {
            let advance = ctr - self.base;
            let by: usize = if advance >= WINDOW_SIZE {
                WINDOW_SIZE as usize
            } else {
                advance as usize
            };
            let ghost wpre = self.window@;
            shift_window_up(&mut self.window, by);
            let ghost wshift = self.window@;
            self.base = ctr;
            let w0 = self.window[0];
            self.window[0] = w0 | 1;
            proof {
                let expected = after_accept(s0, ctr);
                assert forall|c: u64| #[trigger]
                    self@.marked.contains(c) == expected.marked.contains(c) by {
                    if c <= ctr && ctr - c < 1024 {
                        let p = (ctr - c) as int;
                        assert(bit_at(wshift, p) == shifted(wpre, by as int, p));
                        if p < 64 {
                            lemma_or_one(w0, p as u64);
                            assert(wshift[0] == w0);
                        } else {
                            assert(self.window@[p / 64] == wshift[p / 64]);
                        }
                    }
                }
                assert(self@.marked =~= expected.marked);
            }
            Ok(())
        } else {
            let behind = self.base - ctr;
            if behind >= WINDOW_SIZE {
                return Err(());
            }
            let word = (behind / 64) as usize;
            let bit = behind % 64;
            proof {
                lemma_set_bit(self.window@[word as int], bit, bit);
            }
            if self.window[word] & (1u64 << bit) != 0 {
                assert(s0.marked.contains(ctr));
                return Err(());
            }
            let ghost wpre = self.window@;
            let cur = self.window[word];
            self.window[word] = cur | (1u64 << bit);
            proof {
                let expected = after_accept(s0, ctr);
                assert forall|c: u64| #[trigger]
                    self@.marked.contains(c) == expected.marked.contains(c) by {
                    if c <= self.base && self.base - c < 1024 {
                        let p = (self.base - c) as int;
                        if p / 64 == word {
                            lemma_set_bit(cur, bit, (p % 64) as u64);
                        } else {
                            assert(self.window@[p / 64] == wpre[p / 64]);
                        }
                    }
                }
                assert(self@.marked =~= expected.marked);
            }
            Ok(())
        }
    }

    /// Resets the window (call on epoch change): every counter is forgotten.
    pub fn reset(&mut self)
        ensures
            !final(self)@.initialized,
            final(self)@.base == old(self)@.base,
            final(self)@.marked == Set::<u64>::empty(),
    {
        self.initialized = false;
        self.window = [0u64; 16];
        assert(self@.marked =~= Set::<u64>::empty());
    }
}

impl Default for ReplayWindow {
    /// An empty replay window.
    fn default() -> (r: Self)
        ensures
            !r@.initialized,
            r@.marked == Set::<u64>::empty(),
    {
        Self::new()
    }
}

} // verus!

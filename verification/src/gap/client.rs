//! The stateful GAP client: per-source outbound RTP sequence numbers and
//! an inbound replay window, with the windows of earlier epochs kept for
//! an overlap period so that audio still in flight across an epoch change
//! is accepted.

use std::collections::HashMap;
use vstd::prelude::*;
use crate::text::{decimal, decimal_string, join2};
use crate::base::{CodecError, codec_error_text};
use crate::clock::clock_ms;
use crate::gap::payload::{GapPayload, GapPayloadView};
use crate::node::{GroupNode, NodeError, node_error_text, OutboundFrame, Sealer, seal_outcome, send_outcome, seq_of};
use crate::vocab::codec::PayloadCodec;
use crate::vocab::ids::MemberId;
use crate::vocab::stream::StreamType;
use crate::vocab::timeouts;

verus! {

broadcast use vstd::std_specs::hash::group_hash_axioms;

/// Errors returned by [`GapClient`].
#[derive(Debug)]
pub enum GapError {
    /// The payload could not be decoded.
    Decode(CodecError),
    /// `key_phase` names neither the current epoch nor an earlier epoch
    /// whose overlap period is still running.
    EpochStale {
        /// Reported `key_phase`.
        kp: u32,
        /// Expected `key_phase` (the current epoch).
        expected: u32,
    },
    /// `rtp_sequence` was already seen for the same `media_source_id`.
    RtpReplay {
        /// `media_source_id`.
        src: u32,
        /// Reported `rtp_sequence`.
        seq: u32,
        /// Replay-window high-water mark.
        hw: u32,
    },
    /// Underlying GBP node error during send.
    Node(NodeError),
}

/// The display text of a GAP client error.
pub open spec fn gap_error_text(e: GapError) -> Seq<char> {
    match e {
        GapError::Decode(c) => "decode: "@ + codec_error_text(c),
        GapError::EpochStale { kp, expected } => "epoch stale: kp="@ + decimal(kp as nat) + ", expected="@
            + decimal(expected as nat),
        GapError::RtpReplay { src, seq, hw } => "rtp replay: src="@ + decimal(src as nat) + ", seq="@
            + decimal(seq as nat) + ", hw="@ + decimal(hw as nat),
        GapError::Node(n) => "node: "@ + node_error_text(n),
    }
}

impl GapError {
    /// Display text of the error.
    pub fn message(&self) -> (r: String)
        ensures
            r@ == gap_error_text(*self),
    {
        match self {
            GapError::Decode(c) => join2("decode: ".to_owned(), c.message().as_str()),
            GapError::EpochStale { kp, expected } => {
                let s = join2("epoch stale: kp=".to_owned(), decimal_string(*kp as u64).as_str());
                let s = join2(s, ", expected=");
                join2(s, decimal_string(*expected as u64).as_str())
            },
            GapError::RtpReplay { src, seq, hw } => {
                let s = join2("rtp replay: src=".to_owned(), decimal_string(*src as u64).as_str());
                let s = join2(s, ", seq=");
                let s = join2(s, decimal_string(*seq as u64).as_str());
                let s = join2(s, ", hw=");
                join2(s, decimal_string(*hw as u64).as_str())
            },
            GapError::Node(n) => join2("node: ".to_owned(), n.message().as_str()),
        }
    }
}

/// Outcome of accepting a GAP payload.
#[derive(Debug)]
pub enum GapAccept {
    /// A new audio frame.
    New(GapPayload),
    /// A late frame (`rtp_sequence` at or below the source's high-water
    /// mark, less than half the 16-bit range behind); it may be dropped.
    Late(GapPayload),
}

/// The stream id base of the audio class.
pub const GAP_STREAM_BASE: u32 = 2;

/// The replay window of an earlier epoch, kept until `expires`.
struct OldEpochWindow {
    epoch: u64,
    in_hw: HashMap<u32, u32>,
    expires: u64,
}

/// The abstract value of a retained earlier-epoch window.
pub struct WindowView {
    /// The epoch the window belongs to.
    pub epoch: u64,
    /// Per-source high-water marks of that epoch.
    pub in_hw: Map<u32, u32>,
    /// Time (ms) at which the window is dropped.
    pub expires: u64,
}

impl View for OldEpochWindow {
    type V = WindowView;

    closed spec fn view(&self) -> WindowView {
        WindowView { epoch: self.epoch, in_hw: self.in_hw@, expires: self.expires }
    }
}

/// The abstract state of a [`GapClient`].
pub struct GapClientView {
    /// Last outbound RTP sequence number per source.
    pub out_rtp_seq: Map<u32, u32>,
    /// Inbound high-water mark per source, current epoch.
    pub in_hw: Map<u32, u32>,
    /// The epoch last observed, if any.
    pub current_epoch: Option<u64>,
    /// Retained windows of earlier epochs, oldest first.
    pub old_windows: Seq<WindowView>,
}

/// A window is still retained at `now` while its expiry lies ahead.
pub open spec fn window_live(w: WindowView, now: u64) -> bool {
    w.expires > now
}

/// `a + b`, saturated at `u64::MAX`.
pub open spec fn sat_add_ms(a: u64, b: u64) -> u64 {
    if a + b > u64::MAX {
        u64::MAX
    } else {
        (a + b) as u64
    }
}

/// The state after observing `epoch` at time `now`: expired windows are
/// dropped; when the epoch changed, the current window (if not empty) is
/// retained for the overlap period and the outbound counters and the
/// current window start afresh.
pub open spec fn gap_synced(v: GapClientView, epoch: u64, now: u64) -> GapClientView {
    let pruned = v.old_windows.filter(|w: WindowView| window_live(w, now));
    if v.current_epoch == Some(epoch) {
        GapClientView { old_windows: pruned, ..v }
    } else {
        let kept = match v.current_epoch {
            Some(old) => if !v.in_hw.is_empty() {
                pruned.push(
                    WindowView {
                        epoch: old,
                        in_hw: v.in_hw,
                        expires: sat_add_ms(now, timeouts::T_GAP_KEY_OVERLAP_MS),
                    },
                )
            } else {
                pruned
            },
            None => pruned,
        };
        GapClientView {
            out_rtp_seq: Map::empty(),
            in_hw: Map::empty(),
            current_epoch: Some(epoch),
            old_windows: kept,
        }
    }
}

/// The high-water mark of `src` (0 when none).
pub open spec fn hw_or_zero(hw: Map<u32, u32>, src: u32) -> u32 {
    if hw.contains_key(src) {
        hw[src]
    } else {
        0
    }
}

/// `seq` is late against the window: at or below the mark and less than
/// half the 16-bit range behind it.
pub open spec fn is_late(hw: Map<u32, u32>, src: u32, seq: u32) -> bool {
    seq <= hw_or_zero(hw, src) && hw_or_zero(hw, src) - seq <= 0x7FFF
}

/// A retained window serves frames of epoch `kp` at `now`.
pub open spec fn window_matches(w: WindowView, kp: u64, now: u64) -> bool {
    w.epoch == kp && w.expires > now
}

/// The position of the first window that serves epoch `kp` at `now`.
pub open spec fn find_window(ws: Seq<WindowView>, kp: u64, now: u64) -> Option<int>
    decreases ws.len(),
{
    if ws.len() == 0 {
        None
    } else if window_matches(ws[0], kp, now) {
        Some(0)
    } else {
        match find_window(ws.drop_first(), kp, now) {
            Some(i) => Some(i + 1),
            None => None,
        }
    }
}

proof fn lemma_find_window(ws: Seq<WindowView>, kp: u64, now: u64, i: int)
    requires
        0 <= i <= ws.len(),
        forall|j: int| 0 <= j < i ==> !window_matches(#[trigger] ws[j], kp, now),
    ensures
        i < ws.len() && window_matches(ws[i], kp, now) ==> find_window(ws, kp, now) == Some(i),
        i == ws.len() ==> find_window(ws, kp, now) is None,
    decreases i,
{
    if i > 0 {
        let rest = ws.drop_first();
        assert forall|j: int| 0 <= j < i - 1 implies !window_matches(#[trigger] rest[j], kp, now) by {
            assert(rest[j] == ws[j + 1]);
        }
        lemma_find_window(rest, kp, now, i - 1);
        assert(!window_matches(ws[0], kp, now));
    }
}

/// The verdict on a payload.
pub enum GapVerdict {
    /// Accepted as new.
    New,
    /// Accepted as late.
    Late,
    /// Refused: no live window for its key phase.
    Stale,
}

/// The verdict and the state after accepting payload `p`, in state `v`
/// that has already observed `epoch` at `now`.
pub open spec fn gap_accepted(v: GapClientView, p: GapPayloadView, epoch: u64, now: u64) -> (
    GapClientView,
    GapVerdict,
) {
    if p.key_phase == epoch as u32 {
        if is_late(v.in_hw, p.media_source_id, p.rtp_sequence) {
            (v, GapVerdict::Late)
        } else {
            (
                GapClientView {
                    in_hw: v.in_hw.insert(p.media_source_id, p.rtp_sequence),
                    ..v
                },
                GapVerdict::New,
            )
        }
    } else {
        match find_window(v.old_windows, p.key_phase as u64, now) {
            Some(i) => {
                let w = v.old_windows[i];
                if is_late(w.in_hw, p.media_source_id, p.rtp_sequence) {
                    (v, GapVerdict::Late)
                } else {
                    (
                        GapClientView {
                            old_windows: v.old_windows.update(
                                i,
                                WindowView {
                                    in_hw: w.in_hw.insert(p.media_source_id, p.rtp_sequence),
                                    ..w
                                },
                            ),
                            ..v
                        },
                        GapVerdict::New,
                    )
                }
            },
            None => (v, GapVerdict::Stale),
        }
    }
}

/// The RTP sequence number after `cur`, in the 16-bit range: it wraps
/// from `0xFFFF` to `0x0000`.
pub open spec fn next_rtp(cur: u32) -> u32 {
    ((if cur == u32::MAX {
        0
    } else {
        cur + 1
    }) % 0x1_0000) as u32
}

/// Stateful GAP client.
pub struct GapClient {
    out_rtp_seq: HashMap<u32, u32>,
    in_hw: HashMap<u32, u32>,
    current_epoch: Option<u64>,
    old_windows: Vec<OldEpochWindow>,
}

impl View for GapClient {
    type V = GapClientView;

    closed spec fn view(&self) -> GapClientView {
        GapClientView {
            out_rtp_seq: self.out_rtp_seq@,
            in_hw: self.in_hw@,
            current_epoch: self.current_epoch,
            old_windows: self.old_windows@.map_values(|w: OldEpochWindow| w@),
        }
    }
}

impl GapClient {
    /// Creates a client with no state.
    pub fn new() -> (r: Self)
        ensures
            r@ == (GapClientView {
                out_rtp_seq: Map::empty(),
                in_hw: Map::empty(),
                current_epoch: None,
                old_windows: Seq::empty(),
            }),
    {
        let r = GapClient {
            out_rtp_seq: HashMap::new(),
            in_hw: HashMap::new(),
            current_epoch: None,
            old_windows: Vec::new(),
        };
        assert(r@.old_windows =~= Seq::<WindowView>::empty());
        r
    }

    /// Number of earlier-epoch windows currently retained.
    pub fn overlap_windows(&self) -> (r: usize)
        ensures
            r == self@.old_windows.len(),
    {
        self.old_windows.len()
    }

    fn prune(&mut self, now_ms: u64)
        ensures
            final(self)@ == (GapClientView {
                old_windows: old(self)@.old_windows.filter(|w: WindowView| window_live(w, now_ms)),
                ..old(self)@
            }),
    {
        let ghost pred = |w: WindowView| window_live(w, now_ms);
        let ghost orig = old(self)@.old_windows;
        let mut rest: Vec<OldEpochWindow> = Vec::new();
        std::mem::swap(&mut rest, &mut self.old_windows);
        let mut kept: Vec<OldEpochWindow> = Vec::new();
        let ghost mut i: int = 0;
        while rest.len() > 0
            invariant
                0 <= i <= orig.len(),
                rest@.map_values(|w: OldEpochWindow| w@) == orig.skip(i),
                kept@.map_values(|w: OldEpochWindow| w@) == orig.take(i).filter(pred),
                pred == (|w: WindowView| window_live(w, now_ms)),
            decreases rest@.len(),
        {
            let ghost rv = rest@.map_values(|w: OldEpochWindow| w@);
            let ghost rest0 = rest@;
            proof {
                assert(rv.len() == rest0.len());
                assert(orig.skip(i).len() > 0);
                assert(i < orig.len());
                assert(rv[0] == rest0[0]@);
                assert(orig.skip(i)[0] == orig[i]);
            }
            let w = rest.remove(0);
            proof {
                assert(rest@ =~= rest0.drop_first());
                let nv = rest@.map_values(|w: OldEpochWindow| w@);
                assert forall|k: int| 0 <= k < nv.len() implies nv[k] == orig.skip(i + 1)[k] by {
                    assert(rest@[k] == rest0[k + 1]);
                    assert(rv[k + 1] == rest0[k + 1]@);
                    assert(orig.skip(i)[k + 1] == orig[i + 1 + k]);
                }
                assert(nv =~= orig.skip(i + 1));
                assert(w@ == orig[i]);
                assert(orig.take(i + 1).drop_last() =~= orig.take(i));
                assert(orig.take(i + 1).last() == orig[i]);
                reveal(Seq::filter);
            }
            if w.expires > now_ms {
                let ghost before = kept@.map_values(|w: OldEpochWindow| w@);
                kept.push(w);
                assert(kept@.map_values(|w: OldEpochWindow| w@) =~= before.push(orig[i]));
            }
            proof {
                i = i + 1;
            }
        }
        proof {
            assert(orig.skip(i).len() == 0);
            assert(orig.take(i) =~= orig);
        }
        self.old_windows = kept;
    }

    /// Observes the group epoch at time `now_ms`: expired windows are
    /// dropped; when the epoch changed, the current window (if not empty)
    /// is kept for `T_GAP_KEY_OVERLAP_MS` and the outbound counters and the
    /// current window start afresh.
    pub fn sync_epoch_at(&mut self, epoch: u64, now_ms: u64)
        ensures
            final(self)@ == gap_synced(old(self)@, epoch, now_ms),
    {
        self.prune(now_ms);
        let same = match self.current_epoch {
            Some(e) => e == epoch,
            None => false,
        };
        if !same {
            match self.current_epoch {
                Some(old_epoch) => {
                    if !self.in_hw.is_empty() {
                        let mut taken: HashMap<u32, u32> = HashMap::new();
                        std::mem::swap(&mut taken, &mut self.in_hw);
                        let expires = now_ms.saturating_add(timeouts::T_GAP_KEY_OVERLAP_MS);
                        let ghost before = self@.old_windows;
                        self.old_windows.push(
                            OldEpochWindow { epoch: old_epoch, in_hw: taken, expires },
                        );
                        assert(self@.old_windows =~= before.push(
                            WindowView { epoch: old_epoch, in_hw: taken@, expires },
                        ));
                    }
                },
                None => {},
            }
            self.out_rtp_seq.clear();
            self.in_hw.clear();
            self.current_epoch = Some(epoch);
            assert(self@.out_rtp_seq =~= Map::<u32, u32>::empty());
            assert(self@.in_hw =~= Map::<u32, u32>::empty());
        }
    }

    /// [`GapClient::sync_epoch_at`] on the system clock.
    pub fn sync_epoch(&mut self, epoch: u64)
        ensures
            exists|t: u64| #[trigger] gap_synced(old(self)@, epoch, t) == final(self)@,
    {
        let now = clock_ms();
        self.sync_epoch_at(epoch, now);
    }

    /// Clears the outbound counters, the replay window and the retained
    /// windows, and forgets the epoch.
    pub fn reset(&mut self)
        ensures
            final(self)@ == (GapClientView {
                out_rtp_seq: Map::empty(),
                in_hw: Map::empty(),
                current_epoch: None,
                old_windows: Seq::empty(),
            }),
    {
        self.out_rtp_seq.clear();
        self.in_hw.clear();
        self.old_windows.clear();
        self.current_epoch = None;
        assert(self@.out_rtp_seq =~= Map::<u32, u32>::empty());
        assert(self@.in_hw =~= Map::<u32, u32>::empty());
        assert(self@.old_windows =~= Seq::<WindowView>::empty());
    }

    fn find_live_window(&self, kp: u64, now_ms: u64) -> (r: Option<usize>)
        ensures
            r is None <==> find_window(self@.old_windows, kp, now_ms) is None,
            r matches Some(j) ==> j < self@.old_windows.len() && find_window(
                self@.old_windows,
                kp,
                now_ms,
            ) == Some(j as int),
    {
        let ghost ws = self@.old_windows;
        let mut i: usize = 0;
        while i < self.old_windows.len()
            invariant
                0 <= i <= ws.len(),
                ws == self@.old_windows,
                forall|j: int| 0 <= j < i ==> !window_matches(#[trigger] ws[j], kp, now_ms),
            decreases ws.len() - i,
        {
            let w = &self.old_windows[i];
            if w.epoch == kp && w.expires > now_ms {
                proof {
                    assert(ws[i as int] == w@);
                    lemma_find_window(ws, kp, now_ms, i as int);
                }
                return Some(i);
            }
            proof {
                assert(ws[i as int] == w@);
            }
            i = i + 1;
        }
        proof {
            lemma_find_window(ws, kp, now_ms, ws.len() as int);
        }
        None
    }

    /// Accepts a decoded payload delivered in `current_epoch` at time
    /// `now_ms`. The epoch is observed first. A payload of the current key
    /// phase is checked against the current window; one of an earlier
    /// phase against the first retained window of that epoch; with no such
    /// window it is `EpochStale`. A frame that is not late raises its
    /// source's mark to its sequence number.
    pub fn accept_at(
        &mut self,
        decoded: Result<GapPayload, CodecError>,
        current_epoch: u64,
        now_ms: u64,
    ) -> (r: Result<GapAccept, GapError>)
        ensures
            ({
                let synced = gap_synced(old(self)@, current_epoch, now_ms);
                match decoded {
                    Err(e) => final(self)@ == synced && r == Err::<GapAccept, GapError>(
                        GapError::Decode(e),
                    ),
                    Ok(p) => {
                        let (post, verdict) = gap_accepted(synced, p@, current_epoch, now_ms);
                        &&& final(self)@ == post
                        &&& match verdict {
                            GapVerdict::New => r matches Ok(GapAccept::New(x)) && x@ == p@,
                            GapVerdict::Late => r matches Ok(GapAccept::Late(x)) && x@ == p@,
                            GapVerdict::Stale => r == Err::<GapAccept, GapError>(
                                GapError::EpochStale { kp: p.key_phase, expected: current_epoch as u32 },
                            ),
                        }
                    },
                }
            }),
    {
        self.sync_epoch_at(current_epoch, now_ms);
        let p = match decoded {
            Ok(p) => p,
            Err(e) => {
                return Err(GapError::Decode(e));
            },
        };
        let src = p.media_source_id;
        let seq = p.rtp_sequence;
        if p.key_phase == current_epoch as u32 {
            let hw: u32 = match self.in_hw.get(&src) {
                Some(v) => *v,
                None => 0,
            };
            if seq <= hw && hw - seq <= 0x7FFF {
                return Ok(GapAccept::Late(p));
            }
            self.in_hw.insert(src, seq);
            return Ok(GapAccept::New(p));
        }
        let kp = p.key_phase as u64;
        match self.find_live_window(kp, now_ms) {
            Some(i) => {
                let ghost ws = self@.old_windows;
                assert(ws[i as int] == self.old_windows@[i as int]@);
                assert(find_window(ws, kp, now_ms) == Some(i as int));
                let hw: u32 = match self.old_windows[i].in_hw.get(&src) {
                    Some(v) => *v,
                    None => 0,
                };
                assert(hw == hw_or_zero(ws[i as int].in_hw, src));
                if seq <= hw && hw - seq <= 0x7FFF {
                    return Ok(GapAccept::Late(p));
                }
                let mut win = self.old_windows.remove(i);
                let ghost wv = win@;
                win.in_hw.insert(src, seq);
                let ghost nv = win@;
                self.old_windows.insert(i, win);
                proof {
                    assert(nv == WindowView { in_hw: wv.in_hw.insert(src, seq), ..wv });
                    assert(self@.old_windows =~= ws.update(i as int, nv));
                }
                Ok(GapAccept::New(p))
            },
            None => {
                Err(GapError::EpochStale { kp: p.key_phase, expected: current_epoch as u32 })
            },
        }
    }

    /// [`GapClient::accept_at`] on the system clock.
    pub fn accept(&mut self, decoded: Result<GapPayload, CodecError>, current_epoch: u64) -> (r:
        Result<GapAccept, GapError>)
        ensures
            exists|t: u64|
                {
                    let synced = #[trigger] gap_synced(old(self)@, current_epoch, t);
                    match decoded {
                        Err(e) => final(self)@ == synced && r == Err::<GapAccept, GapError>(
                            GapError::Decode(e),
                        ),
                        Ok(p) => {
                            let (post, verdict) = gap_accepted(synced, p@, current_epoch, t);
                            &&& final(self)@ == post
                            &&& match verdict {
                                GapVerdict::New => r matches Ok(GapAccept::New(x)) && x@ == p@,
                                GapVerdict::Late => r matches Ok(GapAccept::Late(x)) && x@ == p@,
                                GapVerdict::Stale => r == Err::<GapAccept, GapError>(
                                    GapError::EpochStale {
                                        kp: p.key_phase,
                                        expected: current_epoch as u32,
                                    },
                                ),
                            }
                        },
                    }
                },
    {
        let now = clock_ms();
        self.accept_at(decoded, current_epoch, now)
    }

    /// Builds the next outbound payload of `media_source_id` for `node`,
    /// at time `now_ms`: the node's epoch is observed first, the source's
    /// RTP sequence number moves on by one in the 16-bit range, and the key
    /// phase is the node's epoch.
    pub fn compose_at(
        &mut self,
        node: &GroupNode,
        media_source_id: u32,
        rtp_timestamp: u64,
        opus: Vec<u8>,
        now_ms: u64,
    ) -> (r: GapPayload)
        ensures
            ({
                let synced = gap_synced(old(self)@, node@.current_epoch, now_ms);
                let seq = next_rtp(hw_or_zero(synced.out_rtp_seq, media_source_id));
                &&& final(self)@ == (GapClientView {
                    out_rtp_seq: synced.out_rtp_seq.insert(media_source_id, seq),
                    ..synced
                })
                &&& r.media_source_id == media_source_id
                &&& r.rtp_sequence == seq
                &&& r.rtp_timestamp == rtp_timestamp
                &&& r.key_phase == node@.current_epoch as u32
                &&& r.opus_frame@ == opus@
            }),
    {
        let epoch = node.current_epoch();
        self.sync_epoch_at(epoch, now_ms);
        let cur: u32 = match self.out_rtp_seq.get(&media_source_id) {
            Some(v) => *v,
            None => 0,
        };
        let w = cur.wrapping_add(1);
        let next = w & 0xFFFF;
        assert(next == w % 0x1_0000) by (bit_vector)
            requires
                next == w & 0xFFFF,
        ;
        self.out_rtp_seq.insert(media_source_id, next);
        GapPayload {
            media_source_id,
            rtp_sequence: next,
            rtp_timestamp,
            key_phase: epoch as u32,
            opus_frame: opus,
        }
    }

    /// [`GapClient::compose_at`] on the system clock.
    pub fn compose(&mut self, node: &GroupNode, media_source_id: u32, rtp_timestamp: u64, opus: Vec<
        u8,
    >) -> (r: GapPayload)
        ensures
            exists|t: u64|
                {
                    let synced = #[trigger] gap_synced(old(self)@, node@.current_epoch, t);
                    let seq = next_rtp(hw_or_zero(synced.out_rtp_seq, media_source_id));
                    &&& final(self)@ == (GapClientView {
                        out_rtp_seq: synced.out_rtp_seq.insert(media_source_id, seq),
                        ..synced
                    })
                    &&& r.rtp_sequence == seq
                },
            r.media_source_id == media_source_id,
            r.rtp_timestamp == rtp_timestamp,
            r.key_phase == node@.current_epoch as u32,
            r.opus_frame@ == opus@,
    {
        let now = clock_ms();
        self.compose_at(node, media_source_id, rtp_timestamp, opus, now)
    }

    /// Sends an encoded audio payload through `node`, on the sender's audio
    /// stream (`2 + 100 * member_id`) with the ordered-only profile (voice
    /// is not retransmitted).
    pub fn send_encoded<S: Sealer>(
        &self,
        node: &mut GroupNode,
        seal: &mut S,
        target: MemberId,
        payload: &[u8],
        codec: PayloadCodec,
    ) -> (r: Result<OutboundFrame, GapError>)
        requires
            GAP_STREAM_BASE + old(node)@.member_id * 100 <= u32::MAX,
            seq_of(
                old(node)@,
                StreamType::Audio,
                (GAP_STREAM_BASE + old(node)@.member_id * 100) as u32,
            ) < u32::MAX,
        ensures
            exists|nr: Result<OutboundFrame, NodeError>|
                {
                    &&& send_outcome(
                        old(node)@,
                        final(node)@,
                        target,
                        StreamType::Audio,
                        (GAP_STREAM_BASE + old(node)@.member_id * 100) as u32,
                        0x0001u16,
                        codec,
                        nr,
                    )
                    &&& seal_outcome(
                        old(node)@,
                        *old(seal),
                        *final(seal),
                        StreamType::Audio,
                        (GAP_STREAM_BASE + old(node)@.member_id * 100) as u32,
                        payload@,
                        nr,
                    )
                    &&& #[trigger] gap_send_result(nr, r)
                },
    {
        let stream_id = node.member_stream_id(GAP_STREAM_BASE);
        match node.send_payload(
            seal,
            target,
            StreamType::Audio,
            stream_id,
            crate::vocab::flags::GbpFlags::ordered_only(),
            payload,
            codec,
        ) {
            Ok(of) => {
                assert(gap_send_result(Ok(of), Ok(of)));
                Ok(of)
            },
            Err(e) => {
                assert(gap_send_result(Err(e), Err(GapError::Node(e))));
                Err(GapError::Node(e))
            },
        }
    }
}

/// The client's result for the node's result: the frame itself, or the
/// node's error wrapped in `Node`.
pub open spec fn gap_send_result(
    nr: Result<OutboundFrame, NodeError>,
    r: Result<OutboundFrame, GapError>,
) -> bool {
    match nr {
        Ok(of) => r == Ok::<OutboundFrame, GapError>(of),
        Err(e) => r == Err::<OutboundFrame, GapError>(GapError::Node(e)),
    }
}

/// A frame accepted as new makes the same frame late afterwards, in the
/// current epoch.
pub proof fn lemma_gap_repeat_is_late(v: GapClientView, p: GapPayloadView, epoch: u64, now: u64)
    requires
        p.key_phase == epoch as u32,
        gap_accepted(v, p, epoch, now).1 is New,
    ensures
        gap_accepted(gap_accepted(v, p, epoch, now).0, p, epoch, now).1 is Late,
{
}

/// A frame of the current key phase whose sequence number is at or below
/// its source's mark, and less than half the 16-bit range behind it, is
/// late: the client state stays exactly as it was (the mark is not lowered).
pub proof fn lemma_gap_behind_mark_is_late(v: GapClientView, p: GapPayloadView, epoch: u64, now: u64)
    requires
        p.key_phase == epoch as u32,
        v.in_hw.contains_key(p.media_source_id),
        p.rtp_sequence <= v.in_hw[p.media_source_id],
        v.in_hw[p.media_source_id] - p.rtp_sequence <= 0x7FFF,
    ensures
        gap_accepted(v, p, epoch, now).1 is Late,
        gap_accepted(v, p, epoch, now).0 == v,
{
}

/// Once a frame is accepted as new, every frame of that source that trails
/// it by less than half the 16-bit range (itself included) is late, and
/// the source's mark is the accepted frame's sequence number.
pub proof fn lemma_gap_trailing_frames_are_late(
    v: GapClientView,
    p: GapPayloadView,
    q: GapPayloadView,
    epoch: u64,
    now: u64,
)
    requires
        p.key_phase == epoch as u32,
        q.key_phase == epoch as u32,
        q.media_source_id == p.media_source_id,
        gap_accepted(v, p, epoch, now).1 is New,
        q.rtp_sequence <= p.rtp_sequence,
        p.rtp_sequence - q.rtp_sequence <= 0x7FFF,
    ensures
        gap_accepted(v, p, epoch, now).0.in_hw[p.media_source_id] == p.rtp_sequence,
        gap_accepted(gap_accepted(v, p, epoch, now).0, q, epoch, now).1 is Late,
        gap_accepted(gap_accepted(v, p, epoch, now).0, q, epoch, now).0 == gap_accepted(v, p, epoch, now).0,
{
}

/// A frame of the current key phase ahead of its source's mark, or more
/// than half the 16-bit range behind it (a wrapped counter), is new: the
/// source's mark becomes its sequence number, and nothing else changes.
pub proof fn lemma_gap_ahead_is_new(v: GapClientView, p: GapPayloadView, epoch: u64, now: u64)
    requires
        p.key_phase == epoch as u32,
        v.in_hw.contains_key(p.media_source_id),
        p.rtp_sequence > v.in_hw[p.media_source_id] || v.in_hw[p.media_source_id] - p.rtp_sequence > 0x7FFF,
    ensures
        gap_accepted(v, p, epoch, now).1 is New,
        gap_accepted(v, p, epoch, now).0 == (GapClientView {
            in_hw: v.in_hw.insert(p.media_source_id, p.rtp_sequence),
            ..v
        }),
{
}

/// After `0xFFFF`, sequence number 0 is new again: the 16-bit counter wraps.
pub proof fn lemma_gap_wraparound_is_new(hw: Map<u32, u32>, src: u32)
    requires
        hw.contains_key(src),
        hw[src] == 0xFFFF,
    ensures
        !is_late(hw, src, 0),
        next_rtp(0xFFFF) == 0,
{
}

impl Default for GapClient {
    /// A client that has sent and received nothing, in no epoch yet.
    fn default() -> (r: Self)
        ensures
            r@ == (GapClientView {
                out_rtp_seq: Map::empty(),
                in_hw: Map::empty(),
                current_epoch: None,
                old_windows: Seq::empty(),
            }),
    {
        Self::new()
    }
}

} // verus!

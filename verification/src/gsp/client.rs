//! The stateful GSP client: request deduplication per epoch, and the
//! membership and mute sets driven by accepted signals.

use std::collections::HashSet;
use vstd::prelude::*;
use crate::text::{decimal, decimal_string, join2};
use crate::base::{CodecError, codec_error_text};
use crate::gsp::args::{args_verdict, validate_args};
use crate::gsp::signal::GspSignal;
use crate::node::{GroupNode, NodeError, node_error_text, OutboundFrame, Sealer, seal_outcome, send_outcome, seq_of};
use crate::vocab::bounded::{BoundedSeen, evict_insert};
use crate::vocab::codec::PayloadCodec;
use crate::vocab::flags::GbpFlags;
use crate::vocab::ids::MemberId;
use crate::vocab::signal::{SignalType, signal_code, signal_of_code};
use crate::vocab::stream::StreamType;

verus! {

broadcast use vstd::std_specs::hash::group_hash_axioms;

/// Errors returned by [`GspClient`].
#[derive(Debug)]
pub enum GspError {
    /// The payload could not be decoded, or its length fields disagree.
    Decode(CodecError),
    /// `signal_type` is not in the registry.
    UnknownSignal(u32),
    /// Duplicate `request_id` in this epoch.
    DuplicateRequest(u32),
    /// `args` do not conform to the signal's schema.
    BadSchema(&'static str),
    /// Underlying GBP node error during send.
    Node(NodeError),
}

/// The display text of a GSP client error.
pub open spec fn gsp_error_text(e: GspError) -> Seq<char> {
    match e {
        GspError::Decode(c) => "decode: "@ + codec_error_text(c),
        GspError::UnknownSignal(v) => "unknown signal_type: "@ + decimal(v as nat),
        GspError::DuplicateRequest(v) => "duplicate request_id: "@ + decimal(v as nat),
        GspError::BadSchema(m) => "bad args schema: "@ + m@,
        GspError::Node(n) => "node: "@ + node_error_text(n),
    }
}

impl GspError {
    /// Display text of the error.
    pub fn message(&self) -> (r: String)
        ensures
            r@ == gsp_error_text(*self),
    {
        match self {
            GspError::Decode(c) => join2("decode: ".to_owned(), c.message().as_str()),
            GspError::UnknownSignal(v) => join2("unknown signal_type: ".to_owned(), decimal_string(*v as u64).as_str()),
            GspError::DuplicateRequest(v) => join2(
                "duplicate request_id: ".to_owned(),
                decimal_string(*v as u64).as_str(),
            ),
            GspError::BadSchema(m) => join2("bad args schema: ".to_owned(), m),
            GspError::Node(n) => join2("node: ".to_owned(), n.message().as_str()),
        }
    }
}

/// An accepted signal: its decoded fields (the local state effects are
/// already applied).
#[derive(Debug, Clone)]
pub struct GspAccept {
    /// Decoded signal type.
    pub signal: SignalType,
    /// Sender member id.
    pub sender_id: MemberId,
    /// Claimed role (used by `ROLE_CHANGE`).
    pub role_claim: u32,
    /// Request id.
    pub request_id: u32,
}

/// Per-epoch request deduplication capacity.
pub const GSP_SEEN_CAP: usize = 10_000;

/// The stream id base of the signal class.
pub const GSP_STREAM_BASE: u32 = 3;

/// The abstract state of a [`GspClient`].
pub struct GspClientView {
    /// Retained request ids of this epoch, oldest first.
    pub seen: Seq<u32>,
    /// Members currently muted.
    pub muted: Set<u32>,
    /// Current members, driven by `JOIN` / `LEAVE`.
    pub members: Set<u32>,
    /// The epoch last observed, if any.
    pub current_epoch: Option<u64>,
}

/// The state after observing `epoch`: a different epoch empties the
/// request deduplication set (membership and mutes are kept).
pub open spec fn gsp_synced(v: GspClientView, epoch: u64) -> GspClientView {
    if v.current_epoch == Some(epoch) {
        v
    } else {
        GspClientView { seen: Seq::empty(), current_epoch: Some(epoch), ..v }
    }
}

/// The effect of an accepted signal from `sender`: `JOIN` adds it to the
/// members, `LEAVE` removes it from the members and the mutes, `MUTE`
/// mutes it, `UNMUTE` unmutes it; other signals change nothing.
pub open spec fn gsp_applied(v: GspClientView, signal: SignalType, sender: u32) -> GspClientView {
    match signal {
        SignalType::Join => GspClientView { members: v.members.insert(sender), ..v },
        SignalType::Leave => GspClientView {
            members: v.members.remove(sender),
            muted: v.muted.remove(sender),
            ..v
        },
        SignalType::Mute => GspClientView { muted: v.muted.insert(sender), ..v },
        SignalType::Unmute => GspClientView { muted: v.muted.remove(sender), ..v },
        _ => v,
    }
}

/// Stateful GSP client.
pub struct GspClient {
    seen_requests: BoundedSeen<u32>,
    /// Members that are currently muted.
    pub muted: HashSet<MemberId>,
    /// Current membership set, driven by `JOIN` / `LEAVE`.
    pub members: HashSet<MemberId>,
    current_epoch: Option<u64>,
}

impl View for GspClient {
    type V = GspClientView;

    closed spec fn view(&self) -> GspClientView {
        GspClientView {
            seen: self.seen_requests@,
            muted: self.muted@,
            members: self.members@,
            current_epoch: self.current_epoch,
        }
    }
}

impl GspClient {
    /// The deduplication set is well formed and has the fixed capacity.
    pub closed spec fn wf(&self) -> bool {
        &&& self.seen_requests.wf()
        &&& self.seen_requests.capacity() == GSP_SEEN_CAP
    }

    /// Creates a client with no members, no mutes and no epoch.
    pub fn new() -> (r: Self)
        ensures
            r.wf(),
            r@ == (GspClientView {
                seen: Seq::empty(),
                muted: Set::empty(),
                members: Set::empty(),
                current_epoch: None,
            }),
    {
        let r = GspClient {
            seen_requests: BoundedSeen::new(GSP_SEEN_CAP),
            muted: HashSet::new(),
            members: HashSet::new(),
            current_epoch: None,
        };
        assert(r.muted@ =~= Set::<u32>::empty());
        assert(r.members@ =~= Set::<u32>::empty());
        r
    }

    /// Observes the group epoch: when it differs from the last one observed,
    /// the request deduplication set is emptied.
    pub fn sync_epoch(&mut self, epoch: u64)
        requires
            old(self).wf(),
        ensures
            final(self).wf(),
            final(self)@ == gsp_synced(old(self)@, epoch),
    {
        let same = match self.current_epoch {
            Some(e) => e == epoch,
            None => false,
        };
        if !same {
            self.seen_requests.clear();
            self.current_epoch = Some(epoch);
        }
    }

    /// Empties the request deduplication set and forgets the epoch;
    /// membership and mutes are kept.
    pub fn reset(&mut self)
        requires
            old(self).wf(),
        ensures
            final(self).wf(),
            final(self)@ == (GspClientView {
                seen: Seq::empty(),
                current_epoch: None,
                ..old(self)@
            }),
    {
        self.seen_requests.clear();
        self.current_epoch = None;
    }

    /// Accepts a decoded signal delivered in `current_epoch`: the epoch is
    /// observed; then, in order, the length check (`Decode`), the signal
    /// registry (`UnknownSignal`), the argument schema (`BadSchema`) and the
    /// request id (`DuplicateRequest`); an accepted signal records its
    /// request id and applies its effect on membership and mutes.
    pub fn accept(&mut self, decoded: Result<GspSignal, CodecError>, current_epoch: u64) -> (r:
        Result<GspAccept, GspError>)
        requires
            old(self).wf(),
        ensures
            final(self).wf(),
            ({
                let synced = gsp_synced(old(self)@, current_epoch);
                match decoded {
                    Err(e) => final(self)@ == synced && r == Err::<GspAccept, GspError>(
                        GspError::Decode(e),
                    ),
                    Ok(s) => if s.args_length as int != s.args@.len() {
                        &&& final(self)@ == synced
                        &&& r == Err::<GspAccept, GspError>(
                            GspError::Decode(CodecError::PayloadSizeMismatch),
                        )
                    } else {
                        match signal_of_code(s.signal_type) {
                            None => final(self)@ == synced && r == Err::<GspAccept, GspError>(
                                GspError::UnknownSignal(s.signal_type),
                            ),
                            Some(sig) => match args_verdict(sig, s.args@) {
                                Some(m) => final(self)@ == synced && (r matches Err(
                                    GspError::BadSchema(x),
                                ) && x@ == m),
                                None => if synced.seen.contains(s.request_id) {
                                    final(self)@ == synced && r == Err::<GspAccept, GspError>(
                                        GspError::DuplicateRequest(s.request_id),
                                    )
                                } else {
                                    &&& final(self)@ == gsp_applied(
                                        GspClientView {
                                            seen: evict_insert(
                                                synced.seen,
                                                s.request_id,
                                                GSP_SEEN_CAP as nat,
                                            ),
                                            ..synced
                                        },
                                        sig,
                                        s.sender_id,
                                    )
                                    &&& r == Ok::<GspAccept, GspError>(
                                        GspAccept {
                                            signal: sig,
                                            sender_id: s.sender_id,
                                            role_claim: s.role_claim,
                                            request_id: s.request_id,
                                        },
                                    )
                                },
                            },
                        }
                    },
                }
            }),
    {
        self.sync_epoch(current_epoch);
        let s = match decoded {
            Ok(s) => s,
            Err(e) => {
                return Err(GspError::Decode(e));
            },
        };
        match s.validate() {
            Ok(()) => {},
            Err(e) => {
                return Err(GspError::Decode(e));
            },
        }
        let signal = match SignalType::try_from_u32(s.signal_type) {
            Ok(sig) => sig,
            Err(code) => {
                return Err(GspError::UnknownSignal(code));
            },
        };
        match validate_args(signal, s.args.as_slice()) {
            Ok(()) => {},
            Err(m) => {
                return Err(GspError::BadSchema(m));
            },
        }
        if !self.seen_requests.insert(s.request_id) {
            return Err(GspError::DuplicateRequest(s.request_id));
        }
        match signal {
            SignalType::Join => {
                self.members.insert(s.sender_id);
            },
            SignalType::Leave => {
                self.members.remove(&s.sender_id);
                self.muted.remove(&s.sender_id);
            },
            SignalType::Mute => {
                self.muted.insert(s.sender_id);
            },
            SignalType::Unmute => {
                self.muted.remove(&s.sender_id);
            },
            _ => {},
        }
        Ok(GspAccept {
            signal,
            sender_id: s.sender_id,
            role_claim: s.role_claim,
            request_id: s.request_id,
        })
    }

    /// Builds an outbound signal from `node`'s member: the node's epoch is
    /// observed first, then the signal carries the given code, request id,
    /// role claim and arguments.
    pub fn compose(
        &mut self,
        node: &GroupNode,
        signal: SignalType,
        role_claim: u32,
        request_id: u32,
        args: &[u8],
    ) -> (r: GspSignal)
        requires
            old(self).wf(),
        ensures
            final(self).wf(),
            final(self)@ == gsp_synced(old(self)@, node@.current_epoch),
            r.signal_type == signal_code(signal),
            r.request_id == request_id,
            r.sender_id == node@.member_id,
            r.role_claim == role_claim,
            r.args_length == args@.len() as u32,
            r.args@ == args@,
    {
        self.sync_epoch(node.current_epoch());
        GspSignal::with_args(signal.as_u32(), request_id, node.member_id(), role_claim, args)
    }

    /// Sends an encoded signal through `node`, on the sender's signal
    /// stream (`3 + 100 * member_id`) with the ordered, reliable, acked
    /// profile.
    pub fn send_encoded<S: Sealer>(
        &self,
        node: &mut GroupNode,
        seal: &mut S,
        target: MemberId,
        payload: &[u8],
        codec: PayloadCodec,
    ) -> (r: Result<OutboundFrame, GspError>)
        requires
            GSP_STREAM_BASE + old(node)@.member_id * 100 <= u32::MAX,
            seq_of(
                old(node)@,
                StreamType::Signal,
                (GSP_STREAM_BASE + old(node)@.member_id * 100) as u32,
            ) < u32::MAX,
        ensures
            exists|nr: Result<OutboundFrame, NodeError>|
                {
                    &&& send_outcome(
                        old(node)@,
                        final(node)@,
                        target,
                        StreamType::Signal,
                        (GSP_STREAM_BASE + old(node)@.member_id * 100) as u32,
                        0x0007u16,
                        codec,
                        nr,
                    )
                    &&& seal_outcome(
                        old(node)@,
                        *old(seal),
                        *final(seal),
                        StreamType::Signal,
                        (GSP_STREAM_BASE + old(node)@.member_id * 100) as u32,
                        payload@,
                        nr,
                    )
                    &&& #[trigger] gsp_send_result(nr, r)
                },
    {
        let stream_id = node.member_stream_id(GSP_STREAM_BASE);
        match node.send_payload(
            seal,
            target,
            StreamType::Signal,
            stream_id,
            GbpFlags::ordered_reliable_ack(),
            payload,
            codec,
        ) {
            Ok(of) => {
                assert(gsp_send_result(Ok(of), Ok(of)));
                Ok(of)
            },
            Err(e) => {
                assert(gsp_send_result(Err(e), Err(GspError::Node(e))));
                Err(GspError::Node(e))
            },
        }
    }
}

/// The client's result for the node's result: the frame itself, or the
/// node's error wrapped in `Node`.
pub open spec fn gsp_send_result(
    nr: Result<OutboundFrame, NodeError>,
    r: Result<OutboundFrame, GspError>,
) -> bool {
    match nr {
        Ok(of) => r == Ok::<OutboundFrame, GspError>(of),
        Err(e) => r == Err::<OutboundFrame, GspError>(GspError::Node(e)),
    }
}

/// Within one epoch a request id is accepted only once.
pub proof fn lemma_gsp_repeat_request_refused(v: GspClientView, epoch: u64, rid: u32, sig: SignalType, sender: u32)
    requires
        v.seen.len() <= GSP_SEEN_CAP,
    ensures
        ({
            let synced = gsp_synced(v, epoch);
            let post = gsp_applied(
                GspClientView { seen: evict_insert(synced.seen, rid, GSP_SEEN_CAP as nat), ..synced },
                sig,
                sender,
            );
            gsp_synced(post, epoch).seen.contains(rid)
        }),
{
    let synced = gsp_synced(v, epoch);
    crate::vocab::bounded::lemma_inserted_is_retained(synced.seen, rid, GSP_SEEN_CAP as nat);
}

/// `JOIN` makes the sender a member; a later `LEAVE` from it removes it
/// from the members and the mutes.
pub proof fn lemma_join_then_leave(v: GspClientView, sender: u32)
    ensures
        gsp_applied(v, SignalType::Join, sender).members.contains(sender),
        !gsp_applied(gsp_applied(v, SignalType::Join, sender), SignalType::Leave, sender).members.contains(
            sender,
        ),
        !gsp_applied(gsp_applied(v, SignalType::Join, sender), SignalType::Leave, sender).muted.contains(
            sender,
        ),
{
}

} // verus!

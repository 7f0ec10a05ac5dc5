//! The stateful GTP client: idempotent acceptance of messages per epoch.

use vstd::prelude::*;
use crate::text::{decimal, decimal_string, hex, hex_string, join2};
use crate::base::{CodecError, codec_error_text};
use crate::gtp::message::GtpMessage;
use crate::node::{GroupNode, NodeError, node_error_text, OutboundFrame, Sealer, seal_outcome, send_outcome, seq_of};
use crate::vocab::bounded::{BoundedSeen, evict_insert};
use crate::vocab::codec::PayloadCodec;
use crate::vocab::flags::GbpFlags;
use crate::vocab::ids::MemberId;
use crate::vocab::stream::StreamType;

verus! {

/// Errors returned by [`GtpClient`].
#[derive(Debug)]
pub enum GtpError {
    /// The payload could not be decoded, or its length fields disagree.
    Decode(CodecError),
    /// Duplicate `(sender_id, message_id)`.
    Duplicate {
        /// Sender member id.
        sender_id: MemberId,
        /// Message id.
        message_id: u64,
    },
    /// Underlying GBP node error during send.
    Node(NodeError),
}

/// The display text of a GTP client error.
pub open spec fn gtp_error_text(e: GtpError) -> Seq<char> {
    match e {
        GtpError::Decode(c) => "decode: "@ + codec_error_text(c),
        GtpError::Duplicate { sender_id, message_id } => "duplicate (sender="@ + decimal(sender_id as nat)
            + ", mid=0x"@ + hex(message_id as nat, true) + ")"@,
        GtpError::Node(n) => "node: "@ + node_error_text(n),
    }
}

impl GtpError {
    /// Display text of the error.
    pub fn message(&self) -> (r: String)
        ensures
            r@ == gtp_error_text(*self),
    {
        match self {
            GtpError::Decode(c) => join2("decode: ".to_owned(), c.message().as_str()),
            GtpError::Duplicate { sender_id, message_id } => {
                let s = join2("duplicate (sender=".to_owned(), decimal_string(*sender_id as u64).as_str());
                let s = join2(s, ", mid=0x");
                let s = join2(s, hex_string(*message_id, true).as_str());
                join2(s, ")")
            },
            GtpError::Node(n) => join2("node: ".to_owned(), n.message().as_str()),
        }
    }
}

/// Outcome of accepting a GTP payload.
#[derive(Debug)]
pub enum GtpAccept {
    /// First time `(sender_id, message_id)` is seen in this epoch.
    New(GtpMessage),
    /// `(sender_id, message_id)` was already seen in this epoch.
    Duplicate(GtpMessage),
}

/// Per-epoch message deduplication capacity.
pub const GTP_SEEN_CAP: usize = 10_000;

/// The stream id base of the text class.
pub const GTP_STREAM_BASE: u32 = 1;

/// The abstract state of a [`GtpClient`].
pub struct GtpClientView {
    /// Retained `(sender_id, message_id)` keys of this epoch, oldest first.
    pub seen: Seq<(u32, u64)>,
    /// The epoch last observed, if any.
    pub current_epoch: Option<u64>,
}

/// The state after observing `epoch`: a different epoch empties the
/// deduplication set.
pub open spec fn gtp_synced(v: GtpClientView, epoch: u64) -> GtpClientView {
    if v.current_epoch == Some(epoch) {
        v
    } else {
        GtpClientView { seen: Seq::empty(), current_epoch: Some(epoch) }
    }
}

/// Stateful GTP client. Tracks the `(sender_id, message_id)` pairs already
/// seen in the current epoch, bounded at [`GTP_SEEN_CAP`] entries with the
/// oldest evicted first.
pub struct GtpClient {
    seen: BoundedSeen<(u32, u64)>,
    current_epoch: Option<u64>,
}

impl View for GtpClient {
    type V = GtpClientView;

    closed spec fn view(&self) -> GtpClientView {
        GtpClientView { seen: self.seen@, current_epoch: self.current_epoch }
    }
}

impl GtpClient {
    /// The deduplication set is well formed and has the fixed capacity.
    pub closed spec fn wf(&self) -> bool {
        &&& self.seen.wf()
        &&& self.seen.capacity() == GTP_SEEN_CAP
    }

    /// Creates an empty client that has observed no epoch.
    pub fn new() -> (r: Self)
        ensures
            r.wf(),
            r@.seen == Seq::<(u32, u64)>::empty(),
            r@.current_epoch is None,
    {
        GtpClient { seen: BoundedSeen::new(GTP_SEEN_CAP), current_epoch: None }
    }

    /// Observes the group epoch: when it differs from the last one observed,
    /// the deduplication set is emptied.
    pub fn sync_epoch(&mut self, epoch: u64)
        requires
            old(self).wf(),
        ensures
            final(self).wf(),
            final(self)@ == gtp_synced(old(self)@, epoch),
    {
        let same = match self.current_epoch {
            Some(e) => e == epoch,
            None => false,
        };
        if !same {
            self.seen.clear();
            self.current_epoch = Some(epoch);
        }
    }

    /// Empties the deduplication set and forgets the epoch.
    pub fn reset(&mut self)
        requires
            old(self).wf(),
        ensures
            final(self).wf(),
            final(self)@.seen == Seq::<(u32, u64)>::empty(),
            final(self)@.current_epoch is None,
    {
        self.seen.clear();
        self.current_epoch = None;
    }

    /// Accepts a decoded payload delivered in `current_epoch`.
    ///
    /// The epoch is observed first. A decode error, or a message whose
    /// `content_length` disagrees with its body, is `Decode`; otherwise the
    /// message is `New` the first time its `(sender_id, message_id)` is seen
    /// in this epoch (and the key is recorded) and `Duplicate` after that.
    pub fn accept(&mut self, decoded: Result<GtpMessage, CodecError>, current_epoch: u64) -> (r:
        Result<GtpAccept, GtpError>)
        requires
            old(self).wf(),
        ensures
            final(self).wf(),
            ({
                let synced = gtp_synced(old(self)@, current_epoch);
                match decoded {
                    Err(e) => final(self)@ == synced && r == Err::<GtpAccept, GtpError>(
                        GtpError::Decode(e),
                    ),
                    Ok(m) => if m.content_length as int != m.content@.len() {
                        &&& final(self)@ == synced
                        &&& r matches Err(GtpError::Decode(e)) && e == CodecError::PayloadSizeMismatch
                    } else if synced.seen.contains((m.sender_id, m.message_id)) {
                        &&& final(self)@ == synced
                        &&& r matches Ok(GtpAccept::Duplicate(x)) && x@ == m@
                    } else {
                        &&& final(self)@ == (GtpClientView {
                            seen: evict_insert(
                                synced.seen,
                                (m.sender_id, m.message_id),
                                GTP_SEEN_CAP as nat,
                            ),
                            ..synced
                        })
                        &&& r matches Ok(GtpAccept::New(x)) && x@ == m@
                    },
                }
            }),
    {
        self.sync_epoch(current_epoch);
        let m = match decoded {
            Ok(m) => m,
            Err(e) => {
                return Err(GtpError::Decode(e));
            },
        };
        match m.validate() {
            Ok(()) => {},
            Err(e) => {
                return Err(GtpError::Decode(e));
            },
        }
        let key = (m.sender_id, m.message_id);
        if !self.seen.insert(key) {
            return Ok(GtpAccept::Duplicate(m));
        }
        Ok(GtpAccept::New(m))
    }

    /// Sends an encoded text message through `node`, on the sender's text
    /// stream (`1 + 100 * member_id`) with the ordered, reliable, acked
    /// profile. The node's epoch is observed first.
    pub fn send_encoded<S: Sealer>(
        &mut self,
        node: &mut GroupNode,
        seal: &mut S,
        target: MemberId,
        payload: &[u8],
        codec: PayloadCodec,
    ) -> (r: Result<OutboundFrame, GtpError>)
        requires
            old(self).wf(),
            GTP_STREAM_BASE + old(node)@.member_id * 100 <= u32::MAX,
            seq_of(
                old(node)@,
                StreamType::Text,
                (GTP_STREAM_BASE + old(node)@.member_id * 100) as u32,
            ) < u32::MAX,
        ensures
            final(self).wf(),
            final(self)@ == gtp_synced(old(self)@, old(node)@.current_epoch),
            exists|nr: Result<OutboundFrame, NodeError>|
                {
                    &&& send_outcome(
                        old(node)@,
                        final(node)@,
                        target,
                        StreamType::Text,
                        (GTP_STREAM_BASE + old(node)@.member_id * 100) as u32,
                        0x0007u16,
                        codec,
                        nr,
                    )
                    &&& seal_outcome(
                        old(node)@,
                        *old(seal),
                        *final(seal),
                        StreamType::Text,
                        (GTP_STREAM_BASE + old(node)@.member_id * 100) as u32,
                        payload@,
                        nr,
                    )
                    &&& #[trigger] gtp_send_result(nr, r)
                },
    {
        self.sync_epoch(node.current_epoch());
        let stream_id = node.member_stream_id(GTP_STREAM_BASE);
        match node.send_payload(
            seal,
            target,
            StreamType::Text,
            stream_id,
            GbpFlags::ordered_reliable_ack(),
            payload,
            codec,
        ) {
            Ok(of) => {
                assert(gtp_send_result(Ok(of), Ok(of)));
                Ok(of)
            },
            Err(e) => {
                assert(gtp_send_result(Err(e), Err(GtpError::Node(e))));
                Err(GtpError::Node(e))
            },
        }
    }
}

/// The client's result for the node's result: the frame itself, or the
/// node's error wrapped in `Node`.
pub open spec fn gtp_send_result(
    nr: Result<OutboundFrame, NodeError>,
    r: Result<OutboundFrame, GtpError>,
) -> bool {
    match nr {
        Ok(of) => r == Ok::<OutboundFrame, GtpError>(of),
        Err(e) => r == Err::<OutboundFrame, GtpError>(GtpError::Node(e)),
    }
}

/// Within one epoch a message is accepted as new only once: after it was
/// recorded, the same `(sender_id, message_id)` is a duplicate.
pub proof fn lemma_gtp_repeat_is_duplicate(v: GtpClientView, epoch: u64, key: (u32, u64))
    requires
        v.seen.len() <= GTP_SEEN_CAP,
    ensures
        ({
            let synced = gtp_synced(v, epoch);
            let post = GtpClientView {
                seen: evict_insert(synced.seen, key, GTP_SEEN_CAP as nat),
                ..synced
            };
            gtp_synced(post, epoch).seen.contains(key)
        }),
{
    let synced = gtp_synced(v, epoch);
    crate::vocab::bounded::lemma_inserted_is_retained(synced.seen, key, GTP_SEEN_CAP as nat);
}

/// A new epoch forgets every message seen before it.
pub proof fn lemma_gtp_epoch_change_forgets(v: GtpClientView, epoch: u64, key: (u32, u64))
    requires
        v.current_epoch != Some(epoch),
    ensures
        !gtp_synced(v, epoch).seen.contains(key),
{
}

} // verus!

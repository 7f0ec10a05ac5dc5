//! The GAP audio payload (five wire keys: `msid, seq, ts, kp, opus`).

use vstd::prelude::*;

verus! {

/// RTP timestamp increment of one 20 ms Opus frame at 48 kHz.
pub const OPUS_20MS_TIMESTAMP: u64 = 960;

/// GAP audio payload.
#[derive(Clone, Debug)]
pub struct GapPayload {
    /// Media source identifier (one per microphone / camera).
    pub media_source_id: u32,
    /// RTP sequence number (16-bit range on the wire, widened to `u32`).
    pub rtp_sequence: u32,
    /// RTP timestamp (48 kHz clock).
    pub rtp_timestamp: u64,
    /// Key phase: the group epoch the frame was sealed under.
    pub key_phase: u32,
    /// One Opus frame.
    pub opus_frame: Vec<u8>,
}

/// The mathematical value of a [`GapPayload`].
pub struct GapPayloadView {
    /// Media source identifier.
    pub media_source_id: u32,
    /// RTP sequence number.
    pub rtp_sequence: u32,
    /// RTP timestamp.
    pub rtp_timestamp: u64,
    /// Key phase.
    pub key_phase: u32,
    /// The Opus frame.
    pub opus_frame: Seq<u8>,
}

impl View for GapPayload {
    type V = GapPayloadView;

    open spec fn view(&self) -> GapPayloadView {
        GapPayloadView {
            media_source_id: self.media_source_id,
            rtp_sequence: self.rtp_sequence,
            rtp_timestamp: self.rtp_timestamp,
            key_phase: self.key_phase,
            opus_frame: self.opus_frame@,
        }
    }
}

impl GapPayload {
    /// A 20 ms Opus frame: RTP timestamp 960.
    pub fn opus_20ms(media_source_id: u32, rtp_sequence: u16, key_phase: u32, opus: Vec<u8>) -> (r:
        Self)
        ensures
            r.media_source_id == media_source_id,
            r.rtp_sequence == rtp_sequence as u32,
            r.rtp_timestamp == OPUS_20MS_TIMESTAMP,
            r.key_phase == key_phase,
            r.opus_frame@ == opus@,
    {
        GapPayload {
            media_source_id,
            rtp_sequence: rtp_sequence as u32,
            rtp_timestamp: OPUS_20MS_TIMESTAMP,
            key_phase,
            opus_frame: opus,
        }
    }

    /// A payload with an explicit RTP timestamp.
    pub fn with_timestamp(
        media_source_id: u32,
        rtp_sequence: u16,
        rtp_timestamp: u64,
        key_phase: u32,
        opus: Vec<u8>,
    ) -> (r: Self)
        ensures
            r.media_source_id == media_source_id,
            r.rtp_sequence == rtp_sequence as u32,
            r.rtp_timestamp == rtp_timestamp,
            r.key_phase == key_phase,
            r.opus_frame@ == opus@,
    {
        GapPayload {
            media_source_id,
            rtp_sequence: rtp_sequence as u32,
            rtp_timestamp,
            key_phase,
            opus_frame: opus,
        }
    }
}

} // verus!

//! The GTP message envelope (eight wire keys: `mid, sid, ts, rid, fl, ct,
//! len, body`).

use vstd::prelude::*;
use vstd::string::StringSliceAdditionalSpecFns;
use crate::base::CodecError;
use crate::bytes::copy_bytes;
use crate::text::utf8_str;

verus! {

/// Body content type.
#[derive(Copy, Clone, Debug, PartialEq, Eq, Structural)]
pub enum GtpContentType {
    /// UTF-8 plaintext.
    Plain,
    /// CommonMark.
    Markdown,
    /// Opaque binary blob.
    Binary,
    /// Reference to an out-of-band attachment.
    AttachmentRef,
}

/// The wire code of a content type.
pub open spec fn content_code(ct: GtpContentType) -> u8 {
    match ct {
        GtpContentType::Plain => 0,
        GtpContentType::Markdown => 1,
        GtpContentType::Binary => 2,
        GtpContentType::AttachmentRef => 3,
    }
}

impl GtpContentType {
    /// The wire code of this content type.
    pub fn as_u8(self) -> (r: u8)
        ensures
            r == content_code(self),
    {
        match self {
            GtpContentType::Plain => 0,
            GtpContentType::Markdown => 1,
            GtpContentType::Binary => 2,
            GtpContentType::AttachmentRef => 3,
        }
    }
}

/// The mathematical value of a [`GtpMessage`].
pub struct GtpMessageView {
    /// Message identifier.
    pub message_id: u64,
    /// Sender member identifier.
    pub sender_id: u32,
    /// Send timestamp (ms since the Unix epoch).
    pub timestamp_ms: u64,
    /// Request identifier.
    pub request_id: u32,
    /// Message flag bits.
    pub flags: u8,
    /// Content type code.
    pub content_type: u8,
    /// Declared body length.
    pub content_length: u32,
    /// Body bytes.
    pub content: Seq<u8>,
}

/// GTP message envelope.
#[derive(Debug)]
pub struct GtpMessage {
    /// Message identifier (used for idempotency).
    pub message_id: u64,
    /// Sender member identifier.
    pub sender_id: u32,
    /// Send timestamp in milliseconds since the Unix epoch.
    pub timestamp_ms: u64,
    /// Request identifier (echoed in ACK / NACK).
    pub request_id: u32,
    /// Message flag bits (`urgent` / `ephemeral` / `persistent`).
    pub flags: u8,
    /// Content type code (see [`GtpContentType`]).
    pub content_type: u8,
    /// Declared length of `content`.
    pub content_length: u32,
    /// Body bytes.
    pub content: Vec<u8>,
}

impl View for GtpMessage {
    type V = GtpMessageView;

    open spec fn view(&self) -> GtpMessageView {
        GtpMessageView {
            message_id: self.message_id,
            sender_id: self.sender_id,
            timestamp_ms: self.timestamp_ms,
            request_id: self.request_id,
            flags: self.flags,
            content_type: self.content_type,
            content_length: self.content_length,
            content: self.content@,
        }
    }
}

/// The message that [`GtpMessage::plain`] builds.
pub open spec fn plain_message(sender_id: u32, message_id: u64, body: Seq<u8>) -> GtpMessageView {
    GtpMessageView {
        message_id,
        sender_id,
        timestamp_ms: 0,
        request_id: 0,
        flags: 0x01,
        content_type: content_code(GtpContentType::Plain),
        content_length: body.len() as u32,
        content: body,
    }
}

impl GtpMessage {
    /// Builds a plaintext (UTF-8) message: no timestamp or request id, the
    /// `urgent` flag bit, content type `Plain`, and the UTF-8 bytes of
    /// `text` as its body.
    pub fn plain(sender_id: u32, message_id: u64, text: &str) -> (r: Self)
        ensures
            r@ == plain_message(sender_id, message_id, text.spec_bytes()),
    {
        let body = copy_bytes(text.as_bytes());
        let len = body.len() as u32;
        GtpMessage {
            message_id,
            sender_id,
            timestamp_ms: 0,
            request_id: 0,
            flags: 0x01,
            content_type: GtpContentType::Plain.as_u8(),
            content_length: len,
            content: body,
        }
    }

    /// A field-by-field copy.
    pub fn copy(&self) -> (r: Self)
        ensures
            r@ == self@,
    {
        GtpMessage {
            message_id: self.message_id,
            sender_id: self.sender_id,
            timestamp_ms: self.timestamp_ms,
            request_id: self.request_id,
            flags: self.flags,
            content_type: self.content_type,
            content_length: self.content_length,
            content: copy_bytes(self.content.as_slice()),
        }
    }

    /// The check every decoder applies: the declared `content_length`
    /// must equal the length of the body.
    pub fn validate(&self) -> (r: Result<(), CodecError>)
        ensures
            r is Ok <==> self.content_length as int == self.content@.len(),
            r matches Err(e) ==> e == CodecError::PayloadSizeMismatch,
    {
        if self.content_length as usize != self.content.len() {
            return Err(CodecError::PayloadSizeMismatch);
        }
        Ok(())
    }

    /// The body as text, when it is valid UTF-8.
    pub fn text(&self) -> (r: Option<&str>)
        ensures
            r is Some <==> vstd::utf8::valid_utf8(self.content@),
            r matches Some(s) ==> s.spec_bytes() == self.content@,
    {
        utf8_str(self.content.as_slice())
    }
}

} // verus!

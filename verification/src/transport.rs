//! Length-prefixed framing of the stream transports.
//!
//! Each on-the-wire message is framed as `u32-LE length || bytes`, with a
//! length of at most [`MAX_FRAME`]. The byte-level framing and its checks
//! live here; the socket reads and writes are the application's.

use vstd::prelude::*;
use crate::base::{CodecError, codec_error_text};
use crate::text::{decimal, decimal_string, join2};
use crate::bytes::extend_bytes;

verus! {

/// `std::io::Error`, carried through unchanged.
#[verifier::external_type_specification]
#[verifier::external_body]
pub struct ExIoError(std::io::Error);

/// Maximum size of a single on-the-wire message (1 MiB).
pub const MAX_FRAME: usize = 1048576;

/// Errors raised by the transport layer.
#[derive(Debug)]
pub enum WireError {
    /// Underlying I/O error.
    Io(std::io::Error),
    /// GBP base-layer codec error.
    Codec(CodecError),
    /// Message exceeds [`MAX_FRAME`].
    TooLarge {
        /// Observed size.
        size: usize,
        /// Configured limit.
        max: usize,
    },
    /// QUIC connection, stream or TLS configuration error, with its
    /// message.
    Quic(String),
}

/// The display text of a wire error other than an I/O error.
pub open spec fn wire_error_text(e: WireError) -> Seq<char> {
    match e {
        WireError::Io(_) => "io: "@,
        WireError::Codec(c) => "codec: "@ + codec_error_text(c),
        WireError::TooLarge { size, max } => "frame too large: "@ + decimal(size as nat) + " bytes (max "@
            + decimal(max as nat) + ")"@,
        WireError::Quic(m) => "quic: "@ + m@,
    }
}

/// The text of an I/O error (its `Display` output). Nothing is claimed
/// of it.
#[verifier::external_body]
fn io_error_text(e: &std::io::Error) -> String {
    e.to_string()
}

impl WireError {
    /// The error for a message of `n` bytes, over the limit.
    pub fn too_large(n: usize) -> (r: Self)
        ensures
            r matches WireError::TooLarge { size, max } && size == n && max == MAX_FRAME,
    {
        WireError::TooLarge { size: n, max: MAX_FRAME }
    }

    /// Display text of the error: `io: ` and the I/O error's own text, or
    /// the text of the other variants.
    pub fn message(&self) -> (r: String)
        ensures
            !(self is Io) ==> r@ == wire_error_text(*self),
            self is Io ==> r@.len() >= 4 && r@.subrange(0, 4) == "io: "@,
    {
        match self {
            WireError::Io(e) => {
                let r = join2("io: ".to_owned(), io_error_text(e).as_str());
                proof {
                    reveal_strlit("io: ");
                }
                assert(r@.subrange(0, 4) =~= "io: "@);
                r
            },
            WireError::Codec(c) => join2("codec: ".to_owned(), c.message().as_str()),
            WireError::TooLarge { size, max } => {
                let s = join2("frame too large: ".to_owned(), decimal_string(*size as u64).as_str());
                let s = join2(s, " bytes (max ");
                let s = join2(s, decimal_string(*max as u64).as_str());
                join2(s, ")")
            },
            WireError::Quic(m) => join2("quic: ".to_owned(), m.as_str()),
        }
    }
}

/// The little-endian bytes of `n`.
pub open spec fn le_bytes(n: u32) -> Seq<u8> {
    seq![
        (n % 256) as u8,
        ((n / 256) % 256) as u8,
        ((n / 65536) % 256) as u8,
        ((n / 16777216) % 256) as u8,
    ]
}

/// The number whose little-endian bytes are `b`.
pub open spec fn le_value(b: Seq<u8>) -> int {
    b[0] + 256 * b[1] + 65536 * b[2] + 16777216 * b[3]
}

/// The length prefix of a message of `n` bytes (`u32::to_le_bytes`).
pub fn length_prefix(n: u32) -> (r: [u8; 4])
    ensures
        r@ == le_bytes(n),
{
    let b0 = (n % 256) as u8;
    let b1 = ((n / 256) % 256) as u8;
    let b2 = ((n / 65536) % 256) as u8;
    let b3 = ((n / 16777216) % 256) as u8;
    let r = [b0, b1, b2, b3];
    assert(r@ =~= le_bytes(n));
    r
}

/// The length a prefix announces (`u32::from_le_bytes`).
pub fn prefix_length(b: [u8; 4]) -> (r: u32)
    ensures
        r == le_value(b@),
{
    b[0] as u32 + 256 * (b[1] as u32) + 65536 * (b[2] as u32) + 16777216 * (b[3] as u32)
}

/// A prefix read back gives the length it was made from.
pub proof fn lemma_prefix_round_trip(n: u32)
    ensures
        le_value(le_bytes(n)) == n,
{
    let b = le_bytes(n);
    assert(b[0] == n % 256);
    assert(b[1] == (n / 256) % 256);
    assert(b[2] == (n / 65536) % 256);
    assert(b[3] == (n / 16777216) % 256);
    assert(le_value(b) == n) by (nonlinear_arith)
        requires
            b[0] == n % 256,
            b[1] == (n / 256) % 256,
            b[2] == (n / 65536) % 256,
            b[3] == (n / 16777216) % 256,
            n <= 0xFFFF_FFFF,
    ;
}

/// Frames `data` for the wire: its length as 4 little-endian bytes, then
/// the bytes. More than [`MAX_FRAME`] bytes are refused with `TooLarge`.
pub fn frame_blob(data: &[u8]) -> (r: Result<Vec<u8>, WireError>)
    ensures
        data@.len() > MAX_FRAME ==> (r matches Err(WireError::TooLarge { size, max }) && size
            == data@.len() && max == MAX_FRAME),
        data@.len() <= MAX_FRAME ==> (r matches Ok(v) && v@ == le_bytes(data@.len() as u32) + data@),
{
    if data.len() > MAX_FRAME {
        return Err(WireError::too_large(data.len()));
    }
    let prefix = length_prefix(data.len() as u32);
    let mut out: Vec<u8> = Vec::new();
    extend_bytes(&mut out, &prefix);
    extend_bytes(&mut out, data);
    assert(out@ =~= le_bytes(data@.len() as u32) + data@);
    Ok(out)
}

/// The length announced by a prefix, when within [`MAX_FRAME`]; larger
/// announcements are refused with `TooLarge`.
pub fn blob_length(prefix: [u8; 4]) -> (r: Result<usize, WireError>)
    ensures
        le_value(prefix@) > MAX_FRAME ==> (r matches Err(WireError::TooLarge { size, max }) && size
            == le_value(prefix@) && max == MAX_FRAME),
        le_value(prefix@) <= MAX_FRAME ==> r == Ok::<usize, WireError>(le_value(prefix@) as usize),
{
    let n = prefix_length(prefix) as usize;
    if n > MAX_FRAME {
        return Err(WireError::too_large(n));
    }
    Ok(n)
}

} // verus!

//! Plain records of node events and of sub-protocol client results, in the
//! shape that language bindings render as JSON: names and codes side by
//! side, byte strings in standard base64.

use vstd::prelude::*;
use crate::gap::client::{GapAccept, GapError, gap_error_text};
use crate::gsp::client::{GspAccept, GspError, gsp_error_text};
use crate::gtp::client::{GtpAccept, GtpError, gtp_error_text};
use crate::node::Event;
use crate::text::{hex, hex_string, pad_zeros, push_char, zero_padded};
use crate::vocab::control::{opcode_code, opcode_name};
use crate::vocab::errors::class_code;
use crate::vocab::signal::{signal_code, signal_name};
use crate::vocab::state::node_state_name;
use crate::vocab::stream::{stream_code, stream_name};

verus! {

// ─── Base64 ─────────────────────────────────────────────────────────────────

/// The standard base64 alphabet.
pub open spec fn b64_alphabet() -> Seq<char> {
    seq![
        'A', 'B', 'C', 'D', 'E', 'F', 'G', 'H', 'I', 'J', 'K', 'L', 'M', 'N', 'O', 'P',
        'Q', 'R', 'S', 'T', 'U', 'V', 'W', 'X', 'Y', 'Z', 'a', 'b', 'c', 'd', 'e', 'f',
        'g', 'h', 'i', 'j', 'k', 'l', 'm', 'n', 'o', 'p', 'q', 'r', 's', 't', 'u', 'v',
        'w', 'x', 'y', 'z', '0', '1', '2', '3', '4', '5', '6', '7', '8', '9', '+', '/',
    ]
}

/// The character of the 6-bit value `v`.
pub open spec fn b64_char(v: int) -> char {
    b64_alphabet()[v % 64]
}

/// The 24-bit value of three bytes, most significant first.
pub open spec fn triple(a: u8, b: u8, c: u8) -> int {
    a * 65536 + b * 256 + c
}

/// The four characters of a full group of three bytes.
pub open spec fn b64_group(a: u8, b: u8, c: u8) -> Seq<char> {
    let n = triple(a, b, c);
    seq![b64_char(n / 262144), b64_char(n / 4096), b64_char(n / 64), b64_char(n)]
}

/// The characters of the full three-byte groups of `s` (whose length is a
/// multiple of three).
pub open spec fn b64_groups(s: Seq<u8>) -> Seq<char>
    decreases s.len(),
{
    if s.len() < 3 {
        Seq::empty()
    } else {
        let k = s.len() - 3;
        b64_groups(s.take(k)) + b64_group(s[k], s[k + 1], s[k + 2])
    }
}

/// The padded characters of the one or two bytes left after the full
/// groups.
pub open spec fn b64_tail(s: Seq<u8>) -> Seq<char> {
    if s.len() == 1 {
        let n = triple(s[0], 0, 0);
        seq![b64_char(n / 262144), b64_char(n / 4096), '=', '=']
    } else if s.len() == 2 {
        let n = triple(s[0], s[1], 0);
        seq![b64_char(n / 262144), b64_char(n / 4096), b64_char(n / 64), '=']
    } else {
        Seq::empty()
    }
}

/// The standard, padded base64 encoding of `s`.
pub open spec fn base64(s: Seq<u8>) -> Seq<char> {
    let k = s.len() - s.len() % 3;
    b64_groups(s.take(k)) + b64_tail(s.skip(k))
}

proof fn lemma_b64_groups_len(s: Seq<u8>)
    requires
        s.len() % 3 == 0,
    ensures
        b64_groups(s).len() == s.len() / 3 * 4,
    decreases s.len(),
{
    if s.len() >= 3 {
        lemma_b64_groups_len(s.take(s.len() - 3));
    }
}

fn b64_symbol(v: u32) -> (c: char)
    ensures
        c == b64_char(v as int),
{
    let a = [
        'A', 'B', 'C', 'D', 'E', 'F', 'G', 'H', 'I', 'J', 'K', 'L', 'M', 'N', 'O', 'P',
        'Q', 'R', 'S', 'T', 'U', 'V', 'W', 'X', 'Y', 'Z', 'a', 'b', 'c', 'd', 'e', 'f',
        'g', 'h', 'i', 'j', 'k', 'l', 'm', 'n', 'o', 'p', 'q', 'r', 's', 't', 'u', 'v',
        'w', 'x', 'y', 'z', '0', '1', '2', '3', '4', '5', '6', '7', '8', '9', '+', '/',
    ];
    assert(a@ =~= b64_alphabet());
    a[(v % 64) as usize]
}

fn push_group(out: &mut String, a: u8, b: u8, c: u8)
    ensures
        final(out)@ == old(out)@ + b64_group(a, b, c),
{
    let n: u32 = (a as u32) * 65536 + (b as u32) * 256 + (c as u32);
    assert(n == triple(a, b, c));
    push_char(out, b64_symbol(n / 262144));
    push_char(out, b64_symbol(n / 4096));
    push_char(out, b64_symbol(n / 64));
    push_char(out, b64_symbol(n));
    assert(final(out)@ =~= old(out)@ + b64_group(a, b, c));
}

fn push_tail(out: &mut String, b: &[u8], i: usize)
    requires
        i <= b@.len(),
        b@.len() - i < 3,
    ensures
        final(out)@ == old(out)@ + b64_tail(b@.skip(i as int)),
{
    let rem = b.len() - i;
    if rem == 1 {
        let n: u32 = (b[i] as u32) * 65536;
        assert(n == triple(b@[i as int], 0, 0));
        push_char(out, b64_symbol(n / 262144));
        push_char(out, b64_symbol(n / 4096));
        push_char(out, '=');
        push_char(out, '=');
    } else if rem == 2 {
        let n: u32 = (b[i] as u32) * 65536 + (b[i + 1] as u32) * 256;
        assert(n == triple(b@[i as int], b@[i + 1], 0));
        push_char(out, b64_symbol(n / 262144));
        push_char(out, b64_symbol(n / 4096));
        push_char(out, b64_symbol(n / 64));
        push_char(out, '=');
    }
    assert(final(out)@ =~= old(out)@ + b64_tail(b@.skip(i as int)));
}

/// Encodes `b` in standard base64 with `=` padding; the text has four
/// characters for every started group of three bytes.
pub fn b64(b: &[u8]) -> (r: String)
    ensures
        r@ == base64(b@),
        r@.len() == (b@.len() + 2) / 3 * 4,
{
    let mut out = String::new();
    let mut i: usize = 0;
    let full = b.len() - b.len() % 3;
    while i < full
        invariant
            full == b@.len() - b@.len() % 3,
            i <= full,
            i % 3 == 0,
            out@ == b64_groups(b@.take(i as int)),
        decreases full - i,
    {
        push_group(&mut out, b[i], b[i + 1], b[i + 2]);
        proof {
            let t = b@.take(i + 3);
            assert(t.take(i as int) =~= b@.take(i as int));
        }
        i = i + 3;
    }
    push_tail(&mut out, b, i);
    proof {
        lemma_b64_groups_len(b@.take(i as int));
    }
    out
}

// ─── Events ─────────────────────────────────────────────────────────────────

/// The text `0x` and the code in four upper-case hexadecimal digits.
pub open spec fn code_hex(code: u16) -> Seq<char> {
    "0x"@ + zero_padded(hex(code as nat, true), 4)
}

/// Renders `code` as `0x` and four upper-case hexadecimal digits.
pub fn code_hex_string(code: u16) -> (r: String)
    ensures
        r@ == code_hex(code),
{
    let mut s = "0x".to_owned();
    s.append(pad_zeros(hex_string(code as u64, true), 4).as_str());
    s
}

/// A node event as a plain record: states and opcodes by name and code,
/// byte strings in base64.
#[allow(inconsistent_fields)]
pub enum EventDto {
    /// The node's state changed.
    StateChanged {
        /// Name of the previous state.
        from: String,
        /// Name of the new state.
        to: String,
    },
    /// A payload was delivered.
    PayloadReceived {
        /// Name of the stream class.
        stream_type: &'static str,
        /// Wire code of the stream class.
        stream_type_code: u32,
        /// Stream id.
        stream_id: u32,
        /// Sequence number.
        sequence_no: u32,
        /// Frame flag bits.
        flags: u16,
        /// The plaintext in base64.
        plaintext_b64: String,
    },
    /// A control message was received.
    Control {
        /// Sender member id.
        from: u32,
        /// Name of the opcode.
        opcode: &'static str,
        /// Wire code of the opcode.
        opcode_code: u16,
        /// Transition id.
        transition_id: u32,
        /// Request id.
        request_id: u32,
        /// The args in base64.
        args_b64: String,
    },
    /// An error was raised.
    Error {
        /// Numeric code.
        code: u16,
        /// The code as `0x` and four upper-case hexadecimal digits.
        code_hex: String,
        /// Wire byte of the error class.
        class: u8,
        /// May be retried.
        retryable: bool,
        /// The node is now failed.
        fatal: bool,
        /// Human-readable reason.
        reason: String,
    },
    /// The epoch advanced.
    EpochAdvanced {
        /// New epoch.
        epoch: u64,
        /// Transition that produced it.
        transition_id: u32,
    },
    /// Any other event (coordinator election and claims).
    Other,
}

/// The record of an event.
pub fn event_dto(e: &Event) -> (r: EventDto)
    ensures
        match *e {
            Event::StateChanged { from, to } => r matches EventDto::StateChanged { from: f, to: t } && f@
                == node_state_name(from) && t@ == node_state_name(to),
            Event::PayloadReceived(d) => r matches EventDto::PayloadReceived {
                stream_type,
                stream_type_code,
                stream_id,
                sequence_no,
                flags,
                plaintext_b64,
            } && stream_type@ == stream_name(d.stream_type) && stream_type_code == stream_code(d.stream_type)
                && stream_id == d.stream_id && sequence_no == d.sequence_no && flags == d.flags
                && plaintext_b64@ == base64(d.plaintext@),
            Event::Control { from, opcode, transition_id, request_id, args } => r matches EventDto::Control {
                from: f,
                opcode: o,
                opcode_code: oc,
                transition_id: t,
                request_id: q,
                args_b64,
            } && f == from && o@ == opcode_name(opcode) && oc == opcode_code(opcode) && t == transition_id
                && q == request_id && args_b64@ == base64(args@),
            Event::Error { code, class, retryable, fatal, reason } => r matches EventDto::Error {
                code: c,
                code_hex: h,
                class: k,
                retryable: re,
                fatal: fa,
                reason: why,
            } && c == code && h@ == code_hex(code) && k == class_code(class) && re == retryable && fa == fatal
                && why@ == reason@,
            Event::EpochAdvanced { epoch, transition_id } => r matches EventDto::EpochAdvanced {
                epoch: ep,
                transition_id: t,
            } && ep == epoch && t == transition_id,
            _ => r is Other,
        },
{
    match e {
        Event::StateChanged { from, to } => EventDto::StateChanged {
            from: from.name().to_owned(),
            to: to.name().to_owned(),
        },
        Event::PayloadReceived(d) => EventDto::PayloadReceived {
            stream_type: d.stream_type.name(),
            stream_type_code: d.stream_type.as_u8() as u32,
            stream_id: d.stream_id,
            sequence_no: d.sequence_no,
            flags: d.flags,
            plaintext_b64: b64(d.plaintext.as_slice()),
        },
        Event::Control { from, opcode, transition_id, request_id, args } => EventDto::Control {
            from: *from,
            opcode: opcode.name(),
            opcode_code: opcode.as_u16(),
            transition_id: *transition_id,
            request_id: *request_id,
            args_b64: b64(args.as_slice()),
        },
        Event::Error { code, class, retryable, fatal, reason } => EventDto::Error {
            code: *code,
            code_hex: code_hex_string(*code),
            class: class.as_u8(),
            retryable: *retryable,
            fatal: *fatal,
            reason: reason.clone(),
        },
        Event::EpochAdvanced { epoch, transition_id } => EventDto::EpochAdvanced {
            epoch: *epoch,
            transition_id: *transition_id,
        },
        _ => EventDto::Other,
    }
}

/// The records of a batch of events, in order.
pub fn event_dtos(events: &Vec<Event>) -> (r: Vec<EventDto>)
    ensures
        r.len() == events.len(),
        forall|i: int|
            0 <= i < events.len() ==> #[trigger] dto_of(events[i], r[i]),
{
    let mut out: Vec<EventDto> = Vec::new();
    let mut i: usize = 0;
    while i < events.len()
        invariant
            0 <= i <= events.len(),
            out.len() == i,
            forall|k: int| 0 <= k < i ==> #[trigger] dto_of(events[k], out[k]),
        decreases events.len() - i,
    {
        let d = event_dto(&events[i]);
        out.push(d);
        i = i + 1;
    }
    out
}

/// `d` is the record of `e` (as [`event_dto`] states it).
pub open spec fn dto_of(e: Event, d: EventDto) -> bool {
    match e {
        Event::StateChanged { from, to } => d matches EventDto::StateChanged { from: f, to: t } && f@
            == node_state_name(from) && t@ == node_state_name(to),
        Event::PayloadReceived(p) => d matches EventDto::PayloadReceived {
            stream_type,
            stream_type_code,
            stream_id,
            sequence_no,
            flags,
            plaintext_b64,
        } && stream_type@ == stream_name(p.stream_type) && stream_type_code == stream_code(p.stream_type)
            && stream_id == p.stream_id && sequence_no == p.sequence_no && flags == p.flags
            && plaintext_b64@ == base64(p.plaintext@),
        Event::Control { from, opcode, transition_id, request_id, args } => d matches EventDto::Control {
            from: f,
            opcode: o,
            opcode_code: oc,
            transition_id: t,
            request_id: q,
            args_b64,
        } && f == from && o@ == opcode_name(opcode) && oc == opcode_code(opcode) && t == transition_id && q
            == request_id && args_b64@ == base64(args@),
        Event::Error { code, class, retryable, fatal, reason } => d matches EventDto::Error {
            code: c,
            code_hex: h,
            class: k,
            retryable: re,
            fatal: fa,
            reason: why,
        } && c == code && h@ == code_hex(code) && k == class_code(class) && re == retryable && fa == fatal
            && why@ == reason@,
        Event::EpochAdvanced { epoch, transition_id } => d matches EventDto::EpochAdvanced {
            epoch: ep,
            transition_id: t,
        } && ep == epoch && t == transition_id,
        _ => d is Other,
    }
}

// ─── Client results ─────────────────────────────────────────────────────────

/// The text shown for a GTP body that is not UTF-8.
pub open spec fn binary_placeholder() -> Seq<char> {
    "<binary>"@
}

/// The record of a GTP accept: `new` / `duplicate` with sender, message
/// id and text, or `error` with the reason.
pub struct GtpAcceptReport {
    /// `"new"`, `"duplicate"` or `"error"`.
    pub status: &'static str,
    /// Sender member id.
    pub sender: Option<u32>,
    /// Message id.
    pub message_id: Option<u64>,
    /// The body as text, or `<binary>`.
    pub text: Option<String>,
    /// The error's text.
    pub reason: Option<String>,
}

/// Reports the outcome of [`crate::gtp::client::GtpClient::accept`].
pub fn gtp_accept_report(r: &Result<GtpAccept, GtpError>) -> (out: GtpAcceptReport)
    ensures
        match *r {
            Ok(GtpAccept::New(m)) => out.status@ == "new"@ && out.sender == Some(m.sender_id) && out.message_id
                == Some(m.message_id) && out.text is Some && out.reason is None,
            Ok(GtpAccept::Duplicate(m)) => out.status@ == "duplicate"@ && out.sender == Some(m.sender_id)
                && out.message_id == Some(m.message_id) && out.text is Some && out.reason is None,
            Err(e) => out.status@ == "error"@ && out.sender is None && out.message_id is None && out.text is None
                && (out.reason matches Some(why) && why@ == gtp_error_text(e)),
        },
        match *r {
            Ok(GtpAccept::New(m)) | Ok(GtpAccept::Duplicate(m)) => out.text matches Some(t) && (if vstd::utf8::valid_utf8(
                m.content@,
            ) {
                vstd::utf8::encode_utf8(t@) == m.content@
            } else {
                t@ == binary_placeholder()
            }),
            Err(_) => true,
        },
{
    proof {
        reveal_strlit("new");
        reveal_strlit("duplicate");
        reveal_strlit("error");
        reveal_strlit("<binary>");
    }
    match r {
        Ok(GtpAccept::New(m)) => GtpAcceptReport {
            status: "new",
            sender: Some(m.sender_id),
            message_id: Some(m.message_id),
            text: Some(body_text(m)),
            reason: None,
        },
        Ok(GtpAccept::Duplicate(m)) => GtpAcceptReport {
            status: "duplicate",
            sender: Some(m.sender_id),
            message_id: Some(m.message_id),
            text: Some(body_text(m)),
            reason: None,
        },
        Err(e) => GtpAcceptReport {
            status: "error",
            sender: None,
            message_id: None,
            text: None,
            reason: Some(e.message()),
        },
    }
}

fn body_text(m: &crate::gtp::message::GtpMessage) -> (t: String)
    ensures
        if vstd::utf8::valid_utf8(m.content@) {
            vstd::utf8::encode_utf8(t@) == m.content@
        } else {
            t@ == binary_placeholder()
        },
{
    match m.text() {
        Some(s) => s.to_owned(),
        None => "<binary>".to_owned(),
    }
}

/// The record of a GAP accept: `new` / `late` with source, sequence and
/// frame size, or `error` with the reason.
pub struct GapAcceptReport {
    /// `"new"`, `"late"` or `"error"`.
    pub status: &'static str,
    /// Media source id.
    pub source: Option<u32>,
    /// RTP sequence number.
    pub seq: Option<u32>,
    /// Size of the Opus frame in bytes.
    pub bytes: Option<usize>,
    /// The error's text.
    pub reason: Option<String>,
}

/// Reports the outcome of [`crate::gap::client::GapClient::accept`].
pub fn gap_accept_report(r: &Result<GapAccept, GapError>) -> (out: GapAcceptReport)
    ensures
        match *r {
            Ok(GapAccept::New(p)) => out.status@ == "new"@ && out.source == Some(p.media_source_id) && out.seq
                == Some(p.rtp_sequence) && out.bytes == Some(p.opus_frame.len()) && out.reason is None,
            Ok(GapAccept::Late(p)) => out.status@ == "late"@ && out.source == Some(p.media_source_id) && out.seq
                == Some(p.rtp_sequence) && out.bytes == Some(p.opus_frame.len()) && out.reason is None,
            Err(e) => out.status@ == "error"@ && out.source is None && out.seq is None && out.bytes is None
                && (out.reason matches Some(why) && why@ == gap_error_text(e)),
        },
{
    proof {
        reveal_strlit("new");
        reveal_strlit("late");
        reveal_strlit("error");
    }
    match r {
        Ok(GapAccept::New(p)) => GapAcceptReport {
            status: "new",
            source: Some(p.media_source_id),
            seq: Some(p.rtp_sequence),
            bytes: Some(p.opus_frame.len()),
            reason: None,
        },
        Ok(GapAccept::Late(p)) => GapAcceptReport {
            status: "late",
            source: Some(p.media_source_id),
            seq: Some(p.rtp_sequence),
            bytes: Some(p.opus_frame.len()),
            reason: None,
        },
        Err(e) => GapAcceptReport { status: "error", source: None, seq: None, bytes: None, reason: Some(e.message()) },
    }
}

/// The record of a GSP accept: `new` with the signal's name and code,
/// sender, role claim and request id, or `error` with the reason.
pub struct GspAcceptReport {
    /// `"new"` or `"error"`.
    pub status: &'static str,
    /// Name of the signal.
    pub signal: Option<&'static str>,
    /// Wire code of the signal.
    pub signal_code: Option<u32>,
    /// Sender member id.
    pub sender: Option<u32>,
    /// Claimed role.
    pub role_claim: Option<u32>,
    /// Request id.
    pub request_id: Option<u32>,
    /// The error's text.
    pub reason: Option<String>,
}

/// Reports the outcome of [`crate::gsp::client::GspClient::accept`].
pub fn gsp_accept_report(r: &Result<GspAccept, GspError>) -> (out: GspAcceptReport)
    ensures
        match *r {
            Ok(a) => out.status@ == "new"@ && (out.signal matches Some(n) && n@ == signal_name(a.signal))
                && out.signal_code == Some(signal_code(a.signal)) && out.sender == Some(a.sender_id)
                && out.role_claim == Some(a.role_claim) && out.request_id == Some(a.request_id) && out.reason is None,
            Err(e) => out.status@ == "error"@ && out.signal is None && out.signal_code is None && out.sender is None
                && out.role_claim is None && out.request_id is None && (out.reason matches Some(why) && why@
                == gsp_error_text(e)),
        },
{
    proof {
        reveal_strlit("new");
        reveal_strlit("error");
    }
    match r {
        Ok(a) => GspAcceptReport {
            status: "new",
            signal: Some(a.signal.name()),
            signal_code: Some(a.signal.as_u32()),
            sender: Some(a.sender_id),
            role_claim: Some(a.role_claim),
            request_id: Some(a.request_id),
            reason: None,
        },
        Err(e) => GspAcceptReport {
            status: "error",
            signal: None,
            signal_code: None,
            sender: None,
            role_claim: None,
            request_id: None,
            reason: Some(e.message()),
        },
    }
}

} // verus!

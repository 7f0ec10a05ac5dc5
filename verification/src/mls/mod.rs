//! MLS integration: stream labels for the exporter-derived AEAD keys, the
//! MLS / AEAD error type, the kinds of processed MLS messages, the AEAD
//! sealing with stream keys, and the member-side MLS context.

pub mod aead;
pub mod bundle;
pub mod context;

use vstd::prelude::*;
use crate::vocab::stream::StreamType;
use crate::text::join2;

verus! {

/// Exporter label that binds the AEAD key to a stream class.
#[derive(Copy, Clone, Debug, PartialEq, Eq, Structural)]
pub enum StreamLabel {
    /// `gbp/control`: control plane key.
    Control,
    /// `gbp/audio`: GAP key.
    Audio,
    /// `gbp/text`: GTP key.
    Text,
    /// `gbp/signal`: GSP key.
    Signal,
}

/// The exporter label string of each stream label.
pub open spec fn label_text(l: StreamLabel) -> Seq<char> {
    match l {
        StreamLabel::Control => "gbp/control"@,
        StreamLabel::Audio => "gbp/audio"@,
        StreamLabel::Text => "gbp/text"@,
        StreamLabel::Signal => "gbp/signal"@,
    }
}

/// The label of each stream class.
pub open spec fn label_of(st: StreamType) -> StreamLabel {
    match st {
        StreamType::Control => StreamLabel::Control,
        StreamType::Audio => StreamLabel::Audio,
        StreamType::Text => StreamLabel::Text,
        StreamType::Signal => StreamLabel::Signal,
    }
}

impl StreamLabel {
    /// Returns the stable string used as the MLS exporter label.
    pub fn as_str(self) -> (r: &'static str)
        ensures
            r@ == label_text(self),
    {
        match self {
            StreamLabel::Control => "gbp/control",
            StreamLabel::Audio => "gbp/audio",
            StreamLabel::Text => "gbp/text",
            StreamLabel::Signal => "gbp/signal",
        }
    }
}

/// Maps a stream class to its exporter label.
pub fn label_for(st: StreamType) -> (r: StreamLabel)
    ensures
        r == label_of(st),
{
    match st {
        StreamType::Control => StreamLabel::Control,
        StreamType::Audio => StreamLabel::Audio,
        StreamType::Text => StreamLabel::Text,
        StreamType::Signal => StreamLabel::Signal,
    }
}

/// Distinct stream classes get distinct exporter labels, hence distinct
/// AEAD keys.
pub proof fn lemma_labels_are_distinct(a: StreamType, b: StreamType)
    ensures
        a != b ==> label_text(label_of(a)) != label_text(label_of(b)),
{
    reveal_strlit("gbp/control");
    reveal_strlit("gbp/audio");
    reveal_strlit("gbp/text");
    reveal_strlit("gbp/signal");
    if a != b {
        let x = label_text(label_of(a));
        let y = label_text(label_of(b));
        if x.len() == y.len() {
            assert(x[4] != y[4]);
        }
    }
}

/// The kind of an MLS message, by the body its wire format names.
#[derive(Debug, Clone, Copy, PartialEq, Eq, Structural)]
pub enum MessageKind {
    /// A framed message: public (plaintext) or private (ciphertext), such as
    /// a Commit or an application message.
    Framed,
    /// A Welcome for joining members.
    Welcome,
    /// Group information.
    GroupInfo,
    /// A key package.
    KeyPackage,
}

/// Categorises a processed MLS message.
#[derive(Debug, Clone, Copy, PartialEq, Eq, Structural)]
pub enum ProcessedKind {
    /// A Commit message was staged; the epoch advances when it is merged.
    Commit,
    /// An Application message was decrypted.
    Application,
    /// A Proposal-only message was staged.
    Proposal,
    /// An external message that did not advance the group.
    External,
}

/// Errors raised by the MLS / AEAD layer.
#[derive(Debug, Clone, PartialEq, Eq)]
pub enum MlsError {
    /// Any error returned by the MLS library, as a message.
    OpenMls(String),
    /// AEAD seal or open failure.
    Aead(String),
    /// A pending staged commit already exists: the previous transition must
    /// be finalised or cleared before processing another commit.
    TransitionInProgress,
}

/// The display text of an MLS / AEAD error.
pub open spec fn mls_error_text(e: MlsError) -> Seq<char> {
    match e {
        MlsError::OpenMls(m) => "openmls: "@ + m@,
        MlsError::Aead(m) => "aead: "@ + m@,
        MlsError::TransitionInProgress => "transition in progress: pending staged commit exists"@,
    }
}

impl MlsError {
    /// Display text of the error.
    pub fn message(&self) -> (r: String)
        ensures
            r@ == mls_error_text(*self),
    {
        match self {
            MlsError::OpenMls(m) => join2("openmls: ".to_owned(), m.as_str()),
            MlsError::Aead(m) => join2("aead: ".to_owned(), m.as_str()),
            MlsError::TransitionInProgress => "transition in progress: pending staged commit exists".to_owned(),
        }
    }
}

} // verus!

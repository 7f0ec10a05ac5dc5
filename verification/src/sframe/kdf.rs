//! SFrame cipher suite selection and the derivation of the per-epoch base
//! key from the MLS exporter.

use vstd::prelude::*;
use crate::mls::context::{MlsContext, mls_exported};
use crate::mls::MlsError;
use crate::sframe::error::SFrameError;

verus! {

/// SFrame ciphersuite selection. `Aes128Gcm` is the standard choice;
/// `Aes256Gcm` is available for high-assurance deployments.
#[derive(Clone, Copy, Debug, PartialEq, Eq, Structural)]
pub enum CipherSuite {
    /// AES-128-GCM with SHA-256 key expansion.
    Aes128Gcm,
    /// AES-256-GCM with SHA-512 key expansion.
    Aes256Gcm,
}

/// The numeric discriminant of each suite (`0` = AES-128, `1` = AES-256).
pub open spec fn suite_code(s: CipherSuite) -> u8 {
    match s {
        CipherSuite::Aes128Gcm => 0,
        CipherSuite::Aes256Gcm => 1,
    }
}

impl CipherSuite {
    /// Converts a numeric discriminant; `None` for unknown values.
    pub fn from_u8(v: u8) -> (r: Option<Self>)
        ensures
            match r {
                Some(s) => suite_code(s) == v,
                None => v > 1,
            },
    {
        match v {
            0 => Some(CipherSuite::Aes128Gcm),
            1 => Some(CipherSuite::Aes256Gcm),
            _ => None,
        }
    }

    /// Numeric discriminant.
    pub fn as_u8(self) -> (r: u8)
        ensures
            r == suite_code(self),
    {
        match self {
            CipherSuite::Aes128Gcm => 0,
            CipherSuite::Aes256Gcm => 1,
        }
    }
}

/// The 8 big-endian bytes of `v`.
pub open spec fn be8(v: u64) -> Seq<u8> {
    seq![
        ((v / 0x100_0000_0000_0000) % 256) as u8,
        ((v / 0x1_0000_0000_0000) % 256) as u8,
        ((v / 0x100_0000_0000) % 256) as u8,
        ((v / 0x1_0000_0000) % 256) as u8,
        ((v / 0x100_0000) % 256) as u8,
        ((v / 0x1_0000) % 256) as u8,
        ((v / 0x100) % 256) as u8,
        (v % 256) as u8,
    ]
}

/// The big-endian bytes of `v`, the export context that binds a base key
/// to its epoch.
pub fn epoch_context(v: u64) -> (r: [u8; 8])
    ensures
        r@ == be8(v),
{
    let r = [
        ((v / 0x100_0000_0000_0000) % 256) as u8,
        ((v / 0x1_0000_0000_0000) % 256) as u8,
        ((v / 0x100_0000_0000) % 256) as u8,
        ((v / 0x1_0000_0000) % 256) as u8,
        ((v / 0x100_0000) % 256) as u8,
        ((v / 0x1_0000) % 256) as u8,
        ((v / 0x100) % 256) as u8,
        (v % 256) as u8,
    ];
    assert(r@ =~= be8(v));
    r
}

/// Derives the 32-byte SFrame base key from the MLS exporter:
/// `ExportSecret(label, context = epoch as 8 big-endian bytes, length = 32)`.
/// Per-sender keys are expanded from this base key by the `sframe` crate,
/// keyed by the frame's KID. A failed export is reported as `MlsExport`
/// with the MLS error's text.
pub fn derive_base_key(mls: &MlsContext, label: &str, epoch: u64) -> (r: Result<[u8; 32], SFrameError>)
    ensures
        r matches Ok(k) ==> k@ == mls_exported(mls.group, label@, be8(epoch), 32),
        r matches Err(e) ==> e is MlsExport,
        r matches Err(SFrameError::MlsExport(m)) ==> exists|x: Seq<char>|
            #[trigger] "export_raw: "@.is_prefix_of(x) && m@ == "openmls: "@ + x,
{
    let context = epoch_context(epoch);
    let raw = match mls.export_raw(label, &context, 32) {
        Ok(raw) => raw,
        Err(e) => {
            let m = e.message();
            assert(e matches MlsError::OpenMls(d) && "export_raw: "@.is_prefix_of(d@) && m@ == "openmls: "@ + d@);
            return Err(SFrameError::MlsExport(m));
        },
    };
    let mut out = [0u8; 32];
    let mut i: usize = 0;
    while i < 32
        invariant
            0 <= i <= 32,
            raw@.len() == 32,
            out@.len() == 32,
            forall|k: int| 0 <= k < i ==> out@[k] == raw@[k],
        decreases 32 - i,
    {
        out[i] = raw[i];
        i = i + 1;
    }
    assert(out@ =~= raw@);
    Ok(out)
}

} // verus!

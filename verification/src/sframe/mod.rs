//! SFrame end-to-end encryption for GAP audio streams: the KID scheme, the
//! cipher suites, the replay window, and the per-epoch session with its
//! sender-side encryptor and receiver-side decryptor.

pub mod cipher;
pub mod error;
pub mod header;
pub mod kdf;
pub mod replay;
pub mod session;

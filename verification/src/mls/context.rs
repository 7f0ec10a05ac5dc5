//! The member-side MLS context: an `openmls` group with its provider,
//! signing key and credential, and the staged commit held until the
//! control plane executes the transition.
//!
//! The AEAD key of each stream class is derived on the fly from the MLS
//! exporter and never cached, so the previous epoch's key becomes
//! unreachable as soon as the group ratchets forward.

use openmls::prelude::tls_codec::{DeserializeBytes, Serialize};
use openmls::prelude::OpenMlsProvider;
use vstd::prelude::*;
use crate::base::frame::{group_id_from_bytes, group_id_of};
use crate::mls::aead::{
    aead_len_ok, chacha20poly1305_open, chacha20poly1305_seal, open_with_key, seal_with_key, seq_nonce,
};
use crate::mls::{MessageKind, MlsError, ProcessedKind, StreamLabel, label_text};
use crate::text::{decimal, decimal_string, join2};

verus! {

/// The `openmls` crypto provider.
#[verifier::external_type_specification]
#[verifier::external_body]
pub struct ExOpenMlsRustCrypto(openmls_rust_crypto::OpenMlsRustCrypto);

/// A signature key pair.
#[verifier::external_type_specification]
#[verifier::external_body]
pub struct ExSignatureKeyPair(openmls_basic_credential::SignatureKeyPair);

/// An MLS group.
#[verifier::external_type_specification]
#[verifier::external_body]
pub struct ExMlsGroup(openmls::prelude::MlsGroup);

/// A credential with its public signature key.
#[verifier::external_type_specification]
#[verifier::external_body]
pub struct ExCredentialWithKey(openmls::prelude::CredentialWithKey);

/// A commit staged but not merged.
#[verifier::external_type_specification]
#[verifier::external_body]
pub struct ExStagedCommit(openmls::prelude::StagedCommit);

/// A key package.
#[verifier::external_type_specification]
#[verifier::external_body]
pub struct ExKeyPackage(openmls::prelude::KeyPackage);

/// A key package with its private keys.
#[verifier::external_type_specification]
#[verifier::external_body]
pub struct ExKeyPackageBundle(openmls::prelude::KeyPackageBundle);

/// An outgoing MLS message.
#[verifier::external_type_specification]
#[verifier::external_body]
pub struct ExMlsMessageOut(openmls::prelude::MlsMessageOut);

/// The body of an incoming MLS message.
#[verifier::external_type_specification]
#[verifier::external_body]
pub struct ExMlsMessageBodyIn(openmls::prelude::MlsMessageBodyIn);

/// An incoming handshake message.
#[verifier::external_type_specification]
#[verifier::external_body]
pub struct ExProtocolMessage(openmls::prelude::ProtocolMessage);

/// A Welcome message.
#[verifier::external_type_specification]
#[verifier::external_body]
pub struct ExWelcome(openmls::prelude::Welcome);

/// A Welcome staged for joining.
#[verifier::external_type_specification]
#[verifier::external_body]
pub struct ExStagedWelcome(openmls::prelude::StagedWelcome);

/// A key package as received, not yet validated.
#[verifier::external_type_specification]
#[verifier::external_body]
pub struct ExKeyPackageIn(openmls::prelude::KeyPackageIn);

/// `KeyPackageIn::tls_deserialize_exact_bytes`: reads a TLS-serialised key
/// package that must span all of `bytes`; the error is rendered with
/// `Debug`.
#[verifier::external_body]
fn read_key_package(bytes: &[u8]) -> (r: Result<openmls::prelude::KeyPackageIn, String>)
    ensures
        r is Ok <==> mls_key_package_parses(bytes@),
{
    openmls::prelude::KeyPackageIn::tls_deserialize_exact_bytes(bytes).map_err(|e| format!("{e:?}"))
}

/// `KeyPackageIn::validate` for MLS 1.0 with the provider's crypto: checks
/// the signature and the lifetime; the error is rendered with `Debug`.
#[verifier::external_body]
fn validate_key_package(
    kp: openmls::prelude::KeyPackageIn,
    provider: &openmls_rust_crypto::OpenMlsRustCrypto,
) -> Result<openmls::prelude::KeyPackage, String> {
    kp.validate(provider.crypto(), openmls::prelude::ProtocolVersion::Mls10).map_err(|e| format!("{e:?}"))
}

/// `KeyPackage::tls_serialize_detached` of the bundle's public key
/// package; the error is rendered with `Debug`. The serialisation reads
/// back as a key package.
#[verifier::external_body]
fn serialize_key_package(bundle: &openmls::prelude::KeyPackageBundle) -> (r: Result<Vec<u8>, String>)
    ensures
        r matches Ok(b) ==> mls_key_package_parses(b@),
{
    bundle.key_package().tls_serialize_detached().map_err(|e| format!("{e:?}"))
}

/// What processing a handshake message produced, as this library reads it.
pub enum Processed {
    /// A commit from another member, staged.
    Staged(openmls::prelude::StagedCommit),
    /// An application message.
    Application,
    /// A standalone proposal.
    Proposal,
    /// Anything else (external proposals, own messages fanned back).
    External,
}

/// The kind of MLS message that `bytes` hold: the body of
/// `MlsMessageIn::tls_deserialize_exact_bytes(bytes)` by its variant
/// (public and private messages are `Framed`); `None` when they do not
/// deserialize.
pub uninterp spec fn mls_message_kind(bytes: Seq<u8>) -> Option<MessageKind>;

/// The kind of a received message body (`MlsMessageBodyIn`), by variant.
pub uninterp spec fn mls_body_kind(body: openmls::prelude::MlsMessageBodyIn) -> MessageKind;

/// The kind of an outgoing message (`MlsMessageOut`), by its body's variant.
pub uninterp spec fn mls_out_kind(msg: openmls::prelude::MlsMessageOut) -> MessageKind;

/// `bytes` deserialize, spanning all of them, as a key package
/// (`KeyPackageIn::tls_deserialize_exact_bytes`).
pub uninterp spec fn mls_key_package_parses(bytes: Seq<u8>) -> bool;

/// The identity bytes of a credential with key (the serialized content of
/// its `BasicCredential`).
pub uninterp spec fn mls_credential_identity(credential: openmls::prelude::CredentialWithKey) -> Seq<u8>;

/// The identity bytes of the credential in the leaf node of a key package
/// bundle's key package.
pub uninterp spec fn mls_key_package_identity(bundle: openmls::prelude::KeyPackageBundle) -> Seq<u8>;

/// The key packages of the members that the commit an MLS group holds
/// pending adds (`MlsGroup::pending_commit`, then its add proposals); empty
/// when it holds none.
pub uninterp spec fn mls_pending_adds(group: openmls::prelude::MlsGroup) -> Seq<openmls::prelude::KeyPackage>;

/// The epoch of an MLS group (`MlsGroup::epoch`, read from its group
/// context).
pub uninterp spec fn mls_group_epoch(group: openmls::prelude::MlsGroup) -> u64;

/// The group id bytes of an MLS group (`MlsGroup::group_id`).
pub uninterp spec fn mls_group_id(group: openmls::prelude::MlsGroup) -> Seq<u8>;

/// The epoch that the commit an MLS group holds pending would move it into
/// (`MlsGroup::pending_commit`, then `StagedCommit::epoch`); `None` when it
/// holds none.
pub uninterp spec fn mls_pending_epoch(group: openmls::prelude::MlsGroup) -> Option<u64>;

/// The epoch a staged commit moves its group into (`StagedCommit::epoch`).
pub uninterp spec fn mls_staged_epoch(staged: openmls::prelude::StagedCommit) -> u64;

/// The secret `MlsGroup::export_secret` derives from the group's exporter
/// secret for `label`, `context` and length `len`.
pub uninterp spec fn mls_exported(group: openmls::prelude::MlsGroup, label: Seq<char>, context: Seq<u8>, len: nat) -> Seq<u8>;

/// `OpenMlsRustCrypto::default()`.
#[verifier::external_body]
fn new_provider() -> openmls_rust_crypto::OpenMlsRustCrypto {
    openmls_rust_crypto::OpenMlsRustCrypto::default()
}

/// `SignatureKeyPair::new` for the ciphersuite's signature scheme; the
/// error is rendered with `Debug`.
#[verifier::external_body]
fn new_signer() -> Result<openmls_basic_credential::SignatureKeyPair, String> {
    openmls_basic_credential::SignatureKeyPair::new(
        openmls::prelude::Ciphersuite::MLS_128_DHKEMX25519_AES128GCM_SHA256_Ed25519.signature_algorithm(),
    ).map_err(|e| format!("{e:?}"))
}

/// `SignatureKeyPair::store` into the provider's storage.
#[verifier::external_body]
fn store_signer(
    signer: &openmls_basic_credential::SignatureKeyPair,
    provider: &openmls_rust_crypto::OpenMlsRustCrypto,
) -> Result<(), String> {
    signer.store(provider.storage()).map_err(|e| format!("{e:?}"))
}

/// A `BasicCredential` of `identity` with the signer's public key.
#[verifier::external_body]
fn credential_for(identity: &[u8], signer: &openmls_basic_credential::SignatureKeyPair)
    -> (r: openmls::prelude::CredentialWithKey)
    ensures
        mls_credential_identity(r) == identity@,
{
    openmls::prelude::CredentialWithKey {
        credential: openmls::prelude::BasicCredential::new(identity.to_vec()).into(),
        signature_key: signer.public().into(),
    }
}

/// `KeyPackage::builder().build(..)` for the ciphersuite: its leaf node
/// carries the given credential.
#[verifier::external_body]
fn build_key_package(
    provider: &openmls_rust_crypto::OpenMlsRustCrypto,
    signer: &openmls_basic_credential::SignatureKeyPair,
    credential: openmls::prelude::CredentialWithKey,
) -> (r: Result<openmls::prelude::KeyPackageBundle, String>)
    ensures
        r matches Ok(kp) ==> mls_key_package_identity(kp) == mls_credential_identity(credential),
{
    openmls::prelude::KeyPackage::builder().build(
        openmls::prelude::Ciphersuite::MLS_128_DHKEMX25519_AES128GCM_SHA256_Ed25519,
        provider,
        signer,
        credential,
    ).map_err(|e| format!("{e:?}"))
}

/// `MlsGroup::new` for the ciphersuite, with the ratchet-tree extension.
/// Per its source a new group starts at epoch 0 with no pending commit.
#[verifier::external_body]
fn create_group(
    provider: &openmls_rust_crypto::OpenMlsRustCrypto,
    signer: &openmls_basic_credential::SignatureKeyPair,
    credential: openmls::prelude::CredentialWithKey,
) -> (r: Result<openmls::prelude::MlsGroup, String>)
    ensures
        r matches Ok(g) ==> mls_group_epoch(g) == 0 && mls_pending_epoch(g) is None,
{
    let cfg = openmls::prelude::MlsGroupCreateConfig::builder().ciphersuite(
        openmls::prelude::Ciphersuite::MLS_128_DHKEMX25519_AES128GCM_SHA256_Ed25519,
    ).use_ratchet_tree_extension(true).build();
    openmls::prelude::MlsGroup::new(provider, signer, &cfg, credential).map_err(|e| format!("{e:?}"))
}

/// `MlsGroup::add_members`: the Commit and the Welcome. Per its source an
/// empty list of key packages is refused, and otherwise the commit (adding
/// each given key package) is staged as the group's pending commit, into
/// the next epoch, and not merged: the group's epoch stays as it was. The
/// commit is a framed message, the welcome a Welcome.
#[verifier::external_body]
fn group_add_members(
    group: &mut openmls::prelude::MlsGroup,
    provider: &openmls_rust_crypto::OpenMlsRustCrypto,
    signer: &openmls_basic_credential::SignatureKeyPair,
    key_packages: &[openmls::prelude::KeyPackage],
) -> (r: Result<(openmls::prelude::MlsMessageOut, openmls::prelude::MlsMessageOut), String>)
    ensures
        mls_group_epoch(*final(group)) == mls_group_epoch(*old(group)),
        r is Ok && mls_group_epoch(*old(group)) < u64::MAX ==> mls_pending_epoch(*final(group)) == Some(
            (mls_group_epoch(*old(group)) + 1) as u64,
        ),
        key_packages@.len() == 0 ==> r is Err,
        r matches Ok((c, w)) ==> mls_out_kind(c) == MessageKind::Framed && mls_out_kind(w) == MessageKind::Welcome,
        r is Ok ==> forall|i: int|
            0 <= i < key_packages@.len() ==> #[trigger] mls_pending_adds(*final(group)).contains(key_packages@[i]),
{
    match group.add_members(provider, signer, key_packages) {
        Ok((commit, welcome, _)) => Ok((commit, welcome)),
        Err(e) => Err(format!("{e:?}")),
    }
}

/// `tls_serialize_detached` of an outgoing message. The bytes read back
/// as a message of the same kind (the wire format names the body).
#[verifier::external_body]
fn serialize_message(msg: &openmls::prelude::MlsMessageOut) -> (r: Result<Vec<u8>, String>)
    ensures
        r matches Ok(b) ==> mls_message_kind(b@) == Some(mls_out_kind(*msg)),
{
    msg.tls_serialize_detached().map_err(|e| format!("{e:?}"))
}

/// The number of members of the group (`MlsGroup::members().count()`).
#[verifier::external_body]
fn group_member_count(group: &openmls::prelude::MlsGroup) -> usize {
    group.members().count()
}

/// `MlsGroup::remove_members` of the given leaf indices: the Commit. Like
/// `add_members`, per its source it stages the commit as the group's
/// pending commit, into the next epoch, and leaves the epoch as it was.
#[verifier::external_body]
fn group_remove_members(
    group: &mut openmls::prelude::MlsGroup,
    provider: &openmls_rust_crypto::OpenMlsRustCrypto,
    signer: &openmls_basic_credential::SignatureKeyPair,
    leaf_indices: &[u32],
) -> (r: Result<openmls::prelude::MlsMessageOut, String>)
    ensures
        mls_group_epoch(*final(group)) == mls_group_epoch(*old(group)),
        r is Ok && mls_group_epoch(*old(group)) < u64::MAX ==> mls_pending_epoch(*final(group)) == Some(
            (mls_group_epoch(*old(group)) + 1) as u64,
        ),
        r matches Ok(c) ==> mls_out_kind(c) == MessageKind::Framed,
{
    let leaves: Vec<openmls::prelude::LeafNodeIndex> = leaf_indices.iter().map(
        |i| openmls::prelude::LeafNodeIndex::new(*i),
    ).collect();
    match group.remove_members(provider, signer, &leaves) {
        Ok((commit, _, _)) => Ok(commit),
        Err(e) => Err(format!("{e:?}")),
    }
}

/// `MlsGroup::merge_staged_commit`. Per its source the group's epoch
/// changes only to the staged commit's (when its context is merged), and
/// on success it is that epoch; the group's own pending commit is dropped,
/// so what it holds pending afterwards is nothing or what it held before.
#[verifier::external_body]
fn group_merge_staged(
    group: &mut openmls::prelude::MlsGroup,
    provider: &openmls_rust_crypto::OpenMlsRustCrypto,
    staged: openmls::prelude::StagedCommit,
) -> (r: Result<(), String>)
    ensures
        mls_group_epoch(*final(group)) == mls_group_epoch(*old(group)) || mls_group_epoch(*final(group))
            == mls_staged_epoch(staged),
        r is Ok ==> mls_group_epoch(*final(group)) == mls_staged_epoch(staged),
        r is Ok ==> mls_pending_epoch(*final(group)) is None || mls_pending_epoch(*final(group))
            == mls_pending_epoch(*old(group)),
{
    group.merge_staged_commit(provider, staged).map_err(|e| format!("{e:?}"))
}

/// `MlsGroup::merge_pending_commit`. Per its source a group holding no
/// pending commit is left as it is; otherwise the pending commit is merged
/// as by `merge_staged_commit`: the epoch changes only to the pending
/// commit's, and on success it is that epoch with nothing pending.
#[verifier::external_body]
fn group_merge_pending(
    group: &mut openmls::prelude::MlsGroup,
    provider: &openmls_rust_crypto::OpenMlsRustCrypto,
) -> (r: Result<(), String>)
    ensures
        mls_pending_epoch(*old(group)) is None ==> *final(group) == *old(group),
        mls_group_epoch(*final(group)) == mls_group_epoch(*old(group)) || mls_pending_epoch(*old(group))
            == Some(mls_group_epoch(*final(group))),
        r is Ok && mls_pending_epoch(*old(group)) is Some ==> mls_pending_epoch(*old(group)) == Some(
            mls_group_epoch(*final(group)),
        ) && mls_pending_epoch(*final(group)) is None,
{
    group.merge_pending_commit(provider).map_err(|e| format!("{e:?}"))
}

/// `MlsGroup::clear_pending_commit` in the provider's storage. Per its
/// source only the group state changes: the epoch stays, and a pending
/// commit this member created is dropped (one from an external join stays).
#[verifier::external_body]
fn group_clear_pending(
    group: &mut openmls::prelude::MlsGroup,
    provider: &openmls_rust_crypto::OpenMlsRustCrypto,
) -> (r: Result<(), String>)
    ensures
        mls_group_epoch(*final(group)) == mls_group_epoch(*old(group)),
        mls_pending_epoch(*final(group)) is None || mls_pending_epoch(*final(group)) == mls_pending_epoch(
            *old(group),
        ),
{
    group.clear_pending_commit(provider.storage()).map_err(|e| format!("{e:?}"))
}

/// `MlsMessageIn::tls_deserialize_exact_bytes`, then `extract`.
#[verifier::external_body]
fn read_message(bytes: &[u8]) -> (r: Result<openmls::prelude::MlsMessageBodyIn, String>)
    ensures
        r is Ok <==> mls_message_kind(bytes@) is Some,
        r matches Ok(b) ==> mls_message_kind(bytes@) == Some(mls_body_kind(b)),
{
    match openmls::prelude::MlsMessageIn::tls_deserialize_exact_bytes(bytes) {
        Ok(m) => Ok(m.extract()),
        Err(e) => Err(format!("{e:?}")),
    }
}

/// The handshake message of a public or private message body; any other
/// body is handed back rendered with `Debug`.
#[verifier::external_body]
fn as_protocol_message(body: openmls::prelude::MlsMessageBodyIn) -> (r: Result<openmls::prelude::ProtocolMessage, String>)
    ensures
        r is Ok <==> mls_body_kind(body) == MessageKind::Framed,
{
    match body {
        openmls::prelude::MlsMessageBodyIn::PublicMessage(m) => Ok(m.into()),
        openmls::prelude::MlsMessageBodyIn::PrivateMessage(m) => Ok(m.into()),
        other => Err(format!("{other:?}")),
    }
}

/// The Welcome of a message body; any other body is handed back rendered
/// with `Debug`.
#[verifier::external_body]
fn as_welcome(body: openmls::prelude::MlsMessageBodyIn) -> (r: Result<openmls::prelude::Welcome, String>)
    ensures
        r is Ok <==> mls_body_kind(body) == MessageKind::Welcome,
{
    match body {
        openmls::prelude::MlsMessageBodyIn::Welcome(w) => Ok(w),
        other => Err(format!("{other:?}")),
    }
}

/// `MlsGroup::process_message`, its content told apart by variant. Per its
/// source nothing is merged: the epoch stays, and a commit comes back
/// staged into the next epoch.
#[verifier::external_body]
fn group_process(
    group: &mut openmls::prelude::MlsGroup,
    provider: &openmls_rust_crypto::OpenMlsRustCrypto,
    msg: openmls::prelude::ProtocolMessage,
) -> (r: Result<Processed, String>)
    ensures
        mls_group_epoch(*final(group)) == mls_group_epoch(*old(group)),
        mls_group_epoch(*old(group)) < u64::MAX ==> (r matches Ok(Processed::Staged(s)) ==> mls_staged_epoch(s)
            == mls_group_epoch(*old(group)) + 1),
{
    match group.process_message(provider, msg).map(|p| p.into_content()) {
        Ok(openmls::prelude::ProcessedMessageContent::StagedCommitMessage(s)) => Ok(Processed::Staged(*s)),
        Ok(openmls::prelude::ProcessedMessageContent::ApplicationMessage(_)) => Ok(Processed::Application),
        Ok(openmls::prelude::ProcessedMessageContent::ProposalMessage(_)) => Ok(Processed::Proposal),
        Ok(_) => Ok(Processed::External),
        Err(e) => Err(format!("{e:?}")),
    }
}

/// `StagedWelcome::new_from_welcome` with the ratchet-tree extension.
#[verifier::external_body]
fn stage_welcome(
    provider: &openmls_rust_crypto::OpenMlsRustCrypto,
    welcome: openmls::prelude::Welcome,
) -> Result<openmls::prelude::StagedWelcome, String> {
    let cfg = openmls::prelude::MlsGroupJoinConfig::builder().use_ratchet_tree_extension(true).build();
    openmls::prelude::StagedWelcome::new_from_welcome(provider, &cfg, welcome, None).map_err(|e| format!("{e:?}"))
}

/// `StagedWelcome::into_group`.
#[verifier::external_body]
fn welcome_into_group(
    staged: openmls::prelude::StagedWelcome,
    provider: &openmls_rust_crypto::OpenMlsRustCrypto,
) -> Result<openmls::prelude::MlsGroup, String> {
    staged.into_group(provider).map_err(|e| format!("{e:?}"))
}

/// The group epoch (`MlsGroup::epoch().as_u64()`).
#[verifier::external_body]
fn group_epoch(group: &openmls::prelude::MlsGroup) -> (r: u64)
    ensures
        r == mls_group_epoch(*group),
{
    group.epoch().as_u64()
}

/// The group id bytes (`MlsGroup::group_id().as_slice()`).
#[verifier::external_body]
fn group_id_bytes(group: &openmls::prelude::MlsGroup) -> (r: Vec<u8>)
    ensures
        r@ == mls_group_id(*group),
{
    group.group_id().as_slice().to_vec()
}

/// `MlsGroup::export_secret`. Per its source it refuses a length above
/// `u16::MAX` and otherwise returns, when it succeeds, exactly `len`
/// bytes; which bytes depends on the group's key schedule.
#[verifier::external_body]
fn group_export_secret(
    group: &openmls::prelude::MlsGroup,
    provider: &openmls_rust_crypto::OpenMlsRustCrypto,
    label: &str,
    context: &[u8],
    len: usize,
) -> (r: Result<Vec<u8>, String>)
    ensures
        len > u16::MAX ==> r is Err,
        r matches Ok(v) ==> v@.len() == len && v@ == mls_exported(*group, label@, context@, len as nat),
{
    group.export_secret(provider.crypto(), label, context, len).map_err(|e| format!("{e:?}"))
}

fn openmls_err(prefix: &str, detail: String) -> (r: MlsError)
    ensures
        r matches MlsError::OpenMls(m) && m@ == prefix@ + detail@ && prefix@.is_prefix_of(m@),
{
    let m = join2(prefix.to_owned(), detail.as_str());
    assert(m@.subrange(0, prefix@.len() as int) =~= prefix@);
    MlsError::OpenMls(m)
}

/// `e` is an `OpenMls` error whose text begins with `prefix`.
pub open spec fn openmls_failure(e: MlsError, prefix: Seq<char>) -> bool {
    e matches MlsError::OpenMls(m) && prefix.is_prefix_of(m@)
}

/// The 32-byte AEAD key of stream label `label` in `group`: the secret
/// exported under the label's text with an empty context.
pub open spec fn label_key(group: openmls::prelude::MlsGroup, label: StreamLabel) -> Seq<u8> {
    mls_exported(group, label_text(label), Seq::empty(), 32)
}

/// The message for a leaf index outside the group.
pub open spec fn leaf_range_message(idx: u32, size: u32) -> Seq<char> {
    "leaf_index "@ + decimal(idx as nat) + " out of range (group size "@ + decimal(size as nat) + ")"@
}

/// Checks leaf indices against the group size: the first index at or
/// above it is reported.
pub fn check_leaf_indices(leaf_indices: &[u32], group_size: u32) -> (r: Result<(), String>)
    ensures
        r is Ok <==> forall|i: int| 0 <= i < leaf_indices@.len() ==> #[trigger] leaf_indices@[i] < group_size,
        r matches Err(m) ==> exists|i: int|
            0 <= i < leaf_indices@.len() && #[trigger] leaf_indices@[i] >= group_size && (forall|j: int|
                0 <= j < i ==> leaf_indices@[j] < group_size) && m@ == leaf_range_message(
                leaf_indices@[i],
                group_size,
            ),
{
    let mut i: usize = 0;
    while i < leaf_indices.len()
        invariant
            0 <= i <= leaf_indices@.len(),
            forall|j: int| 0 <= j < i ==> #[trigger] leaf_indices@[j] < group_size,
        decreases leaf_indices@.len() - i,
    {
        let idx = leaf_indices[i];
        if idx >= group_size {
            let mut m = "leaf_index ".to_owned();
            m = join2(m, decimal_string(idx as u64).as_str());
            m = join2(m, " out of range (group size ");
            m = join2(m, decimal_string(group_size as u64).as_str());
            m = join2(m, ")");
            assert(leaf_indices@[i as int] == idx);
            return Err(m);
        }
        i = i + 1;
    }
    Ok(())
}

/// MLS context for a single group member.
pub struct MlsContext {
    /// The crypto provider.
    pub provider: openmls_rust_crypto::OpenMlsRustCrypto,
    /// Signing key pair of this member.
    pub signer: openmls_basic_credential::SignatureKeyPair,
    /// The current MLS group.
    pub group: openmls::prelude::MlsGroup,
    /// Credential with the public signing key.
    pub credential: openmls::prelude::CredentialWithKey,
    /// Member identity (opaque application-defined bytes).
    pub identity: Vec<u8>,
    /// A commit staged by [`MlsContext::process_message`] and not merged
    /// yet; held until the transition is executed, so that the local epoch
    /// advances together with the rest of the group.
    pub pending_staged: Option<openmls::prelude::StagedCommit>,
}

impl MlsContext {
    /// Creates a member with a single-member group, together with a key
    /// package that others can use to invite it.
    pub fn new_member(identity: &[u8]) -> (r: Result<(Self, openmls::prelude::KeyPackageBundle), MlsError>)
        ensures
            r matches Ok(p) ==> p.0.identity@ == identity@ && p.0.pending_staged is None,
            r matches Ok(p) ==> mls_group_epoch(p.0.group) == 0 && mls_pending_epoch(p.0.group) is None,
            r matches Ok(p) ==> mls_credential_identity(p.0.credential) == identity@
                && mls_key_package_identity(p.1) == identity@,
            r matches Err(e) ==> e is OpenMls,
    {
        let provider = new_provider();
        let signer = match new_signer() {
            Ok(s) => s,
            Err(d) => {
                return Err(openmls_err("signer: ", d));
            },
        };
        match store_signer(&signer, &provider) {
            Ok(()) => {},
            Err(d) => {
                return Err(openmls_err("store signer: ", d));
            },
        }
        let kp = match build_key_package(&provider, &signer, credential_for(identity, &signer)) {
            Ok(k) => k,
            Err(d) => {
                return Err(openmls_err("kp: ", d));
            },
        };
        let group = match create_group(&provider, &signer, credential_for(identity, &signer)) {
            Ok(g) => g,
            Err(d) => {
                return Err(openmls_err("group: ", d));
            },
        };
        let credential = credential_for(identity, &signer);
        let ctx = MlsContext {
            provider,
            signer,
            group,
            credential,
            identity: crate::bytes::copy_bytes(identity),
            pending_staged: None,
        };
        Ok((ctx, kp))
    }

    /// Adds the members of `key_packages` with a Commit, and returns the
    /// serialised Commit (for existing members) and Welcome (for the
    /// joiners). The commit is not merged: call
    /// [`MlsContext::finalize_pending_commit`] once it was distributed, or
    /// [`MlsContext::clear_pending_commit`] to roll back.
    pub fn invite_full(&mut self, key_packages: &[openmls::prelude::KeyPackage]) -> (r: Result<
        (Vec<u8>, Vec<u8>),
        MlsError,
    >)
        ensures
            final(self).identity@ == old(self).identity@,
            final(self).pending_staged == old(self).pending_staged,
            mls_group_epoch(final(self).group) == mls_group_epoch(old(self).group),
            r is Ok && mls_group_epoch(old(self).group) < u64::MAX ==> mls_pending_epoch(final(self).group)
                == Some((mls_group_epoch(old(self).group) + 1) as u64),
            r matches Err(e) ==> openmls_failure(e, "add_members: "@) || openmls_failure(e, "commit serialize: "@)
                || openmls_failure(e, "welcome serialize: "@),
            key_packages@.len() == 0 ==> r is Err,
            r matches Ok((c, w)) ==> mls_message_kind(c@) == Some(MessageKind::Framed) && mls_message_kind(w@)
                == Some(MessageKind::Welcome),
            r is Ok ==> forall|i: int|
                0 <= i < key_packages@.len() ==> #[trigger] mls_pending_adds(final(self).group).contains(
                    key_packages@[i],
                ),
    {
        let (commit, welcome) = match group_add_members(&mut self.group, &self.provider, &self.signer, key_packages) {
            Ok(p) => p,
            Err(d) => {
                return Err(openmls_err("add_members: ", d));
            },
        };
        let commit_bytes = match serialize_message(&commit) {
            Ok(b) => b,
            Err(d) => {
                return Err(openmls_err("commit serialize: ", d));
            },
        };
        let welcome_bytes = match serialize_message(&welcome) {
            Ok(b) => b,
            Err(d) => {
                return Err(openmls_err("welcome serialize: ", d));
            },
        };
        Ok((commit_bytes, welcome_bytes))
    }

    /// Builds the Commit, merges it at once and returns only the Welcome.
    pub fn invite(&mut self, key_packages: &[openmls::prelude::KeyPackage]) -> (r: Result<Vec<u8>, MlsError>)
        ensures
            final(self).identity@ == old(self).identity@,
            r is Ok ==> final(self).pending_staged is None,
            r matches Err(e) ==> e is OpenMls,
            key_packages@.len() == 0 ==> r is Err,
            r matches Ok(w) ==> mls_message_kind(w@) == Some(MessageKind::Welcome),
    {
        let (_commit, welcome) = self.invite_full(key_packages)?;
        self.finalize_pending_commit()?;
        Ok(welcome)
    }

    /// Removes the members at the given leaf indices with a Commit and
    /// returns it serialised. An index at or above the group size is
    /// refused first, naming it, with the group unchanged. The commit is
    /// not merged (see [`MlsContext::invite_full`]).
    pub fn remove_members(&mut self, leaf_indices: &[u32]) -> (r: Result<Vec<u8>, MlsError>)
        ensures
            final(self).identity@ == old(self).identity@,
            final(self).pending_staged == old(self).pending_staged,
            r matches Ok(c) ==> mls_message_kind(c@) == Some(MessageKind::Framed),
            mls_group_epoch(final(self).group) == mls_group_epoch(old(self).group),
            r is Ok && mls_group_epoch(old(self).group) < u64::MAX ==> mls_pending_epoch(final(self).group)
                == Some((mls_group_epoch(old(self).group) + 1) as u64),
            r matches Err(e) ==> e is OpenMls,
            r matches Err(e) ==> {
                ||| (exists|i: int, size: u32|
                    #![trigger leaf_indices@[i], leaf_range_message(leaf_indices@[i], size)]
                    0 <= i < leaf_indices@.len() && leaf_indices@[i] >= size && (forall|j: int|
                        0 <= j < i ==> leaf_indices@[j] < size) && (e matches MlsError::OpenMls(m)
                        && m@ == leaf_range_message(leaf_indices@[i], size)) && *final(self) == *old(
                        self,
                    ))
                ||| openmls_failure(e, "remove_members: "@)
                ||| openmls_failure(e, "commit serialize: "@)
            },
    {
        let size = group_member_count(&self.group) as u32;
        match check_leaf_indices(leaf_indices, size) {
            Ok(()) => {},
            Err(m) => {
                let ghost i = choose|i: int|
                    0 <= i < leaf_indices@.len() && #[trigger] leaf_indices@[i] >= size && (forall|j: int|
                        0 <= j < i ==> leaf_indices@[j] < size) && m@ == leaf_range_message(
                        leaf_indices@[i],
                        size,
                    );
                assert(leaf_range_message(leaf_indices@[i], size) == m@);
                return Err(MlsError::OpenMls(m));
            },
        }
        let commit = match group_remove_members(&mut self.group, &self.provider, &self.signer, leaf_indices) {
            Ok(c) => c,
            Err(d) => {
                return Err(openmls_err("remove_members: ", d));
            },
        };
        match serialize_message(&commit) {
            Ok(b) => Ok(b),
            Err(d) => Err(openmls_err("commit serialize: ", d)),
        }
    }

    /// Merges the pending commit: first a staged commit from
    /// [`MlsContext::process_message`] (consuming it), then the group's own
    /// pending commit, if any (its absence is no error).
    pub fn finalize_pending_commit(&mut self) -> (r: Result<(), MlsError>)
        ensures
            final(self).identity@ == old(self).identity@,
            final(self).pending_staged is None,
            r matches Err(e) ==> e is OpenMls,
            r is Ok && mls_pending_epoch(old(self).group) is None ==> (match old(self).pending_staged {
                Some(s) => mls_group_epoch(final(self).group) == mls_staged_epoch(s),
                None => final(self).group == old(self).group,
            }),
            old(self).pending_staged is None ==> mls_group_epoch(final(self).group) == mls_group_epoch(
                old(self).group,
            ) || mls_pending_epoch(old(self).group) == Some(mls_group_epoch(final(self).group)),
    {
        let mut staged: Option<openmls::prelude::StagedCommit> = None;
        std::mem::swap(&mut staged, &mut self.pending_staged);
        match staged {
            Some(s) => match group_merge_staged(&mut self.group, &self.provider, s) {
                Ok(()) => {},
                Err(d) => {
                    return Err(openmls_err("merge_staged: ", d));
                },
            },
            None => {},
        }
        let _ = group_merge_pending(&mut self.group, &self.provider);
        Ok(())
    }

    /// Discards any pending commit (staged and self-issued) without
    /// applying it.
    pub fn clear_pending_commit(&mut self) -> (r: Result<(), MlsError>)
        ensures
            final(self).identity@ == old(self).identity@,
            final(self).pending_staged is None,
            r matches Err(e) ==> e is OpenMls,
            mls_group_epoch(final(self).group) == mls_group_epoch(old(self).group),
            mls_pending_epoch(final(self).group) is None || mls_pending_epoch(final(self).group)
                == mls_pending_epoch(old(self).group),
    {
        self.pending_staged = None;
        match group_clear_pending(&mut self.group, &self.provider) {
            Ok(()) => Ok(()),
            Err(d) => Err(openmls_err("clear: ", d)),
        }
    }

    /// Processes a Commit or other handshake message. A commit is staged,
    /// not merged (see [`MlsContext::finalize_pending_commit`]); a commit
    /// processed while another is still staged replaces it (the second call
    /// wins).
    pub fn process_message(&mut self, msg_bytes: &[u8]) -> (r: Result<ProcessedKind, MlsError>)
        ensures
            final(self).identity@ == old(self).identity@,
            r == Ok::<ProcessedKind, MlsError>(ProcessedKind::Commit) ==> final(self).pending_staged is Some,
            mls_group_epoch(final(self).group) == mls_group_epoch(old(self).group),
            r == Ok::<ProcessedKind, MlsError>(ProcessedKind::Commit) && mls_group_epoch(old(self).group)
                < u64::MAX ==> (final(self).pending_staged matches Some(s) && mls_staged_epoch(s)
                == mls_group_epoch(old(self).group) + 1),
            r != Ok::<ProcessedKind, MlsError>(ProcessedKind::Commit) ==> final(self).pending_staged
                == old(self).pending_staged,
            r matches Err(e) ==> e is OpenMls,
            mls_message_kind(msg_bytes@) is None ==> (r matches Err(e) && openmls_failure(e, "msg parse: "@))
                && *final(self) == *old(self),
            (mls_message_kind(msg_bytes@) matches Some(k) && k != MessageKind::Framed) ==> (r matches Err(e)
                && openmls_failure(e, "expected protocol message, got "@)) && *final(self) == *old(self),
            r is Ok ==> mls_message_kind(msg_bytes@) == Some(MessageKind::Framed),
            r matches Err(e) ==> openmls_failure(e, "msg parse: "@)
                || openmls_failure(e, "expected protocol message, got "@) || openmls_failure(
                e,
                "process: "@,
            ),
    {
        let body = match read_message(msg_bytes) {
            Ok(b) => b,
            Err(d) => {
                return Err(openmls_err("msg parse: ", d));
            },
        };
        let msg = match as_protocol_message(body) {
            Ok(m) => m,
            Err(d) => {
                return Err(openmls_err("expected protocol message, got ", d));
            },
        };
        let processed = match group_process(&mut self.group, &self.provider, msg) {
            Ok(p) => p,
            Err(d) => {
                return Err(openmls_err("process: ", d));
            },
        };
        self.record_processed(processed)
    }

    /// Takes in what processing a handshake message produced: a staged
    /// commit becomes the pending one, replacing any commit staged before;
    /// every other kind is reported as it is, with nothing changed.
    pub fn record_processed(&mut self, processed: Processed) -> (r: Result<ProcessedKind, MlsError>)
        ensures
            final(self).identity == old(self).identity,
            final(self).group == old(self).group,
            final(self).provider == old(self).provider,
            final(self).signer == old(self).signer,
            final(self).credential == old(self).credential,
            match processed {
                Processed::Staged(s) => r == Ok::<ProcessedKind, MlsError>(ProcessedKind::Commit)
                    && final(self).pending_staged == Some(s),
                Processed::Application => r == Ok::<ProcessedKind, MlsError>(ProcessedKind::Application)
                    && final(self).pending_staged == old(self).pending_staged,
                Processed::Proposal => r == Ok::<ProcessedKind, MlsError>(ProcessedKind::Proposal)
                    && final(self).pending_staged == old(self).pending_staged,
                Processed::External => r == Ok::<ProcessedKind, MlsError>(ProcessedKind::External)
                    && final(self).pending_staged == old(self).pending_staged,
            },
    {
        match processed {
            Processed::Staged(staged) => {
                self.pending_staged = Some(staged);
                Ok(ProcessedKind::Commit)
            },
            Processed::Application => Ok(ProcessedKind::Application),
            Processed::Proposal => Ok(ProcessedKind::Proposal),
            Processed::External => Ok(ProcessedKind::External),
        }
    }

    /// Replaces the local group with the one the Welcome describes.
    pub fn accept_welcome(&mut self, welcome_bytes: &[u8]) -> (r: Result<(), MlsError>)
        ensures
            final(self).identity@ == old(self).identity@,
            final(self).pending_staged == old(self).pending_staged,
            r matches Err(e) ==> e is OpenMls,
            mls_message_kind(welcome_bytes@) is None ==> (r matches Err(e) && openmls_failure(e, "welcome parse: "@)),
            (mls_message_kind(welcome_bytes@) matches Some(k) && k != MessageKind::Welcome) ==> (r matches Err(e)
                && openmls_failure(e, "expected welcome, got "@)),
            r is Ok ==> mls_message_kind(welcome_bytes@) == Some(MessageKind::Welcome),
            r matches Err(e) ==> *final(self) == *old(self) && (openmls_failure(e, "welcome parse: "@)
                || openmls_failure(e, "expected welcome, got "@) || openmls_failure(e, "staged: "@)
                || openmls_failure(e, "into_group: "@)),
    {
        let body = match read_message(welcome_bytes) {
            Ok(b) => b,
            Err(d) => {
                return Err(openmls_err("welcome parse: ", d));
            },
        };
        let welcome = match as_welcome(body) {
            Ok(w) => w,
            Err(d) => {
                return Err(openmls_err("expected welcome, got ", d));
            },
        };
        let staged = match stage_welcome(&self.provider, welcome) {
            Ok(s) => s,
            Err(d) => {
                return Err(openmls_err("staged: ", d));
            },
        };
        match welcome_into_group(staged, &self.provider) {
            Ok(g) => {
                self.group = g;
                Ok(())
            },
            Err(d) => Err(openmls_err("into_group: ", d)),
        }
    }

    /// Reads and validates a TLS-serialised key package received from a
    /// prospective member, ready for [`MlsContext::invite`]. A parse
    /// failure is reported with `kp parse: `, a validation failure with
    /// `kp validate: `.
    pub fn key_package_from_bytes(&self, bytes: &[u8]) -> (r: Result<openmls::prelude::KeyPackage, MlsError>)
        ensures
            r matches Err(e) ==> e is OpenMls,
            !mls_key_package_parses(bytes@) ==> (r matches Err(e) && openmls_failure(e, "kp parse: "@)),
            mls_key_package_parses(bytes@) ==> (r is Ok || openmls_failure(r->Err_0, "kp validate: "@)),
            r matches Err(e) ==> openmls_failure(e, "kp parse: "@) || openmls_failure(e, "kp validate: "@),
    {
        let kp_in = match read_key_package(bytes) {
            Ok(k) => k,
            Err(d) => {
                return Err(openmls_err("kp parse: ", d));
            },
        };
        match validate_key_package(kp_in, &self.provider) {
            Ok(k) => Ok(k),
            Err(d) => Err(openmls_err("kp validate: ", d)),
        }
    }

    /// The TLS serialisation of the key package in `bundle`, to hand to a
    /// member that will invite this one; a failure is reported with
    /// `kp serialize: `.
    pub fn key_package_bytes(bundle: &openmls::prelude::KeyPackageBundle) -> (r: Result<Vec<u8>, MlsError>)
        ensures
            r matches Err(e) ==> e is OpenMls,
            r matches Ok(b) ==> mls_key_package_parses(b@),
            r matches Err(e) ==> openmls_failure(e, "kp serialize: "@),
    {
        match serialize_key_package(bundle) {
            Ok(b) => Ok(b),
            Err(d) => Err(openmls_err("kp serialize: ", d)),
        }
    }

    /// The current group epoch.
    pub fn epoch(&self) -> (r: u64)
        ensures
            r == mls_group_epoch(self.group),
    {
        group_epoch(&self.group)
    }

    /// The 16-byte group identifier: the MLS group id's first 16 bytes,
    /// zero-padded when shorter.
    pub fn group_id_16(&self) -> (r: [u8; 16])
        ensures
            r@ == group_id_of(mls_group_id(self.group)),
    {
        let raw = group_id_bytes(&self.group);
        group_id_from_bytes(raw.as_slice())
    }

    /// A 32-byte key exported under the stream label.
    pub fn export_stream_key(&self, label: StreamLabel) -> (r: Result<[u8; 32], MlsError>)
        ensures
            r matches Err(e) ==> e is OpenMls,
            r matches Err(e) ==> openmls_failure(e, "export: "@),
            r matches Ok(k) ==> k@ == label_key(self.group, label),
    {
        let empty: Vec<u8> = Vec::new();
        let secret = match group_export_secret(&self.group, &self.provider, label.as_str(), empty.as_slice(), 32) {
            Ok(s) => s,
            Err(d) => {
                return Err(openmls_err("export: ", d));
            },
        };
        let mut out = [0u8; 32];
        let mut i: usize = 0;
        while i < 32
            invariant
                0 <= i <= 32,
                secret@.len() == 32,
                out@.len() == 32,
                forall|k: int| 0 <= k < i ==> out@[k] == secret@[k],
            decreases 32 - i,
        {
            out[i] = secret[i];
            i = i + 1;
        }
        assert(out@ =~= secret@);
        Ok(out)
    }

    /// `len` bytes exported under an arbitrary label and context.
    pub fn export_raw(&self, label: &str, context: &[u8], len: usize) -> (r: Result<Vec<u8>, MlsError>)
        ensures
            r matches Ok(v) ==> v@.len() == len,
            len > u16::MAX ==> r is Err,
            r matches Err(e) ==> e is OpenMls,
            r matches Err(e) ==> openmls_failure(e, "export_raw: "@),
            r matches Ok(v) ==> v@ == mls_exported(self.group, label@, context@, len as nat),
    {
        match group_export_secret(&self.group, &self.provider, label, context, len) {
            Ok(s) => Ok(s),
            Err(d) => Err(openmls_err("export_raw: ", d)),
        }
    }

    /// Seals `plaintext` with ChaCha20-Poly1305 under the stream label's
    /// exported key and the nonce of `seq`.
    pub fn seal(&self, label: StreamLabel, seq: u32, plaintext: &[u8]) -> (r: Result<Vec<u8>, MlsError>)
        ensures
            aead_len_ok(plaintext@.len()) && r is Err ==> r->Err_0 is OpenMls,
            aead_len_ok(plaintext@.len()) && r is Err ==> openmls_failure(r->Err_0, "export: "@),
            r matches Err(e) ==> openmls_failure(e, "export: "@) || e is Aead,
            r matches Ok(c) ==> c@ == chacha20poly1305_seal(label_key(self.group, label), seq_nonce(seq), plaintext@),
    {
        let key = self.export_stream_key(label)?;
        seal_with_key(&key, seq, plaintext)
    }

    /// Opens `ciphertext` with the same parameters as [`MlsContext::seal`].
    pub fn open(&self, label: StreamLabel, seq: u32, ciphertext: &[u8]) -> (r: Result<Vec<u8>, MlsError>)
        ensures
            r matches Err(e) ==> (e is OpenMls || e is Aead),
            r matches Err(e) ==> (openmls_failure(e, "export: "@) || e is Aead),
            r matches Err(MlsError::Aead(_)) ==> chacha20poly1305_open(label_key(self.group, label), seq_nonce(seq), ciphertext@) is None,
            r matches Ok(p) ==> chacha20poly1305_open(label_key(self.group, label), seq_nonce(seq), ciphertext@) == Some(p@),
    {
        let key = self.export_stream_key(label)?;
        open_with_key(&key, seq, ciphertext)
    }
}

} // verus!

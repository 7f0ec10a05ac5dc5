//! Attachments: chunking, manifest and integrity verification.
//!
//! The sender splits the data into chunks and sends the manifest followed
//! by the chunks; the receiver feeds the chunks to an
//! [`AttachmentAssembler`] and, once all have arrived, checks the SHA-256
//! of the reassembled payload against the manifest.

use std::collections::HashMap;
use sha2::Digest;
use vstd::prelude::*;
use crate::text::{decimal, decimal_string, join2};
use crate::base::{CodecError, codec_error_text};
use crate::bytes::{bytes_eq, copy_bytes, extend_bytes};

verus! {

broadcast use vstd::std_specs::hash::group_hash_axioms;

/// Default chunk size: 64 KiB.
pub const DEFAULT_CHUNK_SIZE: usize = 65536;

/// The SHA-256 digest of `data`, as `sha2::Sha256::digest` computes it.
pub uninterp spec fn sha256_digest(data: Seq<u8>) -> Seq<u8>;

/// Hashes `data` with `sha2::Sha256::digest`. Its result is the 32-byte
/// digest, a function of the input bytes alone; what that function is, is
/// not stated here.
#[verifier::external_body]
fn sha256(data: &[u8]) -> (r: Vec<u8>)
    ensures
        r@ == sha256_digest(data@),
        r@.len() == 32,
{
    sha2::Sha256::digest(data).to_vec()
}

/// Manifest sent as the body of an `AttachmentRef` message; describes the
/// whole attachment so the receiver can verify it.
#[derive(Clone, Debug)]
pub struct AttachmentManifest {
    /// Unique attachment identifier (sender-scoped).
    pub attachment_id: u64,
    /// Name of the attached file.
    pub filename: String,
    /// MIME type string (e.g. `"image/png"`).
    pub mime_type: String,
    /// Total byte length of the reassembled payload.
    pub total_size: u64,
    /// Number of chunks.
    pub chunk_count: u32,
    /// SHA-256 hash of the complete payload (32 bytes).
    pub sha256: Vec<u8>,
}

/// One chunk of an attachment payload.
#[derive(Clone, Debug)]
pub struct AttachmentChunk {
    /// Attachment this chunk belongs to.
    pub attachment_id: u64,
    /// Zero-based chunk index.
    pub chunk_index: u32,
    /// Total number of chunks.
    pub chunk_count: u32,
    /// Chunk payload bytes.
    pub data: Vec<u8>,
}

/// Errors from attachment assembly.
#[derive(Debug)]
pub enum AttachmentError {
    /// Decoding failed.
    Decode(CodecError),
    /// `chunk_index` is out of range for the declared `chunk_count`.
    ChunkOutOfRange {
        /// The out-of-range index.
        idx: u32,
        /// Declared total chunk count.
        count: u32,
    },
    /// The reassembled payload's SHA-256 does not match the manifest.
    HashMismatch,
    /// Not all chunks have arrived yet.
    Incomplete {
        /// Number of chunks received so far.
        received: u32,
        /// Total expected chunks.
        total: u32,
    },
}

/// The display text of an attachment error.
pub open spec fn attachment_error_text(e: AttachmentError) -> Seq<char> {
    match e {
        AttachmentError::Decode(c) => "decode: "@ + codec_error_text(c),
        AttachmentError::ChunkOutOfRange { idx, count } => "chunk index "@ + decimal(idx as nat)
            + " out of range (count="@ + decimal(count as nat) + ")"@,
        AttachmentError::HashMismatch => "integrity check failed: hash mismatch"@,
        AttachmentError::Incomplete { received, total } => "incomplete: "@ + decimal(received as nat) + "/"@
            + decimal(total as nat) + " chunks received"@,
    }
}

impl AttachmentError {
    /// Display text of the error.
    pub fn message(&self) -> (r: String)
        ensures
            r@ == attachment_error_text(*self),
    {
        match self {
            AttachmentError::Decode(c) => join2("decode: ".to_owned(), c.message().as_str()),
            AttachmentError::ChunkOutOfRange { idx, count } => {
                let s = join2("chunk index ".to_owned(), decimal_string(*idx as u64).as_str());
                let s = join2(s, " out of range (count=");
                let s = join2(s, decimal_string(*count as u64).as_str());
                join2(s, ")")
            },
            AttachmentError::HashMismatch => "integrity check failed: hash mismatch".to_owned(),
            AttachmentError::Incomplete { received, total } => {
                let s = join2("incomplete: ".to_owned(), decimal_string(*received as u64).as_str());
                let s = join2(s, "/");
                let s = join2(s, decimal_string(*total as u64).as_str());
                join2(s, " chunks received")
            },
        }
    }
}

/// The bytes of a sequence of chunks laid end to end.
pub open spec fn joined(parts: Seq<Seq<u8>>) -> Seq<u8>
    decreases parts.len(),
{
    if parts.len() == 0 {
        Seq::empty()
    } else {
        joined(parts.drop_last()) + parts.last()
    }
}

/// `parts` is the split of `data` into chunks of `size` bytes: laid end to
/// end they give `data`, none is empty, and every chunk but the last has
/// exactly `size` bytes (the last at most `size`).
pub open spec fn is_split(data: Seq<u8>, size: nat, parts: Seq<Seq<u8>>) -> bool {
    &&& joined(parts) == data
    &&& forall|i: int| 0 <= i < parts.len() ==> #[trigger] parts[i].len() > 0
    &&& forall|i: int| 0 <= i < parts.len() - 1 ==> #[trigger] parts[i].len() == size
    &&& forall|i: int| 0 <= i < parts.len() ==> #[trigger] parts[i].len() <= size
}

/// The data of each chunk.
pub open spec fn chunk_data(chunks: Seq<AttachmentChunk>) -> Seq<Seq<u8>> {
    chunks.map_values(|c: AttachmentChunk| c.data@)
}

/// Splits a payload into chunks and produces the manifest.
pub struct AttachmentSender {
    /// The manifest to broadcast first.
    pub manifest: AttachmentManifest,
    /// The chunks, in index order, ready to encode and send.
    pub chunks: Vec<AttachmentChunk>,
}

impl AttachmentSender {
    /// Splits `data` into chunks of `chunk_size` bytes (at least 1; the
    /// last chunk may be smaller) and builds the manifest with the SHA-256
    /// of `data`. Chunk `i` carries index `i` and the chunk count.
    pub fn new(
        attachment_id: u64,
        filename: &str,
        mime_type: &str,
        data: &[u8],
        chunk_size: usize,
    ) -> (r: Self)
        ensures
            is_split(
                data@,
                (if chunk_size == 0 {
                    1
                } else {
                    chunk_size
                }) as nat,
                chunk_data(r.chunks@),
            ),
            r.manifest.attachment_id == attachment_id,
            r.manifest.filename@ == filename@,
            r.manifest.mime_type@ == mime_type@,
            r.manifest.total_size == data@.len(),
            r.manifest.chunk_count == r.chunks@.len() as u32,
            r.manifest.sha256@ == sha256_digest(data@),
            forall|i: int|
                0 <= i < r.chunks@.len() ==> {
                    &&& (#[trigger] r.chunks@[i]).attachment_id == attachment_id
                    &&& r.chunks@[i].chunk_index == i as u32
                    &&& r.chunks@[i].chunk_count == r.chunks@.len() as u32
                },
    {
        let hash = sha256(data);
        let size: usize = if chunk_size == 0 {
            1
        } else {
            chunk_size
        };
        let mut pieces: Vec<Vec<u8>> = Vec::new();
        let mut offset: usize = 0;
        while offset < data.len()
            invariant
                0 <= offset <= data@.len(),
                size >= 1,
                size == (if chunk_size == 0 {
                    1
                } else {
                    chunk_size
                }),
                joined(pieces@.map_values(|p: Vec<u8>| p@)) == data@.take(offset as int),
                forall|i: int| 0 <= i < pieces@.len() ==> #[trigger] pieces@[i]@.len() > 0,
                forall|i: int| 0 <= i < pieces@.len() ==> #[trigger] pieces@[i]@.len() <= size,
                forall|i: int|
                    0 <= i < pieces@.len() - 1 ==> #[trigger] pieces@[i]@.len() == size,
                pieces@.len() > 0 ==> pieces@.last()@.len() == size || offset == data@.len(),
            decreases data@.len() - offset,
        {
            let end: usize = if data.len() - offset > size {
                offset + size
            } else {
                data.len()
            };
            let piece = copy_bytes(&data[offset..end]);
            assert(piece@ == data@.subrange(offset as int, end as int));
            let ghost before = pieces@.map_values(|p: Vec<u8>| p@);
            pieces.push(piece);
            proof {
                let after = pieces@.map_values(|p: Vec<u8>| p@);
                assert(after.drop_last() =~= before);
                assert(data@.take(end as int) =~= data@.take(offset as int) + data@.subrange(
                    offset as int,
                    end as int,
                ));
            }
            offset = end;
        }
        assert(data@.take(data@.len() as int) =~= data@);
        let count = pieces.len() as u32;
        let mut chunks: Vec<AttachmentChunk> = Vec::new();
        let mut i: usize = 0;
        while i < pieces.len()
            invariant
                0 <= i <= pieces@.len(),
                count == pieces@.len() as u32,
                chunks@.len() == i,
                forall|k: int|
                    0 <= k < i ==> {
                        &&& (#[trigger] chunks@[k]).attachment_id == attachment_id
                        &&& chunks@[k].chunk_index == k as u32
                        &&& chunks@[k].chunk_count == count
                        &&& chunks@[k].data@ == pieces@[k]@
                    },
            decreases pieces@.len() - i,
        {
            let data_i = copy_bytes(pieces[i].as_slice());
            chunks.push(
                AttachmentChunk {
                    attachment_id,
                    chunk_index: i as u32,
                    chunk_count: count,
                    data: data_i,
                },
            );
            i = i + 1;
        }
        assert(chunk_data(chunks@) =~= pieces@.map_values(|p: Vec<u8>| p@));
        let manifest = AttachmentManifest {
            attachment_id,
            filename: filename.to_owned(),
            mime_type: mime_type.to_owned(),
            total_size: data.len() as u64,
            chunk_count: count,
            sha256: hash,
        };
        AttachmentSender { manifest, chunks }
    }
}

/// The set of `u32` values below `n`.
pub open spec fn below(n: u32) -> Set<u32> {
    Set::new(|k: u32| k < n)
}

proof fn lemma_below_len(n: u32)
    ensures
        below(n).finite(),
        below(n).len() == n,
    decreases n,
{
    if n == 0 {
        assert(below(0) =~= Set::<u32>::empty());
    } else {
        let m = (n - 1) as u32;
        lemma_below_len(m);
        assert(below(n) =~= below(m).insert(m));
    }
}

/// The payload reassembled from chunks `0 .. n` of `received`, in index
/// order.
pub open spec fn reassembled(received: Map<u32, Seq<u8>>, n: nat) -> Seq<u8>
    decreases n,
{
    if n == 0 {
        Seq::empty()
    } else {
        reassembled(received, (n - 1) as nat) + received[(n - 1) as u32]
    }
}

/// Reassembles incoming chunks and verifies integrity when complete.
pub struct AttachmentAssembler {
    manifest: AttachmentManifest,
    received: HashMap<u32, Vec<u8>>,
}

impl AttachmentAssembler {
    /// The manifest being assembled against.
    pub closed spec fn spec_manifest(&self) -> AttachmentManifest {
        self.manifest
    }

    /// The chunk data received so far, by index.
    pub closed spec fn spec_received(&self) -> Map<u32, Seq<u8>> {
        self.received@.map_values(|v: Vec<u8>| v@)
    }

    /// Every received index is below the manifest's chunk count.
    pub closed spec fn wf(&self) -> bool {
        forall|k: u32| #[trigger] self.received@.contains_key(k) ==> k < self.manifest.chunk_count
    }

    /// Creates an assembler for the given manifest, with no chunk yet.
    pub fn new(manifest: AttachmentManifest) -> (r: Self)
        ensures
            r.wf(),
            r.spec_manifest() == manifest,
            r.spec_received() == Map::<u32, Seq<u8>>::empty(),
    {
        let r = AttachmentAssembler { manifest, received: HashMap::new() };
        assert(r.spec_received() =~= Map::<u32, Seq<u8>>::empty());
        r
    }

    /// The manifest.
    pub fn manifest(&self) -> (r: &AttachmentManifest)
        ensures
            *r == self.spec_manifest(),
    {
        &self.manifest
    }

    proof fn lemma_count_fits(&self)
        requires
            self.wf(),
        ensures
            self.received@.dom().finite(),
            self.received@.dom().len() <= self.manifest.chunk_count,
    {
        lemma_below_len(self.manifest.chunk_count);
        vstd::set_lib::lemma_len_subset(self.received@.dom(), below(self.manifest.chunk_count));
    }

    /// How many distinct chunks have been received.
    pub fn received_count(&self) -> (r: u32)
        requires
            self.wf(),
        ensures
            r == self.spec_received().dom().len(),
    {
        proof {
            self.lemma_count_fits();
            assert(self.spec_received().dom() =~= self.received@.dom());
        }
        self.received.len() as u32
    }

    /// `true` when every chunk has arrived.
    pub fn is_complete(&self) -> (r: bool)
        requires
            self.wf(),
        ensures
            r == (self.spec_received().dom().len() == self.spec_manifest().chunk_count),
    {
        proof {
            self.lemma_count_fits();
            assert(self.spec_received().dom() =~= self.received@.dom());
        }
        self.received.len() as u32 == self.manifest.chunk_count
    }

    /// Feeds a chunk. An index at or above the chunk count is refused; a
    /// chunk whose index was already received is ignored.
    pub fn push(&mut self, chunk: AttachmentChunk) -> (r: Result<(), AttachmentError>)
        requires
            old(self).wf(),
        ensures
            final(self).wf(),
            final(self).spec_manifest() == old(self).spec_manifest(),
            chunk.chunk_index >= old(self).spec_manifest().chunk_count ==> {
                &&& final(self).spec_received() == old(self).spec_received()
                &&& r matches Err(AttachmentError::ChunkOutOfRange { idx, count }) && idx
                    == chunk.chunk_index && count == old(self).spec_manifest().chunk_count
            },
            chunk.chunk_index < old(self).spec_manifest().chunk_count ==> {
                &&& r is Ok
                &&& final(self).spec_received() == if old(self).spec_received().contains_key(
                    chunk.chunk_index,
                ) {
                    old(self).spec_received()
                } else {
                    old(self).spec_received().insert(chunk.chunk_index, chunk.data@)
                }
            },
    {
        if chunk.chunk_index >= self.manifest.chunk_count {
            return Err(
                AttachmentError::ChunkOutOfRange {
                    idx: chunk.chunk_index,
                    count: self.manifest.chunk_count,
                },
            );
        }
        if !self.received.contains_key(&chunk.chunk_index) {
            let ghost pre = self.spec_received();
            let ghost d = chunk.data@;
            self.received.insert(chunk.chunk_index, chunk.data);
            assert(self.spec_received() =~= pre.insert(chunk.chunk_index, d));
        }
        Ok(())
    }

    /// Reassembles the payload once every chunk has arrived and checks its
    /// SHA-256 against the manifest.
    pub fn assemble(self) -> (r: Result<Vec<u8>, AttachmentError>)
        requires
            self.wf(),
        ensures
            ({
                let total = self.spec_manifest().chunk_count;
                let received = self.spec_received().dom().len();
                if received < total {
                    r matches Err(AttachmentError::Incomplete { received: got, total: want })
                        && got == received && want == total
                } else {
                    let payload = reassembled(self.spec_received(), total as nat);
                    if sha256_digest(payload) == self.spec_manifest().sha256@ {
                        r matches Ok(p) && p@ == payload
                    } else {
                        r matches Err(AttachmentError::HashMismatch)
                    }
                }
            }),
    {
        let total = self.manifest.chunk_count;
        let received = self.received_count();
        if received < total {
            return Err(AttachmentError::Incomplete { received, total });
        }
        proof {
            assert forall|k: u32| k < total implies #[trigger] self.received@.contains_key(k) by {
                if !self.received@.contains_key(k) {
                    lemma_below_len(total);
                    let smaller = below(total).remove(k);
                    assert(self.received@.dom().subset_of(smaller));
                    vstd::set_lib::lemma_len_subset(self.received@.dom(), smaller);
                    assert(self.spec_received().dom() =~= self.received@.dom());
                }
            }
        }
        let mut payload: Vec<u8> = Vec::new();
        let mut i: u32 = 0;
        while i < total
            invariant
                0 <= i <= total,
                total == self.manifest.chunk_count,
                forall|k: u32| k < total ==> #[trigger] self.received@.contains_key(k),
                payload@ == reassembled(self.spec_received(), i as nat),
            decreases total - i,
        {
            assert(self.received@.contains_key(i));
            match self.received.get(&i) {
                Some(d) => {
                    extend_bytes(&mut payload, d.as_slice());
                },
                None => {},
            }
            i = i + 1;
        }
        let hash = sha256(payload.as_slice());
        if !bytes_eq(hash.as_slice(), self.manifest.sha256.as_slice()) {
            return Err(AttachmentError::HashMismatch);
        }
        Ok(payload)
    }
}

/// Chunk `i` of `parts` was received under index `i`, for every `i`.
pub open spec fn received_all(received: Map<u32, Seq<u8>>, parts: Seq<Seq<u8>>) -> bool {
    forall|i: int|
        0 <= i < parts.len() ==> received.contains_key(i as u32) && #[trigger] received[i as u32]
            == parts[i]
}

/// Chunks received by index reassemble, in index order, into the chunks
/// laid end to end.
pub proof fn lemma_reassembled_is_joined(received: Map<u32, Seq<u8>>, parts: Seq<Seq<u8>>, n: nat)
    requires
        n <= parts.len(),
        parts.len() <= u32::MAX,
        received_all(received, parts),
    ensures
        reassembled(received, n) == joined(parts.take(n as int)),
    decreases n,
{
    if n > 0 {
        lemma_reassembled_is_joined(received, parts, (n - 1) as nat);
        assert(parts.take(n as int).drop_last() =~= parts.take(n - 1));
        let k: int = n - 1;
        assert(received[k as u32] == parts[k]);
    }
}

/// What the sender splits, the assembler puts back together: when every
/// chunk of a split of `data` was received under its index, the reassembled
/// payload is `data` (and its digest is the manifest's).
pub proof fn lemma_attachment_round_trip(data: Seq<u8>, size: nat, parts: Seq<Seq<u8>>, received: Map<u32, Seq<u8>>)
    requires
        is_split(data, size, parts),
        parts.len() <= u32::MAX,
        received_all(received, parts),
    ensures
        reassembled(received, parts.len()) == data,
        sha256_digest(reassembled(received, parts.len())) == sha256_digest(data),
{
    lemma_reassembled_is_joined(received, parts, parts.len());
    assert(parts.take(parts.len() as int) =~= parts);
}

/// The received chunks after pushing `c` (index, data) into `received`
/// for an attachment of `count` chunks, as [`AttachmentAssembler::push`]
/// does: an index in range that was not received yet is recorded, anything
/// else changes nothing.
pub open spec fn push_step(received: Map<u32, Seq<u8>>, count: u32, c: (u32, Seq<u8>)) -> Map<u32, Seq<u8>> {
    if c.0 < count && !received.contains_key(c.0) {
        received.insert(c.0, c.1)
    } else {
        received
    }
}

/// The received chunks after pushing each of `pushes` in turn into a new
/// assembler for `count` chunks.
pub open spec fn pushed(count: u32, pushes: Seq<(u32, Seq<u8>)>) -> Map<u32, Seq<u8>>
    decreases pushes.len(),
{
    if pushes.len() == 0 {
        Map::empty()
    } else {
        push_step(pushed(count, pushes.drop_last()), count, pushes.last())
    }
}

/// Every push is a genuine chunk of `parts`: its index is in range and its
/// data is that chunk's.
pub open spec fn genuine_pushes(parts: Seq<Seq<u8>>, pushes: Seq<(u32, Seq<u8>)>) -> bool {
    forall|j: int|
        0 <= j < pushes.len() ==> (#[trigger] pushes[j]).0 < parts.len() && pushes[j].1
            == parts[pushes[j].0 as int]
}

proof fn lemma_pushed_genuine(parts: Seq<Seq<u8>>, pushes: Seq<(u32, Seq<u8>)>)
    requires
        parts.len() <= u32::MAX,
        genuine_pushes(parts, pushes),
    ensures
        forall|k: u32| #[trigger]
            pushed(parts.len() as u32, pushes).contains_key(k) ==> k < parts.len() && pushed(
                parts.len() as u32,
                pushes,
            )[k] == parts[k as int],
        forall|j: int|
            0 <= j < pushes.len() ==> pushed(parts.len() as u32, pushes).contains_key(#[trigger] pushes[j].0),
    decreases pushes.len(),
{
    if pushes.len() > 0 {
        let p = pushes.drop_last();
        assert forall|j: int| 0 <= j < p.len() implies (#[trigger] p[j]).0 < parts.len() && p[j].1
            == parts[p[j].0 as int] by {
            assert(p[j] == pushes[j]);
        }
        lemma_pushed_genuine(parts, p);
        assert(pushes[pushes.len() - 1] == pushes.last());
        let n = parts.len() as u32;
        let c = pushes.last();
        assert forall|k: u32| #[trigger] pushed(n, pushes).contains_key(k) implies k < parts.len() && pushed(
            n,
            pushes,
        )[k] == parts[k as int] by {
            if !pushed(n, p).contains_key(c.0) && c.0 < n && k == c.0 {
                assert(pushed(n, pushes)[k] == c.1);
            } else {
                assert(pushed(n, p).contains_key(k));
            }
        }
        assert forall|j: int| 0 <= j < pushes.len() implies pushed(parts.len() as u32, pushes).contains_key(
            #[trigger] pushes[j].0,
        ) by {
            if j < pushes.len() - 1 {
                assert(p[j] == pushes[j]);
            }
        }
    }
}

/// Some push carries index `i`.
pub open spec fn index_pushed(pushes: Seq<(u32, Seq<u8>)>, i: int) -> bool {
    exists|j: int| 0 <= j < pushes.len() && #[trigger] pushes[j].0 == i
}

/// Chunks pushed in any order, any of them more than once, reassemble the
/// attachment: when every push is a genuine chunk of a split of `data` and
/// every chunk index was pushed at least once, the assembler holds exactly
/// the indices below the chunk count (so nothing is missing) and the
/// reassembled payload is `data`.
pub proof fn lemma_any_order_reassembles(
    data: Seq<u8>,
    size: nat,
    parts: Seq<Seq<u8>>,
    pushes: Seq<(u32, Seq<u8>)>,
)
    requires
        is_split(data, size, parts),
        parts.len() <= u32::MAX,
        genuine_pushes(parts, pushes),
        forall|i: int| 0 <= i < parts.len() ==> #[trigger] index_pushed(pushes, i),
    ensures
        pushed(parts.len() as u32, pushes).dom() == below(parts.len() as u32),
        pushed(parts.len() as u32, pushes).dom().len() == parts.len(),
        reassembled(pushed(parts.len() as u32, pushes), parts.len()) == data,
{
    let n = parts.len() as u32;
    let r = pushed(n, pushes);
    lemma_pushed_genuine(parts, pushes);
    assert forall|k: u32| #[trigger] below(n).contains(k) implies r.contains_key(k) by {
        assert(index_pushed(pushes, k as int));
        let j = choose|j: int| 0 <= j < pushes.len() && #[trigger] pushes[j].0 == k as int;
        assert(r.contains_key(pushes[j].0));
    }
    assert(r.dom() =~= below(n));
    lemma_below_len(n);
    assert forall|i: int| 0 <= i < parts.len() implies r.contains_key(i as u32) && #[trigger] r[i as u32]
        == parts[i] by {
        assert(below(n).contains(i as u32));
    }
    lemma_attachment_round_trip(data, size, parts, r);
}

} // verus!

//! Public parameter store: the codec for the two setup artifacts.
//!
//! An offline setup run produces two artifacts — the public parameters and
//! the public values — that every relay instance loads read-only at startup.
//! The store persists each as one self-describing byte stream: a fixed
//! header naming the artifact kind and the format version, the payload
//! length, then the payload itself.  Reading rejects anything that does not
//! match byte for byte, so a kind or version mismatch surfaces as
//! `CorruptArtifact` rather than as silent misbehaviour downstream.
//!
//! The file system itself is driven by the surrounding process; this module
//! owns the bytes.

use vstd::prelude::*;
use vstd::bytes::*;
use vstd::slice::{slice_index_get, slice_subrange, slice_to_vec};

verus! {

/// First magic byte of every stored artifact.
pub const MAGIC_0: u8 = 0x50;

/// Second magic byte of every stored artifact.
pub const MAGIC_1: u8 = 0x52;

/// Version of the on-disk artifact format.
pub const FORMAT_VERSION: u8 = 1;

/// Bytes of header before the payload: two magic bytes, the kind byte, the
/// format version, and a four-byte little-endian payload length.
pub const HEADER_LEN: usize = 8;

/// Largest payload the four-byte length field can carry.
pub const MAX_PAYLOAD_LEN: u64 = 0xFFFF_FFFF;

/// The two artifacts the store knows, tagged in the header so that one can
/// never be loaded in place of the other.
#[derive(Clone, Copy, PartialEq, Eq, Structural, Debug)]
pub enum ArtifactKind {
    Parameters,
    Values,
}

/// How loading an artifact fails.
///
/// `NotFound` and `Io` are reported by the process that reads the disk;
/// decoding itself fails only with `CorruptArtifact`.  A loading failure is
/// fatal to the relay: without the artifacts there is nothing to verify
/// against, so the service refuses to start rather than degrade.
#[derive(Clone, Copy, PartialEq, Eq, Structural, Debug)]
pub enum StoreError {
    NotFound,
    Io,
    CorruptArtifact,
}

/// The opaque verification artifact produced once by setup, immutable
/// afterwards.
pub struct PublicParameters {
    pub bytes: Vec<u8>,
}

/// The public outputs a proof is bound to, paired with the parameters used
/// to verify it.
pub struct PublicValues {
    pub bytes: Vec<u8>,
}

impl View for PublicParameters {
    type V = Seq<u8>;

    open spec fn view(&self) -> Seq<u8> {
        self.bytes@
    }
}

impl View for PublicValues {
    type V = Seq<u8>;

    open spec fn view(&self) -> Seq<u8> {
        self.bytes@
    }
}

/// Header byte that names an artifact kind.
pub open spec fn spec_kind_byte(kind: ArtifactKind) -> u8 {
    match kind {
        ArtifactKind::Parameters => 1,
        ArtifactKind::Values => 2,
    }
}

/// The exact byte stream that `encode_artifact` writes for this kind and
/// payload.
pub open spec fn spec_encode_artifact(kind: ArtifactKind, payload: Seq<u8>) -> Seq<u8> {
    seq![MAGIC_0, MAGIC_1, spec_kind_byte(kind), FORMAT_VERSION]
        + spec_u32_to_le_bytes(payload.len() as u32) + payload
}

/// What decoding a stored byte stream yields: the payload when the stream is
/// exactly an encoding for this kind, nothing otherwise.
pub open spec fn spec_decode_artifact(kind: ArtifactKind, b: Seq<u8>) -> Option<Seq<u8>> {
    if b.len() >= HEADER_LEN && b[0] == MAGIC_0 && b[1] == MAGIC_1 && b[2] == spec_kind_byte(kind)
        && b[3] == FORMAT_VERSION && spec_u32_from_le_bytes(
        b.subrange(4, 8),
    ) == b.len() - HEADER_LEN {
        Some(b.skip(HEADER_LEN as int))
    } else {
        None
    }
}

fn kind_byte(kind: ArtifactKind) -> (r: u8)
    ensures
        r == spec_kind_byte(kind),
{
    match kind {
        ArtifactKind::Parameters => 1,
        ArtifactKind::Values => 2,
    }
}

/// Serialize one artifact payload for durable storage.
pub fn encode_artifact(kind: ArtifactKind, payload: &Vec<u8>) -> (r: Vec<u8>)
    requires
        payload@.len() <= MAX_PAYLOAD_LEN,
        payload@.len() + HEADER_LEN <= usize::MAX,
    ensures
        r@ == spec_encode_artifact(kind, payload@),
{
    let mut out: Vec<u8> = Vec::new();
    out.push(MAGIC_0);
    out.push(MAGIC_1);
    out.push(kind_byte(kind));
    out.push(FORMAT_VERSION);
    let mut len_bytes = u32_to_le_bytes(payload.len() as u32);
    out.append(&mut len_bytes);
    let mut body = slice_to_vec(payload.as_slice());
    out.append(&mut body);
    proof {
        assert(out@ =~= spec_encode_artifact(kind, payload@));
    }
    out
}

/// Deserialize a stored byte stream back into the payload of the expected
/// artifact kind.
///
/// Succeeds exactly on the streams `encode_artifact` produces for this kind;
/// every other stream — wrong magic, wrong kind, wrong version, wrong
/// length — is reported as `CorruptArtifact`.
pub fn decode_artifact(kind: ArtifactKind, b: &[u8]) -> (r: Result<Vec<u8>, StoreError>)
    ensures
        match r {
            Ok(payload) => spec_decode_artifact(kind, b@) == Some(payload@),
            Err(e) => spec_decode_artifact(kind, b@) is None && e == StoreError::CorruptArtifact,
        },
{
    if b.len() < HEADER_LEN {
        return Err(StoreError::CorruptArtifact);
    }
    if *slice_index_get(b, 0) != MAGIC_0 || *slice_index_get(b, 1) != MAGIC_1 {
        return Err(StoreError::CorruptArtifact);
    }
    if *slice_index_get(b, 2) != kind_byte(kind) {
        return Err(StoreError::CorruptArtifact);
    }
    if *slice_index_get(b, 3) != FORMAT_VERSION {
        return Err(StoreError::CorruptArtifact);
    }
    let len_field = u32_from_le_bytes(slice_subrange(b, 4, 8));
    if len_field as usize != b.len() - HEADER_LEN {
        return Err(StoreError::CorruptArtifact);
    }
    let payload = slice_to_vec(slice_subrange(b, HEADER_LEN, b.len()));
    proof {
        assert(payload@ =~= b@.skip(HEADER_LEN as int));
    }
    Ok(payload)
}

/// Round trip of the store: loading what was saved yields the payload that
/// was given, for every artifact kind and every payload the format can hold.
pub proof fn lemma_artifact_round_trip(kind: ArtifactKind, payload: Seq<u8>)
    requires
        payload.len() <= MAX_PAYLOAD_LEN,
    ensures
        spec_decode_artifact(kind, spec_encode_artifact(kind, payload)) == Some(payload),
{
    lemma_auto_spec_u32_to_from_le_bytes();
    let e = spec_encode_artifact(kind, payload);
    assert(e.subrange(4, 8) =~= spec_u32_to_le_bytes(payload.len() as u32));
    assert(e.skip(HEADER_LEN as int) =~= payload);
}

/// The store codec is strict: a stream that decodes at all is byte for byte
/// the encoding of what it decodes to.  Nothing else — no trailing garbage,
/// no foreign header — is accepted.
pub proof fn lemma_artifact_decode_exact(kind: ArtifactKind, b: Seq<u8>, payload: Seq<u8>)
    requires
        spec_decode_artifact(kind, b) == Some(payload),
    ensures
        b == spec_encode_artifact(kind, payload),
        payload.len() <= MAX_PAYLOAD_LEN,
{
    lemma_auto_spec_u32_to_from_le_bytes();
    assert(spec_u32_to_le_bytes(spec_u32_from_le_bytes(b.subrange(4, 8))) == b.subrange(4, 8));
    assert(b =~= spec_encode_artifact(kind, payload));
}

/// A stream written for one artifact kind never loads as the other.
pub proof fn lemma_artifact_kinds_disjoint(k1: ArtifactKind, k2: ArtifactKind, payload: Seq<u8>)
    requires
        k1 != k2,
        payload.len() <= MAX_PAYLOAD_LEN,
    ensures
        spec_decode_artifact(k2, spec_encode_artifact(k1, payload)) is None,
{
}

impl PublicParameters {
    /// The byte stream under which the parameters are persisted.
    pub fn save(&self) -> (r: Vec<u8>)
        requires
            self@.len() <= MAX_PAYLOAD_LEN,
            self@.len() + HEADER_LEN <= usize::MAX,
        ensures
            r@ == spec_encode_artifact(ArtifactKind::Parameters, self@),
    {
        encode_artifact(ArtifactKind::Parameters, &self.bytes)
    }

    /// Reconstruct the parameters from a persisted byte stream.
    pub fn load(b: &[u8]) -> (r: Result<PublicParameters, StoreError>)
        ensures
            match r {
                Ok(p) => spec_decode_artifact(ArtifactKind::Parameters, b@) == Some(p@),
                Err(e) => spec_decode_artifact(ArtifactKind::Parameters, b@) is None && e
                    == StoreError::CorruptArtifact,
            },
    {
        match decode_artifact(ArtifactKind::Parameters, b) {
            Ok(bytes) => Ok(PublicParameters { bytes }),
            Err(e) => Err(e),
        }
    }
}

impl PublicValues {
    /// The byte stream under which the public values are persisted.
    pub fn save(&self) -> (r: Vec<u8>)
        requires
            self@.len() <= MAX_PAYLOAD_LEN,
            self@.len() + HEADER_LEN <= usize::MAX,
        ensures
            r@ == spec_encode_artifact(ArtifactKind::Values, self@),
    {
        encode_artifact(ArtifactKind::Values, &self.bytes)
    }

    /// Reconstruct the public values from a persisted byte stream.
    pub fn load(b: &[u8]) -> (r: Result<PublicValues, StoreError>)
        ensures
            match r {
                Ok(v) => spec_decode_artifact(ArtifactKind::Values, b@) == Some(v@),
                Err(e) => spec_decode_artifact(ArtifactKind::Values, b@) is None && e
                    == StoreError::CorruptArtifact,
            },
    {
        match decode_artifact(ArtifactKind::Values, b) {
            Ok(bytes) => Ok(PublicValues { bytes }),
            Err(e) => Err(e),
        }
    }
}

} // verus!

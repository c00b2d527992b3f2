//! The artifact codec: how proving keys, proofs and public inputs travel as
//! byte buffers.
//!
//! An artifact is opaque to the session. It is the byte string the proving
//! engine produced, and the codec wraps it in a frame that says what it is and
//! how long it is:
//!
//! | offset | size | content                                            |
//! |--------|------|----------------------------------------------------|
//! | 0      | 4    | the marker [`FRAME_MAGIC`], little-endian (`MPRO`) |
//! | 4      | 1    | the kind of artifact, see [`ArtifactKind::tag`]    |
//! | 5      | 8    | the payload length in bytes, little-endian         |
//! | 13     | n    | the payload                                        |
//!
//! Nothing follows the payload. A buffer is accepted only if it is exactly the
//! frame of some payload, so every artifact has one encoding.

use crate::error::DecodeError;
use vstd::bytes::*;
use vstd::prelude::*;
use vstd::slice::*;

verus! {

/// The marker every frame starts with. In little-endian order its bytes are
/// the ASCII letters `MPRO`.
pub const FRAME_MAGIC: u32 = 0x4f52_504d;

/// The number of bytes in front of the payload.
pub const HEADER_LEN: usize = 13;

/// The three kinds of artifact a session exchanges with its callers.
#[derive(Debug, Clone, Copy, PartialEq, Eq, Structural)]
pub enum ArtifactKind {
    ProvingKey,
    Proof,
    PublicInputs,
}

impl ArtifactKind {
    /// The byte that stands for this kind in a frame header.
    pub open spec fn spec_tag(self) -> u8 {
        match self {
            ArtifactKind::ProvingKey => 1,
            ArtifactKind::Proof => 2,
            ArtifactKind::PublicInputs => 3,
        }
    }

    /// The byte that stands for this kind in a frame header.
    #[verifier::when_used_as_spec(spec_tag)]
    pub fn tag(self) -> (tag: u8)
        ensures
            tag == self.spec_tag(),
    {
        match self {
            ArtifactKind::ProvingKey => 1,
            ArtifactKind::Proof => 2,
            ArtifactKind::PublicInputs => 3,
        }
    }
}

/// A circuit's proving key, as the proving engine wrote it.
#[derive(Debug)]
pub struct ProvingKey {
    pub bytes: Vec<u8>,
}

/// A proof, as the proving engine wrote it.
#[derive(Debug)]
pub struct Proof {
    pub bytes: Vec<u8>,
}

/// The public inputs that go with a proof, as the proving engine wrote them.
#[derive(Debug)]
pub struct PublicInputs {
    pub bytes: Vec<u8>,
}

impl View for ProvingKey {
    type V = Seq<u8>;

    open spec fn view(&self) -> Seq<u8> {
        self.bytes@
    }
}

impl View for Proof {
    type V = Seq<u8>;

    open spec fn view(&self) -> Seq<u8> {
        self.bytes@
    }
}

impl View for PublicInputs {
    type V = Seq<u8>;

    open spec fn view(&self) -> Seq<u8> {
        self.bytes@
    }
}

impl Clone for ProvingKey {
    fn clone(&self) -> (copy: Self)
        ensures
            copy@ == self@,
    {
        ProvingKey { bytes: self.bytes.clone() }
    }
}

impl Clone for Proof {
    fn clone(&self) -> (copy: Self)
        ensures
            copy@ == self@,
    {
        Proof { bytes: self.bytes.clone() }
    }
}

impl Clone for PublicInputs {
    fn clone(&self) -> (copy: Self)
        ensures
            copy@ == self@,
    {
        PublicInputs { bytes: self.bytes.clone() }
    }
}

/// The frame of `payload` as an artifact of the given kind.
pub open spec fn frame(kind: ArtifactKind, payload: Seq<u8>) -> Seq<u8> {
    spec_u32_to_le_bytes(FRAME_MAGIC) + seq![kind.spec_tag()] + spec_u64_to_le_bytes(
        payload.len() as u64,
    ) + payload
}

/// What decoding `bytes` as an artifact of the given kind gives: the payload,
/// or the first reason why `bytes` is not such a frame.
pub open spec fn parse_frame(kind: ArtifactKind, bytes: Seq<u8>) -> Result<Seq<u8>, DecodeError> {
    if bytes.len() < HEADER_LEN {
        Err(DecodeError::Truncated)
    } else if spec_u32_from_le_bytes(bytes.subrange(0, 4)) != FRAME_MAGIC {
        Err(DecodeError::BadMagic)
    } else if bytes[4] != kind.spec_tag() {
        Err(DecodeError::WrongKind)
    } else if spec_u64_from_le_bytes(bytes.subrange(5, HEADER_LEN as int)) != bytes.len()
        - HEADER_LEN {
        Err(DecodeError::LengthMismatch)
    } else {
        Ok(bytes.subrange(HEADER_LEN as int, bytes.len() as int))
    }
}

/// Decoding the frame of a payload gives the payload back, for every kind of
/// artifact and every payload whose length fits the header's length field.
pub proof fn lemma_parse_frame_of_frame(kind: ArtifactKind, payload: Seq<u8>)
    requires
        payload.len() <= u64::MAX,
    ensures
        parse_frame(kind, frame(kind, payload)) == Ok::<Seq<u8>, DecodeError>(payload),
{
    lemma_auto_spec_u32_to_from_le_bytes();
    lemma_auto_spec_u64_to_from_le_bytes();
    let bytes = frame(kind, payload);
    assert(bytes.subrange(0, 4) =~= spec_u32_to_le_bytes(FRAME_MAGIC));
    assert(bytes.subrange(5, HEADER_LEN as int) =~= spec_u64_to_le_bytes(payload.len() as u64));
    assert(bytes.subrange(HEADER_LEN as int, bytes.len() as int) =~= payload);
}

/// A buffer that decodes is the frame of what it decodes to: no two buffers
/// stand for the same artifact.
pub proof fn lemma_frame_of_parse_frame(kind: ArtifactKind, bytes: Seq<u8>)
    requires
        parse_frame(kind, bytes) is Ok,
    ensures
        frame(kind, parse_frame(kind, bytes)->Ok_0) == bytes,
{
    lemma_auto_spec_u32_to_from_le_bytes();
    lemma_auto_spec_u64_to_from_le_bytes();
    assert(frame(kind, parse_frame(kind, bytes)->Ok_0) =~= bytes);
}

/// A frame of one kind is never accepted as another kind.
pub proof fn lemma_kinds_do_not_mix(written: ArtifactKind, expected: ArtifactKind, payload: Seq<u8>)
    requires
        written != expected,
    ensures
        parse_frame(expected, frame(written, payload)) == Err::<Seq<u8>, DecodeError>(
            DecodeError::WrongKind,
        ),
{
    lemma_auto_spec_u32_to_from_le_bytes();
    lemma_auto_spec_u64_to_from_le_bytes();
    let bytes = frame(written, payload);
    assert(bytes.subrange(0, 4) =~= spec_u32_to_le_bytes(FRAME_MAGIC));
}

/// Writes the frame of `payload` as an artifact of the given kind. What is
/// written decodes to the payload.
pub fn encode_frame(kind: ArtifactKind, payload: &[u8]) -> (out: Vec<u8>)
    ensures
        out@ == frame(kind, payload@),
        parse_frame(kind, out@) == Ok::<Seq<u8>, DecodeError>(payload@),
{
    let mut out = u32_to_le_bytes(FRAME_MAGIC);
    out.push(kind.tag());
    let mut length = u64_to_le_bytes(payload.len() as u64);
    out.append(&mut length);
    out.extend_from_slice(payload);
    proof {
        assert(out@ =~= frame(kind, payload@));
        lemma_parse_frame_of_frame(kind, payload@);
    }
    out
}

/// Reads `bytes` as the frame of an artifact of the given kind and returns
/// the payload.
pub fn decode_frame(kind: ArtifactKind, bytes: Vec<u8>) -> (outcome: Result<Vec<u8>, DecodeError>)
    ensures
        match outcome {
            Ok(payload) => parse_frame(kind, bytes@) == Ok::<Seq<u8>, DecodeError>(payload@),
            Err(reason) => parse_frame(kind, bytes@) == Err::<Seq<u8>, DecodeError>(reason),
        },
{
    let mut bytes = bytes;
    if bytes.len() < HEADER_LEN {
        return Err(DecodeError::Truncated);
    }
    let magic = u32_from_le_bytes(slice_subrange(bytes.as_slice(), 0, 4));
    if magic != FRAME_MAGIC {
        return Err(DecodeError::BadMagic);
    }
    if bytes[4] != kind.tag() {
        return Err(DecodeError::WrongKind);
    }
    let declared = u64_from_le_bytes(slice_subrange(bytes.as_slice(), 5, HEADER_LEN));
    if declared != (bytes.len() - HEADER_LEN) as u64 {
        return Err(DecodeError::LengthMismatch);
    }
    let payload = bytes.split_off(HEADER_LEN);
    Ok(payload)
}

/// The frame of a proving key. It decodes to the key.
pub fn serialize_proving_key(key: &ProvingKey) -> (out: Vec<u8>)
    ensures
        out@ == frame(ArtifactKind::ProvingKey, key@),
        parse_frame(ArtifactKind::ProvingKey, out@) == Ok::<Seq<u8>, DecodeError>(key@),
{
    encode_frame(ArtifactKind::ProvingKey, key.bytes.as_slice())
}

/// The frame of a proof. It decodes to the proof.
pub fn serialize_proof(proof: &Proof) -> (out: Vec<u8>)
    ensures
        out@ == frame(ArtifactKind::Proof, proof@),
        parse_frame(ArtifactKind::Proof, out@) == Ok::<Seq<u8>, DecodeError>(proof@),
{
    encode_frame(ArtifactKind::Proof, proof.bytes.as_slice())
}

/// The frame of a proof's public inputs. It decodes to the public inputs.
pub fn serialize_inputs(inputs: &PublicInputs) -> (out: Vec<u8>)
    ensures
        out@ == frame(ArtifactKind::PublicInputs, inputs@),
        parse_frame(ArtifactKind::PublicInputs, out@) == Ok::<Seq<u8>, DecodeError>(inputs@),
{
    encode_frame(ArtifactKind::PublicInputs, inputs.bytes.as_slice())
}

/// Reads a proving key from its frame.
pub fn deserialize_proving_key(bytes: Vec<u8>) -> (outcome: Result<ProvingKey, DecodeError>)
    ensures
        match outcome {
            Ok(key) => parse_frame(ArtifactKind::ProvingKey, bytes@) == Ok::<
                Seq<u8>,
                DecodeError,
            >(key@),
            Err(reason) => parse_frame(ArtifactKind::ProvingKey, bytes@) == Err::<
                Seq<u8>,
                DecodeError,
            >(reason),
        },
{
    match decode_frame(ArtifactKind::ProvingKey, bytes) {
        Ok(payload) => Ok(ProvingKey { bytes: payload }),
        Err(reason) => Err(reason),
    }
}

/// Reads a proof from its frame.
pub fn deserialize_proof(bytes: Vec<u8>) -> (outcome: Result<Proof, DecodeError>)
    ensures
        match outcome {
            Ok(proof) => parse_frame(ArtifactKind::Proof, bytes@) == Ok::<Seq<u8>, DecodeError>(
                proof@,
            ),
            Err(reason) => parse_frame(ArtifactKind::Proof, bytes@) == Err::<Seq<u8>, DecodeError>(
                reason,
            ),
        },
{
    match decode_frame(ArtifactKind::Proof, bytes) {
        Ok(payload) => Ok(Proof { bytes: payload }),
        Err(reason) => Err(reason),
    }
}

/// Reads public inputs from their frame.
pub fn deserialize_inputs(bytes: Vec<u8>) -> (outcome: Result<PublicInputs, DecodeError>)
    ensures
        match outcome {
            Ok(inputs) => parse_frame(ArtifactKind::PublicInputs, bytes@) == Ok::<
                Seq<u8>,
                DecodeError,
            >(inputs@),
            Err(reason) => parse_frame(ArtifactKind::PublicInputs, bytes@) == Err::<
                Seq<u8>,
                DecodeError,
            >(reason),
        },
{
    match decode_frame(ArtifactKind::PublicInputs, bytes) {
        Ok(payload) => Ok(PublicInputs { bytes: payload }),
        Err(reason) => Err(reason),
    }
}

} // verus!

//! The canonical wire encodings: 32 bytes for a commitment or a handle, 64
//! bytes for a ciphertext (the commitment first, then the handle).
//!
//! Compressing always succeeds. Decompressing is the one step that can fail:
//! bytes read from the network or from disk need not encode a group element.

use vstd::prelude::*;
use crate::bytes::bytes_equal;
use crate::crypto::elgamal::ciphertext::Ciphertext;
use crate::crypto::elgamal::ciphertext::CiphertextValue;
use crate::crypto::elgamal::group::{ristretto_decoding, ristretto_decompress, ristretto_encoding};
use crate::crypto::elgamal::pedersen::DecryptHandle;
use crate::crypto::elgamal::pedersen::PedersenCommitment;

verus! {

/// Length in bytes of one encoded group element.
pub const RISTRETTO_COMPRESSED_SIZE: usize = 32;

/// Length in bytes of an encoded ciphertext.
pub const CIPHERTEXT_COMPRESSED_SIZE: usize = 64;

/// The bytes that were read are not the canonical encoding of a group
/// element.
#[derive(Clone, Copy, Debug, PartialEq, Eq, Structural)]
pub struct DecompressionError;

/// A commitment in its 32-byte wire form.
#[derive(Clone, Copy, Debug)]
pub struct CompressedCommitment {
    bytes: [u8; 32],
}

impl View for CompressedCommitment {
    type V = Seq<u8>;

    /// The 32 bytes.
    closed spec fn view(&self) -> Seq<u8> {
        self.bytes@
    }
}

impl CompressedCommitment {
    /// Takes 32 bytes as an encoded commitment, without checking them.
    pub fn new(bytes: [u8; 32]) -> (r: Self)
        ensures
            r@ == bytes@,
    {
        CompressedCommitment { bytes }
    }

    /// The encoding, borrowed.
    pub fn as_bytes(&self) -> (r: &[u8; 32])
        ensures
            r@ == self@,
    {
        &self.bytes
    }

    /// The encoding, copied.
    pub fn to_bytes(&self) -> (r: [u8; 32])
        ensures
            r@ == self@,
    {
        self.bytes
    }

    /// The group element that the bytes encode, if they encode one.
    pub open spec fn spec_decompress(&self) -> Option<int> {
        ristretto_decoding(self@)
    }

    /// Decodes the commitment. Fails exactly when the bytes are not the
    /// canonical encoding of a group element; on success the commitment
    /// compresses to the same bytes again.
    pub fn decompress(&self) -> (r: Result<PedersenCommitment, DecompressionError>)
        ensures
            match r {
                Ok(commitment) => self.spec_decompress() == Some(commitment@)
                    && ristretto_encoding(commitment@) == self@,
                Err(_) => self.spec_decompress() is None,
            },
    {
        match ristretto_decompress(&self.bytes) {
            Some(point) => Ok(PedersenCommitment::from_point(point)),
            None => Err(DecompressionError),
        }
    }

    /// An encoding is always 32 bytes long.
    pub proof fn lemma_len(self)
        ensures
            self@.len() == 32,
    {
    }
}

impl PartialEq for CompressedCommitment {
    /// Byte-for-byte equality. The encoding is canonical, so equal group
    /// elements have equal encodings.
    fn eq(&self, other: &Self) -> (r: bool) {
        bytes_equal(&self.bytes, &other.bytes)
    }
}

impl vstd::std_specs::cmp::PartialEqSpecImpl for CompressedCommitment {
    open spec fn obeys_eq_spec() -> bool {
        true
    }

    open spec fn eq_spec(&self, other: &Self) -> bool {
        self@ == other@
    }
}

impl Eq for CompressedCommitment {
}

/// A decrypt handle in its 32-byte wire form.
#[derive(Clone, Copy, Debug)]
pub struct CompressedHandle {
    bytes: [u8; 32],
}

impl View for CompressedHandle {
    type V = Seq<u8>;

    /// The 32 bytes.
    closed spec fn view(&self) -> Seq<u8> {
        self.bytes@
    }
}

impl CompressedHandle {
    /// Takes 32 bytes as an encoded handle, without checking them.
    pub fn new(bytes: [u8; 32]) -> (r: Self)
        ensures
            r@ == bytes@,
    {
        CompressedHandle { bytes }
    }

    /// The encoding, borrowed.
    pub fn as_bytes(&self) -> (r: &[u8; 32])
        ensures
            r@ == self@,
    {
        &self.bytes
    }

    /// The encoding, copied.
    pub fn to_bytes(&self) -> (r: [u8; 32])
        ensures
            r@ == self@,
    {
        self.bytes
    }

    /// The group element that the bytes encode, if they encode one.
    pub open spec fn spec_decompress(&self) -> Option<int> {
        ristretto_decoding(self@)
    }

    /// Decodes the handle. Fails exactly when the bytes are not the canonical
    /// encoding of a group element; on success the handle compresses to the
    /// same bytes again.
    pub fn decompress(&self) -> (r: Result<DecryptHandle, DecompressionError>)
        ensures
            match r {
                Ok(handle) => self.spec_decompress() == Some(handle@)
                    && ristretto_encoding(handle@) == self@,
                Err(_) => self.spec_decompress() is None,
            },
    {
        match ristretto_decompress(&self.bytes) {
            Some(point) => Ok(DecryptHandle::from_point(point)),
            None => Err(DecompressionError),
        }
    }

    /// An encoding is always 32 bytes long.
    pub proof fn lemma_len(self)
        ensures
            self@.len() == 32,
    {
    }
}

impl PartialEq for CompressedHandle {
    /// Byte-for-byte equality. The encoding is canonical, so equal group
    /// elements have equal encodings.
    fn eq(&self, other: &Self) -> (r: bool) {
        bytes_equal(&self.bytes, &other.bytes)
    }
}

impl vstd::std_specs::cmp::PartialEqSpecImpl for CompressedHandle {
    open spec fn obeys_eq_spec() -> bool {
        true
    }

    open spec fn eq_spec(&self, other: &Self) -> bool {
        self@ == other@
    }
}

impl Eq for CompressedHandle {
}

/// A ciphertext in its 64-byte wire form.
#[derive(Clone, Copy, Debug)]
pub struct CompressedCiphertext {
    commitment: CompressedCommitment,
    handle: CompressedHandle,
}

impl View for CompressedCiphertext {
    type V = Seq<u8>;

    /// The 64 bytes: the commitment's encoding followed by the handle's.
    closed spec fn view(&self) -> Seq<u8> {
        self.commitment@ + self.handle@
    }
}

impl CompressedCiphertext {
    /// Pairs an encoded commitment with an encoded handle.
    pub fn new(commitment: CompressedCommitment, handle: CompressedHandle) -> (r: Self)
        ensures
            r@ == commitment@ + handle@,
    {
        CompressedCiphertext { commitment, handle }
    }

    /// The encoded commitment: the first 32 bytes.
    pub fn commitment(&self) -> (r: &CompressedCommitment)
        ensures
            r@ == self@.subrange(0, 32),
    {
        proof {
            self.commitment.lemma_len();
            assert((self.commitment@ + self.handle@).subrange(0, 32) =~= self.commitment@);
        }
        &self.commitment
    }

    /// The encoded handle: the last 32 bytes.
    pub fn handle(&self) -> (r: &CompressedHandle)
        ensures
            r@ == self@.subrange(32, 64),
    {
        proof {
            self.commitment.lemma_len();
            self.handle.lemma_len();
            assert((self.commitment@ + self.handle@).subrange(32, 64) =~= self.handle@);
        }
        &self.handle
    }

    /// Splits 64 bytes into an encoded commitment and an encoded handle,
    /// without checking them.
    pub fn from_bytes(bytes: &[u8; 64]) -> (r: Self)
        ensures
            r@ == bytes@,
    {
        let mut commitment = [0u8; 32];
        let mut handle = [0u8; 32];
        let mut i: usize = 0;
        while i < 32
            invariant
                i <= 32,
                forall|j: int| 0 <= j < i ==> commitment@[j] == bytes@[j],
                forall|j: int| 0 <= j < i ==> handle@[j] == bytes@[32 + j],
            decreases 32 - i,
        {
            commitment[i] = bytes[i];
            handle[i] = bytes[32 + i];
            i += 1;
        }
        assert(commitment@ + handle@ =~= bytes@);
        CompressedCiphertext {
            commitment: CompressedCommitment::new(commitment),
            handle: CompressedHandle::new(handle),
        }
    }

    /// The 64 bytes of the encoding.
    pub fn to_bytes(&self) -> (r: [u8; 64])
        ensures
            r@ == self@,
    {
        let mut bytes = [0u8; 64];
        let commitment = self.commitment.as_bytes();
        let handle = self.handle.as_bytes();
        let mut i: usize = 0;
        while i < 32
            invariant
                i <= 32,
                commitment@ == self.commitment@,
                handle@ == self.handle@,
                forall|j: int| 0 <= j < i ==> bytes@[j] == commitment@[j],
                forall|j: int| 0 <= j < i ==> bytes@[32 + j] == handle@[j],
            decreases 32 - i,
        {
            bytes[i] = commitment[i];
            bytes[32 + i] = handle[i];
            i += 1;
        }
        assert(bytes@ =~= commitment@ + handle@);
        bytes
    }

    /// The ciphertext that the bytes encode: both halves must decode.
    pub open spec fn spec_decompress(&self) -> Option<CiphertextValue> {
        match (
            ristretto_decoding(self@.subrange(0, 32)),
            ristretto_decoding(self@.subrange(32, 64)),
        ) {
            (Some(commitment), Some(handle)) => Some(CiphertextValue { commitment, handle }),
            _ => None,
        }
    }

    /// Decodes the ciphertext. Fails exactly when one of the two halves is
    /// not the canonical encoding of a group element; a half that does not
    /// decode is never replaced by a default. On success the ciphertext
    /// compresses to the same bytes again.
    pub fn decompress(&self) -> (r: Result<Ciphertext, DecompressionError>)
        ensures
            match r {
                Ok(ciphertext) => {
                    &&& self.spec_decompress() == Some(ciphertext@)
                    &&& ristretto_encoding(ciphertext@.commitment) + ristretto_encoding(
                        ciphertext@.handle,
                    ) == self@
                },
                Err(_) => self.spec_decompress() is None,
            },
    {
        let commitment = match self.commitment().decompress() {
            Ok(commitment) => commitment,
            Err(e) => {
                return Err(e);
            },
        };
        let handle = match self.handle().decompress() {
            Ok(handle) => handle,
            Err(e) => {
                return Err(e);
            },
        };
        proof {
            self.lemma_len();
            assert(self@ =~= self@.subrange(0, 32) + self@.subrange(32, 64));
        }
        Ok(Ciphertext::new(commitment, handle))
    }

    /// An encoding is always 64 bytes long.
    pub proof fn lemma_len(self)
        ensures
            self@.len() == 64,
    {
        self.commitment.lemma_len();
        self.handle.lemma_len();
    }
}

impl PartialEq for CompressedCiphertext {
    /// Byte-for-byte equality.
    fn eq(&self, other: &Self) -> (r: bool) {
        proof {
            self.commitment.lemma_len();
            other.commitment.lemma_len();
            self.handle.lemma_len();
            other.handle.lemma_len();
            if self@ == other@ {
                assert(self.commitment@ =~= self@.subrange(0, 32));
                assert(other.commitment@ =~= other@.subrange(0, 32));
                assert(self.handle@ =~= self@.subrange(32, 64));
                assert(other.handle@ =~= other@.subrange(32, 64));
            }
        }
        self.commitment == other.commitment && self.handle == other.handle
    }
}

impl vstd::std_specs::cmp::PartialEqSpecImpl for CompressedCiphertext {
    open spec fn obeys_eq_spec() -> bool {
        true
    }

    open spec fn eq_spec(&self, other: &Self) -> bool {
        self@ == other@
    }
}

impl Eq for CompressedCiphertext {
}

} // verus!

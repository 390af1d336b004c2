//! 32-byte hashes and the proof-of-work hash function.
//!
//! The hash itself is computed by `xelis_hash`. It is a function of its
//! 200-byte input alone: the scratch pad is working memory that every call
//! overwrites before reading it.

use vstd::prelude::*;
use xelis_hash::xelis_hash;
use xelis_hash::AlignedInput;
use xelis_hash::ScratchPad;
use crate::bytes::bytes_equal;
use crate::serializer::Reader;
use crate::serializer::ReaderError;
use crate::serializer::Writer;

verus! {

/// Length in bytes of a hash.
pub const HASH_SIZE: usize = 32;

/// Length in bytes of the block that the proof-of-work hash takes in.
pub const POW_INPUT_SIZE: usize = 200;

/// `xelis_hash::ScratchPad`: the working memory of the hash function.
#[verifier::external_type_specification]
#[verifier::external_body]
pub struct ExScratchPad(xelis_hash::ScratchPad);

/// `xelis_hash::Error`: the failure of the hash function, which carries no
/// detail.
#[verifier::external_type_specification]
#[verifier::external_body]
pub struct ExHashError(xelis_hash::Error);

/// The 32 bytes that the proof-of-work hash function returns for an input of
/// 200 bytes.
pub uninterp spec fn xelis_pow_hash(input: Seq<u8>) -> Seq<u8>;

/// `xelis_hash::xelis_hash` on a copy of `input` in an `AlignedInput`. It fails
/// only on a buffer of the wrong length or alignment, and an `AlignedInput` has
/// 200 bytes at 8-byte alignment: a hash comes back, set by the bytes alone.
#[verifier::external_body]
pub(crate) fn xelis_hash_aligned(input: &[u8; 200], scratch_pad: &mut ScratchPad) -> (r: Result<
    [u8; 32],
    xelis_hash::Error,
>)
    ensures
        r is Ok,
        r matches Ok(hash) ==> hash@ == xelis_pow_hash(input@),
{
    let mut aligned = AlignedInput::default();
    let block = aligned.as_mut_slice()?;
    *block = *input;
    xelis_hash(block, scratch_pad)
}

/// The proof-of-work hash could not be computed.
#[derive(Clone, Copy, Debug, PartialEq, Eq, Structural)]
pub struct XelisHashError;

/// A 32-byte hash.
#[derive(Clone, Copy, Debug)]
pub struct Hash {
    bytes: [u8; 32],
}

impl View for Hash {
    type V = Seq<u8>;

    /// The 32 bytes.
    closed spec fn view(&self) -> Seq<u8> {
        self.bytes@
    }
}

impl Hash {
    /// Takes 32 bytes as a hash.
    pub fn new(bytes: [u8; 32]) -> (r: Self)
        ensures
            r@ == bytes@,
    {
        Hash { bytes }
    }

    /// The hash made of 32 zero bytes.
    pub fn zero() -> (r: Self)
        ensures
            r@ == Seq::new(32, |i: int| 0u8),
    {
        let r = Hash { bytes: [0u8; 32] };
        assert(r@ =~= Seq::new(32, |i: int| 0u8));
        r
    }

    /// The bytes, borrowed.
    pub fn as_bytes(&self) -> (r: &[u8; 32])
        ensures
            r@ == self@,
    {
        &self.bytes
    }

    /// The bytes, copied.
    pub fn to_bytes(&self) -> (r: [u8; 32])
        ensures
            r@ == self@,
    {
        self.bytes
    }

    /// Appends the 32 bytes to `writer`.
    pub fn write(&self, writer: &mut Writer)
        ensures
            final(writer)@ == old(writer)@ + self@,
    {
        writer.write_bytes(&self.bytes);
    }

    /// Reads the next 32 bytes as a hash. Fails with `InvalidSize`, reading
    /// nothing, exactly when fewer than 32 bytes are left.
    pub fn read(reader: &mut Reader) -> (r: Result<Self, ReaderError>)
        ensures
            final(reader).input() == old(reader).input(),
            match r {
                Ok(hash) => {
                    &&& old(reader).remaining().len() >= 32
                    &&& hash@ == old(reader).remaining().subrange(0, 32)
                    &&& final(reader).position() == old(reader).position() + 32
                },
                Err(e) => {
                    &&& e == ReaderError::InvalidSize
                    &&& old(reader).remaining().len() < 32
                    &&& final(reader).position() == old(reader).position()
                },
            },
    {
        reader.read_hash()
    }

    /// The number of bytes that `write` appends.
    pub fn size(&self) -> (r: usize)
        ensures
            r == 32,
    {
        HASH_SIZE
    }

    /// A hash is always 32 bytes long.
    pub proof fn lemma_len(self)
        ensures
            self@.len() == 32,
    {
    }
}

impl PartialEq for Hash {
    fn eq(&self, other: &Self) -> (r: bool) {
        bytes_equal(&self.bytes, &other.bytes)
    }
}

impl vstd::std_specs::cmp::PartialEqSpecImpl for Hash {
    open spec fn obeys_eq_spec() -> bool {
        true
    }

    open spec fn eq_spec(&self, other: &Self) -> bool {
        self@ == other@
    }
}

impl Eq for Hash {
}

/// What the hash function handed back, in the library's own types: its 32
/// bytes as a `Hash`, or its failure as a `XelisHashError`.
pub fn pow_hash_outcome(outcome: Result<[u8; 32], xelis_hash::Error>) -> (r: Result<
    Hash,
    XelisHashError,
>)
    ensures
        match outcome {
            Ok(bytes) => r matches Ok(hash) && hash@ == bytes@,
            Err(_) => r == Err::<Hash, XelisHashError>(XelisHashError),
        },
{
    match outcome {
        Ok(bytes) => Ok(Hash::new(bytes)),
        Err(_) => Err(XelisHashError),
    }
}

/// The proof-of-work hash of a 200-byte block: always `Ok`, with the hash of
/// exactly these bytes. `scratch_pad` is working memory and may hold
/// anything before and after.
pub fn pow_hash_with_scratch_pad(input: &[u8; 200], scratch_pad: &mut ScratchPad) -> (r: Result<
    Hash,
    XelisHashError,
>)
    ensures
        r matches Ok(hash) && hash@ == xelis_pow_hash(input@),
{
    pow_hash_outcome(xelis_hash_aligned(input, scratch_pad))
}

} // verus!

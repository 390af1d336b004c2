//! Public keys in their wire form.

use vstd::prelude::*;
use crate::bytes::bytes_equal;
use crate::serializer::Reader;
use crate::serializer::ReaderError;
use crate::serializer::Writer;

verus! {

/// A public key as the 32 bytes of its compressed group element. The bytes
/// are carried as they are; whether they encode a group element is only
/// found out when the key is used.
#[derive(Clone, Copy, Debug)]
pub struct PublicKey {
    bytes: [u8; 32],
}

impl View for PublicKey {
    type V = Seq<u8>;

    /// The 32 bytes.
    closed spec fn view(&self) -> Seq<u8> {
        self.bytes@
    }
}

impl PublicKey {
    /// Takes 32 bytes as a compressed public key.
    pub fn new(bytes: [u8; 32]) -> (r: Self)
        ensures
            r@ == bytes@,
    {
        PublicKey { bytes }
    }

    /// The bytes, borrowed.
    pub fn as_bytes(&self) -> (r: &[u8; 32])
        ensures
            r@ == self@,
    {
        &self.bytes
    }

    /// The bytes, copied.
    pub fn to_bytes(&self) -> (r: [u8; 32])
        ensures
            r@ == self@,
    {
        self.bytes
    }

    /// Appends the 32 bytes to `writer`.
    pub fn write(&self, writer: &mut Writer)
        ensures
            final(writer)@ == old(writer)@ + self@,
    {
        writer.write_bytes(&self.bytes);
    }

    /// Reads the next 32 bytes as a public key. Fails with `InvalidSize`,
    /// reading nothing, exactly when fewer than 32 bytes are left.
    pub fn read(reader: &mut Reader) -> (r: Result<Self, ReaderError>)
        ensures
            final(reader).input() == old(reader).input(),
            match r {
                Ok(key) => {
                    &&& old(reader).remaining().len() >= 32
                    &&& key@ == old(reader).remaining().subrange(0, 32)
                    &&& final(reader).position() == old(reader).position() + 32
                },
                Err(e) => {
                    &&& e == ReaderError::InvalidSize
                    &&& old(reader).remaining().len() < 32
                    &&& final(reader).position() == old(reader).position()
                },
            },
    {
        match reader.read_bytes_32() {
            Ok(bytes) => Ok(PublicKey::new(bytes)),
            Err(e) => Err(e),
        }
    }

    /// The number of bytes that `write` appends.
    pub fn size(&self) -> (r: usize)
        ensures
            r == 32,
    {
        32
    }

    /// A compressed key is always 32 bytes long.
    pub proof fn lemma_len(self)
        ensures
            self@.len() == 32,
    {
    }
}

impl PartialEq for PublicKey {
    fn eq(&self, other: &Self) -> (r: bool) {
        bytes_equal(&self.bytes, &other.bytes)
    }
}

impl vstd::std_specs::cmp::PartialEqSpecImpl for PublicKey {
    open spec fn obeys_eq_spec() -> bool {
        true
    }

    open spec fn eq_spec(&self, other: &Self) -> bool {
        self@ == other@
    }
}

impl Eq for PublicKey {
}

} // verus!

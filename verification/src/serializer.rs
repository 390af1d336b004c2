//! Reading and writing the wire format: fixed-width fields, integers in
//! big-endian order.

use vstd::prelude::*;
use crate::bytes::u64_be_bytes;
use crate::bytes::u64_from_be;
use crate::bytes::u64_from_be_bytes;
use crate::bytes::u64_to_be;

verus! {

/// Why a value could not be read.
#[derive(Clone, Copy, Debug, PartialEq, Eq, Structural)]
pub enum ReaderError {
    /// The input has the wrong length, or too few bytes are left.
    InvalidSize,
}

/// Collects the bytes of a message.
#[derive(Debug)]
pub struct Writer {
    bytes: Vec<u8>,
}

impl View for Writer {
    type V = Seq<u8>;

    /// The bytes written so far.
    closed spec fn view(&self) -> Seq<u8> {
        self.bytes@
    }
}

impl Writer {
    /// A writer that holds no bytes yet.
    pub fn new() -> (r: Self)
        ensures
            r@ == Seq::<u8>::empty(),
    {
        Writer { bytes: Vec::new() }
    }

    /// Appends `bytes` as they are.
    pub fn write_bytes(&mut self, bytes: &[u8])
        ensures
            final(self)@ == old(self)@ + bytes@,
    {
        self.bytes.extend_from_slice(bytes);
    }

    /// Appends the 32 bytes of a hash.
    pub fn write_hash(&mut self, hash: &crate::crypto::hash::Hash)
        ensures
            final(self)@ == old(self)@ + hash@,
    {
        self.write_bytes(hash.as_bytes());
    }

    /// Appends the eight bytes of `value`, most significant first.
    pub fn write_u64(&mut self, value: &u64)
        ensures
            final(self)@ == old(self)@ + u64_be_bytes(*value),
    {
        let bytes = u64_to_be(*value);
        self.write_bytes(&bytes);
    }

    /// The number of bytes written so far.
    pub fn total_write(&self) -> (r: usize)
        ensures
            r == self@.len(),
    {
        self.bytes.len()
    }

    /// Hands over the bytes written.
    pub fn bytes(self) -> (r: Vec<u8>)
        ensures
            r@ == self@,
    {
        self.bytes
    }
}

/// Walks over the bytes of a message from front to back.
#[derive(Debug)]
pub struct Reader<'a> {
    bytes: &'a [u8],
    total: usize,
}

impl<'a> Reader<'a> {
    #[verifier::type_invariant]
    spec fn in_bounds(self) -> bool {
        self.total <= self.bytes@.len()
    }

    /// The whole message.
    pub closed spec fn input(&self) -> Seq<u8> {
        self.bytes@
    }

    /// The number of bytes read so far, never more than the message holds.
    pub closed spec fn position(&self) -> int {
        if self.total <= self.bytes@.len() {
            self.total as int
        } else {
            self.bytes@.len() as int
        }
    }

    /// The bytes that are still to be read.
    pub open spec fn remaining(&self) -> Seq<u8> {
        self.input().subrange(self.position(), self.input().len() as int)
    }

    /// The position lies within the message.
    pub proof fn lemma_position_in_bounds(&self)
        ensures
            0 <= self.position() <= self.input().len(),
            self.remaining().len() == self.input().len() - self.position(),
    {
    }

    /// A reader at the start of `bytes`.
    pub fn new(bytes: &'a [u8]) -> (r: Self)
        ensures
            r.input() == bytes@,
            r.position() == 0,
    {
        Reader { bytes, total: 0 }
    }

    /// The length of the whole message.
    pub fn total_size(&self) -> (r: usize)
        ensures
            r == self.input().len(),
    {
        self.bytes.len()
    }

    /// The number of bytes read so far.
    pub fn total_read(&self) -> (r: usize)
        ensures
            r == self.position(),
    {
        proof {
            use_type_invariant(self);
        }
        self.total
    }

    /// The number of bytes that are still to be read.
    pub fn size(&self) -> (r: usize)
        ensures
            r == self.remaining().len(),
    {
        proof {
            use_type_invariant(self);
        }
        self.bytes.len() - self.total
    }

    /// Reads the next 32 bytes. Fails with `InvalidSize`, reading nothing,
    /// exactly when fewer than 32 bytes are left.
    pub fn read_bytes_32(&mut self) -> (r: Result<[u8; 32], ReaderError>)
        ensures
            final(self).input() == old(self).input(),
            match r {
                Ok(bytes) => {
                    &&& old(self).remaining().len() >= 32
                    &&& bytes@ == old(self).remaining().subrange(0, 32)
                    &&& final(self).position() == old(self).position() + 32
                },
                Err(e) => {
                    &&& e == ReaderError::InvalidSize
                    &&& old(self).remaining().len() < 32
                    &&& final(self).position() == old(self).position()
                },
            },
    {
        proof {
            use_type_invariant(&*self);
        }
        let len = self.bytes.len();
        if len - self.total < 32 {
            return Err(ReaderError::InvalidSize);
        }
        let mut bytes = [0u8; 32];
        let mut i: usize = 0;
        while i < 32
            invariant
                i <= 32,
                len == self.bytes@.len(),
                self.total + 32 <= len,
                forall|j: int| 0 <= j < i ==> bytes@[j] == self.bytes@[self.total + j],
            decreases 32 - i,
        {
            bytes[i] = self.bytes[self.total + i];
            i += 1;
        }
        assert(bytes@ =~= self.remaining().subrange(0, 32));
        self.total = self.total + 32;
        Ok(bytes)
    }

    /// Reads the next 32 bytes as a hash. Fails with `InvalidSize`, reading
    /// nothing, exactly when fewer than 32 bytes are left.
    pub fn read_hash(&mut self) -> (r: Result<crate::crypto::hash::Hash, ReaderError>)
        ensures
            final(self).input() == old(self).input(),
            match r {
                Ok(hash) => {
                    &&& old(self).remaining().len() >= 32
                    &&& hash@ == old(self).remaining().subrange(0, 32)
                    &&& final(self).position() == old(self).position() + 32
                },
                Err(e) => {
                    &&& e == ReaderError::InvalidSize
                    &&& old(self).remaining().len() < 32
                    &&& final(self).position() == old(self).position()
                },
            },
    {
        match self.read_bytes_32() {
            Ok(bytes) => Ok(crate::crypto::hash::Hash::new(bytes)),
            Err(e) => Err(e),
        }
    }

    /// Reads the next eight bytes as a big-endian integer. Fails with
    /// `InvalidSize`, reading nothing, exactly when fewer than eight bytes
    /// are left.
    pub fn read_u64(&mut self) -> (r: Result<u64, ReaderError>)
        ensures
            final(self).input() == old(self).input(),
            match r {
                Ok(value) => {
                    &&& old(self).remaining().len() >= 8
                    &&& value == u64_from_be_bytes(old(self).remaining().subrange(0, 8))
                    &&& final(self).position() == old(self).position() + 8
                },
                Err(e) => {
                    &&& e == ReaderError::InvalidSize
                    &&& old(self).remaining().len() < 8
                    &&& final(self).position() == old(self).position()
                },
            },
    {
        proof {
            use_type_invariant(&*self);
        }
        let len = self.bytes.len();
        if len - self.total < 8 {
            return Err(ReaderError::InvalidSize);
        }
        let mut bytes = [0u8; 8];
        let mut i: usize = 0;
        while i < 8
            invariant
                i <= 8,
                len == self.bytes@.len(),
                self.total + 8 <= len,
                forall|j: int| 0 <= j < i ==> bytes@[j] == self.bytes@[self.total + j],
            decreases 8 - i,
        {
            bytes[i] = self.bytes[self.total + i];
            i += 1;
        }
        assert(bytes@ =~= self.remaining().subrange(0, 8));
        self.total = self.total + 8;
        Ok(u64_from_be(&bytes))
    }
}

} // verus!

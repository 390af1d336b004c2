//! The unit of work that a miner hashes.
//!
//! A work unit serializes to 112 bytes: the header work hash (32), the
//! timestamp (8, big-endian), the nonce (8, big-endian), the extra nonce (32)
//! and the miner's key (32, zeros while there is none). The proof-of-work
//! hash is taken over these bytes padded with zeros to 200.
//!
//! Mining changes the timestamp and the nonce at a high rate, so the padded
//! block is kept once it has been built and those two fields are patched in
//! place. A change to any other field drops the block.

use vstd::prelude::*;
use std::borrow::Cow;
use xelis_hash::ScratchPad;
use crate::block::header::BlockHeader;
use crate::bytes::lemma_u64_be_bytes_unique;
use crate::bytes::lemma_u64_be_round_trip;
use crate::bytes::u16_be_bytes;
use crate::bytes::u16_to_be;
use crate::bytes::u64_be_bytes;
use crate::bytes::u64_from_be_bytes;
use crate::bytes::u64_to_be;
use crate::crypto::elgamal::compressed::RISTRETTO_COMPRESSED_SIZE;
use crate::crypto::elgamal::key::PublicKey;
use crate::crypto::hash::pow_hash_with_scratch_pad;
use crate::crypto::hash::xelis_pow_hash;
use crate::crypto::hash::POW_INPUT_SIZE;
use crate::crypto::hash::XelisHashError;
use crate::serializer::Reader;
use crate::serializer::ReaderError;
use crate::serializer::Writer;

verus! {

/// Length in bytes of the extra nonce.
pub const EXTRA_NONCE_SIZE: usize = 32;

/// Length in bytes of a serialized work unit.
pub const BLOCK_WORK_SIZE: usize = 112;

/// `n` zero bytes.
pub open spec fn zero_bytes(n: nat) -> Seq<u8> {
    Seq::new(n, |i: int| 0u8)
}

/// What a work unit holds.
pub struct MinerWorkView {
    pub header_work_hash: Seq<u8>,
    pub timestamp: u64,
    pub nonce: u64,
    pub miner: Option<Seq<u8>>,
    pub extra_nonce: Seq<u8>,
    /// Whether the padded block is being kept.
    pub cached: bool,
}

impl MinerWorkView {
    /// The hash, the extra nonce and the key, where present, are 32 bytes
    /// long.
    pub open spec fn is_valid(self) -> bool {
        &&& self.header_work_hash.len() == 32
        &&& self.extra_nonce.len() == 32
        &&& self.miner matches Some(key) ==> key.len() == 32
    }

    /// The 32 bytes that stand for the miner's key on the wire.
    pub open spec fn miner_bytes(self) -> Seq<u8> {
        match self.miner {
            Some(key) => key,
            None => zero_bytes(32),
        }
    }

    /// The 112 bytes of the wire form.
    pub open spec fn to_bytes(self) -> Seq<u8> {
        self.header_work_hash + u64_be_bytes(self.timestamp) + u64_be_bytes(self.nonce)
            + self.extra_nonce + self.miner_bytes()
    }

    /// The 200 bytes that are hashed: the wire form, then zeros.
    pub open spec fn pow_input(self) -> Seq<u8> {
        self.to_bytes() + zero_bytes(88)
    }

    /// The work unit that 112 bytes spell. One that was read always names a
    /// miner and keeps no block.
    pub open spec fn parse(bytes: Seq<u8>) -> MinerWorkView
        recommends
            bytes.len() == 112,
    {
        MinerWorkView {
            header_work_hash: bytes.subrange(0, 32),
            timestamp: u64_from_be_bytes(bytes.subrange(32, 40)),
            nonce: u64_from_be_bytes(bytes.subrange(40, 48)),
            extra_nonce: bytes.subrange(48, 80),
            miner: Some(bytes.subrange(80, 112)),
            cached: false,
        }
    }
}

/// Where a reader stands after `MinerWork::read` has failed on a message of
/// `total` bytes of which `position` had been read: the fields in front of
/// the first one that did not fit have been passed over.
pub open spec fn position_after_failed_read(total: int, position: int) -> int {
    let left = total - position;
    if total != 112 || left < 32 {
        position
    } else if left < 40 {
        position + 32
    } else if left < 48 {
        position + 40
    } else if left < 80 {
        position + 48
    } else {
        position + 80
    }
}

/// Writes `bytes` over the eight bytes of `block` that start at `offset`.
fn patch_u64(block: &mut [u8; 200], offset: usize, bytes: &[u8; 8])
    requires
        offset + 8 <= 200,
    ensures
        final(block)@ == old(block)@.subrange(0, offset as int) + bytes@ + old(block)@.subrange(
            offset + 8,
            200,
        ),
{
    let mut i: usize = 0;
    while i < 8
        invariant
            i <= 8,
            offset + 8 <= 200,
            forall|j: int| 0 <= j < offset ==> block@[j] == old(block)@[j],
            forall|j: int| 0 <= j < i ==> block@[offset + j] == bytes@[j],
            forall|j: int| offset + i <= j < 200 ==> block@[j] == old(block)@[j],
        decreases 8 - i,
    {
        block[offset + i] = bytes[i];
        i += 1;
    }
    assert(block@ =~= old(block)@.subrange(0, offset as int) + bytes@ + old(block)@.subrange(
        offset + 8,
        200,
    ));
}

/// A block to mine on: everything that is hashed for proof of work.
#[derive(Debug)]
pub struct MinerWork<'a> {
    header_work_hash: crate::crypto::hash::Hash,
    timestamp: u64,
    nonce: u64,
    miner: Option<Cow<'a, PublicKey>>,
    extra_nonce: [u8; 32],
    cache: Option<[u8; 200]>,
}

impl<'a> View for MinerWork<'a> {
    type V = MinerWorkView;

    closed spec fn view(&self) -> MinerWorkView {
        MinerWorkView {
            header_work_hash: self.header_work_hash@,
            timestamp: self.timestamp,
            nonce: self.nonce,
            miner: match self.miner {
                Some(key) => Some(key@),
                None => None,
            },
            extra_nonce: self.extra_nonce@,
            cached: self.cache is Some,
        }
    }
}

impl<'a> Clone for MinerWork<'a> {
    /// A copy that holds the same fields and keeps the same block.
    fn clone(&self) -> (r: Self)
        ensures
            r@ == self@,
            r.well_formed() == self.well_formed(),
    {
        MinerWork {
            header_work_hash: self.header_work_hash,
            timestamp: self.timestamp,
            nonce: self.nonce,
            miner: match &self.miner {
                Some(Cow::Borrowed(key)) => Some(Cow::Borrowed(*key)),
                Some(Cow::Owned(key)) => Some(Cow::Owned(*key)),
                None => None,
            },
            extra_nonce: self.extra_nonce,
            cache: self.cache,
        }
    }
}

impl<'a> MinerWork<'a> {
    /// The block that is kept, if one is, is the one that the fields spell.
    pub closed spec fn well_formed(&self) -> bool {
        self.cache matches Some(block) ==> block@ == self@.pow_input()
    }

    /// A fresh work unit: nonce zero, no miner, extra nonce all zeros.
    pub fn new(header_work_hash: crate::crypto::hash::Hash, timestamp: u64) -> (r: Self)
        ensures
            r.well_formed(),
            r@ == (MinerWorkView {
                header_work_hash: header_work_hash@,
                timestamp,
                nonce: 0,
                miner: None,
                extra_nonce: zero_bytes(32),
                cached: false,
            }),
    {
        let r = MinerWork {
            header_work_hash,
            timestamp,
            nonce: 0,
            miner: None,
            extra_nonce: [0u8; EXTRA_NONCE_SIZE],
            cache: None,
        };
        assert(r.extra_nonce@ =~= zero_bytes(32));
        r
    }

    /// The work unit of a block header: its work hash, timestamp, extra
    /// nonce and miner, with the nonce at zero.
    pub fn from_block(header: BlockHeader) -> (r: Self)
        ensures
            r.well_formed(),
            r@ == (MinerWorkView {
                header_work_hash: header.work_hash@,
                timestamp: header.timestamp,
                nonce: 0,
                miner: Some(header.miner@),
                extra_nonce: header.extra_nonce@,
                cached: false,
            }),
    {
        MinerWork {
            header_work_hash: header.get_work_hash(),
            timestamp: header.get_timestamp(),
            nonce: 0,
            miner: Some(Cow::Owned(header.miner)),
            extra_nonce: header.extra_nonce,
            cache: None,
        }
    }

    /// The nonce.
    pub fn nonce(&self) -> (r: u64)
        ensures
            r == self@.nonce,
    {
        self.nonce
    }

    /// The hash over the immutable part of the header.
    pub fn get_header_work_hash(&self) -> (r: &crate::crypto::hash::Hash)
        ensures
            r@ == self@.header_work_hash,
    {
        &self.header_work_hash
    }

    /// The miner's key, if one has been set.
    pub fn get_miner(&self) -> (r: Option<&PublicKey>)
        ensures
            match r {
                Some(key) => self@.miner == Some(key@),
                None => self@.miner is None,
            },
    {
        match &self.miner {
            Some(Cow::Borrowed(key)) => Some(*key),
            Some(Cow::Owned(key)) => Some(key),
            None => None,
        }
    }

    /// The timestamp, in milliseconds.
    pub fn get_timestamp(&self) -> (r: u64)
        ensures
            r == self@.timestamp,
    {
        self.timestamp
    }

    /// The proof-of-work hash of the work unit: always `Ok`, with the hash of
    /// the 200 bytes that the fields spell. The padded block is built on the
    /// first call and kept for the next ones.
    pub fn get_pow_hash(&mut self, scratch_pad: &mut ScratchPad) -> (r: Result<
        crate::crypto::hash::Hash,
        XelisHashError,
    >)
        requires
            old(self).well_formed(),
        ensures
            final(self).well_formed(),
            final(self)@ == (MinerWorkView { cached: true, ..old(self)@ }),
            r matches Ok(hash) && hash@ == xelis_pow_hash(old(self)@.pow_input()),
    {
        let input = match self.cache {
            Some(block) => block,
            None => {
                let bytes = self.to_bytes();
                let mut block = [0u8; POW_INPUT_SIZE];
                let mut i: usize = 0;
                while i < BLOCK_WORK_SIZE
                    invariant
                        i <= 112,
                        bytes@.len() == 112,
                        forall|j: int| 0 <= j < i ==> block@[j] == bytes@[j],
                        forall|j: int| i <= j < 200 ==> block@[j] == 0u8,
                    decreases 112 - i,
                {
                    block[i] = bytes[i];
                    i += 1;
                }
                assert(block@ =~= bytes@ + zero_bytes(88));
                self.cache = Some(block);
                block
            },
        };
        pow_hash_with_scratch_pad(&input, scratch_pad)
    }

    /// The extra nonce, open for writing. The kept block is dropped, since
    /// the caller may change the bytes at will.
    pub fn get_extra_nonce(&mut self) -> (r: &mut [u8; 32])
        ensures
            r@ == old(self)@.extra_nonce,
            final(self).well_formed(),
            final(self)@ == (MinerWorkView {
                extra_nonce: final(r)@,
                cached: false,
                ..old(self)@
            }),
    {
        self.cache = None;
        &mut self.extra_nonce
    }

    /// Sets the timestamp. A kept block is patched in place, at bytes 32 to
    /// 40. Never fails.
    pub fn set_timestamp(&mut self, timestamp: u64) -> (r: Result<(), XelisHashError>)
        requires
            old(self).well_formed(),
        ensures
            r is Ok,
            final(self).well_formed(),
            final(self)@ == (MinerWorkView { timestamp, ..old(self)@ }),
    {
        self.timestamp = timestamp;
        match &mut self.cache {
            Some(block) => {
                let bytes = u64_to_be(timestamp);
                patch_u64(block, 32, &bytes);
            },
            None => {},
        }
        proof {
            self.lemma_patched_timestamp(*old(self));
        }
        Ok(())
    }

    /// Moves on to the next nonce. A kept block is patched in place, at
    /// bytes 40 to 48. Never fails.
    pub fn increase_nonce(&mut self) -> (r: Result<(), XelisHashError>)
        requires
            old(self).well_formed(),
            old(self)@.nonce < u64::MAX,
        ensures
            r is Ok,
            final(self).well_formed(),
            final(self)@ == (MinerWorkView { nonce: (old(self)@.nonce + 1) as u64, ..old(self)@ }),
    {
        self.nonce = self.nonce + 1;
        match &mut self.cache {
            Some(block) => {
                let bytes = u64_to_be(self.nonce);
                patch_u64(block, 40, &bytes);
            },
            None => {},
        }
        proof {
            self.lemma_patched_nonce(*old(self));
        }
        Ok(())
    }

    /// Names the miner. A kept block is dropped.
    pub fn set_miner(&mut self, miner: Cow<'a, PublicKey>)
        ensures
            final(self).well_formed(),
            final(self)@ == (MinerWorkView { miner: Some(miner@), cached: false, ..old(self)@ }),
    {
        self.cache = None;
        self.miner = Some(miner);
    }

    /// Writes a thread's number into the last byte of the extra nonce, so
    /// that threads work on different blocks. A kept block is dropped.
    pub fn set_thread_id(&mut self, id: u8)
        ensures
            final(self).well_formed(),
            final(self)@ == (MinerWorkView {
                extra_nonce: old(self)@.extra_nonce.update(31, id),
                cached: false,
                ..old(self)@
            }),
    {
        self.cache = None;
        self.extra_nonce[EXTRA_NONCE_SIZE - 1] = id;
    }

    /// Writes a thread's number, big-endian, into the last two bytes of the
    /// extra nonce. A kept block is dropped.
    pub fn set_thread_id_u16(&mut self, id: u16)
        ensures
            final(self).well_formed(),
            final(self)@ == (MinerWorkView {
                extra_nonce: old(self)@.extra_nonce.subrange(0, 30) + u16_be_bytes(id),
                cached: false,
                ..old(self)@
            }),
    {
        let bytes = u16_to_be(id);
        self.cache = None;
        self.extra_nonce[EXTRA_NONCE_SIZE - 2] = bytes[0];
        self.extra_nonce[EXTRA_NONCE_SIZE - 1] = bytes[1];
        assert(self.extra_nonce@ =~= old(self).extra_nonce@.subrange(0, 30) + u16_be_bytes(id));
    }

    /// Takes the work unit apart: work hash, timestamp, nonce, miner and
    /// extra nonce.
    pub fn take(self) -> (r: (
        crate::crypto::hash::Hash,
        u64,
        u64,
        Option<Cow<'a, PublicKey>>,
        [u8; 32],
    ))
        ensures
            r.0@ == self@.header_work_hash,
            r.1 == self@.timestamp,
            r.2 == self@.nonce,
            match r.3 {
                Some(key) => self@.miner == Some(key@),
                None => self@.miner is None,
            },
            r.4@ == self@.extra_nonce,
    {
        (self.header_work_hash, self.timestamp, self.nonce, self.miner, self.extra_nonce)
    }

    /// Appends the 112 bytes of the wire form to `writer`.
    pub fn write(&self, writer: &mut Writer)
        ensures
            final(writer)@ == old(writer)@ + self@.to_bytes(),
    {
        writer.write_hash(&self.header_work_hash);
        writer.write_u64(&self.timestamp);
        writer.write_u64(&self.nonce);
        writer.write_bytes(&self.extra_nonce);
        match &self.miner {
            Some(Cow::Borrowed(key)) => {
                key.write(writer);
            },
            Some(Cow::Owned(key)) => {
                key.write(writer);
            },
            None => {
                let zeros = [0u8; RISTRETTO_COMPRESSED_SIZE];
                assert(zeros@ =~= zero_bytes(32));
                writer.write_bytes(&zeros);
            },
        }
        assert(writer@ =~= old(writer)@ + self@.to_bytes());
    }

    /// The 112 bytes of the wire form.
    pub fn to_bytes(&self) -> (r: Vec<u8>)
        ensures
            r@ == self@.to_bytes(),
            r@.len() == 112,
    {
        let mut writer = Writer::new();
        self.write(&mut writer);
        proof {
            self.lemma_is_valid();
        }
        assert(writer@ =~= self@.to_bytes());
        writer.bytes()
    }

    /// Reads a work unit from a message that consists of exactly its 112
    /// bytes. Fails with `InvalidSize` when the message has another length or
    /// part of it has been read already.
    pub fn read(reader: &mut Reader) -> (r: Result<MinerWork<'a>, ReaderError>)
        ensures
            final(reader).input() == old(reader).input(),
            match r {
                Ok(work) => {
                    &&& old(reader).input().len() == 112
                    &&& old(reader).position() == 0
                    &&& final(reader).position() == 112
                    &&& work.well_formed()
                    &&& work@ == MinerWorkView::parse(old(reader).input())
                },
                Err(e) => {
                    &&& e == ReaderError::InvalidSize
                    &&& !(old(reader).input().len() == 112 && old(reader).position() == 0)
                    &&& final(reader).position() == position_after_failed_read(
                        old(reader).input().len() as int,
                        old(reader).position(),
                    )
                },
            },
    {
        let ghost input = reader.input();
        let ghost start = reader.position();
        if reader.total_size() != BLOCK_WORK_SIZE {
            return Err(ReaderError::InvalidSize);
        }
        proof {
            reader.lemma_position_in_bounds();
        }
        let header_work_hash = match reader.read_hash() {
            Ok(hash) => hash,
            Err(e) => { return Err(e); },
        };
        proof {
            reader.lemma_position_in_bounds();
        }
        let timestamp = match reader.read_u64() {
            Ok(value) => value,
            Err(e) => { return Err(e); },
        };
        proof {
            reader.lemma_position_in_bounds();
        }
        let nonce = match reader.read_u64() {
            Ok(value) => value,
            Err(e) => { return Err(e); },
        };
        proof {
            reader.lemma_position_in_bounds();
        }
        let extra_nonce = match reader.read_bytes_32() {
            Ok(bytes) => bytes,
            Err(e) => { return Err(e); },
        };
        proof {
            reader.lemma_position_in_bounds();
        }
        let miner = match PublicKey::read(reader) {
            Ok(key) => key,
            Err(e) => { return Err(e); },
        };
        let work = MinerWork {
            header_work_hash,
            timestamp,
            nonce,
            miner: Some(Cow::Owned(miner)),
            extra_nonce,
            cache: None,
        };
        proof {
            assert(start == 0);
            assert(input.subrange(0, 112).subrange(0, 32) =~= input.subrange(0, 32));
            assert(input.subrange(32, 112).subrange(0, 8) =~= input.subrange(32, 40));
            assert(input.subrange(40, 112).subrange(0, 8) =~= input.subrange(40, 48));
            assert(input.subrange(48, 112).subrange(0, 32) =~= input.subrange(48, 80));
            assert(input.subrange(80, 112).subrange(0, 32) =~= input.subrange(80, 112));
        }
        Ok(work)
    }

    /// The number of bytes that `write` appends.
    pub fn size(&self) -> (r: usize)
        ensures
            r == 112,
            r == self@.to_bytes().len(),
    {
        proof {
            self.lemma_is_valid();
        }
        BLOCK_WORK_SIZE
    }

    /// The hash, the extra nonce and the key of every work unit are 32 bytes
    /// long, so its wire form has 112 bytes.
    pub proof fn lemma_is_valid(self)
        ensures
            self@.is_valid(),
            self@.to_bytes().len() == 112,
            self@.pow_input().len() == 200,
    {
        self.header_work_hash.lemma_len();
        match self.miner {
            Some(key) => {
                match key {
                    Cow::Borrowed(k) => k.lemma_len(),
                    Cow::Owned(k) => k.lemma_len(),
                }
            },
            None => {},
        }
    }

    proof fn lemma_patched_timestamp(self, before: Self)
        requires
            before.well_formed(),
            self@ == (MinerWorkView { timestamp: self@.timestamp, ..before@ }),
            match before.cache {
                Some(block) => self.cache matches Some(patched) && patched@ == block@.subrange(
                    0,
                    32,
                ) + u64_be_bytes(self@.timestamp) + block@.subrange(40, 200),
                None => self.cache is None,
            },
        ensures
            self.well_formed(),
    {
        self.lemma_is_valid();
        before.lemma_is_valid();
        match self.cache {
            Some(patched) => {
                assert(patched@ =~= self@.pow_input());
            },
            None => {},
        }
    }

    proof fn lemma_patched_nonce(self, before: Self)
        requires
            before.well_formed(),
            self@ == (MinerWorkView { nonce: self@.nonce, ..before@ }),
            match before.cache {
                Some(block) => self.cache matches Some(patched) && patched@ == block@.subrange(
                    0,
                    40,
                ) + u64_be_bytes(self@.nonce) + block@.subrange(48, 200),
                None => self.cache is None,
            },
        ensures
            self.well_formed(),
    {
        self.lemma_is_valid();
        before.lemma_is_valid();
        match self.cache {
            Some(patched) => {
                assert(patched@ =~= self@.pow_input());
            },
            None => {},
        }
    }
}

/// A work unit that was written and read back is the one that was written,
/// as far as the wire form carries it: it names the miner and keeps no block.
pub proof fn lemma_parse_to_bytes(work: MinerWorkView)
    requires
        work.is_valid(),
    ensures
        MinerWorkView::parse(work.to_bytes()) == (MinerWorkView {
            miner: Some(work.miner_bytes()),
            cached: false,
            ..work
        }),
{
    let bytes = work.to_bytes();
    lemma_u64_be_round_trip(work.timestamp);
    lemma_u64_be_round_trip(work.nonce);
    assert(bytes.subrange(0, 32) =~= work.header_work_hash);
    assert(bytes.subrange(32, 40) =~= u64_be_bytes(work.timestamp));
    assert(bytes.subrange(40, 48) =~= u64_be_bytes(work.nonce));
    assert(bytes.subrange(48, 80) =~= work.extra_nonce);
    assert(bytes.subrange(80, 112) =~= work.miner_bytes());
}

/// The wire form of what 112 bytes spell is those 112 bytes.
pub proof fn lemma_to_bytes_parse(bytes: Seq<u8>)
    requires
        bytes.len() == 112,
    ensures
        MinerWorkView::parse(bytes).is_valid(),
        MinerWorkView::parse(bytes).to_bytes() == bytes,
{
    lemma_u64_be_bytes_unique(bytes.subrange(32, 40));
    lemma_u64_be_bytes_unique(bytes.subrange(40, 48));
    assert(MinerWorkView::parse(bytes).to_bytes() =~= bytes);
}

} // verus!

//! The part of a block header that mining reads.

use vstd::prelude::*;
use crate::crypto::elgamal::key::PublicKey;

verus! {

/// What a miner needs of a block header: the hash over its immutable part,
/// its timestamp, the extra nonce and the miner's key.
#[derive(Clone, Copy, Debug)]
pub struct BlockHeader {
    pub work_hash: crate::crypto::hash::Hash,
    pub timestamp: u64,
    pub extra_nonce: [u8; 32],
    pub miner: PublicKey,
}

impl BlockHeader {
    /// A header with the given parts.
    pub fn new(
        work_hash: crate::crypto::hash::Hash,
        timestamp: u64,
        extra_nonce: [u8; 32],
        miner: PublicKey,
    ) -> (r: Self)
        ensures
            r == (BlockHeader { work_hash, timestamp, extra_nonce, miner }),
    {
        BlockHeader { work_hash, timestamp, extra_nonce, miner }
    }

    /// The hash over the immutable part of the header.
    pub fn get_work_hash(&self) -> (r: crate::crypto::hash::Hash)
        ensures
            r == self.work_hash,
    {
        self.work_hash
    }

    /// The time at which the header was made, in milliseconds.
    pub fn get_timestamp(&self) -> (r: u64)
        ensures
            r == self.timestamp,
    {
        self.timestamp
    }
}

} // verus!

//! Cryptographic building blocks.

pub mod elgamal;
pub mod hash;

pub use elgamal::PublicKey;
pub use hash::pow_hash_with_scratch_pad;
pub use hash::XelisHashError;
pub use hash::HASH_SIZE;
pub use hash::POW_INPUT_SIZE;
pub use xelis_hash::ScratchPad;

//! Confidential amounts for a privacy-preserving chain: twisted ElGamal
//! ciphertexts over the Ristretto group, their canonical wire encodings, the
//! mining work unit that is hashed for proof of work, and the text of the
//! node's prompt.
//!
//! The contracts of the executable functions are proved by Verus. The group
//! arithmetic itself is done by `curve25519-dalek`, the proof-of-work hash by
//! `xelis_hash` and the color codes come from `fern`; the few functions that
//! call into them state what is taken on trust.

pub mod block;
pub mod bytes;
pub mod crypto;
pub mod prompt;
pub mod serializer;

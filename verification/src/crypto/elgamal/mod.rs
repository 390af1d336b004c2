//! Twisted ElGamal encryption of amounts.
//!
//! An amount is hidden in a Pedersen commitment `amount * G + blinding * H`;
//! the decrypt handle `blinding * Pk` lets the holder of the matching private
//! key remove the blinding term. Both halves are elements of the Ristretto
//! group, so ciphertexts can be added, subtracted and shifted by public
//! amounts without being opened.

pub mod ciphertext;
pub mod compressed;
pub mod group;
pub mod key;
pub mod pedersen;

pub use ciphertext::Ciphertext;
pub use ciphertext::CiphertextValue;
pub use compressed::CompressedCiphertext;
pub use compressed::CompressedCommitment;
pub use compressed::CompressedHandle;
pub use compressed::DecompressionError;
pub use compressed::CIPHERTEXT_COMPRESSED_SIZE;
pub use compressed::RISTRETTO_COMPRESSED_SIZE;
pub use key::PublicKey;
pub use pedersen::DecryptHandle;
pub use pedersen::PedersenCommitment;

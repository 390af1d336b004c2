use curve25519_dalek::constants::RISTRETTO_BASEPOINT_COMPRESSED;
use curve25519_dalek::ristretto::RistrettoPoint;
use curve25519_dalek::scalar::Scalar;
use curve25519_dalek::traits::Identity;
use xelis_common::crypto::elgamal::{
    Ciphertext, CompressedCiphertext, CompressedCommitment, CompressedHandle, DecompressionError,
    DecryptHandle, PedersenCommitment, CIPHERTEXT_COMPRESSED_SIZE, RISTRETTO_COMPRESSED_SIZE,
};

fn generator_g() -> RistrettoPoint {
    RistrettoPoint::mul_base(&Scalar::ONE)
}

fn generator_h() -> RistrettoPoint {
    RistrettoPoint::from_uniform_bytes(&[7u8; 64])
}

fn public_key() -> RistrettoPoint {
    RistrettoPoint::from_uniform_bytes(&[42u8; 64])
}

fn encrypt(amount: u64, blinding: u64) -> Ciphertext {
    let r = Scalar::from(blinding);
    let commitment = Scalar::from(amount) * generator_g() + r * generator_h();
    let handle = r * public_key();
    Ciphertext::new(
        PedersenCommitment::from_point(commitment),
        DecryptHandle::from_point(handle),
    )
}

// The private key that matches `public_key()` is not known here, so a test
// opens a ciphertext with the blinding factor instead: `C - r * H` is
// `amount * G`.
fn opens_to(ciphertext: &Ciphertext, amount: u64, blinding: u64) -> bool {
    let r = Scalar::from(blinding);
    let rest = ciphertext.commitment().as_point() - r * generator_h();
    rest == Scalar::from(amount) * generator_g()
        && *ciphertext.handle().as_point() == r * public_key()
}

#[test]
fn new_keeps_both_halves() {
    let c = PedersenCommitment::from_point(generator_h());
    let d = DecryptHandle::from_point(public_key());
    let x = Ciphertext::new(c, d);
    assert_eq!(*x.commitment(), c);
    assert_eq!(*x.handle(), d);
    assert_eq!(*x.commitment().as_point(), generator_h());
    assert_eq!(*x.handle().as_point(), public_key());
}

#[test]
fn zero_is_the_identity_pair() {
    let zero = Ciphertext::zero();
    assert_eq!(*zero.commitment().as_point(), RistrettoPoint::identity());
    assert_eq!(*zero.handle().as_point(), RistrettoPoint::identity());
    assert_eq!(zero.compress().to_bytes(), [0u8; 64]);
}

#[test]
fn identity_law() {
    let x = encrypt(100, 11);
    assert_eq!(x + Ciphertext::zero(), x);
    assert_eq!(Ciphertext::zero() + x, x);
    assert_eq!(x - x, Ciphertext::zero());
    assert_ne!(x, Ciphertext::zero());
}

#[test]
fn addition_is_commutative() {
    let x = encrypt(3, 5);
    let y = encrypt(1000, 77);
    assert_eq!(x + y, y + x);
    assert_ne!(x + y, x);
}

#[test]
fn addition_is_associative() {
    let x = encrypt(3, 5);
    let y = encrypt(1000, 77);
    let z = encrypt(u64::MAX, u64::MAX);
    assert_eq!((x + y) + z, x + (y + z));
}

#[test]
fn public_amounts_compose() {
    let x = encrypt(10, 4);
    let a = Scalar::from(7u64);
    let b = Scalar::from(8u64);
    assert_eq!((x + a) + b, x + (a + b));
    assert_eq!((x + a) + b, encrypt(25, 4));
    assert_eq!((x + a).handle(), x.handle());
    assert_eq!((x - a).handle(), x.handle());
    assert_ne!((x + a).commitment(), x.commitment());
    assert_eq!((x + a) - a, x);
}

#[test]
fn public_amount_commutes_with_addition() {
    let x = encrypt(10, 4);
    let y = encrypt(20, 6);
    let a = Scalar::from(7u64);
    assert_eq!((x + a) + y, (x + y) + a);
}

#[test]
fn subtraction_undoes_addition() {
    let x = encrypt(10, 4);
    let y = encrypt(99, 1234);
    assert_eq!((x + y) - y, x);
    assert_eq!(x - y, x + (Ciphertext::zero() - y));
}

#[test]
fn fee_subtraction_keeps_the_handle() {
    let x = encrypt(100, 11);
    let y = x - Scalar::from(5u64);
    assert!(opens_to(&y, 95, 11));
    assert!(!opens_to(&y, 100, 11));
    assert_eq!(
        y.handle().compress().to_bytes(),
        x.handle().compress().to_bytes()
    );
}

#[test]
fn merge_adds_amounts_and_blindings() {
    let x1 = encrypt(30, 3);
    let x2 = encrypt(70, 9);
    let sum = x1 + x2;
    let r = Scalar::from(3u64) + Scalar::from(9u64);
    let commitment =
        Scalar::from(30u64) * generator_g() + Scalar::from(70u64) * generator_g() + r * generator_h();
    assert_eq!(*sum.commitment().as_point(), commitment);
    assert_eq!(*sum.handle().as_point(), r * public_key());
    assert!(opens_to(&sum, 100, 12));
}

#[test]
fn borrowed_operands_give_the_same_result() {
    let x = encrypt(10, 4);
    let y = encrypt(20, 6);
    let a = Scalar::from(7u64);
    assert_eq!(x + &y, x + y);
    assert_eq!(x - &y, x - y);
    assert_eq!(x + &a, x + a);
    assert_eq!(x - &a, x - a);
}

#[test]
fn in_place_operators_match_the_pure_ones() {
    let x = encrypt(10, 4);
    let y = encrypt(20, 6);
    let a = Scalar::from(7u64);

    let mut t = x;
    t += y;
    assert_eq!(t, x + y);
    t -= y;
    assert_eq!(t, x);
    t += &y;
    assert_eq!(t, x + y);
    t -= &y;
    assert_eq!(t, x);
    t += a;
    assert_eq!(t, x + a);
    t -= a;
    assert_eq!(t, x);
    t += &a;
    assert_eq!(t, x + a);
    t -= &a;
    assert_eq!(t, x);
}

#[test]
fn commitment_algebra() {
    let c1 = PedersenCommitment::from_point(generator_h());
    let c2 = PedersenCommitment::from_point(public_key());
    let a = Scalar::from(9u64);
    assert_eq!(*(c1 + c2).as_point(), generator_h() + public_key());
    assert_eq!(*(c1 - c2).as_point(), generator_h() - public_key());
    assert_eq!(*(c1 + &c2).as_point(), generator_h() + public_key());
    assert_eq!(*(c1 - &c2).as_point(), generator_h() - public_key());
    assert_eq!(*(c1 + a).as_point(), generator_h() + a * generator_g());
    assert_eq!(*(c1 - a).as_point(), generator_h() - a * generator_g());
    assert_eq!(*(c1 + &a).as_point(), generator_h() + a * generator_g());
    assert_eq!(*(c1 - &a).as_point(), generator_h() - a * generator_g());

    let mut t = c1;
    t += c2;
    assert_eq!(t, c1 + c2);
    t -= &c2;
    assert_eq!(t, c1);
    t += &c2;
    t -= c2;
    assert_eq!(t, c1);
    t += a;
    assert_eq!(t, c1 + a);
    t -= &a;
    assert_eq!(t, c1);
    t += &a;
    t -= a;
    assert_eq!(t, c1);
}

#[test]
fn handle_algebra() {
    let d1 = DecryptHandle::from_point(generator_h());
    let d2 = DecryptHandle::from_point(public_key());
    assert_eq!(*(d1 + d2).as_point(), generator_h() + public_key());
    assert_eq!(*(d1 - d2).as_point(), generator_h() - public_key());
    assert_eq!(*(d1 + &d2).as_point(), generator_h() + public_key());
    assert_eq!(*(d1 - &d2).as_point(), generator_h() - public_key());
    assert_ne!(d1, d2);

    let mut t = d1;
    t += d2;
    assert_eq!(t, d1 + d2);
    t -= &d2;
    assert_eq!(t, d1);
    t += &d2;
    t -= d2;
    assert_eq!(t, d1);
}

#[test]
fn equality_ignores_the_internal_representation() {
    // The same group element reached along two different paths.
    let a = PedersenCommitment::from_point(generator_g() + generator_g());
    let b = PedersenCommitment::from_point(Scalar::from(2u64) * generator_g());
    assert_eq!(a, b);
    assert_eq!(a.compress(), b.compress());
}

#[test]
fn compress_gives_the_canonical_encoding() {
    let c = PedersenCommitment::from_point(generator_g());
    assert_eq!(c.compress().to_bytes(), RISTRETTO_BASEPOINT_COMPRESSED.to_bytes());
    let d = DecryptHandle::from_point(generator_g());
    assert_eq!(d.compress().as_bytes(), RISTRETTO_BASEPOINT_COMPRESSED.as_bytes());

    let x = Ciphertext::new(c, DecryptHandle::from_point(RistrettoPoint::identity()));
    let bytes = x.compress().to_bytes();
    assert_eq!(&bytes[..32], &RISTRETTO_BASEPOINT_COMPRESSED.to_bytes()[..]);
    assert_eq!(&bytes[32..], &[0u8; 32][..]);
}

#[test]
fn compressed_sizes() {
    let x = encrypt(1, 2);
    assert_eq!(x.compress().to_bytes().len(), 64);
    assert_eq!(x.commitment().compress().to_bytes().len(), 32);
    assert_eq!(x.handle().compress().to_bytes().len(), 32);
    assert_eq!(CIPHERTEXT_COMPRESSED_SIZE, 64);
    assert_eq!(RISTRETTO_COMPRESSED_SIZE, 32);
}

#[test]
fn round_trip() {
    let x = encrypt(12345, 678);
    let bytes = x.compress().to_bytes();
    let back = CompressedCiphertext::from_bytes(&bytes).decompress();
    assert_eq!(back, Ok(x));
    assert_eq!(x.compress().decompress(), Ok(x));
    assert_eq!(x.commitment().compress().decompress(), Ok(*x.commitment()));
    assert_eq!(x.handle().compress().decompress(), Ok(*x.handle()));
    assert_eq!(back.unwrap().compress().to_bytes(), bytes);
}

#[test]
fn compressed_ciphertext_is_commitment_then_handle() {
    let x = encrypt(5, 6);
    let c = x.compress();
    assert_eq!(*c.commitment(), x.commitment().compress());
    assert_eq!(*c.handle(), x.handle().compress());
    let rebuilt = CompressedCiphertext::new(x.commitment().compress(), x.handle().compress());
    assert_eq!(rebuilt, c);
    let mut bytes = [0u8; 64];
    bytes[..32].copy_from_slice(x.commitment().compress().as_bytes());
    bytes[32..].copy_from_slice(x.handle().compress().as_bytes());
    assert_eq!(c.to_bytes(), bytes);
    assert_eq!(CompressedCiphertext::from_bytes(&bytes), c);
}

#[test]
fn invalid_half_is_rejected() {
    let x = encrypt(1, 2);
    let good = x.compress().to_bytes();

    let mut bad_handle = good;
    for i in 32..64 {
        bad_handle[i] = 0xff;
    }
    assert_eq!(
        CompressedCiphertext::from_bytes(&bad_handle).decompress(),
        Err(DecompressionError)
    );

    let mut bad_commitment = good;
    for i in 0..32 {
        bad_commitment[i] = 0xff;
    }
    assert_eq!(
        CompressedCiphertext::from_bytes(&bad_commitment).decompress(),
        Err(DecompressionError)
    );

    assert_eq!(
        CompressedCiphertext::from_bytes(&[0xff; 64]).decompress(),
        Err(DecompressionError)
    );
    assert_eq!(
        CompressedCommitment::new([0xff; 32]).decompress(),
        Err(DecompressionError)
    );
    assert_eq!(
        CompressedHandle::new([0xff; 32]).decompress(),
        Err(DecompressionError)
    );
}

#[test]
fn non_canonical_encoding_is_rejected() {
    // The field element 1 written as 1 + p: the same element, another spelling.
    let mut bytes = [0xffu8; 32];
    bytes[0] = 0xee;
    bytes[31] = 0x7f;
    assert_eq!(
        CompressedCommitment::new(bytes).decompress(),
        Err(DecompressionError)
    );
    // A negative field element: the low bit of the encoding is set.
    let mut negative = [0u8; 32];
    negative[0] = 1;
    assert_eq!(
        CompressedCommitment::new(negative).decompress(),
        Err(DecompressionError)
    );
}

#[test]
fn all_zero_bytes_decode_to_the_identity() {
    let c = CompressedCiphertext::from_bytes(&[0u8; 64]).decompress();
    assert_eq!(c, Ok(Ciphertext::zero()));
}

//! The Ristretto group as the proofs see it.
//!
//! Ristretto is a cyclic group of prime order `l`, and its basepoint `B` is a
//! generator. Every element is therefore `k * B` for exactly one residue
//! `k` modulo `l`, and the map `k -> k * B` turns addition of residues into
//! addition of points. Contracts speak of a point through that residue: they
//! never need to know it, only that it exists.
//!
//! The functions at the end of this file make the calls into
//! `curve25519-dalek`. Verus does not read their bodies; their contracts are
//! taken on trust.

use vstd::prelude::*;
use curve25519_dalek::ristretto::CompressedRistretto;
use curve25519_dalek::ristretto::RistrettoPoint;
use curve25519_dalek::scalar::Scalar;
use curve25519_dalek::traits::Identity;

verus! {

/// `curve25519_dalek::ristretto::RistrettoPoint`: an element of the group, in
/// coordinates that the proofs never look into.
#[verifier::external_type_specification]
#[verifier::external_body]
pub struct ExRistrettoPoint(curve25519_dalek::ristretto::RistrettoPoint);

/// `curve25519_dalek::scalar::Scalar`: an integer modulo the group order.
#[verifier::external_type_specification]
#[verifier::external_body]
pub struct ExScalar(curve25519_dalek::scalar::Scalar);

/// The order of the Ristretto group: `2^252 + 27742317777372353535851937790883648493`.
pub open spec fn group_order() -> int {
    0x1000000000000000000000000000000014def9dea2f79cd65812631a5cf5d3edint
}

/// The exponent `k` with `point == k * B`, where `B` is the Ristretto basepoint.
pub uninterp spec fn ristretto_index(point: RistrettoPoint) -> nat;

/// The integer that a scalar stands for.
pub uninterp spec fn scalar_value(scalar: Scalar) -> nat;

/// The canonical 32-byte encoding of the group element `index * B`.
pub uninterp spec fn ristretto_encoding(index: int) -> Seq<u8>;

/// The group element that 32 bytes decode to, as a residue, or `None` where
/// the bytes are not the canonical encoding of any element.
pub uninterp spec fn ristretto_decoding(bytes: Seq<u8>) -> Option<int>;

/// Whether `x` is a residue modulo the group order.
pub open spec fn is_residue(x: int) -> bool {
    0 <= x < group_order()
}

/// The group element a point denotes, as a residue modulo the group order.
pub open spec fn point_value(point: RistrettoPoint) -> int {
    ristretto_index(point) as int % group_order()
}

/// The residue a scalar denotes.
pub open spec fn scalar_residue(scalar: Scalar) -> int {
    scalar_value(scalar) as int % group_order()
}

/// Sum of two group elements.
pub open spec fn residue_add(a: int, b: int) -> int {
    (a + b) % group_order()
}

/// Difference of two group elements.
pub open spec fn residue_sub(a: int, b: int) -> int {
    (a - b) % group_order()
}

/// `Identity::identity` for `RistrettoPoint`: the neutral element, `0 * B`.
#[verifier::external_body]
pub(crate) fn ristretto_identity() -> (r: RistrettoPoint)
    ensures
        ristretto_index(r) == 0,
{
    RistrettoPoint::identity()
}

/// `&RistrettoPoint + &RistrettoPoint`: the group operation, which adds the
/// exponents of the two operands modulo the group order.
#[verifier::external_body]
pub(crate) fn ristretto_add(a: &RistrettoPoint, b: &RistrettoPoint) -> (r: RistrettoPoint)
    ensures
        ristretto_index(r) == residue_add(point_value(*a), point_value(*b)),
{
    a + b
}

/// `&RistrettoPoint - &RistrettoPoint`: adds the inverse of the right operand,
/// which subtracts its exponent modulo the group order.
#[verifier::external_body]
pub(crate) fn ristretto_sub(a: &RistrettoPoint, b: &RistrettoPoint) -> (r: RistrettoPoint)
    ensures
        ristretto_index(r) == residue_sub(point_value(*a), point_value(*b)),
{
    a - b
}

/// `RistrettoPoint::mul_base`: the scalar times the basepoint, whose exponent
/// is the scalar itself.
#[verifier::external_body]
pub(crate) fn ristretto_mul_base(scalar: &Scalar) -> (r: RistrettoPoint)
    ensures
        ristretto_index(r) == scalar_value(*scalar) as int % group_order(),
{
    RistrettoPoint::mul_base(scalar)
}

/// `RistrettoPoint::eq`: two points are equal exactly when they denote the
/// same group element, whatever their internal coordinates.
#[verifier::external_body]
pub(crate) fn ristretto_eq(a: &RistrettoPoint, b: &RistrettoPoint) -> (r: bool)
    ensures
        r == (point_value(*a) == point_value(*b)),
{
    a == b
}

/// `RistrettoPoint::compress`: the canonical encoding of the element, which
/// `CompressedRistretto::decompress` maps back to the same element.
#[verifier::external_body]
pub(crate) fn ristretto_compress(point: &RistrettoPoint) -> (r: [u8; 32])
    ensures
        r@ == ristretto_encoding(point_value(*point)),
        ristretto_decoding(r@) == Some(point_value(*point)),
{
    point.compress().to_bytes()
}

/// `CompressedRistretto::decompress`: succeeds exactly on canonical
/// encodings, and the point it returns encodes to the same bytes again.
#[verifier::external_body]
pub(crate) fn ristretto_decompress(bytes: &[u8; 32]) -> (r: Option<RistrettoPoint>)
    ensures
        r is Some <==> ristretto_decoding(bytes@) is Some,
        r matches Some(p) ==> {
            &&& ristretto_decoding(bytes@) == Some(point_value(p))
            &&& ristretto_encoding(point_value(p)) == bytes@
        },
{
    CompressedRistretto(*bytes).decompress()
}

} // verus!

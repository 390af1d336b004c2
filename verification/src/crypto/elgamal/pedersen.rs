//! Pedersen commitments and decrypt handles: the two halves of a ciphertext.
//!
//! Both wrap one group element and are added and subtracted element by
//! element. Only the commitment depends on the amount, so only the
//! commitment can be shifted by a public amount.

use vstd::prelude::*;
use curve25519_dalek::ristretto::RistrettoPoint;
use curve25519_dalek::scalar::Scalar;
use std::ops::Add;
use std::ops::AddAssign;
use std::ops::Sub;
use std::ops::SubAssign;
use crate::crypto::elgamal::compressed::CompressedCommitment;
use crate::crypto::elgamal::compressed::CompressedHandle;
use crate::crypto::elgamal::group::{
    is_residue, point_value, residue_add, residue_sub, ristretto_add, ristretto_compress,
    ristretto_encoding, ristretto_eq, ristretto_mul_base, ristretto_sub, scalar_residue,
};

verus! {

/// A commitment `amount * G + blinding * H` to a hidden amount, where `G` is
/// the Ristretto basepoint and `H` a second generator that nobody knows as a
/// multiple of `G`.
#[derive(Clone, Copy, Debug)]
pub struct PedersenCommitment {
    point: RistrettoPoint,
}

impl View for PedersenCommitment {
    type V = int;

    /// The group element that the commitment holds, as a residue modulo the
    /// group order.
    closed spec fn view(&self) -> int {
        point_value(self.point)
    }
}

impl PedersenCommitment {
    /// Wraps a group element as a commitment.
    pub fn from_point(point: RistrettoPoint) -> (r: Self)
        ensures
            r@ == point_value(point),
    {
        PedersenCommitment { point }
    }

    /// The group element that the commitment holds.
    pub fn as_point(&self) -> (r: &RistrettoPoint)
        ensures
            point_value(*r) == self@,
    {
        &self.point
    }

    /// The canonical encoding: always 32 bytes. It decompresses to this
    /// commitment.
    pub fn compress(&self) -> (r: CompressedCommitment)
        ensures
            r@.len() == 32,
            r@ == ristretto_encoding(self@),
            r.spec_decompress() == Some(self@),
    {
        let r = CompressedCommitment::new(ristretto_compress(&self.point));
        proof {
            r.lemma_len();
        }
        r
    }

    /// Every commitment holds a residue modulo the group order.
    pub proof fn lemma_is_residue(self)
        ensures
            is_residue(self@),
    {
    }
}

impl PartialEq for PedersenCommitment {
    /// Two commitments are equal when they hold the same group element.
    fn eq(&self, other: &Self) -> (r: bool) {
        ristretto_eq(&self.point, &other.point)
    }
}

impl vstd::std_specs::cmp::PartialEqSpecImpl for PedersenCommitment {
    open spec fn obeys_eq_spec() -> bool {
        true
    }

    open spec fn eq_spec(&self, other: &Self) -> bool {
        self@ == other@
    }
}

impl Eq for PedersenCommitment {
}

/// The sum of two commitments: the sum of the group elements they hold.
impl Add<PedersenCommitment> for PedersenCommitment {
    type Output = PedersenCommitment;

    fn add(self, rhs: PedersenCommitment) -> (r: PedersenCommitment)
        ensures
            r@ == residue_add(self@, rhs@),
    {
        PedersenCommitment { point: ristretto_add(&self.point, &rhs.point) }
    }
}

impl vstd::std_specs::ops::AddSpecImpl<PedersenCommitment> for PedersenCommitment {
    open spec fn obeys_add_spec() -> bool {
        false
    }

    open spec fn add_req(self, rhs: PedersenCommitment) -> bool {
        true
    }

    open spec fn add_spec(self, rhs: PedersenCommitment) -> PedersenCommitment {
        arbitrary()
    }
}

/// The sum of two commitments, the right one borrowed: the sum of the group
/// elements they hold.
impl<'a> Add<&'a PedersenCommitment> for PedersenCommitment {
    type Output = PedersenCommitment;

    fn add(self, rhs: &'a PedersenCommitment) -> (r: PedersenCommitment)
        ensures
            r@ == residue_add(self@, rhs@),
    {
        PedersenCommitment { point: ristretto_add(&self.point, &rhs.point) }
    }
}

impl<'a> vstd::std_specs::ops::AddSpecImpl<&'a PedersenCommitment> for PedersenCommitment {
    open spec fn obeys_add_spec() -> bool {
        false
    }

    open spec fn add_req(self, rhs: &'a PedersenCommitment) -> bool {
        true
    }

    open spec fn add_spec(self, rhs: &'a PedersenCommitment) -> PedersenCommitment {
        arbitrary()
    }
}

/// The commitment plus a public amount: `amount * G` is added to the element,
/// so the blinding term stays as it was.
impl Add<Scalar> for PedersenCommitment {
    type Output = PedersenCommitment;

    fn add(self, rhs: Scalar) -> (r: PedersenCommitment)
        ensures
            r@ == residue_add(self@, scalar_residue(rhs)),
    {
        PedersenCommitment { point: ristretto_add(&self.point, &ristretto_mul_base(&rhs)) }
    }
}

impl vstd::std_specs::ops::AddSpecImpl<Scalar> for PedersenCommitment {
    open spec fn obeys_add_spec() -> bool {
        false
    }

    open spec fn add_req(self, rhs: Scalar) -> bool {
        true
    }

    open spec fn add_spec(self, rhs: Scalar) -> PedersenCommitment {
        arbitrary()
    }
}

/// The commitment plus a public amount, borrowed: `amount * G` is added to
/// the element, so the blinding term stays as it was.
impl<'a> Add<&'a Scalar> for PedersenCommitment {
    type Output = PedersenCommitment;

    fn add(self, rhs: &'a Scalar) -> (r: PedersenCommitment)
        ensures
            r@ == residue_add(self@, scalar_residue(*rhs)),
    {
        PedersenCommitment { point: ristretto_add(&self.point, &ristretto_mul_base(rhs)) }
    }
}

impl<'a> vstd::std_specs::ops::AddSpecImpl<&'a Scalar> for PedersenCommitment {
    open spec fn obeys_add_spec() -> bool {
        false
    }

    open spec fn add_req(self, rhs: &'a Scalar) -> bool {
        true
    }

    open spec fn add_spec(self, rhs: &'a Scalar) -> PedersenCommitment {
        arbitrary()
    }
}

/// The difference of two commitments: the difference of the group elements
/// they hold.
impl Sub<PedersenCommitment> for PedersenCommitment {
    type Output = PedersenCommitment;

    fn sub(self, rhs: PedersenCommitment) -> (r: PedersenCommitment)
        ensures
            r@ == residue_sub(self@, rhs@),
    {
        PedersenCommitment { point: ristretto_sub(&self.point, &rhs.point) }
    }
}

impl vstd::std_specs::ops::SubSpecImpl<PedersenCommitment> for PedersenCommitment {
    open spec fn obeys_sub_spec() -> bool {
        false
    }

    open spec fn sub_req(self, rhs: PedersenCommitment) -> bool {
        true
    }

    open spec fn sub_spec(self, rhs: PedersenCommitment) -> PedersenCommitment {
        arbitrary()
    }
}

/// The difference of two commitments, the right one borrowed: the difference
/// of the group elements they hold.
impl<'a> Sub<&'a PedersenCommitment> for PedersenCommitment {
    type Output = PedersenCommitment;

    fn sub(self, rhs: &'a PedersenCommitment) -> (r: PedersenCommitment)
        ensures
            r@ == residue_sub(self@, rhs@),
    {
        PedersenCommitment { point: ristretto_sub(&self.point, &rhs.point) }
    }
}

impl<'a> vstd::std_specs::ops::SubSpecImpl<&'a PedersenCommitment> for PedersenCommitment {
    open spec fn obeys_sub_spec() -> bool {
        false
    }

    open spec fn sub_req(self, rhs: &'a PedersenCommitment) -> bool {
        true
    }

    open spec fn sub_spec(self, rhs: &'a PedersenCommitment) -> PedersenCommitment {
        arbitrary()
    }
}

/// The commitment minus a public amount: `amount * G` is taken from the
/// element, so the blinding term stays as it was.
impl Sub<Scalar> for PedersenCommitment {
    type Output = PedersenCommitment;

    fn sub(self, rhs: Scalar) -> (r: PedersenCommitment)
        ensures
            r@ == residue_sub(self@, scalar_residue(rhs)),
    {
        PedersenCommitment { point: ristretto_sub(&self.point, &ristretto_mul_base(&rhs)) }
    }
}

impl vstd::std_specs::ops::SubSpecImpl<Scalar> for PedersenCommitment {
    open spec fn obeys_sub_spec() -> bool {
        false
    }

    open spec fn sub_req(self, rhs: Scalar) -> bool {
        true
    }

    open spec fn sub_spec(self, rhs: Scalar) -> PedersenCommitment {
        arbitrary()
    }
}

/// The commitment minus a public amount, borrowed: `amount * G` is taken from
/// the element, so the blinding term stays as it was.
impl<'a> Sub<&'a Scalar> for PedersenCommitment {
    type Output = PedersenCommitment;

    fn sub(self, rhs: &'a Scalar) -> (r: PedersenCommitment)
        ensures
            r@ == residue_sub(self@, scalar_residue(*rhs)),
    {
        PedersenCommitment { point: ristretto_sub(&self.point, &ristretto_mul_base(rhs)) }
    }
}

impl<'a> vstd::std_specs::ops::SubSpecImpl<&'a Scalar> for PedersenCommitment {
    open spec fn obeys_sub_spec() -> bool {
        false
    }

    open spec fn sub_req(self, rhs: &'a Scalar) -> bool {
        true
    }

    open spec fn sub_spec(self, rhs: &'a Scalar) -> PedersenCommitment {
        arbitrary()
    }
}

/// Adds another commitment in place.
impl AddAssign<PedersenCommitment> for PedersenCommitment {
    fn add_assign(&mut self, rhs: PedersenCommitment)
        ensures
            final(self)@ == residue_add(old(self)@, rhs@),
    {
        self.point = ristretto_add(&self.point, &rhs.point);
    }
}

/// Adds another borrowed commitment in place.
impl<'a> AddAssign<&'a PedersenCommitment> for PedersenCommitment {
    fn add_assign(&mut self, rhs: &'a PedersenCommitment)
        ensures
            final(self)@ == residue_add(old(self)@, rhs@),
    {
        self.point = ristretto_add(&self.point, &rhs.point);
    }
}

/// Adds a public amount in place.
impl AddAssign<Scalar> for PedersenCommitment {
    fn add_assign(&mut self, rhs: Scalar)
        ensures
            final(self)@ == residue_add(old(self)@, scalar_residue(rhs)),
    {
        self.point = ristretto_add(&self.point, &ristretto_mul_base(&rhs));
    }
}

/// Adds a borrowed public amount in place.
impl<'a> AddAssign<&'a Scalar> for PedersenCommitment {
    fn add_assign(&mut self, rhs: &'a Scalar)
        ensures
            final(self)@ == residue_add(old(self)@, scalar_residue(*rhs)),
    {
        self.point = ristretto_add(&self.point, &ristretto_mul_base(rhs));
    }
}

/// Subtracts another commitment in place.
impl SubAssign<PedersenCommitment> for PedersenCommitment {
    fn sub_assign(&mut self, rhs: PedersenCommitment)
        ensures
            final(self)@ == residue_sub(old(self)@, rhs@),
    {
        self.point = ristretto_sub(&self.point, &rhs.point);
    }
}

/// Subtracts another borrowed commitment in place.
impl<'a> SubAssign<&'a PedersenCommitment> for PedersenCommitment {
    fn sub_assign(&mut self, rhs: &'a PedersenCommitment)
        ensures
            final(self)@ == residue_sub(old(self)@, rhs@),
    {
        self.point = ristretto_sub(&self.point, &rhs.point);
    }
}

/// Subtracts a public amount in place.
impl SubAssign<Scalar> for PedersenCommitment {
    fn sub_assign(&mut self, rhs: Scalar)
        ensures
            final(self)@ == residue_sub(old(self)@, scalar_residue(rhs)),
    {
        self.point = ristretto_sub(&self.point, &ristretto_mul_base(&rhs));
    }
}

/// Subtracts a borrowed public amount in place.
impl<'a> SubAssign<&'a Scalar> for PedersenCommitment {
    fn sub_assign(&mut self, rhs: &'a Scalar)
        ensures
            final(self)@ == residue_sub(old(self)@, scalar_residue(*rhs)),
    {
        self.point = ristretto_sub(&self.point, &ristretto_mul_base(rhs));
    }
}

/// A decrypt handle `blinding * Pk`, which ties a commitment to the public
/// key `Pk` of the one recipient who can open it. It does not depend on the
/// amount.
#[derive(Clone, Copy, Debug)]
pub struct DecryptHandle {
    point: RistrettoPoint,
}

impl View for DecryptHandle {
    type V = int;

    /// The group element that the handle holds, as a residue modulo the group
    /// order.
    closed spec fn view(&self) -> int {
        point_value(self.point)
    }
}

impl DecryptHandle {
    /// Wraps a group element as a decrypt handle.
    pub fn from_point(point: RistrettoPoint) -> (r: Self)
        ensures
            r@ == point_value(point),
    {
        DecryptHandle { point }
    }

    /// The group element that the handle holds.
    pub fn as_point(&self) -> (r: &RistrettoPoint)
        ensures
            point_value(*r) == self@,
    {
        &self.point
    }

    /// The canonical encoding: always 32 bytes. It decompresses to this
    /// handle.
    pub fn compress(&self) -> (r: CompressedHandle)
        ensures
            r@.len() == 32,
            r@ == ristretto_encoding(self@),
            r.spec_decompress() == Some(self@),
    {
        let r = CompressedHandle::new(ristretto_compress(&self.point));
        proof {
            r.lemma_len();
        }
        r
    }

    /// Every handle holds a residue modulo the group order.
    pub proof fn lemma_is_residue(self)
        ensures
            is_residue(self@),
    {
    }
}

impl PartialEq for DecryptHandle {
    /// Two handles are equal when they hold the same group element.
    fn eq(&self, other: &Self) -> (r: bool) {
        ristretto_eq(&self.point, &other.point)
    }
}

impl vstd::std_specs::cmp::PartialEqSpecImpl for DecryptHandle {
    open spec fn obeys_eq_spec() -> bool {
        true
    }

    open spec fn eq_spec(&self, other: &Self) -> bool {
        self@ == other@
    }
}

impl Eq for DecryptHandle {
}

/// The sum of two handles: the sum of the group elements they hold.
impl Add<DecryptHandle> for DecryptHandle {
    type Output = DecryptHandle;

    fn add(self, rhs: DecryptHandle) -> (r: DecryptHandle)
        ensures
            r@ == residue_add(self@, rhs@),
    {
        DecryptHandle { point: ristretto_add(&self.point, &rhs.point) }
    }
}

impl vstd::std_specs::ops::AddSpecImpl<DecryptHandle> for DecryptHandle {
    open spec fn obeys_add_spec() -> bool {
        false
    }

    open spec fn add_req(self, rhs: DecryptHandle) -> bool {
        true
    }

    open spec fn add_spec(self, rhs: DecryptHandle) -> DecryptHandle {
        arbitrary()
    }
}

/// The sum of two handles, the right one borrowed: the sum of the group
/// elements they hold.
impl<'a> Add<&'a DecryptHandle> for DecryptHandle {
    type Output = DecryptHandle;

    fn add(self, rhs: &'a DecryptHandle) -> (r: DecryptHandle)
        ensures
            r@ == residue_add(self@, rhs@),
    {
        DecryptHandle { point: ristretto_add(&self.point, &rhs.point) }
    }
}

impl<'a> vstd::std_specs::ops::AddSpecImpl<&'a DecryptHandle> for DecryptHandle {
    open spec fn obeys_add_spec() -> bool {
        false
    }

    open spec fn add_req(self, rhs: &'a DecryptHandle) -> bool {
        true
    }

    open spec fn add_spec(self, rhs: &'a DecryptHandle) -> DecryptHandle {
        arbitrary()
    }
}

/// The difference of two handles: the difference of the group elements they
/// hold.
impl Sub<DecryptHandle> for DecryptHandle {
    type Output = DecryptHandle;

    fn sub(self, rhs: DecryptHandle) -> (r: DecryptHandle)
        ensures
            r@ == residue_sub(self@, rhs@),
    {
        DecryptHandle { point: ristretto_sub(&self.point, &rhs.point) }
    }
}

impl vstd::std_specs::ops::SubSpecImpl<DecryptHandle> for DecryptHandle {
    open spec fn obeys_sub_spec() -> bool {
        false
    }

    open spec fn sub_req(self, rhs: DecryptHandle) -> bool {
        true
    }

    open spec fn sub_spec(self, rhs: DecryptHandle) -> DecryptHandle {
        arbitrary()
    }
}

/// The difference of two handles, the right one borrowed: the difference of
/// the group elements they hold.
impl<'a> Sub<&'a DecryptHandle> for DecryptHandle {
    type Output = DecryptHandle;

    fn sub(self, rhs: &'a DecryptHandle) -> (r: DecryptHandle)
        ensures
            r@ == residue_sub(self@, rhs@),
    {
        DecryptHandle { point: ristretto_sub(&self.point, &rhs.point) }
    }
}

impl<'a> vstd::std_specs::ops::SubSpecImpl<&'a DecryptHandle> for DecryptHandle {
    open spec fn obeys_sub_spec() -> bool {
        false
    }

    open spec fn sub_req(self, rhs: &'a DecryptHandle) -> bool {
        true
    }

    open spec fn sub_spec(self, rhs: &'a DecryptHandle) -> DecryptHandle {
        arbitrary()
    }
}

/// Adds another handle in place.
impl AddAssign<DecryptHandle> for DecryptHandle {
    fn add_assign(&mut self, rhs: DecryptHandle)
        ensures
            final(self)@ == residue_add(old(self)@, rhs@),
    {
        self.point = ristretto_add(&self.point, &rhs.point);
    }
}

/// Adds another borrowed handle in place.
impl<'a> AddAssign<&'a DecryptHandle> for DecryptHandle {
    fn add_assign(&mut self, rhs: &'a DecryptHandle)
        ensures
            final(self)@ == residue_add(old(self)@, rhs@),
    {
        self.point = ristretto_add(&self.point, &rhs.point);
    }
}

/// Subtracts another handle in place.
impl SubAssign<DecryptHandle> for DecryptHandle {
    fn sub_assign(&mut self, rhs: DecryptHandle)
        ensures
            final(self)@ == residue_sub(old(self)@, rhs@),
    {
        self.point = ristretto_sub(&self.point, &rhs.point);
    }
}

/// Subtracts another borrowed handle in place.
impl<'a> SubAssign<&'a DecryptHandle> for DecryptHandle {
    fn sub_assign(&mut self, rhs: &'a DecryptHandle)
        ensures
            final(self)@ == residue_sub(old(self)@, rhs@),
    {
        self.point = ristretto_sub(&self.point, &rhs.point);
    }
}

} // verus!

//! Ciphertexts: one commitment and one decrypt handle, combined half by half.

use vstd::prelude::*;
use vstd::arithmetic::div_mod::lemma_add_mod_noop;
use vstd::arithmetic::div_mod::lemma_add_mod_noop_right;
use vstd::arithmetic::div_mod::lemma_sub_mod_noop;
use curve25519_dalek::scalar::Scalar;
use std::ops::Add;
use std::ops::AddAssign;
use std::ops::Sub;
use std::ops::SubAssign;
use crate::crypto::elgamal::compressed::CompressedCiphertext;
use crate::crypto::elgamal::group::{
    group_order, is_residue, residue_add, residue_sub, ristretto_encoding, ristretto_identity,
    scalar_residue,
};
use crate::crypto::elgamal::pedersen::DecryptHandle;
use crate::crypto::elgamal::pedersen::PedersenCommitment;

verus! {

/// What a ciphertext denotes: the group elements of its two halves, each a
/// residue modulo the group order.
pub struct CiphertextValue {
    pub commitment: int,
    pub handle: int,
}

impl CiphertextValue {
    /// Both halves are residues modulo the group order.
    pub open spec fn is_valid(self) -> bool {
        is_residue(self.commitment) && is_residue(self.handle)
    }

    /// The neutral ciphertext.
    pub open spec fn zero() -> CiphertextValue {
        CiphertextValue { commitment: 0, handle: 0 }
    }

    /// Half-by-half sum.
    pub open spec fn plus(self, rhs: CiphertextValue) -> CiphertextValue {
        CiphertextValue {
            commitment: residue_add(self.commitment, rhs.commitment),
            handle: residue_add(self.handle, rhs.handle),
        }
    }

    /// Half-by-half difference.
    pub open spec fn minus(self, rhs: CiphertextValue) -> CiphertextValue {
        CiphertextValue {
            commitment: residue_sub(self.commitment, rhs.commitment),
            handle: residue_sub(self.handle, rhs.handle),
        }
    }

    /// Shift by a public amount: `amount * G` is added to the commitment and
    /// the handle is left alone.
    pub open spec fn plus_amount(self, amount: int) -> CiphertextValue {
        CiphertextValue { commitment: residue_add(self.commitment, amount), handle: self.handle }
    }

    /// Shift by a public amount in the other direction.
    pub open spec fn minus_amount(self, amount: int) -> CiphertextValue {
        CiphertextValue { commitment: residue_sub(self.commitment, amount), handle: self.handle }
    }
}

/// An encrypted amount: a commitment to it and the handle that lets one
/// recipient open it.
#[derive(Clone, Copy, Debug)]
pub struct Ciphertext {
    commitment: PedersenCommitment,
    handle: DecryptHandle,
}

impl View for Ciphertext {
    type V = CiphertextValue;

    closed spec fn view(&self) -> CiphertextValue {
        CiphertextValue { commitment: self.commitment@, handle: self.handle@ }
    }
}

impl Ciphertext {
    /// Pairs a commitment with a handle. Nothing is checked: whether the two
    /// belong together depends on how they were made.
    pub fn new(commitment: PedersenCommitment, handle: DecryptHandle) -> (r: Self)
        ensures
            r@ == (CiphertextValue { commitment: commitment@, handle: handle@ }),
    {
        Ciphertext { commitment, handle }
    }

    /// The neutral ciphertext: both halves are the identity of the group.
    pub fn zero() -> (r: Self)
        ensures
            r@ == CiphertextValue::zero(),
    {
        Ciphertext {
            commitment: PedersenCommitment::from_point(ristretto_identity()),
            handle: DecryptHandle::from_point(ristretto_identity()),
        }
    }

    /// The commitment half.
    pub fn commitment(&self) -> (r: &PedersenCommitment)
        ensures
            r@ == self@.commitment,
    {
        &self.commitment
    }

    /// The handle half.
    pub fn handle(&self) -> (r: &DecryptHandle)
        ensures
            r@ == self@.handle,
    {
        &self.handle
    }

    /// The canonical encoding: always 64 bytes, the commitment's encoding
    /// followed by the handle's. It decompresses to this ciphertext.
    pub fn compress(&self) -> (r: CompressedCiphertext)
        ensures
            r@.len() == 64,
            r@ == ristretto_encoding(self@.commitment) + ristretto_encoding(self@.handle),
            r.spec_decompress() == Some(self@),
    {
        let commitment = self.commitment.compress();
        let handle = self.handle.compress();
        proof {
            commitment.lemma_len();
            handle.lemma_len();
            assert((commitment@ + handle@).subrange(0, 32) =~= commitment@);
            assert((commitment@ + handle@).subrange(32, 64) =~= handle@);
        }
        CompressedCiphertext::new(commitment, handle)
    }

    /// Both halves of every ciphertext are residues modulo the group order.
    pub proof fn lemma_is_valid(self)
        ensures
            self@.is_valid(),
    {
        self.commitment.lemma_is_residue();
        self.handle.lemma_is_residue();
    }
}

impl PartialEq for Ciphertext {
    /// Two ciphertexts are equal when both halves hold the same group
    /// elements.
    fn eq(&self, other: &Self) -> (r: bool) {
        self.commitment == other.commitment && self.handle == other.handle
    }
}

impl vstd::std_specs::cmp::PartialEqSpecImpl for Ciphertext {
    open spec fn obeys_eq_spec() -> bool {
        true
    }

    open spec fn eq_spec(&self, other: &Self) -> bool {
        self@ == other@
    }
}

impl Eq for Ciphertext {
}

/// The sum of two ciphertexts: commitments and handles are combined
/// separately.
impl Add<Ciphertext> for Ciphertext {
    type Output = Ciphertext;

    fn add(self, rhs: Ciphertext) -> (r: Ciphertext)
        ensures
            r@ == self@.plus(rhs@),
    {
        Ciphertext {
            commitment: self.commitment + rhs.commitment,
            handle: self.handle + rhs.handle,
        }
    }
}

impl vstd::std_specs::ops::AddSpecImpl<Ciphertext> for Ciphertext {
    open spec fn obeys_add_spec() -> bool {
        false
    }

    open spec fn add_req(self, rhs: Ciphertext) -> bool {
        true
    }

    open spec fn add_spec(self, rhs: Ciphertext) -> Ciphertext {
        arbitrary()
    }
}

/// The sum of two ciphertexts, the right one borrowed: commitments and
/// handles are combined separately.
impl<'a> Add<&'a Ciphertext> for Ciphertext {
    type Output = Ciphertext;

    fn add(self, rhs: &'a Ciphertext) -> (r: Ciphertext)
        ensures
            r@ == self@.plus(rhs@),
    {
        Ciphertext {
            commitment: self.commitment + &rhs.commitment,
            handle: self.handle + &rhs.handle,
        }
    }
}

impl<'a> vstd::std_specs::ops::AddSpecImpl<&'a Ciphertext> for Ciphertext {
    open spec fn obeys_add_spec() -> bool {
        false
    }

    open spec fn add_req(self, rhs: &'a Ciphertext) -> bool {
        true
    }

    open spec fn add_spec(self, rhs: &'a Ciphertext) -> Ciphertext {
        arbitrary()
    }
}

/// A public amount added to an encrypted one. Only the commitment changes;
/// the handle is handed on as it is.
impl Add<Scalar> for Ciphertext {
    type Output = Ciphertext;

    fn add(self, rhs: Scalar) -> (r: Ciphertext)
        ensures
            r@ == self@.plus_amount(scalar_residue(rhs)),
    {
        Ciphertext { commitment: self.commitment + rhs, handle: self.handle }
    }
}

impl vstd::std_specs::ops::AddSpecImpl<Scalar> for Ciphertext {
    open spec fn obeys_add_spec() -> bool {
        false
    }

    open spec fn add_req(self, rhs: Scalar) -> bool {
        true
    }

    open spec fn add_spec(self, rhs: Scalar) -> Ciphertext {
        arbitrary()
    }
}

/// A public amount, borrowed added to an encrypted one. Only the commitment
/// changes; the handle is handed on as it is.
impl<'a> Add<&'a Scalar> for Ciphertext {
    type Output = Ciphertext;

    fn add(self, rhs: &'a Scalar) -> (r: Ciphertext)
        ensures
            r@ == self@.plus_amount(scalar_residue(*rhs)),
    {
        Ciphertext { commitment: self.commitment + rhs, handle: self.handle }
    }
}

impl<'a> vstd::std_specs::ops::AddSpecImpl<&'a Scalar> for Ciphertext {
    open spec fn obeys_add_spec() -> bool {
        false
    }

    open spec fn add_req(self, rhs: &'a Scalar) -> bool {
        true
    }

    open spec fn add_spec(self, rhs: &'a Scalar) -> Ciphertext {
        arbitrary()
    }
}

/// The difference of two ciphertexts: commitments and handles are combined
/// separately.
impl Sub<Ciphertext> for Ciphertext {
    type Output = Ciphertext;

    fn sub(self, rhs: Ciphertext) -> (r: Ciphertext)
        ensures
            r@ == self@.minus(rhs@),
    {
        Ciphertext {
            commitment: self.commitment - rhs.commitment,
            handle: self.handle - rhs.handle,
        }
    }
}

impl vstd::std_specs::ops::SubSpecImpl<Ciphertext> for Ciphertext {
    open spec fn obeys_sub_spec() -> bool {
        false
    }

    open spec fn sub_req(self, rhs: Ciphertext) -> bool {
        true
    }

    open spec fn sub_spec(self, rhs: Ciphertext) -> Ciphertext {
        arbitrary()
    }
}

/// The difference of two ciphertexts, the right one borrowed: commitments and
/// handles are combined separately.
impl<'a> Sub<&'a Ciphertext> for Ciphertext {
    type Output = Ciphertext;

    fn sub(self, rhs: &'a Ciphertext) -> (r: Ciphertext)
        ensures
            r@ == self@.minus(rhs@),
    {
        Ciphertext {
            commitment: self.commitment - &rhs.commitment,
            handle: self.handle - &rhs.handle,
        }
    }
}

impl<'a> vstd::std_specs::ops::SubSpecImpl<&'a Ciphertext> for Ciphertext {
    open spec fn obeys_sub_spec() -> bool {
        false
    }

    open spec fn sub_req(self, rhs: &'a Ciphertext) -> bool {
        true
    }

    open spec fn sub_spec(self, rhs: &'a Ciphertext) -> Ciphertext {
        arbitrary()
    }
}

/// A public amount taken from an encrypted one. Only the commitment changes;
/// the handle is handed on as it is.
impl Sub<Scalar> for Ciphertext {
    type Output = Ciphertext;

    fn sub(self, rhs: Scalar) -> (r: Ciphertext)
        ensures
            r@ == self@.minus_amount(scalar_residue(rhs)),
    {
        Ciphertext { commitment: self.commitment - rhs, handle: self.handle }
    }
}

impl vstd::std_specs::ops::SubSpecImpl<Scalar> for Ciphertext {
    open spec fn obeys_sub_spec() -> bool {
        false
    }

    open spec fn sub_req(self, rhs: Scalar) -> bool {
        true
    }

    open spec fn sub_spec(self, rhs: Scalar) -> Ciphertext {
        arbitrary()
    }
}

/// A public amount, borrowed taken from an encrypted one. Only the commitment
/// changes; the handle is handed on as it is.
impl<'a> Sub<&'a Scalar> for Ciphertext {
    type Output = Ciphertext;

    fn sub(self, rhs: &'a Scalar) -> (r: Ciphertext)
        ensures
            r@ == self@.minus_amount(scalar_residue(*rhs)),
    {
        Ciphertext { commitment: self.commitment - rhs, handle: self.handle }
    }
}

impl<'a> vstd::std_specs::ops::SubSpecImpl<&'a Scalar> for Ciphertext {
    open spec fn obeys_sub_spec() -> bool {
        false
    }

    open spec fn sub_req(self, rhs: &'a Scalar) -> bool {
        true
    }

    open spec fn sub_spec(self, rhs: &'a Scalar) -> Ciphertext {
        arbitrary()
    }
}

/// Adds another ciphertext in place.
impl AddAssign<Ciphertext> for Ciphertext {
    fn add_assign(&mut self, rhs: Ciphertext)
        ensures
            final(self)@ == old(self)@.plus(rhs@),
    {
        self.commitment.add_assign(rhs.commitment);
        self.handle.add_assign(rhs.handle);
    }
}

/// Adds another borrowed ciphertext in place.
impl<'a> AddAssign<&'a Ciphertext> for Ciphertext {
    fn add_assign(&mut self, rhs: &'a Ciphertext)
        ensures
            final(self)@ == old(self)@.plus(rhs@),
    {
        self.commitment.add_assign(&rhs.commitment);
        self.handle.add_assign(&rhs.handle);
    }
}

/// Adds a public amount in place. The handle is not touched.
impl AddAssign<Scalar> for Ciphertext {
    fn add_assign(&mut self, rhs: Scalar)
        ensures
            final(self)@ == old(self)@.plus_amount(scalar_residue(rhs)),
    {
        self.commitment.add_assign(rhs);
    }
}

/// Adds a borrowed public amount in place. The handle is not touched.
impl<'a> AddAssign<&'a Scalar> for Ciphertext {
    fn add_assign(&mut self, rhs: &'a Scalar)
        ensures
            final(self)@ == old(self)@.plus_amount(scalar_residue(*rhs)),
    {
        self.commitment.add_assign(rhs);
    }
}

/// Subtracts another ciphertext in place.
impl SubAssign<Ciphertext> for Ciphertext {
    fn sub_assign(&mut self, rhs: Ciphertext)
        ensures
            final(self)@ == old(self)@.minus(rhs@),
    {
        self.commitment.sub_assign(rhs.commitment);
        self.handle.sub_assign(rhs.handle);
    }
}

/// Subtracts another borrowed ciphertext in place.
impl<'a> SubAssign<&'a Ciphertext> for Ciphertext {
    fn sub_assign(&mut self, rhs: &'a Ciphertext)
        ensures
            final(self)@ == old(self)@.minus(rhs@),
    {
        self.commitment.sub_assign(&rhs.commitment);
        self.handle.sub_assign(&rhs.handle);
    }
}

/// Subtracts a public amount in place. The handle is not touched.
impl SubAssign<Scalar> for Ciphertext {
    fn sub_assign(&mut self, rhs: Scalar)
        ensures
            final(self)@ == old(self)@.minus_amount(scalar_residue(rhs)),
    {
        self.commitment.sub_assign(rhs);
    }
}

/// Subtracts a borrowed public amount in place. The handle is not touched.
impl<'a> SubAssign<&'a Scalar> for Ciphertext {
    fn sub_assign(&mut self, rhs: &'a Scalar)
        ensures
            final(self)@ == old(self)@.minus_amount(scalar_residue(*rhs)),
    {
        self.commitment.sub_assign(rhs);
    }
}

/// Adding the neutral ciphertext changes nothing.
pub proof fn lemma_add_zero(x: CiphertextValue)
    requires
        x.is_valid(),
    ensures
        x.plus(CiphertextValue::zero()) == x,
{
}

/// A ciphertext minus itself is the neutral ciphertext.
pub proof fn lemma_sub_self(x: CiphertextValue)
    ensures
        x.minus(x) == CiphertextValue::zero(),
{
}

/// Addition does not depend on the order of its operands.
pub proof fn lemma_add_commutative(x: CiphertextValue, y: CiphertextValue)
    ensures
        x.plus(y) == y.plus(x),
{
}

/// Addition does not depend on how its operands are grouped.
pub proof fn lemma_add_associative(x: CiphertextValue, y: CiphertextValue, z: CiphertextValue)
    ensures
        x.plus(y).plus(z) == x.plus(y.plus(z)),
{
}

/// Two public amounts added one after the other are their sum added once, and
/// adding a public amount leaves the handle exactly as it was.
pub proof fn lemma_amounts_compose(x: CiphertextValue, a: int, b: int)
    ensures
        x.plus_amount(a).plus_amount(b) == x.plus_amount(residue_add(a, b)),
        x.plus_amount(a).handle == x.handle,
        x.minus_amount(a).handle == x.handle,
{
}

/// Subtraction undoes addition.
pub proof fn lemma_sub_undoes_add(x: CiphertextValue, y: CiphertextValue)
    requires
        x.is_valid(),
    ensures
        x.plus(y).minus(y) == x,
{
}

/// Subtracting is adding the inverse: `x - y` is `x + (0 - y)`.
pub proof fn lemma_sub_is_add_of_inverse(x: CiphertextValue, y: CiphertextValue)
    ensures
        x.minus(y) == x.plus(CiphertextValue::zero().minus(y)),
{
}

/// Subtracting a public amount undoes adding it.
pub proof fn lemma_amount_sub_undoes_add(x: CiphertextValue, a: int)
    requires
        x.is_valid(),
    ensures
        x.plus_amount(a).minus_amount(a) == x,
{
}

/// A public amount can be added before or after another ciphertext.
pub proof fn lemma_amount_commutes_with_add(x: CiphertextValue, y: CiphertextValue, a: int)
    ensures
        x.plus_amount(a).plus(y) == x.plus(y).plus_amount(a),
{
}

/// The ciphertext that hides `amount` under the blinding factor `blinding`
/// for the holder of the key `Pk`: the commitment `amount * G + blinding * H`
/// and the handle `blinding * Pk`, where `H` is `h * G` and `Pk` is `pk * G`.
pub open spec fn encryption(amount: int, blinding: int, h: int, pk: int) -> CiphertextValue {
    CiphertextValue {
        commitment: (amount + blinding * h) % group_order(),
        handle: (blinding * pk) % group_order(),
    }
}

/// The sum of two ciphertexts for one key hides the sum of the amounts under
/// the sum of the blinding factors.
pub proof fn lemma_add_hides_sum(a1: int, b1: int, a2: int, b2: int, h: int, pk: int)
    ensures
        encryption(a1, b1, h, pk).plus(encryption(a2, b2, h, pk)) == encryption(
            a1 + a2,
            b1 + b2,
            h,
            pk,
        ),
{
    lemma_add_mod_noop(a1 + b1 * h, a2 + b2 * h, group_order());
    lemma_add_mod_noop(b1 * pk, b2 * pk, group_order());
    assert((b1 + b2) * h == b1 * h + b2 * h) by (nonlinear_arith);
    assert((b1 + b2) * pk == b1 * pk + b2 * pk) by (nonlinear_arith);
}

/// The difference of two ciphertexts for one key hides the difference of the
/// amounts under the difference of the blinding factors.
pub proof fn lemma_sub_hides_difference(a1: int, b1: int, a2: int, b2: int, h: int, pk: int)
    ensures
        encryption(a1, b1, h, pk).minus(encryption(a2, b2, h, pk)) == encryption(
            a1 - a2,
            b1 - b2,
            h,
            pk,
        ),
{
    lemma_sub_mod_noop(a1 + b1 * h, a2 + b2 * h, group_order());
    lemma_sub_mod_noop(b1 * pk, b2 * pk, group_order());
    assert((b1 - b2) * h == b1 * h - b2 * h) by (nonlinear_arith);
    assert((b1 - b2) * pk == b1 * pk - b2 * pk) by (nonlinear_arith);
}

/// Adding or subtracting a public amount changes the hidden amount by just
/// that much and keeps the blinding factor, so that the same handle still
/// opens the ciphertext.
pub proof fn lemma_amount_shifts_hidden_amount(
    amount: int,
    blinding: int,
    h: int,
    pk: int,
    shift: int,
)
    ensures
        encryption(amount, blinding, h, pk).plus_amount(shift) == encryption(
            amount + shift,
            blinding,
            h,
            pk,
        ),
        encryption(amount, blinding, h, pk).minus_amount(shift) == encryption(
            amount - shift,
            blinding,
            h,
            pk,
        ),
{
    let masked = amount + blinding * h;
    lemma_add_mod_noop_right(shift, masked, group_order());
    lemma_add_mod_noop_right(-shift, masked, group_order());
    assert(shift + masked == (amount + shift) + blinding * h);
    assert(-shift + masked == (amount - shift) + blinding * h);
}

} // verus!

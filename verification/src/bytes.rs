//! Fixed-width byte strings: comparison and big-endian integers.

use vstd::prelude::*;

verus! {

/// The eight bytes of `value`, most significant first.
pub open spec fn u64_be_bytes(value: u64) -> Seq<u8> {
    seq![
        (value / 0x100_0000_0000_0000) as u8,
        (value / 0x1_0000_0000_0000 % 0x100) as u8,
        (value / 0x100_0000_0000 % 0x100) as u8,
        (value / 0x1_0000_0000 % 0x100) as u8,
        (value / 0x100_0000 % 0x100) as u8,
        (value / 0x1_0000 % 0x100) as u8,
        (value / 0x100 % 0x100) as u8,
        (value % 0x100) as u8,
    ]
}

/// The integer that eight bytes spell, most significant first.
pub open spec fn u64_from_be_bytes(bytes: Seq<u8>) -> u64
    recommends
        bytes.len() == 8,
{
    (bytes[0] * 0x100_0000_0000_0000 + bytes[1] * 0x1_0000_0000_0000 + bytes[2] * 0x100_0000_0000
        + bytes[3] * 0x1_0000_0000 + bytes[4] * 0x100_0000 + bytes[5] * 0x1_0000 + bytes[6] * 0x100
        + bytes[7]) as u64
}

/// The two bytes of `value`, most significant first.
pub open spec fn u16_be_bytes(value: u16) -> Seq<u8> {
    seq![(value / 0x100) as u8, (value % 0x100) as u8]
}

/// Reading back the bytes of an integer gives the integer.
pub proof fn lemma_u64_be_round_trip(value: u64)
    ensures
        u64_be_bytes(value).len() == 8,
        u64_from_be_bytes(u64_be_bytes(value)) == value,
{
    assert(((value / 0x100_0000_0000_0000) as u8) * 0x100_0000_0000_0000 + ((value
        / 0x1_0000_0000_0000 % 0x100) as u8) * 0x1_0000_0000_0000 + ((value / 0x100_0000_0000
        % 0x100) as u8) * 0x100_0000_0000 + ((value / 0x1_0000_0000 % 0x100) as u8) * 0x1_0000_0000
        + ((value / 0x100_0000 % 0x100) as u8) * 0x100_0000 + ((value / 0x1_0000 % 0x100) as u8)
        * 0x1_0000 + ((value / 0x100 % 0x100) as u8) * 0x100 + ((value % 0x100) as u8) == value)
        by (bit_vector);
}

/// Writing out the integer that eight bytes spell gives the same bytes.
pub proof fn lemma_u64_be_bytes_unique(bytes: Seq<u8>)
    requires
        bytes.len() == 8,
    ensures
        u64_be_bytes(u64_from_be_bytes(bytes)) == bytes,
{
    let b0 = bytes[0];
    let b1 = bytes[1];
    let b2 = bytes[2];
    let b3 = bytes[3];
    let b4 = bytes[4];
    let b5 = bytes[5];
    let b6 = bytes[6];
    let b7 = bytes[7];
    let value = u64_from_be_bytes(bytes);
    assert(value == b0 * 0x100_0000_0000_0000 + b1 * 0x1_0000_0000_0000 + b2 * 0x100_0000_0000 + b3
        * 0x1_0000_0000 + b4 * 0x100_0000 + b5 * 0x1_0000 + b6 * 0x100 + b7);
    assert({
        &&& (value / 0x100_0000_0000_0000) as u8 == b0
        &&& (value / 0x1_0000_0000_0000 % 0x100) as u8 == b1
        &&& (value / 0x100_0000_0000 % 0x100) as u8 == b2
        &&& (value / 0x1_0000_0000 % 0x100) as u8 == b3
        &&& (value / 0x100_0000 % 0x100) as u8 == b4
        &&& (value / 0x1_0000 % 0x100) as u8 == b5
        &&& (value / 0x100 % 0x100) as u8 == b6
        &&& (value % 0x100) as u8 == b7
    }) by (bit_vector)
        requires
            value == b0 * 0x100_0000_0000_0000 + b1 * 0x1_0000_0000_0000 + b2 * 0x100_0000_0000 + b3
                * 0x1_0000_0000 + b4 * 0x100_0000 + b5 * 0x1_0000 + b6 * 0x100 + b7,
    ;
    assert(u64_be_bytes(value) =~= bytes);
}

/// The big-endian bytes of a `u64`.
pub fn u64_to_be(value: u64) -> (r: [u8; 8])
    ensures
        r@ == u64_be_bytes(value),
{
    let r: [u8; 8] = [
        (value / 0x100_0000_0000_0000) as u8,
        (value / 0x1_0000_0000_0000 % 0x100) as u8,
        (value / 0x100_0000_0000 % 0x100) as u8,
        (value / 0x1_0000_0000 % 0x100) as u8,
        (value / 0x100_0000 % 0x100) as u8,
        (value / 0x1_0000 % 0x100) as u8,
        (value / 0x100 % 0x100) as u8,
        (value % 0x100) as u8,
    ];
    assert(r@ =~= u64_be_bytes(value));
    r
}

/// The `u64` that eight big-endian bytes spell.
pub fn u64_from_be(bytes: &[u8; 8]) -> (r: u64)
    ensures
        r == u64_from_be_bytes(bytes@),
{
    let b0: u64 = bytes[0] as u64;
    let b1: u64 = bytes[1] as u64;
    let b2: u64 = bytes[2] as u64;
    let b3: u64 = bytes[3] as u64;
    let b4: u64 = bytes[4] as u64;
    let b5: u64 = bytes[5] as u64;
    let b6: u64 = bytes[6] as u64;
    let b7: u64 = bytes[7] as u64;
    b0 * 0x100_0000_0000_0000 + b1 * 0x1_0000_0000_0000 + b2 * 0x100_0000_0000 + b3 * 0x1_0000_0000
        + b4 * 0x100_0000 + b5 * 0x1_0000 + b6 * 0x100 + b7
}

/// The big-endian bytes of a `u16`.
pub fn u16_to_be(value: u16) -> (r: [u8; 2])
    ensures
        r@ == u16_be_bytes(value),
{
    let r: [u8; 2] = [(value / 0x100) as u8, (value % 0x100) as u8];
    assert(r@ =~= u16_be_bytes(value));
    r
}

/// Whether two byte strings of the same fixed length hold the same bytes.
pub fn bytes_equal<const N: usize>(a: &[u8; N], b: &[u8; N]) -> (r: bool)
    ensures
        r == (a@ == b@),
{
    let mut i: usize = 0;
    while i < N
        invariant
            i <= N,
            forall|j: int| 0 <= j < i ==> a@[j] == b@[j],
        decreases N - i,
    {
        if a[i] != b[i] {
            return false;
        }
        i += 1;
    }
    assert(a@ =~= b@);
    true
}

} // verus!

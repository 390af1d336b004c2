use std::borrow::Cow;
use xelis_common::block::{BlockHeader, MinerWork, BLOCK_WORK_SIZE, EXTRA_NONCE_SIZE};
use xelis_common::crypto::{pow_hash_with_scratch_pad, PublicKey, ScratchPad, XelisHashError};
use xelis_common::serializer::{Reader, ReaderError, Writer};

fn work_hash() -> xelis_common::crypto::hash::Hash {
    let mut bytes = [0u8; 32];
    for i in 0..32 {
        bytes[i] = i as u8 + 1;
    }
    xelis_common::crypto::hash::Hash::new(bytes)
}

fn miner_key() -> PublicKey {
    PublicKey::new([0xab; 32])
}

fn expected_bytes(timestamp: u64, nonce: u64, extra_nonce: [u8; 32], miner: [u8; 32]) -> Vec<u8> {
    let mut bytes = Vec::new();
    bytes.extend_from_slice(work_hash().as_bytes());
    bytes.extend_from_slice(&timestamp.to_be_bytes());
    bytes.extend_from_slice(&nonce.to_be_bytes());
    bytes.extend_from_slice(&extra_nonce);
    bytes.extend_from_slice(&miner);
    bytes
}

fn padded(bytes: &[u8]) -> [u8; 200] {
    let mut input = [0u8; 200];
    input[..bytes.len()].copy_from_slice(bytes);
    input
}

fn reference_hash(bytes: &[u8]) -> [u8; 32] {
    let mut input = xelis_hash::AlignedInput::default();
    input.as_mut_slice().unwrap()[..bytes.len()].copy_from_slice(bytes);
    let mut scratch_pad = xelis_hash::ScratchPad::default();
    xelis_hash::xelis_hash(input.as_mut_slice().unwrap(), &mut scratch_pad).unwrap()
}

#[test]
fn new_work_starts_empty() {
    let work = MinerWork::new(work_hash(), 1_700_000_000_000);
    assert_eq!(work.nonce(), 0);
    assert_eq!(work.get_timestamp(), 1_700_000_000_000);
    assert_eq!(*work.get_header_work_hash(), work_hash());
    assert_eq!(work.get_miner(), None);
    let (hash, timestamp, nonce, miner, extra_nonce) = work.take();
    assert_eq!(hash, work_hash());
    assert_eq!(timestamp, 1_700_000_000_000);
    assert_eq!(nonce, 0);
    assert_eq!(miner, None);
    assert_eq!(extra_nonce, [0u8; EXTRA_NONCE_SIZE]);
}

#[test]
fn work_from_block_takes_over_the_header() {
    let mut extra_nonce = [0u8; 32];
    extra_nonce[0] = 9;
    let header = BlockHeader::new(work_hash(), 42, extra_nonce, miner_key());
    assert_eq!(header.get_work_hash(), work_hash());
    assert_eq!(header.get_timestamp(), 42);
    let work = MinerWork::from_block(header);
    assert_eq!(work.nonce(), 0);
    assert_eq!(work.get_miner(), Some(&miner_key()));
    let (hash, timestamp, nonce, miner, extra) = work.take();
    assert_eq!(hash, work_hash());
    assert_eq!(timestamp, 42);
    assert_eq!(nonce, 0);
    assert_eq!(miner, Some(Cow::Owned(miner_key())));
    assert_eq!(extra, extra_nonce);
}

#[test]
fn wire_form_has_the_documented_layout() {
    let mut work = MinerWork::new(work_hash(), 0x0102_0304_0506_0708);
    assert_eq!(
        work.to_bytes(),
        expected_bytes(0x0102_0304_0506_0708, 0, [0u8; 32], [0u8; 32])
    );
    work.increase_nonce().unwrap();
    work.set_miner(Cow::Owned(miner_key()));
    work.set_thread_id(0x7f);
    let mut extra_nonce = [0u8; 32];
    extra_nonce[31] = 0x7f;
    let bytes = work.to_bytes();
    assert_eq!(bytes.len(), BLOCK_WORK_SIZE);
    assert_eq!(work.size(), 112);
    assert_eq!(
        bytes,
        expected_bytes(0x0102_0304_0506_0708, 1, extra_nonce, [0xab; 32])
    );
    assert_eq!(&bytes[32..40], &[1, 2, 3, 4, 5, 6, 7, 8]);
    assert_eq!(&bytes[40..48], &[0, 0, 0, 0, 0, 0, 0, 1]);

    let mut writer = Writer::new();
    writer.write_bytes(&[0xee]);
    work.write(&mut writer);
    assert_eq!(writer.total_write(), 113);
    assert_eq!(&writer.bytes()[1..], &bytes[..]);
}

#[test]
fn thread_ids_go_to_the_end_of_the_extra_nonce() {
    let mut work = MinerWork::new(work_hash(), 1);
    work.set_thread_id(5);
    let mut expected = [0u8; 32];
    expected[31] = 5;
    assert_eq!(*work.get_extra_nonce(), expected);
    work.set_thread_id_u16(0x1234);
    expected[30] = 0x12;
    expected[31] = 0x34;
    assert_eq!(*work.get_extra_nonce(), expected);
    work.get_extra_nonce()[0] = 0xaa;
    expected[0] = 0xaa;
    assert_eq!(work.take().4, expected);
}

#[test]
fn borrowed_miner_key() {
    let key = miner_key();
    let mut work = MinerWork::new(work_hash(), 1);
    work.set_miner(Cow::Borrowed(&key));
    assert_eq!(work.get_miner(), Some(&key));
    assert_eq!(&work.to_bytes()[80..], &[0xab; 32][..]);
    let copy = work.clone();
    assert_eq!(copy.get_miner(), Some(&key));
    assert_eq!(copy.to_bytes(), work.to_bytes());
}

#[test]
fn read_gives_back_what_was_written() {
    let header = BlockHeader::new(work_hash(), 77, [3u8; 32], miner_key());
    let mut work = MinerWork::from_block(header);
    work.increase_nonce().unwrap();
    work.increase_nonce().unwrap();
    let bytes = work.to_bytes();
    let mut reader = Reader::new(&bytes);
    let back = MinerWork::read(&mut reader).unwrap();
    assert_eq!(reader.total_read(), 112);
    assert_eq!(reader.size(), 0);
    assert_eq!(back.nonce(), 2);
    assert_eq!(back.get_timestamp(), 77);
    assert_eq!(*back.get_header_work_hash(), work_hash());
    assert_eq!(back.get_miner(), Some(&miner_key()));
    assert_eq!(back.to_bytes(), bytes);

    // A work unit without a miner comes back with the all-zero key.
    let anonymous = MinerWork::new(work_hash(), 1).to_bytes();
    let mut reader = Reader::new(&anonymous);
    let back = MinerWork::read(&mut reader).unwrap();
    assert_eq!(back.get_miner(), Some(&PublicKey::new([0u8; 32])));
}

#[test]
fn read_rejects_other_lengths() {
    let bytes = MinerWork::new(work_hash(), 1).to_bytes();
    let mut short = Reader::new(&bytes[..111]);
    assert_eq!(MinerWork::read(&mut short).err(), Some(ReaderError::InvalidSize));
    assert_eq!(short.total_read(), 0);

    let mut long = bytes.clone();
    long.push(0);
    let mut reader = Reader::new(&long);
    assert_eq!(MinerWork::read(&mut reader).err(), Some(ReaderError::InvalidSize));

    let mut empty = Reader::new(&[]);
    assert_eq!(MinerWork::read(&mut empty).err(), Some(ReaderError::InvalidSize));
}

#[test]
fn read_rejects_a_reader_that_has_moved() {
    let bytes = MinerWork::new(work_hash(), 1).to_bytes();
    let mut reader = Reader::new(&bytes);
    reader.read_u64().unwrap();
    assert_eq!(MinerWork::read(&mut reader).err(), Some(ReaderError::InvalidSize));
    // 104 bytes were left: hash, timestamp, nonce and extra nonce fit, the key did not.
    assert_eq!(reader.total_read(), 8 + 80);
}

#[test]
fn pow_hash_is_the_hash_of_the_padded_wire_form() {
    let mut scratch_pad = ScratchPad::default();
    let mut work = MinerWork::new(work_hash(), 1234);
    work.set_miner(Cow::Owned(miner_key()));
    let hash = work.get_pow_hash(&mut scratch_pad).unwrap();
    assert_eq!(hash.to_bytes(), reference_hash(&work.to_bytes()));
    assert_ne!(hash.as_bytes()[..], padded(&work.to_bytes())[..32]);
    // Asking again gives the same hash.
    assert_eq!(work.get_pow_hash(&mut scratch_pad).unwrap(), hash);
}

#[test]
fn kept_block_follows_timestamp_and_nonce() {
    let mut scratch_pad = ScratchPad::default();
    let mut work = MinerWork::new(work_hash(), 1234);
    let first = work.get_pow_hash(&mut scratch_pad).unwrap();

    work.set_timestamp(0xdead_beef_0000_0001).unwrap();
    let second = work.get_pow_hash(&mut scratch_pad).unwrap();
    assert_ne!(second, first);
    assert_eq!(second.to_bytes(), reference_hash(&work.to_bytes()));

    work.increase_nonce().unwrap();
    assert_eq!(work.nonce(), 1);
    let third = work.get_pow_hash(&mut scratch_pad).unwrap();
    assert_ne!(third, second);
    assert_eq!(third.to_bytes(), reference_hash(&work.to_bytes()));

    let mut fresh = MinerWork::new(work_hash(), 0xdead_beef_0000_0001);
    fresh.increase_nonce().unwrap();
    assert_eq!(fresh.get_pow_hash(&mut scratch_pad).unwrap(), third);
}

#[test]
fn kept_block_is_dropped_when_other_fields_change() {
    let mut scratch_pad = ScratchPad::default();
    let mut work = MinerWork::new(work_hash(), 1234);
    let first = work.get_pow_hash(&mut scratch_pad).unwrap();

    work.set_thread_id(1);
    let second = work.get_pow_hash(&mut scratch_pad).unwrap();
    assert_ne!(second, first);
    assert_eq!(second.to_bytes(), reference_hash(&work.to_bytes()));

    work.set_thread_id_u16(0x0203);
    let third = work.get_pow_hash(&mut scratch_pad).unwrap();
    assert_eq!(third.to_bytes(), reference_hash(&work.to_bytes()));

    work.set_miner(Cow::Owned(miner_key()));
    let fourth = work.get_pow_hash(&mut scratch_pad).unwrap();
    assert_eq!(fourth.to_bytes(), reference_hash(&work.to_bytes()));

    work.get_extra_nonce()[3] = 0x55;
    let fifth = work.get_pow_hash(&mut scratch_pad).unwrap();
    assert_eq!(fifth.to_bytes(), reference_hash(&work.to_bytes()));
    assert_ne!(fifth, fourth);
}

#[test]
fn pow_hash_known_answers() {
    let mut scratch_pad = ScratchPad::default();
    let zero = pow_hash_with_scratch_pad(&[0u8; 200], &mut scratch_pad).unwrap();
    assert_eq!(
        zero.to_bytes(),
        [
            0x0e, 0xbb, 0xbd, 0x8a, 0x31, 0xed, 0xad, 0xfe, 0x09, 0x8f, 0x2d, 0x77, 0x0d, 0x84,
            0xb7, 0x19, 0x58, 0x86, 0x75, 0xab, 0x88, 0xa0, 0xa1, 0x70, 0x67, 0xd0, 0x0a, 0x8f,
            0x36, 0x18, 0x22, 0x65,
        ]
    );
    let text = padded(b"xelis-hashing-algorithm");
    // The scratch pad is reused as it is: what the last call left in it does not matter.
    let hash = pow_hash_with_scratch_pad(&text, &mut scratch_pad).unwrap();
    assert_eq!(
        hash.to_bytes(),
        [
            106, 106, 173, 8, 207, 59, 118, 108, 176, 196, 9, 124, 250, 195, 3, 61, 30, 146, 238,
            182, 88, 83, 115, 81, 139, 56, 3, 28, 176, 86, 68, 21
        ]
    );
    // The input is left as it was.
    assert_eq!(text, padded(b"xelis-hashing-algorithm"));
}

#[test]
fn pow_hash_outcome_maps_both_cases() {
    let ok = xelis_common::crypto::hash::pow_hash_outcome(Ok([7u8; 32]));
    assert_eq!(ok, Ok(xelis_common::crypto::hash::Hash::new([7u8; 32])));
    let err = xelis_common::crypto::hash::pow_hash_outcome(Err(xelis_hash::Error));
    assert_eq!(err, Err(XelisHashError));
}

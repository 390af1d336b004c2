use xelis_common::bytes::{bytes_equal, u16_to_be, u64_from_be, u64_to_be};
use xelis_common::crypto::PublicKey;
use xelis_common::serializer::{Reader, ReaderError, Writer};

#[test]
fn big_endian_u64() {
    assert_eq!(u64_to_be(0), [0u8; 8]);
    assert_eq!(u64_to_be(1), [0, 0, 0, 0, 0, 0, 0, 1]);
    assert_eq!(u64_to_be(0x0102_0304_0506_0708), [1, 2, 3, 4, 5, 6, 7, 8]);
    assert_eq!(u64_to_be(u64::MAX), [0xff; 8]);
    assert_eq!(u64_to_be(0xfedc_ba98_7654_3210), 0xfedc_ba98_7654_3210u64.to_be_bytes());
    assert_eq!(u64_from_be(&[1, 2, 3, 4, 5, 6, 7, 8]), 0x0102_0304_0506_0708);
    assert_eq!(u64_from_be(&[0xff; 8]), u64::MAX);
    assert_eq!(u64_from_be(&[0; 8]), 0);
    assert_eq!(u64_from_be(&u64_to_be(1_700_000_000_123)), 1_700_000_000_123);
}

#[test]
fn big_endian_u16() {
    assert_eq!(u16_to_be(0), [0, 0]);
    assert_eq!(u16_to_be(0x1234), [0x12, 0x34]);
    assert_eq!(u16_to_be(u16::MAX), [0xff, 0xff]);
    assert_eq!(u16_to_be(255), [0, 255]);
    assert_eq!(u16_to_be(256), [1, 0]);
}

#[test]
fn byte_strings_compare_byte_by_byte() {
    assert!(bytes_equal(&[1u8, 2, 3], &[1u8, 2, 3]));
    assert!(!bytes_equal(&[1u8, 2, 3], &[1u8, 2, 4]));
    assert!(!bytes_equal(&[0u8, 2, 3], &[1u8, 2, 3]));
    assert!(bytes_equal::<0>(&[], &[]));
}

#[test]
fn writer_appends_in_order() {
    let mut writer = Writer::new();
    assert_eq!(writer.total_write(), 0);
    writer.write_u64(&0x0102_0304_0506_0708);
    writer.write_bytes(&[9, 10]);
    writer.write_hash(&xelis_common::crypto::hash::Hash::new([0x11; 32]));
    PublicKey::new([0x22; 32]).write(&mut writer);
    xelis_common::crypto::hash::Hash::zero().write(&mut writer);
    assert_eq!(writer.total_write(), 8 + 2 + 32 + 32 + 32);
    let bytes = writer.bytes();
    assert_eq!(&bytes[..10], &[1, 2, 3, 4, 5, 6, 7, 8, 9, 10]);
    assert_eq!(&bytes[10..42], &[0x11; 32]);
    assert_eq!(&bytes[42..74], &[0x22; 32]);
    assert_eq!(&bytes[74..], &[0; 32]);
}

#[test]
fn reader_walks_the_message() {
    let mut message = vec![0, 0, 0, 0, 0, 0, 1, 0];
    message.extend_from_slice(&[0x33; 32]);
    message.extend_from_slice(&[0x44; 32]);
    message.extend_from_slice(&[0x55; 32]);
    message.push(0x66);
    let mut reader = Reader::new(&message);
    assert_eq!(reader.total_size(), 105);
    assert_eq!(reader.total_read(), 0);
    assert_eq!(reader.size(), 105);
    assert_eq!(reader.read_u64(), Ok(256));
    assert_eq!(reader.total_read(), 8);
    assert_eq!(reader.read_bytes_32(), Ok([0x33; 32]));
    assert_eq!(
        reader.read_hash(),
        Ok(xelis_common::crypto::hash::Hash::new([0x44; 32]))
    );
    assert_eq!(PublicKey::read(&mut reader), Ok(PublicKey::new([0x55; 32])));
    assert_eq!(reader.size(), 1);
    assert_eq!(reader.total_size(), 105);
}

#[test]
fn reader_fails_without_moving() {
    let message = [1u8, 2, 3, 4, 5, 6, 7];
    let mut reader = Reader::new(&message);
    assert_eq!(reader.read_u64(), Err(ReaderError::InvalidSize));
    assert_eq!(reader.read_bytes_32(), Err(ReaderError::InvalidSize));
    assert_eq!(reader.read_hash(), Err(ReaderError::InvalidSize));
    assert_eq!(
        xelis_common::crypto::hash::Hash::read(&mut reader),
        Err(ReaderError::InvalidSize)
    );
    assert_eq!(PublicKey::read(&mut reader), Err(ReaderError::InvalidSize));
    assert_eq!(reader.total_read(), 0);
    assert_eq!(reader.size(), 7);

    let exact = [0u8; 8];
    let mut reader = Reader::new(&exact);
    assert_eq!(reader.read_u64(), Ok(0));
    assert_eq!(reader.read_u64(), Err(ReaderError::InvalidSize));
    assert_eq!(reader.total_read(), 8);
}

#[test]
fn sizes_on_the_wire() {
    assert_eq!(xelis_common::crypto::hash::Hash::zero().size(), 32);
    assert_eq!(PublicKey::new([1; 32]).size(), 32);
    assert_eq!(PublicKey::new([1; 32]).to_bytes(), [1; 32]);
    assert_eq!(PublicKey::new([1; 32]).as_bytes(), &[1; 32]);
    assert_eq!(xelis_common::crypto::hash::Hash::zero().to_bytes(), [0; 32]);
}

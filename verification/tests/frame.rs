use cards::error::ProtocolError;
use cards::frame::encode_frame;
use cards::frame::length_prefix;
use cards::frame::payload_len;
use cards::frame::MAX_PAYLOAD_LEN;
use cards::frame::PREFIX_LEN;

#[test]
fn frame_of_three_bytes() {
    let framed = encode_frame(&[7, 8, 9]).unwrap();
    assert_eq!(framed, vec![3, 0, 0, 0, 7, 8, 9]);
}

#[test]
fn frame_of_nothing_is_the_prefix_alone() {
    assert_eq!(encode_frame(&[]).unwrap(), vec![0, 0, 0, 0]);
}

#[test]
fn prefix_is_little_endian() {
    assert_eq!(length_prefix(1), vec![1, 0, 0, 0]);
    assert_eq!(length_prefix(0x0102_0304), vec![4, 3, 2, 1]);
    assert_eq!(length_prefix(258), vec![2, 1, 0, 0]);
    assert_eq!(length_prefix(u32::MAX), vec![255, 255, 255, 255]);
}

#[test]
fn prefix_is_read_as_it_was_written() {
    for len in [0u32, 1, 255, 256, 65_535, 65_536, 0xFF_FFFF, 0x0100_0000, u32::MAX] {
        let prefix = length_prefix(len);
        assert_eq!(prefix.len(), PREFIX_LEN);
        assert_eq!(payload_len(&prefix), len);
    }
    assert_eq!(payload_len(&[0x78, 0x56, 0x34, 0x12]), 0x1234_5678);
}

#[test]
fn the_longest_payload_is_framed() {
    assert_eq!(MAX_PAYLOAD_LEN, (1 << 24) - 1);
    let payload = vec![0xABu8; MAX_PAYLOAD_LEN];
    let framed = encode_frame(&payload).unwrap();
    assert_eq!(framed.len(), MAX_PAYLOAD_LEN + 4);
    assert_eq!(&framed[..4], &[0xFF, 0xFF, 0xFF, 0x00]);
    assert_eq!(payload_len(&framed[..4]), 0xFF_FFFF);
    assert_eq!(&framed[4..], &payload[..]);
}

#[test]
fn one_byte_more_is_too_large() {
    let payload = vec![0u8; MAX_PAYLOAD_LEN + 1];
    assert_eq!(encode_frame(&payload), Err(ProtocolError::PayloadTooLarge));
    let payload = vec![0u8; 1 << 25];
    assert_eq!(encode_frame(&payload), Err(ProtocolError::PayloadTooLarge));
}

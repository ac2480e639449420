use screencaster::endian::{read_be_u32, write_be_u32};
use screencaster::wire::{
    frame_message, is_close_sentinel, message_length, CLOSE_SENTINEL, LENGTH_PREFIX, LISTEN_ADDRESS, PORT,
};

#[test]
fn constants_of_the_protocol() {
    assert_eq!(PORT, 8080);
    assert_eq!(LENGTH_PREFIX, 4);
    assert_eq!(CLOSE_SENTINEL, 0);
    assert_eq!(LISTEN_ADDRESS, "0.0.0.0:8080");
}

#[test]
fn big_endian_bytes_of_a_length() {
    assert_eq!(write_be_u32(0x0102_0304), vec![1, 2, 3, 4]);
    assert_eq!(write_be_u32(0), vec![0, 0, 0, 0]);
    assert_eq!(write_be_u32(u32::MAX), vec![255, 255, 255, 255]);
    assert_eq!(write_be_u32(24), vec![0, 0, 0, 24]);
}

#[test]
fn big_endian_value_of_four_bytes() {
    assert_eq!(read_be_u32(&[1, 2, 3, 4]), Some(0x0102_0304));
    assert_eq!(read_be_u32(&[255, 255, 255, 255]), Some(u32::MAX));
    assert_eq!(read_be_u32(&[0, 0, 1, 0]), Some(256));
    assert_eq!(read_be_u32(&[1, 2, 3]), None);
    assert_eq!(read_be_u32(&[1, 2, 3, 4, 5]), None);
}

#[test]
fn big_endian_round_trip() {
    for value in [0u32, 1, 255, 256, 65535, 65536, 0x00FF_FFFF, 0x0100_0000, 0x1234_5678, u32::MAX] {
        assert_eq!(read_be_u32(&write_be_u32(value)), Some(value));
        assert_eq!(write_be_u32(value), value.to_be_bytes().to_vec());
    }
}

#[test]
fn message_is_length_then_payload() {
    assert_eq!(frame_message(&[0xAA, 0xBB]), Some(vec![0, 0, 0, 2, 0xAA, 0xBB]));
    assert_eq!(frame_message(&[]), Some(vec![0, 0, 0, 0]));
    let payload = vec![5u8; 300];
    let message = frame_message(&payload).unwrap();
    assert_eq!(&message[..4], &[0, 0, 1, 44]);
    assert_eq!(&message[4..], &payload[..]);
}

#[test]
fn message_length_reads_the_prefix() {
    assert_eq!(message_length(&[0, 0, 1, 44]), Some(300));
    assert_eq!(message_length(&[0, 0, 0, 0]), Some(0));
    assert_eq!(message_length(&[0, 0, 0]), None);
    assert_eq!(message_length(&[]), None);
}

#[test]
fn sentinel_is_one_zero_byte() {
    assert!(is_close_sentinel(&[0]));
    assert!(!is_close_sentinel(&[1]));
    assert!(!is_close_sentinel(&[]));
    assert!(!is_close_sentinel(&[0, 0]));
}

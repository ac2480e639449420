use screencaster::frame::{DecodeError, Frame};

fn sample_frame() -> Frame {
    Frame::new(2, 1, vec![1, 2, 3, 4, 5, 6, 7, 8]).unwrap()
}

#[test]
fn new_accepts_four_bytes_per_pixel() {
    let frame = Frame::new(3, 2, vec![7; 24]).unwrap();
    assert_eq!(frame.width(), 3);
    assert_eq!(frame.height(), 2);
    assert_eq!(frame.pixels(), &vec![7u8; 24]);
}

#[test]
fn new_rejects_other_lengths() {
    assert!(Frame::new(3, 2, vec![7; 23]).is_none());
    assert!(Frame::new(3, 2, vec![7; 25]).is_none());
    assert!(Frame::new(1, 1, vec![]).is_none());
}

#[test]
fn new_accepts_empty_frames() {
    let frame = Frame::new(0, 5, vec![]).unwrap();
    assert_eq!(frame.width(), 0);
    assert_eq!(frame.height(), 5);
    assert!(frame.pixels().is_empty());
    assert!(Frame::new(0, 0, vec![0]).is_none());
}

#[test]
fn new_compares_without_overflow() {
    assert!(Frame::new(u32::MAX, u32::MAX, vec![0; 4]).is_none());
    assert!(Frame::new(0x8000_0000, 0x8000_0000, vec![]).is_none());
}

#[test]
fn into_pixels_gives_the_bytes() {
    assert_eq!(sample_frame().into_pixels(), vec![1, 2, 3, 4, 5, 6, 7, 8]);
}

#[test]
fn encode_writes_little_endian_header_then_pixels() {
    let bytes = sample_frame().encode();
    assert_eq!(
        bytes,
        vec![2, 0, 0, 0, 1, 0, 0, 0, 8, 0, 0, 0, 0, 0, 0, 0, 1, 2, 3, 4, 5, 6, 7, 8]
    );
}

#[test]
fn encode_writes_every_byte_of_the_dimensions() {
    let frame = Frame::new(0x0102, 0, vec![]).unwrap();
    assert_eq!(frame.encode(), vec![2, 1, 0, 0, 0, 0, 0, 0, 0, 0, 0, 0, 0, 0, 0, 0]);
    let wide = Frame::new(0x0403_0201, 0, vec![]).unwrap();
    assert_eq!(&wide.encode()[..4], &[1, 2, 3, 4]);
}

#[test]
fn encode_is_deterministic() {
    assert_eq!(sample_frame().encode(), sample_frame().encode());
}

#[test]
fn decode_reads_what_encode_wrote() {
    let frame = sample_frame();
    let decoded = Frame::decode(&frame.encode()).unwrap();
    assert_eq!(decoded.width(), 2);
    assert_eq!(decoded.height(), 1);
    assert_eq!(decoded.pixels(), &vec![1, 2, 3, 4, 5, 6, 7, 8]);
    assert_eq!(decoded, frame);
}

#[test]
fn round_trip_of_a_larger_frame() {
    let mut pixels = Vec::new();
    for i in 0..(4 * 17 * 9) {
        pixels.push((i * 31 % 251) as u8);
    }
    let frame = Frame::new(17, 9, pixels.clone()).unwrap();
    let decoded = Frame::decode(&frame.encode()).unwrap();
    assert_eq!(decoded.width(), 17);
    assert_eq!(decoded.height(), 9);
    assert_eq!(decoded.pixels(), &pixels);
}

#[test]
fn round_trip_of_an_empty_frame() {
    let frame = Frame::new(0, 0, vec![]).unwrap();
    assert_eq!(Frame::decode(&frame.encode()), Ok(Frame::new(0, 0, vec![]).unwrap()));
}

#[test]
fn decode_rejects_short_header() {
    assert_eq!(Frame::decode(&[]), Err(DecodeError::Truncated));
    assert_eq!(Frame::decode(&[0]), Err(DecodeError::Truncated));
    assert_eq!(Frame::decode(&[1, 0, 0, 0, 1, 0, 0, 0, 4, 0, 0, 0, 0, 0, 0]), Err(DecodeError::Truncated));
}

#[test]
fn decode_rejects_missing_pixels() {
    let mut bytes = sample_frame().encode();
    bytes.pop();
    assert_eq!(Frame::decode(&bytes), Err(DecodeError::Truncated));
}

#[test]
fn decode_rejects_huge_length() {
    let bytes = vec![1, 0, 0, 0, 1, 0, 0, 0, 255, 255, 255, 255, 255, 255, 255, 255, 1, 2, 3, 4];
    assert_eq!(Frame::decode(&bytes), Err(DecodeError::Truncated));
}

#[test]
fn decode_rejects_wrong_dimensions() {
    let bytes = vec![2, 0, 0, 0, 1, 0, 0, 0, 4, 0, 0, 0, 0, 0, 0, 0, 1, 2, 3, 4];
    assert_eq!(Frame::decode(&bytes), Err(DecodeError::DimensionMismatch));
    let none = vec![1, 0, 0, 0, 1, 0, 0, 0, 0, 0, 0, 0, 0, 0, 0, 0];
    assert_eq!(Frame::decode(&none), Err(DecodeError::DimensionMismatch));
}

#[test]
fn decode_ignores_trailing_bytes() {
    let mut bytes = sample_frame().encode();
    bytes.extend_from_slice(&[9, 9, 9]);
    assert_eq!(Frame::decode(&bytes), Ok(sample_frame()));
}

#[test]
fn decode_reads_big_dimensions() {
    let bytes = vec![0, 0, 1, 0, 0, 0, 0, 0, 0, 0, 0, 0, 0, 0, 0, 0];
    let frame = Frame::decode(&bytes).unwrap();
    assert_eq!(frame.width(), 65536);
    assert_eq!(frame.height(), 0);
}

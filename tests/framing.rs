use inlay::frame::{
    decode_frame, encode_frame, length_prefix, payload_len, read_le_u32, FrameError, MAX_FRAME_LEN,
};

#[test]
fn prefix_is_little_endian() {
    assert_eq!(length_prefix(5), [5, 0, 0, 0]);
    assert_eq!(length_prefix(0x0102_0304), [4, 3, 2, 1]);
    assert_eq!(length_prefix(u32::MAX), [255, 255, 255, 255]);
    assert_eq!(read_le_u32(&[4, 3, 2, 1]), 0x0102_0304);
    assert_eq!(read_le_u32(&[255, 255, 255, 255]), u32::MAX);
}

#[test]
fn encode_prefixes_payload() {
    let f = encode_frame(&[9, 8, 7]).unwrap();
    assert_eq!(f, vec![3, 0, 0, 0, 9, 8, 7]);
    let empty = encode_frame(&[]).unwrap();
    assert_eq!(empty, vec![0, 0, 0, 0]);
}

#[test]
fn frame_round_trip_with_trailing_bytes() {
    let payload: Vec<u8> = (0..300u32).map(|i| (i % 251) as u8).collect();
    let mut stream = encode_frame(&payload).unwrap();
    stream.extend_from_slice(&[1, 2, 3]);
    let (p, used) = decode_frame(&stream).unwrap();
    assert_eq!(p, payload);
    assert_eq!(used, 304);
    let (p2, used2) = decode_frame(&encode_frame(&[]).unwrap()).unwrap();
    assert!(p2.is_empty());
    assert_eq!(used2, 4);
}

#[test]
fn truncated_frames_are_refused() {
    assert_eq!(decode_frame(&[]), Err(FrameError::Truncated));
    assert_eq!(decode_frame(&[5, 0, 0]), Err(FrameError::Truncated));
    assert_eq!(decode_frame(&[5, 0, 0, 0, 1, 2]), Err(FrameError::Truncated));
}

#[test]
fn oversized_length_is_refused() {
    let big = (MAX_FRAME_LEN as u32 + 1).to_le_bytes();
    assert_eq!(
        payload_len(big),
        Err(FrameError::TooLarge { declared: MAX_FRAME_LEN + 1 })
    );
    assert_eq!(payload_len([255, 255, 255, 255]), Err(FrameError::TooLarge { declared: u32::MAX as usize }));
    assert_eq!(
        decode_frame(&[255, 255, 255, 255, 0]),
        Err(FrameError::TooLarge { declared: u32::MAX as usize })
    );
    assert_eq!(payload_len((MAX_FRAME_LEN as u32).to_le_bytes()), Ok(MAX_FRAME_LEN));
    let payload = vec![0u8; MAX_FRAME_LEN + 1];
    assert_eq!(
        encode_frame(&payload),
        Err(FrameError::TooLarge { declared: MAX_FRAME_LEN + 1 })
    );
}

use staking_engine::codec::{decode_frame, encode_frame, CodecError, Header, FRAME_MAGIC, HEADER_SIZE};

#[test]
fn frame_round_trip() {
    let message: Vec<u8> = vec![1, 2, 3, 4, 5];
    let frame = encode_frame(77, &message).unwrap();
    assert_eq!(frame.len(), HEADER_SIZE + message.len());
    let (type_id, body, consumed) = decode_frame(&frame).unwrap().unwrap();
    assert_eq!(type_id, 77);
    assert_eq!(body, message);
    assert_eq!(consumed, frame.len());
}

#[test]
fn frame_header_layout() {
    let message: Vec<u8> = vec![0xAB; 10];
    let frame = encode_frame(0x0102_0304_0506_0708, &message).unwrap();
    // Magic, big endian.
    assert_eq!(&frame[0..4], &[0x42, 0x04, 0x20, 0x42]);
    // Type id, big endian.
    assert_eq!(&frame[4..12], &[0x01, 0x02, 0x03, 0x04, 0x05, 0x06, 0x07, 0x08]);
    // Length includes the header.
    assert_eq!(&frame[12..16], &[0, 0, 0, 30]);
    // Body follows the header.
    assert_eq!(&frame[20..], &message[..]);
}

#[test]
fn frame_checksum_matches_crc32() {
    let message: Vec<u8> = b"typed message body".to_vec();
    let frame = encode_frame(9, &message).unwrap();
    // Recompute the CRC-32 over the frame with the checksum field zeroed.
    let mut zeroed = frame.clone();
    for byte in &mut zeroed[16..20] {
        *byte = 0;
    }
    let expected = crc32fast::hash(&zeroed);
    let declared =
        u32::from_be_bytes([frame[16], frame[17], frame[18], frame[19]]);
    assert_eq!(declared, expected);
    // The checksum of a non-empty frame is not trivial.
    assert_ne!(declared, 0);
}

#[test]
fn frame_rejects_corruption() {
    let message: Vec<u8> = vec![9, 9, 9];
    let mut frame = encode_frame(1, &message).unwrap();
    frame[21] ^= 0xFF;
    match decode_frame(&frame) {
        Err(CodecError::ChecksumMismatch { .. }) => {}
        other => panic!("expected a checksum mismatch, got {:?}", other),
    }
}

#[test]
fn frame_rejects_bad_magic() {
    let message: Vec<u8> = vec![1];
    let mut frame = encode_frame(1, &message).unwrap();
    frame[0] = 0;
    match decode_frame(&frame) {
        Err(CodecError::InvalidMagic { magic }) => assert_eq!(magic, 0x0004_2042),
        other => panic!("expected an invalid magic, got {:?}", other),
    }
}

#[test]
fn frame_waits_for_more_bytes() {
    let message: Vec<u8> = vec![1, 2, 3, 4];
    let frame = encode_frame(5, &message).unwrap();
    // An incomplete header and an incomplete body both ask for more bytes.
    let short_header: Vec<u8> = frame[..10].to_vec();
    assert_eq!(decode_frame(&short_header).unwrap(), None);
    let short_body: Vec<u8> = frame[..frame.len() - 1].to_vec();
    assert_eq!(decode_frame(&short_body).unwrap(), None);
}

#[test]
fn header_preliminary_check() {
    let mut header = Header::new(3);
    assert_eq!(header.magic, FRAME_MAGIC);
    // A fresh header still carries no length.
    assert_eq!(
        header.preliminary_check(),
        Err(CodecError::InvalidLength { length: 0 })
    );
    header.length = 20;
    assert_eq!(header.preliminary_check(), Ok(()));
    header.magic = 1;
    assert_eq!(
        header.preliminary_check(),
        Err(CodecError::InvalidMagic { magic: 1 })
    );
}

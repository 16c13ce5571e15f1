use nearbysend::framing::{decode_frame, encode_frame, FrameDecode};

#[test]
fn frame_has_big_endian_length_prefix() {
    let f = encode_frame(&b"abc".to_vec()).unwrap();
    assert_eq!(f, vec![0, 0, 0, 3, 97, 98, 99]);
    let big = encode_frame(&vec![7u8; 70000]).unwrap();
    assert_eq!(&big[..4], &[0, 1, 0x11, 0x70]);
    assert_eq!(big.len(), 70004);
}

#[test]
fn frame_round_trips_with_trailing_bytes() {
    let mut buf = encode_frame(&b"hello".to_vec()).unwrap();
    buf.extend_from_slice(&[0, 0]);
    match decode_frame(&buf, 1024) {
        FrameDecode::Complete { payload, consumed } => {
            assert_eq!(payload, b"hello".to_vec());
            assert_eq!(consumed, 9);
        }
        other => panic!("unexpected {:?}", other),
    }
}

#[test]
fn partial_and_oversized_frames() {
    assert!(matches!(decode_frame(&vec![0, 0], 10), FrameDecode::Incomplete));
    assert!(matches!(decode_frame(&vec![0, 0, 0, 5, 1, 2], 10), FrameDecode::Incomplete));
    assert!(matches!(decode_frame(&vec![0, 0, 1, 0], 10), FrameDecode::TooLarge { declared: 256 }));
    let empty = encode_frame(&vec![]).unwrap();
    assert!(matches!(decode_frame(&empty, 0), FrameDecode::Complete { consumed: 4, .. }));
}

use exec_session::codec::DecodeResult;
use exec_session::codec::FrameType;
use exec_session::codec::HeaderInfo;
use exec_session::codec::decode_frame;
use exec_session::codec::encode_frame;
use exec_session::codec::error_frame_bytes;
use exec_session::codec::exit_frame_bytes;
use exec_session::codec::parse_header;
use exec_session::codec::u32_from_be_bytes;
use exec_session::codec::u32_to_be_bytes;

#[test]
fn type_codes_are_fixed() {
    assert_eq!(FrameType::ExecRequest.code(), 1);
    assert_eq!(FrameType::Stdin.code(), 2);
    assert_eq!(FrameType::Stdout.code(), 3);
    assert_eq!(FrameType::Stderr.code(), 4);
    assert_eq!(FrameType::Exit.code(), 5);
    assert_eq!(FrameType::Error.code(), 6);
}

#[test]
fn from_u8_inverts_code() {
    for code in 1u8..=6u8 {
        let t = FrameType::from_u8(code).expect("known code");
        assert_eq!(t.code(), code);
    }
    assert!(FrameType::from_u8(0).is_none());
    assert!(FrameType::from_u8(7).is_none());
    assert!(FrameType::from_u8(255).is_none());
}

#[test]
fn u32_big_endian_bytes() {
    assert_eq!(u32_to_be_bytes(0x0102_0304), vec![1, 2, 3, 4]);
    assert_eq!(u32_to_be_bytes(0), vec![0, 0, 0, 0]);
    assert_eq!(u32_to_be_bytes(u32::MAX), vec![0xff, 0xff, 0xff, 0xff]);
    assert_eq!(u32_from_be_bytes(&[1, 2, 3, 4]), 0x0102_0304);
    assert_eq!(u32_from_be_bytes(&[0, 0, 0, 7]), 7);
}

#[test]
fn encoded_frame_layout() {
    let bytes = encode_frame(FrameType::Stdout, b"hi\n");
    assert_eq!(bytes, vec![3, 0, 0, 0, 3, b'h', b'i', b'\n']);
}

#[test]
fn encoded_empty_payload() {
    let bytes = encode_frame(FrameType::Exit, &[]);
    assert_eq!(bytes, vec![5, 0, 0, 0, 0]);
}

#[test]
fn frame_round_trip_every_type() {
    let types = [
        FrameType::ExecRequest,
        FrameType::Stdin,
        FrameType::Stdout,
        FrameType::Stderr,
        FrameType::Exit,
        FrameType::Error,
    ];
    let payload: Vec<u8> = (0u8..=200u8).collect();
    for t in types {
        let bytes = encode_frame(t, &payload);
        match decode_frame(&bytes) {
            DecodeResult::Complete { frame, consumed } => {
                assert_eq!(frame.frame_type, t);
                assert_eq!(frame.payload, payload);
                assert_eq!(consumed, bytes.len());
            }
            _ => panic!("whole frame must decode"),
        }
    }
}

#[test]
fn decode_leaves_trailing_bytes() {
    let mut bytes = encode_frame(FrameType::Stdin, b"abc");
    bytes.extend_from_slice(&[9, 9, 9]);
    match decode_frame(&bytes) {
        DecodeResult::Complete { frame, consumed } => {
            assert_eq!(frame.payload, b"abc".to_vec());
            assert_eq!(consumed, 8);
        }
        _ => panic!("frame with trailing bytes must decode"),
    }
}

#[test]
fn partial_header_is_incomplete() {
    assert!(matches!(decode_frame(&[]), DecodeResult::Incomplete));
    assert!(matches!(decode_frame(&[3, 0, 0]), DecodeResult::Incomplete));
}

#[test]
fn truncated_payload_is_incomplete() {
    let bytes = encode_frame(FrameType::Stderr, b"diagnostic");
    assert!(matches!(decode_frame(&bytes[..bytes.len() - 1]), DecodeResult::Incomplete));
}

#[test]
fn unknown_type_byte_is_malformed() {
    let bytes = [42u8, 0, 0, 0, 0];
    match decode_frame(&bytes) {
        DecodeResult::Malformed { code } => assert_eq!(code, 42),
        _ => panic!("unknown type byte must be a framing error"),
    }
}

#[test]
fn header_parse_valid_and_invalid() {
    match parse_header(&[4, 0, 0, 1, 0]) {
        HeaderInfo::Valid { frame_type, length } => {
            assert_eq!(frame_type, FrameType::Stderr);
            assert_eq!(length, 256);
        }
        _ => panic!("valid header must parse"),
    }
    assert!(matches!(parse_header(&[0, 0, 0, 0, 1]), HeaderInfo::BadType { code: 0 }));
}

#[test]
fn exit_frame_carries_status_big_endian() {
    let zero = exit_frame_bytes(0);
    assert_eq!(zero, vec![5, 0, 0, 0, 4, 0, 0, 0, 0]);
    let minus_one = exit_frame_bytes(-1);
    let mut expected = vec![5, 0, 0, 0, 4];
    expected.extend_from_slice(&(-1i32).to_be_bytes());
    assert_eq!(minus_one, expected);
    let timeout = exit_frame_bytes(-2);
    let mut expected_timeout = vec![5, 0, 0, 0, 4];
    expected_timeout.extend_from_slice(&(-2i32).to_be_bytes());
    assert_eq!(timeout, expected_timeout);
}

#[test]
fn error_frame_carries_status() {
    let one = error_frame_bytes(1);
    let mut expected = vec![6, 0, 0, 0, 4];
    expected.extend_from_slice(&1i32.to_be_bytes());
    assert_eq!(one, expected);
}

#[test]
fn concatenated_whole_frames_decode_in_order() {
    let first = encode_frame(FrameType::Stdout, b"from one writer");
    let second = encode_frame(FrameType::Stderr, b"from another");
    let mut stream = first.clone();
    stream.extend_from_slice(&second);

    let mut offset = 0usize;
    let mut seen: Vec<(FrameType, Vec<u8>)> = Vec::new();
    while offset < stream.len() {
        match decode_frame(&stream[offset..]) {
            DecodeResult::Complete { frame, consumed } => {
                seen.push((frame.frame_type, frame.payload));
                offset += consumed;
            }
            _ => panic!("stream of whole frames must keep decoding"),
        }
    }
    assert_eq!(offset, stream.len());
    assert_eq!(
        seen,
        vec![
            (FrameType::Stdout, b"from one writer".to_vec()),
            (FrameType::Stderr, b"from another".to_vec()),
        ]
    );
}

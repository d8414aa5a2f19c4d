use rustyweb::{
    create_payload_buffer, decode_frame, get_actual_payload_length, parse_header, unmask_payload,
    Frame, FrameError, Opcode,
};

fn round_trip(len: usize) {
    let payload: Vec<u8> = (0..len).map(|i| (i % 251) as u8).collect();
    let frame = Frame::new(payload.clone(), Opcode::TEXT);
    let decoded = decode_frame(&frame.payload).unwrap().unwrap();
    assert_eq!(decoded, payload);
}

#[test]
fn test_round_trip_empty() {
    round_trip(0)
}

#[test]
fn test_round_trip_one_byte() {
    round_trip(1)
}

#[test]
fn test_round_trip_single_length_byte_boundary() {
    round_trip(125)
}

#[test]
fn test_round_trip_extended_length_boundary() {
    round_trip(126)
}

#[test]
fn test_round_trip_largest_supported() {
    round_trip(65535)
}

#[test]
fn test_encode_short_frame_bytes() {
    let frame = Frame::new(vec![b'h', b'i'], Opcode::TEXT);
    assert_eq!(frame.payload, vec![0x81, 2, b'h', b'i'])
}

#[test]
fn test_encode_close_frame_bytes() {
    let frame = Frame::new(vec![], Opcode::CLOSE);
    assert_eq!(frame.payload, vec![0x88, 0])
}

#[test]
fn test_encode_extended_length_header() {
    let payload = vec![0u8; 300];
    let frame = Frame::new(payload, Opcode::TEXT);
    assert_eq!(frame.payload[0], 0x81);
    assert_eq!(frame.payload[1], 126);
    assert_eq!(frame.payload[2], 1);
    assert_eq!(frame.payload[3], 44);
    assert_eq!(frame.payload.len(), 4 + 300)
}

#[test]
fn test_binary_opcode_fails_decode() {
    let bytes = vec![0x82, 0x01, 0xFF];
    assert!(matches!(decode_frame(&bytes), Err(FrameError::BadOpcode)))
}

#[test]
fn test_close_frame_decodes_to_end_of_stream() {
    let bytes = vec![0x88, 0x00];
    assert!(matches!(decode_frame(&bytes), Ok(None)))
}

#[test]
fn test_decode_masked_frame() {
    // "hi" masked with key [1, 2, 3, 4].
    let bytes = vec![0x81, 0x82, 1, 2, 3, 4, b'h' ^ 1, b'i' ^ 2];
    let decoded = decode_frame(&bytes).unwrap().unwrap();
    assert_eq!(decoded, vec![b'h', b'i'])
}

#[test]
fn test_decode_truncated_header() {
    let bytes = vec![0x81];
    assert!(matches!(decode_frame(&bytes), Err(FrameError::Truncated)))
}

#[test]
fn test_decode_truncated_payload() {
    let bytes = vec![0x81, 5, b'a', b'b'];
    assert!(matches!(decode_frame(&bytes), Err(FrameError::Truncated)))
}

#[test]
fn test_parse_header_text() {
    let h = parse_header([0x81, 0x85]).unwrap();
    assert!(h.is_final_frame);
    assert!(matches!(h.opcode, Opcode::TEXT));
    assert!(h.is_masked);
    assert_eq!(h.payload_length, 5)
}

#[test]
fn test_parse_header_close_unmasked() {
    let h = parse_header([0x88, 0x00]).unwrap();
    assert!(matches!(h.opcode, Opcode::CLOSE));
    assert!(!h.is_masked);
    assert_eq!(h.payload_length, 0)
}

#[test]
fn test_parse_header_bad_opcode() {
    assert!(matches!(parse_header([0x89, 0x00]), Err(FrameError::BadOpcode)))
}

#[test]
fn test_actual_length_small() {
    assert_eq!(get_actual_payload_length(125, &[]).unwrap(), 125)
}

#[test]
fn test_actual_length_sixteen_bit() {
    assert_eq!(get_actual_payload_length(126, &[0x01, 0x2C]).unwrap(), 300)
}

#[test]
fn test_actual_length_sixty_four_bit() {
    let ext = [0, 0, 0, 0, 0, 1, 0, 0];
    assert_eq!(get_actual_payload_length(127, &ext).unwrap(), 65536)
}

#[test]
fn test_actual_length_invalid_raw_field() {
    assert!(matches!(
        get_actual_payload_length(200, &[]),
        Err(FrameError::InvalidPayloadLength)
    ))
}

#[test]
fn test_actual_length_truncated_extension() {
    assert!(matches!(
        get_actual_payload_length(126, &[0x01]),
        Err(FrameError::Truncated)
    ))
}

#[test]
fn test_create_payload_buffer_exact_size() {
    let buf = create_payload_buffer(300);
    assert_eq!(buf.len(), 300);
    assert!(buf.iter().all(|b| *b == 0))
}

#[test]
fn test_unmask_is_involutive() {
    let payload = vec![1u8, 2, 3, 4, 5, 6, 7];
    let key = Some([0xAA, 0xBB, 0xCC, 0xDD]);
    let once = unmask_payload(payload.clone(), key);
    assert_ne!(once, payload);
    let twice = unmask_payload(once, key);
    assert_eq!(twice, payload)
}

#[test]
fn test_unmask_without_key_is_identity() {
    let payload = vec![9u8, 8, 7];
    assert_eq!(unmask_payload(payload.clone(), None), payload)
}

use kz_dsp::frame::{check_frame_header, encode_frame, parse_frame_len, u32_to_le_bytes, HeaderAction, HEADER_LEN, MAX_FRAME_LEN};

#[test]
fn parse_frame_len_reads_little_endian() {
    assert_eq!(parse_frame_len(&[0x10, 0x00, 0x00, 0x00]), 16);
    assert_eq!(parse_frame_len(&[0x01, 0x02, 0x03, 0x04]), 0x0403_0201);
    assert_eq!(parse_frame_len(&[0xff, 0xff, 0xff, 0xff]), u32::MAX);
    assert_eq!(parse_frame_len(&[0, 0, 0, 0]), 0);
}

#[test]
fn u32_to_le_bytes_matches_std() {
    for n in [0u32, 1, 255, 256, 65_535, 1_048_576, 0xdead_beef, u32::MAX] {
        assert_eq!(u32_to_le_bytes(n), n.to_le_bytes());
    }
}

#[test]
fn encode_frame_prefixes_length() {
    let payload = br#"{"cmd":"get_config"}"#;
    let frame = encode_frame(payload);
    assert_eq!(frame.len(), HEADER_LEN + payload.len());
    assert_eq!(&frame[..4], &(payload.len() as u32).to_le_bytes());
    assert_eq!(&frame[4..], &payload[..]);
}

#[test]
fn encode_frame_empty_payload() {
    assert_eq!(encode_frame(&[]), vec![0, 0, 0, 0]);
}

#[test]
fn frame_roundtrip_through_header() {
    let payload: Vec<u8> = (0..300u32).map(|i| (i % 251) as u8).collect();
    let frame = encode_frame(&payload);
    let header: [u8; 4] = [frame[0], frame[1], frame[2], frame[3]];
    assert_eq!(parse_frame_len(&header) as usize, payload.len());
    assert_eq!(&frame[4..], &payload[..]);
}

#[test]
fn header_at_limit_is_read() {
    let h = (MAX_FRAME_LEN as u32).to_le_bytes();
    assert!(matches!(check_frame_header(&h), HeaderAction::ReadPayload(n) if n == 1_048_576));
    assert!(matches!(check_frame_header(&[5, 0, 0, 0]), HeaderAction::ReadPayload(5)));
}

#[test]
fn header_over_limit_closes() {
    let h = (MAX_FRAME_LEN as u32 + 1).to_le_bytes();
    assert!(matches!(check_frame_header(&h), HeaderAction::Close(1_048_577)));
    assert!(matches!(check_frame_header(&[0xff; 4]), HeaderAction::Close(u32::MAX)));
}

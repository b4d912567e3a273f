use stab::frame::{encode_frame, FrameDecoder, FrameError, MAX_FRAME_LEN};

#[test]
fn encode_appends_delimiter() {
    let f = encode_frame(b"{\"E\":\"x\"}").unwrap();
    assert_eq!(f, b"{\"E\":\"x\"}\0".to_vec());
}

#[test]
fn encode_empty_body() {
    assert_eq!(encode_frame(b"").unwrap(), vec![0u8]);
}

#[test]
fn encode_rejects_delimiter_in_body() {
    assert_eq!(encode_frame(b"a\0b"), Err(FrameError::DelimiterInBody));
}

#[test]
fn decode_round_trip_with_rest() {
    let mut d = FrameDecoder::new();
    let mut wire = encode_frame(b"\"H\"").unwrap();
    wire.extend_from_slice(b"{\"I\":[1");
    d.push_bytes(&wire);
    assert_eq!(d.next_frame(), Ok(Some(b"\"H\"".to_vec())));
    assert_eq!(d.next_frame(), Ok(None));
    d.push_bytes(b"0000,null]}\0");
    assert_eq!(d.next_frame(), Ok(Some(b"{\"I\":[10000,null]}".to_vec())));
    assert_eq!(d.next_frame(), Ok(None));
}

#[test]
fn decode_two_frames_in_one_read() {
    let mut d = FrameDecoder::new();
    d.push_bytes(b"a\0bc\0");
    assert_eq!(d.next_frame(), Ok(Some(b"a".to_vec())));
    assert_eq!(d.next_frame(), Ok(Some(b"bc".to_vec())));
    assert_eq!(d.next_frame(), Ok(None));
}

#[test]
fn decode_empty_frame() {
    let mut d = FrameDecoder::new();
    d.push_bytes(b"\0");
    assert_eq!(d.next_frame(), Ok(Some(Vec::new())));
}

#[test]
fn decode_accepts_four_kib() {
    let body = vec![b'x'; 4096];
    let mut d = FrameDecoder::new();
    d.push_bytes(&encode_frame(&body).unwrap());
    assert_eq!(d.next_frame(), Ok(Some(body)));
}

#[test]
fn decode_rejects_overlong_frame() {
    let mut d = FrameDecoder::new();
    d.push_bytes(&vec![b'x'; MAX_FRAME_LEN + 1]);
    assert_eq!(d.next_frame(), Err(FrameError::TooLong));
    let mut e = FrameDecoder::new();
    let mut long = vec![b'y'; MAX_FRAME_LEN + 1];
    long.push(0);
    e.push_bytes(&long);
    assert_eq!(e.next_frame(), Err(FrameError::TooLong));
}

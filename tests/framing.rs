use tws_codec::framing::{make_message, read_msg, DecodeResult, FrameError};

fn complete(length: usize, payload: &str, remainder: &[u8]) -> Result<DecodeResult, FrameError> {
    Ok(DecodeResult::Complete {
        length,
        payload: payload.to_string(),
        remainder: remainder.to_vec(),
    })
}

const INCOMPLETE: Result<DecodeResult, FrameError> = Ok(DecodeResult::Incomplete { consumed: 0 });

#[test]
fn encode_hello_exact_bytes() {
    let frame = make_message("hello").unwrap();
    assert_eq!(frame, vec![0x00, 0x00, 0x00, 0x05, b'h', b'e', b'l', b'l', b'o']);
}

#[test]
fn decode_hello_frame() {
    let bytes = [0x00, 0x00, 0x00, 0x05, b'h', b'e', b'l', b'l', b'o'];
    assert_eq!(read_msg(&bytes), complete(5, "hello", &[]));
}

#[test]
fn encode_empty_payload() {
    assert_eq!(make_message("").unwrap(), vec![0, 0, 0, 0]);
    assert_eq!(read_msg(&[0, 0, 0, 0]), complete(0, "", &[]));
}

#[test]
fn encode_long_payload_prefix() {
    let payload = "x".repeat(0x0102);
    let frame = make_message(&payload).unwrap();
    assert_eq!(&frame[..4], &[0x00, 0x00, 0x01, 0x02]);
    assert_eq!(frame.len(), 4 + 0x0102);
}

#[test]
fn encode_rejects_non_ascii() {
    assert_eq!(make_message("caf\u{e9}"), Err(FrameError::NonAsciiPayload));
    assert_eq!(make_message("\u{80}"), Err(FrameError::NonAsciiPayload));
}

#[test]
fn encode_accepts_all_ascii() {
    let frame = make_message("\u{0}\u{7f}").unwrap();
    assert_eq!(frame, vec![0, 0, 0, 2, 0x00, 0x7f]);
}

#[test]
fn round_trip_payload() {
    let payload = "9\u{0}8\u{0}1\u{0}";
    let frame = make_message(payload).unwrap();
    assert_eq!(read_msg(&frame), complete(payload.len(), payload, &[]));
}

#[test]
fn short_buffer_is_incomplete() {
    assert_eq!(read_msg(&[]), INCOMPLETE);
    assert_eq!(read_msg(&[0]), INCOMPLETE);
    assert_eq!(read_msg(&[0, 0, 0]), INCOMPLETE);
}

#[test]
fn partial_payload_is_incomplete() {
    assert_eq!(read_msg(&[0, 0, 0, 5, b'h', b'e']), INCOMPLETE);
    assert_eq!(read_msg(&[0, 0, 0, 1]), INCOMPLETE);
    assert_eq!(read_msg(&[0xff, 0xff, 0xff, 0xff, 1, 2, 3]), INCOMPLETE);
}

#[test]
fn pipelined_frames() {
    let mut bytes = make_message("ab").unwrap();
    let second = make_message("cde").unwrap();
    bytes.extend_from_slice(&second);
    assert_eq!(read_msg(&bytes), complete(2, "ab", &second));
    assert_eq!(read_msg(&second), complete(3, "cde", &[]));
}

#[test]
fn trailing_partial_frame_is_kept() {
    let bytes = [0, 0, 0, 1, b'a', 0, 0];
    assert_eq!(read_msg(&bytes), complete(1, "a", &[0, 0]));
}

#[test]
fn invalid_text_is_malformed() {
    assert_eq!(read_msg(&[0, 0, 0, 1, 0xff]), Err(FrameError::MalformedFrame));
    assert_eq!(read_msg(&[0, 0, 0, 1, 0xc3, 0xa9]), Err(FrameError::MalformedFrame));
}

#[test]
fn non_ascii_text_is_decoded() {
    assert_eq!(read_msg(&[0, 0, 0, 2, 0xc3, 0xa9]), complete(2, "\u{e9}", &[]));
}

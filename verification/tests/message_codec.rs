use bytes::BytesMut;
use simple_doip::message_codec::MessageCodec;
use simple_doip::messages::{MessageError, OwnedMessage, OwnedPayload, ProtocolVersion};
use simple_doip::LogicalAddress;

/// Well-formed NACK frame: V2012, payload type 0x0000, length 1, one body byte.
const NACK_FRAME: [u8; 9] = [0x02, 0xFD, 0x00, 0x00, 0x00, 0x00, 0x00, 0x01, 0x03];

/// Valid header, but payload type 0x9999 is unmodeled: framing succeeds and the body
/// decode fails recoverably.
const UNSUPPORTED_FRAME: [u8; 9] = [0x02, 0xFD, 0x99, 0x99, 0x00, 0x00, 0x00, 0x01, 0x00];

/// Corrupt inverse protocol version (0xFE, expected 0xFD): framing-fatal.
const CORRUPT_HEADER: [u8; 8] = [0x02, 0xFE, 0x00, 0x00, 0x00, 0x00, 0x00, 0x00];

#[test]
fn partial_frame_returns_none_and_leaves_buffer_intact() {
    let mut codec = MessageCodec::new();
    let mut src = BytesMut::from(&NACK_FRAME[..4]);
    assert!(codec.decode(&mut src).unwrap().is_none());
    assert_eq!(src.len(), 4, "a partial frame must not be consumed");
}

#[test]
fn two_frames_in_one_buffer_both_decode() {
    let mut codec = MessageCodec::new();
    let mut src = BytesMut::new();
    src.extend_from_slice(&NACK_FRAME);
    src.extend_from_slice(&NACK_FRAME);

    let first = codec.decode(&mut src).unwrap().expect("first frame decodes");
    assert!(matches!(first.payload, OwnedPayload::DoIPNack(_)));
    let second = codec.decode(&mut src).unwrap().expect("second frame decodes");
    assert!(matches!(second.payload, OwnedPayload::DoIPNack(_)));
    assert!(src.is_empty(), "both frames should be consumed");
}

#[test]
fn unsupported_payload_type_is_skipped_not_fatal() {
    let mut codec = MessageCodec::new();
    let mut src = BytesMut::new();
    src.extend_from_slice(&UNSUPPORTED_FRAME);
    src.extend_from_slice(&NACK_FRAME);

    let decoded = codec
        .decode(&mut src)
        .expect("a recoverable body error must not surface as an error")
        .expect("the following valid frame should decode");
    assert!(matches!(decoded.payload, OwnedPayload::DoIPNack(_)));
    assert!(src.is_empty(), "both the skipped and the valid frame are consumed");
}

#[test]
fn corrupt_header_is_fatal() {
    let mut codec = MessageCodec::new();
    let mut src = BytesMut::from(&CORRUPT_HEADER[..]);
    let err = codec.decode(&mut src).unwrap_err();
    assert!(err.is_framing_fatal(), "got a non-fatal error: {err:?}");
    assert!(matches!(err, MessageError::VersionInverseIncorrect { .. }));
}

#[test]
fn unsupported_payload_alone_yields_none() {
    let mut codec = MessageCodec::new();
    let mut src = BytesMut::from(&UNSUPPORTED_FRAME[..]);
    assert!(
        codec.decode(&mut src).unwrap().is_none(),
        "skipping the only frame leaves nothing to return"
    );
    assert!(src.is_empty(), "the skipped frame is still consumed");
}

#[test]
fn codec_encodes_the_wire_bytes_after_what_is_buffered() {
    let mut codec = MessageCodec::new();
    let mut dst = BytesMut::from(&[0xAAu8][..]);
    let message = OwnedMessage::alive_check_response(ProtocolVersion::V2012, LogicalAddress(0x0E00));
    codec.encode(&message, &mut dst).unwrap();
    assert_eq!(
        &dst[..],
        &[0xAA, 0x02, 0xFD, 0x00, 0x08, 0x00, 0x00, 0x00, 0x02, 0x0E, 0x00][..]
    );
    let mut src = BytesMut::from(&dst[1..]);
    let decoded = codec.decode(&mut src).unwrap().unwrap();
    assert_eq!(decoded, message);
}

#[test]
fn a_short_body_after_a_sound_header_is_fatal() {
    // An alive check response body is two bytes; this frame declares one.
    let mut codec = MessageCodec::new();
    let mut src = BytesMut::from(&[0x02u8, 0xFD, 0x00, 0x08, 0x00, 0x00, 0x00, 0x01, 0x0E][..]);
    let err = codec.decode(&mut src).unwrap_err();
    assert!(matches!(err, MessageError::Incomplete { needed: 2, available: 1 }));
    assert_eq!(src.len(), 9, "nothing is consumed before a fatal error");
}

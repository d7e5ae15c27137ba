use simple_doip::messages::{Message, MessageError, Payload, PayloadType};
use simple_doip::try_frame;

#[test]
fn incomplete_header_returns_none() {
    let buf = [0x02u8, 0xFD, 0x00];
    assert!(matches!(try_frame(&buf), Ok(None)));
}

#[test]
fn complete_nack_frame_is_framed() {
    // 8-byte header + 1-byte NACK payload = 9 bytes total.
    let buf: [u8; 9] = [0x02, 0xFD, 0x00, 0x00, 0x00, 0x00, 0x00, 0x01, 0x03];
    let (frame, consumed) = try_frame(&buf).unwrap().unwrap();
    assert_eq!(consumed, 9);
    assert_eq!(frame.header.payload_type, PayloadType::NegativeAcknowledge);
    assert_eq!(frame.payload, &buf[8..9]);
}

/// A hostile `payload_length` of `u32::MAX` must yield `Ok(None)` (incomplete),
/// not overflow on 32-bit targets.
#[test]
fn huge_payload_length_does_not_overflow() {
    let buf: [u8; 8] = [0x02, 0xFD, 0x00, 0x00, 0xFF, 0xFF, 0xFF, 0xFF];
    assert!(matches!(try_frame(&buf), Ok(None)));
}

#[test]
fn corrupt_inverse_errors() {
    let buf: [u8; 8] = [0x02, 0xFE, 0x00, 0x00, 0x00, 0x00, 0x00, 0x00];
    assert!(matches!(
        try_frame(&buf),
        Err(MessageError::VersionInverseIncorrect { .. })
    ));
}

#[test]
fn frame_then_decode_recoverability() {
    // (a) valid NACK frame: framing succeeds, payload decode succeeds.
    let buf: [u8; 9] = [0x02, 0xFD, 0x00, 0x00, 0x00, 0x00, 0x00, 0x01, 0x03];
    let (frame, consumed) = try_frame(&buf).unwrap().unwrap();
    assert_eq!(consumed, 9);
    let payload = Payload::decode(frame.payload, frame.header.payload_type)
        .expect("a well-formed NACK payload should decode");
    assert!(matches!(payload, Payload::DoIPNack(_)));

    // (b) valid header, unmodeled payload type 0x9999: framing still succeeds, the
    // payload decode fails recoverably, and the frame boundary is still known.
    let buf: [u8; 9] = [0x02, 0xFD, 0x99, 0x99, 0x00, 0x00, 0x00, 0x01, 0x00];
    let (frame, consumed) = try_frame(&buf).unwrap().unwrap();
    assert_eq!(consumed, 9);
    assert_eq!(frame.payload, &buf[8..9]);
    let err = Payload::decode(frame.payload, frame.header.payload_type).unwrap_err();
    assert!(matches!(
        err,
        MessageError::UnsupportedPayloadType(PayloadType::Reserved(0x9999))
    ));
    assert!(!err.is_framing_fatal());
}

#[test]
fn framing_waits_for_the_whole_payload() {
    // The header declares three payload bytes; two are there.
    let buf: [u8; 10] = [0x02, 0xFD, 0x80, 0x01, 0x00, 0x00, 0x00, 0x03, 0x0E, 0x00];
    assert!(matches!(try_frame(&buf), Ok(None)));
}

#[test]
fn framing_leaves_the_next_frame_untouched() {
    let buf: [u8; 12] = [
        0x02, 0xFD, 0x00, 0x07, 0x00, 0x00, 0x00, 0x00, 0x02, 0xFD, 0x00, 0x07,
    ];
    let (frame, consumed) = try_frame(&buf).unwrap().unwrap();
    assert_eq!(consumed, 8);
    assert_eq!(frame.header.payload_type, PayloadType::AliveCheckRequest);
    assert!(frame.payload.is_empty());
    assert!(matches!(try_frame(&buf[consumed..]), Ok(None)));
}

#[test]
fn framing_agrees_with_message_decode() {
    // Framed but undecodable body: the message decoder fails the same way.
    let buf: [u8; 9] = [0x02, 0xFD, 0x99, 0x99, 0x00, 0x00, 0x00, 0x01, 0x00];
    assert!(try_frame(&buf).unwrap().is_some());
    assert!(matches!(
        Message::decode(&buf),
        Err(MessageError::UnsupportedPayloadType(PayloadType::Reserved(0x9999)))
    ));
    // Too short to frame: the decoder reports missing bytes.
    assert!(matches!(
        Message::decode(&buf[..5]),
        Err(MessageError::Incomplete { needed: 4, available: 1 })
    ));
}

#[test]
fn framing_does_not_look_at_payload_bytes() {
    let a: [u8; 10] = [0x02, 0xFD, 0x80, 0x01, 0x00, 0x00, 0x00, 0x02, 0x11, 0x22];
    let b: [u8; 10] = [0x02, 0xFD, 0x80, 0x01, 0x00, 0x00, 0x00, 0x02, 0xFF, 0x00];
    let (fa, na) = try_frame(&a).unwrap().unwrap();
    let (fb, nb) = try_frame(&b).unwrap().unwrap();
    assert_eq!(fa.header, fb.header);
    assert_eq!(na, nb);
    assert_eq!(fb.payload, &[0xFF, 0x00]);
}

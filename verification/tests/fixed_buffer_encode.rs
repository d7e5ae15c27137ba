use simple_doip::messages::{
    ActivationTypeCode, Message, MessageError, OwnedMessage, Payload, ProtocolVersion,
};
use simple_doip::{try_frame, LogicalAddress};

/// Encode a routing activation request into a stack buffer, frame it back
/// incrementally and decode it.
#[test]
fn encode_into_stack_buffer_frames_back() {
    let request = Message::routing_activation_request(
        ProtocolVersion::V2012,
        LogicalAddress(0x0E00),
        ActivationTypeCode::Default,
        None,
    );
    let mut buf = [0xAAu8; 64];
    let written = request.encode_into(&mut buf).unwrap();
    assert_eq!(written, 15);
    assert_eq!(
        &buf[..written],
        &[0x02, 0xFD, 0x00, 0x05, 0x00, 0x00, 0x00, 0x07, 0x0E, 0x00, 0x00, 0x00, 0x00, 0x00, 0x00]
    );
    // The bytes after the message are untouched.
    assert!(buf[written..].iter().all(|b| *b == 0xAA));

    assert!(matches!(try_frame(&buf[..written - 1]), Ok(None)));
    let (frame, consumed) = try_frame(&buf[..written]).unwrap().unwrap();
    assert_eq!(consumed, written);
    let payload = Payload::decode(frame.payload, frame.header.payload_type).unwrap();
    assert!(matches!(payload, Payload::RoutingActivationRequest(_)));
}

/// A diagnostic message written with the fixed-buffer encoder has the same bytes
/// as the growable-buffer encoder gives.
#[test]
fn encode_into_matches_encode() {
    let user_data: [u8; 2] = [0x10, 0x02];
    let message = Message::diagnostic_message(
        ProtocolVersion::V2012,
        LogicalAddress(0x0E00),
        LogicalAddress(0x1000),
        &user_data[..],
    );
    let mut grown = Vec::new();
    let n = message.encode(&mut grown).unwrap();
    let mut fixed = [0u8; 32];
    assert_eq!(message.encode_into(&mut fixed), Ok(n));
    assert_eq!(&fixed[..n], grown.as_slice());
    assert_eq!(
        grown,
        vec![0x02, 0xFD, 0x80, 0x01, 0x00, 0x00, 0x00, 0x06, 0x0E, 0x00, 0x10, 0x00, 0x10, 0x02]
    );
}

/// A buffer too short for the message is refused with both counts, and nothing
/// is written to it.
#[test]
fn encode_into_short_buffer_is_refused_untouched() {
    let message = OwnedMessage::alive_check_response(ProtocolVersion::V2012, LogicalAddress(0x0E80));
    let mut small = [0x55u8; 9];
    assert_eq!(
        message.encode_into(&mut small),
        Err(MessageError::InsufficientBuffer { needed: 10, available: 9 })
    );
    assert_eq!(small, [0x55u8; 9]);
    assert!(!MessageError::InsufficientBuffer { needed: 10, available: 9 }.is_framing_fatal());

    let mut exact = [0u8; 10];
    assert_eq!(message.encode_into(&mut exact), Ok(10));
    assert_eq!(exact, [0x02, 0xFD, 0x00, 0x08, 0x00, 0x00, 0x00, 0x02, 0x0E, 0x80]);
}

/// The header goes out with the length its payload occupies, whatever the held
/// header declared.
#[test]
fn encode_into_writes_the_occupied_length() {
    let mut message = OwnedMessage::alive_check_response(ProtocolVersion::V2012, LogicalAddress(0x0E80));
    message.header.payload_length = 99;
    let mut buf = [0u8; 16];
    assert_eq!(message.encode_into(&mut buf), Ok(10));
    assert_eq!(&buf[4..8], &[0x00, 0x00, 0x00, 0x02]);
}

/// Whatever decodes re-encodes, into a buffer of exactly its size, to a frame
/// that decodes to the same payload and payload type with nothing left over,
/// and encoding that again gives the same bytes.
#[test]
fn decoded_frames_reencode_idempotently() {
    let frames: [&[u8]; 4] = [
        // Diagnostic message whose header claims more bytes than the payload, followed by junk.
        &[0x02, 0xFD, 0x80, 0x01, 0x00, 0x00, 0x00, 0x06, 0x0E, 0x00, 0x10, 0x00, 0x22, 0xF1, 0xFF],
        // Negative acknowledge.
        &[0x02, 0xFD, 0x00, 0x00, 0x00, 0x00, 0x00, 0x01, 0x03],
        // Routing activation response with the OEM-specific tail.
        &[
            0x02, 0xFD, 0x00, 0x06, 0x00, 0x00, 0x00, 0x0D, 0x0E, 0x00, 0x10, 0x00, 0x10, 0x00, 0x00,
            0x00, 0x00, 0x01, 0x02, 0x03, 0x04,
        ],
        // Alive check request (empty payload).
        &[0x02, 0xFD, 0x00, 0x07, 0x00, 0x00, 0x00, 0x00],
    ];
    for data in frames {
        let (message, _rest) = Message::decode(data).unwrap();
        let size = message.encoded_size().unwrap();
        let mut encoded = vec![0u8; size];
        assert_eq!(message.encode_into(&mut encoded), Ok(size));
        let (reparsed, rest) = Message::decode(&encoded).unwrap();
        assert!(rest.is_empty());
        assert_eq!(message.payload, reparsed.payload);
        assert_eq!(message.header.payload_type, reparsed.header.payload_type);
        assert_eq!(reparsed.header.payload_length as usize, size - 8);
        let mut again = vec![0u8; reparsed.encoded_size().unwrap()];
        assert_eq!(reparsed.encode_into(&mut again), Ok(size));
        assert_eq!(encoded, again);
    }
}

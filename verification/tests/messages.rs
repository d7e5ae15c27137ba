use simple_doip::messages::{
    ActivationTypeCode, AliveCheckResponse, DiagnosticAckCode, DiagnosticMessage,
    DiagnosticMessageAck, DiagnosticPowerModeCode, EntityStatusNodeType, EntityStatusResponse,
    FurtherActionRequired, Header, Message, MessageError, NackCode, OwnedMessage, OwnedPayload,
    Payload, PayloadType, ProtocolVersion, RoutingActivationRequest, RoutingActivationResponse,
    RoutingActivationResponseCode, VehicleIdentificationResponse, VinGidSyncStatus,
};
use simple_doip::{try_frame, LogicalAddress};

/// A header whose inverse version byte matches decodes.
#[test]
fn messages_test_valid_messages() {
    let empty: [u8; 8] = [0x00, 0xFF, 0x00, 0x00, 0x00, 0x00, 0x00, 0x00];
    let header = Header::decode_exact(&empty).unwrap();
    assert_eq!(header.inverse_protocol_version, header.protocol_version.inverse());
    assert_eq!(header.protocol_version, ProtocolVersion::Reserved);
}

/// Check that we properly decode hex bytes.
#[test]
fn mod_test_valid_messages() {
    let buf: [u8; 9] = [0x02, 0xFD, 0x00, 0x00, 0x00, 0x00, 0x00, 0x01, 0x03];
    let deserialized_message: Message<'_> = Message::decode(&buf).unwrap().0;
    assert!(deserialized_message.header.protocol_version == ProtocolVersion::V2012);
    assert!(deserialized_message.header.payload_type == PayloadType::NegativeAcknowledge);
    assert!(deserialized_message.header.payload_length == 1);
    let buf: [u8; 15] = [
        0x01, 0xFE, 0x00, 0x01, 0x00, 0x00, 0x00, 0x07, 0x00, 0x00, 0x00, 0x00, 0x00, 0x00, 0x00,
    ];
    let deserialized_message: Message<'_> = Message::decode(&buf).unwrap().0;
    assert!(deserialized_message.header.protocol_version == ProtocolVersion::V2010);
    assert!(deserialized_message.header.payload_type == PayloadType::VehicleIdentificationRequest);
    assert!(deserialized_message.header.payload_length == 7);
}

#[test]
fn test_invalid_inverse() {
    let buf: [u8; 8] = [0x01, 0xFF, 0x00, 0x00, 0x00, 0x00, 0x00, 0x00];
    assert!(matches!(
        Message::decode(&buf),
        Err(MessageError::VersionInverseIncorrect { .. })
    ));
}

/// Encode a message, copy it into a stack buffer, and frame it back out again.
#[test]
fn test_no_std_stack_buffer_roundtrip() {
    let message: Message<'_> = Message::diagnostic_message(
        ProtocolVersion::V2012,
        LogicalAddress(0x0E00),
        LogicalAddress(0x1000),
        &[0x10u8, 0x02][..],
    );

    let mut encoded = Vec::new();
    let written = message.encode(&mut encoded).unwrap();
    let mut buf = [0u8; 64];
    buf[..written].copy_from_slice(&encoded);

    let (frame, consumed) = try_frame(&buf[..written]).unwrap().unwrap();
    assert_eq!(consumed, written);
    let payload = Payload::decode(frame.payload, frame.header.payload_type).unwrap();
    let decoded = Message { header: frame.header, payload };
    assert_eq!(decoded, message);
}

/// A routing activation response carrying `oem_specific` declares the 13 bytes
/// its encoding writes, so the framed bytes round-trip.
#[test]
fn test_routing_activation_response_oem_specific_round_trip() {
    let message: Message<'_> = Message::routing_activation_response(
        ProtocolVersion::V2012,
        LogicalAddress(0x0E00),
        LogicalAddress(0x1000),
        RoutingActivationResponseCode::RoutingSuccessfullyActivated,
        [0x00, 0x00, 0x00, 0x00],
        Some([0xDE, 0xAD, 0xBE, 0xEF]),
    );
    // 9 fixed bytes + 4 oem-specific bytes.
    assert_eq!(message.header.payload_length, 13);

    let mut buf = Vec::new();
    let written = message.encode(&mut buf).unwrap();

    let (frame, consumed) = try_frame(&buf[..written]).unwrap().unwrap();
    assert_eq!(consumed, written);
    let payload = Payload::decode(frame.payload, frame.header.payload_type).unwrap();
    let decoded = Message { header: frame.header, payload };
    assert_eq!(decoded, message);
}

/// One value of every payload variant survives `to_owned_payload` / `as_ref`.
#[test]
fn payload_conversion_roundtrip_all_variants() {
    let diag_data = [0x10u8, 0x02];
    let ack_data = [0x3Eu8, 0x00, 0xAA];

    let values: Vec<Payload<'_>> = vec![
        Payload::DoIPNack(NackCode::IncorrectPatternFormat),
        Payload::AliveCheckRequest,
        Payload::AliveCheckResponse(AliveCheckResponse { source_address: LogicalAddress(0x0E00) }),
        Payload::DiagnosticMessage(DiagnosticMessage {
            source_address: LogicalAddress(0x0E00),
            target_address: LogicalAddress(0x1000),
            user_data: &diag_data[..],
        }),
        Payload::DiagnosticMessageAck(DiagnosticMessageAck {
            source_address: LogicalAddress(0xFFFF),
            target_address: LogicalAddress(0x0001),
            ack_code: DiagnosticAckCode::TransportProtocolError,
            previous_message_data: &ack_data[..],
        }),
        Payload::DiagnosticMessageNack,
        Payload::EntityStatusRequest,
        Payload::EntityStatusResponse(EntityStatusResponse {
            node_type: EntityStatusNodeType::DoIPGateway,
            max_concurrent_tcp_sockets: 4,
            open_tcp_sockets: 0,
            max_data_size: 0x0000_FFFF,
        }),
        Payload::PowerModeInfoResponse(DiagnosticPowerModeCode::Ready),
        Payload::RoutingActivationRequest(RoutingActivationRequest {
            source_address: LogicalAddress(0x0E00),
            activation_type: ActivationTypeCode::Default,
            reserved: [0, 0, 0, 0],
            reserved_vehicle_manufacturer: Some([0xDE, 0xAD, 0xBE, 0xEF]),
        }),
        Payload::RoutingActivationResponse(RoutingActivationResponse {
            logical_address_tester: LogicalAddress(0x0E00),
            logical_address_of_doip_entity: LogicalAddress(0x1000),
            routing_activation_response_code:
                RoutingActivationResponseCode::RoutingSuccessfullyActivated,
            reserved_oem: [0, 0, 0, 0],
            oem_specific: Some([0xDE, 0xAD, 0xBE, 0xEF]),
        }),
        Payload::VehicleAnnouncement(VehicleIdentificationResponse {
            vin: [0x41; 17],
            logical_address: LogicalAddress(0x0E00),
            entity_id: [0x01, 0x02, 0x03, 0x04, 0x05, 0x06],
            group_id: Some([0x0A, 0x0B, 0x0C, 0x0D, 0x0E, 0x0F]),
            further_action: FurtherActionRequired::NoFurtherActionRequired,
            vin_gid_sync_status: VinGidSyncStatus::Synchronized,
        }),
        Payload::VehicleIdentificationRequest,
        Payload::VehicleIdentificationResponse(VehicleIdentificationResponse {
            vin: *b"1HGCM82633A004352",
            logical_address: LogicalAddress(0x1000),
            entity_id: [0xAA, 0xBB, 0xCC, 0xDD, 0xEE, 0xFF],
            group_id: None,
            further_action: FurtherActionRequired::NoFurtherActionRequired,
            vin_gid_sync_status: VinGidSyncStatus::Synchronized,
        }),
    ];

    assert_eq!(values.len(), 14, "expected one value per Payload variant");

    for p in &values {
        let owned = p.to_owned_payload();
        assert_eq!(&owned.as_ref(), p, "conversion mismatch for {p:?}");
    }
}

/// Owned constructors produce the same header as their borrowed counterparts.
#[test]
fn owned_message_matches_borrowed_headers() {
    let borrowed = Message::routing_activation_response(
        ProtocolVersion::V2012,
        LogicalAddress(0x0E00),
        LogicalAddress(0x1000),
        RoutingActivationResponseCode::RoutingSuccessfullyActivated,
        [0x00, 0x00, 0x00, 0x00],
        Some([0xDE, 0xAD, 0xBE, 0xEF]),
    );
    let owned = OwnedMessage::routing_activation_response(
        ProtocolVersion::V2012,
        LogicalAddress(0x0E00),
        LogicalAddress(0x1000),
        RoutingActivationResponseCode::RoutingSuccessfullyActivated,
        [0x00, 0x00, 0x00, 0x00],
        Some([0xDE, 0xAD, 0xBE, 0xEF]),
    );
    assert_eq!(borrowed.header, owned.header);
    assert_eq!(borrowed.header.payload_length, 13);

    let data = [0x22u8, 0xF1, 0x90, 0x00];
    let borrowed = Message::diagnostic_message(
        ProtocolVersion::V2012,
        LogicalAddress(0xE400),
        LogicalAddress(0x00FF),
        &data[..],
    );
    let owned = OwnedMessage::diagnostic_message(
        ProtocolVersion::V2012,
        LogicalAddress(0xE400),
        LogicalAddress(0x00FF),
        data.to_vec(),
    );
    assert_eq!(borrowed.header, owned.header);
    assert_eq!(borrowed.to_owned_message().as_ref().header, borrowed.header);

    let borrowed = Message::routing_activation_request(
        ProtocolVersion::V2012,
        LogicalAddress(0x0E00),
        ActivationTypeCode::Default,
        Some([0xDE, 0xAD, 0xBE, 0xEF]),
    );
    let owned = OwnedMessage::routing_activation_request(
        ProtocolVersion::V2012,
        LogicalAddress(0x0E00),
        ActivationTypeCode::Default,
        Some([0xDE, 0xAD, 0xBE, 0xEF]),
    );
    assert_eq!(borrowed.header, owned.header);
}

#[test]
fn test_print() {
    let ack = DiagnosticMessageAck {
        source_address: LogicalAddress(0x1234),
        target_address: LogicalAddress(0x5678),
        ack_code: DiagnosticAckCode::Reserved(8),
        previous_message_data: &[0x01, 0x02, 0x03][..],
    };
    let out = format!("{ack:?}");
    assert!(!out.is_empty());
}

#[test]
fn unsupported_payload_type_errors_not_panics() {
    // 0x0009 falls in the reserved range.
    let payload_type = PayloadType::from(0x0009u16);
    assert!(matches!(payload_type, PayloadType::Reserved(0x0009)));
    let result = Payload::decode(&[], payload_type);
    assert!(matches!(result, Err(MessageError::UnsupportedPayloadType(_))));

    // The power-mode info request has no payload variant and must also error.
    let result = Payload::decode(&[], PayloadType::DiagnosticPowerModeInfoRequest);
    assert!(matches!(result, Err(MessageError::UnsupportedPayloadType(_))));
}

#[test]
fn entity_status_request_decodes_empty() {
    let payload = Payload::decode(&[], PayloadType::DoIPEntityStatusRequest).unwrap();
    assert!(matches!(payload, Payload::EntityStatusRequest));
}

#[test]
fn vehicle_announcement_round_trips() {
    let response = VehicleIdentificationResponse {
        vin: [0x41; 17],
        logical_address: LogicalAddress(0x0E00),
        entity_id: [0x01, 0x02, 0x03, 0x04, 0x05, 0x06],
        group_id: Some([0x0A, 0x0B, 0x0C, 0x0D, 0x0E, 0x0F]),
        further_action: FurtherActionRequired::NoFurtherActionRequired,
        vin_gid_sync_status: VinGidSyncStatus::Synchronized,
    };
    let payload = Payload::VehicleAnnouncement(response);

    let mut buf = Vec::new();
    let written = payload.encode(&mut buf).unwrap();
    assert_eq!(written, payload.encoded_size().unwrap());

    let decoded = Payload::decode(&buf[..written], PayloadType::VehicleAnnouncement).unwrap();
    assert_eq!(decoded, payload);
}

#[test]
fn is_response_pairs_requests_with_their_answers() {
    let request = OwnedMessage::alive_check_request(ProtocolVersion::V2012);
    assert!(request.is_response(PayloadType::AliveCheckResponse));
    assert!(!request.is_response(PayloadType::DiagnosticMessage));

    let diag = OwnedMessage::default();
    assert!(diag.is_response(PayloadType::DiagnosticMessagePositiveAcknowledge));
    assert!(diag.is_response(PayloadType::DiagnosticMessageNegativeAcknowledge));
    assert!(diag.is_response(PayloadType::DiagnosticMessage));
    assert!(!diag.is_response(PayloadType::AliveCheckResponse));

    let vir = Message::decode(&[0x02, 0xFD, 0x00, 0x03, 0x00, 0x00, 0x00, 0x00])
        .unwrap()
        .0;
    assert!(vir.is_response(PayloadType::VehicleAnnouncement));
}

#[test]
fn constructors_declare_the_lengths_they_encode() {
    let ack = Message::diagnostic_message_ack(
        ProtocolVersion::V2012,
        LogicalAddress(0x1000),
        LogicalAddress(0x0E00),
        DiagnosticAckCode::OutOfMemory,
        &[0x10, 0x02],
    );
    // The positive-acknowledge type is stamped whatever the code.
    assert_eq!(ack.header.payload_type, PayloadType::DiagnosticMessagePositiveAcknowledge);
    assert_eq!(ack.header.payload_length, 7);
    assert_eq!(ack.header.inverse_protocol_version, 0xFD);

    let request = Message::routing_activation_request(
        ProtocolVersion::V2012,
        LogicalAddress(0x0E00),
        ActivationTypeCode::Default,
        None,
    );
    assert_eq!(request.header.payload_length, 7);
    let alive = OwnedMessage::alive_check_response(ProtocolVersion::V2012, LogicalAddress(0x0E00));
    assert_eq!(alive.header.payload_length, 2);
    let mut out = Vec::new();
    assert_eq!(alive.encode(&mut out).unwrap(), 10);
    assert_eq!(out, [0x02, 0xFD, 0x00, 0x08, 0x00, 0x00, 0x00, 0x02, 0x0E, 0x00]);

    let reply = OwnedMessage::vehicle_identification_response(
        ProtocolVersion::V2012,
        VehicleIdentificationResponse {
            vin: [0x41; 17],
            logical_address: LogicalAddress(0x1000),
            entity_id: [1, 2, 3, 4, 5, 6],
            group_id: None,
            further_action: FurtherActionRequired::NoFurtherActionRequired,
            vin_gid_sync_status: VinGidSyncStatus::Synchronized,
        },
    );
    assert_eq!(reply.header.payload_type, PayloadType::VehicleAnnouncement);
    assert_eq!(reply.header.payload_length, 33);
    assert!(matches!(reply.payload, OwnedPayload::VehicleIdentificationResponse(_)));
    assert_eq!(reply.encoded_size().unwrap(), 41);
}

#[test]
fn default_owned_message_is_an_empty_diagnostic_message() {
    let m = OwnedMessage::default();
    assert_eq!(m.header, Header::new(ProtocolVersion::V2012, PayloadType::DiagnosticMessage, 0));
    match m.payload {
        OwnedPayload::DiagnosticMessage(d) => {
            assert_eq!(d.source_address, LogicalAddress(0));
            assert_eq!(d.target_address, LogicalAddress(0));
            assert!(d.user_data.is_empty());
        }
        other => panic!("unexpected payload {other:?}"),
    }
}

#[test]
fn decode_reports_each_error() {
    // Payload shorter than its declared length.
    assert!(matches!(
        Message::decode(&[0x02, 0xFD, 0x00, 0x00, 0x00, 0x00, 0x00, 0x02, 0x03]),
        Err(MessageError::Incomplete { needed: 2, available: 1 })
    ));
    // Body shorter than the payload type needs.
    assert!(matches!(
        Message::decode(&[0x02, 0xFD, 0x00, 0x08, 0x00, 0x00, 0x00, 0x01, 0x0E]),
        Err(MessageError::Incomplete { needed: 2, available: 1 })
    ));
    // A whole-buffer decode with bytes left over.
    assert!(matches!(
        AliveCheckResponse::decode_exact(&[0x0E, 0x00, 0x01]),
        Err(MessageError::TrailingBytes { count: 1 })
    ));
    assert!(matches!(
        Header::decode_exact(&[0x02, 0xFD, 0x00, 0x00, 0x00, 0x00, 0x00, 0x00, 0x00]),
        Err(MessageError::TrailingBytes { count: 1 })
    ));
    assert!(MessageError::VersionInverseIncorrect { expected: 0xFD, value: 0xFE }.is_framing_fatal());
    assert!(MessageError::Incomplete { needed: 1, available: 0 }.is_framing_fatal());
    assert!(!MessageError::TrailingBytes { count: 1 }.is_framing_fatal());
}

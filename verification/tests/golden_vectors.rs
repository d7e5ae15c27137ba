//! Wire-format vectors: encode representative values of every wire type and compare
//! byte for byte with the ISO 13400-2 layout.
use simple_doip::messages::{
    ActivationTypeCode, AliveCheckResponse, DiagnosticAckCode, DiagnosticMessage,
    DiagnosticMessageAck, DiagnosticPowerModeCode, EntityStatusNodeType, EntityStatusResponse,
    FurtherActionRequired, Header, NackCode, Payload, PayloadType, ProtocolVersion,
    RoutingActivationRequest, RoutingActivationResponse, RoutingActivationResponseCode,
    VehicleIdentificationResponse, VinGidSyncStatus,
};
use simple_doip::LogicalAddress;

fn hex(bytes: &[u8]) -> String {
    bytes.iter().map(|b| format!("{b:02x}")).collect()
}

fn check_payload(name: &str, payload: Payload<'_>, expected: &str) {
    let mut out = Vec::new();
    let written = payload.encode(&mut out).unwrap_or_else(|_| panic!("{name}: encode failed"));
    assert_eq!(written, out.len(), "{name}: reported length");
    assert_eq!(hex(&out), expected, "{name}: wire bytes");
}

fn check_header(name: &str, header: Header, expected: &str) {
    let mut out = Vec::new();
    header.encode(&mut out).unwrap();
    assert_eq!(hex(&out), expected, "{name}: wire bytes");
}

/// Full frame: header with the payload's length, then the payload.
fn check_frame(name: &str, protocol_version: ProtocolVersion, payload_type: PayloadType, payload: Payload<'_>, expected: &str) {
    let length = u32::try_from(payload.encoded_size().unwrap()).unwrap();
    let mut out = Vec::new();
    let header_written = Header::new(protocol_version, payload_type, length).encode(&mut out).unwrap();
    let payload_written = payload.encode(&mut out).unwrap();
    assert_eq!(header_written + payload_written, out.len());
    assert_eq!(hex(&out), expected, "{name}: wire bytes");
}

#[test]
fn golden_header() {
    check_header("header_nack", Header::new(ProtocolVersion::V2012, PayloadType::NegativeAcknowledge, 1), "02fd000000000001");
    check_header("header_diag_9", Header::new(ProtocolVersion::V2012, PayloadType::DiagnosticMessage, 9), "02fd800100000009");
    check_header(
        "header_vid_request_2010",
        Header::new(ProtocolVersion::V2010, PayloadType::VehicleIdentificationRequest, 0),
        "01fe000100000000",
    );
}

#[test]
fn golden_nack_code() {
    check_payload("nack_incorrect_pattern", Payload::DoIPNack(NackCode::IncorrectPatternFormat), "00");
    check_payload("nack_unknown_payload_type", Payload::DoIPNack(NackCode::UnknownPayloadType), "01");
    check_payload("nack_message_too_large", Payload::DoIPNack(NackCode::MessageTooLarge), "02");
}

#[test]
fn golden_alive_check_response() {
    check_payload("alive_check_response_0000", Payload::AliveCheckResponse(AliveCheckResponse { source_address: LogicalAddress(0x0000) }), "0000");
    check_payload("alive_check_response_0e00", Payload::AliveCheckResponse(AliveCheckResponse { source_address: LogicalAddress(0x0E00) }), "0e00");
    check_payload("alive_check_response_ffff", Payload::AliveCheckResponse(AliveCheckResponse { source_address: LogicalAddress(0xFFFF) }), "ffff");
}

#[test]
fn golden_power_mode_code() {
    check_payload("power_mode_not_ready", Payload::PowerModeInfoResponse(DiagnosticPowerModeCode::NotReady), "00");
    check_payload("power_mode_ready", Payload::PowerModeInfoResponse(DiagnosticPowerModeCode::Ready), "01");
    check_payload("power_mode_not_supported", Payload::PowerModeInfoResponse(DiagnosticPowerModeCode::NotSupported), "02");
}

#[test]
fn golden_entity_status_response() {
    check_payload(
        "entity_status_gateway",
        Payload::EntityStatusResponse(EntityStatusResponse {
            node_type: EntityStatusNodeType::DoIPGateway,
            max_concurrent_tcp_sockets: 4,
            open_tcp_sockets: 0,
            max_data_size: 0x0000_FFFF,
        }),
        "0004000000ffff",
    );
    check_payload(
        "entity_status_node",
        Payload::EntityStatusResponse(EntityStatusResponse {
            node_type: EntityStatusNodeType::DoIPNode,
            max_concurrent_tcp_sockets: 1,
            open_tcp_sockets: 1,
            max_data_size: 64,
        }),
        "01010100000040",
    );
    check_payload(
        "entity_status_max",
        Payload::EntityStatusResponse(EntityStatusResponse {
            node_type: EntityStatusNodeType::DoIPNode,
            max_concurrent_tcp_sockets: 255,
            open_tcp_sockets: 255,
            max_data_size: u32::MAX,
        }),
        "01ffffffffffff",
    );
}

#[test]
fn golden_diagnostic_message() {
    check_payload(
        "diag_msg_empty",
        Payload::DiagnosticMessage(DiagnosticMessage {
            source_address: LogicalAddress(0x0E00),
            target_address: LogicalAddress(0x1000),
            user_data: &[][..],
        }),
        "0e001000",
    );
    check_payload(
        "diag_msg_session_control",
        Payload::DiagnosticMessage(DiagnosticMessage {
            source_address: LogicalAddress(0x0E00),
            target_address: LogicalAddress(0x1000),
            user_data: &[0x10u8, 0x02][..],
        }),
        "0e0010001002",
    );
    check_payload(
        "diag_msg_16_bytes",
        Payload::DiagnosticMessage(DiagnosticMessage {
            source_address: LogicalAddress(0xE400),
            target_address: LogicalAddress(0x00FF),
            user_data: &[
                0x22u8, 0xF1, 0x90, 0x00, 0x01, 0x02, 0x03, 0x04, 0x05, 0x06, 0x07, 0x08, 0x09, 0x0A,
                0x0B, 0x0C,
            ][..],
        }),
        "e40000ff22f190000102030405060708090a0b0c",
    );
}

#[test]
fn golden_diagnostic_message_ack() {
    check_payload(
        "diag_ack_positive_empty",
        Payload::DiagnosticMessageAck(DiagnosticMessageAck {
            source_address: LogicalAddress(0x1000),
            target_address: LogicalAddress(0x0E00),
            ack_code: DiagnosticAckCode::RoutingConfirmationAck,
            previous_message_data: &[][..],
        }),
        "10000e0000",
    );
    check_payload(
        "diag_ack_out_of_memory",
        Payload::DiagnosticMessageAck(DiagnosticMessageAck {
            source_address: LogicalAddress(0x1000),
            target_address: LogicalAddress(0x0E00),
            ack_code: DiagnosticAckCode::OutOfMemory,
            previous_message_data: &[0x10u8, 0x02][..],
        }),
        "10000e00051002",
    );
    check_payload(
        "diag_ack_transport_error",
        Payload::DiagnosticMessageAck(DiagnosticMessageAck {
            source_address: LogicalAddress(0xFFFF),
            target_address: LogicalAddress(0x0001),
            ack_code: DiagnosticAckCode::TransportProtocolError,
            previous_message_data: &[0x3Eu8, 0x00, 0xAA][..],
        }),
        "ffff0001083e00aa",
    );
}

#[test]
fn golden_routing_activation_request() {
    check_payload(
        "routing_req_default_no_tail",
        Payload::RoutingActivationRequest(RoutingActivationRequest {
            source_address: LogicalAddress(0x0E00),
            activation_type: ActivationTypeCode::Default,
            reserved: [0, 0, 0, 0],
            reserved_vehicle_manufacturer: None,
        }),
        "0e000000000000",
    );
    check_payload(
        "routing_req_default_with_tail",
        Payload::RoutingActivationRequest(RoutingActivationRequest {
            source_address: LogicalAddress(0x0E00),
            activation_type: ActivationTypeCode::Default,
            reserved: [0, 0, 0, 0],
            reserved_vehicle_manufacturer: Some([0xDE, 0xAD, 0xBE, 0xEF]),
        }),
        "0e000000000000deadbeef",
    );
    check_payload(
        "routing_req_central_security",
        Payload::RoutingActivationRequest(RoutingActivationRequest {
            source_address: LogicalAddress(0xE400),
            activation_type: ActivationTypeCode::CentralSecurity,
            reserved: [0, 0, 0, 0],
            reserved_vehicle_manufacturer: None,
        }),
        "e400e000000000",
    );
}

#[test]
fn golden_routing_activation_response() {
    check_payload(
        "routing_resp_success_no_oem",
        Payload::RoutingActivationResponse(RoutingActivationResponse {
            logical_address_tester: LogicalAddress(0x0E00),
            logical_address_of_doip_entity: LogicalAddress(0x1000),
            routing_activation_response_code: RoutingActivationResponseCode::RoutingSuccessfullyActivated,
            reserved_oem: [0, 0, 0, 0],
            oem_specific: None,
        }),
        "0e0010001000000000",
    );
    check_payload(
        "routing_resp_success_with_oem",
        Payload::RoutingActivationResponse(RoutingActivationResponse {
            logical_address_tester: LogicalAddress(0x0E00),
            logical_address_of_doip_entity: LogicalAddress(0x1000),
            routing_activation_response_code: RoutingActivationResponseCode::RoutingSuccessfullyActivated,
            reserved_oem: [0, 0, 0, 0],
            oem_specific: Some([0xDE, 0xAD, 0xBE, 0xEF]),
        }),
        "0e0010001000000000deadbeef",
    );
    check_payload(
        "routing_resp_denied_unknown_sa",
        Payload::RoutingActivationResponse(RoutingActivationResponse {
            logical_address_tester: LogicalAddress(0x0E00),
            logical_address_of_doip_entity: LogicalAddress(0x1000),
            routing_activation_response_code: RoutingActivationResponseCode::DeniedUnknownSourceAddress,
            reserved_oem: [0xAA, 0xBB, 0xCC, 0xDD],
            oem_specific: None,
        }),
        "0e00100000aabbccdd",
    );
}

#[test]
fn golden_vehicle_identification_response() {
    check_payload(
        "vid_resp_with_group_id",
        Payload::VehicleAnnouncement(VehicleIdentificationResponse {
            vin: [0x41; 17],
            logical_address: LogicalAddress(0x0E00),
            entity_id: [0x01, 0x02, 0x03, 0x04, 0x05, 0x06],
            group_id: Some([0x0A, 0x0B, 0x0C, 0x0D, 0x0E, 0x0F]),
            further_action: FurtherActionRequired::NoFurtherActionRequired,
            vin_gid_sync_status: VinGidSyncStatus::Synchronized,
        }),
        "4141414141414141414141414141414141\
         0e00\
         010203040506\
         0a0b0c0d0e0f\
         0000",
    );
    check_payload(
        "vid_resp_no_group_id",
        Payload::VehicleAnnouncement(VehicleIdentificationResponse {
            vin: *b"1HGCM82633A004352",
            logical_address: LogicalAddress(0x1000),
            entity_id: [0xAA, 0xBB, 0xCC, 0xDD, 0xEE, 0xFF],
            group_id: None,
            further_action: FurtherActionRequired::NoFurtherActionRequired,
            vin_gid_sync_status: VinGidSyncStatus::Synchronized,
        }),
        "314847434d383236333341303034333532\
         1000\
         aabbccddeeff\
         000000000000\
         0000",
    );
    check_payload(
        "vid_resp_further_action",
        Payload::VehicleAnnouncement(VehicleIdentificationResponse {
            vin: [0x30; 17],
            logical_address: LogicalAddress(0xE400),
            entity_id: [0, 0, 0, 0, 0, 1],
            group_id: Some([1, 1, 1, 1, 1, 1]),
            further_action: FurtherActionRequired::RoutingActivationRequiredToInitiateCentralSecurity,
            vin_gid_sync_status: VinGidSyncStatus::Incomplete,
        }),
        "3030303030303030303030303030303030\
         e400\
         000000000001\
         010101010101\
         1010",
    );
}

#[test]
fn golden_full_frames() {
    check_frame(
        "frame_nack",
        ProtocolVersion::V2012,
        PayloadType::NegativeAcknowledge,
        Payload::DoIPNack(NackCode::IncorrectPatternFormat),
        "02fd00000000000100",
    );
    check_frame(
        "frame_diag_msg",
        ProtocolVersion::V2012,
        PayloadType::DiagnosticMessage,
        Payload::DiagnosticMessage(DiagnosticMessage {
            source_address: LogicalAddress(0x0E00),
            target_address: LogicalAddress(0x1000),
            user_data: &[0x10u8, 0x02][..],
        }),
        "02fd8001000000060e0010001002",
    );
    check_frame(
        "frame_routing_resp_oem",
        ProtocolVersion::V2012,
        PayloadType::RoutingActivationResponse,
        Payload::RoutingActivationResponse(RoutingActivationResponse {
            logical_address_tester: LogicalAddress(0x0E00),
            logical_address_of_doip_entity: LogicalAddress(0x1000),
            routing_activation_response_code: RoutingActivationResponseCode::RoutingSuccessfullyActivated,
            reserved_oem: [0, 0, 0, 0],
            oem_specific: Some([0xDE, 0xAD, 0xBE, 0xEF]),
        }),
        "02fd00060000000d0e0010001000000000deadbeef",
    );
}

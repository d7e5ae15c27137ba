use simple_doip::bare_metal_entity::{
    Entity, EntityConfig, TcpStep, TcpVerdict, GID_LEN, MAX_RX_PAYLOAD, TCP_RX_CAP, UDS_RESP_CAP,
    VIN_LEN,
};
use simple_doip::messages::{
    ActivationTypeCode, DiagnosticMessage, DiagnosticMessageAck, EntityStatusNodeType, Header,
    Message, NackCode, Payload, PayloadType, ProtocolVersion, RoutingActivationRequest,
    RoutingActivationResponseCode,
};
use simple_doip::{try_frame, LogicalAddress};

const OWN_ADDRESS: u16 = 0x4010;
const TESTER: u16 = 0x0E00;
const VIN: [u8; VIN_LEN] = *b"TESTVIN0000000001";

/// What the platform did while driving the entity through one chunk.
#[derive(Default)]
struct Capture {
    tcp: Vec<Vec<u8>>,
    uds_requests: Vec<Vec<u8>>,
}

fn fresh_entity() -> Entity {
    let mut entity = Entity::new();
    entity.init(&EntityConfig {
        vin: VIN,
        eid: [1, 2, 3, 4, 5, 6],
        gid: [0; GID_LEN],
        logical_address: OWN_ADDRESS,
    });
    entity
}

/// Feed one chunk and run the steps the way a platform does, with an echo
/// dispatcher that responds `0x55` followed by the request.
fn feed(entity: &mut Entity, data: &[u8], capture: &mut Capture) -> TcpVerdict {
    let mut step = entity.on_tcp_rx(data);
    loop {
        match step {
            TcpStep::Done(verdict) => return verdict,
            TcpStep::Send { frame, verdict } => {
                capture.tcp.push(frame);
                if verdict == TcpVerdict::Close {
                    return verdict;
                }
            }
            TcpStep::Dispatch { ack, request, tester } => {
                capture.tcp.push(ack);
                capture.uds_requests.push(request.clone());
                let mut response = [0u8; UDS_RESP_CAP];
                response[0] = 0x55;
                response[1..=request.len()].copy_from_slice(&request);
                let written = (request.len() + 1) as i32;
                if let Some(frame) = entity.uds_response(tester, written, &response) {
                    capture.tcp.push(frame);
                }
            }
        }
        step = entity.next_tcp_step();
    }
}

fn encode(payload_type: PayloadType, payload: Payload<'_>) -> Vec<u8> {
    let length = u32::try_from(payload.encoded_size().unwrap()).unwrap();
    let msg = Message { header: Header::new(ProtocolVersion::V2012, payload_type, length), payload };
    let mut out = Vec::new();
    msg.encode(&mut out).unwrap();
    out
}

fn decode_single(bytes: &[u8]) -> (Header, Vec<u8>) {
    let (frame, consumed) = try_frame(bytes).unwrap().unwrap();
    assert_eq!(consumed, bytes.len(), "reply must be one whole frame");
    (frame.header, frame.payload.to_vec())
}

fn activation_request(source: u16) -> Vec<u8> {
    encode(
        PayloadType::RoutingActivationRequest,
        Payload::RoutingActivationRequest(RoutingActivationRequest {
            source_address: LogicalAddress(source),
            activation_type: ActivationTypeCode::Default,
            reserved: [0; 4],
            reserved_vehicle_manufacturer: None,
        }),
    )
}

fn activate(entity: &mut Entity, capture: &mut Capture) {
    assert_eq!(feed(entity, &activation_request(TESTER), capture), TcpVerdict::KeepOpen);
}

#[test]
fn vehicle_identification_request_gets_announcement() {
    let entity = fresh_entity();
    let req = encode(PayloadType::VehicleIdentificationRequest, Payload::VehicleIdentificationRequest);
    let reply = entity.on_udp_rx(&req).expect("an announcement");
    let (header, payload) = decode_single(&reply);
    match Payload::decode(&payload, header.payload_type).unwrap() {
        Payload::VehicleAnnouncement(va) => {
            assert_eq!(va.vin, VIN);
            assert_eq!(va.logical_address, LogicalAddress(OWN_ADDRESS));
            assert_eq!(va.group_id, None);
        }
        other => panic!("expected announcement, got {other:?}"),
    }
}

#[test]
fn routing_activation_then_diagnostic_message_round_trip() {
    let mut entity = fresh_entity();
    let mut capture = Capture::default();
    activate(&mut entity, &mut capture);

    assert_eq!(capture.tcp.len(), 1);
    let (header, payload) = decode_single(&capture.tcp[0]);
    match Payload::decode(&payload, header.payload_type).unwrap() {
        Payload::RoutingActivationResponse(resp) => {
            assert_eq!(
                resp.routing_activation_response_code,
                RoutingActivationResponseCode::RoutingSuccessfullyActivated
            );
            assert_eq!(resp.logical_address_tester, LogicalAddress(TESTER));
        }
        other => panic!("expected activation response, got {other:?}"),
    }

    let diag = encode(
        PayloadType::DiagnosticMessage,
        Payload::DiagnosticMessage(DiagnosticMessage {
            source_address: LogicalAddress(TESTER),
            target_address: LogicalAddress(OWN_ADDRESS),
            user_data: &[0x22, 0xF1, 0x8A],
        }),
    );
    assert_eq!(feed(&mut entity, &diag, &mut capture), TcpVerdict::KeepOpen);

    assert_eq!(capture.uds_requests, [vec![0x22, 0xF1, 0x8A]]);
    // Activation response + positive ACK + UDS response.
    assert_eq!(capture.tcp.len(), 3);
    let (ack_header, ack_payload) = decode_single(&capture.tcp[1]);
    assert_eq!(ack_header.payload_type, PayloadType::DiagnosticMessagePositiveAcknowledge);
    assert!(matches!(
        Payload::decode(&ack_payload, ack_header.payload_type).unwrap(),
        Payload::DiagnosticMessageAck(DiagnosticMessageAck { .. })
    ));
    let (resp_header, resp_payload) = decode_single(&capture.tcp[2]);
    match Payload::decode(&resp_payload, resp_header.payload_type).unwrap() {
        Payload::DiagnosticMessage(dm) => {
            assert_eq!(dm.source_address, LogicalAddress(OWN_ADDRESS));
            assert_eq!(dm.target_address, LogicalAddress(TESTER));
            assert_eq!(dm.user_data, &[0x55, 0x22, 0xF1, 0x8A]);
        }
        other => panic!("expected diagnostic response, got {other:?}"),
    }
}

#[test]
fn diagnostic_message_without_activation_closes() {
    let mut entity = fresh_entity();
    let mut capture = Capture::default();
    let diag = encode(
        PayloadType::DiagnosticMessage,
        Payload::DiagnosticMessage(DiagnosticMessage {
            source_address: LogicalAddress(TESTER),
            target_address: LogicalAddress(OWN_ADDRESS),
            user_data: &[0x3E, 0x00],
        }),
    );
    assert_eq!(feed(&mut entity, &diag, &mut capture), TcpVerdict::Close);

    assert!(capture.uds_requests.is_empty());
    assert_eq!(capture.tcp.len(), 1);
    let (header, _payload) = decode_single(&capture.tcp[0]);
    assert_eq!(header.payload_type, PayloadType::DiagnosticMessageNegativeAcknowledge);
}

#[test]
fn fragmented_tcp_stream_reassembles() {
    let mut entity = fresh_entity();
    let mut capture = Capture::default();
    let req = activation_request(TESTER);
    let split = req.len() / 2;
    assert_eq!(feed(&mut entity, &req[..split], &mut capture), TcpVerdict::KeepOpen);
    assert!(capture.tcp.is_empty(), "half a frame must not respond");
    assert_eq!(feed(&mut entity, &req[split..], &mut capture), TcpVerdict::KeepOpen);
    assert_eq!(capture.tcp.len(), 1);
}

#[test]
fn oversize_frame_is_rejected_up_front() {
    let mut entity = fresh_entity();
    let mut capture = Capture::default();
    activate(&mut entity, &mut capture);

    let mut header = Vec::new();
    Header::new(
        ProtocolVersion::V2012,
        PayloadType::DiagnosticMessage,
        (MAX_RX_PAYLOAD + 1) as u32,
    )
    .encode(&mut header)
    .unwrap();

    assert_eq!(feed(&mut entity, &header, &mut capture), TcpVerdict::Close);
    let (nack_header, nack_payload) = decode_single(capture.tcp.last().unwrap());
    assert!(matches!(
        Payload::decode(&nack_payload, nack_header.payload_type).unwrap(),
        Payload::DoIPNack(NackCode::MessageTooLarge)
    ));
}

#[test]
fn second_tester_is_denied() {
    let mut entity = fresh_entity();
    let mut capture = Capture::default();
    activate(&mut entity, &mut capture);

    assert_eq!(feed(&mut entity, &activation_request(TESTER + 1), &mut capture), TcpVerdict::Close);
    let (header, payload) = decode_single(capture.tcp.last().unwrap());
    match Payload::decode(&payload, header.payload_type).unwrap() {
        Payload::RoutingActivationResponse(resp) => assert_eq!(
            resp.routing_activation_response_code,
            RoutingActivationResponseCode::DeniedSourceAddressAlreadyActivated
        ),
        other => panic!("expected activation response, got {other:?}"),
    }
}

#[test]
fn an_entity_that_is_not_serving_ignores_everything() {
    let mut entity = Entity::new();
    let req = encode(PayloadType::VehicleIdentificationRequest, Payload::VehicleIdentificationRequest);
    assert!(entity.on_udp_rx(&req).is_none());
    assert_eq!(entity.on_tcp_rx(&activation_request(TESTER)), TcpStep::Done(TcpVerdict::Close));

    let mut served = fresh_entity();
    served.deinit();
    assert!(served.on_udp_rx(&req).is_none());
}

#[test]
fn entity_status_reports_the_open_socket() {
    let mut entity = fresh_entity();
    let req = encode(PayloadType::DoIPEntityStatusRequest, Payload::EntityStatusRequest);
    let status = |entity: &Entity| {
        let reply = entity.on_udp_rx(&req).expect("a status");
        let (header, payload) = decode_single(&reply);
        match Payload::decode(&payload, header.payload_type).unwrap() {
            Payload::EntityStatusResponse(r) => r,
            other => panic!("expected status, got {other:?}"),
        }
    };
    let idle = status(&entity);
    assert_eq!(idle.node_type, EntityStatusNodeType::DoIPNode);
    assert_eq!(idle.max_concurrent_tcp_sockets, 1);
    assert_eq!(idle.open_tcp_sockets, 0);
    assert_eq!(idle.max_data_size, 2040);

    activate(&mut entity, &mut Capture::default());
    assert_eq!(status(&entity).open_tcp_sockets, 1);
    entity.on_tcp_disconnect();
    assert_eq!(status(&entity).open_tcp_sockets, 0);
}

#[test]
fn malformed_datagrams_get_nacks() {
    let entity = fresh_entity();
    // Wrong inverse version byte.
    let reply = entity.on_udp_rx(&[0x02, 0xFE, 0x00, 0x01, 0x00, 0x00, 0x00, 0x00]).unwrap();
    let (header, payload) = decode_single(&reply);
    assert_eq!(header.payload_type, PayloadType::NegativeAcknowledge);
    assert_eq!(payload, [0x00]);
    // Unknown payload type.
    let reply = entity.on_udp_rx(&[0x02, 0xFD, 0x99, 0x99, 0x00, 0x00, 0x00, 0x00]).unwrap();
    assert_eq!(decode_single(&reply).1, [0x01]);
    // A short datagram gets nothing; a served type the entity does not answer neither.
    assert!(entity.on_udp_rx(&[0x02, 0xFD, 0x00]).is_none());
    assert!(entity.on_udp_rx(&[0x02, 0xFD, 0x00, 0x07, 0x00, 0x00, 0x00, 0x00]).is_none());
}

#[test]
fn identification_with_eid_also_gets_the_announcement() {
    let entity = fresh_entity();
    let reply = entity.on_udp_rx(&[0x02, 0xFD, 0x00, 0x02, 0x00, 0x00, 0x00, 0x06, 9, 9, 9, 9, 9, 9]).unwrap();
    let (header, _) = decode_single(&reply);
    assert_eq!(header.payload_type, PayloadType::VehicleAnnouncement);
    assert_eq!(header.payload_length, 33);
}

#[test]
fn overflowing_the_reassembly_buffer_closes() {
    let mut entity = fresh_entity();
    let big = vec![0u8; TCP_RX_CAP + 1];
    match entity.on_tcp_rx(&big) {
        TcpStep::Send { frame, verdict } => {
            assert_eq!(verdict, TcpVerdict::Close);
            let (header, payload) = decode_single(&frame);
            assert_eq!(header.payload_type, PayloadType::NegativeAcknowledge);
            assert_eq!(payload, [0x03]);
        }
        other => panic!("expected a NACK, got {other:?}"),
    }
}

#[test]
fn diagnostic_to_another_target_is_nacked_but_kept_open() {
    let mut entity = fresh_entity();
    let mut capture = Capture::default();
    activate(&mut entity, &mut capture);
    let diag = encode(
        PayloadType::DiagnosticMessage,
        Payload::DiagnosticMessage(DiagnosticMessage {
            source_address: LogicalAddress(TESTER),
            target_address: LogicalAddress(0x1234),
            user_data: &[0x3E, 0x00],
        }),
    );
    assert_eq!(feed(&mut entity, &diag, &mut capture), TcpVerdict::KeepOpen);
    assert!(capture.uds_requests.is_empty());
    let (header, payload) = decode_single(capture.tcp.last().unwrap());
    assert_eq!(header.payload_type, PayloadType::DiagnosticMessageNegativeAcknowledge);
    // Source own address, target tester, code 0x03 (unknown target address).
    assert_eq!(payload, [0x40, 0x10, 0x0E, 0x00, 0x03]);
}

#[test]
fn non_positive_dispatch_results_send_nothing_and_long_ones_are_capped() {
    let entity = fresh_entity();
    let response = [0x7Fu8; UDS_RESP_CAP];
    assert!(entity.uds_response(TESTER, 0, &response).is_none());
    assert!(entity.uds_response(TESTER, -1, &response).is_none());
    let frame = entity.uds_response(TESTER, 5000, &response).unwrap();
    let (header, payload) = decode_single(&frame);
    assert_eq!(header.payload_length as usize, 4 + UDS_RESP_CAP);
    assert_eq!(payload.len(), 4 + UDS_RESP_CAP);
}

#[test]
fn two_frames_in_one_chunk_are_both_served() {
    let mut entity = fresh_entity();
    let mut capture = Capture::default();
    let mut chunk = activation_request(TESTER);
    chunk.extend(encode(
        PayloadType::DiagnosticMessage,
        Payload::DiagnosticMessage(DiagnosticMessage {
            source_address: LogicalAddress(TESTER),
            target_address: LogicalAddress(OWN_ADDRESS),
            user_data: &[0x10, 0x01],
        }),
    ));
    assert_eq!(feed(&mut entity, &chunk, &mut capture), TcpVerdict::KeepOpen);
    // Activation response, positive ACK, UDS response.
    assert_eq!(capture.tcp.len(), 3);
    assert_eq!(capture.uds_requests, [vec![0x10, 0x01]]);
}

use simple_doip::connection_state::ConnectionState;
use simple_doip::messages::{
    FurtherActionRequired, MessageError, OwnedMessage, PayloadType, ProtocolVersion,
    VinGidSyncStatus,
};
use simple_doip::server::{
    answer_for_eid, answer_for_vin, identification_reply, identity_response, probe_verdict,
    request_action, ProbeVerdict, RequestAction,
};
use simple_doip::LogicalAddress;

const VIN: [u8; 17] = *b"TESTVIN0000000001";
const EID: [u8; 6] = [1, 2, 3, 4, 5, 6];

#[test]
fn requests_map_to_their_actions() {
    assert_eq!(
        request_action(&OwnedMessage::alive_check_request(ProtocolVersion::V2012)),
        RequestAction::AliveCheck
    );
    assert_eq!(request_action(&OwnedMessage::default()), RequestAction::Diagnostic);
    let response = OwnedMessage::alive_check_response(ProtocolVersion::V2012, LogicalAddress(0));
    assert_eq!(
        request_action(&response),
        RequestAction::Unexpected(PayloadType::AliveCheckResponse)
    );
}

#[test]
fn only_plain_identification_requests_are_answered() {
    assert_eq!(
        probe_verdict(&[0x02, 0xFD, 0x00, 0x01, 0x00, 0x00, 0x00, 0x00]),
        ProbeVerdict::Answer
    );
    assert_eq!(
        probe_verdict(&[0x02, 0xFD, 0x00, 0x02, 0x00, 0x00, 0x00, 0x06, 1, 2, 3, 4, 5, 6]),
        ProbeVerdict::Directed(PayloadType::VehicleIdentificationRequestWithEID)
    );
    assert_eq!(
        probe_verdict(&[0x02, 0xFD, 0x00, 0x07, 0x00, 0x00, 0x00, 0x00]),
        ProbeVerdict::NotIdentification(PayloadType::AliveCheckRequest)
    );
    assert_eq!(
        probe_verdict(&[0x02, 0xFE, 0x00, 0x01, 0x00, 0x00, 0x00, 0x00]),
        ProbeVerdict::Undecodable(MessageError::VersionInverseIncorrect { expected: 0xFD, value: 0xFE })
    );
}

#[test]
fn identification_reply_is_one_announcement_datagram() {
    let response = identity_response(VIN, LogicalAddress(0x1000), EID, None);
    assert_eq!(response.further_action, FurtherActionRequired::NoFurtherActionRequired);
    assert_eq!(response.vin_gid_sync_status, VinGidSyncStatus::Synchronized);
    let datagram = identification_reply(ProtocolVersion::V2012, response);
    assert_eq!(datagram.len(), 41);
    assert_eq!(&datagram[..8], &[0x02, 0xFD, 0x00, 0x04, 0x00, 0x00, 0x00, 0x21]);
    assert_eq!(&datagram[8..25], &VIN);
}

#[test]
fn directed_requests_are_answered_only_by_their_addressee() {
    let response = identity_response(VIN, LogicalAddress(0x1000), EID, Some([7; 6]));
    assert_eq!(answer_for_eid(&EID, &EID, response), Some(response));
    assert_eq!(answer_for_eid(&EID, &[9; 6], response), None);
    assert_eq!(answer_for_vin(&VIN, &VIN, response), Some(response));
    assert_eq!(answer_for_vin(&VIN, &[0x30; 17], response), None);
}

#[test]
fn connection_states_admit_their_messages() {
    assert!(!ConnectionState::Listen.is_message_allowed(&PayloadType::DiagnosticMessage));
    assert!(!ConnectionState::Finalize.is_message_allowed(&PayloadType::AliveCheckRequest));
    assert!(ConnectionState::RegisteredRoutingActive.is_message_allowed(&PayloadType::DiagnosticMessage));
    assert!(!ConnectionState::Initialized.is_message_allowed(&PayloadType::AliveCheckRequest));
    assert!(ConnectionState::RegisteredPendingAuthentication.is_message_allowed(&PayloadType::AliveCheckResponse));
    assert!(ConnectionState::RegisteredPendingConfirmation
        .is_message_allowed(&PayloadType::RoutingActivationRequest));
    assert!(ConnectionState::Initialized.is_message_allowed(&PayloadType::RoutingActivationRequest));
    assert!(!ConnectionState::Initialized.is_message_allowed(&PayloadType::DiagnosticMessage));
    assert!(!ConnectionState::RegisteredPendingAuthentication.is_message_allowed(&PayloadType::DiagnosticMessage));
    assert!(ConnectionState::RegisteredRoutingActive.allows_all_messages());
    assert!(!ConnectionState::Initialized.allows_alive_check());
}

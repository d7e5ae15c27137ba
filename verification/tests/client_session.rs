use simple_doip::client::{activation_outcome, ActivationOutcome, AddressType};
use simple_doip::client_session::{ClientSession, ControlStep, DeadlineKind, Pending, Received};
use simple_doip::connection::ConnectorSocket;
use simple_doip::messages::{
    ActivationTypeCode, DiagnosticAckCode, OwnedMessage, PayloadType, ProtocolVersion,
    RoutingActivationResponseCode,
};
use simple_doip::{LogicalAddress, TCP_PORT};

fn ack(code: DiagnosticAckCode) -> OwnedMessage {
    OwnedMessage::diagnostic_message_ack(
        ProtocolVersion::V2012,
        LogicalAddress(0x1000),
        LogicalAddress(0x0E00),
        code,
        Vec::new(),
    )
}

fn diagnostic(data: &[u8]) -> OwnedMessage {
    OwnedMessage::diagnostic_message(
        ProtocolVersion::V2012,
        LogicalAddress(0x1000),
        LogicalAddress(0x0E00),
        data.to_vec(),
    )
}

fn bound_session() -> ClientSession {
    let mut session = ClientSession::new();
    session.bind_done(true);
    session
}

#[test]
fn a_sent_diagnostic_message_completes_on_its_ack() {
    let mut session = bound_session();
    assert_eq!(session.supersede(Pending::SendDiagnosticMessage), None);
    assert!(matches!(session.control_step(), ControlStep::SendDiagnostic));
    assert_eq!(session.diagnostic_sent(true), Some(DeadlineKind::DiagnosticMessage));
    let (alive, received) = session.on_message(ack(DiagnosticAckCode::RoutingConfirmationAck));
    assert!(!alive);
    assert!(matches!(received, Received::AckConfirmed));
    // Nothing is in flight any more: the deadline has nothing to fail.
    assert_eq!(session.on_deadline(), None);
}

#[test]
fn a_negative_ack_refuses_the_send() {
    let mut session = bound_session();
    session.supersede(Pending::SendDiagnosticMessage);
    session.control_step();
    assert_eq!(session.diagnostic_sent(true), Some(DeadlineKind::DiagnosticMessage));
    let (_, received) = session.on_message(ack(DiagnosticAckCode::UnknownTargetAddress));
    assert!(matches!(received, Received::AckRefused(DiagnosticAckCode::UnknownTargetAddress)));
}

#[test]
fn sending_without_a_socket_fails() {
    let mut session = ClientSession::new();
    session.supersede(Pending::SendDiagnosticMessage);
    assert!(matches!(session.control_step(), ControlStep::NotBound));
    session.supersede(Pending::ReceiveDiagnosticResponse);
    assert!(matches!(session.control_step(), ControlStep::NotBound));
}

#[test]
fn a_new_request_supersedes_the_one_in_flight() {
    let mut session = bound_session();
    session.supersede(Pending::ReceiveDiagnosticResponse);
    assert!(matches!(session.control_step(), ControlStep::AwaitDiagnosticResponse));
    assert_eq!(
        session.supersede(Pending::SendDiagnosticMessage),
        Some(Pending::Response(PayloadType::DiagnosticMessage))
    );
}

#[test]
fn an_early_diagnostic_response_is_held_for_the_next_receive() {
    let mut session = bound_session();
    let (_, received) = session.on_message(diagnostic(&[0x62, 0xF1, 0x90]));
    assert!(matches!(received, Received::Buffered));
    session.supersede(Pending::ReceiveDiagnosticResponse);
    match session.control_step() {
        ControlStep::Deliver(m) => assert_eq!(m, diagnostic(&[0x62, 0xF1, 0x90])),
        other => panic!("expected the held response, got {other:?}"),
    }
}

#[test]
fn a_held_response_is_delivered_after_the_socket_broke() {
    let mut session = bound_session();
    let (_, received) = session.on_message(diagnostic(&[0x62, 0xF1, 0x90]));
    assert!(matches!(received, Received::Buffered));
    assert_eq!(session.on_socket_error(), None);
    session.supersede(Pending::ReceiveDiagnosticResponse);
    match session.control_step() {
        ControlStep::Deliver(m) => assert_eq!(m, diagnostic(&[0x62, 0xF1, 0x90])),
        other => panic!("expected the held response, got {other:?}"),
    }
    // Nothing is held any more, and without a socket the next receive fails.
    session.supersede(Pending::ReceiveDiagnosticResponse);
    assert!(matches!(session.control_step(), ControlStep::NotBound));
}

#[test]
fn an_awaited_response_is_matched_by_type() {
    let mut session = bound_session();
    session.supersede(Pending::RoutingActivation);
    assert!(matches!(session.control_step(), ControlStep::SendRoutingActivation));
    assert_eq!(
        session.routing_request_sent(true, PayloadType::RoutingActivationRequest),
        Some(DeadlineKind::InitialInactivity)
    );
    let (_, received) = session.on_message(diagnostic(&[0x01]));
    assert!(matches!(received, Received::Unexpected(PayloadType::DiagnosticMessage)));

    session.supersede(Pending::RoutingActivation);
    session.control_step();
    assert_eq!(
        session.routing_request_sent(true, PayloadType::RoutingActivationRequest),
        Some(DeadlineKind::InitialInactivity)
    );
    let response = OwnedMessage::routing_activation_response(
        ProtocolVersion::V2012,
        LogicalAddress(0x0E00),
        LogicalAddress(0x1000),
        RoutingActivationResponseCode::RoutingSuccessfullyActivated,
        [0; 4],
        None,
    );
    let (_, received) = session.on_message(response.clone());
    match received {
        Received::Answered(m) => assert_eq!(m, response),
        other => panic!("expected the answer, got {other:?}"),
    }
}

#[test]
fn positive_acks_are_absorbed_and_alive_checks_answered() {
    let mut session = bound_session();
    let (alive, received) = session.on_message(ack(DiagnosticAckCode::RoutingConfirmationAck));
    assert!(!alive);
    assert!(matches!(received, Received::Nothing));
    let (alive, received) = session.on_message(OwnedMessage::alive_check_request(ProtocolVersion::V2012));
    assert!(alive);
    assert!(matches!(received, Received::Forward(_)));
}

#[test]
fn deadline_and_socket_errors_fail_waiting_requests() {
    let mut session = bound_session();
    session.supersede(Pending::SendDiagnosticMessage);
    session.control_step();
    assert_eq!(session.diagnostic_sent(true), Some(DeadlineKind::DiagnosticMessage));
    assert_eq!(session.on_deadline(), Some(Pending::Ack));

    session.supersede(Pending::SendDiagnosticMessage);
    session.control_step();
    assert_eq!(session.diagnostic_sent(true), Some(DeadlineKind::DiagnosticMessage));
    assert_eq!(session.on_socket_error(), Some(Pending::Ack));
    assert!(!session.unbind(), "a broken socket is no longer bound");
}

#[test]
fn address_type_selects_the_configured_target() {
    let logical = LogicalAddress(0x1000);
    let physical = LogicalAddress(0x0001);
    assert_eq!(AddressType::Logical.select(logical, physical), logical);
    assert_eq!(AddressType::Physical.select(logical, physical), physical);
}

#[test]
fn only_success_codes_activate() {
    let answer = |code| {
        OwnedMessage::routing_activation_response(
            ProtocolVersion::V2012,
            LogicalAddress(0x0E00),
            LogicalAddress(0x1000),
            code,
            [0; 4],
            None,
        )
    };
    assert_eq!(
        activation_outcome(&answer(RoutingActivationResponseCode::RoutingSuccessfullyActivated)),
        ActivationOutcome::Activated
    );
    assert_eq!(
        activation_outcome(&answer(
            RoutingActivationResponseCode::RoutingSuccessfullyActivatedConfirmationRequired
        )),
        ActivationOutcome::Activated
    );
    assert_eq!(
        activation_outcome(&answer(RoutingActivationResponseCode::DeniedSourceAddressAlreadyRegistered)),
        ActivationOutcome::Denied(RoutingActivationResponseCode::DeniedSourceAddressAlreadyRegistered)
    );
    let request = OwnedMessage::routing_activation_request(
        ProtocolVersion::V2012,
        LogicalAddress(0x0E00),
        ActivationTypeCode::Default,
        None,
    );
    assert_eq!(
        activation_outcome(&request),
        ActivationOutcome::Unexpected(PayloadType::RoutingActivationRequest)
    );
}

#[test]
fn connector_accepts_only_the_doip_port() {
    assert_eq!(ConnectorSocket::check_port(TCP_PORT), Ok(()));
    assert_eq!(ConnectorSocket::check_port(13401), Err(13401));
}

#[test]
fn a_failed_send_arms_no_deadline() {
    let mut session = ClientSession::new();
    assert_eq!(session.diagnostic_sent(false), None);
    assert_eq!(session.routing_request_sent(false, PayloadType::RoutingActivationRequest), None);
    assert_eq!(session.supersede(Pending::BindSocket), None);
}

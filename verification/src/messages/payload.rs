//! The payload body of a DoIP message, selected by the header's payload type.
use vstd::prelude::*;

use super::alive_check_response::{lemma_alive_check_response_codec, AliveCheckResponse};
use super::diagnostic_message::{
    lemma_diagnostic_message_codec, DiagnosticMessage, DiagnosticMessageModel,
    OwnedDiagnosticMessage,
};
use super::diagnostic_message_ack::{
    lemma_diagnostic_message_ack_codec, DiagnosticMessageAck, DiagnosticMessageAckModel,
    OwnedDiagnosticMessageAck,
};
use super::entity_status_response::{lemma_entity_status_response_codec, EntityStatusResponse};
use super::header::PayloadType;
use super::message_error::MessageError;
use super::nack::{lemma_nack_code_codec, NackCode};
use super::power_mode_info_response::{lemma_power_mode_code_codec, DiagnosticPowerModeCode};
use super::routing_activation_request::{
    lemma_routing_activation_request_codec, RoutingActivationRequest,
    RoutingActivationRequestModel,
};
use super::routing_activation_response::{
    lemma_routing_activation_response_codec, RoutingActivationResponse,
    RoutingActivationResponseModel,
};
use super::vehicle_identification_response::{
    lemma_vehicle_identification_response_codec, VehicleIdentificationResponse,
    VehicleIdentificationResponseModel,
};
use crate::wire::{max_buffer_len, splice};

verus! {

/// A payload body whose variable-length data borrows from the receive buffer.
#[derive(Clone, Debug, PartialEq, Eq)]
pub enum Payload<'a> {
    /// Generic header negative acknowledge.
    DoIPNack(NackCode),
    /// Alive check request (empty body).
    AliveCheckRequest,
    /// Alive check response.
    AliveCheckResponse(AliveCheckResponse),
    /// Diagnostic message.
    DiagnosticMessage(DiagnosticMessage<'a>),
    /// Diagnostic message acknowledgement.
    DiagnosticMessageAck(DiagnosticMessageAck<'a>),
    /// Diagnostic message negative acknowledge (decoded without a body).
    DiagnosticMessageNack,
    /// Entity status request (empty body).
    EntityStatusRequest,
    /// Entity status response.
    EntityStatusResponse(EntityStatusResponse),
    /// Diagnostic power mode information response.
    PowerModeInfoResponse(DiagnosticPowerModeCode),
    /// Routing activation request.
    RoutingActivationRequest(RoutingActivationRequest),
    /// Routing activation response.
    RoutingActivationResponse(RoutingActivationResponse),
    /// Vehicle announcement (payload type 0x0004).
    VehicleAnnouncement(VehicleIdentificationResponse),
    /// Vehicle identification request, any of its three forms (empty body as decoded).
    VehicleIdentificationRequest,
    /// Vehicle identification response; shares the announcement's wire format.
    VehicleIdentificationResponse(VehicleIdentificationResponse),
}

/// Owned mirror of [`Payload`] for values that must outlive a receive buffer.
#[derive(Clone, Debug, PartialEq, Eq)]
pub enum OwnedPayload {
    /// Generic header negative acknowledge.
    DoIPNack(NackCode),
    /// Alive check request.
    AliveCheckRequest,
    /// Alive check response.
    AliveCheckResponse(AliveCheckResponse),
    /// Diagnostic message.
    DiagnosticMessage(OwnedDiagnosticMessage),
    /// Diagnostic message acknowledgement.
    DiagnosticMessageAck(OwnedDiagnosticMessageAck),
    /// Diagnostic message negative acknowledge.
    DiagnosticMessageNack,
    /// Entity status request.
    EntityStatusRequest,
    /// Entity status response.
    EntityStatusResponse(EntityStatusResponse),
    /// Diagnostic power mode information response.
    PowerModeInfoResponse(DiagnosticPowerModeCode),
    /// Routing activation request.
    RoutingActivationRequest(RoutingActivationRequest),
    /// Routing activation response.
    RoutingActivationResponse(RoutingActivationResponse),
    /// Vehicle announcement.
    VehicleAnnouncement(VehicleIdentificationResponse),
    /// Vehicle identification request.
    VehicleIdentificationRequest,
    /// Vehicle identification response.
    VehicleIdentificationResponse(VehicleIdentificationResponse),
}

/// What a payload is, whether borrowed or owned.
pub enum PayloadModel {
    /// Generic header negative acknowledge.
    DoIPNack(NackCode),
    /// Alive check request.
    AliveCheckRequest,
    /// Alive check response.
    AliveCheckResponse(AliveCheckResponse),
    /// Diagnostic message.
    DiagnosticMessage(DiagnosticMessageModel),
    /// Diagnostic message acknowledgement.
    DiagnosticMessageAck(DiagnosticMessageAckModel),
    /// Diagnostic message negative acknowledge.
    DiagnosticMessageNack,
    /// Entity status request.
    EntityStatusRequest,
    /// Entity status response.
    EntityStatusResponse(EntityStatusResponse),
    /// Diagnostic power mode information response.
    PowerModeInfoResponse(DiagnosticPowerModeCode),
    /// Routing activation request.
    RoutingActivationRequest(RoutingActivationRequestModel),
    /// Routing activation response.
    RoutingActivationResponse(RoutingActivationResponseModel),
    /// Vehicle announcement.
    VehicleAnnouncement(VehicleIdentificationResponseModel),
    /// Vehicle identification request.
    VehicleIdentificationRequest,
    /// Vehicle identification response.
    VehicleIdentificationResponse(VehicleIdentificationResponseModel),
}

impl View for Payload<'_> {
    type V = PayloadModel;

    open spec fn view(&self) -> PayloadModel {
        match self {
            Payload::DoIPNack(c) => PayloadModel::DoIPNack(*c),
            Payload::AliveCheckRequest => PayloadModel::AliveCheckRequest,
            Payload::AliveCheckResponse(r) => PayloadModel::AliveCheckResponse(*r),
            Payload::DiagnosticMessage(m) => PayloadModel::DiagnosticMessage(m@),
            Payload::DiagnosticMessageAck(a) => PayloadModel::DiagnosticMessageAck(a@),
            Payload::DiagnosticMessageNack => PayloadModel::DiagnosticMessageNack,
            Payload::EntityStatusRequest => PayloadModel::EntityStatusRequest,
            Payload::EntityStatusResponse(r) => PayloadModel::EntityStatusResponse(*r),
            Payload::PowerModeInfoResponse(c) => PayloadModel::PowerModeInfoResponse(*c),
            Payload::RoutingActivationRequest(r) => PayloadModel::RoutingActivationRequest(r@),
            Payload::RoutingActivationResponse(r) => PayloadModel::RoutingActivationResponse(r@),
            Payload::VehicleAnnouncement(r) => PayloadModel::VehicleAnnouncement(r@),
            Payload::VehicleIdentificationRequest => PayloadModel::VehicleIdentificationRequest,
            Payload::VehicleIdentificationResponse(r) => PayloadModel::VehicleIdentificationResponse(r@),
        }
    }
}

impl View for OwnedPayload {
    type V = PayloadModel;

    open spec fn view(&self) -> PayloadModel {
        match self {
            OwnedPayload::DoIPNack(c) => PayloadModel::DoIPNack(*c),
            OwnedPayload::AliveCheckRequest => PayloadModel::AliveCheckRequest,
            OwnedPayload::AliveCheckResponse(r) => PayloadModel::AliveCheckResponse(*r),
            OwnedPayload::DiagnosticMessage(m) => PayloadModel::DiagnosticMessage(m@),
            OwnedPayload::DiagnosticMessageAck(a) => PayloadModel::DiagnosticMessageAck(a@),
            OwnedPayload::DiagnosticMessageNack => PayloadModel::DiagnosticMessageNack,
            OwnedPayload::EntityStatusRequest => PayloadModel::EntityStatusRequest,
            OwnedPayload::EntityStatusResponse(r) => PayloadModel::EntityStatusResponse(*r),
            OwnedPayload::PowerModeInfoResponse(c) => PayloadModel::PowerModeInfoResponse(*c),
            OwnedPayload::RoutingActivationRequest(r) => PayloadModel::RoutingActivationRequest(r@),
            OwnedPayload::RoutingActivationResponse(r) => PayloadModel::RoutingActivationResponse(r@),
            OwnedPayload::VehicleAnnouncement(r) => PayloadModel::VehicleAnnouncement(r@),
            OwnedPayload::VehicleIdentificationRequest => PayloadModel::VehicleIdentificationRequest,
            OwnedPayload::VehicleIdentificationResponse(r) => PayloadModel::VehicleIdentificationResponse(r@),
        }
    }
}

/// Turn a body decoder's result into a payload, dropping the bytes after the body.
pub open spec fn body<T>(r: Result<(T, Seq<u8>), MessageError>, wrap: spec_fn(T) -> PayloadModel) -> Result<PayloadModel, MessageError> {
    match r {
        Ok((v, _)) => Ok(wrap(v)),
        Err(e) => Err(e),
    }
}

impl PayloadModel {
    /// Decoding the payload bytes of one message under its declared payload type.
    pub open spec fn spec_decode(s: Seq<u8>, payload_type: PayloadType) -> Result<PayloadModel, MessageError> {
        match payload_type {
            PayloadType::AliveCheckResponse => body(
                AliveCheckResponse::spec_decode(s),
                |v| PayloadModel::AliveCheckResponse(v),
            ),
            PayloadType::NegativeAcknowledge => body(NackCode::spec_decode(s), |v| PayloadModel::DoIPNack(v)),
            PayloadType::VehicleIdentificationRequest
            | PayloadType::VehicleIdentificationRequestWithEID
            | PayloadType::VehicleIdentificationRequestWithVIN => Ok(PayloadModel::VehicleIdentificationRequest),
            PayloadType::VehicleAnnouncement => body(
                VehicleIdentificationResponseModel::spec_decode(s),
                |v| PayloadModel::VehicleAnnouncement(v),
            ),
            PayloadType::RoutingActivationRequest => body(
                RoutingActivationRequestModel::spec_decode(s),
                |v| PayloadModel::RoutingActivationRequest(v),
            ),
            PayloadType::RoutingActivationResponse => body(
                RoutingActivationResponseModel::spec_decode(s),
                |v| PayloadModel::RoutingActivationResponse(v),
            ),
            PayloadType::AliveCheckRequest => Ok(PayloadModel::AliveCheckRequest),
            PayloadType::DoIPEntityStatusRequest => Ok(PayloadModel::EntityStatusRequest),
            PayloadType::DoIPEntityStatusResponse => body(
                EntityStatusResponse::spec_decode(s),
                |v| PayloadModel::EntityStatusResponse(v),
            ),
            PayloadType::DiagnosticPowerModeInfoResponse => body(
                DiagnosticPowerModeCode::spec_decode(s),
                |v| PayloadModel::PowerModeInfoResponse(v),
            ),
            PayloadType::DiagnosticMessage => body(
                DiagnosticMessageModel::spec_decode(s),
                |v| PayloadModel::DiagnosticMessage(v),
            ),
            PayloadType::DiagnosticMessagePositiveAcknowledge => body(
                DiagnosticMessageAckModel::spec_decode(s),
                |v| PayloadModel::DiagnosticMessageAck(v),
            ),
            PayloadType::DiagnosticMessageNegativeAcknowledge => Ok(PayloadModel::DiagnosticMessageNack),
            PayloadType::DiagnosticPowerModeInfoRequest
            | PayloadType::Reserved(_)
            | PayloadType::ReservedVehicleManufacturer(_) => Err(MessageError::UnsupportedPayloadType(payload_type)),
        }
    }

    /// The payload's wire bytes; body-less variants have none.
    pub open spec fn spec_encode(self) -> Seq<u8> {
        match self {
            PayloadModel::DoIPNack(c) => c.spec_encode(),
            PayloadModel::AliveCheckRequest => Seq::empty(),
            PayloadModel::AliveCheckResponse(r) => r.spec_encode(),
            PayloadModel::DiagnosticMessage(m) => m.spec_encode(),
            PayloadModel::DiagnosticMessageAck(a) => a.spec_encode(),
            PayloadModel::DiagnosticMessageNack => Seq::empty(),
            PayloadModel::EntityStatusRequest => Seq::empty(),
            PayloadModel::EntityStatusResponse(r) => r.spec_encode(),
            PayloadModel::PowerModeInfoResponse(c) => c.spec_encode(),
            PayloadModel::RoutingActivationRequest(r) => r.spec_encode(),
            PayloadModel::RoutingActivationResponse(r) => r.spec_encode(),
            PayloadModel::VehicleAnnouncement(r) => r.spec_encode(),
            PayloadModel::VehicleIdentificationRequest => Seq::empty(),
            PayloadModel::VehicleIdentificationResponse(r) => r.spec_encode(),
        }
    }

    /// Whether decoding under `payload_type` yields this variant.
    pub open spec fn decodes_under(self, payload_type: PayloadType) -> bool {
        match self {
            PayloadModel::DoIPNack(_) => payload_type == PayloadType::NegativeAcknowledge,
            PayloadModel::AliveCheckRequest => payload_type == PayloadType::AliveCheckRequest,
            PayloadModel::AliveCheckResponse(_) => payload_type == PayloadType::AliveCheckResponse,
            PayloadModel::DiagnosticMessage(_) => payload_type == PayloadType::DiagnosticMessage,
            PayloadModel::DiagnosticMessageAck(_) => payload_type
                == PayloadType::DiagnosticMessagePositiveAcknowledge,
            PayloadModel::DiagnosticMessageNack => payload_type
                == PayloadType::DiagnosticMessageNegativeAcknowledge,
            PayloadModel::EntityStatusRequest => payload_type == PayloadType::DoIPEntityStatusRequest,
            PayloadModel::EntityStatusResponse(_) => payload_type == PayloadType::DoIPEntityStatusResponse,
            PayloadModel::PowerModeInfoResponse(_) => payload_type
                == PayloadType::DiagnosticPowerModeInfoResponse,
            PayloadModel::RoutingActivationRequest(_) => payload_type
                == PayloadType::RoutingActivationRequest,
            PayloadModel::RoutingActivationResponse(_) => payload_type
                == PayloadType::RoutingActivationResponse,
            PayloadModel::VehicleAnnouncement(_) => payload_type == PayloadType::VehicleAnnouncement,
            PayloadModel::VehicleIdentificationRequest => payload_type
                == PayloadType::VehicleIdentificationRequest || payload_type
                == PayloadType::VehicleIdentificationRequestWithEID || payload_type
                == PayloadType::VehicleIdentificationRequestWithVIN,
            PayloadModel::VehicleIdentificationResponse(_) => false,
        }
    }

    /// Every code and field in the payload is what its own bytes decode to.
    pub open spec fn is_canonical(self) -> bool {
        match self {
            PayloadModel::DoIPNack(c) => c.is_canonical(),
            PayloadModel::DiagnosticMessageAck(a) => a.ack_code.is_canonical(),
            PayloadModel::EntityStatusResponse(r) => r.node_type.is_canonical(),
            PayloadModel::PowerModeInfoResponse(c) => c.is_canonical(),
            PayloadModel::RoutingActivationRequest(r) => r.is_canonical(),
            PayloadModel::RoutingActivationResponse(r) => r.is_canonical(),
            PayloadModel::VehicleAnnouncement(r) => r.is_canonical(),
            PayloadModel::VehicleIdentificationResponse(r) => r.is_canonical(),
            _ => true,
        }
    }
}

impl<'a> Payload<'a> {
    /// Decode a payload of the given type from exactly the payload bytes of one message.
    pub fn decode(buf: &'a [u8], payload_type: PayloadType) -> (r: Result<Payload<'a>, MessageError>)
        ensures
            match r {
                Ok(p) => PayloadModel::spec_decode(buf@, payload_type) == Ok::<_, MessageError>(p@),
                Err(e) => PayloadModel::spec_decode(buf@, payload_type) == Err::<PayloadModel, _>(e),
            },
    {
        match payload_type {
            PayloadType::AliveCheckResponse => Ok(Payload::AliveCheckResponse(AliveCheckResponse::decode(buf)?.0)),
            PayloadType::NegativeAcknowledge => Ok(Payload::DoIPNack(NackCode::decode(buf)?.0)),
            PayloadType::VehicleIdentificationRequest
            | PayloadType::VehicleIdentificationRequestWithEID
            | PayloadType::VehicleIdentificationRequestWithVIN => Ok(Payload::VehicleIdentificationRequest),
            PayloadType::VehicleAnnouncement => Ok(
                Payload::VehicleAnnouncement(VehicleIdentificationResponse::decode(buf)?.0),
            ),
            PayloadType::RoutingActivationRequest => Ok(
                Payload::RoutingActivationRequest(RoutingActivationRequest::decode(buf)?.0),
            ),
            PayloadType::RoutingActivationResponse => Ok(
                Payload::RoutingActivationResponse(RoutingActivationResponse::decode(buf)?.0),
            ),
            PayloadType::AliveCheckRequest => Ok(Payload::AliveCheckRequest),
            PayloadType::DoIPEntityStatusRequest => Ok(Payload::EntityStatusRequest),
            PayloadType::DoIPEntityStatusResponse => Ok(
                Payload::EntityStatusResponse(EntityStatusResponse::decode(buf)?.0),
            ),
            PayloadType::DiagnosticPowerModeInfoResponse => Ok(
                Payload::PowerModeInfoResponse(DiagnosticPowerModeCode::decode(buf)?.0),
            ),
            PayloadType::DiagnosticMessage => Ok(Payload::DiagnosticMessage(DiagnosticMessage::decode(buf)?.0)),
            PayloadType::DiagnosticMessagePositiveAcknowledge => Ok(
                Payload::DiagnosticMessageAck(DiagnosticMessageAck::decode(buf)?.0),
            ),
            PayloadType::DiagnosticMessageNegativeAcknowledge => Ok(Payload::DiagnosticMessageNack),
            PayloadType::DiagnosticPowerModeInfoRequest
            | PayloadType::Reserved(_)
            | PayloadType::ReservedVehicleManufacturer(_) => Err(MessageError::UnsupportedPayloadType(payload_type)),
        }
    }

    /// Number of bytes `encode` writes.
    pub fn encoded_size(&self) -> (r: Result<usize, MessageError>)
        requires
            self@.spec_encode().len() <= usize::MAX,
        ensures
            r == Ok::<_, MessageError>(self@.spec_encode().len() as usize),
    {
        match self {
            Payload::DoIPNack(c) => c.encoded_size(),
            Payload::AliveCheckRequest
            | Payload::DiagnosticMessageNack
            | Payload::EntityStatusRequest
            | Payload::VehicleIdentificationRequest => Ok(0),
            Payload::AliveCheckResponse(r) => r.encoded_size(),
            Payload::DiagnosticMessage(m) => m.encoded_size(),
            Payload::DiagnosticMessageAck(a) => a.encoded_size(),
            Payload::EntityStatusResponse(r) => r.encoded_size(),
            Payload::PowerModeInfoResponse(c) => c.encoded_size(),
            Payload::RoutingActivationRequest(r) => r.encoded_size(),
            Payload::RoutingActivationResponse(r) => r.encoded_size(),
            Payload::VehicleAnnouncement(r) | Payload::VehicleIdentificationResponse(r) => r.encoded_size(),
        }
    }

    /// Append the payload's wire bytes to `out`, returning the number written.
    pub fn encode(&self, out: &mut Vec<u8>) -> (r: Result<usize, MessageError>)
        requires
            old(out)@.len() + self@.spec_encode().len() <= max_buffer_len(),
        ensures
            final(out)@ == old(out)@ + self@.spec_encode(),
            r == Ok::<_, MessageError>(self@.spec_encode().len() as usize),
    {
        match self {
            Payload::DoIPNack(c) => c.encode(out),
            Payload::AliveCheckRequest
            | Payload::DiagnosticMessageNack
            | Payload::EntityStatusRequest
            | Payload::VehicleIdentificationRequest => {
                assert(out@ =~= old(out)@ + self@.spec_encode());
                Ok(0)
            },
            Payload::AliveCheckResponse(r) => r.encode(out),
            Payload::DiagnosticMessage(m) => m.encode(out),
            Payload::DiagnosticMessageAck(a) => a.encode(out),
            Payload::EntityStatusResponse(r) => r.encode(out),
            Payload::PowerModeInfoResponse(c) => c.encode(out),
            Payload::RoutingActivationRequest(r) => r.encode(out),
            Payload::RoutingActivationResponse(r) => r.encode(out),
            Payload::VehicleAnnouncement(r) | Payload::VehicleIdentificationResponse(r) => r.encode(out),
        }
    }

    /// Write the payload's wire bytes into `out` at position `at`, returning the
    /// number written.
    pub(crate) fn write_at(&self, out: &mut [u8], at: usize) -> (n: usize)
        requires
            at + self@.spec_encode().len() <= old(out)@.len(),
        ensures
            final(out)@ == splice(old(out)@, at as int, self@.spec_encode()),
            n == self@.spec_encode().len(),
    {
        match self {
            Payload::DoIPNack(c) => c.write_at(out, at),
            Payload::AliveCheckRequest
            | Payload::DiagnosticMessageNack
            | Payload::EntityStatusRequest
            | Payload::VehicleIdentificationRequest => {
                assert(out@ =~= splice(old(out)@, at as int, self@.spec_encode()));
                0
            },
            Payload::AliveCheckResponse(r) => r.write_at(out, at),
            Payload::DiagnosticMessage(m) => m.write_at(out, at),
            Payload::DiagnosticMessageAck(a) => a.write_at(out, at),
            Payload::EntityStatusResponse(r) => r.write_at(out, at),
            Payload::PowerModeInfoResponse(c) => c.write_at(out, at),
            Payload::RoutingActivationRequest(r) => r.write_at(out, at),
            Payload::RoutingActivationResponse(r) => r.write_at(out, at),
            Payload::VehicleAnnouncement(r) | Payload::VehicleIdentificationResponse(r) => r.write_at(out, at),
        }
    }

    /// Copy any borrowed payload data into an owned payload.
    pub fn to_owned_payload(&self) -> (owned: OwnedPayload)
        ensures
            owned@ == self@,
    {
        match self {
            Payload::DoIPNack(c) => OwnedPayload::DoIPNack(*c),
            Payload::AliveCheckRequest => OwnedPayload::AliveCheckRequest,
            Payload::AliveCheckResponse(r) => OwnedPayload::AliveCheckResponse(*r),
            Payload::DiagnosticMessage(m) => OwnedPayload::DiagnosticMessage(m.to_owned_message()),
            Payload::DiagnosticMessageAck(a) => OwnedPayload::DiagnosticMessageAck(a.to_owned_message()),
            Payload::DiagnosticMessageNack => OwnedPayload::DiagnosticMessageNack,
            Payload::EntityStatusRequest => OwnedPayload::EntityStatusRequest,
            Payload::EntityStatusResponse(r) => OwnedPayload::EntityStatusResponse(*r),
            Payload::PowerModeInfoResponse(c) => OwnedPayload::PowerModeInfoResponse(*c),
            Payload::RoutingActivationRequest(r) => OwnedPayload::RoutingActivationRequest(*r),
            Payload::RoutingActivationResponse(r) => OwnedPayload::RoutingActivationResponse(*r),
            Payload::VehicleAnnouncement(r) => OwnedPayload::VehicleAnnouncement(*r),
            Payload::VehicleIdentificationRequest => OwnedPayload::VehicleIdentificationRequest,
            Payload::VehicleIdentificationResponse(r) => OwnedPayload::VehicleIdentificationResponse(*r),
        }
    }
}

impl OwnedPayload {
    /// Borrowed view for encode paths and read-only inspection.
    pub fn as_ref(&self) -> (borrowed: Payload<'_>)
        ensures
            borrowed@ == self@,
    {
        match self {
            OwnedPayload::DoIPNack(c) => Payload::DoIPNack(*c),
            OwnedPayload::AliveCheckRequest => Payload::AliveCheckRequest,
            OwnedPayload::AliveCheckResponse(r) => Payload::AliveCheckResponse(*r),
            OwnedPayload::DiagnosticMessage(m) => Payload::DiagnosticMessage(m.as_ref()),
            OwnedPayload::DiagnosticMessageAck(a) => Payload::DiagnosticMessageAck(a.as_ref()),
            OwnedPayload::DiagnosticMessageNack => Payload::DiagnosticMessageNack,
            OwnedPayload::EntityStatusRequest => Payload::EntityStatusRequest,
            OwnedPayload::EntityStatusResponse(r) => Payload::EntityStatusResponse(*r),
            OwnedPayload::PowerModeInfoResponse(c) => Payload::PowerModeInfoResponse(*c),
            OwnedPayload::RoutingActivationRequest(r) => Payload::RoutingActivationRequest(*r),
            OwnedPayload::RoutingActivationResponse(r) => Payload::RoutingActivationResponse(*r),
            OwnedPayload::VehicleAnnouncement(r) => Payload::VehicleAnnouncement(*r),
            OwnedPayload::VehicleIdentificationRequest => Payload::VehicleIdentificationRequest,
            OwnedPayload::VehicleIdentificationResponse(r) => Payload::VehicleIdentificationResponse(*r),
        }
    }
}

/// A canonical payload encoded and decoded under a payload type that selects its
/// variant comes back unchanged.
pub proof fn lemma_payload_roundtrip(p: PayloadModel, payload_type: PayloadType)
    requires
        p.is_canonical(),
        p.decodes_under(payload_type),
    ensures
        PayloadModel::spec_decode(p.spec_encode(), payload_type) == Ok::<_, MessageError>(p),
{
    let e = p.spec_encode();
    let empty = Seq::<u8>::empty();
    assert(e + empty =~= e);
    match p {
        PayloadModel::DoIPNack(c) => lemma_nack_code_codec(c, empty),
        PayloadModel::AliveCheckResponse(r) => lemma_alive_check_response_codec(r, empty),
        PayloadModel::DiagnosticMessage(m) => lemma_diagnostic_message_codec(m, empty),
        PayloadModel::DiagnosticMessageAck(a) => lemma_diagnostic_message_ack_codec(a, empty),
        PayloadModel::EntityStatusResponse(r) => lemma_entity_status_response_codec(r, empty),
        PayloadModel::PowerModeInfoResponse(c) => lemma_power_mode_code_codec(c, empty),
        PayloadModel::RoutingActivationRequest(r) => lemma_routing_activation_request_codec(r, empty),
        PayloadModel::RoutingActivationResponse(r) => lemma_routing_activation_response_codec(r, empty),
        PayloadModel::VehicleAnnouncement(r) => lemma_vehicle_identification_response_codec(r, empty),
        _ => {},
    }
}

/// A decoded payload is canonical, is selected by the payload type it was decoded
/// under, and its encoding is no longer than the bytes it was decoded from.
pub proof fn lemma_decoded_payload(s: Seq<u8>, payload_type: PayloadType)
    requires
        PayloadModel::spec_decode(s, payload_type) is Ok,
    ensures
        ({
            let p = PayloadModel::spec_decode(s, payload_type)->Ok_0;
            &&& p.is_canonical()
            &&& p.decodes_under(payload_type)
            &&& p.spec_encode().len() <= s.len()
        }),
{
    let p = PayloadModel::spec_decode(s, payload_type)->Ok_0;
    match payload_type {
        PayloadType::NegativeAcknowledge => lemma_nack_code_codec(NackCode::IncorrectPatternFormat, s),
        PayloadType::AliveCheckResponse => lemma_alive_check_response_codec(
            AliveCheckResponse { source_address: crate::LogicalAddress(0) },
            s,
        ),
        PayloadType::DiagnosticMessage => {
            let m = DiagnosticMessageModel::spec_decode(s)->Ok_0.0;
            lemma_diagnostic_message_codec(m, s);
        },
        PayloadType::DiagnosticMessagePositiveAcknowledge => {
            let a = DiagnosticMessageAckModel::spec_decode(s)->Ok_0.0;
            lemma_diagnostic_message_ack_codec(a, s);
        },
        PayloadType::DoIPEntityStatusResponse => {
            let r = EntityStatusResponse::spec_decode(s)->Ok_0.0;
            lemma_entity_status_response_codec(r, s);
        },
        PayloadType::DiagnosticPowerModeInfoResponse => lemma_power_mode_code_codec(
            DiagnosticPowerModeCode::NotReady,
            s,
        ),
        PayloadType::RoutingActivationRequest => {
            let r = RoutingActivationRequestModel::spec_decode(s)->Ok_0.0;
            lemma_routing_activation_request_codec(r, s);
        },
        PayloadType::RoutingActivationResponse => {
            let r = RoutingActivationResponseModel::spec_decode(s)->Ok_0.0;
            lemma_routing_activation_response_codec(r, s);
        },
        PayloadType::VehicleAnnouncement => {
            let r = VehicleIdentificationResponseModel::spec_decode(s)->Ok_0.0;
            lemma_vehicle_identification_response_codec(r, s);
        },
        _ => {},
    }
}

/// The payload type alone decides which body a payload decodes to: each
/// supported type to its own variant, the three forms of vehicle identification
/// request to the identification request, and the types without a body
/// (identification, alive check and entity status requests, diagnostic message
/// negative acknowledge) whatever the bytes. Power mode requests and reserved
/// types are unsupported.
pub proof fn lemma_payload_variant_by_type(s: Seq<u8>, t: PayloadType)
    ensures
        PayloadModel::spec_decode(s, t) matches Ok(p) ==> {
            &&& (p is DoIPNack) == (t == PayloadType::NegativeAcknowledge)
            &&& (p is VehicleIdentificationRequest) == (t == PayloadType::VehicleIdentificationRequest
                || t == PayloadType::VehicleIdentificationRequestWithEID
                || t == PayloadType::VehicleIdentificationRequestWithVIN)
            &&& (p is VehicleAnnouncement) == (t == PayloadType::VehicleAnnouncement)
            &&& (p is RoutingActivationRequest) == (t == PayloadType::RoutingActivationRequest)
            &&& (p is RoutingActivationResponse) == (t == PayloadType::RoutingActivationResponse)
            &&& (p is AliveCheckRequest) == (t == PayloadType::AliveCheckRequest)
            &&& (p is AliveCheckResponse) == (t == PayloadType::AliveCheckResponse)
            &&& (p is EntityStatusRequest) == (t == PayloadType::DoIPEntityStatusRequest)
            &&& (p is EntityStatusResponse) == (t == PayloadType::DoIPEntityStatusResponse)
            &&& (p is PowerModeInfoResponse) == (t == PayloadType::DiagnosticPowerModeInfoResponse)
            &&& (p is DiagnosticMessage) == (t == PayloadType::DiagnosticMessage)
            &&& (p is DiagnosticMessageAck) == (t == PayloadType::DiagnosticMessagePositiveAcknowledge)
            &&& (p is DiagnosticMessageNack) == (t == PayloadType::DiagnosticMessageNegativeAcknowledge)
        },
        t == PayloadType::VehicleIdentificationRequest || t == PayloadType::VehicleIdentificationRequestWithEID
            || t == PayloadType::VehicleIdentificationRequestWithVIN ==> PayloadModel::spec_decode(s, t)
            == Ok::<_, MessageError>(PayloadModel::VehicleIdentificationRequest),
        t == PayloadType::AliveCheckRequest ==> PayloadModel::spec_decode(s, t) == Ok::<_, MessageError>(
            PayloadModel::AliveCheckRequest,
        ),
        t == PayloadType::DoIPEntityStatusRequest ==> PayloadModel::spec_decode(s, t) == Ok::<_, MessageError>(
            PayloadModel::EntityStatusRequest,
        ),
        t == PayloadType::DiagnosticMessageNegativeAcknowledge ==> PayloadModel::spec_decode(s, t)
            == Ok::<_, MessageError>(PayloadModel::DiagnosticMessageNack),
        t == PayloadType::DiagnosticPowerModeInfoRequest || t is Reserved || t is ReservedVehicleManufacturer
            ==> PayloadModel::spec_decode(s, t) == Err::<PayloadModel, _>(MessageError::UnsupportedPayloadType(t)),
{
}

} // verus!

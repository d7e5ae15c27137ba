//! DoIP message types: the generic header, the payload bodies, and whole messages.
use vstd::prelude::*;

pub mod alive_check_response;
pub mod diagnostic_message;
pub mod diagnostic_message_ack;
pub mod entity_status_response;
pub mod header;
pub mod message_error;
pub mod nack;
pub mod payload;
pub mod power_mode_info_response;
pub mod routing_activation_request;
pub mod routing_activation_response;
pub mod vehicle_identification_response;

pub use alive_check_response::AliveCheckResponse;
pub use diagnostic_message::{DiagnosticMessage, DiagnosticMessageModel, OwnedDiagnosticMessage};
pub use diagnostic_message_ack::{
    DiagnosticAckCode, DiagnosticMessageAck, DiagnosticMessageAckModel, OwnedDiagnosticMessageAck,
};
pub use entity_status_response::{EntityStatusNodeType, EntityStatusResponse};
pub use header::{Header, PayloadType, ProtocolVersion};
pub use message_error::MessageError;
pub use nack::NackCode;
pub use payload::{OwnedPayload, Payload, PayloadModel};
pub use power_mode_info_response::DiagnosticPowerModeCode;
pub use vehicle_identification_response::{
    FurtherActionRequired, VehicleIdentificationResponse, VehicleIdentificationResponseModel,
    VinGidSyncStatus,
};
pub use routing_activation_response::{
    RoutingActivationResponse, RoutingActivationResponseCode, RoutingActivationResponseModel,
};
pub use routing_activation_request::{
    ActivationTypeCode, RoutingActivationRequest, RoutingActivationRequestModel,
};

use crate::wire::{incomplete, lemma_splice_concat, max_buffer_len, take};
use crate::LogicalAddress;
use header::{lemma_decoded_header_reencodes, lemma_header_roundtrip};
use payload::{lemma_decoded_payload, lemma_payload_roundtrip};
use routing_activation_request::optional_array_view;

verus! {

/// A whole DoIP message: the generic header and the payload it describes.
///
/// Payload data borrows from the buffer the message was decoded from; use
/// [`Message::to_owned_message`] to detach it.
#[derive(Clone, Debug, PartialEq, Eq)]
pub struct Message<'a> {
    /// The eight-byte generic header.
    pub header: Header,
    /// The payload the header describes.
    pub payload: Payload<'a>,
}

/// A whole DoIP message that owns its payload data.
#[derive(Clone, Debug, PartialEq, Eq)]
pub struct OwnedMessage {
    /// The eight-byte generic header.
    pub header: Header,
    /// The payload the header describes.
    pub payload: OwnedPayload,
}

/// What a message is, whether borrowed or owned.
pub struct MessageModel {
    /// The header as held, including its declared payload length.
    pub header: Header,
    /// The payload.
    pub payload: PayloadModel,
}

impl View for Message<'_> {
    type V = MessageModel;

    open spec fn view(&self) -> MessageModel {
        MessageModel { header: self.header, payload: self.payload@ }
    }
}

impl View for OwnedMessage {
    type V = MessageModel;

    open spec fn view(&self) -> MessageModel {
        MessageModel { header: self.header, payload: self.payload@ }
    }
}

/// Whether a message of payload type `response` answers one of type `request`.
pub open spec fn is_response_type(request: PayloadType, response: PayloadType) -> bool {
    match request {
        PayloadType::RoutingActivationRequest => response == PayloadType::RoutingActivationResponse,
        PayloadType::AliveCheckRequest => response == PayloadType::AliveCheckResponse,
        PayloadType::DiagnosticMessage => response == PayloadType::DiagnosticMessageNegativeAcknowledge
            || response == PayloadType::DiagnosticMessagePositiveAcknowledge || response
            == PayloadType::DiagnosticMessage,
        PayloadType::DoIPEntityStatusRequest => response == PayloadType::DoIPEntityStatusResponse,
        PayloadType::DiagnosticPowerModeInfoRequest => response
            == PayloadType::DiagnosticPowerModeInfoResponse,
        PayloadType::VehicleIdentificationRequest
        | PayloadType::VehicleIdentificationRequestWithEID
        | PayloadType::VehicleIdentificationRequestWithVIN => response
            == PayloadType::VehicleAnnouncement,
        _ => false,
    }
}

impl MessageModel {
    /// The message as it goes on the wire: the header's declared length replaced
    /// by the number of bytes the payload occupies.
    pub open spec fn normalized(self) -> MessageModel {
        MessageModel {
            header: Header {
                protocol_version: self.header.protocol_version,
                inverse_protocol_version: self.header.inverse_protocol_version,
                payload_type: self.header.payload_type,
                payload_length: self.payload.spec_encode().len() as u32,
            },
            payload: self.payload,
        }
    }

    /// The message's wire bytes: the normalized header, then the payload.
    pub open spec fn spec_encode(self) -> Seq<u8> {
        self.normalized().header.spec_encode() + self.payload.spec_encode()
    }

    /// Decoding a message from the front of `s`: the header, then exactly the
    /// declared number of payload bytes interpreted under the declared type; the
    /// message and the bytes after it, or why it failed.
    pub open spec fn spec_decode(s: Seq<u8>) -> Result<(MessageModel, Seq<u8>), MessageError> {
        match Header::spec_decode(s) {
            Err(e) => Err(e),
            Ok((h, rest)) => {
                let n = h.payload_length as int;
                if rest.len() < n {
                    Err(incomplete(n, rest.len() as int))
                } else {
                    match PayloadModel::spec_decode(rest.take(n), h.payload_type) {
                        Err(e) => Err(e),
                        Ok(p) => Ok((MessageModel { header: h, payload: p }, rest.skip(n))),
                    }
                }
            },
        }
    }

    /// A message that decoding its own encoding gives back: canonical header and
    /// payload, the payload selected by the header's type, and a payload short
    /// enough for the header's length field.
    pub open spec fn is_wire_valid(self) -> bool {
        &&& self.header.is_canonical()
        &&& self.payload.is_canonical()
        &&& self.payload.decodes_under(self.header.payload_type)
        &&& self.payload.spec_encode().len() <= u32::MAX
    }
}

/// Whether a message of payload type `response` answers one of type `request`.
pub fn response_matches(request: PayloadType, response: PayloadType) -> (r: bool)
    ensures
        r == is_response_type(request, response),
{
    match request {
        PayloadType::RoutingActivationRequest => response == PayloadType::RoutingActivationResponse,
        PayloadType::AliveCheckRequest => response == PayloadType::AliveCheckResponse,
        // A diagnostic message may be answered by either acknowledgement or by
        // another diagnostic message.
        PayloadType::DiagnosticMessage => response == PayloadType::DiagnosticMessageNegativeAcknowledge
            || response == PayloadType::DiagnosticMessagePositiveAcknowledge || response
            == PayloadType::DiagnosticMessage,
        PayloadType::DoIPEntityStatusRequest => response == PayloadType::DoIPEntityStatusResponse,
        PayloadType::DiagnosticPowerModeInfoRequest => response
            == PayloadType::DiagnosticPowerModeInfoResponse,
        PayloadType::VehicleIdentificationRequest
        | PayloadType::VehicleIdentificationRequestWithEID
        | PayloadType::VehicleIdentificationRequestWithVIN => response
            == PayloadType::VehicleAnnouncement,
        _ => false,
    }
}

/// The header length field for a payload: the number of bytes it encodes to.
pub(crate) fn payload_len(payload: &Payload) -> (n: u32)
    requires
        payload@.spec_encode().len() <= u32::MAX,
    ensures
        n == payload@.spec_encode().len(),
{
    match payload.encoded_size() {
        Ok(size) => size as u32,
        Err(_) => 0,
    }
}

impl<'a> Message<'a> {
    /// Check whether the given payload type is a valid response to this message.
    pub fn is_response(&self, payload_type: PayloadType) -> (r: bool)
        ensures
            r == is_response_type(self.header.payload_type, payload_type),
    {
        response_matches(self.header.payload_type, payload_type)
    }

    /// Construct an alive check request message.
    pub fn alive_check_request(protocol_version: ProtocolVersion) -> (m: Message<'a>)
        ensures
            m@ == (MessageModel {
                header: Header::spec_new(protocol_version, PayloadType::AliveCheckRequest, 0),
                payload: PayloadModel::AliveCheckRequest,
            }),
    {
        Message {
            header: Header::new(protocol_version, PayloadType::AliveCheckRequest, 0),
            payload: Payload::AliveCheckRequest,
        }
    }

    /// Construct an alive check response message.
    pub fn alive_check_response(protocol_version: ProtocolVersion, source_address: LogicalAddress) -> (m: Message<'a>)
        ensures
            m@ == (MessageModel {
                header: Header::spec_new(protocol_version, PayloadType::AliveCheckResponse, 2),
                payload: PayloadModel::AliveCheckResponse(AliveCheckResponse { source_address }),
            }),
    {
        let response = AliveCheckResponse { source_address };
        Message {
            header: Header::new(protocol_version, PayloadType::AliveCheckResponse, 2),
            payload: Payload::AliveCheckResponse(response),
        }
    }

    /// Construct a diagnostic message carrying opaque user data; the header's
    /// length is the four address bytes plus the user data.
    pub fn diagnostic_message(
        protocol_version: ProtocolVersion,
        source_address: LogicalAddress,
        target_address: LogicalAddress,
        user_data: &'a [u8],
    ) -> (m: Message<'a>)
        requires
            4 + user_data@.len() <= u32::MAX,
        ensures
            m@ == (MessageModel {
                header: Header::spec_new(
                    protocol_version,
                    PayloadType::DiagnosticMessage,
                    (4 + user_data@.len()) as u32,
                ),
                payload: PayloadModel::DiagnosticMessage(
                    DiagnosticMessageModel { source_address, target_address, user_data: user_data@ },
                ),
            }),
    {
        let message = DiagnosticMessage { source_address, target_address, user_data };
        let payload = Payload::DiagnosticMessage(message);
        let payload_size = payload_len(&payload);
        Message {
            header: Header::new(protocol_version, PayloadType::DiagnosticMessage, payload_size),
            payload,
        }
    }

    /// Construct a diagnostic message acknowledgement.
    ///
    /// The header carries the positive-acknowledge payload type (0x8002) whatever
    /// `ack_code` is, so a negative code goes out under the positive type.
    pub fn diagnostic_message_ack(
        protocol_version: ProtocolVersion,
        source_address: LogicalAddress,
        target_address: LogicalAddress,
        ack_code: DiagnosticAckCode,
        previous_message_data: &'a [u8],
    ) -> (m: Message<'a>)
        requires
            5 + previous_message_data@.len() <= u32::MAX,
        ensures
            m@ == (MessageModel {
                header: Header::spec_new(
                    protocol_version,
                    PayloadType::DiagnosticMessagePositiveAcknowledge,
                    (5 + previous_message_data@.len()) as u32,
                ),
                payload: PayloadModel::DiagnosticMessageAck(
                    DiagnosticMessageAckModel {
                        source_address,
                        target_address,
                        ack_code,
                        previous_message_data: previous_message_data@,
                    },
                ),
            }),
    {
        let ack = DiagnosticMessageAck {
            source_address,
            target_address,
            ack_code,
            previous_message_data,
        };
        let payload = Payload::DiagnosticMessageAck(ack);
        let payload_size = payload_len(&payload);
        Message {
            header: Header::new(
                protocol_version,
                PayloadType::DiagnosticMessagePositiveAcknowledge,
                payload_size,
            ),
            payload,
        }
    }

    /// Construct a routing activation request message; the reserved bytes are
    /// zero and the length is 7, or 11 with the manufacturer tail.
    pub fn routing_activation_request(
        protocol_version: ProtocolVersion,
        source_address: LogicalAddress,
        activation_type: ActivationTypeCode,
        reserved_vehicle_manufacturer: Option<[u8; 4]>,
    ) -> (m: Message<'a>)
        ensures
            m@ == (MessageModel {
                header: Header::spec_new(
                    protocol_version,
                    PayloadType::RoutingActivationRequest,
                    if reserved_vehicle_manufacturer is Some { 11 } else { 7 },
                ),
                payload: PayloadModel::RoutingActivationRequest(
                    RoutingActivationRequestModel {
                        source_address,
                        activation_type,
                        reserved: seq![0u8, 0, 0, 0],
                        reserved_vehicle_manufacturer: optional_array_view(reserved_vehicle_manufacturer),
                    },
                ),
            }),
    {
        let request = RoutingActivationRequest {
            source_address,
            activation_type,
            reserved: [0, 0, 0, 0],
            reserved_vehicle_manufacturer,
        };
        assert(request.reserved@ =~= seq![0u8, 0, 0, 0]);
        let payload = Payload::RoutingActivationRequest(request);
        let header = Header::new(
            protocol_version,
            PayloadType::RoutingActivationRequest,
            payload_len(&payload),
        );
        Message { header, payload }
    }

    /// Construct a routing activation response message; the length is 9, or 13
    /// with the OEM-specific tail.
    pub fn routing_activation_response(
        protocol_version: ProtocolVersion,
        logical_address_tester: LogicalAddress,
        logical_address_of_doip_entity: LogicalAddress,
        routing_activation_response_code: RoutingActivationResponseCode,
        reserved_oem: [u8; 4],
        oem_specific: Option<[u8; 4]>,
    ) -> (m: Message<'a>)
        ensures
            m@ == (MessageModel {
                header: Header::spec_new(
                    protocol_version,
                    PayloadType::RoutingActivationResponse,
                    if oem_specific is Some { 13 } else { 9 },
                ),
                payload: PayloadModel::RoutingActivationResponse(
                    RoutingActivationResponseModel {
                        logical_address_tester,
                        logical_address_of_doip_entity,
                        routing_activation_response_code,
                        reserved_oem: reserved_oem@,
                        oem_specific: optional_array_view(oem_specific),
                    },
                ),
            }),
    {
        let response = RoutingActivationResponse {
            logical_address_tester,
            logical_address_of_doip_entity,
            routing_activation_response_code,
            reserved_oem,
            oem_specific,
        };
        let payload = Payload::RoutingActivationResponse(response);
        let header = Header::new(
            protocol_version,
            PayloadType::RoutingActivationResponse,
            payload_len(&payload),
        );
        Message { header, payload }
    }

    /// Decode a complete message (header and payload) from the front of `buf`,
    /// returning it and the bytes after it.
    pub fn decode(buf: &'a [u8]) -> (r: Result<(Message<'a>, &'a [u8]), MessageError>)
        ensures
            match r {
                Ok((m, rest)) => MessageModel::spec_decode(buf@) == Ok::<_, MessageError>((m@, rest@)),
                Err(e) => MessageModel::spec_decode(buf@) == Err::<(MessageModel, Seq<u8>), _>(e),
            },
            r is Ok ==> buf@.len() <= max_buffer_len(),
    {
        let (header, rest) = Header::decode(buf)?;
        let (payload_bytes, rest) = take(rest, header.payload_length as usize)?;
        let payload = Payload::decode(payload_bytes, header.payload_type)?;
        Ok((Message { header, payload }, rest))
    }

    /// Number of bytes `encode` writes: the header and the payload.
    pub fn encoded_size(&self) -> (r: Result<usize, MessageError>)
        requires
            Header::SIZE + self@.payload.spec_encode().len() <= usize::MAX,
        ensures
            r == Ok::<_, MessageError>(self@.spec_encode().len() as usize),
    {
        let payload_size = self.payload.encoded_size()?;
        Ok(Header::SIZE + payload_size)
    }

    /// Append the message's wire bytes to `out`, returning the number written.
    ///
    /// The header goes out with the length its payload actually occupies, whatever
    /// length the held header declares. A payload longer than the 32-bit length
    /// field can describe is refused with `PayloadTooLarge`, and nothing is
    /// written.
    pub fn encode(&self, out: &mut Vec<u8>) -> (r: Result<usize, MessageError>)
        requires
            old(out)@.len() + Header::SIZE + self@.payload.spec_encode().len() <= max_buffer_len(),
        ensures
            self@.payload.spec_encode().len() <= u32::MAX ==> final(out)@ == old(out)@ + self@.spec_encode()
                && r == Ok::<_, MessageError>(self@.spec_encode().len() as usize),
            self@.payload.spec_encode().len() > u32::MAX ==> final(out)@ == old(out)@
                && r == Err::<usize, _>(MessageError::PayloadTooLarge {
                size: self@.payload.spec_encode().len() as usize,
            }),
    {
        let ghost start = out@;
        let size = match self.payload.encoded_size() {
            Ok(size) => size,
            Err(e) => return Err(e),
        };
        if size > 0xFFFF_FFFF {
            return Err(MessageError::PayloadTooLarge { size });
        }
        let header = Header {
            protocol_version: self.header.protocol_version,
            inverse_protocol_version: self.header.inverse_protocol_version,
            payload_type: self.header.payload_type,
            payload_length: size as u32,
        };
        let written = header.encode(out)?;
        let body = self.payload.encode(out)?;
        assert(out@ =~= start + self@.spec_encode());
        Ok(written + body)
    }

    /// Write the message's wire bytes to the front of the fixed buffer `out`,
    /// with no allocation, returning the number written.
    ///
    /// As with `encode`, the header goes out with the length its payload
    /// occupies. A payload longer than the 32-bit length field can describe is
    /// refused with `PayloadTooLarge`; a buffer shorter than the message with
    /// `InsufficientBuffer`. On either error `out` is left as it was; on success
    /// the bytes after the message are left as they were.
    pub fn encode_into(&self, out: &mut [u8]) -> (r: Result<usize, MessageError>)
        requires
            Header::SIZE + self@.payload.spec_encode().len() <= usize::MAX,
        ensures
            ({
                let size = self@.payload.spec_encode().len();
                let needed = self@.spec_encode().len();
                if size > u32::MAX {
                    &&& final(out)@ == old(out)@
                    &&& r == Err::<usize, _>(MessageError::PayloadTooLarge { size: size as usize })
                } else if old(out)@.len() < needed {
                    &&& final(out)@ == old(out)@
                    &&& r == Err::<usize, _>(MessageError::InsufficientBuffer {
                        needed: needed as usize,
                        available: old(out)@.len() as usize,
                    })
                } else {
                    &&& final(out)@ == self@.spec_encode() + old(out)@.skip(needed as int)
                    &&& r == Ok::<_, MessageError>(needed as usize)
                }
            }),
    {
        let ghost start = out@;
        let size = match self.payload.encoded_size() {
            Ok(size) => size,
            Err(e) => return Err(e),
        };
        if size > 0xFFFF_FFFF {
            return Err(MessageError::PayloadTooLarge { size });
        }
        let needed = Header::SIZE + size;
        let available = out.len();
        if available < needed {
            return Err(MessageError::InsufficientBuffer { needed, available });
        }
        let header = Header {
            protocol_version: self.header.protocol_version,
            inverse_protocol_version: self.header.inverse_protocol_version,
            payload_type: self.header.payload_type,
            payload_length: size as u32,
        };
        let written = header.write_at(out, 0);
        let body = self.payload.write_at(out, Header::SIZE);
        proof {
            lemma_splice_concat(start, 0, header.spec_encode(), self@.payload.spec_encode());
            assert(start.take(0) + self@.spec_encode() =~= self@.spec_encode());
        }
        Ok(written + body)
    }

    /// Copy borrowed payload data into an owned message.
    pub fn to_owned_message(&self) -> (owned: OwnedMessage)
        ensures
            owned@ == self@,
    {
        OwnedMessage { header: self.header, payload: self.payload.to_owned_payload() }
    }
}

impl OwnedMessage {
    /// Borrowed view for encode paths and read-only inspection.
    pub fn as_ref(&self) -> (borrowed: Message<'_>)
        ensures
            borrowed@ == self@,
    {
        Message { header: self.header, payload: self.payload.as_ref() }
    }

    /// Check whether the given payload type is a valid response to this message.
    pub fn is_response(&self, payload_type: PayloadType) -> (r: bool)
        ensures
            r == is_response_type(self.header.payload_type, payload_type),
    {
        self.as_ref().is_response(payload_type)
    }

    /// Construct an alive check request message.
    pub fn alive_check_request(protocol_version: ProtocolVersion) -> (m: OwnedMessage)
        ensures
            m@ == (MessageModel {
                header: Header::spec_new(protocol_version, PayloadType::AliveCheckRequest, 0),
                payload: PayloadModel::AliveCheckRequest,
            }),
    {
        Message::alive_check_request(protocol_version).to_owned_message()
    }

    /// Construct an alive check response message.
    pub fn alive_check_response(protocol_version: ProtocolVersion, source_address: LogicalAddress) -> (m: OwnedMessage)
        ensures
            m@ == (MessageModel {
                header: Header::spec_new(protocol_version, PayloadType::AliveCheckResponse, 2),
                payload: PayloadModel::AliveCheckResponse(AliveCheckResponse { source_address }),
            }),
    {
        Message::alive_check_response(protocol_version, source_address).to_owned_message()
    }

    /// Construct a routing activation request message.
    pub fn routing_activation_request(
        protocol_version: ProtocolVersion,
        source_address: LogicalAddress,
        activation_type: ActivationTypeCode,
        reserved_vehicle_manufacturer: Option<[u8; 4]>,
    ) -> (m: OwnedMessage)
        ensures
            m@ == (MessageModel {
                header: Header::spec_new(
                    protocol_version,
                    PayloadType::RoutingActivationRequest,
                    if reserved_vehicle_manufacturer is Some { 11 } else { 7 },
                ),
                payload: PayloadModel::RoutingActivationRequest(
                    RoutingActivationRequestModel {
                        source_address,
                        activation_type,
                        reserved: seq![0u8, 0, 0, 0],
                        reserved_vehicle_manufacturer: optional_array_view(reserved_vehicle_manufacturer),
                    },
                ),
            }),
    {
        Message::routing_activation_request(
            protocol_version,
            source_address,
            activation_type,
            reserved_vehicle_manufacturer,
        ).to_owned_message()
    }

    /// Construct a routing activation response message.
    pub fn routing_activation_response(
        protocol_version: ProtocolVersion,
        logical_address_tester: LogicalAddress,
        logical_address_of_doip_entity: LogicalAddress,
        routing_activation_response_code: RoutingActivationResponseCode,
        reserved_oem: [u8; 4],
        oem_specific: Option<[u8; 4]>,
    ) -> (m: OwnedMessage)
        ensures
            m@ == (MessageModel {
                header: Header::spec_new(
                    protocol_version,
                    PayloadType::RoutingActivationResponse,
                    if oem_specific is Some { 13 } else { 9 },
                ),
                payload: PayloadModel::RoutingActivationResponse(
                    RoutingActivationResponseModel {
                        logical_address_tester,
                        logical_address_of_doip_entity,
                        routing_activation_response_code,
                        reserved_oem: reserved_oem@,
                        oem_specific: optional_array_view(oem_specific),
                    },
                ),
            }),
    {
        Message::routing_activation_response(
            protocol_version,
            logical_address_tester,
            logical_address_of_doip_entity,
            routing_activation_response_code,
            reserved_oem,
            oem_specific,
        ).to_owned_message()
    }

    /// Construct a diagnostic message carrying owned user data.
    pub fn diagnostic_message(
        protocol_version: ProtocolVersion,
        source_address: LogicalAddress,
        target_address: LogicalAddress,
        user_data: Vec<u8>,
    ) -> (m: OwnedMessage)
        requires
            4 + user_data@.len() <= u32::MAX,
        ensures
            m@ == (MessageModel {
                header: Header::spec_new(
                    protocol_version,
                    PayloadType::DiagnosticMessage,
                    (4 + user_data@.len()) as u32,
                ),
                payload: PayloadModel::DiagnosticMessage(
                    DiagnosticMessageModel { source_address, target_address, user_data: user_data@ },
                ),
            }),
    {
        let message = OwnedDiagnosticMessage { source_address, target_address, user_data };
        let payload = OwnedPayload::DiagnosticMessage(message);
        let payload_size = payload_len(&payload.as_ref());
        OwnedMessage {
            header: Header::new(protocol_version, PayloadType::DiagnosticMessage, payload_size),
            payload,
        }
    }

    /// Construct a diagnostic message acknowledgement carrying owned data, under
    /// the positive-acknowledge payload type whatever `ack_code` is.
    pub fn diagnostic_message_ack(
        protocol_version: ProtocolVersion,
        source_address: LogicalAddress,
        target_address: LogicalAddress,
        ack_code: DiagnosticAckCode,
        previous_message_data: Vec<u8>,
    ) -> (m: OwnedMessage)
        requires
            5 + previous_message_data@.len() <= u32::MAX,
        ensures
            m@ == (MessageModel {
                header: Header::spec_new(
                    protocol_version,
                    PayloadType::DiagnosticMessagePositiveAcknowledge,
                    (5 + previous_message_data@.len()) as u32,
                ),
                payload: PayloadModel::DiagnosticMessageAck(
                    DiagnosticMessageAckModel {
                        source_address,
                        target_address,
                        ack_code,
                        previous_message_data: previous_message_data@,
                    },
                ),
            }),
    {
        let ack = OwnedDiagnosticMessageAck {
            source_address,
            target_address,
            ack_code,
            previous_message_data,
        };
        let payload = OwnedPayload::DiagnosticMessageAck(ack);
        let payload_size = payload_len(&payload.as_ref());
        OwnedMessage {
            header: Header::new(
                protocol_version,
                PayloadType::DiagnosticMessagePositiveAcknowledge,
                payload_size,
            ),
            payload,
        }
    }

    /// Construct the reply to a vehicle identification request: the response
    /// under the vehicle announcement payload type (0x0004), which both share.
    pub fn vehicle_identification_response(
        protocol_version: ProtocolVersion,
        response: VehicleIdentificationResponse,
    ) -> (m: OwnedMessage)
        ensures
            m@ == (MessageModel {
                header: Header::spec_new(protocol_version, PayloadType::VehicleAnnouncement, 33),
                payload: PayloadModel::VehicleIdentificationResponse(response@),
            }),
    {
        let payload = OwnedPayload::VehicleIdentificationResponse(response);
        let payload_size = payload_len(&payload.as_ref());
        OwnedMessage {
            header: Header::new(protocol_version, PayloadType::VehicleAnnouncement, payload_size),
            payload,
        }
    }

    /// Number of bytes `encode` writes.
    pub fn encoded_size(&self) -> (r: Result<usize, MessageError>)
        requires
            Header::SIZE + self@.payload.spec_encode().len() <= usize::MAX,
        ensures
            r == Ok::<_, MessageError>(self@.spec_encode().len() as usize),
    {
        self.as_ref().encoded_size()
    }

    /// Append the message's wire bytes to `out`, returning the number written; a
    /// payload too long for the header's length field is refused with
    /// `PayloadTooLarge` and nothing is written.
    pub fn encode(&self, out: &mut Vec<u8>) -> (r: Result<usize, MessageError>)
        requires
            old(out)@.len() + Header::SIZE + self@.payload.spec_encode().len() <= max_buffer_len(),
        ensures
            self@.payload.spec_encode().len() <= u32::MAX ==> final(out)@ == old(out)@ + self@.spec_encode()
                && r == Ok::<_, MessageError>(self@.spec_encode().len() as usize),
            self@.payload.spec_encode().len() > u32::MAX ==> final(out)@ == old(out)@
                && r == Err::<usize, _>(MessageError::PayloadTooLarge {
                size: self@.payload.spec_encode().len() as usize,
            }),
    {
        self.as_ref().encode(out)
    }

    /// Write the message's wire bytes to the front of the fixed buffer `out`,
    /// with no allocation, returning the number written; see
    /// [`Message::encode_into`].
    pub fn encode_into(&self, out: &mut [u8]) -> (r: Result<usize, MessageError>)
        requires
            Header::SIZE + self@.payload.spec_encode().len() <= usize::MAX,
        ensures
            ({
                let size = self@.payload.spec_encode().len();
                let needed = self@.spec_encode().len();
                if size > u32::MAX {
                    &&& final(out)@ == old(out)@
                    &&& r == Err::<usize, _>(MessageError::PayloadTooLarge { size: size as usize })
                } else if old(out)@.len() < needed {
                    &&& final(out)@ == old(out)@
                    &&& r == Err::<usize, _>(MessageError::InsufficientBuffer {
                        needed: needed as usize,
                        available: old(out)@.len() as usize,
                    })
                } else {
                    &&& final(out)@ == self@.spec_encode() + old(out)@.skip(needed as int)
                    &&& r == Ok::<_, MessageError>(needed as usize)
                }
            }),
    {
        self.as_ref().encode_into(out)
    }
}

impl Default for OwnedMessage {
    /// An empty diagnostic message between address 0 and address 0, used as a
    /// placeholder while waiting for any response.
    fn default() -> (m: OwnedMessage)
        ensures
            m@ == (MessageModel {
                header: Header::spec_new(ProtocolVersion::V2012, PayloadType::DiagnosticMessage, 0),
                payload: PayloadModel::DiagnosticMessage(
                    DiagnosticMessageModel {
                        source_address: LogicalAddress(0),
                        target_address: LogicalAddress(0),
                        user_data: Seq::empty(),
                    },
                ),
            }),
    {
        OwnedMessage {
            header: Header::new(ProtocolVersion::V2012, PayloadType::DiagnosticMessage, 0),
            payload: OwnedPayload::DiagnosticMessage(
                OwnedDiagnosticMessage {
                    source_address: LogicalAddress(0),
                    target_address: LogicalAddress(0),
                    user_data: Vec::new(),
                },
            ),
        }
    }
}

/// Every message that is valid on the wire survives encoding: decoding its bytes
/// gives back the message, with the length its payload occupies, and nothing
/// after it.
pub proof fn lemma_message_roundtrip(m: MessageModel)
    requires
        m.is_wire_valid(),
    ensures
        MessageModel::spec_decode(m.spec_encode()) == Ok::<_, MessageError>((m.normalized(), Seq::<u8>::empty())),
{
    let body = m.payload.spec_encode();
    let h = m.normalized().header;
    lemma_header_roundtrip(h, body);
    lemma_payload_roundtrip(m.payload, m.header.payload_type);
    assert(body.take(body.len() as int) =~= body);
    assert(body.skip(body.len() as int) =~= Seq::<u8>::empty());
}

/// Whatever a peer sends that decodes is re-encoded into a frame that decodes:
/// the same payload under the same payload type, with no bytes left over, and
/// encoding that again gives the very same bytes.
pub proof fn lemma_decoded_message_reencodes(s: Seq<u8>)
    requires
        MessageModel::spec_decode(s) is Ok,
    ensures
        ({
            let m = MessageModel::spec_decode(s)->Ok_0.0;
            &&& m.is_wire_valid()
            &&& MessageModel::spec_decode(m.spec_encode()) == Ok::<_, MessageError>((m.normalized(), Seq::<u8>::empty()))
            &&& m.normalized().payload == m.payload
            &&& m.normalized().header.payload_type == m.header.payload_type
            &&& m.normalized().spec_encode() == m.spec_encode()
            &&& m.spec_encode().len() == Header::SIZE + m.normalized().header.payload_length
            &&& m.spec_encode().len() <= s.len()
        }),
{
    lemma_decoded_header_reencodes(s);
    let (h, rest) = Header::spec_decode(s)->Ok_0;
    lemma_decoded_payload(rest.take(h.payload_length as int), h.payload_type);
    let m = MessageModel::spec_decode(s)->Ok_0.0;
    lemma_message_roundtrip(m);
}

/// Which payload types answer which requests: a routing activation request is
/// answered by a routing activation response, an alive check request by an alive
/// check response, a diagnostic message by a positive or negative
/// acknowledgement or a diagnostic message, an entity status request by an
/// entity status response, a power mode request by a power mode response, and
/// every form of vehicle identification request by a vehicle announcement;
/// nothing answers any other payload type.
pub proof fn lemma_response_types(request: PayloadType, response: PayloadType)
    ensures
        is_response_type(request, response) == (
            (request == PayloadType::RoutingActivationRequest && response == PayloadType::RoutingActivationResponse)
            || (request == PayloadType::AliveCheckRequest && response == PayloadType::AliveCheckResponse)
            || (request == PayloadType::DiagnosticMessage && (response
                == PayloadType::DiagnosticMessagePositiveAcknowledge || response
                == PayloadType::DiagnosticMessageNegativeAcknowledge || response == PayloadType::DiagnosticMessage))
            || (request == PayloadType::DoIPEntityStatusRequest && response == PayloadType::DoIPEntityStatusResponse)
            || (request == PayloadType::DiagnosticPowerModeInfoRequest && response
                == PayloadType::DiagnosticPowerModeInfoResponse)
            || ((request == PayloadType::VehicleIdentificationRequest || request
                == PayloadType::VehicleIdentificationRequestWithEID || request
                == PayloadType::VehicleIdentificationRequestWithVIN) && response == PayloadType::VehicleAnnouncement)
        ),
{
}

} // verus!


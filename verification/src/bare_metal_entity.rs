//! A sans-io DoIP entity (server) for targets with a single diagnostic TCP socket.
//!
//! The platform feeds raw bytes in and performs what the entity asks for: on UDP
//! the entity answers vehicle identification requests (all three forms) with a
//! vehicle announcement and entity status requests with its single-socket
//! status, and NACKs malformed datagrams; on TCP it reassembles the byte stream,
//! performs routing activation (one tester at a time), acknowledges diagnostic
//! messages and hands their user data to the platform's UDS dispatch, whose
//! answer [`Entity::uds_response`] frames as a diagnostic message.
//!
//! Each TCP call returns one [`TcpStep`]: what to send, whether to dispatch a
//! UDS request, and whether the connection stays open. After a step that keeps
//! the connection open the platform calls [`Entity::next_tcp_step`] until the
//! entity reports that it is done with the buffered bytes.
use vstd::prelude::*;

use crate::framer::{spec_try_frame, try_frame};
use crate::messages::payload_len;
use crate::messages::{
    ActivationTypeCode, DiagnosticAckCode, DiagnosticMessage, DiagnosticMessageAck,
    DiagnosticMessageAckModel, DiagnosticMessageModel, EntityStatusNodeType, EntityStatusResponse,
    FurtherActionRequired, Header, Message, MessageModel, NackCode, Payload, PayloadModel,
    PayloadType, ProtocolVersion, RoutingActivationRequestModel, RoutingActivationResponseCode,
    RoutingActivationResponseModel, VehicleIdentificationResponse,
    VehicleIdentificationResponseModel, VinGidSyncStatus,
};
use crate::LogicalAddress;

verus! {

/// VIN length fixed by ISO 13400-2.
pub const VIN_LEN: usize = 17;

/// Entity ID (EID) length fixed by ISO 13400-2.
pub const EID_LEN: usize = 6;

/// Group ID (GID) length fixed by ISO 13400-2.
pub const GID_LEN: usize = 6;

/// Largest UDS response the platform's dispatch may produce.
pub const UDS_RESP_CAP: usize = 1024;

/// TCP reassembly capacity; bounds the largest inbound frame.
pub const TCP_RX_CAP: usize = 2048;

/// Largest inbound payload that can ever complete reassembly.
pub const MAX_RX_PAYLOAD: usize = 2040;

/// Identity and addressing the entity announces and answers with.
#[derive(Clone, Copy, Debug)]
pub struct EntityConfig {
    /// Vehicle identification number, announced verbatim.
    pub vin: [u8; 17],
    /// Entity ID (typically the MAC address).
    pub eid: [u8; 6],
    /// Group ID; all-zero means "not set" and is announced as absent.
    pub gid: [u8; 6],
    /// This entity's logical address.
    pub logical_address: u16,
}

/// What the platform must do with the TCP connection.
#[derive(Clone, Copy, Debug, PartialEq, Eq, Structural)]
pub enum TcpVerdict {
    /// The connection is healthy; keep feeding bytes.
    KeepOpen,
    /// Protocol state is unrecoverable: close the connection and call
    /// [`Entity::on_tcp_disconnect`].
    Close,
}

/// One thing the platform must do on the diagnostic TCP connection.
#[derive(Clone, Debug, PartialEq, Eq)]
pub enum TcpStep {
    /// Nothing to send; the buffered bytes are handled.
    Done(TcpVerdict),
    /// Send `frame`; on `KeepOpen` ask for the next step, on `Close` close.
    Send {
        /// The bytes to send.
        frame: Vec<u8>,
        /// What to do with the connection afterwards.
        verdict: TcpVerdict,
    },
    /// Send `ack`, hand `request` to the UDS dispatch, pass its answer to
    /// [`Entity::uds_response`] and send what that frames; then ask for the next
    /// step. The connection stays open.
    Dispatch {
        /// The positive acknowledgement to send first.
        ack: Vec<u8>,
        /// The UDS request carried by the diagnostic message.
        request: Vec<u8>,
        /// The tester the response goes to.
        tester: u16,
    },
}

/// What a TCP step is.
pub enum TcpStepModel {
    /// Nothing to send.
    Done(TcpVerdict),
    /// Send a frame.
    Send { frame: Seq<u8>, verdict: TcpVerdict },
    /// Acknowledge and dispatch a UDS request.
    Dispatch { ack: Seq<u8>, request: Seq<u8>, tester: u16 },
}

impl View for TcpStep {
    type V = TcpStepModel;

    open spec fn view(&self) -> TcpStepModel {
        match self {
            TcpStep::Done(v) => TcpStepModel::Done(*v),
            TcpStep::Send { frame, verdict } => TcpStepModel::Send { frame: frame@, verdict: *verdict },
            TcpStep::Dispatch { ack, request, tester } => TcpStepModel::Dispatch {
                ack: ack@,
                request: request@,
                tester: *tester,
            },
        }
    }
}

impl TcpStepModel {
    /// What happens to the connection after this step.
    pub open spec fn verdict(self) -> TcpVerdict {
        match self {
            TcpStepModel::Done(v) => v,
            TcpStepModel::Send { verdict, .. } => verdict,
            TcpStepModel::Dispatch { .. } => TcpVerdict::KeepOpen,
        }
    }
}

/// What an entity is: its identity, whether it serves, the tester that holds
/// routing activation, and the bytes awaiting reassembly.
pub struct EntityModel {
    /// The VIN announced.
    pub vin: Seq<u8>,
    /// The entity ID announced.
    pub eid: Seq<u8>,
    /// The group ID announced (all zero: not set).
    pub gid: Seq<u8>,
    /// The entity's logical address.
    pub logical_address: u16,
    /// Whether the entity serves (between `init` and `deinit`).
    pub serving: bool,
    /// The source address registered by a successful routing activation.
    pub active_tester: Option<u16>,
    /// TCP bytes received and not yet consumed.
    pub rx: Seq<u8>,
}

/// The frame of a reply: the payload under a V2012 header of `payload_type`
/// that declares the payload's length.
pub open spec fn reply(payload_type: PayloadType, payload: PayloadModel) -> Seq<u8> {
    MessageModel {
        header: Header::spec_new(
            ProtocolVersion::V2012,
            payload_type,
            payload.spec_encode().len() as u32,
        ),
        payload,
    }.spec_encode()
}

/// A generic header negative acknowledge with `code`.
pub open spec fn nack_reply(code: NackCode) -> Seq<u8> {
    reply(PayloadType::NegativeAcknowledge, PayloadModel::DoIPNack(code))
}

/// Six zero bytes: the group ID that means "not set".
pub open spec fn zero_gid() -> Seq<u8> {
    Seq::new(6, |i: int| 0u8)
}

/// A diagnostic message acknowledgement frame from entity `own` to `tester`.
pub open spec fn ack_reply(own: u16, payload_type: PayloadType, tester: u16, code: DiagnosticAckCode) -> Seq<u8> {
    reply(
        payload_type,
        PayloadModel::DiagnosticMessageAck(
            DiagnosticMessageAckModel {
                source_address: LogicalAddress(own),
                target_address: LogicalAddress(tester),
                ack_code: code,
                previous_message_data: Seq::empty(),
            },
        ),
    )
}

/// The step of entity `own`, with `active` the registered tester, for
/// diagnostic message `dm`: without routing activation, or from another source
/// than the active tester, a negative acknowledgement and close; to another
/// target, a negative acknowledgement; otherwise a positive acknowledgement and
/// the request dispatched.
pub open spec fn diagnostic_outcome(own: u16, active: Option<u16>, dm: DiagnosticMessageModel) -> TcpStepModel {
    match active {
        None => TcpStepModel::Send {
            frame: ack_reply(
                own,
                PayloadType::DiagnosticMessageNegativeAcknowledge,
                dm.source_address.0,
                DiagnosticAckCode::InvalidSourceAddress,
            ),
            verdict: TcpVerdict::Close,
        },
        Some(t) => if dm.source_address.0 != t {
            TcpStepModel::Send {
                frame: ack_reply(
                    own,
                    PayloadType::DiagnosticMessageNegativeAcknowledge,
                    t,
                    DiagnosticAckCode::InvalidSourceAddress,
                ),
                verdict: TcpVerdict::Close,
            }
        } else if dm.target_address.0 != own {
            TcpStepModel::Send {
                frame: ack_reply(
                    own,
                    PayloadType::DiagnosticMessageNegativeAcknowledge,
                    t,
                    DiagnosticAckCode::UnknownTargetAddress,
                ),
                verdict: TcpVerdict::KeepOpen,
            }
        } else {
            TcpStepModel::Dispatch {
                ack: ack_reply(
                    own,
                    PayloadType::DiagnosticMessagePositiveAcknowledge,
                    t,
                    DiagnosticAckCode::RoutingConfirmationAck,
                ),
                request: dm.user_data,
                tester: t,
            }
        },
    }
}

/// The response code and verdict for routing activation request `req` while
/// `active` is the registered tester: the source must be a tester address, the
/// activation type default or regulation-required, and no other tester may be
/// active.
pub open spec fn activation_outcome(active: Option<u16>, req: RoutingActivationRequestModel) -> (RoutingActivationResponseCode, TcpVerdict) {
    if !req.source_address.spec_is_valid_client_address() {
        (RoutingActivationResponseCode::DeniedUnknownSourceAddress, TcpVerdict::Close)
    } else if !(req.activation_type is Default || req.activation_type is RegulationRequired) {
        (RoutingActivationResponseCode::DeniedUnsupportedRoutingActivationType, TcpVerdict::Close)
    } else if active matches Some(a) && a != req.source_address.0 {
        (RoutingActivationResponseCode::DeniedSourceAddressAlreadyActivated, TcpVerdict::Close)
    } else {
        (RoutingActivationResponseCode::RoutingSuccessfullyActivated, TcpVerdict::KeepOpen)
    }
}

/// The routing activation response frame of entity `own` to `req`, carrying `code`.
pub open spec fn activation_reply(own: u16, req: RoutingActivationRequestModel, code: RoutingActivationResponseCode) -> Seq<u8> {
    reply(
        PayloadType::RoutingActivationResponse,
        PayloadModel::RoutingActivationResponse(
            RoutingActivationResponseModel {
                logical_address_tester: req.source_address,
                logical_address_of_doip_entity: LogicalAddress(own),
                routing_activation_response_code: code,
                reserved_oem: seq![0u8, 0, 0, 0],
                oem_specific: None,
            },
        ),
    )
}

/// The step of entity `own`, with `active` the registered tester, for one framed
/// message, and the registered tester afterwards: routing activation requests
/// and diagnostic messages are served, anything else is NACKed.
pub open spec fn frame_outcome(own: u16, active: Option<u16>, header: Header, payload: Seq<u8>) -> (TcpStepModel, Option<u16>) {
    match PayloadModel::spec_decode(payload, header.payload_type) {
        Ok(PayloadModel::RoutingActivationRequest(req)) => {
            let (code, verdict) = activation_outcome(active, req);
            (
                TcpStepModel::Send { frame: activation_reply(own, req, code), verdict },
                if code is RoutingSuccessfullyActivated {
                    Some(req.source_address.0)
                } else {
                    active
                },
            )
        },
        Ok(PayloadModel::DiagnosticMessage(dm)) => (diagnostic_outcome(own, active, dm), active),
        _ => (
            TcpStepModel::Send {
                frame: nack_reply(NackCode::UnknownPayloadType),
                verdict: TcpVerdict::KeepOpen,
            },
            active,
        ),
    }
}

impl EntityModel {
    /// The entity with `rx` as its buffered bytes.
    pub open spec fn with_rx(self, rx: Seq<u8>) -> EntityModel {
        EntityModel {
            vin: self.vin,
            eid: self.eid,
            gid: self.gid,
            logical_address: self.logical_address,
            serving: self.serving,
            active_tester: self.active_tester,
            rx,
        }
    }

    /// The entity with `active` as its registered tester.
    pub open spec fn with_active(self, active: Option<u16>) -> EntityModel {
        EntityModel {
            vin: self.vin,
            eid: self.eid,
            gid: self.gid,
            logical_address: self.logical_address,
            serving: self.serving,
            active_tester: active,
            rx: self.rx,
        }
    }

    /// What every entity satisfies: identity fields of their fixed lengths, no
    /// more buffered bytes than the reassembly capacity, and an active tester, if
    /// any, in the tester address range.
    pub open spec fn is_valid(self) -> bool {
        &&& self.vin.len() == VIN_LEN
        &&& self.eid.len() == EID_LEN
        &&& self.gid.len() == GID_LEN
        &&& self.rx.len() <= TCP_RX_CAP
        &&& self.active_tester matches Some(t) ==> LogicalAddress(t).spec_is_valid_client_address()
    }

    /// The vehicle announcement payload.
    pub open spec fn announcement(self) -> PayloadModel {
        PayloadModel::VehicleAnnouncement(
            VehicleIdentificationResponseModel {
                vin: self.vin,
                logical_address: LogicalAddress(self.logical_address),
                entity_id: self.eid,
                group_id: if self.gid == zero_gid() {
                    None
                } else {
                    Some(self.gid)
                },
                further_action: FurtherActionRequired::NoFurtherActionRequired,
                vin_gid_sync_status: VinGidSyncStatus::Synchronized,
            },
        )
    }

    /// The entity status payload: a node with one TCP socket, open while a
    /// tester is registered.
    pub open spec fn status(self) -> PayloadModel {
        PayloadModel::EntityStatusResponse(
            EntityStatusResponse {
                node_type: EntityStatusNodeType::DoIPNode,
                max_concurrent_tcp_sockets: 1,
                open_tcp_sockets: if self.active_tester is Some {
                    1
                } else {
                    0
                },
                max_data_size: MAX_RX_PAYLOAD as u32,
            },
        )
    }

    /// The reply to UDP datagram `s`, if any.
    pub open spec fn udp_reply(self, s: Seq<u8>) -> Option<Seq<u8>> {
        if !self.serving || s.len() == 0 {
            None
        } else {
            match spec_try_frame(s) {
                Ok(None) => None,
                Err(_) => Some(nack_reply(NackCode::IncorrectPatternFormat)),
                Ok(Some((f, _))) => match PayloadModel::spec_decode(f.payload, f.header.payload_type) {
                    Ok(PayloadModel::VehicleIdentificationRequest) => Some(
                        reply(PayloadType::VehicleAnnouncement, self.announcement()),
                    ),
                    Ok(PayloadModel::EntityStatusRequest) => Some(
                        reply(PayloadType::DoIPEntityStatusResponse, self.status()),
                    ),
                    Ok(_) => None,
                    Err(_) => Some(nack_reply(NackCode::UnknownPayloadType)),
                },
            }
        }
    }

    /// Whether the buffered bytes start with a header declaring a payload longer
    /// than reassembly can ever hold.
    pub open spec fn oversize(self) -> bool {
        &&& self.rx.len() >= Header::SIZE
        &&& Header::spec_decode(self.rx.take(Header::SIZE as int)) matches Ok((h, _))
        &&& h.payload_length > MAX_RX_PAYLOAD
    }

    /// The next step on the buffered bytes, and the entity afterwards. A frame
    /// handled without closing is removed from the buffer.
    pub open spec fn next_step(self) -> (TcpStepModel, EntityModel) {
        if !self.serving {
            (TcpStepModel::Done(TcpVerdict::Close), self)
        } else if self.oversize() {
            (
                TcpStepModel::Send { frame: nack_reply(NackCode::MessageTooLarge), verdict: TcpVerdict::Close },
                self,
            )
        } else {
            match spec_try_frame(self.rx) {
                Ok(None) => (TcpStepModel::Done(TcpVerdict::KeepOpen), self),
                Err(_) => (
                    TcpStepModel::Send {
                        frame: nack_reply(NackCode::IncorrectPatternFormat),
                        verdict: TcpVerdict::Close,
                    },
                    self,
                ),
                Ok(Some((f, n))) => {
                    let (step, active) = frame_outcome(self.logical_address, self.active_tester, f.header, f.payload);
                    let after = self.with_active(active);
                    if step.verdict() is KeepOpen {
                        (step, after.with_rx(self.rx.skip(n)))
                    } else {
                        (step, after)
                    }
                },
            }
        }
    }

    /// Receiving `data` on the TCP connection: the first step, and the entity
    /// afterwards. Bytes that would overflow reassembly are refused.
    pub open spec fn tcp_rx(self, data: Seq<u8>) -> (TcpStepModel, EntityModel) {
        if !self.serving {
            (TcpStepModel::Done(TcpVerdict::Close), self)
        } else if data.len() == 0 {
            (TcpStepModel::Done(TcpVerdict::KeepOpen), self)
        } else if self.rx.len() + data.len() > TCP_RX_CAP {
            (
                TcpStepModel::Send { frame: nack_reply(NackCode::OutOfMemory), verdict: TcpVerdict::Close },
                self,
            )
        } else {
            self.with_rx(self.rx + data).next_step()
        }
    }

    /// The frame answering a dispatched UDS request of `tester`, given what the
    /// dispatch returned: nothing for a non-positive length, otherwise a
    /// diagnostic message carrying at most [`UDS_RESP_CAP`] bytes of `response`.
    pub open spec fn uds_reply(self, tester: u16, written: i32, response: Seq<u8>) -> Option<Seq<u8>> {
        if written <= 0 {
            None
        } else {
            let len = if written > UDS_RESP_CAP {
                UDS_RESP_CAP as int
            } else {
                written as int
            };
            Some(
                reply(
                    PayloadType::DiagnosticMessage,
                    PayloadModel::DiagnosticMessage(
                        DiagnosticMessageModel {
                            source_address: LogicalAddress(self.logical_address),
                            target_address: LogicalAddress(tester),
                            user_data: response.take(len),
                        },
                    ),
                ),
            )
        }
    }
}

/// The DoIP entity: identity, session state and the reassembly buffer.
#[derive(Debug)]
pub struct Entity {
    vin: [u8; 17],
    eid: [u8; 6],
    gid: [u8; 6],
    logical_address: u16,
    serving: bool,
    active_tester: Option<u16>,
    rx: Vec<u8>,
}

impl View for Entity {
    type V = EntityModel;

    closed spec fn view(&self) -> EntityModel {
        EntityModel {
            vin: self.vin@,
            eid: self.eid@,
            gid: self.gid@,
            logical_address: self.logical_address,
            serving: self.serving,
            active_tester: self.active_tester,
            rx: self.rx@,
        }
    }
}

impl Entity {
    #[verifier::type_invariant]
    closed spec fn inv(self) -> bool {
        self@.is_valid()
    }
}

/// The wire bytes of a V2012 reply carrying `payload` under `payload_type`.
fn reply_bytes(payload_type: PayloadType, payload: Payload) -> (out: Vec<u8>)
    requires
        payload@.spec_encode().len() <= 0x1_0000,
    ensures
        out@ == reply(payload_type, payload@),
{
    let length = payload_len(&payload);
    let message = Message {
        header: Header::new(ProtocolVersion::V2012, payload_type, length),
        payload,
    };
    let mut out: Vec<u8> = Vec::new();
    let _ = message.encode(&mut out);
    out
}

/// The wire bytes of a generic header negative acknowledge.
fn nack_bytes(code: NackCode) -> (out: Vec<u8>)
    ensures
        out@ == nack_reply(code),
{
    reply_bytes(PayloadType::NegativeAcknowledge, Payload::DoIPNack(code))
}

/// The wire bytes of a diagnostic message acknowledgement from `own` to `tester`.
fn ack_bytes(own: u16, payload_type: PayloadType, tester: u16, code: DiagnosticAckCode) -> (out: Vec<u8>)
    ensures
        out@ == ack_reply(own, payload_type, tester, code),
{
    let empty: [u8; 0] = [];
    let ack = DiagnosticMessageAck {
        source_address: LogicalAddress(own),
        target_address: LogicalAddress(tester),
        ack_code: code,
        previous_message_data: &empty,
    };
    proof {
        assert(ack@.previous_message_data =~= Seq::<u8>::empty());
    }
    reply_bytes(payload_type, Payload::DiagnosticMessageAck(ack))
}

/// Whether a group ID is all zero, which means "not set".
fn gid_unset(gid: &[u8; 6]) -> (unset: bool)
    ensures
        unset == (gid@ == zero_gid()),
{
    let unset = gid[0] == 0 && gid[1] == 0 && gid[2] == 0 && gid[3] == 0 && gid[4] == 0 && gid[5]
        == 0;
    proof {
        if unset {
            assert(gid@ =~= zero_gid());
        } else {
            assert(exists|i: int| 0 <= i < 6 && gid@[i] != zero_gid()[i]);
        }
    }
    unset
}

/// The step for a diagnostic message, given the entity's address and the
/// registered tester.
fn diagnostic_step(own: u16, active_tester: Option<u16>, dm: &DiagnosticMessage) -> (step: TcpStep)
    ensures
        step@ == diagnostic_outcome(own, active_tester, dm@),
{
    match active_tester {
        None => TcpStep::Send {
            frame: ack_bytes(
                own,
                PayloadType::DiagnosticMessageNegativeAcknowledge,
                dm.source_address.0,
                DiagnosticAckCode::InvalidSourceAddress,
            ),
            verdict: TcpVerdict::Close,
        },
        Some(tester) => {
            if dm.source_address.0 != tester {
                TcpStep::Send {
                    frame: ack_bytes(
                        own,
                        PayloadType::DiagnosticMessageNegativeAcknowledge,
                        tester,
                        DiagnosticAckCode::InvalidSourceAddress,
                    ),
                    verdict: TcpVerdict::Close,
                }
            } else if dm.target_address.0 != own {
                TcpStep::Send {
                    frame: ack_bytes(
                        own,
                        PayloadType::DiagnosticMessageNegativeAcknowledge,
                        tester,
                        DiagnosticAckCode::UnknownTargetAddress,
                    ),
                    verdict: TcpVerdict::KeepOpen,
                }
            } else {
                TcpStep::Dispatch {
                    ack: ack_bytes(
                        own,
                        PayloadType::DiagnosticMessagePositiveAcknowledge,
                        tester,
                        DiagnosticAckCode::RoutingConfirmationAck,
                    ),
                    request: vstd::slice::slice_to_vec(dm.user_data),
                    tester,
                }
            }
        },
    }
}

/// The step for one framed message, and the registered tester afterwards.
fn frame_step(own: u16, active: Option<u16>, header: &Header, payload: &[u8]) -> (r: (TcpStep, Option<u16>))
    ensures
        (r.0@, r.1) == frame_outcome(own, active, *header, payload@),
{
    match Payload::decode(payload, header.payload_type) {
        Ok(Payload::RoutingActivationRequest(req)) => {
            let source = req.source_address;
            let (code, verdict) = if !source.is_valid_client_address() {
                (RoutingActivationResponseCode::DeniedUnknownSourceAddress, TcpVerdict::Close)
            } else if !matches!(
                req.activation_type,
                ActivationTypeCode::Default | ActivationTypeCode::RegulationRequired
            ) {
                (
                    RoutingActivationResponseCode::DeniedUnsupportedRoutingActivationType,
                    TcpVerdict::Close,
                )
            } else if match active {
                Some(a) => a != source.0,
                None => false,
            } {
                (RoutingActivationResponseCode::DeniedSourceAddressAlreadyActivated, TcpVerdict::Close)
            } else {
                (RoutingActivationResponseCode::RoutingSuccessfullyActivated, TcpVerdict::KeepOpen)
            };
            let new_active = if matches!(code, RoutingActivationResponseCode::RoutingSuccessfullyActivated) {
                Some(source.0)
            } else {
                active
            };
            let message = Message::routing_activation_response(
                ProtocolVersion::V2012,
                source,
                LogicalAddress(own),
                code,
                [0, 0, 0, 0],
                None,
            );
            let mut frame: Vec<u8> = Vec::new();
            let _ = message.encode(&mut frame);
            proof {
                assert(frame@ =~= activation_reply(own, req@, code));
            }
            (TcpStep::Send { frame, verdict }, new_active)
        },
        Ok(Payload::DiagnosticMessage(dm)) => (diagnostic_step(own, active, &dm), active),
        _ => (
            TcpStep::Send { frame: nack_bytes(NackCode::UnknownPayloadType), verdict: TcpVerdict::KeepOpen },
            active,
        ),
    }
}

impl Entity {
    /// An entity that does not serve yet; every input is ignored until
    /// [`Entity::init`].
    pub fn new() -> (entity: Entity)
        ensures
            entity@ == (EntityModel {
                vin: Seq::new(17, |i: int| 0u8),
                eid: zero_gid(),
                gid: zero_gid(),
                logical_address: 0,
                serving: false,
                active_tester: None,
                rx: Seq::empty(),
            }),
    {
        let entity = Entity {
            vin: [0u8; 17],
            eid: [0u8; 6],
            gid: [0u8; 6],
            logical_address: 0,
            serving: false,
            active_tester: None,
            rx: Vec::new(),
        };
        assert(entity@.vin =~= Seq::new(17, |i: int| 0u8));
        assert(entity@.eid =~= zero_gid());
        assert(entity@.gid =~= zero_gid());
        entity
    }

    /// Adopt an identity and start serving; any previous session is reset.
    pub fn init(&mut self, config: &EntityConfig)
        ensures
            final(self)@ == (EntityModel {
                vin: config.vin@,
                eid: config.eid@,
                gid: config.gid@,
                logical_address: config.logical_address,
                serving: true,
                active_tester: None,
                rx: Seq::empty(),
            }),
    {
        proof {
            use_type_invariant(&*self);
        }
        self.vin = config.vin;
        self.eid = config.eid;
        self.gid = config.gid;
        self.logical_address = config.logical_address;
        self.serving = true;
        self.on_tcp_disconnect();
    }

    /// Stop serving; every input is ignored until the next [`Entity::init`].
    pub fn deinit(&mut self)
        ensures
            final(self)@ == (EntityModel {
                serving: false,
                active_tester: None,
                rx: Seq::empty(),
                ..old(self)@
            }),
    {
        proof {
            use_type_invariant(&*self);
        }
        self.serving = false;
        self.on_tcp_disconnect();
    }

    /// The diagnostic TCP connection went away: the registered tester and the
    /// buffered bytes are dropped.
    pub fn on_tcp_disconnect(&mut self)
        ensures
            final(self)@ == old(self)@.with_active(None).with_rx(Seq::empty()),
            final(self)@.is_valid(),
    {
        proof {
            use_type_invariant(&*self);
        }
        self.active_tester = None;
        self.rx = Vec::new();
    }

    /// The reply to one UDP datagram, if any; the entity does not change.
    pub fn on_udp_rx(&self, data: &[u8]) -> (reply: Option<Vec<u8>>)
        ensures
            match reply {
                Some(bytes) => self@.udp_reply(data@) == Some(bytes@),
                None => self@.udp_reply(data@) is None,
            },
    {
        proof {
            use_type_invariant(self);
        }
        if !self.serving || data.len() == 0 {
            return None;
        }
        let frame = match try_frame(data) {
            Ok(Some((frame, _consumed))) => frame,
            // A datagram must carry one whole message; a short one gets no reply.
            Ok(None) => return None,
            Err(_) => return Some(nack_bytes(NackCode::IncorrectPatternFormat)),
        };
        match Payload::decode(frame.payload, frame.header.payload_type) {
            // All three identification request forms decode to this variant, so
            // an EID or VIN filter cannot be checked: each gets the announcement.
            Ok(Payload::VehicleIdentificationRequest) => Some(self.vehicle_announcement()),
            Ok(Payload::EntityStatusRequest) => Some(self.entity_status()),
            Ok(_) => None,
            Err(_) => Some(nack_bytes(NackCode::UnknownPayloadType)),
        }
    }

    /// Receive a chunk of the diagnostic TCP stream (any framing) and take the
    /// first step on the buffered bytes.
    pub fn on_tcp_rx(&mut self, data: &[u8]) -> (step: TcpStep)
        ensures
            (step@, final(self)@) == old(self)@.tcp_rx(data@),
            final(self)@.is_valid(),
    {
        proof {
            use_type_invariant(&*self);
            lemma_steps_keep_valid(self@, data@);
        }
        if !self.serving {
            return TcpStep::Done(TcpVerdict::Close);
        }
        if data.len() == 0 {
            return TcpStep::Done(TcpVerdict::KeepOpen);
        }
        if data.len() > TCP_RX_CAP - self.rx.len() {
            return TcpStep::Send { frame: nack_bytes(NackCode::OutOfMemory), verdict: TcpVerdict::Close };
        }
        let mut rx: Vec<u8> = Vec::new();
        std::mem::swap(&mut rx, &mut self.rx);
        rx.extend_from_slice(data);
        assert(rx@ =~= old(self)@.rx + data@);
        self.rx = rx;
        self.next_tcp_step()
    }

    /// Take the next step on the buffered bytes.
    pub fn next_tcp_step(&mut self) -> (step: TcpStep)
        ensures
            (step@, final(self)@) == old(self)@.next_step(),
            final(self)@.is_valid(),
    {
        proof {
            use_type_invariant(&*self);
            lemma_steps_keep_valid(self@, Seq::empty());
        }
        if !self.serving {
            return TcpStep::Done(TcpVerdict::Close);
        }
        // A frame longer than the reassembly buffer can never complete; reject it
        // up front instead of stalling until overflow.
        if self.rx.len() >= Header::SIZE {
            let oversize = match Header::decode(&self.rx.as_slice()[0..Header::SIZE]) {
                Ok((header, _)) => header.payload_length as usize > MAX_RX_PAYLOAD,
                Err(_) => false,
            };
            if oversize {
                return TcpStep::Send {
                    frame: nack_bytes(NackCode::MessageTooLarge),
                    verdict: TcpVerdict::Close,
                };
            }
        }
        let own = self.logical_address;
        let active = self.active_tester;
        let (step, new_active, consumed) = match try_frame(self.rx.as_slice()) {
            Ok(None) => return TcpStep::Done(TcpVerdict::KeepOpen),
            Err(_) => return TcpStep::Send {
                frame: nack_bytes(NackCode::IncorrectPatternFormat),
                verdict: TcpVerdict::Close,
            },
            Ok(Some((frame, consumed))) => {
                let (step, new_active) = frame_step(own, active, &frame.header, frame.payload);
                (step, new_active, consumed)
            },
        };
        self.active_tester = new_active;
        let keep_open = match &step {
            TcpStep::Done(verdict) | TcpStep::Send { verdict, .. } => matches!(verdict, TcpVerdict::KeepOpen),
            TcpStep::Dispatch { .. } => true,
        };
        if keep_open {
            let mut rx: Vec<u8> = Vec::new();
            std::mem::swap(&mut rx, &mut self.rx);
            self.rx = rx.split_off(consumed);
        }
        step
    }

    /// The frame answering a dispatched UDS request of `tester`, given the
    /// length the dispatch returned and the buffer it wrote its response to.
    pub fn uds_response(&self, tester: u16, written: i32, response: &[u8]) -> (frame: Option<Vec<u8>>)
        requires
            response@.len() == UDS_RESP_CAP,
        ensures
            match frame {
                Some(bytes) => self@.uds_reply(tester, written, response@) == Some(bytes@),
                None => self@.uds_reply(tester, written, response@) is None,
            },
    {
        if written <= 0 {
            return None;
        }
        let len: usize = if written as usize > UDS_RESP_CAP {
            UDS_RESP_CAP
        } else {
            written as usize
        };
        let message = Message::diagnostic_message(
            ProtocolVersion::V2012,
            LogicalAddress(self.logical_address),
            LogicalAddress(tester),
            &response[0..len],
        );
        let mut out: Vec<u8> = Vec::new();
        let _ = message.encode(&mut out);
        Some(out)
    }

    /// The vehicle announcement frame.
    fn vehicle_announcement(&self) -> (out: Vec<u8>)
        ensures
            out@ == reply(PayloadType::VehicleAnnouncement, self@.announcement()),
    {
        let group_id = if gid_unset(&self.gid) {
            None
        } else {
            Some(self.gid)
        };
        let response = VehicleIdentificationResponse {
            vin: self.vin,
            logical_address: LogicalAddress(self.logical_address),
            entity_id: self.eid,
            group_id,
            further_action: FurtherActionRequired::NoFurtherActionRequired,
            vin_gid_sync_status: VinGidSyncStatus::Synchronized,
        };
        reply_bytes(PayloadType::VehicleAnnouncement, Payload::VehicleAnnouncement(response))
    }

    /// The entity status frame.
    fn entity_status(&self) -> (out: Vec<u8>)
        ensures
            out@ == reply(PayloadType::DoIPEntityStatusResponse, self@.status()),
    {
        let response = EntityStatusResponse {
            node_type: EntityStatusNodeType::DoIPNode,
            max_concurrent_tcp_sockets: 1,
            open_tcp_sockets: if self.active_tester.is_some() {
                1
            } else {
                0
            },
            max_data_size: MAX_RX_PAYLOAD as u32,
        };
        reply_bytes(PayloadType::DoIPEntityStatusResponse, Payload::EntityStatusResponse(response))
    }
}

impl Default for Entity {
    fn default() -> (entity: Entity)
        ensures
            entity@ == (EntityModel {
                vin: Seq::new(17, |i: int| 0u8),
                eid: zero_gid(),
                gid: zero_gid(),
                logical_address: 0,
                serving: false,
                active_tester: None,
                rx: Seq::empty(),
            }),
    {
        Entity::new()
    }
}

/// Every step keeps the entity valid: the buffer within the reassembly capacity
/// and the registered tester, if any, a tester address.
pub proof fn lemma_steps_keep_valid(st: EntityModel, data: Seq<u8>)
    requires
        st.is_valid(),
    ensures
        st.next_step().1.is_valid(),
        st.tcp_rx(data).1.is_valid(),
{
    if st.serving && st.rx.len() + data.len() <= TCP_RX_CAP && data.len() > 0 {
        let grown = st.with_rx(st.rx + data);
        assert(grown.is_valid());
    }
}

/// One tester at a time: while a tester holds routing activation, no step
/// replaces or drops it; only a disconnect (or `init`/`deinit`) does.
pub proof fn lemma_one_tester_at_a_time(st: EntityModel, data: Seq<u8>, tester: u16)
    requires
        st.active_tester == Some(tester),
    ensures
        st.next_step().1.active_tester == Some(tester),
        st.tcp_rx(data).1.active_tester == Some(tester),
{
}

/// A UDS request is dispatched only for a diagnostic message from the tester
/// that holds routing activation, which keeps holding it.
pub proof fn lemma_dispatch_only_for_active_tester(st: EntityModel, data: Seq<u8>)
    ensures
        st.next_step().0 matches TcpStepModel::Dispatch { tester, .. } ==> st.active_tester == Some(tester)
            && st.next_step().1.active_tester == Some(tester),
        st.tcp_rx(data).0 matches TcpStepModel::Dispatch { tester, .. } ==> st.active_tester == Some(tester)
            && st.tcp_rx(data).1.active_tester == Some(tester),
{
}

/// A frame may arrive split across two chunks: the first chunk is buffered
/// without any reply, and the second then gets exactly the step the whole frame
/// would have got in one chunk.
pub proof fn lemma_split_frame_reassembles(st: EntityModel, a: Seq<u8>, b: Seq<u8>)
    requires
        st.serving,
        st.rx.len() == 0,
        a.len() > 0,
        b.len() > 0,
        a.len() + b.len() <= TCP_RX_CAP,
        spec_try_frame(a + b) matches Ok(Some((_, n))) && n == a.len() + b.len(),
    ensures
        st.tcp_rx(a) == (TcpStepModel::Done(TcpVerdict::KeepOpen), st.with_rx(a)),
        st.with_rx(a).tcp_rx(b) == st.tcp_rx(a + b),
{
    let whole = a + b;
    assert(st.rx + a =~= a);
    assert(st.rx + whole =~= whole);
    assert(st.with_rx(a).with_rx(a + b) == st.with_rx(whole));
    if a.len() >= Header::SIZE {
        assert(a.take(Header::SIZE as int) =~= whole.take(Header::SIZE as int));
    }
}

/// Every form of vehicle identification request that frames is answered with
/// the vehicle announcement.
pub proof fn lemma_identification_request_gets_announcement(st: EntityModel, s: Seq<u8>)
    requires
        st.serving,
        spec_try_frame(s) matches Ok(Some((f, _))) && (f.header.payload_type is VehicleIdentificationRequest
            || f.header.payload_type is VehicleIdentificationRequestWithEID
            || f.header.payload_type is VehicleIdentificationRequestWithVIN),
    ensures
        st.udp_reply(s) == Some(reply(PayloadType::VehicleAnnouncement, st.announcement())),
{
}

/// The announcement decodes, for a tester, to the entity's identity: its VIN,
/// entity ID and logical address, and its group ID unless that is all zero
/// (absent). A group ID of all `0xFF` is left out: on the wire it reads as
/// absent too.
pub proof fn lemma_announcement_decodes(st: EntityModel)
    requires
        st.is_valid(),
        st.gid != Seq::new(6, |i: int| 0xFFu8),
    ensures
        MessageModel::spec_decode(reply(PayloadType::VehicleAnnouncement, st.announcement()))
            == Ok::<_, crate::messages::MessageError>((
            MessageModel {
                header: Header::spec_new(ProtocolVersion::V2012, PayloadType::VehicleAnnouncement, 33),
                payload: st.announcement(),
            },
            Seq::<u8>::empty(),
        )),
{
    let m = MessageModel {
        header: Header::spec_new(
            ProtocolVersion::V2012,
            PayloadType::VehicleAnnouncement,
            st.announcement().spec_encode().len() as u32,
        ),
        payload: st.announcement(),
    };
    assert(m.is_wire_valid());
    crate::messages::lemma_message_roundtrip(m);
}

/// What a diagnostic message earns, by who sent it and to whom: only a message
/// from the tester holding routing activation, addressed to this entity, is
/// dispatched, after a positive acknowledgement to that tester, carrying its user
/// data. A message from any other source (or with no tester active) is never
/// dispatched: it gets a negative acknowledgement with `InvalidSourceAddress`,
/// sent to the active tester (or to the sender when there is none), and the
/// connection is closed. A message from the active tester to another target
/// gets a negative acknowledgement with `UnknownTargetAddress` and the
/// connection stays open.
pub proof fn lemma_diagnostic_message_outcome(own: u16, active: Option<u16>, dm: DiagnosticMessageModel)
    ensures
        (diagnostic_outcome(own, active, dm) is Dispatch) == (active == Some(dm.source_address.0)
            && dm.target_address.0 == own),
        active != Some(dm.source_address.0) ==> diagnostic_outcome(own, active, dm) == (TcpStepModel::Send {
            frame: ack_reply(
                own,
                PayloadType::DiagnosticMessageNegativeAcknowledge,
                match active {
                    Some(t) => t,
                    None => dm.source_address.0,
                },
                DiagnosticAckCode::InvalidSourceAddress,
            ),
            verdict: TcpVerdict::Close,
        }),
        active == Some(dm.source_address.0) && dm.target_address.0 != own ==> diagnostic_outcome(own, active, dm)
            == (TcpStepModel::Send {
            frame: ack_reply(
                own,
                PayloadType::DiagnosticMessageNegativeAcknowledge,
                dm.source_address.0,
                DiagnosticAckCode::UnknownTargetAddress,
            ),
            verdict: TcpVerdict::KeepOpen,
        }),
        active == Some(dm.source_address.0) && dm.target_address.0 == own ==> diagnostic_outcome(own, active, dm)
            == (TcpStepModel::Dispatch {
            ack: ack_reply(
                own,
                PayloadType::DiagnosticMessagePositiveAcknowledge,
                dm.source_address.0,
                DiagnosticAckCode::RoutingConfirmationAck,
            ),
            request: dm.user_data,
            tester: dm.source_address.0,
        }),
{
}

/// How a routing activation request is answered: a source outside the tester
/// range is denied with `DeniedUnknownSourceAddress`; an activation type other
/// than default or WWH-OBD (regulation required) with
/// `DeniedUnsupportedRoutingActivationType`; a tester other than the one already
/// active with `DeniedSourceAddressAlreadyActivated`, each closing the
/// connection. Any other request (a tester address, a default or WWH-OBD
/// activation, and no other tester active) is answered
/// `RoutingSuccessfullyActivated` and the connection stays open.
pub proof fn lemma_routing_activation_answer(active: Option<u16>, req: RoutingActivationRequestModel)
    ensures
        !req.source_address.spec_is_valid_client_address() ==> activation_outcome(active, req)
            == (RoutingActivationResponseCode::DeniedUnknownSourceAddress, TcpVerdict::Close),
        req.source_address.spec_is_valid_client_address() && !(req.activation_type
            == ActivationTypeCode::Default || req.activation_type == ActivationTypeCode::RegulationRequired)
            ==> activation_outcome(active, req) == (
            RoutingActivationResponseCode::DeniedUnsupportedRoutingActivationType,
            TcpVerdict::Close,
        ),
        req.source_address.spec_is_valid_client_address() && (req.activation_type
            == ActivationTypeCode::Default || req.activation_type == ActivationTypeCode::RegulationRequired)
            && (active is Some && active->0 != req.source_address.0) ==> activation_outcome(active, req) == (
            RoutingActivationResponseCode::DeniedSourceAddressAlreadyActivated,
            TcpVerdict::Close,
        ),
        req.source_address.spec_is_valid_client_address() && (req.activation_type
            == ActivationTypeCode::Default || req.activation_type == ActivationTypeCode::RegulationRequired)
            && (active is None || active == Some(req.source_address.0)) ==> activation_outcome(active, req) == (
            RoutingActivationResponseCode::RoutingSuccessfullyActivated,
            TcpVerdict::KeepOpen,
        ),
{
}

/// A framed routing activation request is answered with a routing activation
/// response to its source carrying the answer's code, and registers its source
/// as the active tester exactly when the activation succeeds; otherwise the
/// active tester is unchanged.
pub proof fn lemma_routing_activation_registers(own: u16, active: Option<u16>, header: Header, payload: Seq<u8>, req: RoutingActivationRequestModel)
    requires
        PayloadModel::spec_decode(payload, header.payload_type) == Ok::<_, crate::messages::MessageError>(
            PayloadModel::RoutingActivationRequest(req),
        ),
    ensures
        ({
            let (code, verdict) = activation_outcome(active, req);
            &&& frame_outcome(own, active, header, payload).0 == (TcpStepModel::Send {
                frame: activation_reply(own, req, code),
                verdict,
            })
            &&& frame_outcome(own, active, header, payload).1 == if code
                == RoutingActivationResponseCode::RoutingSuccessfullyActivated {
                Some(req.source_address.0)
            } else {
                active
            }
        }),
{
}

/// A framed diagnostic message gets the step its addresses earn, and never
/// changes which tester is active.
pub proof fn lemma_diagnostic_message_frame(own: u16, active: Option<u16>, header: Header, payload: Seq<u8>, dm: DiagnosticMessageModel)
    requires
        PayloadModel::spec_decode(payload, header.payload_type) == Ok::<_, crate::messages::MessageError>(
            PayloadModel::DiagnosticMessage(dm),
        ),
    ensures
        frame_outcome(own, active, header, payload) == (diagnostic_outcome(own, active, dm), active),
{
}

/// How received TCP bytes are refused before any frame is read: nothing is done
/// and the connection is closed when the entity does not serve; no bytes is a
/// no-op; bytes that would overflow the reassembly buffer get a generic negative
/// acknowledgement `OutOfMemory` and the connection is closed.
pub proof fn lemma_tcp_rx_refusals(st: EntityModel, data: Seq<u8>)
    ensures
        !st.serving ==> st.tcp_rx(data) == (TcpStepModel::Done(TcpVerdict::Close), st),
        st.serving && data.len() == 0 ==> st.tcp_rx(data) == (TcpStepModel::Done(TcpVerdict::KeepOpen), st),
        st.serving && data.len() > 0 && st.rx.len() + data.len() > TCP_RX_CAP ==> st.tcp_rx(data) == (
            TcpStepModel::Send { frame: nack_reply(NackCode::OutOfMemory), verdict: TcpVerdict::Close },
            st,
        ),
{
}

/// How buffered bytes that cannot be served are answered: a header declaring a
/// payload longer than reassembly can hold gets `MessageTooLarge` and a close; a
/// malformed header gets `IncorrectPatternFormat` and a close; an incomplete
/// frame waits; a complete frame of a payload type not served on the data
/// connection (or whose body does not decode) gets `UnknownPayloadType`, is
/// dropped, and the connection stays open.
pub proof fn lemma_unserved_frames(st: EntityModel)
    requires
        st.serving,
    ensures
        st.oversize() ==> st.next_step() == (
            TcpStepModel::Send { frame: nack_reply(NackCode::MessageTooLarge), verdict: TcpVerdict::Close },
            st,
        ),
        !st.oversize() && spec_try_frame(st.rx) is Err ==> st.next_step() == (
            TcpStepModel::Send { frame: nack_reply(NackCode::IncorrectPatternFormat), verdict: TcpVerdict::Close },
            st,
        ),
        spec_try_frame(st.rx) matches Ok(None) ==> (!st.oversize() ==> st.next_step() == (
            TcpStepModel::Done(TcpVerdict::KeepOpen),
            st,
        )),
        spec_try_frame(st.rx) matches Ok(Some((f, n))) ==> (!st.oversize() ==> {
            let body = PayloadModel::spec_decode(f.payload, f.header.payload_type);
            (body is Err || !(body->Ok_0 is RoutingActivationRequest || body->Ok_0 is DiagnosticMessage))
                ==> st.next_step() == (
                TcpStepModel::Send { frame: nack_reply(NackCode::UnknownPayloadType), verdict: TcpVerdict::KeepOpen },
                st.with_rx(st.rx.skip(n)),
            )
        }),
{
}

/// The answer to a dispatched UDS request: nothing when the dispatch returned no
/// bytes (a length of zero or less); otherwise a diagnostic message from this
/// entity to the tester carrying the first bytes of the response, as many as the
/// dispatch wrote but at most the response capacity.
pub proof fn lemma_uds_reply(st: EntityModel, tester: u16, written: i32, response: Seq<u8>)
    ensures
        written <= 0 ==> st.uds_reply(tester, written, response) is None,
        written > 0 ==> st.uds_reply(tester, written, response) == Some(
            reply(
                PayloadType::DiagnosticMessage,
                PayloadModel::DiagnosticMessage(
                    DiagnosticMessageModel {
                        source_address: LogicalAddress(st.logical_address),
                        target_address: LogicalAddress(tester),
                        user_data: response.take(if written <= 1024 { written as int } else { 1024 }),
                    },
                ),
            ),
        ),
{
}

/// How UDP datagrams are answered: never when the entity does not serve or the
/// datagram is empty or incomplete; a malformed header gets the generic negative
/// acknowledgement `IncorrectPatternFormat`, a body that does not decode gets
/// `UnknownPayloadType`; an entity status request gets the entity status; every
/// other decoded message but an identification request gets no answer.
pub proof fn lemma_udp_replies(st: EntityModel, s: Seq<u8>)
    ensures
        !st.serving || s.len() == 0 ==> st.udp_reply(s) is None,
        st.serving && s.len() > 0 && spec_try_frame(s) is Err ==> st.udp_reply(s) == Some(
            nack_reply(NackCode::IncorrectPatternFormat),
        ),
        spec_try_frame(s) matches Ok(None) ==> st.udp_reply(s) is None,
        spec_try_frame(s) matches Ok(Some((f, _))) ==> (st.serving && s.len() > 0 ==> {
            let body = PayloadModel::spec_decode(f.payload, f.header.payload_type);
            &&& body is Err ==> st.udp_reply(s) == Some(nack_reply(NackCode::UnknownPayloadType))
            &&& body matches Ok(p) ==> st.udp_reply(s) == if p is EntityStatusRequest {
                Some(reply(PayloadType::DoIPEntityStatusResponse, st.status()))
            } else if p is VehicleIdentificationRequest {
                Some(reply(PayloadType::VehicleAnnouncement, st.announcement()))
            } else {
                None
            }
        }),
{
}

/// The entity status an entity reports: a DoIP node with one TCP socket, open
/// exactly while a tester holds routing activation, and a maximum data size of
/// the reassembly capacity less a header (2040 bytes).
pub proof fn lemma_status_reports(st: EntityModel)
    ensures
        st.status() == PayloadModel::EntityStatusResponse(
            EntityStatusResponse {
                node_type: EntityStatusNodeType::DoIPNode,
                max_concurrent_tcp_sockets: 1,
                open_tcp_sockets: if st.active_tester is Some { 1 } else { 0 },
                max_data_size: 2040,
            },
        ),
        MAX_RX_PAYLOAD == TCP_RX_CAP - Header::SIZE,
        TCP_RX_CAP == 2048,
        UDS_RESP_CAP == 1024,
{
}

} // verus!

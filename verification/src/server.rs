//! Entity-side decisions of the async server: what a tester's request calls
//! for, which UDP datagrams are identification probes this entity answers, the
//! identity it answers with, and the bytes of that answer.
use vstd::prelude::*;

use crate::messages::{
    FurtherActionRequired, Header, Message, MessageError, MessageModel, OwnedMessage, OwnedPayload,
    PayloadModel, PayloadType, ProtocolVersion, VehicleIdentificationResponse,
    VehicleIdentificationResponseModel, VinGidSyncStatus,
};
use crate::LogicalAddress;

verus! {

/// What the server does with one request from a tester.
#[derive(Clone, Copy, Debug, PartialEq, Eq, Structural)]
pub enum RequestAction {
    /// Answer with the handler's alive check response.
    AliveCheck,
    /// Hand the diagnostic message to the handler, which writes its responses.
    Diagnostic,
    /// Answer with the handler's routing activation response.
    RoutingActivation,
    /// A request this server does not serve yet (entity status, vehicle
    /// identification over TCP): ignore it.
    NotSupported,
    /// A message a tester must not send: fail with its payload type.
    Unexpected(PayloadType),
}

/// The action a request with payload `p` of type `t` calls for.
pub open spec fn spec_request_action(p: PayloadModel, t: PayloadType) -> RequestAction {
    match p {
        PayloadModel::AliveCheckRequest => RequestAction::AliveCheck,
        PayloadModel::DiagnosticMessage(_) => RequestAction::Diagnostic,
        PayloadModel::RoutingActivationRequest(_) => RequestAction::RoutingActivation,
        PayloadModel::EntityStatusRequest | PayloadModel::VehicleIdentificationRequest => RequestAction::NotSupported,
        _ => RequestAction::Unexpected(t),
    }
}

/// Decide what a tester's request calls for.
pub fn request_action(request: &OwnedMessage) -> (action: RequestAction)
    ensures
        action == spec_request_action(request@.payload, request@.header.payload_type),
{
    match &request.payload {
        OwnedPayload::AliveCheckRequest => RequestAction::AliveCheck,
        OwnedPayload::DiagnosticMessage(_) => RequestAction::Diagnostic,
        OwnedPayload::RoutingActivationRequest(_) => RequestAction::RoutingActivation,
        OwnedPayload::EntityStatusRequest | OwnedPayload::VehicleIdentificationRequest => RequestAction::NotSupported,
        _ => RequestAction::Unexpected(request.header.payload_type),
    }
}

/// What the UDP responder does with one datagram.
#[derive(Clone, Copy, Debug, PartialEq, Eq)]
pub enum ProbeVerdict {
    /// The datagram does not decode: ignore it.
    Undecodable(MessageError),
    /// Not a vehicle identification request: ignore it.
    NotIdentification(PayloadType),
    /// An identification request directed by EID or VIN, which cannot be matched
    /// because decoding does not keep the EID or VIN: stay silent.
    Directed(PayloadType),
    /// A plain identification request: answer with the entity's identity.
    Answer,
}

/// The verdict on datagram `s`.
pub open spec fn spec_probe_verdict(s: Seq<u8>) -> ProbeVerdict {
    match MessageModel::spec_decode(s) {
        Err(e) => ProbeVerdict::Undecodable(e),
        Ok((m, _)) => if !(m.payload is VehicleIdentificationRequest) {
            ProbeVerdict::NotIdentification(m.header.payload_type)
        } else if m.header.payload_type != PayloadType::VehicleIdentificationRequest {
            ProbeVerdict::Directed(m.header.payload_type)
        } else {
            ProbeVerdict::Answer
        },
    }
}

/// Judge one UDP datagram.
pub fn probe_verdict(datagram: &[u8]) -> (verdict: ProbeVerdict)
    ensures
        verdict == spec_probe_verdict(datagram@),
{
    let message = match Message::decode(datagram) {
        Ok((message, _rest)) => message,
        Err(e) => return ProbeVerdict::Undecodable(e),
    };
    if !matches!(message.payload, crate::messages::Payload::VehicleIdentificationRequest) {
        return ProbeVerdict::NotIdentification(message.header.payload_type);
    }
    if message.header.payload_type != PayloadType::VehicleIdentificationRequest {
        return ProbeVerdict::Directed(message.header.payload_type);
    }
    ProbeVerdict::Answer
}

/// The identification response an entity with this identity answers with: no
/// further action required, VIN and GID synchronized.
pub open spec fn spec_identity(
    vin: Seq<u8>,
    logical_address: LogicalAddress,
    entity_id: Seq<u8>,
    group_id: Option<Seq<u8>>,
) -> VehicleIdentificationResponseModel {
    VehicleIdentificationResponseModel {
        vin,
        logical_address,
        entity_id,
        group_id,
        further_action: FurtherActionRequired::NoFurtherActionRequired,
        vin_gid_sync_status: VinGidSyncStatus::Synchronized,
    }
}

/// Build the identification response of an entity with this identity.
pub fn identity_response(
    vin: [u8; 17],
    logical_address: LogicalAddress,
    entity_id: [u8; 6],
    group_id: Option<[u8; 6]>,
) -> (response: VehicleIdentificationResponse)
    ensures
        response@ == spec_identity(
            vin@,
            logical_address,
            entity_id@,
            match group_id {
                Some(g) => Some(g@),
                None => None,
            },
        ),
{
    VehicleIdentificationResponse {
        vin,
        logical_address,
        entity_id,
        group_id,
        further_action: FurtherActionRequired::NoFurtherActionRequired,
        vin_gid_sync_status: VinGidSyncStatus::Synchronized,
    }
}

/// Whether two byte strings are equal.
fn same_bytes(a: &[u8], b: &[u8]) -> (same: bool)
    ensures
        same == (a@ == b@),
{
    if a.len() != b.len() {
        return false;
    }
    let mut i: usize = 0;
    while i < a.len()
        invariant
            a@.len() == b@.len(),
            0 <= i <= a@.len(),
            forall|j: int| 0 <= j < i ==> a@[j] == b@[j],
        decreases a@.len() - i,
    {
        if a[i] != b[i] {
            return false;
        }
        i = i + 1;
    }
    assert(a@ =~= b@);
    true
}

/// Answer an identification request directed at entity ID `requested`: the
/// response when it names this entity's ID `own`, nothing when it names another.
pub fn answer_for_eid(own: &[u8; 6], requested: &[u8; 6], response: VehicleIdentificationResponse) -> (answer: Option<VehicleIdentificationResponse>)
    ensures
        answer == if own@ == requested@ {
            Some(response)
        } else {
            None
        },
{
    if same_bytes(own, requested) {
        Some(response)
    } else {
        None
    }
}

/// Answer an identification request directed at VIN `requested`: the response
/// when it names this entity's VIN `own`, nothing when it names another.
pub fn answer_for_vin(own: &[u8; 17], requested: &[u8; 17], response: VehicleIdentificationResponse) -> (answer: Option<VehicleIdentificationResponse>)
    ensures
        answer == if own@ == requested@ {
            Some(response)
        } else {
            None
        },
{
    if same_bytes(own, requested) {
        Some(response)
    } else {
        None
    }
}

/// The bytes of the reply to a vehicle identification request: the response
/// under the vehicle announcement payload type, as one datagram.
pub fn identification_reply(protocol_version: ProtocolVersion, response: VehicleIdentificationResponse) -> (datagram: Vec<u8>)
    ensures
        datagram@ == (MessageModel {
            header: Header::spec_new(protocol_version, PayloadType::VehicleAnnouncement, 33),
            payload: PayloadModel::VehicleIdentificationResponse(response@),
        }).spec_encode(),
        datagram@.len() == 41,
{
    let reply = OwnedMessage::vehicle_identification_response(protocol_version, response);
    let mut datagram: Vec<u8> = Vec::new();
    let _ = reply.encode(&mut datagram);
    datagram
}

/// Each request a tester may send maps to its own action: an alive check
/// request to answering the alive check, a diagnostic message to the diagnostic
/// handler, a routing activation request to answering the routing activation,
/// an entity status or vehicle identification request to being ignored as not
/// yet served; every other payload is unexpected and fails with the request's
/// payload type.
pub proof fn lemma_request_actions(p: PayloadModel, t: PayloadType)
    ensures
        (spec_request_action(p, t) == RequestAction::AliveCheck) == (p is AliveCheckRequest),
        (spec_request_action(p, t) == RequestAction::Diagnostic) == (p is DiagnosticMessage),
        (spec_request_action(p, t) == RequestAction::RoutingActivation) == (p is RoutingActivationRequest),
        (spec_request_action(p, t) == RequestAction::NotSupported) == (p is EntityStatusRequest
            || p is VehicleIdentificationRequest),
        (spec_request_action(p, t) == RequestAction::Unexpected(t)) == !(p is AliveCheckRequest
            || p is DiagnosticMessage || p is RoutingActivationRequest || p is EntityStatusRequest
            || p is VehicleIdentificationRequest),
        spec_request_action(p, t) is Unexpected ==> spec_request_action(p, t) == RequestAction::Unexpected(t),
{
}

/// A datagram is answered exactly when it decodes to a plain vehicle
/// identification request (payload type 0x0001); one directed by entity ID or
/// VIN is left unanswered as directed, any other decoded message is not an
/// identification, and bytes that do not decode are reported with their error.
pub proof fn lemma_probe_verdicts(s: Seq<u8>)
    ensures
        (spec_probe_verdict(s) == ProbeVerdict::Answer) == (MessageModel::spec_decode(s) matches Ok((m, _))
            && m.header.payload_type == PayloadType::VehicleIdentificationRequest
            && m.payload is VehicleIdentificationRequest),
        MessageModel::spec_decode(s) matches Err(e) ==> spec_probe_verdict(s) == ProbeVerdict::Undecodable(e),
        MessageModel::spec_decode(s) matches Ok((m, _)) ==> (!(m.payload is VehicleIdentificationRequest)
            ==> spec_probe_verdict(s) == ProbeVerdict::NotIdentification(m.header.payload_type)),
        MessageModel::spec_decode(s) matches Ok((m, _)) ==> (m.payload is VehicleIdentificationRequest
            && m.header.payload_type != PayloadType::VehicleIdentificationRequest
            ==> spec_probe_verdict(s) == ProbeVerdict::Directed(m.header.payload_type)),
{
}

/// An entity answers identification with its own identity: the VIN, address,
/// entity ID and group ID it was given, no further action required, and VIN and
/// GID synchronised.
pub proof fn lemma_identity_is_own(
    vin: Seq<u8>,
    logical_address: LogicalAddress,
    entity_id: Seq<u8>,
    group_id: Option<Seq<u8>>,
)
    ensures
        spec_identity(vin, logical_address, entity_id, group_id).vin == vin,
        spec_identity(vin, logical_address, entity_id, group_id).logical_address == logical_address,
        spec_identity(vin, logical_address, entity_id, group_id).entity_id == entity_id,
        spec_identity(vin, logical_address, entity_id, group_id).group_id == group_id,
        spec_identity(vin, logical_address, entity_id, group_id).further_action
            == FurtherActionRequired::NoFurtherActionRequired,
        spec_identity(vin, logical_address, entity_id, group_id).vin_gid_sync_status
            == VinGidSyncStatus::Synchronized,
{
}

} // verus!

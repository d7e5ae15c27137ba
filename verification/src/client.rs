//! Tester-side choices: routing activation options, target address selection,
//! and what a routing activation response means for the connection.
use vstd::prelude::*;

use crate::messages::{
    ActivationTypeCode, MessageModel, OwnedMessage, OwnedPayload, PayloadModel, PayloadType,
    RoutingActivationResponseCode,
};
use crate::LogicalAddress;

verus! {

/// Which routing activation request a tester sends.
#[derive(Clone, Copy, Debug, PartialEq, Eq)]
pub struct RoutingActivationOptions {
    /// Activation type code.
    pub activation_type: ActivationTypeCode,
    /// OEM-specific data.
    pub oem_specific: Option<[u8; 4]>,
}

/// Which of the two configured target addresses a diagnostic message goes to.
#[derive(Clone, Copy, Debug, PartialEq, Eq, Structural)]
pub enum AddressType {
    /// The server's logical address.
    Logical,
    /// The server's physical address (a single ECU, `0x0001`-`0x0DFF`).
    Physical,
}

impl AddressType {
    /// The address this choice selects.
    pub open spec fn spec_select(self, logical: LogicalAddress, physical: LogicalAddress) -> LogicalAddress {
        match self {
            AddressType::Logical => logical,
            AddressType::Physical => physical,
        }
    }

    /// Pick the target address among the configured logical and physical ones.
    pub fn select(self, logical: LogicalAddress, physical: LogicalAddress) -> (target: LogicalAddress)
        ensures
            target == self.spec_select(logical, physical),
    {
        match self {
            AddressType::Logical => logical,
            AddressType::Physical => physical,
        }
    }
}

/// How a routing activation exchange ended.
#[derive(Clone, Copy, Debug, PartialEq, Eq, Structural)]
pub enum ActivationOutcome {
    /// Routing is active (with or without a confirmation still required).
    Activated,
    /// The entity denied activation, or answered with a reserved code.
    Denied(RoutingActivationResponseCode),
    /// The answer was not a routing activation response at all.
    Unexpected(PayloadType),
}

/// The outcome of a routing activation answered by `m`: only the two success
/// codes let the connection proceed.
pub open spec fn spec_activation_outcome(m: MessageModel) -> ActivationOutcome {
    match m.payload {
        PayloadModel::RoutingActivationResponse(r) => match r.routing_activation_response_code {
            RoutingActivationResponseCode::RoutingSuccessfullyActivated
            | RoutingActivationResponseCode::RoutingSuccessfullyActivatedConfirmationRequired => ActivationOutcome::Activated,
            denied => ActivationOutcome::Denied(denied),
        },
        _ => ActivationOutcome::Unexpected(m.header.payload_type),
    }
}

/// Judge the answer to a routing activation request.
pub fn activation_outcome(response: &OwnedMessage) -> (outcome: ActivationOutcome)
    ensures
        outcome == spec_activation_outcome(response@),
{
    match &response.payload {
        OwnedPayload::RoutingActivationResponse(r) => match r.routing_activation_response_code {
            RoutingActivationResponseCode::RoutingSuccessfullyActivated
            | RoutingActivationResponseCode::RoutingSuccessfullyActivatedConfirmationRequired => ActivationOutcome::Activated,
            denied => ActivationOutcome::Denied(denied),
        },
        _ => ActivationOutcome::Unexpected(response.header.payload_type),
    }
}

/// A routing activation answered by a routing activation response lets the
/// connection proceed exactly when the response code's wire byte is 0x10
/// (activated) or 0x11 (activated, confirmation required); any other code is a
/// denial carrying that code, and an answer of any other payload type is
/// unexpected, carrying its payload type.
pub proof fn lemma_activation_outcome_by_code_byte(m: MessageModel)
    ensures
        m.payload matches PayloadModel::RoutingActivationResponse(r) ==> {
            let code = r.routing_activation_response_code;
            &&& code.is_canonical() ==> ((spec_activation_outcome(m) == ActivationOutcome::Activated)
                == (code.spec_to_u8() == 0x10 || code.spec_to_u8() == 0x11))
            &&& spec_activation_outcome(m) != ActivationOutcome::Activated
                ==> spec_activation_outcome(m) == ActivationOutcome::Denied(code)
        },
        !(m.payload is RoutingActivationResponse) ==> spec_activation_outcome(m)
            == ActivationOutcome::Unexpected(m.header.payload_type),
{
}

} // verus!

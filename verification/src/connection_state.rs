//! The states of a DoIP TCP connection and which messages each admits.
use vstd::prelude::*;

use crate::messages::PayloadType;

verus! {

/// The DoIP connection state machine.
#[derive(Clone, Copy, Debug, PartialEq, Eq, Structural)]
pub enum ConnectionState {
    /// The socket is not connected.
    Listen,
    /// The socket is connected and waiting for routing activation.
    Initialized,
    /// Routing activation succeeded; authentication is pending.
    RegisteredPendingAuthentication,
    /// Routing activation succeeded and authentication is done (or not needed);
    /// confirmation is pending.
    RegisteredPendingConfirmation,
    /// Routing is active.
    RegisteredRoutingActive,
    /// The socket is to be closed and its resources freed.
    Finalize,
}

impl ConnectionState {
    /// Whether every DoIP message may be exchanged.
    pub open spec fn spec_allows_all_messages(self) -> bool {
        self is RegisteredRoutingActive
    }

    /// Whether alive check messages may be exchanged: in any registered state.
    pub open spec fn spec_allows_alive_check(self) -> bool {
        self is RegisteredPendingAuthentication || self is RegisteredPendingConfirmation
            || self is RegisteredRoutingActive
    }

    /// Whether a message of `payload_type` is permitted in this state: none while
    /// listening or finalizing, all once routing is active, and before that only
    /// routing activation messages, and alive checks once registered.
    pub open spec fn spec_is_message_allowed(self, payload_type: PayloadType) -> bool {
        match self {
            ConnectionState::Listen | ConnectionState::Finalize => false,
            ConnectionState::RegisteredRoutingActive => true,
            _ => match payload_type {
                PayloadType::AliveCheckRequest | PayloadType::AliveCheckResponse => self.spec_allows_alive_check(),
                PayloadType::RoutingActivationRequest | PayloadType::RoutingActivationResponse => true,
                _ => false,
            },
        }
    }

    /// Check whether the given payload type is permitted in the current state.
    pub fn is_message_allowed(&self, payload_type: &PayloadType) -> (allowed: bool)
        ensures
            allowed == self.spec_is_message_allowed(*payload_type),
    {
        match self {
            ConnectionState::Listen | ConnectionState::Finalize => false,
            ConnectionState::RegisteredRoutingActive => true,
            _ => match payload_type {
                PayloadType::AliveCheckRequest | PayloadType::AliveCheckResponse => self.allows_alive_check(),
                PayloadType::RoutingActivationRequest | PayloadType::RoutingActivationResponse => true,
                _ => false,
            },
        }
    }

    /// Only routing activation, authentication and confirmation messages are
    /// exchanged until routing is active.
    pub fn allows_all_messages(&self) -> (allowed: bool)
        ensures
            allowed == self.spec_allows_all_messages(),
    {
        matches!(self, ConnectionState::RegisteredRoutingActive)
    }

    /// Alive check messages are exchanged only in a registered state.
    pub fn allows_alive_check(&self) -> (allowed: bool)
        ensures
            allowed == self.spec_allows_alive_check(),
    {
        matches!(
            self,
            ConnectionState::RegisteredPendingAuthentication
                | ConnectionState::RegisteredPendingConfirmation
                | ConnectionState::RegisteredRoutingActive
        )
    }
}

/// Until routing is active a connection carries nothing but routing activation
/// messages, and alive checks once registered; while listening or finalizing it
/// carries nothing.
pub proof fn lemma_only_activation_before_routing(state: ConnectionState, payload_type: PayloadType)
    ensures
        !state.spec_allows_all_messages() && state.spec_is_message_allowed(payload_type) ==> (
        payload_type is RoutingActivationRequest || payload_type is RoutingActivationResponse || (
        state.spec_allows_alive_check() && (payload_type is AliveCheckRequest
            || payload_type is AliveCheckResponse))),
        (state is Listen || state is Finalize) ==> !state.spec_is_message_allowed(payload_type),
{
}

/// What each state admits: nothing while listening or finalizing; everything
/// once routing is active; routing activation requests and responses in every
/// state between; alive check requests and responses in the registered states
/// only; and nothing else before routing is active.
pub proof fn lemma_state_admissions(state: ConnectionState, payload_type: PayloadType)
    ensures
        state is RegisteredRoutingActive ==> state.spec_is_message_allowed(payload_type),
        (state is Initialized || state is RegisteredPendingAuthentication || state is RegisteredPendingConfirmation)
            && (payload_type is RoutingActivationRequest || payload_type is RoutingActivationResponse)
            ==> state.spec_is_message_allowed(payload_type),
        (state is RegisteredPendingAuthentication || state is RegisteredPendingConfirmation)
            && (payload_type is AliveCheckRequest || payload_type is AliveCheckResponse)
            ==> state.spec_is_message_allowed(payload_type),
        state is Initialized && (payload_type is AliveCheckRequest || payload_type is AliveCheckResponse)
            ==> !state.spec_is_message_allowed(payload_type),
        !(state is RegisteredRoutingActive) && !(payload_type is RoutingActivationRequest
            || payload_type is RoutingActivationResponse || payload_type is AliveCheckRequest
            || payload_type is AliveCheckResponse) ==> !state.spec_is_message_allowed(payload_type),
        state.spec_allows_all_messages() == (state is RegisteredRoutingActive),
        state.spec_allows_alive_check() == (state is RegisteredPendingAuthentication
            || state is RegisteredPendingConfirmation || state is RegisteredRoutingActive),
{
}

} // verus!

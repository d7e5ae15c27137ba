//! Diagnostics over IP (DoIP, ISO 13400-2): the wire format, stream framing and
//! codec, the request bookkeeping of a tester, the decisions of an entity
//! server, and a complete sans-io entity for single-socket targets.
//!
//! Every function states what it computes in its contract, over models of the
//! wire bytes; the proof functions state the laws the library keeps, such as
//! that whatever decodes re-encodes to a frame that decodes to the same payload.
//! Byte-level reads and writes go through the `automotive_wire_codec` crate.
use vstd::prelude::*;

pub mod bare_metal_entity;
pub mod client;
pub mod client_session;
pub mod connection;
pub mod connection_state;
mod framer;
pub mod logical_address;
pub mod message_codec;
pub mod server;
pub mod messages;
pub mod wire;

pub use framer::{lemma_frame_agrees_with_decode, lemma_framing_ignores_payload, spec_try_frame, try_frame, RawFrame, RawFrameModel};
pub use logical_address::LogicalAddress;

verus! {

/// Default TCP port for unencrypted DoIP connections (vehicle information
/// services and control commands).
pub const TCP_PORT: u16 = 13400;

/// Default UDP port for DoIP discovery.
pub const UDP_DISCOVERY_PORT: u16 = 13400;

/// TCP port for DoIP over TLS; connections here are made in the clear on
/// [`TCP_PORT`], as there is no TLS support.
pub const TCP_TLS_PORT: u16 = 3496;

/// An example logical address, used by the example client as the entity's
/// address. It lies outside the tester range `0x0E00`-`0x0FFF`; deployments
/// supply their own addresses.
pub const TESTER_LOGICAL_ADDRESS: u16 = 0xE400;

/// The well-known ports of ISO 13400-2: 13400 for the data connection and for
/// discovery, 3496 for TLS; the example entity address is 0xE400.
pub proof fn lemma_well_known_values()
    ensures
        TCP_PORT == 13400,
        UDP_DISCOVERY_PORT == 13400,
        TCP_TLS_PORT == 3496,
        TESTER_LOGICAL_ADDRESS == 0xE400,
{
}

} // verus!

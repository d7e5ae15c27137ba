//! Error taxonomy of the wire-level decode/encode core.
use vstd::prelude::*;

use super::header::PayloadType;

verus! {

/// Wire-level encode/decode failures.
///
/// `VersionInverseIncorrect` and `Incomplete` are framing-fatal (stream sync is
/// lost); every other variant leaves the frame boundary known and is recoverable.
#[derive(Clone, Copy, Debug, PartialEq, Eq, Structural)]
pub enum MessageError {
    /// The inverse protocol version byte did not match the complement of the
    /// protocol version byte.
    VersionInverseIncorrect {
        /// The inverse computed from the protocol version byte.
        expected: u8,
        /// The inverse byte actually found.
        value: u8,
    },
    /// The declared payload length was smaller than the payload type requires.
    /// Currently never produced by this crate.
    PayloadLengthTooShort {
        /// The declared payload length.
        value: usize,
        /// The minimum length required.
        expected: u32,
    },
    /// A supported payload type arrived where it is not a legal response.
    /// Currently never produced by this crate.
    UnexpectedPayloadType(PayloadType),
    /// The header declared a payload type this crate cannot decode.
    UnsupportedPayloadType(PayloadType),
    /// The buffer held fewer bytes than the item being decoded needs.
    Incomplete {
        /// Bytes the failing read needed.
        needed: usize,
        /// Bytes that were left for it.
        available: usize,
    },
    /// Bytes were left over after decoding an item that must fill its buffer.
    TrailingBytes {
        /// Number of bytes left over.
        count: usize,
    },
    /// A payload too long for the header's 32-bit length field.
    PayloadTooLarge {
        /// The number of bytes the payload encodes to.
        size: usize,
    },
    /// The buffer handed to an encoder was too short for the whole message;
    /// nothing was written to it.
    InsufficientBuffer {
        /// Bytes the message encodes to.
        needed: usize,
        /// Bytes the buffer had.
        available: usize,
    },
}

impl MessageError {
    /// Whether stream sync is lost (the header cannot be trusted).
    pub open spec fn spec_is_framing_fatal(self) -> bool {
        self is VersionInverseIncorrect || self is Incomplete
    }

    /// Framing-fatal errors mean the connection must be closed; everything else is
    /// frame-recoverable (NACK / ignore / skip).
    pub fn is_framing_fatal(&self) -> (fatal: bool)
        ensures
            fatal == self.spec_is_framing_fatal(),
    {
        match self {
            MessageError::VersionInverseIncorrect { .. } | MessageError::Incomplete { .. } => true,
            _ => false,
        }
    }
}

/// Only a wrong inverse version byte and running out of bytes lose stream sync;
/// every other error leaves the frame boundary known.
pub proof fn lemma_framing_fatal_errors(e: MessageError)
    ensures
        e.spec_is_framing_fatal() == (e is VersionInverseIncorrect || e is Incomplete),
        e is TrailingBytes || e is UnsupportedPayloadType || e is PayloadTooLarge || e is InsufficientBuffer
            || e is PayloadLengthTooShort || e is UnexpectedPayloadType ==> !e.spec_is_framing_fatal(),
{
}

} // verus!

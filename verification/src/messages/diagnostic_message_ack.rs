//! Diagnostic message acknowledgement: positive and negative acknowledge codes
//! and the acknowledgement body.
use vstd::prelude::*;

use super::message_error::MessageError;
use crate::logical_address::LogicalAddress;
use crate::wire::{
    be_u16, be_u16_bytes, layout_incomplete, lemma_be_u16_bytes_roundtrip, lemma_be_u16_roundtrip,
    max_buffer_len, put_all, put_u16_be, put_u8, read_u16_be, read_u8, spec_exact, splice,
    write_all, write_u16_be, write_u8,
};

verus! {

/// Diagnostic message acknowledgement code, positive or negative.
#[derive(Clone, Copy, Debug, PartialEq, Eq, Structural)]
pub enum DiagnosticAckCode {
    /// Positive acknowledgement: routing confirmed.
    RoutingConfirmationAck,
    /// Negative: invalid source address.
    InvalidSourceAddress,
    /// Negative: unknown target address.
    UnknownTargetAddress,
    /// Negative: diagnostic message too large.
    DiagnosticMessageTooLarge,
    /// Negative: out of memory.
    OutOfMemory,
    /// Negative: target unreachable.
    TargetUnreachable,
    /// Negative: unknown network.
    UnknownNetwork,
    /// Negative: transport protocol error.
    TransportProtocolError,
    /// Reserved code (0x01, 0x09-0xFF).
    Reserved(u8),
}

impl DiagnosticAckCode {
    /// The code a wire byte denotes.
    pub open spec fn spec_from_u8(value: u8) -> DiagnosticAckCode {
        if value == 0x00 {
            DiagnosticAckCode::RoutingConfirmationAck
        } else if value == 0x02 {
            DiagnosticAckCode::InvalidSourceAddress
        } else if value == 0x03 {
            DiagnosticAckCode::UnknownTargetAddress
        } else if value == 0x04 {
            DiagnosticAckCode::DiagnosticMessageTooLarge
        } else if value == 0x05 {
            DiagnosticAckCode::OutOfMemory
        } else if value == 0x06 {
            DiagnosticAckCode::TargetUnreachable
        } else if value == 0x07 {
            DiagnosticAckCode::UnknownNetwork
        } else if value == 0x08 {
            DiagnosticAckCode::TransportProtocolError
        } else {
            DiagnosticAckCode::Reserved(value)
        }
    }

    /// The wire byte of a code.
    pub open spec fn spec_to_u8(self) -> u8 {
        match self {
            DiagnosticAckCode::RoutingConfirmationAck => 0x00,
            DiagnosticAckCode::InvalidSourceAddress => 0x02,
            DiagnosticAckCode::UnknownTargetAddress => 0x03,
            DiagnosticAckCode::DiagnosticMessageTooLarge => 0x04,
            DiagnosticAckCode::OutOfMemory => 0x05,
            DiagnosticAckCode::TargetUnreachable => 0x06,
            DiagnosticAckCode::UnknownNetwork => 0x07,
            DiagnosticAckCode::TransportProtocolError => 0x08,
            DiagnosticAckCode::Reserved(value) => value,
        }
    }

    /// A value that is what its own wire byte decodes to.
    pub open spec fn is_canonical(self) -> bool {
        Self::spec_from_u8(self.spec_to_u8()) == self
    }

    /// Whether the code acknowledges positively.
    pub open spec fn spec_is_positive_ack(self) -> bool {
        self is RoutingConfirmationAck
    }

    /// Returns true if the code is a positive acknowledgement.
    pub fn is_positive_ack(&self) -> (positive: bool)
        ensures
            positive == self.spec_is_positive_ack(),
    {
        matches!(self, DiagnosticAckCode::RoutingConfirmationAck)
    }

    /// Returns true if the code is a negative acknowledgement.
    pub fn is_negative_ack(&self) -> (negative: bool)
        ensures
            negative == !self.spec_is_positive_ack(),
    {
        !self.is_positive_ack()
    }

}

impl From<u8> for DiagnosticAckCode {
    fn from(value: u8) -> (code: DiagnosticAckCode)
        ensures
            code == DiagnosticAckCode::spec_from_u8(value),
    {
        if value == 0x00 {
            DiagnosticAckCode::RoutingConfirmationAck
        } else if value == 0x02 {
            DiagnosticAckCode::InvalidSourceAddress
        } else if value == 0x03 {
            DiagnosticAckCode::UnknownTargetAddress
        } else if value == 0x04 {
            DiagnosticAckCode::DiagnosticMessageTooLarge
        } else if value == 0x05 {
            DiagnosticAckCode::OutOfMemory
        } else if value == 0x06 {
            DiagnosticAckCode::TargetUnreachable
        } else if value == 0x07 {
            DiagnosticAckCode::UnknownNetwork
        } else if value == 0x08 {
            DiagnosticAckCode::TransportProtocolError
        } else {
            DiagnosticAckCode::Reserved(value)
        }
    }
}

impl vstd::std_specs::convert::FromSpecImpl<u8> for DiagnosticAckCode {
    open spec fn obeys_from_spec() -> bool {
        true
    }

    open spec fn from_spec(v: u8) -> DiagnosticAckCode {
        DiagnosticAckCode::spec_from_u8(v)
    }
}

impl From<DiagnosticAckCode> for u8 {
    fn from(value: DiagnosticAckCode) -> (byte: u8)
        ensures
            byte == value.spec_to_u8(),
    {
        match value {
            DiagnosticAckCode::RoutingConfirmationAck => 0x00,
            DiagnosticAckCode::InvalidSourceAddress => 0x02,
            DiagnosticAckCode::UnknownTargetAddress => 0x03,
            DiagnosticAckCode::DiagnosticMessageTooLarge => 0x04,
            DiagnosticAckCode::OutOfMemory => 0x05,
            DiagnosticAckCode::TargetUnreachable => 0x06,
            DiagnosticAckCode::UnknownNetwork => 0x07,
            DiagnosticAckCode::TransportProtocolError => 0x08,
            DiagnosticAckCode::Reserved(value) => value,
        }
    }
}

impl vstd::std_specs::convert::FromSpecImpl<DiagnosticAckCode> for u8 {
    open spec fn obeys_from_spec() -> bool {
        true
    }

    open spec fn from_spec(v: DiagnosticAckCode) -> u8 {
        v.spec_to_u8()
    }
}

/// Every byte is the wire form of the code it decodes to, and that code is canonical.
pub proof fn lemma_diagnostic_ack_code_byte_roundtrip(value: u8)
    ensures
        DiagnosticAckCode::spec_from_u8(value).spec_to_u8() == value,
        DiagnosticAckCode::spec_from_u8(value).is_canonical(),
{
}
/// A diagnostic message acknowledgement whose previous-message data borrows from
/// the buffer it was decoded from.
#[derive(Clone, Copy, Debug, PartialEq, Eq)]
pub struct DiagnosticMessageAck<'a> {
    /// Logical address of the acknowledging entity.
    pub source_address: LogicalAddress,
    /// Logical address of the sender of the acknowledged message.
    pub target_address: LogicalAddress,
    /// Positive or negative acknowledgement code.
    pub ack_code: DiagnosticAckCode,
    /// (Part of) the acknowledged message.
    pub previous_message_data: &'a [u8],
}

/// Owned mirror of [`DiagnosticMessageAck`].
#[derive(Clone, Debug, PartialEq, Eq)]
pub struct OwnedDiagnosticMessageAck {
    /// Logical address of the acknowledging entity.
    pub source_address: LogicalAddress,
    /// Logical address of the sender of the acknowledged message.
    pub target_address: LogicalAddress,
    /// Positive or negative acknowledgement code.
    pub ack_code: DiagnosticAckCode,
    /// (Part of) the acknowledged message.
    pub previous_message_data: Vec<u8>,
}

/// What a diagnostic message acknowledgement is, whether borrowed or owned.
pub struct DiagnosticMessageAckModel {
    /// Logical address of the acknowledging entity.
    pub source_address: LogicalAddress,
    /// Logical address of the sender of the acknowledged message.
    pub target_address: LogicalAddress,
    /// Acknowledgement code.
    pub ack_code: DiagnosticAckCode,
    /// The previous-message bytes.
    pub previous_message_data: Seq<u8>,
}

impl View for DiagnosticMessageAck<'_> {
    type V = DiagnosticMessageAckModel;

    open spec fn view(&self) -> DiagnosticMessageAckModel {
        DiagnosticMessageAckModel {
            source_address: self.source_address,
            target_address: self.target_address,
            ack_code: self.ack_code,
            previous_message_data: self.previous_message_data@,
        }
    }
}

impl View for OwnedDiagnosticMessageAck {
    type V = DiagnosticMessageAckModel;

    open spec fn view(&self) -> DiagnosticMessageAckModel {
        DiagnosticMessageAckModel {
            source_address: self.source_address,
            target_address: self.target_address,
            ack_code: self.ack_code,
            previous_message_data: self.previous_message_data@,
        }
    }
}

/// Field widths of the fixed part of an acknowledgement.
pub open spec fn diagnostic_message_ack_layout() -> Seq<int> {
    seq![2int, 2, 1]
}

impl DiagnosticMessageAckModel {
    /// The acknowledgement's wire bytes.
    pub open spec fn spec_encode(self) -> Seq<u8> {
        be_u16_bytes(self.source_address.0) + be_u16_bytes(self.target_address.0) + seq![
            self.ack_code.spec_to_u8(),
        ] + self.previous_message_data
    }

    /// Decoding an acknowledgement: it takes the whole buffer, the bytes after the
    /// fixed fields being the previous-message data.
    pub open spec fn spec_decode(s: Seq<u8>) -> Result<(DiagnosticMessageAckModel, Seq<u8>), MessageError> {
        if s.len() < 5 {
            Err(layout_incomplete(diagnostic_message_ack_layout(), s.len() as int))
        } else {
            Ok(
                (
                    DiagnosticMessageAckModel {
                        source_address: LogicalAddress(be_u16(s[0], s[1])),
                        target_address: LogicalAddress(be_u16(s[2], s[3])),
                        ack_code: DiagnosticAckCode::spec_from_u8(s[4]),
                        previous_message_data: s.skip(5),
                    },
                    Seq::empty(),
                ),
            )
        }
    }
}

impl<'a> DiagnosticMessageAck<'a> {
    /// Decode an acknowledgement; it consumes the entire buffer.
    pub fn decode(buf: &'a [u8]) -> (r: Result<(DiagnosticMessageAck<'a>, &'a [u8]), MessageError>)
        ensures
            match r {
                Ok((v, rest)) => DiagnosticMessageAckModel::spec_decode(buf@) == Ok::<_, MessageError>((v@, rest@)),
                Err(e) => DiagnosticMessageAckModel::spec_decode(buf@) == Err::<(DiagnosticMessageAckModel, Seq<u8>), _>(e),
            },
    {
        proof {
            reveal_with_fuel(layout_incomplete, 4);
        }
        let (source_address, rest) = read_u16_be(buf)?;
        let (target_address, rest) = read_u16_be(rest)?;
        let (ack_code, rest) = read_u8(rest)?;
        let done = vstd::slice::slice_subrange(rest, rest.len(), rest.len());
        proof {
            assert(rest@ =~= buf@.skip(5));
            assert(done@ =~= Seq::<u8>::empty());
        }
        Ok(
            (
                DiagnosticMessageAck {
                    source_address: LogicalAddress(source_address),
                    target_address: LogicalAddress(target_address),
                    ack_code: DiagnosticAckCode::from(ack_code),
                    previous_message_data: rest,
                },
                done,
            ),
        )
    }

    /// Decode an acknowledgement that must fill `buf` exactly.
    pub fn decode_exact(buf: &'a [u8]) -> (r: Result<DiagnosticMessageAck<'a>, MessageError>)
        ensures
            match r {
                Ok(v) => spec_exact(DiagnosticMessageAckModel::spec_decode(buf@)) == Ok::<_, MessageError>(v@),
                Err(e) => spec_exact(DiagnosticMessageAckModel::spec_decode(buf@)) == Err::<DiagnosticMessageAckModel, _>(e),
            },
    {
        let (value, rest) = DiagnosticMessageAck::decode(buf)?;
        if rest.len() == 0 {
            Ok(value)
        } else {
            Err(MessageError::TrailingBytes { count: rest.len() })
        }
    }

    /// Number of bytes `encode` writes.
    pub fn encoded_size(&self) -> (r: Result<usize, MessageError>)
        requires
            self@.spec_encode().len() <= usize::MAX,
        ensures
            r == Ok::<_, MessageError>(self@.spec_encode().len() as usize),
    {
        Ok(5 + self.previous_message_data.len())
    }

    /// Append the acknowledgement's wire bytes to `out`, returning the number written.
    pub fn encode(&self, out: &mut Vec<u8>) -> (r: Result<usize, MessageError>)
        requires
            old(out)@.len() + self@.spec_encode().len() <= max_buffer_len(),
        ensures
            final(out)@ == old(out)@ + self@.spec_encode(),
            r == Ok::<_, MessageError>(self@.spec_encode().len() as usize),
    {
        let ghost start = out@;
        write_u16_be(out, self.source_address.0);
        write_u16_be(out, self.target_address.0);
        write_u8(out, u8::from(self.ack_code));
        write_all(out, self.previous_message_data);
        assert(out@ =~= start + self@.spec_encode());
        Ok(5 + self.previous_message_data.len())
    }

    /// Write the acknowledgement's wire bytes into `out` at position `at`,
    /// returning the number written.
    pub(crate) fn write_at(&self, out: &mut [u8], at: usize) -> (n: usize)
        requires
            at + self@.spec_encode().len() <= old(out)@.len(),
        ensures
            final(out)@ == splice(old(out)@, at as int, self@.spec_encode()),
            n == self@.spec_encode().len(),
    {
        let ghost start = out@;
        assert(out@.len() == out.len());
        put_u16_be(out, at, self.source_address.0);
        put_u16_be(out, at + 2, self.target_address.0);
        put_u8(out, at + 4, u8::from(self.ack_code));
        put_all(out, at + 5, self.previous_message_data);
        assert(out@ =~= splice(start, at as int, self@.spec_encode()));
        5 + self.previous_message_data.len()
    }

    /// Copy the borrowed data into an owned acknowledgement.
    pub fn to_owned_message(&self) -> (owned: OwnedDiagnosticMessageAck)
        ensures
            owned@ == self@,
    {
        OwnedDiagnosticMessageAck {
            source_address: self.source_address,
            target_address: self.target_address,
            ack_code: self.ack_code,
            previous_message_data: vstd::slice::slice_to_vec(self.previous_message_data),
        }
    }
}

impl OwnedDiagnosticMessageAck {
    /// Borrowed view for encode paths and read-only inspection.
    pub fn as_ref(&self) -> (borrowed: DiagnosticMessageAck<'_>)
        ensures
            borrowed@ == self@,
    {
        DiagnosticMessageAck {
            source_address: self.source_address,
            target_address: self.target_address,
            ack_code: self.ack_code,
            previous_message_data: self.previous_message_data.as_slice(),
        }
    }
}

/// An acknowledgement with a canonical code survives encoding, and a decoded one
/// re-encodes to exactly the bytes it came from.
pub proof fn lemma_diagnostic_message_ack_codec(m: DiagnosticMessageAckModel, s: Seq<u8>)
    ensures
        m.ack_code.is_canonical() ==> DiagnosticMessageAckModel::spec_decode(m.spec_encode())
            == Ok::<_, MessageError>((m, Seq::<u8>::empty())),
        DiagnosticMessageAckModel::spec_decode(s) matches Ok((d, rest)) ==> d.spec_encode() == s
            && rest.len() == 0 && d.ack_code.is_canonical(),
{
    lemma_be_u16_roundtrip(m.source_address.0);
    lemma_be_u16_roundtrip(m.target_address.0);
    let e = m.spec_encode();
    assert(e.skip(5) =~= m.previous_message_data);
    if s.len() >= 5 {
        lemma_be_u16_bytes_roundtrip(s[0], s[1]);
        lemma_be_u16_bytes_roundtrip(s[2], s[3]);
        lemma_diagnostic_ack_code_byte_roundtrip(s[4]);
        let d = DiagnosticMessageAckModel::spec_decode(s)->Ok_0.0;
        assert(d.spec_encode() =~= s);
    }
}

/// Each diagnostic message acknowledge code has the wire byte ISO 13400-2 assigns it: a
/// byte decodes to a named code exactly when it is that code's byte, 0x01 and every byte
/// from 0x09 on are reserved, and a named code encodes to its byte.
pub proof fn lemma_diagnostic_ack_code_wire_values(b: u8)
    ensures
        (DiagnosticAckCode::spec_from_u8(b) == DiagnosticAckCode::RoutingConfirmationAck) == (b == 0x00),
        (DiagnosticAckCode::spec_from_u8(b) == DiagnosticAckCode::InvalidSourceAddress) == (b == 0x02),
        (DiagnosticAckCode::spec_from_u8(b) == DiagnosticAckCode::UnknownTargetAddress) == (b == 0x03),
        (DiagnosticAckCode::spec_from_u8(b) == DiagnosticAckCode::DiagnosticMessageTooLarge) == (b == 0x04),
        (DiagnosticAckCode::spec_from_u8(b) == DiagnosticAckCode::OutOfMemory) == (b == 0x05),
        (DiagnosticAckCode::spec_from_u8(b) == DiagnosticAckCode::TargetUnreachable) == (b == 0x06),
        (DiagnosticAckCode::spec_from_u8(b) == DiagnosticAckCode::UnknownNetwork) == (b == 0x07),
        (DiagnosticAckCode::spec_from_u8(b) == DiagnosticAckCode::TransportProtocolError) == (b == 0x08),
        (DiagnosticAckCode::spec_from_u8(b) == DiagnosticAckCode::Reserved(b)) == (b == 0x01 || b >= 0x09),
        DiagnosticAckCode::RoutingConfirmationAck.spec_to_u8() == 0x00,
        DiagnosticAckCode::InvalidSourceAddress.spec_to_u8() == 0x02,
        DiagnosticAckCode::UnknownTargetAddress.spec_to_u8() == 0x03,
        DiagnosticAckCode::DiagnosticMessageTooLarge.spec_to_u8() == 0x04,
        DiagnosticAckCode::OutOfMemory.spec_to_u8() == 0x05,
        DiagnosticAckCode::TargetUnreachable.spec_to_u8() == 0x06,
        DiagnosticAckCode::UnknownNetwork.spec_to_u8() == 0x07,
        DiagnosticAckCode::TransportProtocolError.spec_to_u8() == 0x08,
{
}

/// Only the routing confirmation code, wire byte 0x00, is a positive
/// acknowledgement; every other byte is negative.
pub proof fn lemma_positive_ack_is_code_zero(b: u8)
    ensures
        DiagnosticAckCode::spec_from_u8(b).spec_is_positive_ack() == (b == 0x00),
{
}

} // verus!

//! Routing activation response.
use vstd::prelude::*;

use super::message_error::MessageError;
use super::routing_activation_request::optional_array_view;
use crate::logical_address::LogicalAddress;
use crate::wire::{
    be_u16, be_u16_bytes, layout_incomplete, lemma_be_u16_bytes_roundtrip, lemma_be_u16_roundtrip,
    max_buffer_len, put_all, put_u16_be, put_u8, read_array, read_optional_array, read_u16_be,
    read_u8, spec_exact, splice, write_all, write_u16_be, write_u8,
};

verus! {

/// Outcome of a routing activation request.
#[derive(Clone, Copy, Debug, PartialEq, Eq, Structural)]
pub enum RoutingActivationResponseCode {
    /// Denied: unknown source address; the socket is closed.
    DeniedUnknownSourceAddress,
    /// Denied: all concurrently supported sockets are registered and active.
    DeniedAllTcpSocketsRegisteredAndActive,
    /// Denied: the source address differs from the one already activated on this socket.
    DeniedSourceAddressAlreadyActivated,
    /// Denied: the source address is already active on a different socket.
    DeniedSourceAddressAlreadyRegistered,
    /// Denied: missing authentication.
    DeniedMissingAuthentication,
    /// Denied: confirmation rejected.
    DeniedRejectedConfirmation,
    /// Denied: unsupported routing activation type.
    DeniedUnsupportedRoutingActivationType,
    /// Denied: the activation type requires a TLS socket.
    DeniedEncryptedConnectionViaTLSRequired,
    /// Routing successfully activated.
    RoutingSuccessfullyActivated,
    /// Routing activated; confirmation required.
    RoutingSuccessfullyActivatedConfirmationRequired,
    /// Vehicle-manufacturer-specific code (0xE0-0xFE).
    VehicleManufacturerSpecific(u8),
    /// Reserved for future use.
    Reserved(u8),
}

impl RoutingActivationResponseCode {
    /// The code a wire byte denotes.
    pub open spec fn spec_from_u8(value: u8) -> RoutingActivationResponseCode {
        if value == 0x00 {
            RoutingActivationResponseCode::DeniedUnknownSourceAddress
        } else if value == 0x01 {
            RoutingActivationResponseCode::DeniedAllTcpSocketsRegisteredAndActive
        } else if value == 0x02 {
            RoutingActivationResponseCode::DeniedSourceAddressAlreadyActivated
        } else if value == 0x03 {
            RoutingActivationResponseCode::DeniedSourceAddressAlreadyRegistered
        } else if value == 0x04 {
            RoutingActivationResponseCode::DeniedMissingAuthentication
        } else if value == 0x05 {
            RoutingActivationResponseCode::DeniedRejectedConfirmation
        } else if value == 0x06 {
            RoutingActivationResponseCode::DeniedUnsupportedRoutingActivationType
        } else if value == 0x07 {
            RoutingActivationResponseCode::DeniedEncryptedConnectionViaTLSRequired
        } else if value == 0x10 {
            RoutingActivationResponseCode::RoutingSuccessfullyActivated
        } else if value == 0x11 {
            RoutingActivationResponseCode::RoutingSuccessfullyActivatedConfirmationRequired
        } else if 0xE0 <= value && value <= 0xFE {
            RoutingActivationResponseCode::VehicleManufacturerSpecific(value)
        } else {
            RoutingActivationResponseCode::Reserved(value)
        }
    }

    /// The wire byte of a code.
    pub open spec fn spec_to_u8(self) -> u8 {
        match self {
            RoutingActivationResponseCode::DeniedUnknownSourceAddress => 0x00,
            RoutingActivationResponseCode::DeniedAllTcpSocketsRegisteredAndActive => 0x01,
            RoutingActivationResponseCode::DeniedSourceAddressAlreadyActivated => 0x02,
            RoutingActivationResponseCode::DeniedSourceAddressAlreadyRegistered => 0x03,
            RoutingActivationResponseCode::DeniedMissingAuthentication => 0x04,
            RoutingActivationResponseCode::DeniedRejectedConfirmation => 0x05,
            RoutingActivationResponseCode::DeniedUnsupportedRoutingActivationType => 0x06,
            RoutingActivationResponseCode::DeniedEncryptedConnectionViaTLSRequired => 0x07,
            RoutingActivationResponseCode::RoutingSuccessfullyActivated => 0x10,
            RoutingActivationResponseCode::RoutingSuccessfullyActivatedConfirmationRequired => 0x11,
            RoutingActivationResponseCode::VehicleManufacturerSpecific(value) => value,
            RoutingActivationResponseCode::Reserved(value) => value,
        }
    }

    /// A value that is what its own wire byte decodes to.
    pub open spec fn is_canonical(self) -> bool {
        Self::spec_from_u8(self.spec_to_u8()) == self
    }

}

impl From<u8> for RoutingActivationResponseCode {
    fn from(value: u8) -> (code: RoutingActivationResponseCode)
        ensures
            code == RoutingActivationResponseCode::spec_from_u8(value),
    {
        if value == 0x00 {
            RoutingActivationResponseCode::DeniedUnknownSourceAddress
        } else if value == 0x01 {
            RoutingActivationResponseCode::DeniedAllTcpSocketsRegisteredAndActive
        } else if value == 0x02 {
            RoutingActivationResponseCode::DeniedSourceAddressAlreadyActivated
        } else if value == 0x03 {
            RoutingActivationResponseCode::DeniedSourceAddressAlreadyRegistered
        } else if value == 0x04 {
            RoutingActivationResponseCode::DeniedMissingAuthentication
        } else if value == 0x05 {
            RoutingActivationResponseCode::DeniedRejectedConfirmation
        } else if value == 0x06 {
            RoutingActivationResponseCode::DeniedUnsupportedRoutingActivationType
        } else if value == 0x07 {
            RoutingActivationResponseCode::DeniedEncryptedConnectionViaTLSRequired
        } else if value == 0x10 {
            RoutingActivationResponseCode::RoutingSuccessfullyActivated
        } else if value == 0x11 {
            RoutingActivationResponseCode::RoutingSuccessfullyActivatedConfirmationRequired
        } else if 0xE0 <= value && value <= 0xFE {
            RoutingActivationResponseCode::VehicleManufacturerSpecific(value)
        } else {
            RoutingActivationResponseCode::Reserved(value)
        }
    }
}

impl vstd::std_specs::convert::FromSpecImpl<u8> for RoutingActivationResponseCode {
    open spec fn obeys_from_spec() -> bool {
        true
    }

    open spec fn from_spec(v: u8) -> RoutingActivationResponseCode {
        RoutingActivationResponseCode::spec_from_u8(v)
    }
}

impl From<RoutingActivationResponseCode> for u8 {
    fn from(value: RoutingActivationResponseCode) -> (byte: u8)
        ensures
            byte == value.spec_to_u8(),
    {
        match value {
            RoutingActivationResponseCode::DeniedUnknownSourceAddress => 0x00,
            RoutingActivationResponseCode::DeniedAllTcpSocketsRegisteredAndActive => 0x01,
            RoutingActivationResponseCode::DeniedSourceAddressAlreadyActivated => 0x02,
            RoutingActivationResponseCode::DeniedSourceAddressAlreadyRegistered => 0x03,
            RoutingActivationResponseCode::DeniedMissingAuthentication => 0x04,
            RoutingActivationResponseCode::DeniedRejectedConfirmation => 0x05,
            RoutingActivationResponseCode::DeniedUnsupportedRoutingActivationType => 0x06,
            RoutingActivationResponseCode::DeniedEncryptedConnectionViaTLSRequired => 0x07,
            RoutingActivationResponseCode::RoutingSuccessfullyActivated => 0x10,
            RoutingActivationResponseCode::RoutingSuccessfullyActivatedConfirmationRequired => 0x11,
            RoutingActivationResponseCode::VehicleManufacturerSpecific(value) => value,
            RoutingActivationResponseCode::Reserved(value) => value,
        }
    }
}

impl vstd::std_specs::convert::FromSpecImpl<RoutingActivationResponseCode> for u8 {
    open spec fn obeys_from_spec() -> bool {
        true
    }

    open spec fn from_spec(v: RoutingActivationResponseCode) -> u8 {
        v.spec_to_u8()
    }
}

/// Every byte is the wire form of the code it decodes to, and that code is canonical.
pub proof fn lemma_routing_activation_response_code_byte_roundtrip(value: u8)
    ensures
        RoutingActivationResponseCode::spec_from_u8(value).spec_to_u8() == value,
        RoutingActivationResponseCode::spec_from_u8(value).is_canonical(),
{
}

/// Routing activation response sent by an entity.
#[derive(Clone, Copy, Debug, PartialEq, Eq)]
pub struct RoutingActivationResponse {
    /// Address of the tester that requested activation.
    pub logical_address_tester: LogicalAddress,
    /// Address of the responding entity.
    pub logical_address_of_doip_entity: LogicalAddress,
    /// Outcome.
    pub routing_activation_response_code: RoutingActivationResponseCode,
    /// Reserved by the standard.
    pub reserved_oem: [u8; 4],
    /// Optional OEM-specific tail.
    pub oem_specific: Option<[u8; 4]>,
}

/// What a routing activation response is.
pub struct RoutingActivationResponseModel {
    /// Tester address.
    pub logical_address_tester: LogicalAddress,
    /// Entity address.
    pub logical_address_of_doip_entity: LogicalAddress,
    /// Outcome.
    pub routing_activation_response_code: RoutingActivationResponseCode,
    /// The four reserved bytes.
    pub reserved_oem: Seq<u8>,
    /// The optional four-byte tail.
    pub oem_specific: Option<Seq<u8>>,
}

impl View for RoutingActivationResponse {
    type V = RoutingActivationResponseModel;

    open spec fn view(&self) -> RoutingActivationResponseModel {
        RoutingActivationResponseModel {
            logical_address_tester: self.logical_address_tester,
            logical_address_of_doip_entity: self.logical_address_of_doip_entity,
            routing_activation_response_code: self.routing_activation_response_code,
            reserved_oem: self.reserved_oem@,
            oem_specific: optional_array_view(self.oem_specific),
        }
    }
}

/// Field widths of the fixed part of a routing activation response.
pub open spec fn routing_activation_response_layout() -> Seq<int> {
    seq![2int, 2, 1, 4]
}

impl RoutingActivationResponseModel {
    /// Field lengths as arrays give them, and a canonical response code.
    pub open spec fn is_canonical(self) -> bool {
        &&& self.routing_activation_response_code.is_canonical()
        &&& self.reserved_oem.len() == 4
        &&& self.oem_specific matches Some(t) ==> t.len() == 4
    }

    /// The response's wire bytes: nine, or thirteen with the tail.
    pub open spec fn spec_encode(self) -> Seq<u8> {
        be_u16_bytes(self.logical_address_tester.0) + be_u16_bytes(
            self.logical_address_of_doip_entity.0,
        ) + seq![self.routing_activation_response_code.spec_to_u8()] + self.reserved_oem
            + match self.oem_specific {
            Some(t) => t,
            None => Seq::empty(),
        }
    }

    /// Decoding a response from the front of `s`; the tail is present when four
    /// more bytes follow the fixed fields.
    pub open spec fn spec_decode(s: Seq<u8>) -> Result<(RoutingActivationResponseModel, Seq<u8>), MessageError> {
        if s.len() < 9 {
            Err(layout_incomplete(routing_activation_response_layout(), s.len() as int))
        } else {
            Ok(
                (
                    RoutingActivationResponseModel {
                        logical_address_tester: LogicalAddress(be_u16(s[0], s[1])),
                        logical_address_of_doip_entity: LogicalAddress(be_u16(s[2], s[3])),
                        routing_activation_response_code: RoutingActivationResponseCode::spec_from_u8(s[4]),
                        reserved_oem: s.subrange(5, 9),
                        oem_specific: if s.len() >= 13 {
                            Some(s.subrange(9, 13))
                        } else {
                            None
                        },
                    },
                    if s.len() >= 13 {
                        s.skip(13)
                    } else {
                        s.skip(9)
                    },
                ),
            )
        }
    }
}

impl RoutingActivationResponse {
    /// Decode from the front of `buf`, returning the response and the bytes after it.
    pub fn decode(buf: &[u8]) -> (r: Result<(RoutingActivationResponse, &[u8]), MessageError>)
        ensures
            match r {
                Ok((v, rest)) => RoutingActivationResponseModel::spec_decode(buf@) == Ok::<_, MessageError>((v@, rest@)),
                Err(e) => RoutingActivationResponseModel::spec_decode(buf@) == Err::<(RoutingActivationResponseModel, Seq<u8>), _>(e),
            },
    {
        proof {
            reveal_with_fuel(layout_incomplete, 5);
        }
        let (logical_address_tester, rest) = read_u16_be(buf)?;
        let (logical_address_of_doip_entity, rest) = read_u16_be(rest)?;
        let (code, rest) = read_u8(rest)?;
        let (reserved_oem, rest) = read_array::<4>(rest)?;
        let (oem_specific, rest2) = read_optional_array::<4>(rest);
        proof {
            assert(rest@ =~= buf@.skip(9));
            assert(reserved_oem@ =~= buf@.subrange(5, 9));
            if buf@.len() >= 13 {
                assert(rest@.take(4) =~= buf@.subrange(9, 13));
                assert(rest@.skip(4) =~= buf@.skip(13));
            }
        }
        Ok(
            (
                RoutingActivationResponse {
                    logical_address_tester: LogicalAddress(logical_address_tester),
                    logical_address_of_doip_entity: LogicalAddress(logical_address_of_doip_entity),
                    routing_activation_response_code: RoutingActivationResponseCode::from(code),
                    reserved_oem,
                    oem_specific,
                },
                rest2,
            ),
        )
    }

    /// Decode a response that must fill `buf` exactly.
    pub fn decode_exact(buf: &[u8]) -> (r: Result<RoutingActivationResponse, MessageError>)
        ensures
            match r {
                Ok(v) => spec_exact(RoutingActivationResponseModel::spec_decode(buf@)) == Ok::<_, MessageError>(v@),
                Err(e) => spec_exact(RoutingActivationResponseModel::spec_decode(buf@)) == Err::<RoutingActivationResponseModel, _>(e),
            },
    {
        let (value, rest) = RoutingActivationResponse::decode(buf)?;
        if rest.len() == 0 {
            Ok(value)
        } else {
            Err(MessageError::TrailingBytes { count: rest.len() })
        }
    }

    /// Number of bytes `encode` writes: 9, or 13 with the tail.
    pub fn encoded_size(&self) -> (r: Result<usize, MessageError>)
        ensures
            r == Ok::<_, MessageError>(self@.spec_encode().len() as usize),
    {
        if self.oem_specific.is_some() {
            Ok(13)
        } else {
            Ok(9)
        }
    }

    /// Append the response's wire bytes to `out`, returning the number written.
    pub fn encode(&self, out: &mut Vec<u8>) -> (r: Result<usize, MessageError>)
        requires
            old(out)@.len() + self@.spec_encode().len() <= max_buffer_len(),
        ensures
            final(out)@ == old(out)@ + self@.spec_encode(),
            r == Ok::<_, MessageError>(self@.spec_encode().len() as usize),
    {
        let ghost start = out@;
        write_u16_be(out, self.logical_address_tester.0);
        write_u16_be(out, self.logical_address_of_doip_entity.0);
        write_u8(out, u8::from(self.routing_activation_response_code));
        write_all(out, self.reserved_oem.as_slice());
        match self.oem_specific {
            Some(tail) => {
                write_all(out, tail.as_slice());
                assert(out@ =~= start + self@.spec_encode());
                Ok(13)
            },
            None => {
                assert(out@ =~= start + self@.spec_encode());
                Ok(9)
            },
        }
    }

    /// Write the response's wire bytes into `out` at position `at`, returning the
    /// number written.
    pub(crate) fn write_at(&self, out: &mut [u8], at: usize) -> (n: usize)
        requires
            at + self@.spec_encode().len() <= old(out)@.len(),
        ensures
            final(out)@ == splice(old(out)@, at as int, self@.spec_encode()),
            n == self@.spec_encode().len(),
    {
        let ghost start = out@;
        assert(out@.len() == out.len());
        put_u16_be(out, at, self.logical_address_tester.0);
        put_u16_be(out, at + 2, self.logical_address_of_doip_entity.0);
        put_u8(out, at + 4, u8::from(self.routing_activation_response_code));
        put_all(out, at + 5, self.reserved_oem.as_slice());
        match self.oem_specific {
            Some(tail) => {
                put_all(out, at + 9, tail.as_slice());
                assert(out@ =~= splice(start, at as int, self@.spec_encode()));
                13
            },
            None => {
                assert(out@ =~= splice(start, at as int, self@.spec_encode()));
                9
            },
        }
    }
}

/// A canonical response survives encoding, and a decoded one is canonical and
/// re-encodes to the bytes it was decoded from.
pub proof fn lemma_routing_activation_response_codec(m: RoutingActivationResponseModel, s: Seq<u8>)
    ensures
        m.is_canonical() ==> RoutingActivationResponseModel::spec_decode(m.spec_encode())
            == Ok::<_, MessageError>((m, Seq::<u8>::empty())),
        RoutingActivationResponseModel::spec_decode(s) matches Ok((d, rest)) ==> d.is_canonical()
            && d.spec_encode() + rest == s,
{
    lemma_be_u16_roundtrip(m.logical_address_tester.0);
    lemma_be_u16_roundtrip(m.logical_address_of_doip_entity.0);
    let e = m.spec_encode();
    if m.is_canonical() {
        assert(e.subrange(5, 9) =~= m.reserved_oem);
        match m.oem_specific {
            Some(t) => {
                assert(e.subrange(9, 13) =~= t);
                assert(e.skip(13) =~= Seq::<u8>::empty());
            },
            None => {
                assert(e.skip(9) =~= Seq::<u8>::empty());
            },
        }
    }
    if s.len() >= 9 {
        lemma_be_u16_bytes_roundtrip(s[0], s[1]);
        lemma_be_u16_bytes_roundtrip(s[2], s[3]);
        lemma_routing_activation_response_code_byte_roundtrip(s[4]);
        let (d, rest) = RoutingActivationResponseModel::spec_decode(s)->Ok_0;
        assert(d.spec_encode() + rest =~= s);
    }
}

/// Each routing activation response code has the wire byte ISO 13400-2 assigns it: a byte
/// decodes to a named code exactly when it is that code's byte, 0xE0-0xFE are
/// manufacturer-specific, every other byte is reserved, and a named code encodes to its byte.
pub proof fn lemma_routing_activation_response_code_wire_values(b: u8)
    ensures
        (RoutingActivationResponseCode::spec_from_u8(b) == RoutingActivationResponseCode::DeniedUnknownSourceAddress) == (b == 0x00),
        (RoutingActivationResponseCode::spec_from_u8(b) == RoutingActivationResponseCode::DeniedAllTcpSocketsRegisteredAndActive) == (b == 0x01),
        (RoutingActivationResponseCode::spec_from_u8(b) == RoutingActivationResponseCode::DeniedSourceAddressAlreadyActivated) == (b == 0x02),
        (RoutingActivationResponseCode::spec_from_u8(b) == RoutingActivationResponseCode::DeniedSourceAddressAlreadyRegistered) == (b == 0x03),
        (RoutingActivationResponseCode::spec_from_u8(b) == RoutingActivationResponseCode::DeniedMissingAuthentication) == (b == 0x04),
        (RoutingActivationResponseCode::spec_from_u8(b) == RoutingActivationResponseCode::DeniedRejectedConfirmation) == (b == 0x05),
        (RoutingActivationResponseCode::spec_from_u8(b) == RoutingActivationResponseCode::DeniedUnsupportedRoutingActivationType) == (b == 0x06),
        (RoutingActivationResponseCode::spec_from_u8(b) == RoutingActivationResponseCode::DeniedEncryptedConnectionViaTLSRequired) == (b == 0x07),
        (RoutingActivationResponseCode::spec_from_u8(b) == RoutingActivationResponseCode::RoutingSuccessfullyActivated) == (b == 0x10),
        (RoutingActivationResponseCode::spec_from_u8(b) == RoutingActivationResponseCode::RoutingSuccessfullyActivatedConfirmationRequired) == (b == 0x11),
        (RoutingActivationResponseCode::spec_from_u8(b) == RoutingActivationResponseCode::VehicleManufacturerSpecific(b)) == (0xE0 <= b <= 0xFE),
        (RoutingActivationResponseCode::spec_from_u8(b) == RoutingActivationResponseCode::Reserved(b)) == ((0x08 <= b <= 0x0F) || (0x12 <= b <= 0xDF) || b == 0xFF),
        RoutingActivationResponseCode::DeniedUnknownSourceAddress.spec_to_u8() == 0x00,
        RoutingActivationResponseCode::DeniedAllTcpSocketsRegisteredAndActive.spec_to_u8() == 0x01,
        RoutingActivationResponseCode::DeniedSourceAddressAlreadyActivated.spec_to_u8() == 0x02,
        RoutingActivationResponseCode::DeniedSourceAddressAlreadyRegistered.spec_to_u8() == 0x03,
        RoutingActivationResponseCode::DeniedMissingAuthentication.spec_to_u8() == 0x04,
        RoutingActivationResponseCode::DeniedRejectedConfirmation.spec_to_u8() == 0x05,
        RoutingActivationResponseCode::DeniedUnsupportedRoutingActivationType.spec_to_u8() == 0x06,
        RoutingActivationResponseCode::DeniedEncryptedConnectionViaTLSRequired.spec_to_u8() == 0x07,
        RoutingActivationResponseCode::RoutingSuccessfullyActivated.spec_to_u8() == 0x10,
        RoutingActivationResponseCode::RoutingSuccessfullyActivatedConfirmationRequired.spec_to_u8() == 0x11,
{
}

} // verus!

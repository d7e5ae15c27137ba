//! Routing activation request.
use vstd::prelude::*;

use super::message_error::MessageError;
use crate::logical_address::LogicalAddress;
use crate::wire::{
    be_u16, be_u16_bytes, layout_incomplete, lemma_be_u16_bytes_roundtrip, lemma_be_u16_roundtrip,
    max_buffer_len, put_all, put_u16_be, put_u8, read_array, read_optional_array, read_u16_be,
    read_u8, spec_exact, splice, write_all, write_u16_be, write_u8,
};

verus! {

/// Routing activation type requested by a tester.
#[derive(Clone, Copy, Debug, PartialEq, Eq, Structural)]
pub enum ActivationTypeCode {
    /// Default activation (ISO 14229).
    Default,
    /// Diagnostic communication required by regulation.
    RegulationRequired,
    /// Vehicle-manufacturer-specific central security authentication.
    CentralSecurity,
    /// Available for vehicle-manufacturer-specific use (0xE1-0xFF).
    VehicleManufacturerSpecific(u8),
    /// ISO/SAE reserved (0x02-0xDF).
    Reserved(u8),
}

impl ActivationTypeCode {
    /// The code a wire byte denotes.
    pub open spec fn spec_from_u8(value: u8) -> ActivationTypeCode {
        if value == 0x00 {
            ActivationTypeCode::Default
        } else if value == 0x01 {
            ActivationTypeCode::RegulationRequired
        } else if value == 0xE0 {
            ActivationTypeCode::CentralSecurity
        } else if 0xE1 <= value && value <= 0xFF {
            ActivationTypeCode::VehicleManufacturerSpecific(value)
        } else {
            ActivationTypeCode::Reserved(value)
        }
    }

    /// The wire byte of a code.
    pub open spec fn spec_to_u8(self) -> u8 {
        match self {
            ActivationTypeCode::Default => 0x00,
            ActivationTypeCode::RegulationRequired => 0x01,
            ActivationTypeCode::CentralSecurity => 0xE0,
            ActivationTypeCode::VehicleManufacturerSpecific(value) => value,
            ActivationTypeCode::Reserved(value) => value,
        }
    }

    /// A value that is what its own wire byte decodes to.
    pub open spec fn is_canonical(self) -> bool {
        Self::spec_from_u8(self.spec_to_u8()) == self
    }

}

impl From<u8> for ActivationTypeCode {
    fn from(value: u8) -> (code: ActivationTypeCode)
        ensures
            code == ActivationTypeCode::spec_from_u8(value),
    {
        if value == 0x00 {
            ActivationTypeCode::Default
        } else if value == 0x01 {
            ActivationTypeCode::RegulationRequired
        } else if value == 0xE0 {
            ActivationTypeCode::CentralSecurity
        } else if 0xE1 <= value && value <= 0xFF {
            ActivationTypeCode::VehicleManufacturerSpecific(value)
        } else {
            ActivationTypeCode::Reserved(value)
        }
    }
}

impl vstd::std_specs::convert::FromSpecImpl<u8> for ActivationTypeCode {
    open spec fn obeys_from_spec() -> bool {
        true
    }

    open spec fn from_spec(v: u8) -> ActivationTypeCode {
        ActivationTypeCode::spec_from_u8(v)
    }
}

impl From<ActivationTypeCode> for u8 {
    fn from(value: ActivationTypeCode) -> (byte: u8)
        ensures
            byte == value.spec_to_u8(),
    {
        match value {
            ActivationTypeCode::Default => 0x00,
            ActivationTypeCode::RegulationRequired => 0x01,
            ActivationTypeCode::CentralSecurity => 0xE0,
            ActivationTypeCode::VehicleManufacturerSpecific(value) => value,
            ActivationTypeCode::Reserved(value) => value,
        }
    }
}

impl vstd::std_specs::convert::FromSpecImpl<ActivationTypeCode> for u8 {
    open spec fn obeys_from_spec() -> bool {
        true
    }

    open spec fn from_spec(v: ActivationTypeCode) -> u8 {
        v.spec_to_u8()
    }
}

/// Every byte is the wire form of the code it decodes to, and that code is canonical.
pub proof fn lemma_activation_type_code_byte_roundtrip(value: u8)
    ensures
        ActivationTypeCode::spec_from_u8(value).spec_to_u8() == value,
        ActivationTypeCode::spec_from_u8(value).is_canonical(),
{
}

/// Routing activation request sent by a tester on a fresh `TCP_DATA` socket.
#[derive(Clone, Copy, Debug, PartialEq, Eq)]
pub struct RoutingActivationRequest {
    /// Address of the entity that requests routing activation.
    pub source_address: LogicalAddress,
    /// Requested activation type.
    pub activation_type: ActivationTypeCode,
    /// Reserved by the standard.
    pub reserved: [u8; 4],
    /// Optional vehicle-manufacturer-specific tail.
    pub reserved_vehicle_manufacturer: Option<[u8; 4]>,
}

/// What a routing activation request is.
pub struct RoutingActivationRequestModel {
    /// Requesting address.
    pub source_address: LogicalAddress,
    /// Requested activation type.
    pub activation_type: ActivationTypeCode,
    /// The four reserved bytes.
    pub reserved: Seq<u8>,
    /// The optional four-byte tail.
    pub reserved_vehicle_manufacturer: Option<Seq<u8>>,
}

/// The byte sequence of an optional four-byte array.
pub open spec fn optional_array_view(a: Option<[u8; 4]>) -> Option<Seq<u8>> {
    match a {
        Some(a) => Some(a@),
        None => None,
    }
}

impl View for RoutingActivationRequest {
    type V = RoutingActivationRequestModel;

    open spec fn view(&self) -> RoutingActivationRequestModel {
        RoutingActivationRequestModel {
            source_address: self.source_address,
            activation_type: self.activation_type,
            reserved: self.reserved@,
            reserved_vehicle_manufacturer: optional_array_view(self.reserved_vehicle_manufacturer),
        }
    }
}

/// Field widths of the fixed part of a routing activation request.
pub open spec fn routing_activation_request_layout() -> Seq<int> {
    seq![2int, 1, 4]
}

impl RoutingActivationRequestModel {
    /// Field lengths as arrays give them, and a canonical activation type.
    pub open spec fn is_canonical(self) -> bool {
        &&& self.activation_type.is_canonical()
        &&& self.reserved.len() == 4
        &&& self.reserved_vehicle_manufacturer matches Some(t) ==> t.len() == 4
    }

    /// The request's wire bytes: seven, or eleven with the tail.
    pub open spec fn spec_encode(self) -> Seq<u8> {
        be_u16_bytes(self.source_address.0) + seq![self.activation_type.spec_to_u8()] + self.reserved
            + match self.reserved_vehicle_manufacturer {
            Some(t) => t,
            None => Seq::empty(),
        }
    }

    /// Decoding a request from the front of `s`; the tail is present when four
    /// more bytes follow the fixed fields.
    pub open spec fn spec_decode(s: Seq<u8>) -> Result<(RoutingActivationRequestModel, Seq<u8>), MessageError> {
        if s.len() < 7 {
            Err(layout_incomplete(routing_activation_request_layout(), s.len() as int))
        } else {
            Ok(
                (
                    RoutingActivationRequestModel {
                        source_address: LogicalAddress(be_u16(s[0], s[1])),
                        activation_type: ActivationTypeCode::spec_from_u8(s[2]),
                        reserved: s.subrange(3, 7),
                        reserved_vehicle_manufacturer: if s.len() >= 11 {
                            Some(s.subrange(7, 11))
                        } else {
                            None
                        },
                    },
                    if s.len() >= 11 {
                        s.skip(11)
                    } else {
                        s.skip(7)
                    },
                ),
            )
        }
    }
}

impl RoutingActivationRequest {
    /// Decode from the front of `buf`, returning the request and the bytes after it.
    pub fn decode(buf: &[u8]) -> (r: Result<(RoutingActivationRequest, &[u8]), MessageError>)
        ensures
            match r {
                Ok((v, rest)) => RoutingActivationRequestModel::spec_decode(buf@) == Ok::<_, MessageError>((v@, rest@)),
                Err(e) => RoutingActivationRequestModel::spec_decode(buf@) == Err::<(RoutingActivationRequestModel, Seq<u8>), _>(e),
            },
    {
        proof {
            reveal_with_fuel(layout_incomplete, 4);
        }
        let (source_address, rest) = read_u16_be(buf)?;
        let (activation_type, rest) = read_u8(rest)?;
        let (reserved, rest) = read_array::<4>(rest)?;
        let (reserved_vehicle_manufacturer, rest2) = read_optional_array::<4>(rest);
        proof {
            assert(rest@ =~= buf@.skip(7));
            assert(reserved@ =~= buf@.subrange(3, 7));
            if buf@.len() >= 11 {
                assert(rest@.take(4) =~= buf@.subrange(7, 11));
                assert(rest@.skip(4) =~= buf@.skip(11));
            }
        }
        Ok(
            (
                RoutingActivationRequest {
                    source_address: LogicalAddress(source_address),
                    activation_type: ActivationTypeCode::from(activation_type),
                    reserved,
                    reserved_vehicle_manufacturer,
                },
                rest2,
            ),
        )
    }

    /// Decode a request that must fill `buf` exactly.
    pub fn decode_exact(buf: &[u8]) -> (r: Result<RoutingActivationRequest, MessageError>)
        ensures
            match r {
                Ok(v) => spec_exact(RoutingActivationRequestModel::spec_decode(buf@)) == Ok::<_, MessageError>(v@),
                Err(e) => spec_exact(RoutingActivationRequestModel::spec_decode(buf@)) == Err::<RoutingActivationRequestModel, _>(e),
            },
    {
        let (value, rest) = RoutingActivationRequest::decode(buf)?;
        if rest.len() == 0 {
            Ok(value)
        } else {
            Err(MessageError::TrailingBytes { count: rest.len() })
        }
    }

    /// Number of bytes `encode` writes: 7, or 11 with the tail.
    pub fn encoded_size(&self) -> (r: Result<usize, MessageError>)
        ensures
            r == Ok::<_, MessageError>(self@.spec_encode().len() as usize),
    {
        if self.reserved_vehicle_manufacturer.is_some() {
            Ok(11)
        } else {
            Ok(7)
        }
    }

    /// Append the request's wire bytes to `out`, returning the number written.
    pub fn encode(&self, out: &mut Vec<u8>) -> (r: Result<usize, MessageError>)
        requires
            old(out)@.len() + self@.spec_encode().len() <= max_buffer_len(),
        ensures
            final(out)@ == old(out)@ + self@.spec_encode(),
            r == Ok::<_, MessageError>(self@.spec_encode().len() as usize),
    {
        let ghost start = out@;
        write_u16_be(out, self.source_address.0);
        write_u8(out, u8::from(self.activation_type));
        write_all(out, self.reserved.as_slice());
        match self.reserved_vehicle_manufacturer {
            Some(tail) => {
                write_all(out, tail.as_slice());
                assert(out@ =~= start + self@.spec_encode());
                Ok(11)
            },
            None => {
                assert(out@ =~= start + self@.spec_encode());
                Ok(7)
            },
        }
    }

    /// Write the request's wire bytes into `out` at position `at`, returning the
    /// number written.
    pub(crate) fn write_at(&self, out: &mut [u8], at: usize) -> (n: usize)
        requires
            at + self@.spec_encode().len() <= old(out)@.len(),
        ensures
            final(out)@ == splice(old(out)@, at as int, self@.spec_encode()),
            n == self@.spec_encode().len(),
    {
        let ghost start = out@;
        assert(out@.len() == out.len());
        put_u16_be(out, at, self.source_address.0);
        put_u8(out, at + 2, u8::from(self.activation_type));
        put_all(out, at + 3, self.reserved.as_slice());
        match self.reserved_vehicle_manufacturer {
            Some(tail) => {
                put_all(out, at + 7, tail.as_slice());
                assert(out@ =~= splice(start, at as int, self@.spec_encode()));
                11
            },
            None => {
                assert(out@ =~= splice(start, at as int, self@.spec_encode()));
                7
            },
        }
    }
}

/// A canonical request survives encoding, and a decoded one is canonical and
/// re-encodes to the bytes it was decoded from.
pub proof fn lemma_routing_activation_request_codec(m: RoutingActivationRequestModel, s: Seq<u8>)
    ensures
        m.is_canonical() ==> RoutingActivationRequestModel::spec_decode(m.spec_encode())
            == Ok::<_, MessageError>((m, Seq::<u8>::empty())),
        RoutingActivationRequestModel::spec_decode(s) matches Ok((d, rest)) ==> d.is_canonical()
            && d.spec_encode() + rest == s,
{
    lemma_be_u16_roundtrip(m.source_address.0);
    let e = m.spec_encode();
    if m.is_canonical() {
        assert(e.subrange(3, 7) =~= m.reserved);
        match m.reserved_vehicle_manufacturer {
            Some(t) => {
                assert(e.subrange(7, 11) =~= t);
                assert(e.skip(11) =~= Seq::<u8>::empty());
            },
            None => {
                assert(e.skip(7) =~= Seq::<u8>::empty());
            },
        }
    }
    if s.len() >= 7 {
        lemma_be_u16_bytes_roundtrip(s[0], s[1]);
        lemma_activation_type_code_byte_roundtrip(s[2]);
        let (d, rest) = RoutingActivationRequestModel::spec_decode(s)->Ok_0;
        assert(d.spec_encode() + rest =~= s);
    }
}

/// Each routing activation type has the wire byte ISO 13400-2 assigns it: 0x00 default,
/// 0x01 WWH-OBD (regulation required), 0xE0 central security, 0xE1-0xFF
/// manufacturer-specific, 0x02-0xDF reserved, and a named type encodes to its byte.
pub proof fn lemma_activation_type_wire_values(b: u8)
    ensures
        (ActivationTypeCode::spec_from_u8(b) == ActivationTypeCode::Default) == (b == 0x00),
        (ActivationTypeCode::spec_from_u8(b) == ActivationTypeCode::RegulationRequired) == (b == 0x01),
        (ActivationTypeCode::spec_from_u8(b) == ActivationTypeCode::CentralSecurity) == (b == 0xE0),
        (ActivationTypeCode::spec_from_u8(b) == ActivationTypeCode::VehicleManufacturerSpecific(b)) == (b >= 0xE1),
        (ActivationTypeCode::spec_from_u8(b) == ActivationTypeCode::Reserved(b)) == (0x02 <= b <= 0xDF),
        ActivationTypeCode::Default.spec_to_u8() == 0x00,
        ActivationTypeCode::RegulationRequired.spec_to_u8() == 0x01,
        ActivationTypeCode::CentralSecurity.spec_to_u8() == 0xE0,
{
}

} // verus!

//! The 8-byte DoIP generic header: protocol version, its inverse, payload type
//! and payload length.
use vstd::prelude::*;

use super::message_error::MessageError;
use crate::wire::{
    be_u16, be_u16_bytes, be_u32, be_u32_bytes, layout_incomplete, lemma_be_u16_bytes_roundtrip,
    lemma_be_u16_roundtrip, lemma_be_u32_bytes_roundtrip, lemma_be_u32_roundtrip, max_buffer_len,
    put_u16_be, put_u32_be, put_u8, read_u16_be, read_u32_be, read_u8, splice, write_u16_be,
    write_u32_be, write_u8,
};

verus! {

/// DoIP protocol version.
#[derive(Clone, Copy, Debug, PartialEq, Eq, Structural)]
pub enum ProtocolVersion {
    /// Reserved (0x00).
    Reserved,
    /// ISO 13400-2:2010 (0x01).
    V2010,
    /// ISO 13400-2:2012 (0x02).
    V2012,
    /// ISO 13400-2:2019 (0x03).
    V2019,
    /// Reserved for future versions (0x04-0xFE).
    ReservedFuture(u8),
    /// Default value used by vehicle identification requests (0xFF).
    VehicleIdentificationRequest,
}

impl ProtocolVersion {
    /// The version a wire byte denotes.
    pub open spec fn spec_from_u8(value: u8) -> ProtocolVersion {
        if value == 0x00 {
            ProtocolVersion::Reserved
        } else if value == 0x01 {
            ProtocolVersion::V2010
        } else if value == 0x02 {
            ProtocolVersion::V2012
        } else if value == 0x03 {
            ProtocolVersion::V2019
        } else if value == 0xFF {
            ProtocolVersion::VehicleIdentificationRequest
        } else {
            ProtocolVersion::ReservedFuture(value)
        }
    }

    /// The wire byte of a version.
    pub open spec fn spec_to_u8(self) -> u8 {
        match self {
            ProtocolVersion::Reserved => 0x00,
            ProtocolVersion::V2010 => 0x01,
            ProtocolVersion::V2012 => 0x02,
            ProtocolVersion::V2019 => 0x03,
            ProtocolVersion::ReservedFuture(value) => value,
            ProtocolVersion::VehicleIdentificationRequest => 0xFF,
        }
    }

    /// The inverse byte that must follow this version in a header.
    pub open spec fn spec_inverse(self) -> u8 {
        match self {
            ProtocolVersion::Reserved => 0xFF,
            ProtocolVersion::V2010 => 0xFE,
            ProtocolVersion::V2012 => 0xFD,
            ProtocolVersion::V2019 => 0xFC,
            ProtocolVersion::ReservedFuture(value) => (255 - value) as u8,
            ProtocolVersion::VehicleIdentificationRequest => 0x00,
        }
    }

    /// A value that is what its own wire byte decodes to.
    pub open spec fn is_canonical(self) -> bool {
        Self::spec_from_u8(self.spec_to_u8()) == self
    }

    /// Returns the expected inverse value of the protocol version.
    pub fn inverse(&self) -> (inverse: u8)
        ensures
            inverse == self.spec_inverse(),
    {
        match self {
            ProtocolVersion::Reserved => 0xFF,
            ProtocolVersion::V2010 => 0xFE,
            ProtocolVersion::V2012 => 0xFD,
            ProtocolVersion::V2019 => 0xFC,
            ProtocolVersion::ReservedFuture(value) => 0xFF - *value,
            ProtocolVersion::VehicleIdentificationRequest => 0x00,
        }
    }
}

/// Every byte is the wire form of the version it decodes to, that version is
/// canonical, and the inverse of any version is the complement of its byte.
pub proof fn lemma_protocol_version_byte_roundtrip(value: u8, version: ProtocolVersion)
    ensures
        ProtocolVersion::spec_from_u8(value).spec_to_u8() == value,
        ProtocolVersion::spec_from_u8(value).is_canonical(),
        version.spec_inverse() == 255 - version.spec_to_u8(),
{
}

impl From<u8> for ProtocolVersion {
    fn from(value: u8) -> (version: ProtocolVersion)
        ensures
            version == ProtocolVersion::spec_from_u8(value),
    {
        if value == 0x00 {
            ProtocolVersion::Reserved
        } else if value == 0x01 {
            ProtocolVersion::V2010
        } else if value == 0x02 {
            ProtocolVersion::V2012
        } else if value == 0x03 {
            ProtocolVersion::V2019
        } else if value == 0xFF {
            ProtocolVersion::VehicleIdentificationRequest
        } else {
            ProtocolVersion::ReservedFuture(value)
        }
    }
}

impl vstd::std_specs::convert::FromSpecImpl<u8> for ProtocolVersion {
    open spec fn obeys_from_spec() -> bool {
        true
    }

    open spec fn from_spec(v: u8) -> ProtocolVersion {
        ProtocolVersion::spec_from_u8(v)
    }
}

impl From<ProtocolVersion> for u8 {
    fn from(value: ProtocolVersion) -> (byte: u8)
        ensures
            byte == value.spec_to_u8(),
    {
        match value {
            ProtocolVersion::Reserved => 0x00,
            ProtocolVersion::V2010 => 0x01,
            ProtocolVersion::V2012 => 0x02,
            ProtocolVersion::V2019 => 0x03,
            ProtocolVersion::ReservedFuture(value) => value,
            ProtocolVersion::VehicleIdentificationRequest => 0xFF,
        }
    }
}

impl vstd::std_specs::convert::FromSpecImpl<ProtocolVersion> for u8 {
    open spec fn obeys_from_spec() -> bool {
        true
    }

    open spec fn from_spec(v: ProtocolVersion) -> u8 {
        v.spec_to_u8()
    }
}

/// DoIP payload type.
#[derive(Clone, Copy, Debug, PartialEq, Eq, Structural)]
pub enum PayloadType {
    /// Generic DoIP header negative acknowledge (0x0000).
    NegativeAcknowledge,
    /// Vehicle identification request (0x0001).
    VehicleIdentificationRequest,
    /// Vehicle identification request with entity ID (0x0002).
    VehicleIdentificationRequestWithEID,
    /// Vehicle identification request with VIN (0x0003).
    VehicleIdentificationRequestWithVIN,
    /// Vehicle announcement / identification response (0x0004).
    VehicleAnnouncement,
    /// Routing activation request (0x0005).
    RoutingActivationRequest,
    /// Routing activation response (0x0006).
    RoutingActivationResponse,
    /// Alive check request (0x0007).
    AliveCheckRequest,
    /// Alive check response (0x0008).
    AliveCheckResponse,
    /// Entity status request (0x4001).
    DoIPEntityStatusRequest,
    /// Entity status response (0x4002).
    DoIPEntityStatusResponse,
    /// Diagnostic power mode information request (0x4003).
    DiagnosticPowerModeInfoRequest,
    /// Diagnostic power mode information response (0x4004).
    DiagnosticPowerModeInfoResponse,
    /// Diagnostic message (0x8001).
    DiagnosticMessage,
    /// Diagnostic message positive acknowledge (0x8002).
    DiagnosticMessagePositiveAcknowledge,
    /// Diagnostic message negative acknowledge (0x8003).
    DiagnosticMessageNegativeAcknowledge,
    /// Reserved by the standard.
    Reserved(u16),
    /// Reserved for the vehicle manufacturer (0xF000-0xFFFF).
    ReservedVehicleManufacturer(u16),
}

impl PayloadType {
    /// The payload type a wire value denotes.
    pub open spec fn spec_from_u16(value: u16) -> PayloadType {
        if value == 0x0000 {
            PayloadType::NegativeAcknowledge
        } else if value == 0x0001 {
            PayloadType::VehicleIdentificationRequest
        } else if value == 0x0002 {
            PayloadType::VehicleIdentificationRequestWithEID
        } else if value == 0x0003 {
            PayloadType::VehicleIdentificationRequestWithVIN
        } else if value == 0x0004 {
            PayloadType::VehicleAnnouncement
        } else if value == 0x0005 {
            PayloadType::RoutingActivationRequest
        } else if value == 0x0006 {
            PayloadType::RoutingActivationResponse
        } else if value == 0x0007 {
            PayloadType::AliveCheckRequest
        } else if value == 0x0008 {
            PayloadType::AliveCheckResponse
        } else if value == 0x4001 {
            PayloadType::DoIPEntityStatusRequest
        } else if value == 0x4002 {
            PayloadType::DoIPEntityStatusResponse
        } else if value == 0x4003 {
            PayloadType::DiagnosticPowerModeInfoRequest
        } else if value == 0x4004 {
            PayloadType::DiagnosticPowerModeInfoResponse
        } else if value == 0x8001 {
            PayloadType::DiagnosticMessage
        } else if value == 0x8002 {
            PayloadType::DiagnosticMessagePositiveAcknowledge
        } else if value == 0x8003 {
            PayloadType::DiagnosticMessageNegativeAcknowledge
        } else if value >= 0xF000 {
            PayloadType::ReservedVehicleManufacturer(value)
        } else {
            PayloadType::Reserved(value)
        }
    }

    /// The wire value of a payload type.
    pub open spec fn spec_to_u16(self) -> u16 {
        match self {
            PayloadType::NegativeAcknowledge => 0x0000,
            PayloadType::VehicleIdentificationRequest => 0x0001,
            PayloadType::VehicleIdentificationRequestWithEID => 0x0002,
            PayloadType::VehicleIdentificationRequestWithVIN => 0x0003,
            PayloadType::VehicleAnnouncement => 0x0004,
            PayloadType::RoutingActivationRequest => 0x0005,
            PayloadType::RoutingActivationResponse => 0x0006,
            PayloadType::AliveCheckRequest => 0x0007,
            PayloadType::AliveCheckResponse => 0x0008,
            PayloadType::DoIPEntityStatusRequest => 0x4001,
            PayloadType::DoIPEntityStatusResponse => 0x4002,
            PayloadType::DiagnosticPowerModeInfoRequest => 0x4003,
            PayloadType::DiagnosticPowerModeInfoResponse => 0x4004,
            PayloadType::DiagnosticMessage => 0x8001,
            PayloadType::DiagnosticMessagePositiveAcknowledge => 0x8002,
            PayloadType::DiagnosticMessageNegativeAcknowledge => 0x8003,
            PayloadType::Reserved(value) => value,
            PayloadType::ReservedVehicleManufacturer(value) => value,
        }
    }

    /// A value that is what its own wire value decodes to.
    pub open spec fn is_canonical(self) -> bool {
        Self::spec_from_u16(self.spec_to_u16()) == self
    }
}

/// Every 16-bit value is the wire form of the payload type it decodes to, and
/// that payload type is canonical.
pub proof fn lemma_payload_type_roundtrip(value: u16)
    ensures
        PayloadType::spec_from_u16(value).spec_to_u16() == value,
        PayloadType::spec_from_u16(value).is_canonical(),
{
}

impl From<u16> for PayloadType {
    fn from(value: u16) -> (payload_type: PayloadType)
        ensures
            payload_type == PayloadType::spec_from_u16(value),
    {
        if value == 0x0000 {
            PayloadType::NegativeAcknowledge
        } else if value == 0x0001 {
            PayloadType::VehicleIdentificationRequest
        } else if value == 0x0002 {
            PayloadType::VehicleIdentificationRequestWithEID
        } else if value == 0x0003 {
            PayloadType::VehicleIdentificationRequestWithVIN
        } else if value == 0x0004 {
            PayloadType::VehicleAnnouncement
        } else if value == 0x0005 {
            PayloadType::RoutingActivationRequest
        } else if value == 0x0006 {
            PayloadType::RoutingActivationResponse
        } else if value == 0x0007 {
            PayloadType::AliveCheckRequest
        } else if value == 0x0008 {
            PayloadType::AliveCheckResponse
        } else if value == 0x4001 {
            PayloadType::DoIPEntityStatusRequest
        } else if value == 0x4002 {
            PayloadType::DoIPEntityStatusResponse
        } else if value == 0x4003 {
            PayloadType::DiagnosticPowerModeInfoRequest
        } else if value == 0x4004 {
            PayloadType::DiagnosticPowerModeInfoResponse
        } else if value == 0x8001 {
            PayloadType::DiagnosticMessage
        } else if value == 0x8002 {
            PayloadType::DiagnosticMessagePositiveAcknowledge
        } else if value == 0x8003 {
            PayloadType::DiagnosticMessageNegativeAcknowledge
        } else if value >= 0xF000 {
            PayloadType::ReservedVehicleManufacturer(value)
        } else {
            PayloadType::Reserved(value)
        }
    }
}

impl vstd::std_specs::convert::FromSpecImpl<u16> for PayloadType {
    open spec fn obeys_from_spec() -> bool {
        true
    }

    open spec fn from_spec(v: u16) -> PayloadType {
        PayloadType::spec_from_u16(v)
    }
}

impl From<PayloadType> for u16 {
    fn from(value: PayloadType) -> (wire: u16)
        ensures
            wire == value.spec_to_u16(),
    {
        match value {
            PayloadType::NegativeAcknowledge => 0x0000,
            PayloadType::VehicleIdentificationRequest => 0x0001,
            PayloadType::VehicleIdentificationRequestWithEID => 0x0002,
            PayloadType::VehicleIdentificationRequestWithVIN => 0x0003,
            PayloadType::VehicleAnnouncement => 0x0004,
            PayloadType::RoutingActivationRequest => 0x0005,
            PayloadType::RoutingActivationResponse => 0x0006,
            PayloadType::AliveCheckRequest => 0x0007,
            PayloadType::AliveCheckResponse => 0x0008,
            PayloadType::DoIPEntityStatusRequest => 0x4001,
            PayloadType::DoIPEntityStatusResponse => 0x4002,
            PayloadType::DiagnosticPowerModeInfoRequest => 0x4003,
            PayloadType::DiagnosticPowerModeInfoResponse => 0x4004,
            PayloadType::DiagnosticMessage => 0x8001,
            PayloadType::DiagnosticMessagePositiveAcknowledge => 0x8002,
            PayloadType::DiagnosticMessageNegativeAcknowledge => 0x8003,
            PayloadType::Reserved(value) => value,
            PayloadType::ReservedVehicleManufacturer(value) => value,
        }
    }
}

impl vstd::std_specs::convert::FromSpecImpl<PayloadType> for u16 {
    open spec fn obeys_from_spec() -> bool {
        true
    }

    open spec fn from_spec(v: PayloadType) -> u16 {
        v.spec_to_u16()
    }
}

/// The DoIP generic header.
///
/// Eight bytes on the wire: protocol version (1), inverse protocol version (1),
/// payload type (2, big-endian), payload length (4, big-endian).
#[derive(Clone, Copy, Debug, PartialEq, Eq, Structural)]
pub struct Header {
    /// Protocol version.
    pub protocol_version: ProtocolVersion,
    /// Bitwise inverse of `protocol_version`, used to validate frame sync.
    pub inverse_protocol_version: u8,
    /// Payload type.
    pub payload_type: PayloadType,
    /// Length of the payload, not counting the header.
    pub payload_length: u32,
}

/// Field widths of the header, in wire order.
pub open spec fn header_layout() -> Seq<int> {
    seq![1int, 1, 2, 4]
}

impl Header {
    /// Size of the header on the wire.
    pub const SIZE: usize = 8;

    /// The header the first eight bytes of `s` spell out.
    pub open spec fn spec_from_bytes(s: Seq<u8>) -> Header
        recommends
            s.len() >= 8,
    {
        Header {
            protocol_version: ProtocolVersion::spec_from_u8(s[0]),
            inverse_protocol_version: s[1],
            payload_type: PayloadType::spec_from_u16(be_u16(s[2], s[3])),
            payload_length: be_u32(s[4], s[5], s[6], s[7]),
        }
    }

    /// The header's wire bytes.
    pub open spec fn spec_encode(self) -> Seq<u8> {
        seq![self.protocol_version.spec_to_u8(), self.inverse_protocol_version] + be_u16_bytes(
            self.payload_type.spec_to_u16(),
        ) + be_u32_bytes(self.payload_length)
    }

    /// Decoding a header from the front of `s`: the header and the bytes after it,
    /// or why it failed.
    pub open spec fn spec_decode(s: Seq<u8>) -> Result<(Header, Seq<u8>), MessageError> {
        if s.len() < 8 {
            Err(layout_incomplete(header_layout(), s.len() as int))
        } else {
            let h = Header::spec_from_bytes(s);
            if h.inverse_protocol_version != h.protocol_version.spec_inverse() {
                Err(
                    MessageError::VersionInverseIncorrect {
                        expected: h.protocol_version.spec_inverse(),
                        value: h.inverse_protocol_version,
                    },
                )
            } else {
                Ok((h, s.skip(8)))
            }
        }
    }

    /// The header `new` builds.
    pub open spec fn spec_new(
        protocol_version: ProtocolVersion,
        payload_type: PayloadType,
        payload_length: u32,
    ) -> Header {
        Header {
            protocol_version,
            inverse_protocol_version: protocol_version.spec_inverse(),
            payload_type,
            payload_length,
        }
    }

    /// A header whose fields are what its own bytes decode to.
    pub open spec fn is_canonical(self) -> bool {
        &&& self.protocol_version.is_canonical()
        &&& self.payload_type.is_canonical()
        &&& self.inverse_protocol_version == self.protocol_version.spec_inverse()
    }

    /// Create a new header; the inverse protocol version is derived from `protocol_version`.
    pub fn new(protocol_version: ProtocolVersion, payload_type: PayloadType, payload_length: u32) -> (header: Header)
        ensures
            header == Header::spec_new(protocol_version, payload_type, payload_length),
    {
        let inverse_protocol_version = protocol_version.inverse();
        Header { protocol_version, inverse_protocol_version, payload_type, payload_length }
    }

    /// Check that the inverse protocol version matches the protocol version.
    pub(crate) fn version_inverse_correct(&self) -> (r: Result<(), MessageError>)
        ensures
            r is Ok <==> self.inverse_protocol_version == self.protocol_version.spec_inverse(),
            r matches Err(e) ==> e == (MessageError::VersionInverseIncorrect {
                expected: self.protocol_version.spec_inverse(),
                value: self.inverse_protocol_version,
            }),
    {
        let expected = self.protocol_version.inverse();
        if expected == self.inverse_protocol_version {
            Ok(())
        } else {
            Err(MessageError::VersionInverseIncorrect { expected, value: self.inverse_protocol_version })
        }
    }

    /// Decode a header from the front of `buf`, returning it and the bytes after it.
    pub fn decode(buf: &[u8]) -> (r: Result<(Header, &[u8]), MessageError>)
        ensures
            match r {
                Ok((h, rest)) => Header::spec_decode(buf@) == Ok::<_, MessageError>((h, rest@)),
                Err(e) => Header::spec_decode(buf@) == Err::<(Header, Seq<u8>), _>(e),
            },
            r is Ok ==> buf@.len() <= max_buffer_len(),
    {
        proof {
            reveal_with_fuel(layout_incomplete, 5);
        }
        let (version, rest) = read_u8(buf)?;
        let (inverse_protocol_version, rest) = read_u8(rest)?;
        let (payload_type, rest) = read_u16_be(rest)?;
        let (payload_length, rest) = read_u32_be(rest)?;
        let header = Header {
            protocol_version: ProtocolVersion::from(version),
            inverse_protocol_version,
            payload_type: PayloadType::from(payload_type),
            payload_length,
        };
        header.version_inverse_correct()?;
        proof {
            assert(buf@.skip(1).skip(1).skip(2).skip(4) =~= buf@.skip(8));
        }
        Ok((header, rest))
    }

    /// Decode a header that must fill `buf` exactly.
    pub fn decode_exact(buf: &[u8]) -> (r: Result<Header, MessageError>)
        ensures
            match Header::spec_decode(buf@) {
                Ok((h, rest)) => if rest.len() == 0 {
                    r == Ok::<_, MessageError>(h)
                } else {
                    r == Err::<Header, _>(MessageError::TrailingBytes { count: rest.len() as usize })
                },
                Err(e) => r == Err::<Header, _>(e),
            },
    {
        let (header, rest) = Header::decode(buf)?;
        if rest.len() == 0 {
            Ok(header)
        } else {
            Err(MessageError::TrailingBytes { count: rest.len() })
        }
    }

    /// Number of bytes `encode` writes.
    pub fn encoded_size(&self) -> (r: Result<usize, MessageError>)
        ensures
            r == Ok::<_, MessageError>(Header::SIZE),
    {
        Ok(Header::SIZE)
    }

    /// Append the header's wire bytes to `out`, returning the number written.
    pub fn encode(&self, out: &mut Vec<u8>) -> (r: Result<usize, MessageError>)
        requires
            old(out)@.len() + Header::SIZE <= max_buffer_len(),
        ensures
            final(out)@ == old(out)@ + self.spec_encode(),
            r == Ok::<_, MessageError>(Header::SIZE),
    {
        let ghost start = out@;
        write_u8(out, u8::from(self.protocol_version));
        write_u8(out, self.inverse_protocol_version);
        write_u16_be(out, u16::from(self.payload_type));
        write_u32_be(out, self.payload_length);
        assert(out@ =~= start + self.spec_encode());
        Ok(Header::SIZE)
    }

    /// Write the header's eight wire bytes into `out` at position `at`, returning
    /// the number written.
    pub(crate) fn write_at(&self, out: &mut [u8], at: usize) -> (n: usize)
        requires
            at + Header::SIZE <= old(out)@.len(),
        ensures
            final(out)@ == splice(old(out)@, at as int, self.spec_encode()),
            n == Header::SIZE,
    {
        let ghost start = out@;
        assert(out@.len() == out.len());
        put_u8(out, at, u8::from(self.protocol_version));
        put_u8(out, at + 1, self.inverse_protocol_version);
        put_u16_be(out, at + 2, u16::from(self.payload_type));
        put_u32_be(out, at + 4, self.payload_length);
        assert(out@ =~= splice(start, at as int, self.spec_encode()));
        Header::SIZE
    }
}

/// A canonical header survives encoding: decoding its eight bytes, followed by
/// anything, gives the header back and leaves the rest.
pub proof fn lemma_header_roundtrip(h: Header, rest: Seq<u8>)
    requires
        h.is_canonical(),
    ensures
        h.spec_encode().len() == Header::SIZE,
        Header::spec_decode(h.spec_encode() + rest) == Ok::<_, MessageError>((h, rest)),
{
    let s = h.spec_encode() + rest;
    lemma_be_u16_roundtrip(h.payload_type.spec_to_u16());
    lemma_be_u32_roundtrip(h.payload_length);
    assert(s.skip(8) =~= rest);
    assert(Header::spec_from_bytes(s) == h);
}

/// A decoded header is canonical, and encoding it gives back the eight bytes it
/// was decoded from.
pub proof fn lemma_decoded_header_reencodes(s: Seq<u8>)
    requires
        Header::spec_decode(s) is Ok,
    ensures
        ({
            let (h, rest) = Header::spec_decode(s)->Ok_0;
            &&& h.is_canonical()
            &&& h.spec_encode() == s.take(8)
            &&& rest == s.skip(8)
        }),
{
    let h = Header::spec_from_bytes(s);
    lemma_protocol_version_byte_roundtrip(s[0], h.protocol_version);
    lemma_payload_type_roundtrip(be_u16(s[2], s[3]));
    lemma_be_u16_bytes_roundtrip(s[2], s[3]);
    lemma_be_u32_bytes_roundtrip(s[4], s[5], s[6], s[7]);
    assert(h.spec_encode() =~= s.take(8));
}

/// Each protocol version has the wire byte ISO 13400-2 assigns it: 0x01 for 2010, 0x02 for
/// 2012, 0x03 for 2019, 0xFF for vehicle identification requests, 0x00 reserved, 0x04-0xFE
/// reserved for future versions, and a named version encodes to its byte.
pub proof fn lemma_protocol_version_wire_values(b: u8)
    ensures
        (ProtocolVersion::spec_from_u8(b) == ProtocolVersion::Reserved) == (b == 0x00),
        (ProtocolVersion::spec_from_u8(b) == ProtocolVersion::V2010) == (b == 0x01),
        (ProtocolVersion::spec_from_u8(b) == ProtocolVersion::V2012) == (b == 0x02),
        (ProtocolVersion::spec_from_u8(b) == ProtocolVersion::V2019) == (b == 0x03),
        (ProtocolVersion::spec_from_u8(b) == ProtocolVersion::VehicleIdentificationRequest) == (b == 0xFF),
        (ProtocolVersion::spec_from_u8(b) == ProtocolVersion::ReservedFuture(b)) == (0x04 <= b <= 0xFE),
        ProtocolVersion::Reserved.spec_to_u8() == 0x00,
        ProtocolVersion::V2010.spec_to_u8() == 0x01,
        ProtocolVersion::V2012.spec_to_u8() == 0x02,
        ProtocolVersion::V2019.spec_to_u8() == 0x03,
        ProtocolVersion::VehicleIdentificationRequest.spec_to_u8() == 0xFF,
{
}

/// The inverse byte a version expects is the bitwise complement of its own wire byte.
pub proof fn lemma_protocol_version_inverse_is_complement(b: u8)
    ensures
        ProtocolVersion::spec_from_u8(b).spec_inverse() == 255 - b,
{
}

/// Each payload type has the wire value ISO 13400-2 assigns it: a value decodes to a named
/// type exactly when it is that type's value, 0xF000-0xFFFF are manufacturer-reserved,
/// every other value is reserved, and a named type encodes to its value.
pub proof fn lemma_payload_type_wire_values(b: u16)
    ensures
        (PayloadType::spec_from_u16(b) == PayloadType::NegativeAcknowledge) == (b == 0x0000),
        (PayloadType::spec_from_u16(b) == PayloadType::VehicleIdentificationRequest) == (b == 0x0001),
        (PayloadType::spec_from_u16(b) == PayloadType::VehicleIdentificationRequestWithEID) == (b == 0x0002),
        (PayloadType::spec_from_u16(b) == PayloadType::VehicleIdentificationRequestWithVIN) == (b == 0x0003),
        (PayloadType::spec_from_u16(b) == PayloadType::VehicleAnnouncement) == (b == 0x0004),
        (PayloadType::spec_from_u16(b) == PayloadType::RoutingActivationRequest) == (b == 0x0005),
        (PayloadType::spec_from_u16(b) == PayloadType::RoutingActivationResponse) == (b == 0x0006),
        (PayloadType::spec_from_u16(b) == PayloadType::AliveCheckRequest) == (b == 0x0007),
        (PayloadType::spec_from_u16(b) == PayloadType::AliveCheckResponse) == (b == 0x0008),
        (PayloadType::spec_from_u16(b) == PayloadType::DoIPEntityStatusRequest) == (b == 0x4001),
        (PayloadType::spec_from_u16(b) == PayloadType::DoIPEntityStatusResponse) == (b == 0x4002),
        (PayloadType::spec_from_u16(b) == PayloadType::DiagnosticPowerModeInfoRequest) == (b == 0x4003),
        (PayloadType::spec_from_u16(b) == PayloadType::DiagnosticPowerModeInfoResponse) == (b == 0x4004),
        (PayloadType::spec_from_u16(b) == PayloadType::DiagnosticMessage) == (b == 0x8001),
        (PayloadType::spec_from_u16(b) == PayloadType::DiagnosticMessagePositiveAcknowledge) == (b == 0x8002),
        (PayloadType::spec_from_u16(b) == PayloadType::DiagnosticMessageNegativeAcknowledge) == (b == 0x8003),
        (PayloadType::spec_from_u16(b) == PayloadType::ReservedVehicleManufacturer(b)) == (b >= 0xF000),
        (PayloadType::spec_from_u16(b) == PayloadType::Reserved(b)) == ((0x0009 <= b <= 0x4000) || (0x4005 <= b <= 0x8000) || (0x8004 <= b <= 0xEFFF)),
        PayloadType::NegativeAcknowledge.spec_to_u16() == 0x0000,
        PayloadType::VehicleIdentificationRequest.spec_to_u16() == 0x0001,
        PayloadType::VehicleIdentificationRequestWithEID.spec_to_u16() == 0x0002,
        PayloadType::VehicleIdentificationRequestWithVIN.spec_to_u16() == 0x0003,
        PayloadType::VehicleAnnouncement.spec_to_u16() == 0x0004,
        PayloadType::RoutingActivationRequest.spec_to_u16() == 0x0005,
        PayloadType::RoutingActivationResponse.spec_to_u16() == 0x0006,
        PayloadType::AliveCheckRequest.spec_to_u16() == 0x0007,
        PayloadType::AliveCheckResponse.spec_to_u16() == 0x0008,
        PayloadType::DoIPEntityStatusRequest.spec_to_u16() == 0x4001,
        PayloadType::DoIPEntityStatusResponse.spec_to_u16() == 0x4002,
        PayloadType::DiagnosticPowerModeInfoRequest.spec_to_u16() == 0x4003,
        PayloadType::DiagnosticPowerModeInfoResponse.spec_to_u16() == 0x4004,
        PayloadType::DiagnosticMessage.spec_to_u16() == 0x8001,
        PayloadType::DiagnosticMessagePositiveAcknowledge.spec_to_u16() == 0x8002,
        PayloadType::DiagnosticMessageNegativeAcknowledge.spec_to_u16() == 0x8003,
{
}

} // verus!

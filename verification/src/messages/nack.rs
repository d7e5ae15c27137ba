//! Generic DoIP header negative acknowledge codes.
use vstd::prelude::*;

use super::message_error::MessageError;
use crate::wire::{incomplete, max_buffer_len, put_u8, read_u8, splice, write_u8};

verus! {

/// Generic header negative acknowledge code: why a message was rejected.
#[derive(Clone, Copy, Debug, PartialEq, Eq, Structural)]
pub enum NackCode {
    /// Protocol or inverse protocol version mismatch; the entity closes the socket.
    IncorrectPatternFormat,
    /// Payload type not supported; the message is discarded.
    UnknownPayloadType,
    /// Payload length exceeds the entity's maximum data size; the message is discarded.
    MessageTooLarge,
    /// Payload length exceeds the currently available memory; the message is discarded.
    OutOfMemory,
    /// Payload length does not match the payload type; the entity closes the socket.
    InvalidPayloadLength,
    /// Reserved code (0x05-0xFF).
    Reserved(u8),
}

impl NackCode {
    /// The code a wire byte denotes.
    pub open spec fn spec_from_u8(value: u8) -> NackCode {
        if value == 0x00 {
            NackCode::IncorrectPatternFormat
        } else if value == 0x01 {
            NackCode::UnknownPayloadType
        } else if value == 0x02 {
            NackCode::MessageTooLarge
        } else if value == 0x03 {
            NackCode::OutOfMemory
        } else if value == 0x04 {
            NackCode::InvalidPayloadLength
        } else {
            NackCode::Reserved(value)
        }
    }

    /// The wire byte of a code.
    pub open spec fn spec_to_u8(self) -> u8 {
        match self {
            NackCode::IncorrectPatternFormat => 0x00,
            NackCode::UnknownPayloadType => 0x01,
            NackCode::MessageTooLarge => 0x02,
            NackCode::OutOfMemory => 0x03,
            NackCode::InvalidPayloadLength => 0x04,
            NackCode::Reserved(value) => value,
        }
    }

    /// A value that is what its own wire byte decodes to.
    pub open spec fn is_canonical(self) -> bool {
        Self::spec_from_u8(self.spec_to_u8()) == self
    }

}

impl From<u8> for NackCode {
    fn from(value: u8) -> (code: NackCode)
        ensures
            code == NackCode::spec_from_u8(value),
    {
        if value == 0x00 {
            NackCode::IncorrectPatternFormat
        } else if value == 0x01 {
            NackCode::UnknownPayloadType
        } else if value == 0x02 {
            NackCode::MessageTooLarge
        } else if value == 0x03 {
            NackCode::OutOfMemory
        } else if value == 0x04 {
            NackCode::InvalidPayloadLength
        } else {
            NackCode::Reserved(value)
        }
    }
}

impl vstd::std_specs::convert::FromSpecImpl<u8> for NackCode {
    open spec fn obeys_from_spec() -> bool {
        true
    }

    open spec fn from_spec(v: u8) -> NackCode {
        NackCode::spec_from_u8(v)
    }
}

impl From<NackCode> for u8 {
    fn from(value: NackCode) -> (byte: u8)
        ensures
            byte == value.spec_to_u8(),
    {
        match value {
            NackCode::IncorrectPatternFormat => 0x00,
            NackCode::UnknownPayloadType => 0x01,
            NackCode::MessageTooLarge => 0x02,
            NackCode::OutOfMemory => 0x03,
            NackCode::InvalidPayloadLength => 0x04,
            NackCode::Reserved(value) => value,
        }
    }
}

impl vstd::std_specs::convert::FromSpecImpl<NackCode> for u8 {
    open spec fn obeys_from_spec() -> bool {
        true
    }

    open spec fn from_spec(v: NackCode) -> u8 {
        v.spec_to_u8()
    }
}

/// Every byte is the wire form of the code it decodes to, and that code is canonical.
pub proof fn lemma_nack_code_byte_roundtrip(value: u8)
    ensures
        NackCode::spec_from_u8(value).spec_to_u8() == value,
        NackCode::spec_from_u8(value).is_canonical(),
{
}

impl NackCode {
    /// Decoding a one-byte code from the front of `s`.
    pub open spec fn spec_decode(s: Seq<u8>) -> Result<(NackCode, Seq<u8>), MessageError> {
        if s.len() < 1 {
            Err(incomplete(1, s.len() as int))
        } else {
            Ok((NackCode::spec_from_u8(s[0]), s.skip(1)))
        }
    }

    /// The code's wire bytes.
    pub open spec fn spec_encode(self) -> Seq<u8> {
        seq![self.spec_to_u8()]
    }

    /// Decode a one-byte code from the front of `buf`, returning it and the bytes after it.
    pub fn decode(buf: &[u8]) -> (r: Result<(NackCode, &[u8]), MessageError>)
        ensures
            match r {
                Ok((v, rest)) => NackCode::spec_decode(buf@) == Ok::<_, MessageError>((v, rest@)),
                Err(e) => NackCode::spec_decode(buf@) == Err::<(NackCode, Seq<u8>), _>(e),
            },
    {
        let (value, rest) = read_u8(buf)?;
        Ok((NackCode::from(value), rest))
    }

    /// Number of bytes `encode` writes.
    pub fn encoded_size(&self) -> (r: Result<usize, MessageError>)
        ensures
            r == Ok::<_, MessageError>(self.spec_encode().len() as usize),
    {
        Ok(1)
    }

    /// Append the code's wire byte to `out`, returning the number written.
    pub fn encode(&self, out: &mut Vec<u8>) -> (r: Result<usize, MessageError>)
        requires
            old(out)@.len() + 1 <= max_buffer_len(),
        ensures
            final(out)@ == old(out)@ + self.spec_encode(),
            r == Ok::<_, MessageError>(1usize),
    {
        write_u8(out, u8::from(*self));
        assert(out@ =~= old(out)@ + self.spec_encode());
        Ok(1)
    }

    /// Write the code's wire byte into `out` at position `at`, returning the
    /// number written.
    pub(crate) fn write_at(&self, out: &mut [u8], at: usize) -> (n: usize)
        requires
            at + 1 <= old(out)@.len(),
        ensures
            final(out)@ == splice(old(out)@, at as int, self.spec_encode()),
            n == 1,
    {
        put_u8(out, at, u8::from(*self))
    }
}

/// A canonical code survives encoding, and a decoded code re-encodes to the byte it came from.
pub proof fn lemma_nack_code_codec(code: NackCode, s: Seq<u8>)
    ensures
        code.is_canonical() ==> NackCode::spec_decode(code.spec_encode() + s) == Ok::<_, MessageError>((code, s)),
        NackCode::spec_decode(s) matches Ok((c, rest)) ==> c.is_canonical() && c.spec_encode() == s.take(1) && rest == s.skip(1),
{
    assert((code.spec_encode() + s).skip(1) =~= s);
    assert(s.len() >= 1 ==> seq![s[0]] =~= s.take(1));
}

/// Each generic header negative acknowledge code has the wire byte ISO 13400-2 assigns it:
/// a byte decodes to a named code exactly when it is that code's byte, every byte from
/// 0x05 on is reserved, and a named code encodes to its byte.
pub proof fn lemma_nack_code_wire_values(b: u8)
    ensures
        (NackCode::spec_from_u8(b) == NackCode::IncorrectPatternFormat) == (b == 0x00),
        (NackCode::spec_from_u8(b) == NackCode::UnknownPayloadType) == (b == 0x01),
        (NackCode::spec_from_u8(b) == NackCode::MessageTooLarge) == (b == 0x02),
        (NackCode::spec_from_u8(b) == NackCode::OutOfMemory) == (b == 0x03),
        (NackCode::spec_from_u8(b) == NackCode::InvalidPayloadLength) == (b == 0x04),
        (NackCode::spec_from_u8(b) == NackCode::Reserved(b)) == (b >= 0x05),
        NackCode::IncorrectPatternFormat.spec_to_u8() == 0x00,
        NackCode::UnknownPayloadType.spec_to_u8() == 0x01,
        NackCode::MessageTooLarge.spec_to_u8() == 0x02,
        NackCode::OutOfMemory.spec_to_u8() == 0x03,
        NackCode::InvalidPayloadLength.spec_to_u8() == 0x04,
{
}

} // verus!

//! Diagnostic power mode information.
use vstd::prelude::*;

use super::message_error::MessageError;
use crate::wire::{incomplete, max_buffer_len, put_u8, read_u8, splice, write_u8};

verus! {

/// Whether the vehicle is in diagnostic power mode and ready for reliable diagnostics.
#[derive(Clone, Copy, Debug, PartialEq, Eq, Structural)]
pub enum DiagnosticPowerModeCode {
    /// Not ready for reliable diagnostics.
    NotReady,
    /// Ready for reliable diagnostics.
    Ready,
    /// Power mode information is not supported.
    NotSupported,
    /// Reserved code (0x03-0xFF).
    Reserved(u8),
}

impl DiagnosticPowerModeCode {
    /// The code a wire byte denotes.
    pub open spec fn spec_from_u8(value: u8) -> DiagnosticPowerModeCode {
        if value == 0x00 {
            DiagnosticPowerModeCode::NotReady
        } else if value == 0x01 {
            DiagnosticPowerModeCode::Ready
        } else if value == 0x02 {
            DiagnosticPowerModeCode::NotSupported
        } else {
            DiagnosticPowerModeCode::Reserved(value)
        }
    }

    /// The wire byte of a code.
    pub open spec fn spec_to_u8(self) -> u8 {
        match self {
            DiagnosticPowerModeCode::NotReady => 0x00,
            DiagnosticPowerModeCode::Ready => 0x01,
            DiagnosticPowerModeCode::NotSupported => 0x02,
            DiagnosticPowerModeCode::Reserved(value) => value,
        }
    }

    /// A value that is what its own wire byte decodes to.
    pub open spec fn is_canonical(self) -> bool {
        Self::spec_from_u8(self.spec_to_u8()) == self
    }

}

impl From<u8> for DiagnosticPowerModeCode {
    fn from(value: u8) -> (code: DiagnosticPowerModeCode)
        ensures
            code == DiagnosticPowerModeCode::spec_from_u8(value),
    {
        if value == 0x00 {
            DiagnosticPowerModeCode::NotReady
        } else if value == 0x01 {
            DiagnosticPowerModeCode::Ready
        } else if value == 0x02 {
            DiagnosticPowerModeCode::NotSupported
        } else {
            DiagnosticPowerModeCode::Reserved(value)
        }
    }
}

impl vstd::std_specs::convert::FromSpecImpl<u8> for DiagnosticPowerModeCode {
    open spec fn obeys_from_spec() -> bool {
        true
    }

    open spec fn from_spec(v: u8) -> DiagnosticPowerModeCode {
        DiagnosticPowerModeCode::spec_from_u8(v)
    }
}

impl From<DiagnosticPowerModeCode> for u8 {
    fn from(value: DiagnosticPowerModeCode) -> (byte: u8)
        ensures
            byte == value.spec_to_u8(),
    {
        match value {
            DiagnosticPowerModeCode::NotReady => 0x00,
            DiagnosticPowerModeCode::Ready => 0x01,
            DiagnosticPowerModeCode::NotSupported => 0x02,
            DiagnosticPowerModeCode::Reserved(value) => value,
        }
    }
}

impl vstd::std_specs::convert::FromSpecImpl<DiagnosticPowerModeCode> for u8 {
    open spec fn obeys_from_spec() -> bool {
        true
    }

    open spec fn from_spec(v: DiagnosticPowerModeCode) -> u8 {
        v.spec_to_u8()
    }
}

/// Every byte is the wire form of the code it decodes to, and that code is canonical.
pub proof fn lemma_diagnostic_power_mode_code_byte_roundtrip(value: u8)
    ensures
        DiagnosticPowerModeCode::spec_from_u8(value).spec_to_u8() == value,
        DiagnosticPowerModeCode::spec_from_u8(value).is_canonical(),
{
}

impl DiagnosticPowerModeCode {
    /// Decoding a one-byte code from the front of `s`.
    pub open spec fn spec_decode(s: Seq<u8>) -> Result<(DiagnosticPowerModeCode, Seq<u8>), MessageError> {
        if s.len() < 1 {
            Err(incomplete(1, s.len() as int))
        } else {
            Ok((DiagnosticPowerModeCode::spec_from_u8(s[0]), s.skip(1)))
        }
    }

    /// The code's wire bytes.
    pub open spec fn spec_encode(self) -> Seq<u8> {
        seq![self.spec_to_u8()]
    }

    /// Decode a one-byte code from the front of `buf`, returning it and the bytes after it.
    pub fn decode(buf: &[u8]) -> (r: Result<(DiagnosticPowerModeCode, &[u8]), MessageError>)
        ensures
            match r {
                Ok((v, rest)) => DiagnosticPowerModeCode::spec_decode(buf@) == Ok::<_, MessageError>((v, rest@)),
                Err(e) => DiagnosticPowerModeCode::spec_decode(buf@) == Err::<(DiagnosticPowerModeCode, Seq<u8>), _>(e),
            },
    {
        let (value, rest) = read_u8(buf)?;
        Ok((DiagnosticPowerModeCode::from(value), rest))
    }

    /// Number of bytes `encode` writes.
    pub fn encoded_size(&self) -> (r: Result<usize, MessageError>)
        ensures
            r == Ok::<_, MessageError>(self.spec_encode().len() as usize),
    {
        Ok(1)
    }

    /// Append the code's wire byte to `out`, returning the number written.
    pub fn encode(&self, out: &mut Vec<u8>) -> (r: Result<usize, MessageError>)
        requires
            old(out)@.len() + 1 <= max_buffer_len(),
        ensures
            final(out)@ == old(out)@ + self.spec_encode(),
            r == Ok::<_, MessageError>(1usize),
    {
        write_u8(out, u8::from(*self));
        assert(out@ =~= old(out)@ + self.spec_encode());
        Ok(1)
    }

    /// Write the code's wire byte into `out` at position `at`, returning the
    /// number written.
    pub(crate) fn write_at(&self, out: &mut [u8], at: usize) -> (n: usize)
        requires
            at + 1 <= old(out)@.len(),
        ensures
            final(out)@ == splice(old(out)@, at as int, self.spec_encode()),
            n == 1,
    {
        put_u8(out, at, u8::from(*self))
    }
}

/// A canonical code survives encoding, and a decoded code re-encodes to the byte it came from.
pub proof fn lemma_power_mode_code_codec(code: DiagnosticPowerModeCode, s: Seq<u8>)
    ensures
        code.is_canonical() ==> DiagnosticPowerModeCode::spec_decode(code.spec_encode() + s) == Ok::<_, MessageError>((code, s)),
        DiagnosticPowerModeCode::spec_decode(s) matches Ok((c, rest)) ==> c.is_canonical() && c.spec_encode() == s.take(1) && rest == s.skip(1),
{
    assert((code.spec_encode() + s).skip(1) =~= s);
    assert(s.len() >= 1 ==> seq![s[0]] =~= s.take(1));
}

/// Each diagnostic power mode has the wire byte ISO 13400-2 assigns it: 0x00 not ready,
/// 0x01 ready, 0x02 not supported, every other byte reserved, and a named mode encodes to
/// its byte.
pub proof fn lemma_power_mode_code_wire_values(b: u8)
    ensures
        (DiagnosticPowerModeCode::spec_from_u8(b) == DiagnosticPowerModeCode::NotReady) == (b == 0x00),
        (DiagnosticPowerModeCode::spec_from_u8(b) == DiagnosticPowerModeCode::Ready) == (b == 0x01),
        (DiagnosticPowerModeCode::spec_from_u8(b) == DiagnosticPowerModeCode::NotSupported) == (b == 0x02),
        (DiagnosticPowerModeCode::spec_from_u8(b) == DiagnosticPowerModeCode::Reserved(b)) == (b >= 0x03),
        DiagnosticPowerModeCode::NotReady.spec_to_u8() == 0x00,
        DiagnosticPowerModeCode::Ready.spec_to_u8() == 0x01,
        DiagnosticPowerModeCode::NotSupported.spec_to_u8() == 0x02,
{
}

} // verus!

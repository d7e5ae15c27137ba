//! Alive check response.
use vstd::prelude::*;

use super::message_error::MessageError;
use crate::logical_address::LogicalAddress;
use crate::wire::{
    be_u16, be_u16_bytes, incomplete, lemma_be_u16_bytes_roundtrip, lemma_be_u16_roundtrip,
    max_buffer_len, put_u16_be, read_u16_be, spec_exact, splice, write_u16_be,
};

verus! {

/// Alive check response: the logical address of the entity active on the socket.
#[derive(Clone, Copy, Debug, PartialEq, Eq, Structural)]
pub struct AliveCheckResponse {
    /// Logical address of the client entity active on this `TCP_DATA` socket.
    pub source_address: LogicalAddress,
}

impl AliveCheckResponse {
    /// Decoding an alive check response from the front of `s`.
    pub open spec fn spec_decode(s: Seq<u8>) -> Result<(AliveCheckResponse, Seq<u8>), MessageError> {
        if s.len() < 2 {
            Err(incomplete(2, s.len() as int))
        } else {
            Ok((AliveCheckResponse { source_address: LogicalAddress(be_u16(s[0], s[1])) }, s.skip(2)))
        }
    }

    /// The response's wire bytes.
    pub open spec fn spec_encode(self) -> Seq<u8> {
        be_u16_bytes(self.source_address.0)
    }

    /// Decode from the front of `buf`, returning the response and the bytes after it.
    pub fn decode(buf: &[u8]) -> (r: Result<(AliveCheckResponse, &[u8]), MessageError>)
        ensures
            match r {
                Ok((v, rest)) => AliveCheckResponse::spec_decode(buf@) == Ok::<_, MessageError>((v, rest@)),
                Err(e) => AliveCheckResponse::spec_decode(buf@) == Err::<(AliveCheckResponse, Seq<u8>), _>(e),
            },
    {
        let (source_address, rest) = read_u16_be(buf)?;
        Ok((AliveCheckResponse { source_address: LogicalAddress(source_address) }, rest))
    }

    /// Decode a response that must fill `buf` exactly.
    pub fn decode_exact(buf: &[u8]) -> (r: Result<AliveCheckResponse, MessageError>)
        ensures
            r == spec_exact(AliveCheckResponse::spec_decode(buf@)),
    {
        let (value, rest) = AliveCheckResponse::decode(buf)?;
        if rest.len() == 0 {
            Ok(value)
        } else {
            Err(MessageError::TrailingBytes { count: rest.len() })
        }
    }

    /// Number of bytes `encode` writes.
    pub fn encoded_size(&self) -> (r: Result<usize, MessageError>)
        ensures
            r == Ok::<_, MessageError>(self.spec_encode().len() as usize),
    {
        Ok(2)
    }

    /// Append the response's wire bytes to `out`, returning the number written.
    pub fn encode(&self, out: &mut Vec<u8>) -> (r: Result<usize, MessageError>)
        requires
            old(out)@.len() + 2 <= max_buffer_len(),
        ensures
            final(out)@ == old(out)@ + self.spec_encode(),
            r == Ok::<_, MessageError>(self.spec_encode().len() as usize),
    {
        write_u16_be(out, self.source_address.0);
        Ok(2)
    }

    /// Write the response's wire bytes into `out` at position `at`, returning the
    /// number written.
    pub(crate) fn write_at(&self, out: &mut [u8], at: usize) -> (n: usize)
        requires
            at + 2 <= old(out)@.len(),
        ensures
            final(out)@ == splice(old(out)@, at as int, self.spec_encode()),
            n == self.spec_encode().len(),
    {
        put_u16_be(out, at, self.source_address.0)
    }
}

/// Every alive check response survives encoding, and a decoded one re-encodes to
/// the bytes it came from.
pub proof fn lemma_alive_check_response_codec(v: AliveCheckResponse, s: Seq<u8>)
    ensures
        AliveCheckResponse::spec_decode(v.spec_encode() + s) == Ok::<_, MessageError>((v, s)),
        AliveCheckResponse::spec_decode(s) matches Ok((d, rest)) ==> d.spec_encode() == s.take(2)
            && rest == s.skip(2),
{
    lemma_be_u16_roundtrip(v.source_address.0);
    assert((v.spec_encode() + s).skip(2) =~= s);
    if s.len() >= 2 {
        lemma_be_u16_bytes_roundtrip(s[0], s[1]);
        assert(s.take(2) =~= seq![s[0], s[1]]);
    }
}

} // verus!

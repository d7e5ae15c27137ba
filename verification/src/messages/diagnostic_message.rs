//! Diagnostic message: opaque user data between two logical addresses.
use vstd::prelude::*;

use super::message_error::MessageError;
use crate::logical_address::LogicalAddress;
use crate::wire::{
    be_u16, be_u16_bytes, layout_incomplete, lemma_be_u16_bytes_roundtrip, lemma_be_u16_roundtrip,
    max_buffer_len, put_all, put_u16_be, read_u16_be, spec_exact, splice, write_all, write_u16_be,
};

verus! {

/// A diagnostic message whose user data borrows from the buffer it was decoded from.
#[derive(Clone, Copy, Debug, PartialEq, Eq)]
pub struct DiagnosticMessage<'a> {
    /// Logical address of the sender.
    pub source_address: LogicalAddress,
    /// Logical address of the receiver.
    pub target_address: LogicalAddress,
    /// Opaque user data (typically a UDS request or response).
    pub user_data: &'a [u8],
}

/// Owned mirror of [`DiagnosticMessage`] for values that must outlive a receive buffer.
#[derive(Clone, Debug, PartialEq, Eq)]
pub struct OwnedDiagnosticMessage {
    /// Logical address of the sender.
    pub source_address: LogicalAddress,
    /// Logical address of the receiver.
    pub target_address: LogicalAddress,
    /// Opaque user data.
    pub user_data: Vec<u8>,
}

/// What a diagnostic message is, whether borrowed or owned.
pub struct DiagnosticMessageModel {
    /// Logical address of the sender.
    pub source_address: LogicalAddress,
    /// Logical address of the receiver.
    pub target_address: LogicalAddress,
    /// The user data bytes.
    pub user_data: Seq<u8>,
}

impl View for DiagnosticMessage<'_> {
    type V = DiagnosticMessageModel;

    open spec fn view(&self) -> DiagnosticMessageModel {
        DiagnosticMessageModel {
            source_address: self.source_address,
            target_address: self.target_address,
            user_data: self.user_data@,
        }
    }
}

impl View for OwnedDiagnosticMessage {
    type V = DiagnosticMessageModel;

    open spec fn view(&self) -> DiagnosticMessageModel {
        DiagnosticMessageModel {
            source_address: self.source_address,
            target_address: self.target_address,
            user_data: self.user_data@,
        }
    }
}

/// Field widths of the fixed part of a diagnostic message.
pub open spec fn diagnostic_message_layout() -> Seq<int> {
    seq![2int, 2]
}

impl DiagnosticMessageModel {
    /// The message's wire bytes.
    pub open spec fn spec_encode(self) -> Seq<u8> {
        be_u16_bytes(self.source_address.0) + be_u16_bytes(self.target_address.0) + self.user_data
    }

    /// Decoding a diagnostic message: it takes the whole buffer, the bytes after
    /// the two addresses being the user data.
    pub open spec fn spec_decode(s: Seq<u8>) -> Result<(DiagnosticMessageModel, Seq<u8>), MessageError> {
        if s.len() < 4 {
            Err(layout_incomplete(diagnostic_message_layout(), s.len() as int))
        } else {
            Ok(
                (
                    DiagnosticMessageModel {
                        source_address: LogicalAddress(be_u16(s[0], s[1])),
                        target_address: LogicalAddress(be_u16(s[2], s[3])),
                        user_data: s.skip(4),
                    },
                    Seq::empty(),
                ),
            )
        }
    }
}

impl<'a> DiagnosticMessage<'a> {
    /// Decode a diagnostic message; it consumes the entire buffer.
    pub fn decode(buf: &'a [u8]) -> (r: Result<(DiagnosticMessage<'a>, &'a [u8]), MessageError>)
        ensures
            match r {
                Ok((v, rest)) => DiagnosticMessageModel::spec_decode(buf@) == Ok::<_, MessageError>((v@, rest@)),
                Err(e) => DiagnosticMessageModel::spec_decode(buf@) == Err::<(DiagnosticMessageModel, Seq<u8>), _>(e),
            },
    {
        proof {
            reveal_with_fuel(layout_incomplete, 3);
        }
        let (source_address, rest) = read_u16_be(buf)?;
        let (target_address, rest) = read_u16_be(rest)?;
        let done = vstd::slice::slice_subrange(rest, rest.len(), rest.len());
        proof {
            assert(rest@ =~= buf@.skip(4));
            assert(done@ =~= Seq::<u8>::empty());
        }
        Ok(
            (
                DiagnosticMessage {
                    source_address: LogicalAddress(source_address),
                    target_address: LogicalAddress(target_address),
                    user_data: rest,
                },
                done,
            ),
        )
    }

    /// Decode a diagnostic message that must fill `buf` exactly.
    pub fn decode_exact(buf: &'a [u8]) -> (r: Result<DiagnosticMessage<'a>, MessageError>)
        ensures
            match r {
                Ok(v) => spec_exact(DiagnosticMessageModel::spec_decode(buf@)) == Ok::<_, MessageError>(v@),
                Err(e) => spec_exact(DiagnosticMessageModel::spec_decode(buf@)) == Err::<DiagnosticMessageModel, _>(e),
            },
    {
        let (value, rest) = DiagnosticMessage::decode(buf)?;
        if rest.len() == 0 {
            Ok(value)
        } else {
            Err(MessageError::TrailingBytes { count: rest.len() })
        }
    }

    /// Number of bytes `encode` writes: two addresses plus the user data.
    pub fn encoded_size(&self) -> (r: Result<usize, MessageError>)
        requires
            self@.spec_encode().len() <= usize::MAX,
        ensures
            r == Ok::<_, MessageError>(self@.spec_encode().len() as usize),
    {
        Ok(4 + self.user_data.len())
    }

    /// Append the message's wire bytes to `out`, returning the number written.
    pub fn encode(&self, out: &mut Vec<u8>) -> (r: Result<usize, MessageError>)
        requires
            old(out)@.len() + self@.spec_encode().len() <= max_buffer_len(),
        ensures
            final(out)@ == old(out)@ + self@.spec_encode(),
            r == Ok::<_, MessageError>(self@.spec_encode().len() as usize),
    {
        let ghost start = out@;
        write_u16_be(out, self.source_address.0);
        write_u16_be(out, self.target_address.0);
        write_all(out, self.user_data);
        assert(out@ =~= start + self@.spec_encode());
        Ok(4 + self.user_data.len())
    }

    /// Write the message's wire bytes into `out` at position `at`, returning the
    /// number written.
    pub(crate) fn write_at(&self, out: &mut [u8], at: usize) -> (n: usize)
        requires
            at + self@.spec_encode().len() <= old(out)@.len(),
        ensures
            final(out)@ == splice(old(out)@, at as int, self@.spec_encode()),
            n == self@.spec_encode().len(),
    {
        let ghost start = out@;
        assert(out@.len() == out.len());
        put_u16_be(out, at, self.source_address.0);
        put_u16_be(out, at + 2, self.target_address.0);
        put_all(out, at + 4, self.user_data);
        assert(out@ =~= splice(start, at as int, self@.spec_encode()));
        4 + self.user_data.len()
    }

    /// Copy the borrowed user data into an owned message.
    pub fn to_owned_message(&self) -> (owned: OwnedDiagnosticMessage)
        ensures
            owned@ == self@,
    {
        OwnedDiagnosticMessage {
            source_address: self.source_address,
            target_address: self.target_address,
            user_data: vstd::slice::slice_to_vec(self.user_data),
        }
    }
}

impl OwnedDiagnosticMessage {
    /// Borrowed view for encode paths and read-only inspection.
    pub fn as_ref(&self) -> (borrowed: DiagnosticMessage<'_>)
        ensures
            borrowed@ == self@,
    {
        DiagnosticMessage {
            source_address: self.source_address,
            target_address: self.target_address,
            user_data: self.user_data.as_slice(),
        }
    }
}

/// Every diagnostic message survives encoding, and a decoded one re-encodes to
/// exactly the bytes it came from.
pub proof fn lemma_diagnostic_message_codec(m: DiagnosticMessageModel, s: Seq<u8>)
    ensures
        DiagnosticMessageModel::spec_decode(m.spec_encode()) == Ok::<_, MessageError>((m, Seq::<u8>::empty())),
        DiagnosticMessageModel::spec_decode(s) matches Ok((d, rest)) ==> d.spec_encode() == s && rest.len() == 0,
{
    lemma_be_u16_roundtrip(m.source_address.0);
    lemma_be_u16_roundtrip(m.target_address.0);
    let e = m.spec_encode();
    assert(e.skip(4) =~= m.user_data);
    if s.len() >= 4 {
        lemma_be_u16_bytes_roundtrip(s[0], s[1]);
        lemma_be_u16_bytes_roundtrip(s[2], s[3]);
        let d = DiagnosticMessageModel::spec_decode(s)->Ok_0.0;
        assert(d.spec_encode() =~= s);
    }
}

} // verus!

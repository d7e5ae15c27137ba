//! Sans-io framing: delimit one DoIP frame at the front of a byte buffer without
//! interpreting its payload.
use vstd::prelude::*;

use crate::messages::header::header_layout;
use crate::messages::{Header, MessageError, MessageModel, PayloadModel};
use crate::wire::lemma_layout_incomplete_is_incomplete;

verus! {

/// A delimited, header-validated frame whose payload is not yet interpreted.
#[derive(Debug, PartialEq, Eq)]
pub struct RawFrame<'a> {
    /// The decoded generic header that prefixed the frame.
    pub header: Header,
    /// The payload bytes, exactly `header.payload_length` long.
    pub payload: &'a [u8],
}

/// What a raw frame is.
pub struct RawFrameModel {
    /// The frame's header.
    pub header: Header,
    /// The frame's payload bytes.
    pub payload: Seq<u8>,
}

impl View for RawFrame<'_> {
    type V = RawFrameModel;

    open spec fn view(&self) -> RawFrameModel {
        RawFrameModel { header: self.header, payload: self.payload@ }
    }
}

/// Framing `s`: `Ok(None)` while the header or the payload it declares is not
/// all there, the header's error when its inverse version byte is wrong, and
/// otherwise the frame and the number of bytes it spans.
pub open spec fn spec_try_frame(s: Seq<u8>) -> Result<Option<(RawFrameModel, int)>, MessageError> {
    if s.len() < Header::SIZE {
        Ok(None)
    } else {
        match Header::spec_decode(s.take(Header::SIZE as int)) {
            Err(e) => Err(e),
            Ok((h, _)) => {
                let n = h.payload_length as int;
                if s.len() - Header::SIZE < n {
                    Ok(None)
                } else {
                    Ok(
                        Some(
                            (
                                RawFrameModel {
                                    header: h,
                                    payload: s.subrange(Header::SIZE as int, Header::SIZE + n),
                                },
                                Header::SIZE + n,
                            ),
                        ),
                    )
                }
            },
        }
    }
}

/// Validate the eight-byte header and delimit one frame from the front of `buf`.
/// `Ok(None)` means more bytes are needed (framing never reports missing bytes
/// as an error); the payload is never interpreted. An error means the inverse
/// version byte is wrong and stream sync is lost.
pub fn try_frame(buf: &[u8]) -> (r: Result<Option<(RawFrame<'_>, usize)>, MessageError>)
    ensures
        match r {
            Ok(Some((frame, consumed))) => spec_try_frame(buf@) == Ok::<_, MessageError>(
                Some((frame@, consumed as int)),
            ),
            Ok(None) => spec_try_frame(buf@) == Ok::<Option<(RawFrameModel, int)>, MessageError>(None),
            Err(e) => spec_try_frame(buf@) == Err::<Option<(RawFrameModel, int)>, _>(e)
                && e is VersionInverseIncorrect && e.spec_is_framing_fatal(),
        },
{
    if buf.len() < Header::SIZE {
        return Ok(None);
    }
    let (header, _) = Header::decode(&buf[0..Header::SIZE])?;
    let payload_len = header.payload_length as usize;
    // Compare what is available before adding, so the sum cannot overflow.
    if buf.len() - Header::SIZE < payload_len {
        return Ok(None);
    }
    let total = Header::SIZE + payload_len;
    Ok(Some((RawFrame { header, payload: &buf[Header::SIZE..total] }, total)))
}

/// Framing agrees with decoding a whole message: where framing waits for more
/// bytes the message decoder reports them missing, where framing fails the
/// decoder fails the same way, and a framed message decodes to its header and
/// its payload interpreted under the header's type, leaving the bytes after the
/// frame.
pub proof fn lemma_frame_agrees_with_decode(s: Seq<u8>)
    ensures
        match spec_try_frame(s) {
            Ok(None) => MessageModel::spec_decode(s) matches Err(e) && e is Incomplete,
            Err(e) => MessageModel::spec_decode(s) == Err::<(MessageModel, Seq<u8>), _>(e),
            Ok(Some((f, n))) => MessageModel::spec_decode(s) == match PayloadModel::spec_decode(
                f.payload,
                f.header.payload_type,
            ) {
                Ok(p) => Ok((MessageModel { header: f.header, payload: p }, s.skip(n))),
                Err(e) => Err(e),
            },
        },
{
    if s.len() < Header::SIZE {
        lemma_layout_incomplete_is_incomplete(header_layout(), s.len() as int);
    } else {
        let t = s.take(Header::SIZE as int);
        assert(Header::spec_from_bytes(t) == Header::spec_from_bytes(s));
        let rest = s.skip(Header::SIZE as int);
        if Header::spec_decode(s) is Ok {
            let h = Header::spec_decode(s)->Ok_0.0;
            let n = h.payload_length as int;
            if rest.len() >= n {
                assert(rest.take(n) =~= s.subrange(Header::SIZE as int, Header::SIZE + n));
                assert(rest.skip(n) =~= s.skip(Header::SIZE + n));
            }
        }
    }
}

/// Framing never interprets a payload: two buffers of the same length that
/// agree on their first eight bytes frame alike, the same header and the same
/// span, whatever their payload bytes are.
pub proof fn lemma_framing_ignores_payload(s: Seq<u8>, t: Seq<u8>)
    requires
        s.len() == t.len(),
        s.len() >= Header::SIZE ==> s.take(Header::SIZE as int) == t.take(Header::SIZE as int),
    ensures
        spec_try_frame(s) is Ok <==> spec_try_frame(t) is Ok,
        spec_try_frame(s) matches Err(e) ==> spec_try_frame(t) == Err::<Option<(RawFrameModel, int)>, _>(e),
        spec_try_frame(s) matches Ok(None) ==> spec_try_frame(t) == Ok::<Option<(RawFrameModel, int)>, MessageError>(None),
        spec_try_frame(s) matches Ok(Some((f, n))) ==> (spec_try_frame(t) matches Ok(Some((g, m)))
            && g.header == f.header && m == n),
{
}

} // verus!

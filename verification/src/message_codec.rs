//! Stream codec for DoIP messages over a growable byte buffer.
//!
//! Decoding skips frames whose header is sound but whose body cannot be
//! interpreted, so one unsupported message does not tear down a connection;
//! only errors that lose stream sync reach the caller.
use vstd::prelude::*;

use bytes::BytesMut;

use crate::framer::{lemma_frame_agrees_with_decode, spec_try_frame, try_frame};
use crate::messages::{
    lemma_message_roundtrip, Header, Message, MessageError, MessageModel, OwnedMessage, Payload,
    PayloadModel,
};
use crate::wire::max_buffer_len;

verus! {

/// The receive and transmit buffer of a framed connection.
#[verifier::external_type_specification]
#[verifier::external_body]
pub struct ExBytesMut(BytesMut);

/// The bytes a [`BytesMut`] holds, in order.
pub uninterp spec fn buffer_contents(b: BytesMut) -> Seq<u8>;

/// The buffered bytes (`<BytesMut as AsRef<[u8]>>::as_ref`).
#[verifier::external_body]
fn buffered(src: &BytesMut) -> (bytes: &[u8])
    ensures
        bytes@ == buffer_contents(*src),
{
    src.as_ref()
}

/// The number of bytes `src` holds.
pub fn buffered_len(src: &BytesMut) -> (n: usize)
    ensures
        n == buffer_contents(*src).len(),
{
    buffered(src).len()
}

/// Drop the first `n` buffered bytes (`BytesMut::split_to`, whose returned front
/// part is discarded; it panics when `n` exceeds the length).
#[verifier::external_body]
fn discard_front(src: &mut BytesMut, n: usize)
    requires
        n <= buffer_contents(*old(src)).len(),
    ensures
        buffer_contents(*final(src)) == buffer_contents(*old(src)).skip(n as int),
{
    let _ = src.split_to(n);
}

/// Append bytes at the end (`BytesMut::extend_from_slice`).
#[verifier::external_body]
fn append(dst: &mut BytesMut, bytes: &[u8])
    requires
        buffer_contents(*old(dst)).len() + bytes@.len() <= max_buffer_len(),
    ensures
        buffer_contents(*final(dst)) == buffer_contents(*old(dst)) + bytes@,
{
    dst.extend_from_slice(bytes)
}

/// What one decode call does to buffered bytes `s`: its outcome, and how many
/// bytes it consumes. Frames whose body fails with a recoverable error are
/// consumed and skipped; an incomplete frame is left in place.
pub open spec fn spec_codec_decode(s: Seq<u8>) -> (Result<Option<MessageModel>, MessageError>, int)
    decreases s.len(),
{
    match spec_try_frame(s) {
        Err(e) => (Err(e), 0),
        Ok(None) => (Ok(None), 0),
        Ok(Some((f, n))) => match PayloadModel::spec_decode(f.payload, f.header.payload_type) {
            Ok(p) => (Ok(Some(MessageModel { header: f.header, payload: p })), n),
            Err(e) => if e.spec_is_framing_fatal() || n <= 0 {
                (Err(e), 0)
            } else {
                let (r, k) = spec_codec_decode(s.skip(n));
                (r, n + k)
            },
        },
    }
}

/// Codec for DoIP messages on a TCP stream.
#[derive(Debug, Default)]
pub struct MessageCodec {}

impl MessageCodec {
    /// Create a new message codec.
    pub fn new() -> (codec: MessageCodec) {
        MessageCodec {}
    }

    /// Decode one message from `src`, consuming its bytes.
    ///
    /// `Ok(None)` means more bytes are needed. Frames with a sound header and an
    /// undecodable body are consumed and skipped; a framing-fatal error is
    /// returned and means the connection must be closed.
    pub fn decode(&mut self, src: &mut BytesMut) -> (r: Result<Option<OwnedMessage>, MessageError>)
        ensures
            ({
                let (outcome, consumed) = spec_codec_decode(buffer_contents(*old(src)));
                &&& buffer_contents(*final(src)) == buffer_contents(*old(src)).skip(consumed)
                &&& match r {
                    Ok(Some(m)) => outcome == Ok::<_, MessageError>(Some(m@)),
                    Ok(None) => outcome == Ok::<Option<MessageModel>, MessageError>(None),
                    Err(e) => outcome == Err::<Option<MessageModel>, _>(e),
                }
            }),
    {
        let ghost orig = buffer_contents(*src);
        let ghost mut skipped: int = 0;
        loop
            invariant
                orig == buffer_contents(*old(src)),
                0 <= skipped <= orig.len(),
                buffer_contents(*src) == orig.skip(skipped),
                ({
                    let (outcome, consumed) = spec_codec_decode(orig);
                    let (rest_outcome, rest_consumed) = spec_codec_decode(orig.skip(skipped));
                    outcome == rest_outcome && consumed == skipped + rest_consumed
                }),
            decreases orig.len() - skipped,
        {
            let bytes = buffered(src);
            let (frame, consumed) = match try_frame(bytes)? {
                Some(found) => found,
                None => return Ok(None),
            };
            match Payload::decode(frame.payload, frame.header.payload_type) {
                Ok(payload) => {
                    let owned = Message { header: frame.header, payload }.to_owned_message();
                    discard_front(src, consumed);
                    proof {
                        assert(orig.skip(skipped).skip(consumed as int) =~= orig.skip(skipped + consumed));
                    }
                    return Ok(Some(owned));
                },
                Err(e) => {
                    if e.is_framing_fatal() {
                        return Err(e);
                    }
                    discard_front(src, consumed);
                    proof {
                        assert(orig.skip(skipped).skip(consumed as int) =~= orig.skip(skipped + consumed));
                        skipped = skipped + consumed;
                    }
                },
            }
        }
    }

    /// Append the wire bytes of `message` to `dst`. A payload too long for the
    /// header's length field is refused with `PayloadTooLarge`, and `dst` is
    /// left as it was. The buffer must be able to grow by the message's length
    /// ([`buffered_len`] tells how much it holds).
    pub fn encode(&mut self, message: &OwnedMessage, dst: &mut BytesMut) -> (r: Result<(), MessageError>)
        requires
            buffer_contents(*old(dst)).len() + Header::SIZE + message@.payload.spec_encode().len()
                <= max_buffer_len(),
        ensures
            message@.payload.spec_encode().len() <= u32::MAX ==> r is Ok && buffer_contents(*final(dst))
                == buffer_contents(*old(dst)) + message@.spec_encode(),
            message@.payload.spec_encode().len() > u32::MAX ==> buffer_contents(*final(dst))
                == buffer_contents(*old(dst)) && r == Err::<(), _>(MessageError::PayloadTooLarge {
                size: message@.payload.spec_encode().len() as usize,
            }),
    {
        let mut out: Vec<u8> = Vec::new();
        message.encode(&mut out)?;
        append(dst, out.as_slice());
        Ok(())
    }
}

/// The stream codec reads what message decoding reads: on bytes that start with
/// a decodable message it yields that message and consumes exactly its bytes.
pub proof fn lemma_codec_decodes_like_message_decode(s: Seq<u8>)
    requires
        MessageModel::spec_decode(s) is Ok,
    ensures
        ({
            let (m, rest) = MessageModel::spec_decode(s)->Ok_0;
            spec_codec_decode(s) == (Ok::<_, MessageError>(Some(m)), s.len() - rest.len())
        }),
{
    lemma_frame_agrees_with_decode(s);
}

/// What the codec writes it reads back: the message with the length its payload
/// occupies, consuming every byte written.
pub proof fn lemma_codec_roundtrip(m: MessageModel)
    requires
        m.is_wire_valid(),
    ensures
        spec_codec_decode(m.spec_encode()) == (Ok::<_, MessageError>(Some(m.normalized())), m.spec_encode().len() as int),
{
    lemma_message_roundtrip(m);
    lemma_codec_decodes_like_message_decode(m.spec_encode());
}

} // verus!

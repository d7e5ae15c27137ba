//! Entity status response.
use vstd::prelude::*;

use super::message_error::MessageError;
use crate::wire::{
    be_u32, be_u32_bytes, layout_incomplete, lemma_be_u32_bytes_roundtrip, lemma_be_u32_roundtrip,
    max_buffer_len, put_u32_be, put_u8, read_u32_be, read_u8, spec_exact, splice, write_u32_be,
    write_u8,
};

verus! {

/// The kind of node reporting its status.
#[derive(Clone, Copy, Debug, PartialEq, Eq, Structural)]
pub enum EntityStatusNodeType {
    /// A gateway between IP and in-vehicle networks.
    DoIPGateway,
    /// A single node reachable over IP.
    DoIPNode,
    /// Reserved node type (0x02-0xFF).
    Reserved(u8),
}

impl EntityStatusNodeType {
    /// The code a wire byte denotes.
    pub open spec fn spec_from_u8(value: u8) -> EntityStatusNodeType {
        if value == 0x00 {
            EntityStatusNodeType::DoIPGateway
        } else if value == 0x01 {
            EntityStatusNodeType::DoIPNode
        } else {
            EntityStatusNodeType::Reserved(value)
        }
    }

    /// The wire byte of a code.
    pub open spec fn spec_to_u8(self) -> u8 {
        match self {
            EntityStatusNodeType::DoIPGateway => 0x00,
            EntityStatusNodeType::DoIPNode => 0x01,
            EntityStatusNodeType::Reserved(value) => value,
        }
    }

    /// A value that is what its own wire byte decodes to.
    pub open spec fn is_canonical(self) -> bool {
        Self::spec_from_u8(self.spec_to_u8()) == self
    }

}

impl From<u8> for EntityStatusNodeType {
    fn from(value: u8) -> (code: EntityStatusNodeType)
        ensures
            code == EntityStatusNodeType::spec_from_u8(value),
    {
        if value == 0x00 {
            EntityStatusNodeType::DoIPGateway
        } else if value == 0x01 {
            EntityStatusNodeType::DoIPNode
        } else {
            EntityStatusNodeType::Reserved(value)
        }
    }
}

impl vstd::std_specs::convert::FromSpecImpl<u8> for EntityStatusNodeType {
    open spec fn obeys_from_spec() -> bool {
        true
    }

    open spec fn from_spec(v: u8) -> EntityStatusNodeType {
        EntityStatusNodeType::spec_from_u8(v)
    }
}

impl From<EntityStatusNodeType> for u8 {
    fn from(value: EntityStatusNodeType) -> (byte: u8)
        ensures
            byte == value.spec_to_u8(),
    {
        match value {
            EntityStatusNodeType::DoIPGateway => 0x00,
            EntityStatusNodeType::DoIPNode => 0x01,
            EntityStatusNodeType::Reserved(value) => value,
        }
    }
}

impl vstd::std_specs::convert::FromSpecImpl<EntityStatusNodeType> for u8 {
    open spec fn obeys_from_spec() -> bool {
        true
    }

    open spec fn from_spec(v: EntityStatusNodeType) -> u8 {
        v.spec_to_u8()
    }
}

/// Every byte is the wire form of the code it decodes to, and that code is canonical.
pub proof fn lemma_entity_status_node_type_byte_roundtrip(value: u8)
    ensures
        EntityStatusNodeType::spec_from_u8(value).spec_to_u8() == value,
        EntityStatusNodeType::spec_from_u8(value).is_canonical(),
{
}

/// Entity status response: the operating conditions of the responding entity.
#[derive(Clone, Copy, Debug, PartialEq, Eq, Structural)]
pub struct EntityStatusResponse {
    /// Gateway or node.
    pub node_type: EntityStatusNodeType,
    /// Maximum number of concurrent diagnostic TCP sockets.
    pub max_concurrent_tcp_sockets: u8,
    /// Number of diagnostic TCP sockets currently open.
    pub open_tcp_sockets: u8,
    /// Maximum diagnostic message payload size the entity accepts.
    pub max_data_size: u32,
}

/// Field widths of an entity status response.
pub open spec fn entity_status_layout() -> Seq<int> {
    seq![1int, 1, 1, 4]
}

impl EntityStatusResponse {
    /// Decoding an entity status response from the front of `s`.
    pub open spec fn spec_decode(s: Seq<u8>) -> Result<(EntityStatusResponse, Seq<u8>), MessageError> {
        if s.len() < 7 {
            Err(layout_incomplete(entity_status_layout(), s.len() as int))
        } else {
            Ok(
                (
                    EntityStatusResponse {
                        node_type: EntityStatusNodeType::spec_from_u8(s[0]),
                        max_concurrent_tcp_sockets: s[1],
                        open_tcp_sockets: s[2],
                        max_data_size: be_u32(s[3], s[4], s[5], s[6]),
                    },
                    s.skip(7),
                ),
            )
        }
    }

    /// The response's wire bytes.
    pub open spec fn spec_encode(self) -> Seq<u8> {
        seq![self.node_type.spec_to_u8(), self.max_concurrent_tcp_sockets, self.open_tcp_sockets]
            + be_u32_bytes(self.max_data_size)
    }

    /// Decode from the front of `buf`, returning the response and the bytes after it.
    pub fn decode(buf: &[u8]) -> (r: Result<(EntityStatusResponse, &[u8]), MessageError>)
        ensures
            match r {
                Ok((v, rest)) => EntityStatusResponse::spec_decode(buf@) == Ok::<_, MessageError>((v, rest@)),
                Err(e) => EntityStatusResponse::spec_decode(buf@) == Err::<(EntityStatusResponse, Seq<u8>), _>(e),
            },
    {
        proof {
            reveal_with_fuel(layout_incomplete, 5);
        }
        let (node_type, rest) = read_u8(buf)?;
        let (max_concurrent_tcp_sockets, rest) = read_u8(rest)?;
        let (open_tcp_sockets, rest) = read_u8(rest)?;
        let (max_data_size, rest) = read_u32_be(rest)?;
        proof {
            assert(buf@.skip(1).skip(1).skip(1).skip(4) =~= buf@.skip(7));
        }
        Ok(
            (
                EntityStatusResponse {
                    node_type: EntityStatusNodeType::from(node_type),
                    max_concurrent_tcp_sockets,
                    open_tcp_sockets,
                    max_data_size,
                },
                rest,
            ),
        )
    }

    /// Decode a response that must fill `buf` exactly.
    pub fn decode_exact(buf: &[u8]) -> (r: Result<EntityStatusResponse, MessageError>)
        ensures
            r == spec_exact(EntityStatusResponse::spec_decode(buf@)),
    {
        let (value, rest) = EntityStatusResponse::decode(buf)?;
        if rest.len() == 0 {
            Ok(value)
        } else {
            Err(MessageError::TrailingBytes { count: rest.len() })
        }
    }

    /// Number of bytes `encode` writes.
    pub fn encoded_size(&self) -> (r: Result<usize, MessageError>)
        ensures
            r == Ok::<_, MessageError>(self.spec_encode().len() as usize),
    {
        Ok(7)
    }

    /// Append the response's wire bytes to `out`, returning the number written.
    pub fn encode(&self, out: &mut Vec<u8>) -> (r: Result<usize, MessageError>)
        requires
            old(out)@.len() + 7 <= max_buffer_len(),
        ensures
            final(out)@ == old(out)@ + self.spec_encode(),
            r == Ok::<_, MessageError>(self.spec_encode().len() as usize),
    {
        let ghost start = out@;
        write_u8(out, u8::from(self.node_type));
        write_u8(out, self.max_concurrent_tcp_sockets);
        write_u8(out, self.open_tcp_sockets);
        write_u32_be(out, self.max_data_size);
        assert(out@ =~= start + self.spec_encode());
        Ok(7)
    }

    /// Write the response's wire bytes into `out` at position `at`, returning the
    /// number written.
    pub(crate) fn write_at(&self, out: &mut [u8], at: usize) -> (n: usize)
        requires
            at + 7 <= old(out)@.len(),
        ensures
            final(out)@ == splice(old(out)@, at as int, self.spec_encode()),
            n == self.spec_encode().len(),
    {
        let ghost start = out@;
        assert(out@.len() == out.len());
        put_u8(out, at, u8::from(self.node_type));
        put_u8(out, at + 1, self.max_concurrent_tcp_sockets);
        put_u8(out, at + 2, self.open_tcp_sockets);
        put_u32_be(out, at + 3, self.max_data_size);
        assert(out@ =~= splice(start, at as int, self.spec_encode()));
        7
    }
}

/// A response with a canonical node type survives encoding, and a decoded one
/// re-encodes to the bytes it came from.
pub proof fn lemma_entity_status_response_codec(v: EntityStatusResponse, s: Seq<u8>)
    ensures
        v.node_type.is_canonical() ==> EntityStatusResponse::spec_decode(v.spec_encode() + s)
            == Ok::<_, MessageError>((v, s)),
        EntityStatusResponse::spec_decode(s) matches Ok((d, rest)) ==> d.node_type.is_canonical()
            && d.spec_encode() == s.take(7) && rest == s.skip(7),
{
    lemma_be_u32_roundtrip(v.max_data_size);
    assert((v.spec_encode() + s).skip(7) =~= s);
    if s.len() >= 7 {
        lemma_be_u32_bytes_roundtrip(s[3], s[4], s[5], s[6]);
        lemma_entity_status_node_type_byte_roundtrip(s[0]);
        let d = EntityStatusResponse::spec_decode(s)->Ok_0.0;
        assert(d.spec_encode() =~= s.take(7));
    }
}

/// Each entity node type has the wire byte ISO 13400-2 assigns it: 0x00 is a gateway, 0x01
/// a node, every other byte reserved, and a named type encodes to its byte.
pub proof fn lemma_entity_status_node_type_wire_values(b: u8)
    ensures
        (EntityStatusNodeType::spec_from_u8(b) == EntityStatusNodeType::DoIPGateway) == (b == 0x00),
        (EntityStatusNodeType::spec_from_u8(b) == EntityStatusNodeType::DoIPNode) == (b == 0x01),
        (EntityStatusNodeType::spec_from_u8(b) == EntityStatusNodeType::Reserved(b)) == (b >= 0x02),
        EntityStatusNodeType::DoIPGateway.spec_to_u8() == 0x00,
        EntityStatusNodeType::DoIPNode.spec_to_u8() == 0x01,
{
}

} // verus!

//! Big-endian wire primitives.
//!
//! The spec functions here say what the DoIP wire format means byte by byte;
//! the crate-private functions read and write those primitives through the
//! `automotive_wire_codec` crate, whose behaviour their contracts state.
use vstd::prelude::*;

use crate::messages::MessageError;

verus! {

/// Largest buffer length an encoder may grow its output vector to.
pub open spec fn max_buffer_len() -> int {
    isize::MAX as int
}

/// The unsigned value of two bytes in network (big-endian) order.
pub open spec fn be_u16(hi: u8, lo: u8) -> u16 {
    ((hi as int) * 256 + (lo as int)) as u16
}

/// The unsigned value of four bytes in network (big-endian) order.
pub open spec fn be_u32(b0: u8, b1: u8, b2: u8, b3: u8) -> u32 {
    ((((b0 as int) * 256 + (b1 as int)) * 256 + (b2 as int)) * 256 + (b3 as int)) as u32
}

/// The two bytes of `v` in network order.
pub open spec fn be_u16_bytes(v: u16) -> Seq<u8> {
    seq![(v / 256) as u8, (v % 256) as u8]
}

/// The four bytes of `v` in network order.
pub open spec fn be_u32_bytes(v: u32) -> Seq<u8> {
    seq![
        (v / 0x100_0000) as u8,
        ((v / 0x1_0000) % 256) as u8,
        ((v / 256) % 256) as u8,
        (v % 256) as u8,
    ]
}

/// The error a reader reports when `needed` bytes are asked of a buffer holding `available`.
pub open spec fn incomplete(needed: int, available: int) -> MessageError {
    MessageError::Incomplete { needed: needed as usize, available: available as usize }
}

/// The error of reading the fields of widths `widths` in order from `available`
/// bytes, when they do not all fit: the first field that overruns is reported
/// with the bytes left for it.
pub open spec fn layout_incomplete(widths: Seq<int>, available: int) -> MessageError
    decreases widths.len(),
{
    if widths.len() == 0 || available < widths[0] {
        incomplete(if widths.len() == 0 { 0 } else { widths[0] }, available)
    } else {
        layout_incomplete(widths.drop_first(), available - widths[0])
    }
}

/// Running out of bytes part-way through a layout is always reported as `Incomplete`.
pub proof fn lemma_layout_incomplete_is_incomplete(widths: Seq<int>, available: int)
    ensures
        layout_incomplete(widths, available) is Incomplete,
    decreases widths.len(),
{
    if widths.len() != 0 && available >= widths[0] {
        lemma_layout_incomplete_is_incomplete(widths.drop_first(), available - widths[0]);
    }
}

/// An item that must fill its whole buffer: the decoded item, or the error,
/// with leftover bytes reported as `TrailingBytes`.
pub open spec fn spec_exact<T>(r: Result<(T, Seq<u8>), MessageError>) -> Result<T, MessageError> {
    match r {
        Ok((v, rest)) => if rest.len() == 0 {
            Ok(v)
        } else {
            Err(MessageError::TrailingBytes { count: rest.len() as usize })
        },
        Err(e) => Err(e),
    }
}

/// Reading a big-endian `u16` back from its bytes gives the value.
pub proof fn lemma_be_u16_roundtrip(v: u16)
    ensures
        be_u16(be_u16_bytes(v)[0], be_u16_bytes(v)[1]) == v,
{
    assert(((v / 256) as int) * 256 + ((v % 256) as int) == v) by (nonlinear_arith);
}

/// Writing the value of two bytes gives the bytes back.
pub proof fn lemma_be_u16_bytes_roundtrip(hi: u8, lo: u8)
    ensures
        be_u16_bytes(be_u16(hi, lo)) == seq![hi, lo],
{
    let v = (hi as int) * 256 + (lo as int);
    assert(v / 256 == hi as int && v % 256 == lo as int) by (nonlinear_arith)
        requires
            v == (hi as int) * 256 + (lo as int),
            0 <= hi < 256,
            0 <= lo < 256,
    ;
    assert(be_u16_bytes(be_u16(hi, lo)) =~= seq![hi, lo]);
}

/// Reading a big-endian `u32` back from its bytes gives the value.
pub proof fn lemma_be_u32_roundtrip(v: u32)
    ensures
        ({
            let b = be_u32_bytes(v);
            be_u32(b[0], b[1], b[2], b[3]) == v
        }),
{
    let x = v as int;
    assert((((x / 0x100_0000) * 256 + (x / 0x1_0000) % 256) * 256 + (x / 256) % 256) * 256 + x
        % 256 == x) by (nonlinear_arith)
        requires
            0 <= x < 0x1_0000_0000,
    {
        assert(x == (x / 256) * 256 + x % 256);
        assert(x / 256 == (x / 0x1_0000) * 256 + (x / 256) % 256);
        assert(x / 0x1_0000 == (x / 0x100_0000) * 256 + (x / 0x1_0000) % 256);
    }
}

/// Writing the value of four bytes gives the bytes back.
pub proof fn lemma_be_u32_bytes_roundtrip(b0: u8, b1: u8, b2: u8, b3: u8)
    ensures
        be_u32_bytes(be_u32(b0, b1, b2, b3)) == seq![b0, b1, b2, b3],
{
    let x = (((b0 as int) * 256 + (b1 as int)) * 256 + (b2 as int)) * 256 + (b3 as int);
    assert(x / 0x100_0000 == b0 as int && (x / 0x1_0000) % 256 == b1 as int && (x / 256) % 256
        == b2 as int && x % 256 == b3 as int) by (nonlinear_arith)
        requires
            x == (((b0 as int) * 256 + (b1 as int)) * 256 + (b2 as int)) * 256 + (b3 as int),
            0 <= b0 < 256,
            0 <= b1 < 256,
            0 <= b2 < 256,
            0 <= b3 < 256,
    ;
    assert(be_u32_bytes(be_u32(b0, b1, b2, b3)) =~= seq![b0, b1, b2, b3]);
}

/// Split `buf` after `n` bytes (`automotive_wire_codec::take`): the two halves when
/// `n` bytes are there, `Incomplete { needed: n, available }` when not.
#[verifier::external_body]
pub(crate) fn take(buf: &[u8], n: usize) -> (r: Result<(&[u8], &[u8]), MessageError>)
    ensures
        match r {
            Ok((head, rest)) => n <= buf@.len() && head@ == buf@.take(n as int) && rest@
                == buf@.skip(n as int),
            Err(e) => buf@.len() < n && e == incomplete(n as int, buf@.len() as int),
        },
{
    match automotive_wire_codec::take(buf, n) {
        Ok(split) => Ok(split),
        Err(e) => Err(MessageError::Incomplete { needed: e.needed, available: e.available }),
    }
}

/// Read one byte (`automotive_wire_codec::read_u8`).
///
/// Besides what the reader returns, the contract records that the slice it was
/// handed spans at most `isize::MAX` bytes, as every Rust slice of bytes does
/// (`std::slice::from_raw_parts` requires it of any slice that can exist).
#[verifier::external_body]
pub(crate) fn read_u8(buf: &[u8]) -> (r: Result<(u8, &[u8]), MessageError>)
    ensures
        match r {
            Ok((v, rest)) => 1 <= buf@.len() && v == buf@[0] && rest@ == buf@.skip(1)
                && rest@.len() + 1 <= max_buffer_len(),
            Err(e) => buf@.len() < 1 && e == incomplete(1, buf@.len() as int),
        },
{
    match automotive_wire_codec::read_u8(buf) {
        Ok(read) => Ok(read),
        Err(e) => Err(MessageError::Incomplete { needed: e.needed, available: e.available }),
    }
}

/// Read a big-endian `u16` (`automotive_wire_codec::read_u16_be`).
#[verifier::external_body]
pub(crate) fn read_u16_be(buf: &[u8]) -> (r: Result<(u16, &[u8]), MessageError>)
    ensures
        match r {
            Ok((v, rest)) => 2 <= buf@.len() && v == be_u16(buf@[0], buf@[1]) && rest@
                == buf@.skip(2),
            Err(e) => buf@.len() < 2 && e == incomplete(2, buf@.len() as int),
        },
{
    match automotive_wire_codec::read_u16_be(buf) {
        Ok(read) => Ok(read),
        Err(e) => Err(MessageError::Incomplete { needed: e.needed, available: e.available }),
    }
}

/// Read a big-endian `u32` (`automotive_wire_codec::read_u32_be`).
#[verifier::external_body]
pub(crate) fn read_u32_be(buf: &[u8]) -> (r: Result<(u32, &[u8]), MessageError>)
    ensures
        match r {
            Ok((v, rest)) => 4 <= buf@.len() && v == be_u32(buf@[0], buf@[1], buf@[2], buf@[3])
                && rest@ == buf@.skip(4),
            Err(e) => buf@.len() < 4 && e == incomplete(4, buf@.len() as int),
        },
{
    match automotive_wire_codec::read_u32_be(buf) {
        Ok(read) => Ok(read),
        Err(e) => Err(MessageError::Incomplete { needed: e.needed, available: e.available }),
    }
}

/// Read a fixed-size byte array (`automotive_wire_codec::read_array`).
#[verifier::external_body]
pub(crate) fn read_array<const N: usize>(buf: &[u8]) -> (r: Result<([u8; N], &[u8]), MessageError>)
    ensures
        match r {
            Ok((a, rest)) => N <= buf@.len() && a@ == buf@.take(N as int) && rest@ == buf@.skip(
                N as int,
            ),
            Err(e) => buf@.len() < N && e == incomplete(N as int, buf@.len() as int),
        },
{
    match automotive_wire_codec::read_array::<N>(buf) {
        Ok(read) => Ok(read),
        Err(e) => Err(MessageError::Incomplete { needed: e.needed, available: e.available }),
    }
}

/// Read an optional trailing array (`automotive_wire_codec::read_optional_array`):
/// the array when `N` bytes are there, otherwise `None` and the buffer untouched.
#[verifier::external_body]
pub(crate) fn read_optional_array<const N: usize>(buf: &[u8]) -> (r: (Option<[u8; N]>, &[u8]))
    ensures
        N <= buf@.len() ==> r.0 is Some && r.0->0@ == buf@.take(N as int) && r.1@ == buf@.skip(
            N as int,
        ),
        buf@.len() < N ==> r.0 is None && r.1@ == buf@,
{
    automotive_wire_codec::read_optional_array::<N>(buf)
}

/// Append one byte (`automotive_wire_codec::write_u8` on a growable vector, which never fails).
#[verifier::external_body]
pub(crate) fn write_u8(out: &mut Vec<u8>, v: u8) -> (n: usize)
    requires
        old(out)@.len() + 1 <= max_buffer_len(),
    ensures
        final(out)@ == old(out)@.push(v),
        n == 1,
{
    match automotive_wire_codec::write_u8(out, v) {
        Ok(n) => n,
        Err(_) => 0,
    }
}

/// Append a big-endian `u16` (`automotive_wire_codec::write_u16_be`).
#[verifier::external_body]
pub(crate) fn write_u16_be(out: &mut Vec<u8>, v: u16) -> (n: usize)
    requires
        old(out)@.len() + 2 <= max_buffer_len(),
    ensures
        final(out)@ == old(out)@ + be_u16_bytes(v),
        n == 2,
{
    match automotive_wire_codec::write_u16_be(out, v) {
        Ok(n) => n,
        Err(_) => 0,
    }
}

/// Append a big-endian `u32` (`automotive_wire_codec::write_u32_be`).
#[verifier::external_body]
pub(crate) fn write_u32_be(out: &mut Vec<u8>, v: u32) -> (n: usize)
    requires
        old(out)@.len() + 4 <= max_buffer_len(),
    ensures
        final(out)@ == old(out)@ + be_u32_bytes(v),
        n == 4,
{
    match automotive_wire_codec::write_u32_be(out, v) {
        Ok(n) => n,
        Err(_) => 0,
    }
}

/// Append bytes verbatim (`automotive_wire_codec::write_all`).
#[verifier::external_body]
pub(crate) fn write_all(out: &mut Vec<u8>, bytes: &[u8]) -> (n: usize)
    requires
        old(out)@.len() + bytes@.len() <= max_buffer_len(),
    ensures
        final(out)@ == old(out)@ + bytes@,
        n == bytes@.len(),
{
    match automotive_wire_codec::write_all(out, bytes) {
        Ok(n) => n,
        Err(_) => 0,
    }
}

/// `s` with the bytes from position `at` on overwritten by `e`; the bytes
/// before `at` and after the written run are kept.
pub open spec fn splice(s: Seq<u8>, at: int, e: Seq<u8>) -> Seq<u8> {
    s.take(at) + e + s.skip(at + e.len())
}

/// Writing `a` at `at` and then `b` right after it writes `a + b` at `at`.
pub proof fn lemma_splice_concat(s: Seq<u8>, at: int, a: Seq<u8>, b: Seq<u8>)
    requires
        0 <= at,
        at + a.len() + b.len() <= s.len(),
    ensures
        splice(splice(s, at, a), at + a.len(), b) == splice(s, at, a + b),
{
    assert(splice(splice(s, at, a), at + a.len(), b) =~= splice(s, at, a + b));
}

/// Write one byte at position `at` of a fixed buffer (`automotive_wire_codec::write_u8`
/// on the slice from `at`, which copies when there is room).
#[verifier::external_body]
pub(crate) fn put_u8(out: &mut [u8], at: usize, v: u8) -> (n: usize)
    requires
        at + 1 <= old(out)@.len(),
    ensures
        final(out)@ == splice(old(out)@, at as int, seq![v]),
        n == 1,
{
    let mut cursor: &mut [u8] = &mut out[at..];
    match automotive_wire_codec::write_u8(&mut cursor, v) {
        Ok(n) => n,
        Err(_) => 0,
    }
}

/// Write a big-endian `u16` at position `at` of a fixed buffer
/// (`automotive_wire_codec::write_u16_be` on the slice from `at`).
#[verifier::external_body]
pub(crate) fn put_u16_be(out: &mut [u8], at: usize, v: u16) -> (n: usize)
    requires
        at + 2 <= old(out)@.len(),
    ensures
        final(out)@ == splice(old(out)@, at as int, be_u16_bytes(v)),
        n == 2,
{
    let mut cursor: &mut [u8] = &mut out[at..];
    match automotive_wire_codec::write_u16_be(&mut cursor, v) {
        Ok(n) => n,
        Err(_) => 0,
    }
}

/// Write a big-endian `u32` at position `at` of a fixed buffer
/// (`automotive_wire_codec::write_u32_be` on the slice from `at`).
#[verifier::external_body]
pub(crate) fn put_u32_be(out: &mut [u8], at: usize, v: u32) -> (n: usize)
    requires
        at + 4 <= old(out)@.len(),
    ensures
        final(out)@ == splice(old(out)@, at as int, be_u32_bytes(v)),
        n == 4,
{
    let mut cursor: &mut [u8] = &mut out[at..];
    match automotive_wire_codec::write_u32_be(&mut cursor, v) {
        Ok(n) => n,
        Err(_) => 0,
    }
}

/// Copy bytes verbatim to position `at` of a fixed buffer
/// (`automotive_wire_codec::write_all` on the slice from `at`).
#[verifier::external_body]
pub(crate) fn put_all(out: &mut [u8], at: usize, bytes: &[u8]) -> (n: usize)
    requires
        at + bytes@.len() <= old(out)@.len(),
    ensures
        final(out)@ == splice(old(out)@, at as int, bytes@),
        n == bytes@.len(),
{
    let mut cursor: &mut [u8] = &mut out[at..];
    match automotive_wire_codec::write_all(&mut cursor, bytes) {
        Ok(n) => n,
        Err(_) => 0,
    }
}

} // verus!

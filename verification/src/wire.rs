//! Fixed-width integer encodings used on the wire, and the byte-order
//! primitives that read and write them.

use byteorder::{BigEndian, ByteOrder, LittleEndian};
use vstd::bytes::*;
use vstd::prelude::*;

verus! {

/// Big-endian bytes of a `u64`: its little-endian bytes in reverse order.
pub open spec fn be_bytes_u64(n: u64) -> Seq<u8> {
    spec_u64_to_le_bytes(n).reverse()
}

/// Big-endian bytes of a `u32`.
pub open spec fn be_bytes_u32(n: u32) -> Seq<u8> {
    spec_u32_to_le_bytes(n).reverse()
}

/// Big-endian bytes of a `u16`.
pub open spec fn be_bytes_u16(n: u16) -> Seq<u8> {
    spec_u16_to_le_bytes(n).reverse()
}

/// Little-endian bytes of a `u32`.
pub open spec fn le_bytes_u32(n: u32) -> Seq<u8> {
    spec_u32_to_le_bytes(n)
}

/// The `u64` whose big-endian bytes are `b` (eight bytes).
pub open spec fn be_value_u64(b: Seq<u8>) -> u64 {
    spec_u64_from_le_bytes(b.reverse())
}

/// The `u32` whose big-endian bytes are `b` (four bytes).
pub open spec fn be_value_u32(b: Seq<u8>) -> u32 {
    spec_u32_from_le_bytes(b.reverse())
}

/// The `u16` whose big-endian bytes are `b` (two bytes).
pub open spec fn be_value_u16(b: Seq<u8>) -> u16 {
    spec_u16_from_le_bytes(b.reverse())
}

/// The `u32` whose little-endian bytes are `b` (four bytes).
pub open spec fn le_value_u32(b: Seq<u8>) -> u32 {
    spec_u32_from_le_bytes(b)
}

/// `s` with the bytes from `at` on replaced by `part`.
pub open spec fn splice(s: Seq<u8>, at: int, part: Seq<u8>) -> Seq<u8> {
    s.take(at) + part + s.skip(at + part.len())
}

proof fn lemma_reverse_reverse(s: Seq<u8>)
    ensures
        s.reverse().reverse() == s,
        s.reverse().len() == s.len(),
{
    assert(s.reverse().reverse() =~= s);
}

/// Reading back what was written gives the value; each encoding has its width.
pub proof fn lemma_be_u64_roundtrip(n: u64)
    ensures
        be_bytes_u64(n).len() == 8,
        be_value_u64(be_bytes_u64(n)) == n,
{
    lemma_auto_spec_u64_to_from_le_bytes();
    lemma_reverse_reverse(spec_u64_to_le_bytes(n));
}

/// See [`lemma_be_u64_roundtrip`].
pub proof fn lemma_be_u32_roundtrip(n: u32)
    ensures
        be_bytes_u32(n).len() == 4,
        be_value_u32(be_bytes_u32(n)) == n,
{
    lemma_auto_spec_u32_to_from_le_bytes();
    lemma_reverse_reverse(spec_u32_to_le_bytes(n));
}

/// See [`lemma_be_u64_roundtrip`].
pub proof fn lemma_be_u16_roundtrip(n: u16)
    ensures
        be_bytes_u16(n).len() == 2,
        be_value_u16(be_bytes_u16(n)) == n,
{
    lemma_auto_spec_u16_to_from_le_bytes();
    lemma_reverse_reverse(spec_u16_to_le_bytes(n));
}

/// See [`lemma_be_u64_roundtrip`].
pub proof fn lemma_le_u32_roundtrip(n: u32)
    ensures
        le_bytes_u32(n).len() == 4,
        le_value_u32(le_bytes_u32(n)) == n,
{
    lemma_auto_spec_u32_to_from_le_bytes();
    assert(spec_u32_to_le_bytes(n).len() == 4);
}

/// `byteorder::BigEndian::write_u64` on `buf[at..at + 8]`: the eight bytes
/// there become the big-endian bytes of `n` (`n.to_be_bytes()`), nothing else
/// changes.
#[verifier::external_body]
pub(crate) fn write_be_u64(buf: &mut [u8], at: usize, n: u64)
    requires
        at + 8 <= old(buf)@.len(),
    ensures
        final(buf)@ == splice(old(buf)@, at as int, be_bytes_u64(n)),
{
    BigEndian::write_u64(&mut buf[at..at + 8], n);
}

/// `byteorder::BigEndian::write_u32` on `buf[at..at + 4]`, as above.
#[verifier::external_body]
pub(crate) fn write_be_u32(buf: &mut [u8], at: usize, n: u32)
    requires
        at + 4 <= old(buf)@.len(),
    ensures
        final(buf)@ == splice(old(buf)@, at as int, be_bytes_u32(n)),
{
    BigEndian::write_u32(&mut buf[at..at + 4], n);
}

/// `byteorder::BigEndian::write_u16` on `buf[at..at + 2]`, as above.
#[verifier::external_body]
pub(crate) fn write_be_u16(buf: &mut [u8], at: usize, n: u16)
    requires
        at + 2 <= old(buf)@.len(),
    ensures
        final(buf)@ == splice(old(buf)@, at as int, be_bytes_u16(n)),
{
    BigEndian::write_u16(&mut buf[at..at + 2], n);
}

/// `byteorder::LittleEndian::write_u32` on `buf[at..at + 4]`: the four bytes
/// there become `n.to_le_bytes()`, nothing else changes.
#[verifier::external_body]
pub(crate) fn write_le_u32(buf: &mut [u8], at: usize, n: u32)
    requires
        at + 4 <= old(buf)@.len(),
    ensures
        final(buf)@ == splice(old(buf)@, at as int, le_bytes_u32(n)),
{
    LittleEndian::write_u32(&mut buf[at..at + 4], n);
}

/// `byteorder::BigEndian::read_u64` on `buf[at..at + 8]`: the `u64` whose
/// big-endian bytes those are (`u64::from_be_bytes`).
#[verifier::external_body]
pub(crate) fn read_be_u64(buf: &[u8], at: usize) -> (n: u64)
    requires
        at + 8 <= buf@.len(),
    ensures
        n == be_value_u64(buf@.subrange(at as int, at + 8)),
{
    BigEndian::read_u64(&buf[at..at + 8])
}

/// `byteorder::BigEndian::read_u32` on `buf[at..at + 4]`, as above.
#[verifier::external_body]
pub(crate) fn read_be_u32(buf: &[u8], at: usize) -> (n: u32)
    requires
        at + 4 <= buf@.len(),
    ensures
        n == be_value_u32(buf@.subrange(at as int, at + 4)),
{
    BigEndian::read_u32(&buf[at..at + 4])
}

/// `byteorder::BigEndian::read_u16` on `buf[at..at + 2]`, as above.
#[verifier::external_body]
pub(crate) fn read_be_u16(buf: &[u8], at: usize) -> (n: u16)
    requires
        at + 2 <= buf@.len(),
    ensures
        n == be_value_u16(buf@.subrange(at as int, at + 2)),
{
    BigEndian::read_u16(&buf[at..at + 2])
}

/// `byteorder::LittleEndian::read_u32` on `buf[at..at + 4]`: the `u32` whose
/// little-endian bytes those are (`u32::from_le_bytes`).
#[verifier::external_body]
pub(crate) fn read_le_u32(buf: &[u8], at: usize) -> (n: u32)
    requires
        at + 4 <= buf@.len(),
    ensures
        n == le_value_u32(buf@.subrange(at as int, at + 4)),
{
    LittleEndian::read_u32(&buf[at..at + 4])
}

} // verus!

//! Reading integers out of byte buffers in either byte order.
use vstd::prelude::*;
use byteorder::{BigEndian, ByteOrder, LittleEndian};

verus! {

/// Byte order of multi-byte values.
#[derive(Clone, Copy, Debug, PartialEq, Eq, Structural)]
pub enum Endianness {
    Little,
    Big,
}

/// Big-endian 16-bit value of the first two bytes.
pub open spec fn be16(b: Seq<u8>) -> u16 {
    (b[0] * 256 + b[1]) as u16
}

/// Little-endian 16-bit value of the first two bytes.
pub open spec fn le16(b: Seq<u8>) -> u16 {
    (b[1] * 256 + b[0]) as u16
}

/// Big-endian 32-bit value of the first four bytes.
pub open spec fn be32(b: Seq<u8>) -> u32 {
    (b[0] * 16777216 + b[1] * 65536 + b[2] * 256 + b[3]) as u32
}

/// Little-endian 32-bit value of the first four bytes.
pub open spec fn le32(b: Seq<u8>) -> u32 {
    (b[3] * 16777216 + b[2] * 65536 + b[1] * 256 + b[0]) as u32
}

/// 16-bit value of the first two bytes in the given order.
pub open spec fn u16_of(b: Seq<u8>, e: Endianness) -> u16 {
    match e {
        Endianness::Little => le16(b),
        Endianness::Big => be16(b),
    }
}

/// 32-bit value of the first four bytes in the given order.
pub open spec fn u32_of(b: Seq<u8>, e: Endianness) -> u32 {
    match e {
        Endianness::Little => le32(b),
        Endianness::Big => be32(b),
    }
}

/// Wraps `byteorder::BigEndian::read_u16`: the first two bytes, most significant first.
/// It panics on fewer than two bytes, which `requires` rules out.
#[verifier::external_body]
fn read_be16(buf: &[u8]) -> (r: u16)
    requires
        buf@.len() >= 2,
    ensures
        r == be16(buf@),
{
    BigEndian::read_u16(buf)
}

/// Wraps `byteorder::LittleEndian::read_u16`: the first two bytes, least significant first.
/// It panics on fewer than two bytes, which `requires` rules out.
#[verifier::external_body]
fn read_le16(buf: &[u8]) -> (r: u16)
    requires
        buf@.len() >= 2,
    ensures
        r == le16(buf@),
{
    LittleEndian::read_u16(buf)
}

/// Wraps `byteorder::BigEndian::read_u32`: the first four bytes, most significant first.
/// It panics on fewer than four bytes, which `requires` rules out.
#[verifier::external_body]
fn read_be32(buf: &[u8]) -> (r: u32)
    requires
        buf@.len() >= 4,
    ensures
        r == be32(buf@),
{
    BigEndian::read_u32(buf)
}

/// Wraps `byteorder::LittleEndian::read_u32`: the first four bytes, least significant first.
/// It panics on fewer than four bytes, which `requires` rules out.
#[verifier::external_body]
fn read_le32(buf: &[u8]) -> (r: u32)
    requires
        buf@.len() >= 4,
    ensures
        r == le32(buf@),
{
    LittleEndian::read_u32(buf)
}

/// Reads a 16-bit unsigned value from the first two bytes.
pub fn read_u16(data: &[u8], endian: Endianness) -> (r: u16)
    requires
        data@.len() >= 2,
    ensures
        r == u16_of(data@, endian),
{
    match endian {
        Endianness::Little => read_le16(data),
        Endianness::Big => read_be16(data),
    }
}

/// Reads a 32-bit unsigned value from the first four bytes.
pub fn read_u32(data: &[u8], endian: Endianness) -> (r: u32)
    requires
        data@.len() >= 4,
    ensures
        r == u32_of(data@, endian),
{
    match endian {
        Endianness::Little => read_le32(data),
        Endianness::Big => read_be32(data),
    }
}

/// Reads a 16-bit two's-complement value from the first two bytes.
pub fn read_i16(data: &[u8], endian: Endianness) -> (r: i16)
    requires
        data@.len() >= 2,
    ensures
        r == u16_of(data@, endian) as i16,
{
    read_u16(data, endian) as i16
}

/// Reads a 32-bit two's-complement value from the first four bytes.
pub fn read_i32(data: &[u8], endian: Endianness) -> (r: i32)
    requires
        data@.len() >= 4,
    ensures
        r == u32_of(data@, endian) as i32,
{
    read_u32(data, endian) as i32
}

/// Reads a 16-bit unsigned value at `pos`.
pub fn read_u16_at(data: &[u8], pos: usize, endian: Endianness) -> (r: u16)
    requires
        pos + 2 <= data@.len(),
    ensures
        r == u16_of(data@.subrange(pos as int, data@.len() as int), endian),
{
    read_u16(&data[pos..data.len()], endian)
}

/// Reads a 32-bit unsigned value at `pos`.
pub fn read_u32_at(data: &[u8], pos: usize, endian: Endianness) -> (r: u32)
    requires
        pos + 4 <= data@.len(),
    ensures
        r == u32_of(data@.subrange(pos as int, data@.len() as int), endian),
{
    read_u32(&data[pos..data.len()], endian)
}

/// Reading the same two bytes in the other order gives the same value as
/// swapping them: a little-endian read of `[a, b]` equals a big-endian read of `[b, a]`.
pub proof fn law_le16_is_swapped_be16(a: u8, b: u8)
    ensures
        le16(seq![a, b]) == be16(seq![b, a]),
{
}

/// A little-endian read of four bytes equals a big-endian read of the reversed bytes.
pub proof fn law_le32_is_reversed_be32(b: Seq<u8>)
    requires
        b.len() >= 4,
    ensures
        le32(b) == be32(seq![b[3], b[2], b[1], b[0]]),
{
}

} // verus!

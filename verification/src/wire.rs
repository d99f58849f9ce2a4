//! Big-endian integers on the wire, and the outside calls that read and write
//! them (byteorder) or decode text (std).

use vstd::prelude::*;
use vstd::utf8::{decode_utf8, valid_utf8};
use byteorder::{BigEndian, ByteOrder, ReadBytesExt};
use std::string::FromUtf8Error;
use std::io::Error as IoError;

verus! {

#[verifier::external_type_specification]
#[verifier::external_body]
pub struct ExIoError(std::io::Error);

#[verifier::external_type_specification]
#[verifier::external_body]
pub struct ExFromUtf8Error(FromUtf8Error);

/// The unsigned value of two bytes, most significant first.
pub open spec fn be16(b0: u8, b1: u8) -> u16 {
    (b0 as int * 0x100 + b1 as int) as u16
}

/// The unsigned value of four bytes, most significant first.
pub open spec fn be32(b0: u8, b1: u8, b2: u8, b3: u8) -> u32 {
    (b0 as int * 0x1000000 + b1 as int * 0x10000 + b2 as int * 0x100 + b3 as int) as u32
}

/// The unsigned value of eight bytes, most significant first.
pub open spec fn be64(s: Seq<u8>) -> u64
    recommends
        s.len() == 8,
{
    (be32(s[0], s[1], s[2], s[3]) as int * 0x100000000 + be32(s[4], s[5], s[6], s[7]) as int) as u64
}

/// Two's complement reading of a 16-bit pattern.
pub open spec fn signed16(u: u16) -> i16 {
    if u < 0x8000 { u as i16 } else { (u as int - 0x10000) as i16 }
}

/// Two's complement reading of a 32-bit pattern.
pub open spec fn signed32(u: u32) -> i32 {
    if u < 0x8000_0000 { u as i32 } else { (u as int - 0x1_0000_0000) as i32 }
}

/// Two's complement reading of a 64-bit pattern.
pub open spec fn signed64(u: u64) -> i64 {
    if u < 0x8000_0000_0000_0000 { u as i64 } else { (u as int - 0x1_0000_0000_0000_0000) as i64 }
}

/// The two bytes of `n`, most significant first.
pub open spec fn be16_bytes(n: u16) -> Seq<u8> {
    seq![(n / 0x100) as u8, (n % 0x100) as u8]
}

/// The four bytes of `n`, most significant first.
pub open spec fn be32_bytes(n: u32) -> Seq<u8> {
    seq![(n / 0x1000000) as u8, ((n / 0x10000) % 0x100) as u8, ((n / 0x100) % 0x100) as u8, (n % 0x100) as u8]
}

/// The 16-bit two's complement pattern of `n`.
pub open spec fn unsigned16(n: i16) -> u16 {
    if n >= 0 { n as u16 } else { (n as int + 0x10000) as u16 }
}

/// `byteorder::ReadBytesExt::read_u8` on the bytes of `data` from `pos` on:
/// the byte at `pos` when there is one, an I/O error otherwise.
#[verifier::external_body]
pub(crate) fn read_u8_at(data: &[u8], pos: usize) -> (r: Result<u8, IoError>)
    requires
        pos <= data.len(),
    ensures
        r is Ok <==> pos + 1 <= data.len(),
        r matches Ok(v) ==> v == data@[pos as int],
{
    let mut rd = &data[pos..];
    rd.read_u8()
}

/// `byteorder::ReadBytesExt::read_u16::<BigEndian>` on the bytes of `data`
/// from `pos` on: the big-endian value of the next two bytes, or an I/O error
/// when fewer remain.
#[verifier::external_body]
pub(crate) fn read_u16_at(data: &[u8], pos: usize) -> (r: Result<u16, IoError>)
    requires
        pos <= data.len(),
    ensures
        r is Ok <==> pos + 2 <= data.len(),
        r matches Ok(v) ==> v == be16(data@[pos as int], data@[pos + 1]),
{
    let mut rd = &data[pos..];
    rd.read_u16::<BigEndian>()
}

/// `byteorder::ReadBytesExt::read_i16::<BigEndian>` on the bytes of `data`
/// from `pos` on: the two's complement value of the next two bytes, or an I/O
/// error when fewer remain.
#[verifier::external_body]
pub(crate) fn read_i16_at(data: &[u8], pos: usize) -> (r: Result<i16, IoError>)
    requires
        pos <= data.len(),
    ensures
        r is Ok <==> pos + 2 <= data.len(),
        r matches Ok(v) ==> v == signed16(be16(data@[pos as int], data@[pos + 1])),
{
    let mut rd = &data[pos..];
    rd.read_i16::<BigEndian>()
}

/// `byteorder::ReadBytesExt::read_u32::<BigEndian>` on the bytes of `data`
/// from `pos` on: the big-endian value of the next four bytes, or an I/O error
/// when fewer remain.
#[verifier::external_body]
pub(crate) fn read_u32_at(data: &[u8], pos: usize) -> (r: Result<u32, IoError>)
    requires
        pos <= data.len(),
    ensures
        r is Ok <==> pos + 4 <= data.len(),
        r matches Ok(v) ==> v == be32(data@[pos as int], data@[pos + 1], data@[pos + 2], data@[pos + 3]),
{
    let mut rd = &data[pos..];
    rd.read_u32::<BigEndian>()
}

/// `byteorder::ReadBytesExt::read_i32::<BigEndian>` on the bytes of `data`
/// from `pos` on: the two's complement value of the next four bytes, or an
/// I/O error when fewer remain.
#[verifier::external_body]
pub(crate) fn read_i32_at(data: &[u8], pos: usize) -> (r: Result<i32, IoError>)
    requires
        pos <= data.len(),
    ensures
        r is Ok <==> pos + 4 <= data.len(),
        r matches Ok(v) ==> v == signed32(be32(data@[pos as int], data@[pos + 1], data@[pos + 2], data@[pos + 3])),
{
    let mut rd = &data[pos..];
    rd.read_i32::<BigEndian>()
}

/// `byteorder::ReadBytesExt::read_u64::<BigEndian>` on the bytes of `data`
/// from `pos` on: the big-endian value of the next eight bytes, or an I/O
/// error when fewer remain.
#[verifier::external_body]
pub(crate) fn read_u64_at(data: &[u8], pos: usize) -> (r: Result<u64, IoError>)
    requires
        pos <= data.len(),
    ensures
        r is Ok <==> pos + 8 <= data.len(),
        r matches Ok(v) ==> v == be64(data@.subrange(pos as int, pos + 8)),
{
    let mut rd = &data[pos..];
    rd.read_u64::<BigEndian>()
}

/// `byteorder::ReadBytesExt::read_i64::<BigEndian>` on the bytes of `data`
/// from `pos` on: the two's complement value of the next eight bytes, or an
/// I/O error when fewer remain.
#[verifier::external_body]
pub(crate) fn read_i64_at(data: &[u8], pos: usize) -> (r: Result<i64, IoError>)
    requires
        pos <= data.len(),
    ensures
        r is Ok <==> pos + 8 <= data.len(),
        r matches Ok(v) ==> v == signed64(be64(data@.subrange(pos as int, pos + 8))),
{
    let mut rd = &data[pos..];
    rd.read_i64::<BigEndian>()
}

/// `byteorder::ByteOrder::write_u16` for `BigEndian` into a fresh two-byte
/// buffer: the bytes of `n`, most significant first.
#[verifier::external_body]
pub(crate) fn u16_be_bytes(n: u16) -> (r: [u8; 2])
    ensures
        r@ == be16_bytes(n),
{
    let mut b = [0u8; 2];
    BigEndian::write_u16(&mut b, n);
    b
}

/// `byteorder::ByteOrder::write_i16` for `BigEndian` into a fresh two-byte
/// buffer: the two's complement bytes of `n`, most significant first.
#[verifier::external_body]
pub(crate) fn i16_be_bytes(n: i16) -> (r: [u8; 2])
    ensures
        r@ == be16_bytes(unsigned16(n)),
{
    let mut b = [0u8; 2];
    BigEndian::write_i16(&mut b, n);
    b
}

/// `byteorder::ByteOrder::write_u32` for `BigEndian` into a fresh four-byte
/// buffer: the bytes of `n`, most significant first.
#[verifier::external_body]
pub(crate) fn u32_be_bytes(n: u32) -> (r: [u8; 4])
    ensures
        r@ == be32_bytes(n),
{
    let mut b = [0u8; 4];
    BigEndian::write_u32(&mut b, n);
    b
}

/// `String::from_utf8`: succeeds exactly on valid UTF-8, and then holds the
/// characters that the bytes encode.
#[verifier::external_body]
pub(crate) fn string_from_utf8(bytes: Vec<u8>) -> (r: Result<String, FromUtf8Error>)
    ensures
        r is Ok <==> valid_utf8(bytes@),
        r matches Ok(s) ==> s@ == decode_utf8(bytes@),
{
    String::from_utf8(bytes)
}

} // verus!

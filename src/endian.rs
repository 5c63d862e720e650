//! Little-endian integer encoding, through the `byteorder` crate.
use byteorder::{ByteOrder, LittleEndian};
use vstd::bytes::{
    spec_u16_from_le_bytes, spec_u16_to_le_bytes, spec_u32_from_le_bytes, spec_u32_to_le_bytes,
};
use vstd::prelude::*;

verus! {

/// Relies on `byteorder::LittleEndian::read_u16`: the first two bytes of
/// `buf`, least significant first.
#[verifier::external_body]
pub(crate) fn read_u16_le(buf: &[u8]) -> (r: u16)
    requires
        buf@.len() == 2,
    ensures
        r == spec_u16_from_le_bytes(buf@),
{
    LittleEndian::read_u16(buf)
}

/// Relies on `byteorder::LittleEndian::read_u32`: the first four bytes of
/// `buf`, least significant first.
#[verifier::external_body]
pub(crate) fn read_u32_le(buf: &[u8]) -> (r: u32)
    requires
        buf@.len() == 4,
    ensures
        r == spec_u32_from_le_bytes(buf@),
{
    LittleEndian::read_u32(buf)
}

/// Relies on `byteorder::LittleEndian::write_u16`: the two bytes of `n`,
/// least significant first.
#[verifier::external_body]
pub(crate) fn u16_le_bytes(n: u16) -> (r: [u8; 2])
    ensures
        r@ == spec_u16_to_le_bytes(n),
{
    let mut buf = [0u8; 2];
    LittleEndian::write_u16(&mut buf, n);
    buf
}

/// Relies on `byteorder::LittleEndian::write_u32`: the four bytes of `n`,
/// least significant first.
#[verifier::external_body]
pub(crate) fn u32_le_bytes(n: u32) -> (r: [u8; 4])
    ensures
        r@ == spec_u32_to_le_bytes(n),
{
    let mut buf = [0u8; 4];
    LittleEndian::write_u32(&mut buf, n);
    buf
}

} // verus!

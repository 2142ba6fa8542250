//! Big-endian assembly of 16-bit fields.
use vstd::prelude::*;

verus! {

/// The unsigned value of the 16-bit big-endian pair `msb`, `lsb`.
pub open spec fn be_u16_spec(msb: u8, lsb: u8) -> int {
    msb * 256 + lsb
}

/// The same 16 bits read as a two's-complement signed value.
pub open spec fn be_i16_spec(msb: u8, lsb: u8) -> int {
    let u = be_u16_spec(msb, lsb);
    if u >= 0x8000 {
        u - 0x1_0000
    } else {
        u
    }
}

/// Joins two bytes, most significant first, into an unsigned 16-bit value.
pub fn be_u16(msb: u8, lsb: u8) -> (r: u16)
    ensures
        r == be_u16_spec(msb, lsb),
{
    let r: u16 = ((msb as u16) << 8) | (lsb as u16);
    assert(((msb as u16) << 8) | (lsb as u16) == msb * 256 + lsb) by (bit_vector);
    r
}

/// Joins two bytes, most significant first, and reads the 16-bit pattern as signed.
pub fn be_i16(msb: u8, lsb: u8) -> (r: i16)
    ensures
        r == be_i16_spec(msb, lsb),
{
    let u: u16 = be_u16(msb, lsb);
    if u >= 0x8000 {
        (u as i32 - 0x1_0000) as i16
    } else {
        u as i16
    }
}

} // verus!

//! The decoded reading and the packet decoder.
use std::collections::HashMap;
use vstd::prelude::*;

use crate::bytes::{be_i16, be_i16_spec, be_u16, be_u16_spec};

verus! {

broadcast use vstd::std_specs::hash::group_hash_axioms;

/// Key of the one manufacturer whose data this decoder understands.
pub const MANUFACTURER_KEY: u16 = 0x0499;

/// Number of payload bytes the decoder reads (offsets 0 to 13).
pub const PACKET_LEN: usize = 14;

/// Offset added to the raw pressure value, in pascals.
pub const PRESSURE_OFFSET: u32 = 50000;

/// Why a packet could not be decoded.
#[derive(Debug, Clone, Copy, PartialEq, Eq, Structural)]
pub enum TagError {
    /// The packet holds no data under the recognized manufacturer key.
    UnknownManufacturerId,
    /// The recognized manufacturer's data is too short for the known layout.
    UnknownPacketSpecification,
}

/// Acceleration on three axes, in milli-g.
#[derive(Debug, Clone, Copy, PartialEq, Eq, Structural)]
pub struct Acceleration {
    pub x: i16,
    pub y: i16,
    pub z: i16,
}

/// A temperature in sign-magnitude form: `±(integer + hundredths / 100)` degrees.
///
/// `hundredths` is the raw byte and may exceed 99, as the device sends it. A set sign with a zero
/// magnitude is kept as it is, so it reads as negative zero once converted to a float.
#[derive(Debug, Clone, Copy, PartialEq, Eq, Structural)]
pub struct Temperature {
    pub negative: bool,
    pub integer: u8,
    pub hundredths: u8,
}

impl Temperature {
    /// The integer part comes from seven bits.
    pub open spec fn wf(self) -> bool {
        self.integer < 0x80
    }

}

/// The temperature encoded by the byte pair `msb`, `lsb`: the top bit of `msb` is the sign, its
/// other seven bits the integer part, and `lsb` the hundredths.
pub open spec fn temperature_spec(msb: u8, lsb: u8) -> Temperature {
    Temperature { negative: msb >= 0x80, integer: (msb % 0x80) as u8, hundredths: lsb }
}

/// Decodes the sign-magnitude temperature pair.
pub fn parse_temperature(t_msb: u8, t_lsb: u8) -> (r: Temperature)
    ensures
        r == temperature_spec(t_msb, t_lsb),
        r.wf(),
{
    let integer: u8 = 0x7F & t_msb;
    let negative: bool = 0x80 & t_msb == 0x80;
    assert(0x7F & t_msb == t_msb % 0x80) by (bit_vector);
    assert((0x80 & t_msb == 0x80) == (t_msb >= 0x80)) by (bit_vector);
    Temperature { negative, integer, hundredths: t_lsb }
}

/// One decoded sensor snapshot.
///
/// `humidity` is the relative humidity in half-percent steps (the percentage is half of it).
/// `mac` is never known to the decoder and is left to whoever saw the advertisement's address.
#[derive(Debug, PartialEq, Eq)]
pub struct Tag {
    pub manufacturer_id: u8,
    pub humidity: u8,
    pub temperature: Temperature,
    pub pressure: u32,
    pub acceleration: Acceleration,
    pub battery_voltage: u16,
    pub mac: Option<String>,
}

/// The reading laid out in `b`, which holds at least `PACKET_LEN` bytes.
pub open spec fn tag_spec(b: Seq<u8>) -> Tag
    recommends
        b.len() >= PACKET_LEN,
{
    Tag {
        manufacturer_id: b[0],
        humidity: b[1],
        temperature: temperature_spec(b[2], b[3]),
        pressure: (be_u16_spec(b[4], b[5]) + PRESSURE_OFFSET) as u32,
        acceleration: Acceleration {
            x: be_i16_spec(b[6], b[7]) as i16,
            y: be_i16_spec(b[8], b[9]) as i16,
            z: be_i16_spec(b[10], b[11]) as i16,
        },
        battery_voltage: be_u16_spec(b[12], b[13]) as u16,
        mac: None,
    }
}

/// What decoding the manufacturer data `m` gives.
pub open spec fn decode_spec(m: Map<u16, Vec<u8>>) -> Result<Tag, TagError> {
    if !m.contains_key(MANUFACTURER_KEY) {
        Err(TagError::UnknownManufacturerId)
    } else if m[MANUFACTURER_KEY]@.len() < PACKET_LEN {
        Err(TagError::UnknownPacketSpecification)
    } else {
        Ok(tag_spec(m[MANUFACTURER_KEY]@))
    }
}

impl Tag {
    /// Decodes the manufacturer-specific data of one advertisement, keyed by manufacturer id.
    pub fn new(data: HashMap<u16, Vec<u8>>) -> (r: Result<Tag, TagError>)
        ensures
            r == decode_spec(data@),
    {
        let values: &Vec<u8> = match data.get(&MANUFACTURER_KEY) {
            Some(v) => v,
            None => {
                return Err(TagError::UnknownManufacturerId);
            },
        };
        if values.len() < PACKET_LEN {
            return Err(TagError::UnknownPacketSpecification);
        }
        let pressure: u32 = be_u16(values[4], values[5]) as u32 + PRESSURE_OFFSET;
        Ok(
            Tag {
                manufacturer_id: values[0],
                humidity: values[1],
                temperature: parse_temperature(values[2], values[3]),
                pressure,
                acceleration: Acceleration {
                    x: be_i16(values[6], values[7]),
                    y: be_i16(values[8], values[9]),
                    z: be_i16(values[10], values[11]),
                },
                battery_voltage: be_u16(values[12], values[13]),
                mac: None,
            },
        )
    }
}

/// Decoding depends on nothing but the bytes held under the recognized key: two packets that agree
/// there decode to equal results, so decoding the same packet twice gives equal readings.
pub proof fn lemma_decode_deterministic(m1: Map<u16, Vec<u8>>, m2: Map<u16, Vec<u8>>)
    requires
        m1.contains_key(MANUFACTURER_KEY) == m2.contains_key(MANUFACTURER_KEY),
        m1.contains_key(MANUFACTURER_KEY) ==> m1[MANUFACTURER_KEY]@ == m2[MANUFACTURER_KEY]@,
    ensures
        decode_spec(m1) == decode_spec(m2),
{
}

/// Data stored under any key but the recognized one is refused as an unknown manufacturer,
/// whatever its bytes.
pub proof fn lemma_other_key_refused(key: u16, values: Vec<u8>)
    requires
        key != MANUFACTURER_KEY,
    ensures
        decode_spec(Map::empty().insert(key, values)) == Err::<Tag, TagError>(
            TagError::UnknownManufacturerId,
        ),
{
}

} // verus!

//! Decoder for the environmental sensor beacon's manufacturer-specific advertisement data.
//!
//! The verified part works on plain integers only: humidity stays in half-percent steps and the
//! temperature keeps its sign-magnitude parts, so that turning them into floating-point values is
//! left to the caller, which can then reproduce the device's rounding exactly.
pub mod bytes;
pub mod tag;

pub use bytes::{be_i16, be_u16};
pub use tag::{parse_temperature, Acceleration, Tag, TagError, Temperature, MANUFACTURER_KEY};

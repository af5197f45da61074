//! Primitive-numeric codec layer of a cross-language binary serialization
//! protocol: fixed-width integers and IEEE float bit patterns are written to
//! and read from a byte cursor in little-endian order, each kind carrying a
//! stable wire-level type tag. A subset of the kinds is eligible as element
//! type of the protocol's homogeneous list container.

pub mod codec;
pub mod cursor;
pub mod kind;
pub mod wire;

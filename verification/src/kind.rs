//! The registry of primitive numeric kinds: each kind's wire-level type tag,
//! its fixed byte width, and whether it may serve as the element type of the
//! protocol's homogeneous general-purpose list container.

use vstd::prelude::*;

verus! {

/// The primitive numeric kinds of the wire protocol. Signed integers travel
/// in two's complement, floats as their IEEE-754 bit patterns; every kind has
/// a fixed byte width known before any value is seen.
#[derive(Clone, Copy, Debug, PartialEq, Eq, Structural)]
pub enum NumericKind {
    Int8,
    UInt8,
    Int16,
    UInt16,
    Int32,
    UInt32,
    Int64,
    UInt64,
    Float32,
    Float64,
}

/// The number of bytes a value of the kind occupies on the wire.
pub open spec fn width_of(kind: NumericKind) -> nat {
    match kind {
        NumericKind::Int8 => 1,
        NumericKind::UInt8 => 1,
        NumericKind::Int16 => 2,
        NumericKind::UInt16 => 2,
        NumericKind::Int32 => 4,
        NumericKind::UInt32 => 4,
        NumericKind::Int64 => 8,
        NumericKind::UInt64 => 8,
        NumericKind::Float32 => 4,
        NumericKind::Float64 => 8,
    }
}

/// The canonical wire-level type tag of the kind. These constants are shared
/// by every implementation of the protocol and must never change: a decoder
/// in another language identifies a value's kind by this number alone.
pub open spec fn tag_of(kind: NumericKind) -> u16 {
    match kind {
        NumericKind::UInt8 => 2,
        NumericKind::Int8 => 3,
        NumericKind::UInt16 => 4,
        NumericKind::Int16 => 5,
        NumericKind::UInt32 => 6,
        NumericKind::Int32 => 7,
        NumericKind::UInt64 => 8,
        NumericKind::Int64 => 9,
        NumericKind::Float32 => 11,
        NumericKind::Float64 => 12,
    }
}

/// Whether the kind may be the element type of the protocol's homogeneous
/// general list container. The protocol grants this to exactly
/// `Int8`, `UInt16`, `UInt32` and `UInt64`.
pub open spec fn list_eligible(kind: NumericKind) -> bool {
    ||| kind == NumericKind::Int8
    ||| kind == NumericKind::UInt16
    ||| kind == NumericKind::UInt32
    ||| kind == NumericKind::UInt64
}

/// The byte count to reserve in an output buffer before writing a value of
/// the kind; equal to the kind's wire width and independent of the value.
pub fn reserved_size(kind: NumericKind) -> (r: usize)
    ensures
        r == width_of(kind),
{
    match kind {
        NumericKind::Int8 => 1,
        NumericKind::UInt8 => 1,
        NumericKind::Int16 => 2,
        NumericKind::UInt16 => 2,
        NumericKind::Int32 => 4,
        NumericKind::UInt32 => 4,
        NumericKind::Int64 => 8,
        NumericKind::UInt64 => 8,
        NumericKind::Float32 => 4,
        NumericKind::Float64 => 8,
    }
}

/// The kind's wire-level type tag.
pub fn tag(kind: NumericKind) -> (r: u16)
    ensures
        r == tag_of(kind),
{
    match kind {
        NumericKind::UInt8 => 2,
        NumericKind::Int8 => 3,
        NumericKind::UInt16 => 4,
        NumericKind::Int16 => 5,
        NumericKind::UInt32 => 6,
        NumericKind::Int32 => 7,
        NumericKind::UInt64 => 8,
        NumericKind::Int64 => 9,
        NumericKind::Float32 => 11,
        NumericKind::Float64 => 12,
    }
}

/// Whether the kind may populate the homogeneous general list container.
pub fn is_list_eligible(kind: NumericKind) -> (r: bool)
    ensures
        r == list_eligible(kind),
{
    match kind {
        NumericKind::Int8 => true,
        NumericKind::UInt16 => true,
        NumericKind::UInt32 => true,
        NumericKind::UInt64 => true,
        _ => false,
    }
}

/// Law: the type tags are pairwise distinct, so a tag identifies its kind
/// unambiguously to a decoder.
pub proof fn lemma_tags_injective(a: NumericKind, b: NumericKind)
    ensures
        a != b ==> tag_of(a) != tag_of(b),
{
}

} // verus!

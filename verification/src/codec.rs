//! The numeric codec: a tagged value of any primitive numeric kind is
//! encoded to, and decoded from, a byte cursor. Every kind occupies exactly
//! its fixed width on the wire; decoding reads that many bytes or fails
//! without consuming anything. Float kinds are carried as their IEEE-754 bit
//! patterns, so encode and decode preserve every bit, NaN payloads included.

use vstd::prelude::*;

use crate::cursor::Cursor;
use crate::cursor::DecodeError;
use crate::kind::NumericKind;
use crate::kind::reserved_size;
use crate::kind::width_of;
use crate::wire::le_bytes;
use crate::wire::le_bytes_of;
use crate::wire::le_value;
use crate::wire::le_value_of;
use crate::wire::lemma_le_bytes_len;
use crate::wire::lemma_le_round_trip;
use crate::wire::lemma_le_value_bound;
use crate::wire::pow256;

verus! {

/// A value of one of the primitive numeric kinds. Integer variants carry the
/// native value; the float variants carry the IEEE-754 bit pattern of the
/// value (`binary32` in a `u32`, `binary64` in a `u64`), which is exactly
/// what travels on the wire.
#[derive(Clone, Copy, Debug, PartialEq, Eq, Structural)]
pub enum NumericValue {
    Int8(i8),
    UInt8(u8),
    Int16(i16),
    UInt16(u16),
    Int32(i32),
    UInt32(u32),
    Int64(i64),
    UInt64(u64),
    Float32Bits(u32),
    Float64Bits(u64),
}

/// The two's-complement bit pattern of an `i8`, as a natural number.
pub open spec fn i8_bits(x: i8) -> nat {
    if x >= 0 {
        x as nat
    } else {
        (x + 0x100) as nat
    }
}

/// The two's-complement bit pattern of an `i16`, as a natural number.
pub open spec fn i16_bits(x: i16) -> nat {
    if x >= 0 {
        x as nat
    } else {
        (x + 0x10000) as nat
    }
}

/// The two's-complement bit pattern of an `i32`, as a natural number.
pub open spec fn i32_bits(x: i32) -> nat {
    if x >= 0 {
        x as nat
    } else {
        (x + 0x100000000) as nat
    }
}

/// The two's-complement bit pattern of an `i64`, as a natural number.
pub open spec fn i64_bits(x: i64) -> nat {
    if x >= 0 {
        x as nat
    } else {
        (x + 0x10000000000000000) as nat
    }
}

/// The `i8` whose two's-complement bit pattern is `b`, for `b < 0x100`.
pub open spec fn bits_to_i8(b: nat) -> i8 {
    if b < 0x80 {
        b as i8
    } else {
        (b - 0x100) as i8
    }
}

/// The `i16` whose two's-complement bit pattern is `b`, for `b < 0x10000`.
pub open spec fn bits_to_i16(b: nat) -> i16 {
    if b < 0x8000 {
        b as i16
    } else {
        (b - 0x10000) as i16
    }
}

/// The `i32` whose two's-complement bit pattern is `b`, for `b < 0x100000000`.
pub open spec fn bits_to_i32(b: nat) -> i32 {
    if b < 0x80000000 {
        b as i32
    } else {
        (b - 0x100000000) as i32
    }
}

/// The `i64` whose two's-complement bit pattern is `b`, for
/// `b < 0x10000000000000000`.
pub open spec fn bits_to_i64(b: nat) -> i64 {
    if b < 0x8000000000000000 {
        b as i64
    } else {
        (b - 0x10000000000000000) as i64
    }
}

/// The kind a value belongs to.
pub open spec fn value_kind(v: NumericValue) -> NumericKind {
    match v {
        NumericValue::Int8(_) => NumericKind::Int8,
        NumericValue::UInt8(_) => NumericKind::UInt8,
        NumericValue::Int16(_) => NumericKind::Int16,
        NumericValue::UInt16(_) => NumericKind::UInt16,
        NumericValue::Int32(_) => NumericKind::Int32,
        NumericValue::UInt32(_) => NumericKind::UInt32,
        NumericValue::Int64(_) => NumericKind::Int64,
        NumericValue::UInt64(_) => NumericKind::UInt64,
        NumericValue::Float32Bits(_) => NumericKind::Float32,
        NumericValue::Float64Bits(_) => NumericKind::Float64,
    }
}

/// The value's wire bit pattern, as a natural number below
/// `pow256(width_of(value_kind(v)))`.
pub open spec fn value_bits(v: NumericValue) -> nat {
    match v {
        NumericValue::Int8(x) => i8_bits(x),
        NumericValue::UInt8(x) => x as nat,
        NumericValue::Int16(x) => i16_bits(x),
        NumericValue::UInt16(x) => x as nat,
        NumericValue::Int32(x) => i32_bits(x),
        NumericValue::UInt32(x) => x as nat,
        NumericValue::Int64(x) => i64_bits(x),
        NumericValue::UInt64(x) => x as nat,
        NumericValue::Float32Bits(x) => x as nat,
        NumericValue::Float64Bits(x) => x as nat,
    }
}

/// The value of the given kind whose wire bit pattern is `b`, for `b` below
/// `pow256(width_of(kind))`.
pub open spec fn bits_to_value(kind: NumericKind, b: nat) -> NumericValue {
    match kind {
        NumericKind::Int8 => NumericValue::Int8(bits_to_i8(b)),
        NumericKind::UInt8 => NumericValue::UInt8(b as u8),
        NumericKind::Int16 => NumericValue::Int16(bits_to_i16(b)),
        NumericKind::UInt16 => NumericValue::UInt16(b as u16),
        NumericKind::Int32 => NumericValue::Int32(bits_to_i32(b)),
        NumericKind::UInt32 => NumericValue::UInt32(b as u32),
        NumericKind::Int64 => NumericValue::Int64(bits_to_i64(b)),
        NumericKind::UInt64 => NumericValue::UInt64(b as u64),
        NumericKind::Float32 => NumericValue::Float32Bits(b as u32),
        NumericKind::Float64 => NumericValue::Float64Bits(b as u64),
    }
}

/// The exact bytes a value occupies on the wire: the little-endian bytes of
/// its bit pattern, one byte per unit of its kind's width.
pub open spec fn wire_bytes(v: NumericValue) -> Seq<u8> {
    le_bytes_of(value_bits(v), width_of(value_kind(v)))
}

/// The value of the given kind that a run of `width_of(kind)` wire bytes
/// denotes.
pub open spec fn value_of(kind: NumericKind, s: Seq<u8>) -> NumericValue {
    bits_to_value(kind, le_value(s))
}

/// The first few powers of 256, spelled out for the fixed kind widths.
proof fn lemma_width_pow256_values()
    ensures
        pow256(1) == 0x100,
        pow256(2) == 0x10000,
        pow256(4) == 0x100000000,
        pow256(8) == 0x10000000000000000,
{
    reveal_with_fuel(pow256, 9);
}

/// A value's bit pattern fits in its kind's width.
pub proof fn lemma_value_bits_fit(v: NumericValue)
    ensures
        value_bits(v) < pow256(width_of(value_kind(v))),
{
    lemma_width_pow256_values();
}

/// The kind a value belongs to.
pub fn kind_of(v: &NumericValue) -> (r: NumericKind)
    ensures
        r == value_kind(*v),
{
    match v {
        NumericValue::Int8(_) => NumericKind::Int8,
        NumericValue::UInt8(_) => NumericKind::UInt8,
        NumericValue::Int16(_) => NumericKind::Int16,
        NumericValue::UInt16(_) => NumericKind::UInt16,
        NumericValue::Int32(_) => NumericKind::Int32,
        NumericValue::UInt32(_) => NumericKind::UInt32,
        NumericValue::Int64(_) => NumericKind::Int64,
        NumericValue::UInt64(_) => NumericKind::UInt64,
        NumericValue::Float32Bits(_) => NumericKind::Float32,
        NumericValue::Float64Bits(_) => NumericKind::Float64,
    }
}

/// The value's wire bit pattern, zero-extended into a `u64`.
fn value_bits_exec(v: &NumericValue) -> (r: u64)
    ensures
        r as nat == value_bits(*v),
{
    match v {
        NumericValue::Int8(x) => {
            if *x >= 0 {
                *x as u64
            } else {
                ((*x as i16) + 0x100) as u64
            }
        },
        NumericValue::UInt8(x) => *x as u64,
        NumericValue::Int16(x) => {
            if *x >= 0 {
                *x as u64
            } else {
                ((*x as i32) + 0x10000) as u64
            }
        },
        NumericValue::UInt16(x) => *x as u64,
        NumericValue::Int32(x) => {
            if *x >= 0 {
                *x as u64
            } else {
                ((*x as i64) + 0x100000000) as u64
            }
        },
        NumericValue::UInt32(x) => *x as u64,
        NumericValue::Int64(x) => {
            if *x >= 0 {
                *x as u64
            } else {
                ((*x as i128) + 0x10000000000000000) as u64
            }
        },
        NumericValue::UInt64(x) => *x,
        NumericValue::Float32Bits(x) => *x as u64,
        NumericValue::Float64Bits(x) => *x,
    }
}

/// The value of the given kind whose wire bit pattern is `bits`.
fn bits_to_value_exec(kind: NumericKind, bits: u64) -> (r: NumericValue)
    requires
        (bits as nat) < pow256(width_of(kind)),
    ensures
        r == bits_to_value(kind, bits as nat),
{
    proof {
        lemma_width_pow256_values();
    }
    match kind {
        NumericKind::Int8 => NumericValue::Int8(
            if bits < 0x80 {
                bits as i8
            } else {
                ((bits as i16) - 0x100) as i8
            },
        ),
        NumericKind::UInt8 => NumericValue::UInt8(bits as u8),
        NumericKind::Int16 => NumericValue::Int16(
            if bits < 0x8000 {
                bits as i16
            } else {
                ((bits as i32) - 0x10000) as i16
            },
        ),
        NumericKind::UInt16 => NumericValue::UInt16(bits as u16),
        NumericKind::Int32 => NumericValue::Int32(
            if bits < 0x80000000 {
                bits as i32
            } else {
                ((bits as i64) - 0x100000000) as i32
            },
        ),
        NumericKind::UInt32 => NumericValue::UInt32(bits as u32),
        NumericKind::Int64 => NumericValue::Int64(
            if bits < 0x8000000000000000 {
                bits as i64
            } else {
                (((bits as i128) - 0x10000000000000000) as i64)
            },
        ),
        NumericKind::UInt64 => NumericValue::UInt64(bits),
        NumericKind::Float32 => NumericValue::Float32Bits(bits as u32),
        NumericKind::Float64 => NumericValue::Float64Bits(bits),
    }
}

/// Append the value's wire bytes to the cursor: exactly
/// `width_of(value_kind(v))` bytes, in the cursor's little-endian order.
/// Never fails; the read position does not move.
pub fn encode(v: &NumericValue, cursor: &mut Cursor)
    requires
        old(cursor).wf(),
    ensures
        final(cursor).wf(),
        final(cursor).bytes() == old(cursor).bytes() + wire_bytes(*v),
        final(cursor).pos() == old(cursor).pos(),
{
    let bits = value_bits_exec(v);
    let n = reserved_size(kind_of(v));
    let bytes = le_bytes(bits, n);
    cursor.write_fixed(&bytes);
}

/// Read a value of the given kind at the cursor's read position: exactly
/// `width_of(kind)` bytes when that many remain, advancing past them; when
/// fewer remain, fail with `Underrun` and leave the position untouched.
pub fn decode(kind: NumericKind, cursor: &mut Cursor) -> (r: Result<
    NumericValue,
    DecodeError,
>)
    requires
        old(cursor).wf(),
    ensures
        final(cursor).wf(),
        final(cursor).bytes() == old(cursor).bytes(),
        old(cursor).remaining() >= width_of(kind) ==> {
            &&& r == Ok::<NumericValue, DecodeError>(
                value_of(
                    kind,
                    old(cursor).bytes().subrange(
                        old(cursor).pos(),
                        old(cursor).pos() + width_of(kind),
                    ),
                ),
            )
            &&& final(cursor).pos() == old(cursor).pos() + width_of(kind)
        },
        old(cursor).remaining() < width_of(kind) ==> {
            &&& r == Err::<NumericValue, DecodeError>(DecodeError::Underrun)
            &&& final(cursor).pos() == old(cursor).pos()
        },
{
    let n = reserved_size(kind);
    match cursor.read_fixed(n) {
        Ok(bytes) => {
            proof {
                lemma_le_value_bound(bytes@);
            }
            let bits = le_value_of(&bytes);
            Ok(bits_to_value_exec(kind, bits))
        },
        Err(e) => Err(e),
    }
}

/// Law (round-trip identity): for every value, decoding the exact bytes that
/// encoding produces yields the value back, bit for bit.
pub proof fn lemma_round_trip(v: NumericValue)
    ensures
        value_of(value_kind(v), wire_bytes(v)) == v,
{
    lemma_value_bits_fit(v);
    lemma_le_round_trip(value_bits(v), width_of(value_kind(v)));
    lemma_width_pow256_values();
}

/// Law (fixed width): a value's wire bytes are exactly as many as its
/// kind's reserved size, whatever the value.
pub proof fn lemma_fixed_width(v: NumericValue)
    ensures
        wire_bytes(v).len() == width_of(value_kind(v)),
{
    lemma_le_bytes_len(value_bits(v), width_of(value_kind(v)));
}

} // verus!
